//! Tests of archive discovery and link-plan emission.

use mlir_sys::discovery::discover_libraries;
use mlir_sys::link_plan::LinkDirective;
use mlir_sys::link_plan::TargetPlatform;
use mlir_sys::link_plan::emit_link_plan;
use mlir_sys::link_plan::optional_libraries;
use mlir_sys::link_plan::system_libraries;
use mlir_sys::resolver::MlirConfig;

fn names(v: &[&str]) -> Vec<String> {
    v.iter().map(|s| s.to_string()).collect()
}

#[test]
fn test_two_groups_from_listing() {
    // The two tracked prefixes split the archives into two groups, each
    // stripped of the fixed prefix and suffix and sorted.
    let entries = names(&["libMLIRFooA.a", "libMLIRFooB.a", "libLLVMBarX.a"]);
    let (group_a, group_b) = discover_libraries(&entries);
    assert_eq!(group_a, names(&["MLIRFooA", "MLIRFooB"]));
    assert_eq!(group_b, names(&["LLVMBarX"]));
    assert!(group_a.iter().all(|n| !group_b.contains(n)));
}

#[test]
fn test_discovery_is_deterministic() {
    // Whatever order the listing arrives in, and however often an entry
    // repeats, each group comes out sorted and duplicate-free.
    let shuffled = names(&[
        "libMLIRZeta.a",
        "libLLVMCore.a",
        "libMLIRAlpha.a",
        "libMLIRZeta.a",
        "libLLVMAnalysis.a",
        "libMLIRAlpha.a",
    ]);
    let (group_a, group_b) = discover_libraries(&shuffled);
    assert_eq!(group_a, names(&["MLIRAlpha", "MLIRZeta"]));
    assert_eq!(group_b, names(&["LLVMAnalysis", "LLVMCore"]));
}

#[test]
fn test_non_matching_entries_are_ignored() {
    let entries = names(&[
        "libMLIRSupport.so",
        "libMLIR.a.bak",
        "MLIRTools.a",
        "libmlirlower.a",
        "README.txt",
        "libLLVMSupport.a",
    ]);
    let (group_a, group_b) = discover_libraries(&entries);
    assert!(group_a.is_empty());
    assert_eq!(group_b, names(&["LLVMSupport"]));
}

#[test]
fn test_empty_listing_gives_empty_groups() {
    // An unreadable library directory degrades to an empty listing: both
    // groups are empty and nothing fails here.
    let (group_a, group_b) = discover_libraries(&Vec::new());
    assert!(group_a.is_empty());
    assert!(group_b.is_empty());
}

fn directive_names(plan: &[LinkDirective]) -> Vec<String> {
    plan.iter()
        .map(|d| match d {
            LinkDirective::SearchPath(p) => format!("search:{}", p),
            LinkDirective::LinkStatic(n) => format!("static:{}", n),
            LinkDirective::LinkDynamic(n) => format!("dylib:{}", n),
        })
        .collect()
}

#[test]
fn test_link_plan_order() {
    let config = MlirConfig { lib_dir: "/o/lib".to_string(), include_dirs: names(&["/o/include"]) };
    let group_a = names(&["MLIRIR", "MLIRSupport"]);
    let group_b = names(&["LLVMCore"]);
    let flags = vec![true, false, false, true];
    let plan = emit_link_plan(&config, &group_a, &group_b, TargetPlatform::Linux, &flags);
    assert_eq!(
        directive_names(&plan),
        vec![
            "search:/o/lib".to_string(),
            "static:MLIRIR".to_string(),
            "static:MLIRSupport".to_string(),
            "static:LLVMCore".to_string(),
            "dylib:stdc++".to_string(),
            "dylib:m".to_string(),
            "dylib:z".to_string(),
            "dylib:pthread".to_string(),
            "dylib:dl".to_string(),
            "dylib:rt".to_string(),
            "dylib:tinfo".to_string(),
            "dylib:xml2".to_string(),
        ]
    );
}

#[test]
fn test_link_plan_other_platforms() {
    let config = MlirConfig { lib_dir: "/o/lib".to_string(), include_dirs: names(&["/o/include"]) };
    let none: Vec<String> = Vec::new();
    let plan_mac = emit_link_plan(&config, &none, &none, TargetPlatform::MacOs, &Vec::new());
    assert_eq!(
        directive_names(&plan_mac),
        vec![
            "search:/o/lib".to_string(),
            "dylib:c++".to_string(),
            "dylib:z".to_string(),
            "dylib:curses".to_string(),
        ]
    );
    let plan_win = emit_link_plan(&config, &none, &none, TargetPlatform::Windows, &Vec::new());
    assert_eq!(
        directive_names(&plan_win),
        vec![
            "search:/o/lib".to_string(),
            "dylib:shell32".to_string(),
            "dylib:ole32".to_string(),
            "dylib:uuid".to_string(),
        ]
    );
}

#[test]
fn test_optional_probe_lists() {
    assert_eq!(optional_libraries(TargetPlatform::Linux), names(&["tinfo", "ncurses", "ffi", "xml2"]));
    assert!(optional_libraries(TargetPlatform::MacOs).is_empty());
    assert!(optional_libraries(TargetPlatform::Windows).is_empty());
    assert_eq!(system_libraries(TargetPlatform::Linux).len(), 6);
}

#[test]
fn test_absent_optional_libraries_are_not_fatal() {
    // Every optional probe failing only shortens the plan.
    let config = MlirConfig { lib_dir: "/o/lib".to_string(), include_dirs: names(&["/o/include"]) };
    let none: Vec<String> = Vec::new();
    let flags = vec![false, false, false, false];
    let plan = emit_link_plan(&config, &none, &none, TargetPlatform::Linux, &flags);
    assert_eq!(plan.len(), 1 + 6);
}
