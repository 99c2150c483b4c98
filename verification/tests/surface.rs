//! Tests of the binding-surface policy and the text utilities beneath the
//! configuration layer.

use mlir_sys::paths::path_join;
use mlir_sys::paths::path_parent;
use mlir_sys::policy::SymbolKind;
use mlir_sys::policy::mlir_binding_policy;
use mlir_sys::policy::surface_includes;
use mlir_sys::text::parse_decimal;
use mlir_sys::text::str_ends_with;
use mlir_sys::text::str_lex_le;
use mlir_sys::text::str_starts_with;
use mlir_sys::text::str_trim;

#[test]
fn test_surface_allows_convention_symbols() {
    let policy = mlir_binding_policy();
    assert!(surface_includes(&policy, SymbolKind::Function, &"mlirContextCreate".to_string()));
    assert!(surface_includes(&policy, SymbolKind::Type, &"MlirContext".to_string()));
    assert!(surface_includes(&policy, SymbolKind::Constant, &"MLIR_CAPI_VERSION".to_string()));
    assert!(surface_includes(&policy, SymbolKind::Type, &"MlirLlvmThreadPool".to_string()));
    assert!(surface_includes(&policy, SymbolKind::Function, &"mlirLlvmThreadPoolCreate".to_string()));
}

#[test]
fn test_surface_blocks_handwritten_symbols() {
    // Every header-only function reimplemented in this crate is blocked, as
    // is the hand-defined handle type; block entries beat allow patterns.
    let policy = mlir_binding_policy();
    for name in [
        "mlirStringRefCreate",
        "mlirLogicalResultIsSuccess",
        "mlirLogicalResultIsFailure",
        "mlirLogicalResultSuccess",
        "mlirLogicalResultFailure",
        "mlirContextIsNull",
        "mlirDialectIsNull",
        "mlirDialectRegistryIsNull",
        "mlirLocationIsNull",
        "mlirModuleIsNull",
        "mlirOperationIsNull",
        "mlirRegionIsNull",
        "mlirBlockIsNull",
        "mlirValueIsNull",
        "mlirTypeIsNull",
        "mlirAttributeIsNull",
        "mlirSymbolTableIsNull",
        "mlirTypeIDIsNull",
        "mlirAffineMapIsNull",
    ] {
        assert!(!surface_includes(&policy, SymbolKind::Function, &name.to_string()), "{}", name);
    }
    assert!(!surface_includes(&policy, SymbolKind::Type, &"MlirAffineMap".to_string()));
}

#[test]
fn test_surface_excludes_foreign_symbols() {
    let policy = mlir_binding_policy();
    assert!(!surface_includes(&policy, SymbolKind::Function, &"printf".to_string()));
    assert!(!surface_includes(&policy, SymbolKind::Function, &"MlirContext".to_string()));
    assert!(!surface_includes(&policy, SymbolKind::Type, &"mlirContextCreate".to_string()));
    assert!(!surface_includes(&policy, SymbolKind::Constant, &"LLVM_VERSION".to_string()));
}

#[test]
fn test_exact_pattern_is_not_a_prefix() {
    // The one non-wildcard allow entry matches its name exactly.
    let policy = mlir_binding_policy();
    assert!(surface_includes(&policy, SymbolKind::Type, &"MlirLlvmThreadPoolRef".to_string()));
    // Still included, via the wildcard type pattern; but a name outside the
    // conventions matching no pattern stays out.
    assert!(!surface_includes(&policy, SymbolKind::Type, &"ThreadPool".to_string()));
}

#[test]
fn test_parse_decimal_exact_values() {
    assert_eq!(parse_decimal("0"), Some(0));
    assert_eq!(parse_decimal("21"), Some(21));
    assert_eq!(parse_decimal("18446744073709551615"), Some(u64::MAX));
    assert_eq!(parse_decimal("18446744073709551616"), None);
    assert_eq!(parse_decimal(""), None);
    assert_eq!(parse_decimal("2 1"), None);
    assert_eq!(parse_decimal("-3"), None);
}

#[test]
fn test_trim_and_affix_checks() {
    assert_eq!(str_trim("  /usr/lib \n"), "/usr/lib");
    assert_eq!(str_trim("\r\n"), "");
    assert_eq!(str_trim("x"), "x");
    assert!(str_starts_with("libMLIRFoo.a", "libMLIR"));
    assert!(!str_starts_with("lib", "libMLIR"));
    assert!(str_ends_with("libMLIRFoo.a", ".a"));
    assert!(!str_ends_with("libMLIRFoo.so", ".a"));
}

#[test]
fn test_lexicographic_order() {
    assert!(str_lex_le("MLIRAlpha", "MLIRZeta"));
    assert!(!str_lex_le("MLIRZeta", "MLIRAlpha"));
    assert!(str_lex_le("MLIR", "MLIRAlpha"));
    assert!(str_lex_le("same", "same"));
}

#[test]
fn test_path_algebra() {
    assert_eq!(path_join("/a/b", "include"), "/a/b/include");
    assert_eq!(path_join("/a/b/", "include"), "/a/b/include");
    assert_eq!(path_join("", "include"), "include");
    assert_eq!(path_parent("/a/b/c"), Some("/a/b".to_string()));
    assert_eq!(path_parent("/a"), Some("/".to_string()));
    assert_eq!(path_parent("/"), None);
    assert_eq!(path_parent("plain"), None);
}
