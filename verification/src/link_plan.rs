//! The ordered link plan for a resolved installation.
//!
//! The plan is emitted in a fixed order: the library search path, one
//! static-link directive per discovered primary-group archive, one per
//! secondary-group archive (each group already sorted), the fixed system
//! libraries of the target platform family, and finally those optional
//! system libraries whose availability probe succeeded — a missing optional
//! library is never an error, its directive is simply not emitted.

use vstd::prelude::*;
use crate::resolver::MlirConfig;
use crate::text::string_views;

verus! {

/// The three platform families with distinct fixed system-library lists.
#[derive(Clone, Copy, Debug, PartialEq, Eq, Structural)]
pub enum TargetPlatform {
    Linux,
    MacOs,
    Windows,
}

/// One directive of the link plan.
#[derive(Clone, Debug)]
pub enum LinkDirective {
    /// Add a native library search path.
    SearchPath(String),
    /// Link a static library by name.
    LinkStatic(String),
    /// Link a library by name, letting the linker pick the flavor.
    LinkDynamic(String),
}

/// Whether `d` is the search-path directive for `p`.
pub open spec fn directive_is_search(d: LinkDirective, p: Seq<char>) -> bool {
    d matches LinkDirective::SearchPath(s) && s@ == p
}

/// Whether `d` is the static-link directive for `n`.
pub open spec fn directive_is_static(d: LinkDirective, n: Seq<char>) -> bool {
    d matches LinkDirective::LinkStatic(s) && s@ == n
}

/// Whether `d` is the plain link directive for `n`.
pub open spec fn directive_is_dynamic(d: LinkDirective, n: Seq<char>) -> bool {
    d matches LinkDirective::LinkDynamic(s) && s@ == n
}

/// The fixed system libraries of each platform family, in emission order.
pub open spec fn system_libraries_views(p: TargetPlatform) -> Seq<Seq<char>> {
    match p {
        TargetPlatform::Linux => seq!["stdc++"@, "m"@, "z"@, "pthread"@, "dl"@, "rt"@],
        TargetPlatform::MacOs => seq!["c++"@, "z"@, "curses"@],
        TargetPlatform::Windows => seq!["shell32"@, "ole32"@, "uuid"@],
    }
}

/// The optional system libraries probed for availability, in probe order.
pub open spec fn optional_libraries_views(p: TargetPlatform) -> Seq<Seq<char>> {
    match p {
        TargetPlatform::Linux => seq!["tinfo"@, "ncurses"@, "ffi"@, "xml2"@],
        TargetPlatform::MacOs => Seq::empty(),
        TargetPlatform::Windows => Seq::empty(),
    }
}

/// The names kept by the availability flags: the sub-list of `names` whose
/// flag is set, in order.
pub open spec fn chosen_views(names: Seq<Seq<char>>, flags: Seq<bool>) -> Seq<Seq<char>>
    decreases names.len(),
{
    if names.len() == 0 || flags.len() < names.len() {
        Seq::empty()
    } else {
        chosen_views(names.drop_last(), flags.drop_last()) + (if flags[names.len() - 1] {
            seq![names.last()]
        } else {
            Seq::empty()
        })
    }
}

/// The fixed system libraries of a platform family, in emission order.
pub fn system_libraries(p: TargetPlatform) -> (r: Vec<String>)
    ensures
        string_views(r@) =~~= system_libraries_views(p),
{
    let mut v: Vec<String> = Vec::new();
    match p {
        TargetPlatform::Linux => {
            v.push("stdc++".to_owned());
            v.push("m".to_owned());
            v.push("z".to_owned());
            v.push("pthread".to_owned());
            v.push("dl".to_owned());
            v.push("rt".to_owned());
        },
        TargetPlatform::MacOs => {
            v.push("c++".to_owned());
            v.push("z".to_owned());
            v.push("curses".to_owned());
        },
        TargetPlatform::Windows => {
            v.push("shell32".to_owned());
            v.push("ole32".to_owned());
            v.push("uuid".to_owned());
        },
    }
    v
}

/// The optional system libraries a caller should probe, in probe order.
pub fn optional_libraries(p: TargetPlatform) -> (r: Vec<String>)
    ensures
        string_views(r@) =~~= optional_libraries_views(p),
{
    let mut v: Vec<String> = Vec::new();
    match p {
        TargetPlatform::Linux => {
            v.push("tinfo".to_owned());
            v.push("ncurses".to_owned());
            v.push("ffi".to_owned());
            v.push("xml2".to_owned());
        },
        TargetPlatform::MacOs => {},
        TargetPlatform::Windows => {},
    }
    v
}

/// Emit the ordered link plan: the search path, the two sorted static
/// groups, the platform's fixed system libraries, then the optional
/// libraries whose probe flag is set. `optional_present` holds one
/// availability flag per entry of [`optional_libraries_views`].
pub fn emit_link_plan(
    config: &MlirConfig,
    mlir_libs: &Vec<String>,
    llvm_libs: &Vec<String>,
    platform: TargetPlatform,
    optional_present: &Vec<bool>,
) -> (r: Vec<LinkDirective>)
    requires
        optional_present@.len() == optional_libraries_views(platform).len(),
    ensures
        ({
            let na = mlir_libs@.len() as int;
            let nb = llvm_libs@.len() as int;
            let sys = system_libraries_views(platform);
            let chosen = chosen_views(optional_libraries_views(platform), optional_present@);
            &&& r@.len() == 1 + na + nb + sys.len() + chosen.len()
            &&& directive_is_search(r@[0], config.lib_dir@)
            &&& forall|k: int| 0 <= k < na ==> directive_is_static(r@[1 + k], mlir_libs@[k]@)
            &&& forall|k: int|
                0 <= k < nb ==> directive_is_static(r@[1 + na + k], llvm_libs@[k]@)
            &&& forall|k: int|
                0 <= k < sys.len() ==> directive_is_dynamic(r@[1 + na + nb + k], sys[k])
            &&& forall|k: int|
                0 <= k < chosen.len() ==> directive_is_dynamic(
                    r@[1 + na + nb + sys.len() + k],
                    chosen[k],
                )
        }),
{
    let ghost na = mlir_libs@.len() as int;
    let ghost nb = llvm_libs@.len() as int;
    let ghost sys = system_libraries_views(platform);
    let mut r: Vec<LinkDirective> = Vec::new();
    r.push(LinkDirective::SearchPath(config.lib_dir.clone()));
    let mut i: usize = 0;
    while i < mlir_libs.len()
        invariant
            0 <= i <= mlir_libs@.len(),
            na == mlir_libs@.len() as int,
            r@.len() == 1 + i,
            directive_is_search(r@[0], config.lib_dir@),
            forall|k: int| 0 <= k < i ==> directive_is_static(r@[1 + k], mlir_libs@[k]@),
        decreases mlir_libs@.len() - i,
    {
        r.push(LinkDirective::LinkStatic(mlir_libs[i].clone()));
        i = i + 1;
    }
    let mut i: usize = 0;
    while i < llvm_libs.len()
        invariant
            0 <= i <= llvm_libs@.len(),
            na == mlir_libs@.len() as int,
            nb == llvm_libs@.len() as int,
            r@.len() == 1 + na + i,
            directive_is_search(r@[0], config.lib_dir@),
            forall|k: int| 0 <= k < na ==> directive_is_static(r@[1 + k], mlir_libs@[k]@),
            forall|k: int| 0 <= k < i ==> directive_is_static(r@[1 + na + k], llvm_libs@[k]@),
        decreases llvm_libs@.len() - i,
    {
        r.push(LinkDirective::LinkStatic(llvm_libs[i].clone()));
        i = i + 1;
    }
    let sys_libs = system_libraries(platform);
    let mut i: usize = 0;
    while i < sys_libs.len()
        invariant
            0 <= i <= sys_libs@.len(),
            na == mlir_libs@.len() as int,
            nb == llvm_libs@.len() as int,
            sys == system_libraries_views(platform),
            sys_libs@.len() == sys.len(),
            forall|k: int| 0 <= k < sys.len() ==> sys_libs@[k]@ == sys[k],
            r@.len() == 1 + na + nb + i,
            directive_is_search(r@[0], config.lib_dir@),
            forall|k: int| 0 <= k < na ==> directive_is_static(r@[1 + k], mlir_libs@[k]@),
            forall|k: int| 0 <= k < nb ==> directive_is_static(r@[1 + na + k], llvm_libs@[k]@),
            forall|k: int| 0 <= k < i ==> directive_is_dynamic(r@[1 + na + nb + k], sys[k]),
        decreases sys_libs@.len() - i,
    {
        r.push(LinkDirective::LinkDynamic(sys_libs[i].clone()));
        i = i + 1;
    }
    let opt_libs = optional_libraries(platform);
    let ghost opts = optional_libraries_views(platform);
    let mut i: usize = 0;
    while i < opt_libs.len()
        invariant
            0 <= i <= opt_libs@.len(),
            na == mlir_libs@.len() as int,
            nb == llvm_libs@.len() as int,
            sys == system_libraries_views(platform),
            opts == optional_libraries_views(platform),
            opt_libs@.len() == opts.len(),
            optional_present@.len() == opts.len(),
            forall|k: int| 0 <= k < opts.len() ==> opt_libs@[k]@ == opts[k],
            r@.len() == 1 + na + nb + sys.len() + chosen_views(
                opts.take(i as int),
                optional_present@.take(i as int),
            ).len(),
            directive_is_search(r@[0], config.lib_dir@),
            forall|k: int| 0 <= k < na ==> directive_is_static(r@[1 + k], mlir_libs@[k]@),
            forall|k: int| 0 <= k < nb ==> directive_is_static(r@[1 + na + k], llvm_libs@[k]@),
            forall|k: int|
                0 <= k < sys.len() ==> directive_is_dynamic(r@[1 + na + nb + k], sys[k]),
            forall|k: int|
                0 <= k < chosen_views(opts.take(i as int), optional_present@.take(i as int)).len()
                    ==> directive_is_dynamic(
                    r@[1 + na + nb + sys.len() + k],
                    chosen_views(opts.take(i as int), optional_present@.take(i as int))[k],
                ),
        decreases opt_libs@.len() - i,
    {
        proof {
            let c0 = opts.take(i as int);
            let f0 = optional_present@.take(i as int);
            let c1 = opts.take(i + 1);
            let f1 = optional_present@.take(i + 1);
            assert(c1.drop_last() =~= c0);
            assert(f1.drop_last() =~= f0);
            assert(c1.len() == i + 1 && c1[i as int] == opts[i as int]);
            assert(f1[i as int] == optional_present@[i as int]);
        }
        if optional_present[i] {
            r.push(LinkDirective::LinkDynamic(opt_libs[i].clone()));
        }
        i = i + 1;
    }
    proof {
        assert(opts.take(opts.len() as int) =~= opts);
        assert(optional_present@.take(opts.len() as int) =~= optional_present@);
    }
    r
}

} // verus!
