//! Discovery of static archive artifacts in a resolved library directory.
//!
//! Given the names found in the library directory (a single, non-recursive
//! listing), every entry matching the static-archive naming convention of
//! one of the two tracked projects is stripped of the fixed `lib` prefix and
//! fixed `.a` suffix and classified into that project's link group. Each
//! group is a set — duplicate-free — and is handed on sorted ascending, so
//! the emitted link line is deterministic whatever order the listing came
//! in. An unreadable directory is simply an empty listing: both groups come
//! out empty, and linking fails later with a more specific error.

use vstd::prelude::*;
use vstd::string::StrSliceExecFns;
use crate::text::contains_view;
use crate::text::distinct_strings;
use crate::text::insert_sorted_unique;
use crate::text::sorted_strings;
use crate::text::str_ends_with;
use crate::text::str_starts_with;

verus! {

/// Whether entry `e` matches the archive naming convention for the project
/// whose archives start with `prefix`: that prefix, and the fixed archive
/// suffix.
pub open spec fn archive_match(e: Seq<char>, prefix: Seq<char>) -> bool {
    prefix.is_prefix_of(e) && ".a"@.is_suffix_of(e)
}

/// The library name inside an archive file name: the text between the fixed
/// `lib` prefix and the fixed `.a` suffix.
pub open spec fn archive_stem(e: Seq<char>) -> Seq<char> {
    e.subrange(3, e.len() - 2)
}

/// Whether some entry of the listing matches the convention for `prefix` and
/// strips to `y`.
pub open spec fn group_member(entries: Seq<String>, prefix: Seq<char>, y: Seq<char>) -> bool {
    exists|i: int|
        0 <= i < entries.len() && archive_match(entries[i]@, prefix) && archive_stem(entries[i]@)
            == y
}

/// Classify the library directory's entries into the two link groups, each
/// duplicate-free and sorted ascending: the first group holds the stems of
/// the entries matching the primary convention, the second those matching
/// the secondary convention.
pub fn discover_libraries(entries: &Vec<String>) -> (r: (Vec<String>, Vec<String>))
    ensures
        sorted_strings(r.0@),
        distinct_strings(r.0@),
        sorted_strings(r.1@),
        distinct_strings(r.1@),
        forall|y: Seq<char>| contains_view(r.0@, y) == group_member(entries@, "libMLIR"@, y),
        forall|y: Seq<char>| contains_view(r.1@, y) == group_member(entries@, "libLLVM"@, y),
{
    let mut mlir_libs: Vec<String> = Vec::new();
    let mut llvm_libs: Vec<String> = Vec::new();
    let n: usize = entries.len();
    let mut i: usize = 0;
    while i < n
        invariant
            0 <= i <= n,
            n == entries@.len(),
            sorted_strings(mlir_libs@),
            distinct_strings(mlir_libs@),
            sorted_strings(llvm_libs@),
            distinct_strings(llvm_libs@),
            forall|y: Seq<char>|
                contains_view(mlir_libs@, y) == group_member(
                    entries@.take(i as int),
                    "libMLIR"@,
                    y,
                ),
            forall|y: Seq<char>|
                contains_view(llvm_libs@, y) == group_member(
                    entries@.take(i as int),
                    "libLLVM"@,
                    y,
                ),
        decreases n - i,
    {
        let e: &String = &entries[i];
        let ghost prev_mlir = mlir_libs@;
        let ghost prev_llvm = llvm_libs@;
        let is_mlir = str_starts_with(e.as_str(), "libMLIR") && str_ends_with(e.as_str(), ".a");
        let is_llvm = str_starts_with(e.as_str(), "libLLVM") && str_ends_with(e.as_str(), ".a");
        if is_mlir {
            proof {
                reveal_strlit("libMLIR");
            }
            let len: usize = e.as_str().unicode_len();
            let name = e.as_str().substring_char(3, len - 2).to_owned();
            insert_sorted_unique(&mut mlir_libs, name);
        }
        if is_llvm {
            proof {
                reveal_strlit("libLLVM");
            }
            let len: usize = e.as_str().unicode_len();
            let name = e.as_str().substring_char(3, len - 2).to_owned();
            insert_sorted_unique(&mut llvm_libs, name);
        }
        proof {
            let t1 = entries@.take(i + 1);
            assert(forall|k: int| 0 <= k < t1.len() ==> t1[k] == entries@[k]);
            assert forall|y: Seq<char>|
                contains_view(mlir_libs@, y) == group_member(t1, "libMLIR"@, y) by {
                if contains_view(mlir_libs@, y) {
                    if is_mlir && y == archive_stem(e@) {
                        assert(archive_match(t1[i as int]@, "libMLIR"@));
                        assert(group_member(t1, "libMLIR"@, y));
                    } else {
                        assert(contains_view(prev_mlir, y));
                        let k = choose|k: int|
                            0 <= k < entries@.take(i as int).len() && archive_match(
                                entries@.take(i as int)[k]@,
                                "libMLIR"@,
                            ) && archive_stem(entries@.take(i as int)[k]@) == y;
                        assert(archive_match(t1[k]@, "libMLIR"@) && archive_stem(t1[k]@) == y);
                    }
                }
                if group_member(t1, "libMLIR"@, y) {
                    let k = choose|k: int|
                        0 <= k < t1.len() && archive_match(t1[k]@, "libMLIR"@) && archive_stem(
                            t1[k]@,
                        ) == y;
                    if k < i {
                        assert(archive_match(entries@.take(i as int)[k]@, "libMLIR"@)
                            && archive_stem(entries@.take(i as int)[k]@) == y);
                        assert(contains_view(prev_mlir, y));
                    } else {
                        assert(archive_match(e@, "libMLIR"@));
                        assert(is_mlir);
                        assert(y == archive_stem(e@));
                    }
                }
            }
            assert forall|y: Seq<char>|
                contains_view(llvm_libs@, y) == group_member(t1, "libLLVM"@, y) by {
                if contains_view(llvm_libs@, y) {
                    if is_llvm && y == archive_stem(e@) {
                        assert(archive_match(t1[i as int]@, "libLLVM"@));
                        assert(group_member(t1, "libLLVM"@, y));
                    } else {
                        assert(contains_view(prev_llvm, y));
                        let k = choose|k: int|
                            0 <= k < entries@.take(i as int).len() && archive_match(
                                entries@.take(i as int)[k]@,
                                "libLLVM"@,
                            ) && archive_stem(entries@.take(i as int)[k]@) == y;
                        assert(archive_match(t1[k]@, "libLLVM"@) && archive_stem(t1[k]@) == y);
                    }
                }
                if group_member(t1, "libLLVM"@, y) {
                    let k = choose|k: int|
                        0 <= k < t1.len() && archive_match(t1[k]@, "libLLVM"@) && archive_stem(
                            t1[k]@,
                        ) == y;
                    if k < i {
                        assert(archive_match(entries@.take(i as int)[k]@, "libLLVM"@)
                            && archive_stem(entries@.take(i as int)[k]@) == y);
                        assert(contains_view(prev_llvm, y));
                    } else {
                        assert(archive_match(e@, "libLLVM"@));
                        assert(is_llvm);
                        assert(y == archive_stem(e@));
                    }
                }
            }
        }
        i = i + 1;
    }
    proof {
        assert(entries@.take(n as int) =~= entries@);
    }
    (mlir_libs, llvm_libs)
}

/// Determinism law, disjointness half: no library name can belong to both
/// link groups — a stem stripped from a primary-convention archive starts
/// differently from one stripped from a secondary-convention archive.
pub proof fn lemma_link_groups_disjoint(entries: Seq<String>, y: Seq<char>)
    ensures
        !(group_member(entries, "libMLIR"@, y) && group_member(entries, "libLLVM"@, y)),
{
    reveal_strlit("libMLIR");
    reveal_strlit("libLLVM");
    if group_member(entries, "libMLIR"@, y) && group_member(entries, "libLLVM"@, y) {
        let i = choose|i: int|
            0 <= i < entries.len() && archive_match(entries[i]@, "libMLIR"@) && archive_stem(
                entries[i]@,
            ) == y;
        let j = choose|j: int|
            0 <= j < entries.len() && archive_match(entries[j]@, "libLLVM"@) && archive_stem(
                entries[j]@,
            ) == y;
        let e1 = entries[i]@;
        let e2 = entries[j]@;
        assert(e1.subrange(0, 7)[3] == e1[3]);
        assert(e1[3] == 'M');
        assert(e2.subrange(0, 7)[3] == e2[3]);
        assert(e2[3] == 'L');
        assert(archive_stem(e1)[0] == e1[3]);
        assert(archive_stem(e2)[0] == e2[3]);
        assert(false);
    }
}

} // verus!
