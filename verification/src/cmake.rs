//! Recovering the source checkout location from build metadata.
//!
//! A build tree carries a key-value cache file, read line by line. A line
//! records the source directory when it starts with one of two key names and
//! carries a value behind the first `=` (up to a second `=`, if any). The
//! first such recorded value naming an existing path wins; lines whose
//! recorded path does not exist are passed over.

use vstd::prelude::*;
use vstd::string::StrSliceExecFns;
use crate::fs::FsSnapshot;
use crate::text::find_char;
use crate::text::lemma_find_char_is_first;
use crate::text::str_find_char;
use crate::text::str_starts_with;
use crate::text::str_trim;
use crate::text::trim_spec;
use crate::text::view_opt;

verus! {

/// The value a single metadata line records for the source directory: for a
/// line starting with either recognized key and carrying `=`, the trimmed
/// text between the first `=` and the next `=` or the end of the line.
pub open spec fn line_recorded_value(line: Seq<char>) -> Option<Seq<char>> {
    if !("LLVM_SOURCE_DIR:"@.is_prefix_of(line) || "CMAKE_HOME_DIRECTORY:"@.is_prefix_of(line)) {
        None
    } else {
        let e = find_char(line, '=');
        if e == -1 {
            None
        } else {
            let rest = line.skip(e + 1);
            let e2 = find_char(rest, '=');
            let raw = if e2 == -1 {
                rest
            } else {
                rest.take(e2)
            };
            Some(trim_spec(raw))
        }
    }
}

/// The source directory the metadata text records: scanning line by line
/// (line endings with or without a carriage return), the first recorded
/// value that names an existing path of `fs`.
pub open spec fn cache_scan_spec(content: Seq<char>, fs: FsSnapshot) -> Option<Seq<char>>
    decreases content.len(),
{
    if content.len() == 0 {
        None
    } else {
        let nl = find_char(content, '\n');
        let line0 = if nl == -1 {
            content
        } else {
            content.take(nl)
        };
        let line = if line0.len() > 0 && line0.last() == '\r' {
            line0.drop_last()
        } else {
            line0
        };
        let hit = match line_recorded_value(line) {
            Some(v) => if fs.has_path(v) {
                Some(v)
            } else {
                None
            },
            None => None,
        };
        if hit is Some {
            hit
        } else if 0 <= nl && nl < content.len() {
            cache_scan_spec(content.skip(nl + 1), fs)
        } else {
            None
        }
    }
}

/// A line as the scan sees it, its line ending stripped.
pub open spec fn strip_cr(line: Seq<char>) -> Seq<char> {
    if line.len() > 0 && line.last() == '\r' {
        line.drop_last()
    } else {
        line
    }
}

/// The lines of the metadata text, split at line feeds, carriage returns
/// stripped.
pub open spec fn split_lines(content: Seq<char>) -> Seq<Seq<char>>
    decreases content.len(),
{
    if content.len() == 0 {
        Seq::empty()
    } else {
        let nl = find_char(content, '\n');
        let line = strip_cr(
            if nl == -1 {
                content
            } else {
                content.take(nl)
            },
        );
        if 0 <= nl && nl < content.len() {
            seq![line] + split_lines(content.skip(nl + 1))
        } else {
            seq![line]
        }
    }
}

/// Whether a single line records a source directory naming an existing path.
pub open spec fn records_existing_source(line: Seq<char>, fs: FsSnapshot) -> bool {
    match line_recorded_value(line) {
        Some(v) => fs.has_path(v),
        None => false,
    }
}

/// The scan succeeds exactly when some line of the metadata records a source
/// directory naming an existing path, and what it yields is the value of the
/// first such line.
pub proof fn lemma_cache_scan_characterization(content: Seq<char>, fs: FsSnapshot)
    ensures
        (cache_scan_spec(content, fs) is Some) == (exists|i: int|
            0 <= i < split_lines(content).len() && #[trigger] records_existing_source(
                split_lines(content)[i],
                fs,
            )),
        cache_scan_spec(content, fs) matches Some(v) ==> exists|i: int|
            {
                &&& 0 <= i < split_lines(content).len()
                &&& #[trigger] records_existing_source(split_lines(content)[i], fs)
                &&& line_recorded_value(split_lines(content)[i]) == Some(v)
                &&& forall|j: int|
                    0 <= j < i ==> !records_existing_source(split_lines(content)[j], fs)
            },
    decreases content.len(),
{
    lemma_find_char_is_first(content, '\n');
    if content.len() == 0 {
    } else {
        let nl = find_char(content, '\n');
        let line = strip_cr(
            if nl == -1 {
                content
            } else {
                content.take(nl)
            },
        );
        let ls = split_lines(content);
        assert(ls[0] == line);
        if records_existing_source(line, fs) {
            assert(cache_scan_spec(content, fs) == line_recorded_value(line));
        } else if 0 <= nl && nl < content.len() {
            let rest = content.skip(nl + 1);
            lemma_cache_scan_characterization(rest, fs);
            assert(cache_scan_spec(content, fs) == cache_scan_spec(rest, fs));
            assert(forall|i: int|
                0 <= i < split_lines(rest).len() ==> ls[i + 1] == split_lines(rest)[i]);
            if cache_scan_spec(rest, fs) is Some {
                let i = choose|i: int|
                    {
                        &&& 0 <= i < split_lines(rest).len()
                        &&& #[trigger] records_existing_source(split_lines(rest)[i], fs)
                        &&& line_recorded_value(split_lines(rest)[i]) == cache_scan_spec(
                            rest,
                            fs,
                        )
                        &&& forall|j: int|
                            0 <= j < i ==> !records_existing_source(split_lines(rest)[j], fs)
                    };
                assert(records_existing_source(ls[i + 1], fs));
                assert(forall|j: int|
                    1 <= j < i + 1 ==> ls[j] == split_lines(rest)[j - 1]);
            }
            if exists|i: int|
                0 <= i < ls.len() && #[trigger] records_existing_source(ls[i], fs) {
                let i = choose|i: int|
                    0 <= i < ls.len() && #[trigger] records_existing_source(ls[i], fs);
                assert(i != 0);
                assert(records_existing_source(split_lines(rest)[i - 1], fs));
            }
        } else {
            assert(ls.len() == 1);
        }
    }
}

/// Scan the metadata text for a recorded source directory naming an existing
/// path, exactly as [`cache_scan_spec`] says.
pub fn cache_recorded_source_dir(content: &str, fs: &FsSnapshot) -> (r: Option<String>)
    ensures
        view_opt(r) == cache_scan_spec(content@, *fs),
    decreases content@.len(),
{
    let n: usize = content.unicode_len();
    if n == 0 {
        return None;
    }
    let nl_opt = str_find_char(content, '\n');
    proof {
        lemma_find_char_is_first(content@, '\n');
    }
    let line_end: usize = match nl_opt {
        Some(ix) => ix,
        None => n,
    };
    let line_full: &str = content.substring_char(0, line_end);
    proof {
        let nl = find_char(content@, '\n');
        if nl == -1 {
            assert(content@.subrange(0, n as int) =~= content@);
        } else {
            assert(content@.subrange(0, nl) =~= content@.take(nl));
        }
    }
    let lf_len: usize = line_full.unicode_len();
    let line: &str = if lf_len > 0 && line_full.get_char(lf_len - 1) == '\r' {
        let stripped = line_full.substring_char(0, lf_len - 1);
        proof {
            assert(line_full@.subrange(0, lf_len - 1) =~= line_full@.drop_last());
        }
        stripped
    } else {
        line_full
    };
    let mut found: Option<String> = None;
    if str_starts_with(line, "LLVM_SOURCE_DIR:") || str_starts_with(line, "CMAKE_HOME_DIRECTORY:") {
        match str_find_char(line, '=') {
            None => {},
            Some(e) => {
                proof {
                    lemma_find_char_is_first(line@, '=');
                }
                let llen: usize = line.unicode_len();
                let rest: &str = line.substring_char(e + 1, llen);
                proof {
                    assert(rest@ =~= line@.skip(e + 1));
                }
                let raw: &str = match str_find_char(rest, '=') {
                    Some(e2) => {
                        proof {
                            lemma_find_char_is_first(rest@, '=');
                            assert(rest@.subrange(0, e2 as int) =~= rest@.take(e2 as int));
                        }
                        rest.substring_char(0, e2)
                    },
                    None => rest,
                };
                let val = str_trim(raw);
                if fs.path_exists(&val) {
                    found = Some(val);
                }
            },
        }
    }
    proof {
        let nl = find_char(content@, '\n');
        let line0 = if nl == -1 {
            content@
        } else {
            content@.take(nl)
        };
        assert(line_full@ == line0);
    }
    match found {
        Some(v) => Some(v),
        None => {
            match nl_opt {
                None => None,
                Some(ix) => {
                    let tail: &str = content.substring_char(ix + 1, n);
                    proof {
                        assert(tail@ =~= content@.skip(ix + 1));
                    }
                    cache_recorded_source_dir(tail, fs)
                },
            }
        },
    }
}

} // verus!
