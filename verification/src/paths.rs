//! Textual path manipulation.
//!
//! Paths are plain strings with `/` as the separator. Joining appends a
//! component behind a single separator; the parent of a path is the text
//! before its last separator. This is the path algebra the resolver works
//! with; turning these strings into real filesystem probes is the caller's
//! business.

use vstd::prelude::*;
use vstd::string::StrSliceExecFns;
use vstd::string::StringExecFns;
use crate::text::rfind_char;
use crate::text::lemma_rfind_char_is_last;
use crate::text::str_rfind_char;

verus! {

/// The view of joining component `b` behind path `a`: `a`, one separator
/// (unless `a` already ends in one), then `b`. Joining behind the empty path
/// yields `b` itself.
pub open spec fn join_spec(a: Seq<char>, b: Seq<char>) -> Seq<char> {
    if a.len() == 0 {
        b
    } else if a.last() == '/' {
        a + b
    } else {
        a + "/"@ + b
    }
}

/// The view of the parent of `p`: the text before the last separator, the
/// lone root separator when that is all that is left, and nothing when `p`
/// has no separator at all.
pub open spec fn parent_spec(p: Seq<char>) -> Option<Seq<char>> {
    let r = rfind_char(p, '/');
    if r == -1 {
        None
    } else if r == 0 {
        if p.len() == 1 {
            None
        } else {
            Some(p.take(1))
        }
    } else {
        Some(p.take(r))
    }
}

/// Join component `b` behind path `a`.
pub fn path_join(a: &str, b: &str) -> (r: String)
    ensures
        r@ == join_spec(a@, b@),
{
    let n: usize = a.unicode_len();
    if n == 0 {
        return b.to_owned();
    }
    let mut r = a.to_owned();
    if a.get_char(n - 1) != '/' {
        r.append("/");
    }
    r.append(b);
    proof {
        assert(r@ =~= join_spec(a@, b@));
    }
    r
}

/// The parent directory of `p`, textually.
pub fn path_parent(p: &str) -> (r: Option<String>)
    ensures
        match r {
            Some(q) => parent_spec(p@) == Some(q@),
            None => parent_spec(p@) is None,
        },
{
    match str_rfind_char(p, '/') {
        None => None,
        Some(ix) => {
            proof {
                lemma_rfind_char_is_last(p@, '/');
            }
            if ix == 0 {
                if p.unicode_len() == 1 {
                    None
                } else {
                    Some(p.substring_char(0, 1).to_owned())
                }
            } else {
                Some(p.substring_char(0, ix).to_owned())
            }
        },
    }
}

} // verus!
