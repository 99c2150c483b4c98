//! Verified text utilities over `&str` / `String` values and their
//! `Seq<char>` views: prefix and suffix tests, first/last occurrence of a
//! character, whitespace trimming, decimal parsing, lexicographic order, and
//! order-preserving deduplication. These carry the path and name manipulation
//! of the configuration layer.

use vstd::prelude::*;
use vstd::string::StrSliceExecFns;

verus! {

/// The whitespace characters recognized when trimming tool output and
/// metadata values: space, tab, carriage return, line feed.
pub open spec fn is_space_char(c: char) -> bool {
    c == ' ' || c == '\t' || c == '\r' || c == '\n'
}

/// Exec test for [`is_space_char`].
pub fn char_is_space(c: char) -> (r: bool)
    ensures
        r == is_space_char(c),
{
    c == ' ' || c == '\t' || c == '\r' || c == '\n'
}

/// Index of the first occurrence of `c` in `s`, or `-1` when absent.
pub open spec fn find_char(s: Seq<char>, c: char) -> int
    decreases s.len(),
{
    if s.len() == 0 {
        -1
    } else if s[0] == c {
        0
    } else {
        let r = find_char(s.drop_first(), c);
        if r == -1 {
            -1
        } else {
            r + 1
        }
    }
}

/// Index of the last occurrence of `c` in `s`, or `-1` when absent.
pub open spec fn rfind_char(s: Seq<char>, c: char) -> int
    decreases s.len(),
{
    if s.len() == 0 {
        -1
    } else if s.last() == c {
        s.len() - 1
    } else {
        rfind_char(s.drop_last(), c)
    }
}

/// `find_char` names the first occurrence: nothing before it equals `c`, and
/// `-1` means no position does.
pub proof fn lemma_find_char_is_first(s: Seq<char>, c: char)
    ensures
        find_char(s, c) == -1 <==> (forall|j: int| 0 <= j < s.len() ==> s[j] != c),
        find_char(s, c) != -1 ==> 0 <= find_char(s, c) < s.len() && s[find_char(s, c)] == c && (
        forall|j: int| 0 <= j < find_char(s, c) ==> s[j] != c),
    decreases s.len(),
{
    if s.len() == 0 {
    } else if s[0] == c {
    } else {
        lemma_find_char_is_first(s.drop_first(), c);
        assert(forall|j: int| 1 <= j < s.len() ==> s[j] == s.drop_first()[j - 1]);
    }
}

/// `rfind_char` names the last occurrence: nothing after it equals `c`, and
/// `-1` means no position does.
pub proof fn lemma_rfind_char_is_last(s: Seq<char>, c: char)
    ensures
        rfind_char(s, c) == -1 <==> (forall|j: int| 0 <= j < s.len() ==> s[j] != c),
        rfind_char(s, c) != -1 ==> 0 <= rfind_char(s, c) < s.len() && s[rfind_char(s, c)] == c
            && (forall|j: int| rfind_char(s, c) < j < s.len() ==> s[j] != c),
    decreases s.len(),
{
    if s.len() == 0 {
    } else if s.last() == c {
    } else {
        lemma_rfind_char_is_last(s.drop_last(), c);
        assert(forall|j: int| 0 <= j < s.len() - 1 ==> s[j] == s.drop_last()[j]);
    }
}

/// First occurrence of `c` in `s`, as an exec index.
pub fn str_find_char(s: &str, c: char) -> (r: Option<usize>)
    ensures
        match r {
            Some(i) => i == find_char(s@, c),
            None => find_char(s@, c) == -1,
        },
{
    proof {
        lemma_find_char_is_first(s@, c);
    }
    let n: usize = s.unicode_len();
    let mut i: usize = 0;
    while i < n
        invariant
            0 <= i <= n,
            n == s@.len(),
            forall|j: int| 0 <= j < i ==> s@[j] != c,
        decreases n - i,
    {
        if s.get_char(i) == c {
            proof {
                lemma_find_char_is_first(s@, c);
            }
            return Some(i);
        }
        i = i + 1;
    }
    None
}

/// Last occurrence of `c` in `s`, as an exec index.
pub fn str_rfind_char(s: &str, c: char) -> (r: Option<usize>)
    ensures
        match r {
            Some(i) => i == rfind_char(s@, c),
            None => rfind_char(s@, c) == -1,
        },
{
    proof {
        lemma_rfind_char_is_last(s@, c);
    }
    let n: usize = s.unicode_len();
    let mut i: usize = n;
    while i > 0
        invariant
            0 <= i <= n,
            n == s@.len(),
            forall|j: int| i <= j < n ==> s@[j] != c,
        decreases i,
    {
        if s.get_char(i - 1) == c {
            proof {
                lemma_rfind_char_is_last(s@, c);
            }
            return Some(i - 1);
        }
        i = i - 1;
    }
    None
}

/// Whether `p` is a prefix of `s`.
pub fn str_starts_with(s: &str, p: &str) -> (r: bool)
    ensures
        r == p@.is_prefix_of(s@),
{
    let n: usize = p.unicode_len();
    if n > s.unicode_len() {
        return false;
    }
    let mut i: usize = 0;
    while i < n
        invariant
            0 <= i <= n,
            n == p@.len(),
            n <= s@.len(),
            forall|j: int| 0 <= j < i ==> s@[j] == p@[j],
        decreases n - i,
    {
        if s.get_char(i) != p.get_char(i) {
            assert(!p@.is_prefix_of(s@));
            return false;
        }
        i = i + 1;
    }
    assert(p@ =~= s@.subrange(0, n as int));
    true
}

/// Whether `p` is a suffix of `s`.
pub fn str_ends_with(s: &str, p: &str) -> (r: bool)
    ensures
        r == p@.is_suffix_of(s@),
{
    let n: usize = p.unicode_len();
    let m: usize = s.unicode_len();
    if n > m {
        return false;
    }
    let off: usize = m - n;
    let mut i: usize = 0;
    while i < n
        invariant
            0 <= i <= n,
            n == p@.len(),
            m == s@.len(),
            n <= m,
            off == m - n,
            forall|j: int| 0 <= j < i ==> s@[off + j] == p@[j],
        decreases n - i,
    {
        if s.get_char(off + i) != p.get_char(i) {
            assert(!p@.is_suffix_of(s@));
            return false;
        }
        i = i + 1;
    }
    assert(p@ =~= s@.subrange(off as int, m as int));
    true
}

/// `s` with the leading recognized whitespace removed.
pub open spec fn trim_front_spec(s: Seq<char>) -> Seq<char>
    decreases s.len(),
{
    if s.len() == 0 {
        s
    } else if is_space_char(s[0]) {
        trim_front_spec(s.drop_first())
    } else {
        s
    }
}

/// `s` with the trailing recognized whitespace removed.
pub open spec fn trim_back_spec(s: Seq<char>) -> Seq<char>
    decreases s.len(),
{
    if s.len() == 0 {
        s
    } else if is_space_char(s.last()) {
        trim_back_spec(s.drop_last())
    } else {
        s
    }
}

/// `s` with leading and trailing recognized whitespace removed.
pub open spec fn trim_spec(s: Seq<char>) -> Seq<char> {
    trim_back_spec(trim_front_spec(s))
}

proof fn lemma_trim_front_at(s: Seq<char>, a: int)
    requires
        0 <= a <= s.len(),
        forall|j: int| 0 <= j < a ==> is_space_char(s[j]),
        a < s.len() ==> !is_space_char(s[a]),
    ensures
        trim_front_spec(s) =~= s.skip(a),
    decreases a,
{
    if a == 0 {
        if s.len() > 0 {
            assert(trim_front_spec(s) == s);
        }
        assert(trim_front_spec(s) =~= s.skip(0));
    } else {
        assert(is_space_char(s[0]));
        let t = s.drop_first();
        assert(forall|j: int| 0 <= j < a - 1 ==> t[j] == s[j + 1]);
        lemma_trim_front_at(t, a - 1);
        assert(t.skip(a - 1) =~= s.skip(a));
    }
}

proof fn lemma_trim_back_at(s: Seq<char>, b: int)
    requires
        0 <= b <= s.len(),
        forall|j: int| b <= j < s.len() ==> is_space_char(s[j]),
        b > 0 ==> !is_space_char(s[b - 1]),
    ensures
        trim_back_spec(s) =~= s.take(b),
    decreases s.len() - b,
{
    if b == s.len() {
        if b > 0 {
            assert(trim_back_spec(s) == s);
        }
        assert(trim_back_spec(s) =~= s.take(b));
    } else {
        assert(is_space_char(s.last()));
        let t = s.drop_last();
        lemma_trim_back_at(t, b);
        assert(t.take(b) =~= s.take(b));
    }
}

/// Remove leading and trailing whitespace, as `trim` on tool output.
pub fn str_trim(s: &str) -> (r: String)
    ensures
        r@ == trim_spec(s@),
{
    let n: usize = s.unicode_len();
    let mut a: usize = 0;
    while a < n && char_is_space(s.get_char(a))
        invariant
            0 <= a <= n,
            n == s@.len(),
            forall|j: int| 0 <= j < a ==> is_space_char(s@[j]),
        decreases n - a,
    {
        a = a + 1;
    }
    let mut b: usize = n;
    while b > a && char_is_space(s.get_char(b - 1))
        invariant
            a <= b <= n,
            n == s@.len(),
            forall|j: int| 0 <= j < a ==> is_space_char(s@[j]),
            forall|j: int| b <= j < n ==> is_space_char(s@[j]),
        decreases b,
    {
        b = b - 1;
    }
    proof {
        lemma_trim_front_at(s@, a as int);
        let t = s@.skip(a as int);
        assert(forall|j: int| b - a <= j < t.len() ==> is_space_char(t[j]));
        lemma_trim_back_at(t, b - a);
        assert(t.take(b - a) =~= s@.subrange(a as int, b as int));
    }
    s.substring_char(a, b).to_owned()
}

/// Whether `c` is a decimal digit.
pub open spec fn is_digit_char(c: char) -> bool {
    48 <= c as u32 <= 57
}

/// The numeric value of a digit character.
pub open spec fn digit_val(c: char) -> int {
    c as u32 - 48
}

/// Whether `s` is one or more decimal digits.
pub open spec fn all_digits(s: Seq<char>) -> bool {
    forall|j: int| 0 <= j < s.len() ==> is_digit_char(s[j])
}

/// The number written by the digit string `s`, most significant digit first.
pub open spec fn digits_val(s: Seq<char>) -> int
    decreases s.len(),
{
    if s.len() == 0 {
        0
    } else {
        digits_val(s.drop_last()) * 10 + digit_val(s.last())
    }
}

/// What parsing `s` as an unsigned decimal number yields: the written number
/// when `s` is entirely digits, at least one, and the number fits; nothing
/// otherwise.
pub open spec fn parse_decimal_spec(s: Seq<char>) -> Option<u64> {
    if s.len() > 0 && all_digits(s) && digits_val(s) <= u64::MAX {
        Some(digits_val(s) as u64)
    } else {
        None
    }
}

proof fn lemma_digits_val_bounds(s: Seq<char>)
    requires
        all_digits(s),
    ensures
        digits_val(s) >= 0,
        s.len() > 0 ==> digits_val(s) >= digits_val(s.drop_last()),
    decreases s.len(),
{
    if s.len() > 0 {
        assert(forall|j: int| 0 <= j < s.len() - 1 ==> s.drop_last()[j] == s[j]);
        lemma_digits_val_bounds(s.drop_last());
    }
}

proof fn lemma_digits_val_monotone(s: Seq<char>, i: int)
    requires
        all_digits(s),
        0 <= i <= s.len(),
    ensures
        digits_val(s.take(i)) <= digits_val(s),
    decreases s.len() - i,
{
    if i == s.len() {
        assert(s.take(i) =~= s);
    } else {
        assert(forall|j: int| 0 <= j < s.take(i + 1).len() ==> s.take(i + 1)[j] == s[j]);
        assert(s.take(i + 1).drop_last() =~= s.take(i));
        lemma_digits_val_bounds(s.take(i + 1));
        lemma_digits_val_monotone(s, i + 1);
    }
}

/// Parse an unsigned decimal number, exactly as [`parse_decimal_spec`] says.
pub fn parse_decimal(s: &str) -> (r: Option<u64>)
    ensures
        r == parse_decimal_spec(s@),
{
    let n: usize = s.unicode_len();
    if n == 0 {
        return None;
    }
    let mut acc: u64 = 0;
    let mut i: usize = 0;
    while i < n
        invariant
            0 <= i <= n,
            n == s@.len(),
            forall|j: int| 0 <= j < i ==> is_digit_char(s@[j]),
            acc == digits_val(s@.take(i as int)),
        decreases n - i,
    {
        let c32: u32 = s.get_char(i) as u32;
        if c32 < 48 || c32 > 57 {
            return None;
        }
        let d: u64 = (c32 - 48) as u64;
        proof {
            assert(forall|j: int|
                0 <= j < s@.take(i + 1).len() ==> s@.take(i + 1)[j] == s@[j]);
            assert(s@.take(i + 1).drop_last() =~= s@.take(i as int));
        }
        if acc > (u64::MAX - d) / 10 {
            proof {
                assert(digits_val(s@.take(i + 1)) > u64::MAX);
                if all_digits(s@) {
                    lemma_digits_val_monotone(s@, i + 1);
                }
            }
            return None;
        }
        acc = acc * 10 + d;
        i = i + 1;
    }
    proof {
        assert(s@.take(n as int) =~= s@);
    }
    Some(acc)
}

/// Lexicographic order on character sequences, by code point, with a proper
/// prefix ordered before its extensions.
pub open spec fn lex_le(a: Seq<char>, b: Seq<char>) -> bool
    decreases a.len(),
{
    if a.len() == 0 {
        true
    } else if b.len() == 0 {
        false
    } else if (a[0] as u32) < (b[0] as u32) {
        true
    } else if (a[0] as u32) == (b[0] as u32) {
        lex_le(a.drop_first(), b.drop_first())
    } else {
        false
    }
}

/// The order is total.
pub proof fn lemma_lex_le_total(a: Seq<char>, b: Seq<char>)
    ensures
        lex_le(a, b) || lex_le(b, a),
    decreases a.len(),
{
    if a.len() == 0 || b.len() == 0 {
    } else if (a[0] as u32) == (b[0] as u32) {
        lemma_lex_le_total(a.drop_first(), b.drop_first());
    }
}

/// The order is transitive.
pub proof fn lemma_lex_le_trans(a: Seq<char>, b: Seq<char>, c: Seq<char>)
    requires
        lex_le(a, b),
        lex_le(b, c),
    ensures
        lex_le(a, c),
    decreases a.len(),
{
    if a.len() == 0 || b.len() == 0 || c.len() == 0 {
    } else if (a[0] as u32) == (b[0] as u32) && (b[0] as u32) == (c[0] as u32) {
        lemma_lex_le_trans(a.drop_first(), b.drop_first(), c.drop_first());
    }
}

/// Exec comparison deciding [`lex_le`] on the views.
pub fn str_lex_le(a: &str, b: &str) -> (r: bool)
    ensures
        r == lex_le(a@, b@),
{
    let an: usize = a.unicode_len();
    let bn: usize = b.unicode_len();
    proof {
        assert(a@.skip(0) =~= a@);
        assert(b@.skip(0) =~= b@);
    }
    let mut i: usize = 0;
    while i < an && i < bn
        invariant
            0 <= i <= an,
            0 <= i <= bn,
            an == a@.len(),
            bn == b@.len(),
            lex_le(a@, b@) == lex_le(a@.skip(i as int), b@.skip(i as int)),
        decreases an - i,
    {
        let ca: u32 = a.get_char(i) as u32;
        let cb: u32 = b.get_char(i) as u32;
        proof {
            assert(a@.skip(i as int)[0] == a@[i as int]);
            assert(b@.skip(i as int)[0] == b@[i as int]);
        }
        if ca < cb {
            return true;
        }
        if ca > cb {
            return false;
        }
        proof {
            assert(a@.skip(i as int).drop_first() =~= a@.skip(i + 1));
            assert(b@.skip(i as int).drop_first() =~= b@.skip(i + 1));
        }
        i = i + 1;
    }
    proof {
        if i >= an {
            assert(a@.skip(i as int).len() == 0);
        } else {
            assert(b@.skip(i as int).len() == 0);
            assert(a@.skip(i as int).len() > 0);
        }
    }
    an <= bn
}

/// Whether some element of `s` views as `y`.
pub open spec fn contains_view(s: Seq<String>, y: Seq<char>) -> bool {
    exists|i: int| 0 <= i < s.len() && s[i]@ == y
}

/// `s` with later repetitions of an already-seen element removed: first-seen
/// order is preserved and every view occurs once.
pub open spec fn dedup_strings(s: Seq<String>) -> Seq<String>
    decreases s.len(),
{
    if s.len() == 0 {
        s
    } else {
        let d = dedup_strings(s.drop_last());
        if contains_view(d, s.last()@) {
            d
        } else {
            d.push(s.last())
        }
    }
}

/// Whether `v` holds an element viewing as `x`.
pub fn vec_contains_string(v: &Vec<String>, x: &String) -> (r: bool)
    ensures
        r == contains_view(v@, x@),
{
    let n: usize = v.len();
    let mut i: usize = 0;
    while i < n
        invariant
            0 <= i <= n,
            n == v@.len(),
            forall|j: int| 0 <= j < i ==> v@[j]@ != x@,
        decreases n - i,
    {
        if v[i].eq(x) {
            return true;
        }
        i = i + 1;
    }
    false
}

/// Drop repeated entries, keeping the first occurrence of each view in order.
pub fn dedup_in_order(v: Vec<String>) -> (r: Vec<String>)
    ensures
        r@ == dedup_strings(v@),
{
    let n: usize = v.len();
    let mut out: Vec<String> = Vec::new();
    let mut i: usize = 0;
    while i < n
        invariant
            0 <= i <= n,
            n == v@.len(),
            out@ == dedup_strings(v@.take(i as int)),
        decreases n - i,
    {
        proof {
            assert(forall|j: int| 0 <= j <= i ==> v@.take(i + 1)[j] == v@[j]);
            assert(v@.take(i + 1).drop_last() =~= v@.take(i as int));
        }
        if !vec_contains_string(&out, &v[i]) {
            let x = v[i].clone();
            out.push(x);
        }
        i = i + 1;
    }
    proof {
        assert(v@.take(n as int) =~= v@);
    }
    out
}

/// The view of an optional string.
pub open spec fn view_opt(o: Option<String>) -> Option<Seq<char>> {
    match o {
        Some(s) => Some(s@),
        None => None,
    }
}

/// The views of the elements of `s`.
pub open spec fn string_views(s: Seq<String>) -> Seq<Seq<char>> {
    Seq::new(s.len(), |i: int| s[i]@)
}

/// Whether `s` holds the element `y`.
pub open spec fn contains_seq(s: Seq<Seq<char>>, y: Seq<char>) -> bool {
    exists|i: int| 0 <= i < s.len() && s[i] == y
}

/// `s` with later repetitions of an already-seen element removed: first-seen
/// order is preserved and every element occurs once.
pub open spec fn dedup_views(s: Seq<Seq<char>>) -> Seq<Seq<char>>
    decreases s.len(),
{
    if s.len() == 0 {
        s
    } else {
        let d = dedup_views(s.drop_last());
        if contains_seq(d, s.last()) {
            d
        } else {
            d.push(s.last())
        }
    }
}

/// Deduplication keeps exactly the elements of the input, leaves none twice,
/// and keeps something whenever it was given something.
pub proof fn lemma_dedup_views_properties(s: Seq<Seq<char>>)
    ensures
        forall|y: Seq<char>| contains_seq(dedup_views(s), y) == contains_seq(s, y),
        forall|i: int, j: int|
            0 <= i < j < dedup_views(s).len() ==> dedup_views(s)[i] != dedup_views(s)[j],
        dedup_views(s).len() <= s.len(),
        s.len() > 0 ==> dedup_views(s).len() > 0,
    decreases s.len(),
{
    if s.len() > 0 {
        let t = s.drop_last();
        lemma_dedup_views_properties(t);
        let d = dedup_views(t);
        assert(forall|j: int| 0 <= j < t.len() ==> t[j] == s[j]);
        assert forall|y: Seq<char>| contains_seq(dedup_views(s), y) == contains_seq(s, y) by {
            if contains_seq(dedup_views(s), y) {
                let i = choose|i: int|
                    0 <= i < dedup_views(s).len() && dedup_views(s)[i] == y;
                if i < d.len() {
                    assert(d[i] == y);
                    assert(contains_seq(d, y));
                    assert(contains_seq(t, y));
                    let k = choose|k: int| 0 <= k < t.len() && t[k] == y;
                    assert(s[k] == y);
                } else {
                    assert(s[s.len() - 1] == y);
                }
            }
            if contains_seq(s, y) {
                let k = choose|k: int| 0 <= k < s.len() && s[k] == y;
                if k < s.len() - 1 {
                    assert(t[k] == y);
                    assert(contains_seq(t, y));
                    assert(contains_seq(d, y));
                    let i = choose|i: int| 0 <= i < d.len() && d[i] == y;
                    assert(dedup_views(s)[i] == y);
                } else {
                    if contains_seq(d, y) {
                        let i = choose|i: int| 0 <= i < d.len() && d[i] == y;
                        assert(dedup_views(s)[i] == y);
                    } else {
                        assert(dedup_views(s).last() == y);
                    }
                }
            }
        }
    }
}

/// Membership among strings is membership of views.
pub proof fn lemma_contains_view_is_contains_seq(s: Seq<String>, y: Seq<char>)
    ensures
        contains_view(s, y) == contains_seq(string_views(s), y),
{
    if contains_view(s, y) {
        let i = choose|i: int| 0 <= i < s.len() && s[i]@ == y;
        assert(string_views(s)[i] == y);
    }
    if contains_seq(string_views(s), y) {
        let i = choose|i: int| 0 <= i < string_views(s).len() && string_views(s)[i] == y;
        assert(s[i]@ == y);
    }
}

/// Deduplicating strings deduplicates their views.
pub proof fn lemma_dedup_strings_views(s: Seq<String>)
    ensures
        string_views(dedup_strings(s)) == dedup_views(string_views(s)),
    decreases s.len(),
{
    if s.len() == 0 {
        assert(string_views(s) =~= Seq::<Seq<char>>::empty());
        assert(string_views(dedup_strings(s)) =~= dedup_views(string_views(s)));
    } else {
        let t = s.drop_last();
        lemma_dedup_strings_views(t);
        let d = dedup_strings(t);
        assert(string_views(t) =~= string_views(s).drop_last());
        lemma_contains_view_is_contains_seq(d, s.last()@);
        assert(string_views(s).last() == s.last()@);
        if contains_view(d, s.last()@) {
            assert(string_views(dedup_strings(s)) =~= dedup_views(string_views(s)));
        } else {
            assert(string_views(d.push(s.last())) =~= string_views(d).push(s.last()@));
            assert(string_views(dedup_strings(s)) =~= dedup_views(string_views(s)));
        }
    }
}

/// Whether the views of `s` ascend in [`lex_le`] order.
pub open spec fn sorted_strings(s: Seq<String>) -> bool {
    forall|i: int, j: int| 0 <= i < j < s.len() ==> lex_le(s[i]@, s[j]@)
}

/// Whether no two elements of `s` share a view.
pub open spec fn distinct_strings(s: Seq<String>) -> bool {
    forall|i: int, j: int| 0 <= i < j < s.len() ==> s[i]@ != s[j]@
}

pub proof fn lemma_insert_contains(s: Seq<String>, i: int, x: String)
    requires
        0 <= i <= s.len(),
    ensures
        forall|y: Seq<char>| contains_view(s.insert(i, x), y) == (contains_view(s, y) || x@ == y),
{
    let s2 = s.insert(i, x);
    assert forall|y: Seq<char>|
        contains_view(s2, y) == (contains_view(s, y) || x@ == y) by {
        if contains_view(s2, y) {
            let k = choose|k: int| 0 <= k < s2.len() && s2[k]@ == y;
            if k < i {
                assert(s[k]@ == y);
            } else if k == i {
                assert(x@ == y);
            } else {
                assert(s[k - 1]@ == y);
            }
        }
        if contains_view(s, y) {
            let k = choose|k: int| 0 <= k < s.len() && s[k]@ == y;
            if k < i {
                assert(s2[k]@ == y);
            } else {
                assert(s2[k + 1]@ == y);
            }
        }
        if x@ == y {
            assert(s2[i]@ == y);
        }
    }
}

/// Insert `x` into the sorted, duplicate-free vector `v`, keeping it sorted
/// and duplicate-free: if the view of `x` is already present nothing changes,
/// otherwise `x` lands at its ordered position.
pub fn insert_sorted_unique(v: &mut Vec<String>, x: String)
    requires
        sorted_strings(old(v)@),
        distinct_strings(old(v)@),
    ensures
        sorted_strings(final(v)@),
        distinct_strings(final(v)@),
        forall|y: Seq<char>|
            contains_view(final(v)@, y) == (contains_view(old(v)@, y) || x@ == y),
{
    if vec_contains_string(v, &x) {
        return ;
    }
    let n: usize = v.len();
    let mut i: usize = 0;
    while i < n && str_lex_le(v[i].as_str(), x.as_str())
        invariant
            0 <= i <= n,
            n == v@.len(),
            sorted_strings(v@),
            distinct_strings(v@),
            !contains_view(v@, x@),
            forall|k: int| 0 <= k < i ==> lex_le(v@[k]@, x@),
        decreases n - i,
    {
        i = i + 1;
    }
    proof {
        assert(forall|k: int| 0 <= k < n ==> v@[k]@ != x@);
        assert forall|k: int| i <= k < n implies lex_le(x@, v@[k]@) by {
            lemma_lex_le_total(v@[i as int]@, x@);
            assert(lex_le(x@, v@[i as int]@));
            if k > i {
                lemma_lex_le_trans(x@, v@[i as int]@, v@[k]@);
            }
        }
        lemma_insert_contains(v@, i as int, x);
    }
    let ghost oldv = v@;
    v.insert(i, x);
    proof {
        assert forall|p: int, q: int| 0 <= p < q < v@.len() implies lex_le(v@[p]@, v@[q]@) by {
            if q < i {
            } else if p < i && q == i {
            } else if p < i && q > i {
                assert(v@[q]@ == oldv[q - 1]@);
            } else if p == i {
                assert(v@[q]@ == oldv[q - 1]@);
            } else {
                assert(v@[p]@ == oldv[p - 1]@ && v@[q]@ == oldv[q - 1]@);
            }
        }
        assert forall|p: int, q: int| 0 <= p < q < v@.len() implies v@[p]@ != v@[q]@ by {
            if q < i {
            } else if p < i && q == i {
            } else if p < i && q > i {
                assert(v@[q]@ == oldv[q - 1]@);
            } else if p == i {
                assert(v@[q]@ == oldv[q - 1]@);
            } else {
                assert(v@[p]@ == oldv[p - 1]@ && v@[q]@ == oldv[q - 1]@);
            }
        }
    }
}

} // verus!
