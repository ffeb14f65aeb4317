//! Character-level helpers shared by every stage.
//!
//! Strings are modelled by their sequence of characters. Executable code
//! converts a `&str` to a `Vec<char>` once and then works by index.

use vstd::prelude::*;

verus! {

/// `c` is one of `A` to `Z`.
pub open spec fn is_upper(c: char) -> bool {
    'A' <= c && c <= 'Z'
}

/// `c` is one of `0` to `9`.
pub open spec fn is_digit(c: char) -> bool {
    '0' <= c && c <= '9'
}

/// `c` has the Unicode property `White_Space`.
pub open spec fn is_space(c: char) -> bool {
    ||| ('\u{9}' <= c && c <= '\u{d}')
    ||| c == ' '
    ||| c == '\u{85}'
    ||| c == '\u{a0}'
    ||| c == '\u{1680}'
    ||| ('\u{2000}' <= c && c <= '\u{200a}')
    ||| c == '\u{2028}'
    ||| c == '\u{2029}'
    ||| c == '\u{202f}'
    ||| c == '\u{205f}'
    ||| c == '\u{3000}'
}

/// `c` with `A` to `Z` mapped to `a` to `z`, every other character unchanged.
pub open spec fn lower(c: char) -> char {
    if is_upper(c) {
        ((c as u32) + 32) as char
    } else {
        c
    }
}

/// `s` with every character mapped through [`lower`].
pub open spec fn lower_seq(s: Seq<char>) -> Seq<char> {
    Seq::new(s.len(), |i: int| lower(s[i]))
}

/// `needle` stands in `hay` at index `i`.
pub open spec fn occurs_at(hay: Seq<char>, needle: Seq<char>, i: int) -> bool {
    &&& 0 <= i
    &&& i + needle.len() <= hay.len()
    &&& hay.subrange(i, i + needle.len()) == needle
}

/// `needle` stands somewhere in `hay`.
pub open spec fn contains(hay: Seq<char>, needle: Seq<char>) -> bool {
    exists|i: int| occurs_at(hay, needle, i)
}

/// `needle` stands somewhere in `hay` once ASCII case is ignored.
pub open spec fn contains_ignore_case(hay: Seq<char>, needle: Seq<char>) -> bool {
    contains(lower_seq(hay), lower_seq(needle))
}

/// `a` and `b` are equal once ASCII case is ignored.
pub open spec fn eq_ignore_case(a: Seq<char>, b: Seq<char>) -> bool {
    lower_seq(a) == lower_seq(b)
}

/// `s` begins with `prefix`.
pub open spec fn starts_with(s: Seq<char>, prefix: Seq<char>) -> bool {
    occurs_at(s, prefix, 0)
}

/// Index of the first character of `s` at or after `from` that is not white
/// space, or `s.len()` if there is none.
pub open spec fn skip_spaces(s: Seq<char>, from: int) -> int
    decreases s.len() - from,
{
    if 0 <= from < s.len() && is_space(s[from]) {
        skip_spaces(s, from + 1)
    } else {
        from
    }
}

/// One past the index of the last character of `s` before `to` and at or
/// after `floor` that is not white space, or `floor` if there is none.
pub open spec fn drop_spaces(s: Seq<char>, floor: int, to: int) -> int
    decreases to - floor,
{
    if floor < to <= s.len() && is_space(s[to - 1]) {
        drop_spaces(s, floor, to - 1)
    } else {
        to
    }
}

/// `s` without its leading and trailing white space.
pub open spec fn trimmed(s: Seq<char>) -> Seq<char> {
    let start = skip_spaces(s, 0);
    s.subrange(start, drop_spaces(s, start, s.len() as int))
}

/// Number of digits that stand in `s` from index `from` on without a gap.
pub open spec fn digit_run(s: Seq<char>, from: int) -> nat
    decreases s.len() - from,
{
    if 0 <= from < s.len() && is_digit(s[from]) {
        1 + digit_run(s, from + 1)
    } else {
        0
    }
}

/// The digits counted by `digit_run` are digits, the character after them is
/// none, and the count reaches the end exactly when only digits follow.
pub proof fn lemma_digit_run(s: Seq<char>, from: int)
    requires
        0 <= from <= s.len(),
    ensures
        from + digit_run(s, from) <= s.len(),
        forall|i: int| from <= i < from + digit_run(s, from) ==> is_digit(#[trigger] s[i]),
        from + digit_run(s, from) < s.len() ==> !is_digit(s[from + digit_run(s, from)]),
        (from + digit_run(s, from) == s.len()) <==> (forall|i: int|
            from <= i < s.len() ==> is_digit(#[trigger] s[i])),
    decreases s.len() - from,
{
    if from < s.len() && is_digit(s[from]) {
        lemma_digit_run(s, from + 1);
    }
}

/// `skip_spaces` stops at the first character at or after `from` that is
/// not white space.
pub proof fn lemma_skip_spaces(s: Seq<char>, from: int)
    requires
        0 <= from <= s.len(),
    ensures
        from <= skip_spaces(s, from) <= s.len(),
        forall|i: int| from <= i < skip_spaces(s, from) ==> is_space(#[trigger] s[i]),
        skip_spaces(s, from) < s.len() ==> !is_space(s[skip_spaces(s, from)]),
    decreases s.len() - from,
{
    if from < s.len() && is_space(s[from]) {
        lemma_skip_spaces(s, from + 1);
    }
}

/// `drop_spaces` stops after the last character before `to` and at or
/// after `floor` that is not white space.
pub proof fn lemma_drop_spaces(s: Seq<char>, floor: int, to: int)
    requires
        0 <= floor <= to <= s.len(),
    ensures
        floor <= drop_spaces(s, floor, to) <= to,
        forall|i: int| drop_spaces(s, floor, to) <= i < to ==> is_space(#[trigger] s[i]),
        floor < drop_spaces(s, floor, to) ==> !is_space(s[drop_spaces(s, floor, to) - 1]),
    decreases to - floor,
{
    if floor < to && is_space(s[to - 1]) {
        lemma_drop_spaces(s, floor, to - 1);
    }
}

/// What is trimmed neither begins nor ends with white space, so trimming
/// it again changes nothing.
pub proof fn lemma_trimmed_twice(s: Seq<char>)
    ensures
        trimmed(s).len() > 0 ==> !is_space(trimmed(s)[0]) && !is_space(trimmed(s).last()),
        trimmed(trimmed(s)) == trimmed(s),
{
    lemma_skip_spaces(s, 0);
    let start = skip_spaces(s, 0);
    lemma_drop_spaces(s, start, s.len() as int);
    let t = trimmed(s);
    if t.len() > 0 {
        assert(t[0] == s[start]);
        assert(t.last() == s[drop_spaces(s, start, s.len() as int) - 1]);
        assert(skip_spaces(t, 0) == 0);
        assert(drop_spaces(t, 0, t.len() as int) == t.len());
    } else {
        assert(skip_spaces(t, 0) == 0);
        assert(drop_spaces(t, 0, 0) == 0);
    }
    assert(trimmed(t) =~= t);
}

/// The views of the strings of `v`, in order.
pub open spec fn views(v: Seq<String>) -> Seq<Seq<char>> {
    Seq::new(v.len(), |i: int| v[i]@)
}

/// The characters of `s`, in order.
pub fn to_chars(s: &str) -> (v: Vec<char>)
    ensures
        v@ == s@,
{
    broadcast use vstd::string::axiom_spec_iter;

    let mut v: Vec<char> = Vec::new();
    for c in it: s.chars()
        invariant
            it.seq() == s@,
            v@ == s@.take(it.index()),
    {
        v.push(c);
    }
    v
}

/// Tells whether `c` is an upper-case ASCII letter.
pub fn char_is_upper(c: char) -> (b: bool)
    ensures
        b == is_upper(c),
{
    'A' <= c && c <= 'Z'
}

/// Tells whether `c` is an ASCII digit.
pub fn char_is_digit(c: char) -> (b: bool)
    ensures
        b == is_digit(c),
{
    '0' <= c && c <= '9'
}

/// Tells whether `c` is white space.
pub fn char_is_space(c: char) -> (b: bool)
    ensures
        b == is_space(c),
{
    ('\u{9}' <= c && c <= '\u{d}') || c == ' ' || c == '\u{85}' || c == '\u{a0}' || c == '\u{1680}'
        || ('\u{2000}' <= c && c <= '\u{200a}') || c == '\u{2028}' || c == '\u{2029}' || c
        == '\u{202f}' || c == '\u{205f}' || c == '\u{3000}'
}

/// Tells whether `a` and `b` are the same letter once ASCII case is ignored.
pub fn char_eq_ignore_case(a: char, b: char) -> (r: bool)
    ensures
        r == (lower(a) == lower(b)),
{
    let x: u32 = if char_is_upper(a) {
        a as u32 + 32
    } else {
        a as u32
    };
    let y: u32 = if char_is_upper(b) {
        b as u32 + 32
    } else {
        b as u32
    };
    x == y
}

/// `s` itself, or `s` in lower case where `ignore_case` is set.
pub open spec fn folded(s: Seq<char>, ignore_case: bool) -> Seq<char> {
    if ignore_case {
        lower_seq(s)
    } else {
        s
    }
}

/// Tells whether `a` and `b` are the same character, ignoring ASCII case
/// where `ignore_case` is set.
pub fn char_same(a: char, b: char, ignore_case: bool) -> (r: bool)
    ensures
        ignore_case ==> r == (lower(a) == lower(b)),
        !ignore_case ==> r == (a == b),
{
    if ignore_case {
        char_eq_ignore_case(a, b)
    } else {
        a == b
    }
}

/// Tells whether `needle` stands in `hay` at index `at`.
pub fn matches_at(hay: &[char], needle: &[char], at: usize, ignore_case: bool) -> (b: bool)
    ensures
        b == occurs_at(folded(hay@, ignore_case), folded(needle@, ignore_case), at as int),
{
    let n = needle.len();
    if at > hay.len() || n > hay.len() - at {
        return false;
    }
    let ghost h = folded(hay@, ignore_case);
    let ghost m = folded(needle@, ignore_case);
    let mut k: usize = 0;
    while k < n
        invariant
            k <= n,
            n == needle@.len(),
            at + n <= hay@.len() <= usize::MAX,
            h == folded(hay@, ignore_case),
            m == folded(needle@, ignore_case),
            forall|j: int| 0 <= j < k ==> h[at + j] == m[j],
        decreases n - k,
    {
        if !char_same(hay[at + k], needle[k], ignore_case) {
            assert(h.subrange(at as int, at + n)[k as int] != m[k as int]);
            return false;
        }
        k += 1;
    }
    assert(h.subrange(at as int, at + n) =~= m);
    true
}

/// Tells whether `needle` stands somewhere in `hay`.
pub fn find(hay: &[char], needle: &[char], ignore_case: bool) -> (b: bool)
    ensures
        b == contains(folded(hay@, ignore_case), folded(needle@, ignore_case)),
{
    let ghost h = folded(hay@, ignore_case);
    let ghost m = folded(needle@, ignore_case);
    let len = hay.len();
    let mut i: usize = 0;
    while i < len
        invariant
            i <= len,
            len == hay@.len(),
            h == folded(hay@, ignore_case),
            m == folded(needle@, ignore_case),
            forall|j: int| 0 <= j < i ==> !occurs_at(h, m, j),
        decreases len - i,
    {
        if matches_at(hay, needle, i, ignore_case) {
            return true;
        }
        i += 1;
    }
    matches_at(hay, needle, len, ignore_case)
}

/// Tells whether `a` and `b` hold the same characters.
pub fn same(a: &[char], b: &[char], ignore_case: bool) -> (r: bool)
    ensures
        r == (folded(a@, ignore_case) == folded(b@, ignore_case)),
{
    if a.len() != b.len() {
        assert(folded(a@, ignore_case).len() != folded(b@, ignore_case).len());
        return false;
    }
    let r = matches_at(a, b, 0, ignore_case);
    proof {
        let x = folded(a@, ignore_case);
        assert(x.subrange(0, x.len() as int) =~= x);
    }
    r
}

/// The bounds of `s` without its leading and trailing white space.
pub fn trim_range(s: &[char]) -> (r: (usize, usize))
    ensures
        r.0 == skip_spaces(s@, 0),
        r.1 == drop_spaces(s@, r.0 as int, s@.len() as int),
        r.0 <= r.1 <= s@.len(),
{
    let len = s.len();
    let mut start: usize = 0;
    while start < len && char_is_space(s[start])
        invariant
            start <= len,
            len == s@.len(),
            skip_spaces(s@, 0) == skip_spaces(s@, start as int),
        decreases len - start,
    {
        start += 1;
    }
    let mut end: usize = len;
    while start < end && char_is_space(s[end - 1])
        invariant
            start <= end <= len,
            len == s@.len(),
            drop_spaces(s@, start as int, len as int) == drop_spaces(s@, start as int, end as int),
        decreases end - start,
    {
        end -= 1;
    }
    (start, end)
}

/// Counts the digits that stand in `s` from index `from` on without a gap.
pub fn count_digits(s: &[char], from: usize) -> (n: usize)
    ensures
        n == digit_run(s@, from as int),
        from <= s@.len() ==> from + n <= s@.len(),
{
    let len = s.len();
    if from >= len {
        return 0;
    }
    let mut i: usize = from;
    while i < len && char_is_digit(s[i])
        invariant
            from <= i <= len,
            len == s@.len(),
            digit_run(s@, from as int) == (i - from) + digit_run(s@, i as int),
        decreases len - i,
    {
        i += 1;
    }
    i - from
}

/// The characters of `s` from index `from` up to, not including, index `to`.
pub fn substring(s: &str, from: usize, to: usize) -> (r: String)
    requires
        from <= to <= s@.len(),
    ensures
        r@ == s@.subrange(from as int, to as int),
{
    s.substring_char(from, to).to_owned()
}

/// `s` without its leading and trailing white space.
pub fn trim(s: &str) -> (r: String)
    ensures
        r@ == trimmed(s@),
{
    let chars = to_chars(s);
    let (start, end) = trim_range(chars.as_slice());
    substring(s, start, end)
}

/// Tells whether `a` and `b` hold the same characters.
pub fn str_eq(a: &str, b: &str) -> (r: bool)
    ensures
        r == (a@ == b@),
{
    let x = to_chars(a);
    let y = to_chars(b);
    same(x.as_slice(), y.as_slice(), false)
}

/// Tells whether `needle` stands somewhere in `hay`, ignoring ASCII case
/// where `ignore_case` is set.
pub fn str_contains(hay: &str, needle: &str, ignore_case: bool) -> (r: bool)
    ensures
        r == contains(folded(hay@, ignore_case), folded(needle@, ignore_case)),
{
    let x = to_chars(hay);
    let y = to_chars(needle);
    find(x.as_slice(), y.as_slice(), ignore_case)
}

} // verus!
