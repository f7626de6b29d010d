//! Character-sequence toolkit.
//!
//! Every text the library reads or writes is viewed as a `Seq<char>`.
//! Positions are counted in characters. The functions here are the small
//! vocabulary (searching, trimming, splitting, replacing, joining) that the
//! scanners and generators are written in, each with an exact contract.

use vstd::prelude::*;

verus! {

// ---------------------------------------------------------------------------
// Conversions
// ---------------------------------------------------------------------------

/// `String::push` appends one character to the end of the string.
pub assume_specification[ String::push ](s: &mut String, c: char)
    ensures
        final(s)@ == old(s)@.push(c),
;

/// The characters of a string slice, in order.
pub fn to_chars(s: &str) -> (out: Vec<char>)
    ensures
        out@ == s@,
{
    let mut out: Vec<char> = Vec::new();
    let it = s.chars();
    for c in iter: it
        invariant
            out@ == iter.seq().take(iter.index() as int),
            iter.seq() == s@,
    {
        out.push(c);
    }
    out
}

/// The string made of the given characters.
pub fn from_chars(v: &[char]) -> (out: String)
    ensures
        out@ == v@,
{
    let mut out = String::new();
    let mut i: usize = 0;
    while i < v.len()
        invariant
            i <= v.len(),
            out@ == v@.take(i as int),
        decreases v.len() - i,
    {
        out.push(v[i]);
        i += 1;
    }
    out
}

/// The part of `s` between positions `a` and `b`.
pub fn slice<'a>(s: &'a [char], a: usize, b: usize) -> (r: &'a [char])
    requires
        a <= b <= s@.len(),
    ensures
        r@ == s@.subrange(a as int, b as int),
{
    &s[a..b]
}

/// An owned copy of a character slice.
pub fn copy(s: &[char]) -> (r: Vec<char>)
    ensures
        r@ == s@,
{
    let mut r: Vec<char> = Vec::new();
    r.extend_from_slice(s);
    r
}

/// Appends the characters of `s` to `out`.
pub fn push_all(out: &mut Vec<char>, s: &[char])
    ensures
        final(out)@ == old(out)@ + s@,
{
    out.extend_from_slice(s);
}

/// Appends the characters of the string slice `s` to `out`.
pub fn push_str(out: &mut Vec<char>, s: &str)
    ensures
        final(out)@ == old(out)@ + s@,
{
    let v = to_chars(s);
    out.extend_from_slice(v.as_slice());
}

// ---------------------------------------------------------------------------
// Character classes
// ---------------------------------------------------------------------------

/// The characters with the Unicode `White_Space` property.
pub open spec fn is_whitespace(c: char) -> bool {
    ||| ('\u{9}' <= c && c <= '\u{d}')
    ||| c == ' '
    ||| c == '\u{85}'
    ||| c == '\u{a0}'
    ||| c == '\u{1680}'
    ||| ('\u{2000}' <= c && c <= '\u{200a}')
    ||| c == '\u{2028}'
    ||| c == '\u{2029}'
    ||| c == '\u{202f}'
    ||| c == '\u{205f}'
    ||| c == '\u{3000}'
}

/// Whether the character is alphabetic or numeric by the Unicode tables
/// of the standard library.
pub uninterp spec fn alphanumeric(c: char) -> bool;

/// An ASCII letter or digit.
pub open spec fn ascii_letter_or_digit(c: char) -> bool {
    ||| ('a' <= c && c <= 'z')
    ||| ('A' <= c && c <= 'Z')
    ||| ('0' <= c && c <= '9')
}

/// A letter or a digit: among the characters up to U+007F the ASCII
/// letters and digits, beyond them what the Unicode tables hold.
pub open spec fn letter_or_digit(c: char) -> bool {
    if c <= '\u{7f}' {
        ascii_letter_or_digit(c)
    } else {
        alphanumeric(c)
    }
}

/// `char::is_alphanumeric` depends on the character alone, and up to
/// U+007F it holds of the ASCII letters and digits and of nothing else.
pub assume_specification[ char::is_alphanumeric ](c: char) -> (b: bool)
    ensures
        b == alphanumeric(c),
        c <= '\u{7f}' ==> b == ascii_letter_or_digit(c),
;

/// Whether the character is a letter or a digit.
pub fn is_letter_or_digit(c: char) -> (b: bool)
    ensures
        b == letter_or_digit(c),
{
    c.is_alphanumeric()
}

/// Whether the character is whitespace.
pub fn whitespace(c: char) -> (b: bool)
    ensures
        b == is_whitespace(c),
{
    ('\u{9}' <= c && c <= '\u{d}') || c == ' ' || c == '\u{85}' || c == '\u{a0}' || c
        == '\u{1680}' || ('\u{2000}' <= c && c <= '\u{200a}') || c == '\u{2028}' || c
        == '\u{2029}' || c == '\u{202f}' || c == '\u{205f}' || c == '\u{3000}'
}

// ---------------------------------------------------------------------------
// Matching and searching
// ---------------------------------------------------------------------------

/// `p` occurs in `s` at position `i`.
pub open spec fn matches_at(s: Seq<char>, p: Seq<char>, i: int) -> bool {
    0 <= i && i + p.len() <= s.len() && s.subrange(i, i + p.len()) == p
}

/// `s` starts with `p`.
pub open spec fn has_prefix(s: Seq<char>, p: Seq<char>) -> bool {
    matches_at(s, p, 0)
}

/// `s` ends with `p`.
pub open spec fn has_suffix(s: Seq<char>, p: Seq<char>) -> bool {
    matches_at(s, p, s.len() - p.len())
}

/// The first position at or after `from` where `p` occurs in `s`.
pub open spec fn first_match_from(s: Seq<char>, p: Seq<char>, from: int) -> Option<int>
    decreases s.len() - from,
{
    if from < 0 || from + p.len() > s.len() {
        None
    } else if matches_at(s, p, from) {
        Some(from)
    } else if from < s.len() {
        first_match_from(s, p, from + 1)
    } else {
        None
    }
}

/// The first position where `p` occurs in `s`.
pub open spec fn first_match(s: Seq<char>, p: Seq<char>) -> Option<int> {
    first_match_from(s, p, 0)
}

/// `p` occurs somewhere in `s`.
pub open spec fn occurs(s: Seq<char>, p: Seq<char>) -> bool {
    first_match(s, p) is Some
}

/// The first position at or after `from` that holds the character `c`.
pub open spec fn index_of_from(s: Seq<char>, c: char, from: int) -> Option<int>
    decreases s.len() - from,
{
    if from < 0 || from >= s.len() {
        None
    } else if s[from] == c {
        Some(from)
    } else {
        index_of_from(s, c, from + 1)
    }
}

/// The first position that holds the character `c`.
pub open spec fn index_of(s: Seq<char>, c: char) -> Option<int> {
    index_of_from(s, c, 0)
}

/// What `first_match_from` finds is a match, and the earliest one.
pub proof fn lemma_first_match_from(s: Seq<char>, p: Seq<char>, from: int)
    requires
        0 <= from,
    ensures
        match first_match_from(s, p, from) {
            Some(i) => from <= i && matches_at(s, p, i) && forall|j: int|
                from <= j < i ==> !matches_at(s, p, j),
            None => forall|j: int| from <= j ==> !matches_at(s, p, j),
        },
    decreases s.len() - from,
{
    if from + p.len() <= s.len() && !matches_at(s, p, from) && from < s.len() {
        lemma_first_match_from(s, p, from + 1);
    }
}

/// A text in which `p` stands at some position holds `p`.
pub proof fn lemma_occurs_at(s: Seq<char>, p: Seq<char>, i: int)
    requires
        matches_at(s, p, i),
    ensures
        occurs(s, p),
{
    lemma_first_match_from(s, p, 0);
}

/// A text that holds `p` has a position at which `p` stands.
pub proof fn lemma_occurs_position(s: Seq<char>, p: Seq<char>) -> (i: int)
    requires
        occurs(s, p),
    ensures
        matches_at(s, p, i),
{
    lemma_first_match_from(s, p, 0);
    first_match(s, p).unwrap()
}

/// What stands in `x` at position `i` stands in `a + x + b` at position
/// `a.len() + i`.
pub proof fn lemma_matches_inside(a: Seq<char>, x: Seq<char>, b: Seq<char>, p: Seq<char>, i: int)
    requires
        matches_at(x, p, i),
    ensures
        matches_at(a + x + b, p, a.len() + i),
{
    assert((a + x + b).subrange(a.len() + i, a.len() + i + p.len()) =~= x.subrange(
        i,
        i + p.len(),
    ));
}

/// What `x` holds, `a + x + b` holds.
pub proof fn lemma_occurs_inside(a: Seq<char>, x: Seq<char>, b: Seq<char>, p: Seq<char>)
    requires
        occurs(x, p),
    ensures
        occurs(a + x + b, p),
{
    let i = lemma_occurs_position(x, p);
    lemma_matches_inside(a, x, b, p, i);
    lemma_occurs_at(a + x + b, p, a.len() + i);
}

/// Whether two character slices hold the same text.
pub fn eq(a: &[char], b: &[char]) -> (r: bool)
    ensures
        r == (a@ == b@),
{
    if a.len() != b.len() {
        return false;
    }
    let mut i: usize = 0;
    while i < a.len()
        invariant
            i <= a.len(),
            a.len() == b.len(),
            a@.take(i as int) == b@.take(i as int),
        decreases a.len() - i,
    {
        if a[i] != b[i] {
            return false;
        }
        i += 1;
    }
    assert(a@.take(a.len() as int) == a@);
    assert(b@.take(b.len() as int) == b@);
    true
}

/// Whether `s` is exactly the text `lit`.
pub fn is(s: &[char], lit: &str) -> (r: bool)
    ensures
        r == (s@ == lit@),
{
    let l = to_chars(lit);
    eq(s, l.as_slice())
}

/// Whether `p` occurs in `s` at position `i`.
pub fn match_at(s: &[char], p: &[char], i: usize) -> (r: bool)
    ensures
        r == matches_at(s@, p@, i as int),
{
    if p.len() > s.len() || i > s.len() - p.len() {
        return false;
    }
    eq(slice(s, i, i + p.len()), p)
}

/// Whether `s` starts with `p`.
pub fn starts_with(s: &[char], p: &[char]) -> (r: bool)
    ensures
        r == has_prefix(s@, p@),
{
    match_at(s, p, 0)
}

/// Whether `s` ends with `p`.
pub fn ends_with(s: &[char], p: &[char]) -> (r: bool)
    ensures
        r == has_suffix(s@, p@),
{
    if p.len() > s.len() {
        return false;
    }
    match_at(s, p, s.len() - p.len())
}

/// The first position at or after `from` where `p` occurs in `s`.
pub fn find_from(s: &[char], p: &[char], from: usize) -> (r: Option<usize>)
    ensures
        match r {
            Some(i) => first_match_from(s@, p@, from as int) == Some(i as int) && from <= i
                && i + p@.len() <= s@.len(),
            None => first_match_from(s@, p@, from as int) is None,
        },
{
    if p.len() > s.len() {
        return None;
    }
    let last = s.len() - p.len();
    if from > last {
        return None;
    }
    let mut i: usize = from;
    loop
        invariant
            from <= i <= last,
            last == s@.len() - p@.len(),
            first_match_from(s@, p@, from as int) == first_match_from(s@, p@, i as int),
        decreases last - i,
    {
        if match_at(s, p, i) {
            return Some(i);
        }
        if i == last {
            assert(first_match_from(s@, p@, i + 1) is None);
            return None;
        }
        i += 1;
    }
}

/// The first position where `p` occurs in `s`.
pub fn find(s: &[char], p: &[char]) -> (r: Option<usize>)
    ensures
        match r {
            Some(i) => first_match(s@, p@) == Some(i as int) && i + p@.len() <= s@.len(),
            None => first_match(s@, p@) is None,
        },
{
    find_from(s, p, 0)
}

/// Whether `p` occurs in `s`.
pub fn contains(s: &[char], p: &[char]) -> (r: bool)
    ensures
        r == occurs(s@, p@),
{
    find(s, p).is_some()
}

/// The first position at or after `from` that holds `c`.
pub fn find_char_from(s: &[char], c: char, from: usize) -> (r: Option<usize>)
    ensures
        match r {
            Some(i) => index_of_from(s@, c, from as int) == Some(i as int) && from <= i < s@.len()
                && s@[i as int] == c,
            None => index_of_from(s@, c, from as int) is None,
        },
{
    let mut i: usize = from;
    while i < s.len()
        invariant
            from <= i,
            index_of_from(s@, c, from as int) == index_of_from(s@, c, i as int),
        decreases s.len() - i,
    {
        if s[i] == c {
            return Some(i);
        }
        i += 1;
    }
    None
}

/// The first position that holds `c`.
pub fn find_char(s: &[char], c: char) -> (r: Option<usize>)
    ensures
        match r {
            Some(i) => index_of(s@, c) == Some(i as int) && i < s@.len() && s@[i as int] == c,
            None => index_of(s@, c) is None,
        },
{
    find_char_from(s, c, 0)
}

// ---------------------------------------------------------------------------
// Trimming
// ---------------------------------------------------------------------------

/// The first position at or after `from` that holds no whitespace.
pub open spec fn leading_ws(s: Seq<char>, from: int) -> int
    decreases s.len() - from,
{
    if 0 <= from < s.len() && is_whitespace(s[from]) {
        leading_ws(s, from + 1)
    } else {
        from
    }
}

/// The least end position, not below `lo`, such that only whitespace
/// lies between it and `to`.
pub open spec fn trailing_ws(s: Seq<char>, lo: int, to: int) -> int
    decreases to,
{
    if 0 <= lo < to <= s.len() && is_whitespace(s[to - 1]) {
        trailing_ws(s, lo, to - 1)
    } else {
        to
    }
}

/// `s` without the whitespace at its end.
pub open spec fn trimmed_end(s: Seq<char>) -> Seq<char> {
    s.subrange(0, trailing_ws(s, 0, s.len() as int))
}

/// `s` without the whitespace at its two ends.
pub open spec fn trimmed(s: Seq<char>) -> Seq<char> {
    let a = leading_ws(s, 0);
    s.subrange(a, trailing_ws(s, a, s.len() as int))
}

/// Up to `leading_ws` all is whitespace; what stands there is none.
pub proof fn lemma_leading_ws(s: Seq<char>, from: int)
    requires
        0 <= from <= s.len(),
    ensures
        from <= leading_ws(s, from) <= s.len(),
        forall|j: int| from <= j < leading_ws(s, from) ==> is_whitespace(s[j]),
        leading_ws(s, from) < s.len() ==> !is_whitespace(s[leading_ws(s, from)]),
    decreases s.len() - from,
{
    if from < s.len() && is_whitespace(s[from]) {
        lemma_leading_ws(s, from + 1);
    }
}

/// From `trailing_ws` on all is whitespace; what stands before it is
/// none.
pub proof fn lemma_trailing_ws(s: Seq<char>, lo: int, to: int)
    requires
        0 <= lo <= to <= s.len(),
    ensures
        lo <= trailing_ws(s, lo, to) <= to,
        forall|j: int| trailing_ws(s, lo, to) <= j < to ==> is_whitespace(s[j]),
        lo < trailing_ws(s, lo, to) ==> !is_whitespace(s[trailing_ws(s, lo, to) - 1]),
    decreases to,
{
    if lo < to && is_whitespace(s[to - 1]) {
        lemma_trailing_ws(s, lo, to - 1);
    }
}

/// A trimmed text neither starts nor ends with whitespace.
pub proof fn lemma_trimmed(s: Seq<char>)
    ensures
        trimmed(s).len() <= s.len(),
        trimmed(s).len() > 0 ==> !is_whitespace(trimmed(s)[0]) && !is_whitespace(
            trimmed(s).last(),
        ),
{
    lemma_leading_ws(s, 0);
    lemma_trailing_ws(s, leading_ws(s, 0), s.len() as int);
}

/// The first position at or after `from` that holds no whitespace.
pub fn skip_ws(s: &[char], from: usize) -> (r: usize)
    requires
        from <= s@.len(),
    ensures
        r == leading_ws(s@, from as int),
        from <= r <= s@.len(),
{
    let mut i: usize = from;
    while i < s.len() && whitespace(s[i])
        invariant
            from <= i <= s@.len(),
            leading_ws(s@, from as int) == leading_ws(s@, i as int),
        decreases s.len() - i,
    {
        i += 1;
    }
    i
}

fn skip_ws_back(s: &[char], lo: usize, to: usize) -> (r: usize)
    requires
        lo <= to <= s@.len(),
    ensures
        r == trailing_ws(s@, lo as int, to as int),
        lo <= r <= to,
{
    let mut j: usize = to;
    while j > lo && whitespace(s[j - 1])
        invariant
            lo <= j <= to <= s@.len(),
            trailing_ws(s@, lo as int, to as int) == trailing_ws(s@, lo as int, j as int),
        decreases j,
    {
        j -= 1;
    }
    j
}

/// `s` without the whitespace at its two ends.
pub fn trim<'a>(s: &'a [char]) -> (r: &'a [char])
    ensures
        r@ == trimmed(s@),
{
    let a = skip_ws(s, 0);
    let b = skip_ws_back(s, a, s.len());
    slice(s, a, b)
}

/// `s` without the whitespace at its end.
pub fn trim_end<'a>(s: &'a [char]) -> (r: &'a [char])
    ensures
        r@ == trimmed_end(s@),
{
    let b = skip_ws_back(s, 0, s.len());
    slice(s, 0, b)
}

/// `s` without the characters `c` at its end.
pub open spec fn without_trailing(s: Seq<char>, c: char) -> Seq<char>
    decreases s.len(),
{
    if s.len() > 0 && s.last() == c {
        without_trailing(s.drop_last(), c)
    } else {
        s
    }
}

/// `s` without the characters `c` at its end.
pub fn trim_end_char<'a>(s: &'a [char], c: char) -> (r: &'a [char])
    ensures
        r@ == without_trailing(s@, c),
{
    let mut j: usize = s.len();
    assert(s@.take(s@.len() as int) == s@);
    while j > 0 && s[j - 1] == c
        invariant
            j <= s@.len(),
            without_trailing(s@, c) == without_trailing(s@.take(j as int), c),
        decreases j,
    {
        assert(s@.take(j as int).drop_last() == s@.take(j - 1));
        j -= 1;
    }
    slice(s, 0, j)
}

} // verus!
