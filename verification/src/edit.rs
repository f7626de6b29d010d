//! Replacing, splitting and joining character sequences, and decimal numerals.

use vstd::prelude::*;
use crate::text::{
    copy, find_char, find_char_from, from_chars, has_prefix, has_suffix, index_of,
    index_of_from, is_whitespace, leading_ws, lemma_matches_inside, lemma_occurs_at,
    lemma_occurs_inside, lemma_occurs_position, match_at, matches_at, occurs, push_all, slice,
    whitespace,
};

verus! {

// ---------------------------------------------------------------------------
// Replacing
// ---------------------------------------------------------------------------

/// The part of `s` from position `i` on, with every occurrence of `from`
/// replaced by `to`: occurrences are taken from left to right and do not
/// overlap. An empty `from` replaces nothing.
pub open spec fn replaced_from(s: Seq<char>, from: Seq<char>, to: Seq<char>, i: int) -> Seq<char>
    decreases s.len() - i,
{
    if i < 0 || i >= s.len() || from.len() == 0 {
        s.subrange(i, s.len() as int)
    } else if matches_at(s, from, i) {
        to + replaced_from(s, from, to, i + from.len())
    } else {
        seq![s[i]] + replaced_from(s, from, to, i + 1)
    }
}

/// `s` with every occurrence of `from` replaced by `to`.
pub open spec fn replaced(s: Seq<char>, from: Seq<char>, to: Seq<char>) -> Seq<char> {
    replaced_from(s, from, to, 0)
}

/// Where `from` stands in `s` at or after position `i`, the replacement
/// from `i` on holds `to`.
pub proof fn lemma_replaced_from_holds(
    s: Seq<char>,
    from: Seq<char>,
    to: Seq<char>,
    i: int,
    j: int,
)
    requires
        0 <= i <= j,
        from.len() > 0,
        matches_at(s, from, j),
    ensures
        occurs(replaced_from(s, from, to, i), to),
    decreases s.len() - i,
{
    let out = replaced_from(s, from, to, i);
    if matches_at(s, from, i) {
        let rest = replaced_from(s, from, to, i + from.len());
        assert(out =~= Seq::<char>::empty() + to + rest);
        assert(to.subrange(0, to.len() as int) =~= to);
        lemma_matches_inside(Seq::empty(), to, rest, to, 0);
        lemma_occurs_at(out, to, 0);
    } else {
        let rest = replaced_from(s, from, to, i + 1);
        lemma_replaced_from_holds(s, from, to, i + 1, j);
        assert(out =~= seq![s[i]] + rest + Seq::<char>::empty());
        lemma_occurs_inside(seq![s[i]], rest, Seq::empty(), to);
    }
}

/// Replacing a text that occurs leaves its replacement in the result.
pub proof fn lemma_replaced_holds(s: Seq<char>, from: Seq<char>, to: Seq<char>)
    requires
        from.len() > 0,
        occurs(s, from),
    ensures
        occurs(replaced(s, from, to), to),
{
    let j = lemma_occurs_position(s, from);
    lemma_replaced_from_holds(s, from, to, 0, j);
}

/// `x` ends with `c` and holds it nowhere else.
pub open spec fn closed_by(x: Seq<char>, c: char) -> bool {
    x.len() > 0 && x.last() == c && forall|i: int| 0 <= i < x.len() - 1 ==> x[i] != c
}

/// Two texts that both end with `c` and hold it nowhere else: where the
/// part of `a` from `k` on agrees with `b` as far as both reach, `b` is
/// that part.
pub proof fn lemma_closed_overlap(a: Seq<char>, b: Seq<char>, c: char, k: int)
    requires
        closed_by(a, c),
        closed_by(b, c),
        0 <= k < a.len(),
        forall|x: int| 0 <= x < a.len() - k && x < b.len() ==> a[k + x] == b[x],
    ensures
        has_suffix(a, b),
        a.len() - k == b.len(),
{
    if a.len() - k <= b.len() {
        let x = a.len() - k - 1;
        assert(a[k + x] == b[x]);
        assert(a.last() == c);
    } else {
        let x = b.len() - 1;
        assert(a[k + x] == b[x]);
        assert(b.last() == c);
    }
    assert(a.subrange(a.len() - b.len(), a.len() as int) =~= b);
}

/// In a replacement no occurrence of `q` begins in a stretch of `s` that
/// was copied: the `m` characters before position `i` are the first `m`
/// of `q`, and what the replacement from `i` on begins with is not the
/// rest of `q`.
pub proof fn lemma_replaced_run(
    s: Seq<char>,
    p: Seq<char>,
    to: Seq<char>,
    q: Seq<char>,
    c: char,
    i: int,
    m: int,
)
    requires
        p.len() > 0,
        closed_by(q, c),
        closed_by(to, c),
        !has_suffix(q, to),
        0 <= m < q.len(),
        m <= i <= s.len(),
        forall|x: int| 0 <= x < m ==> s[i - m + x] == q[x],
        !matches_at(s, q, i - m),
    ensures
        !has_prefix(replaced_from(s, p, to, i), q.subrange(m, q.len() as int)),
    decreases s.len() - i,
{
    let out = replaced_from(s, p, to, i);
    let tail = q.subrange(m, q.len() as int);
    if has_prefix(out, tail) {
        assert(out.subrange(0, tail.len() as int) == tail);
        let part = out.subrange(0, tail.len() as int);
        if i >= s.len() {
            assert(out.len() == 0);
        } else if matches_at(s, p, i) {
            let rest = replaced_from(s, p, to, i + p.len());
            assert(out == to + rest);
            assert forall|x: int| 0 <= x < q.len() - m && x < to.len() implies q[m + x]
                == to[x] by {
                assert(part[x] == tail[x] && part[x] == out[x]);
            }
            lemma_closed_overlap(q, to, c, m);
        } else {
            let rest = replaced_from(s, p, to, i + 1);
            assert(out == seq![s[i]] + rest);
            assert(part[0] == tail[0] && part[0] == out[0]);
            assert(q[m] == s[i]);
            if m + 1 == q.len() {
                assert(s.subrange(i - m, i - m + q.len()) =~= q);
            } else {
                assert(rest.subrange(0, tail.len() - 1) =~= q.subrange(m + 1, q.len() as int)) by {
                    assert forall|x: int| 0 <= x < tail.len() - 1 implies rest[x] == q[m + 1
                        + x] by {
                        assert(part[x + 1] == tail[x + 1] && part[x + 1] == out[x + 1]);
                    }
                }
                lemma_replaced_run(s, p, to, q, c, i + 1, m + 1);
            }
        }
    }
}

/// `q` stands nowhere in the replacement from `i` on. It stands in `s`
/// only where `p` stands; `q` and `to` both end with `c` and hold it
/// nowhere else, and neither ends with the other.
pub proof fn lemma_replaced_from_lacks(
    s: Seq<char>,
    p: Seq<char>,
    to: Seq<char>,
    q: Seq<char>,
    c: char,
    i: int,
    k: int,
)
    requires
        p.len() > 0,
        closed_by(q, c),
        closed_by(to, c),
        !has_suffix(q, to),
        !has_suffix(to, q),
        0 <= i <= s.len(),
        forall|j: int| matches_at(s, q, j) ==> matches_at(s, p, j),
    ensures
        !matches_at(replaced_from(s, p, to, i), q, k),
    decreases s.len() - i,
{
    let out = replaced_from(s, p, to, i);
    if matches_at(out, q, k) {
        assert(out.subrange(k, k + q.len()) == q);
        let part = out.subrange(k, k + q.len());
        if i >= s.len() {
            assert(out.len() == 0);
        } else if matches_at(s, p, i) {
            let rest = replaced_from(s, p, to, i + p.len());
            assert(out == to + rest);
            if k >= to.len() {
                assert(rest.subrange(k - to.len(), k - to.len() + q.len()) =~= q) by {
                    assert forall|x: int| 0 <= x < q.len() implies rest[k - to.len() + x]
                        == q[x] by {
                        assert(part[x] == q[x] && part[x] == out[k + x]);
                    }
                }
                lemma_replaced_from_lacks(s, p, to, q, c, i + p.len(), k - to.len());
            } else {
                assert forall|x: int| 0 <= x < to.len() - k && x < q.len() implies to[k + x]
                    == q[x] by {
                    assert(part[x] == q[x] && part[x] == out[k + x]);
                }
                lemma_closed_overlap(to, q, c, k);
            }
        } else {
            let rest = replaced_from(s, p, to, i + 1);
            assert(out == seq![s[i]] + rest);
            if k >= 1 {
                assert(rest.subrange(k - 1, k - 1 + q.len()) =~= q) by {
                    assert forall|x: int| 0 <= x < q.len() implies rest[k - 1 + x] == q[x] by {
                        assert(part[x] == q[x] && part[x] == out[k + x]);
                    }
                }
                lemma_replaced_from_lacks(s, p, to, q, c, i + 1, k - 1);
            } else {
                assert(q.subrange(0, q.len() as int) =~= q);
                lemma_replaced_run(s, p, to, q, c, i, 0);
            }
        }
    }
}

/// A replacement holds `q` nowhere, where `q` stands in `s` only at
/// occurrences of the replaced text, `q` and `to` both end with `c` and
/// hold it nowhere else, and neither ends with the other.
pub proof fn lemma_replaced_lacks(s: Seq<char>, p: Seq<char>, to: Seq<char>, q: Seq<char>, c: char)
    requires
        p.len() > 0,
        closed_by(q, c),
        closed_by(to, c),
        !has_suffix(q, to),
        !has_suffix(to, q),
        forall|j: int| matches_at(s, q, j) ==> matches_at(s, p, j),
    ensures
        !occurs(replaced(s, p, to), q),
{
    if occurs(replaced(s, p, to), q) {
        let k = lemma_occurs_position(replaced(s, p, to), q);
        lemma_replaced_from_lacks(s, p, to, q, c, 0, k);
    }
}

/// In a replacement an occurrence of `q` that overlaps no occurrence of
/// `p` is copied whole: where `q` stands in `s` at `i - m`, the
/// replacement from `i` on begins with the rest of `q`.
pub proof fn lemma_replaced_copies(
    s: Seq<char>,
    p: Seq<char>,
    to: Seq<char>,
    q: Seq<char>,
    c: char,
    i: int,
    m: int,
)
    requires
        p.len() > 0,
        closed_by(q, c),
        closed_by(p, c),
        !has_suffix(q, p),
        0 <= m <= q.len(),
        m <= i,
        matches_at(s, q, i - m),
    ensures
        has_prefix(replaced_from(s, p, to, i), q.subrange(m, q.len() as int)),
    decreases q.len() - m,
{
    let out = replaced_from(s, p, to, i);
    let tail = q.subrange(m, q.len() as int);
    let found = s.subrange(i - m, i - m + q.len());
    if m == q.len() {
        assert(out.subrange(0, 0) =~= tail);
    } else {
        if matches_at(s, p, i) {
            let held = s.subrange(i, i + p.len());
            assert forall|x: int| 0 <= x < q.len() - m && x < p.len() implies q[m + x] == p[x] by {
                assert(found[m + x] == s[i + x] && held[x] == s[i + x]);
            }
            lemma_closed_overlap(q, p, c, m);
        } else {
            let rest = replaced_from(s, p, to, i + 1);
            lemma_replaced_copies(s, p, to, q, c, i + 1, m + 1);
            let shorter = q.subrange(m + 1, q.len() as int);
            assert(out == seq![s[i]] + rest);
            assert(found[m] == s[i]);
            assert(out.subrange(0, tail.len() as int) =~= tail) by {
                assert forall|x: int| 0 <= x < tail.len() implies out[x] == tail[x] by {
                    if x > 0 {
                        assert(rest.subrange(0, shorter.len() as int)[x - 1] == shorter[x - 1]);
                    }
                }
            }
        }
    }
}

/// Where `q` stands in `s` at or after position `i`, the replacement from
/// `i` on holds it. `q` and `p` both end with `c` and hold it nowhere
/// else, and neither ends with the other.
pub proof fn lemma_replaced_from_keeps(
    s: Seq<char>,
    p: Seq<char>,
    to: Seq<char>,
    q: Seq<char>,
    c: char,
    i: int,
    j: int,
)
    requires
        p.len() > 0,
        closed_by(q, c),
        closed_by(p, c),
        !has_suffix(q, p),
        !has_suffix(p, q),
        0 <= i <= j,
        matches_at(s, q, j),
    ensures
        occurs(replaced_from(s, p, to, i), q),
    decreases s.len() - i,
{
    let out = replaced_from(s, p, to, i);
    let found = s.subrange(j, j + q.len());
    if matches_at(s, p, i) {
        let rest = replaced_from(s, p, to, i + p.len());
        if j < i + p.len() {
            let held = s.subrange(i, i + p.len());
            assert forall|x: int| 0 <= x < p.len() - (j - i) && x < q.len() implies p[j - i + x]
                == q[x] by {
                assert(found[x] == s[j + x] && held[j - i + x] == s[j + x]);
            }
            lemma_closed_overlap(p, q, c, j - i);
        } else {
            lemma_replaced_from_keeps(s, p, to, q, c, i + p.len(), j);
            assert(out =~= to + rest + Seq::<char>::empty());
            lemma_occurs_inside(to, rest, Seq::empty(), q);
        }
    } else if j == i {
        lemma_replaced_copies(s, p, to, q, c, i, 0);
        assert(q.subrange(0, q.len() as int) =~= q);
        lemma_occurs_at(out, q, 0);
    } else {
        let rest = replaced_from(s, p, to, i + 1);
        lemma_replaced_from_keeps(s, p, to, q, c, i + 1, j);
        assert(out =~= seq![s[i]] + rest + Seq::<char>::empty());
        lemma_occurs_inside(seq![s[i]], rest, Seq::empty(), q);
    }
}

/// A replacement keeps a text `q` that `s` holds, where `q` and the
/// replaced text both end with `c` and hold it nowhere else, and neither
/// ends with the other.
pub proof fn lemma_replaced_keeps(s: Seq<char>, p: Seq<char>, to: Seq<char>, q: Seq<char>, c: char)
    requires
        p.len() > 0,
        closed_by(q, c),
        closed_by(p, c),
        !has_suffix(q, p),
        !has_suffix(p, q),
        occurs(s, q),
    ensures
        occurs(replaced(s, p, to), q),
{
    let j = lemma_occurs_position(s, q);
    lemma_replaced_from_keeps(s, p, to, q, c, 0, j);
}

/// Replaces every occurrence of `from` in `s` by `to`.
pub fn replace(s: &[char], from: &[char], to: &[char]) -> (out: Vec<char>)
    ensures
        out@ == replaced(s@, from@, to@),
{
    let mut out: Vec<char> = Vec::new();
    if from.len() == 0 {
        push_all(&mut out, s);
        return out;
    }
    let mut i: usize = 0;
    while i < s.len()
        invariant
            i <= s@.len(),
            from@.len() > 0,
            out@ + replaced_from(s@, from@, to@, i as int) == replaced(s@, from@, to@),
        decreases s.len() - i,
    {
        if match_at(s, from, i) {
            push_all(&mut out, to);
            i += from.len();
        } else {
            out.push(s[i]);
            i += 1;
        }
    }
    out
}

// ---------------------------------------------------------------------------
// Splitting and joining
// ---------------------------------------------------------------------------

/// The views of a list of character vectors.
pub open spec fn views(v: Seq<Vec<char>>) -> Seq<Seq<char>> {
    v.map_values(|x: Vec<char>| x@)
}

/// The views of a list of strings.
pub open spec fn string_views(v: Seq<String>) -> Seq<Seq<char>> {
    v.map_values(|x: String| x@)
}

/// The pieces of `s`, from position `i` on, between the occurrences of the
/// separator `sep`. There is always at least one piece.
pub open spec fn pieces_from(s: Seq<char>, sep: char, i: int) -> Seq<Seq<char>>
    decreases s.len() - i,
{
    match index_of_from(s, sep, i) {
        Some(j) => if i <= j < s.len() {
            seq![s.subrange(i, j)] + pieces_from(s, sep, j + 1)
        } else {
            seq![s.subrange(i, s.len() as int)]
        },
        None => seq![s.subrange(i, s.len() as int)],
    }
}

/// The pieces of `s` between the occurrences of `sep`.
pub open spec fn pieces(s: Seq<char>, sep: char) -> Seq<Seq<char>> {
    pieces_from(s, sep, 0)
}

/// Splits `s` at every occurrence of `sep`.
pub fn split(s: &[char], sep: char) -> (out: Vec<Vec<char>>)
    ensures
        views(out@) == pieces(s@, sep),
        out@.len() >= 1,
{
    let mut out: Vec<Vec<char>> = Vec::new();
    let n = s.len();
    let mut i: usize = 0;
    loop
        invariant
            i <= s@.len() == n,
            views(out@) + pieces_from(s@, sep, i as int) == pieces(s@, sep),
        decreases s@.len() - i,
    {
        match find_char_from(s, sep, i) {
            Some(j) => {
                let piece = copy(slice(s, i, j));
                out.push(piece);
                i = j + 1;
            },
            None => {
                let piece = copy(slice(s, i, s.len()));
                out.push(piece);
                return out;
            },
        }
    }
}

/// The part of `s` before the first `sep`, and the part after it.
pub open spec fn split_once_at(s: Seq<char>, sep: char) -> Option<(Seq<char>, Seq<char>)> {
    match index_of(s, sep) {
        Some(j) => Some((s.subrange(0, j), s.subrange(j + 1, s.len() as int))),
        None => None,
    }
}

/// Splits `s` at the first occurrence of `sep`.
pub fn split_once<'a>(s: &'a [char], sep: char) -> (r: Option<(&'a [char], &'a [char])>)
    ensures
        match r {
            Some((a, b)) => split_once_at(s@, sep) == Some((a@, b@)),
            None => split_once_at(s@, sep) is None,
        },
{
    let n = s.len();
    match find_char(s, sep) {
        Some(j) => Some((slice(s, 0, j), slice(s, j + 1, n))),
        None => None,
    }
}

/// The parts, with `sep` between each two neighbours.
pub open spec fn joined(parts: Seq<Seq<char>>, sep: Seq<char>) -> Seq<char>
    decreases parts.len(),
{
    if parts.len() == 0 {
        Seq::empty()
    } else if parts.len() == 1 {
        parts[0]
    } else {
        joined(parts.drop_last(), sep) + sep + parts.last()
    }
}

/// Joins the parts with `sep` between them.
pub fn join(parts: &Vec<Vec<char>>, sep: &[char]) -> (out: Vec<char>)
    ensures
        out@ == joined(views(parts@), sep@),
{
    let mut out: Vec<char> = Vec::new();
    let mut i: usize = 0;
    while i < parts.len()
        invariant
            i <= parts@.len(),
            out@ == joined(views(parts@).take(i as int), sep@),
        decreases parts.len() - i,
    {
        proof {
            let next = views(parts@).take(i + 1);
            assert(next.drop_last() =~= views(parts@).take(i as int));
        }
        if i > 0 {
            push_all(&mut out, sep);
        }
        push_all(&mut out, parts[i].as_slice());
        i += 1;
    }
    assert(views(parts@).take(parts@.len() as int) =~= views(parts@));
    out
}

/// Joins the strings with `sep` between them.
pub fn join_strings(parts: &Vec<String>, sep: &str) -> (out: String)
    ensures
        out@ == joined(string_views(parts@), sep@),
{
    let mut out = String::new();
    let mut i: usize = 0;
    while i < parts.len()
        invariant
            i <= parts@.len(),
            out@ == joined(string_views(parts@).take(i as int), sep@),
        decreases parts.len() - i,
    {
        proof {
            let next = string_views(parts@).take(i + 1);
            assert(next.drop_last() =~= string_views(parts@).take(i as int));
        }
        if i > 0 {
            out.append(sep);
        }
        out.append(parts[i].as_str());
        i += 1;
    }
    assert(string_views(parts@).take(parts@.len() as int) =~= string_views(parts@));
    out
}

// ---------------------------------------------------------------------------
// Lines
// ---------------------------------------------------------------------------

/// `s` without one carriage return at its end.
pub open spec fn without_cr(s: Seq<char>) -> Seq<char> {
    if s.len() > 0 && s.last() == '\r' {
        s.drop_last()
    } else {
        s
    }
}

/// The lines of `s` from position `i` on. A line ends at a line feed, or at
/// a carriage return followed by a line feed; the ending is not part of the
/// line, and the last line needs none.
pub open spec fn lines_from(s: Seq<char>, i: int) -> Seq<Seq<char>>
    decreases s.len() - i,
{
    if i < 0 || i >= s.len() {
        Seq::empty()
    } else {
        match index_of_from(s, '\n', i) {
            Some(j) => if i <= j < s.len() {
                seq![without_cr(s.subrange(i, j))] + lines_from(s, j + 1)
            } else {
                seq![s.subrange(i, s.len() as int)]
            },
            None => seq![s.subrange(i, s.len() as int)],
        }
    }
}

/// The lines of `s`.
pub open spec fn lines_of(s: Seq<char>) -> Seq<Seq<char>> {
    lines_from(s, 0)
}

/// Splits `s` into its lines.
pub fn lines(s: &[char]) -> (out: Vec<Vec<char>>)
    ensures
        views(out@) == lines_of(s@),
{
    let mut out: Vec<Vec<char>> = Vec::new();
    let n = s.len();
    let mut i: usize = 0;
    while i < n
        invariant
            i <= s@.len() == n,
            views(out@) + lines_from(s@, i as int) == lines_of(s@),
        decreases s@.len() - i,
    {
        match find_char_from(s, '\n', i) {
            Some(j) => {
                let raw = slice(s, i, j);
                let line = if raw.len() > 0 && raw[raw.len() - 1] == '\r' {
                    copy(slice(raw, 0, raw.len() - 1))
                } else {
                    copy(raw)
                };
                out.push(line);
                i = j + 1;
            },
            None => {
                let line = copy(slice(s, i, s.len()));
                out.push(line);
                return out;
            },
        }
    }
    out
}

// ---------------------------------------------------------------------------
// Words
// ---------------------------------------------------------------------------

/// The first position at or after `from` that holds whitespace, or the end.
pub open spec fn word_end(s: Seq<char>, from: int) -> int
    decreases s.len() - from,
{
    if 0 <= from < s.len() && !is_whitespace(s[from]) {
        word_end(s, from + 1)
    } else {
        from
    }
}

/// The maximal runs of characters other than whitespace in `s`, from
/// position `i` on.
pub open spec fn words_from(s: Seq<char>, i: int) -> Seq<Seq<char>>
    decreases s.len() - i,
{
    let a = leading_ws(s, i);
    let b = word_end(s, a);
    if 0 <= i <= a < b <= s.len() {
        seq![s.subrange(a, b)] + words_from(s, b)
    } else {
        Seq::empty()
    }
}

/// The maximal runs of characters other than whitespace in `s`.
pub open spec fn words(s: Seq<char>) -> Seq<Seq<char>> {
    words_from(s, 0)
}

fn skip_word(s: &[char], from: usize) -> (r: usize)
    requires
        from <= s@.len(),
    ensures
        r == word_end(s@, from as int),
        from <= r <= s@.len(),
{
    let mut i: usize = from;
    while i < s.len() && !whitespace(s[i])
        invariant
            from <= i <= s@.len(),
            word_end(s@, from as int) == word_end(s@, i as int),
        decreases s.len() - i,
    {
        i += 1;
    }
    i
}

fn skip_space(s: &[char], from: usize) -> (r: usize)
    requires
        from <= s@.len(),
    ensures
        r == leading_ws(s@, from as int),
        from <= r <= s@.len(),
{
    let mut i: usize = from;
    while i < s.len() && whitespace(s[i])
        invariant
            from <= i <= s@.len(),
            leading_ws(s@, from as int) == leading_ws(s@, i as int),
        decreases s.len() - i,
    {
        i += 1;
    }
    i
}

/// Splits `s` into its words.
pub fn split_whitespace(s: &[char]) -> (out: Vec<Vec<char>>)
    ensures
        views(out@) == words(s@),
{
    let mut out: Vec<Vec<char>> = Vec::new();
    let mut i: usize = 0;
    loop
        invariant
            i <= s@.len(),
            views(out@) + words_from(s@, i as int) == words(s@),
        decreases s@.len() - i,
    {
        let a = skip_space(s, i);
        let b = skip_word(s, a);
        if a >= b {
            return out;
        }
        let w = copy(slice(s, a, b));
        out.push(w);
        i = b;
    }
}

/// `s` with each run of whitespace turned into one space and none left at
/// the ends.
pub open spec fn normalized(s: Seq<char>) -> Seq<char> {
    joined(words(s), seq![' '])
}

/// Normalizes the whitespace of `s`.
pub fn normalize(s: &[char]) -> (out: Vec<char>)
    ensures
        out@ == normalized(s@),
{
    let w = split_whitespace(s);
    let mut sep: Vec<char> = Vec::new();
    sep.push(' ');
    join(&w, sep.as_slice())
}

// ---------------------------------------------------------------------------
// Decimal numerals
// ---------------------------------------------------------------------------

/// The decimal digit for a number below ten.
pub open spec fn digit_char(d: int) -> char {
    if d == 0 {
        '0'
    } else if d == 1 {
        '1'
    } else if d == 2 {
        '2'
    } else if d == 3 {
        '3'
    } else if d == 4 {
        '4'
    } else if d == 5 {
        '5'
    } else if d == 6 {
        '6'
    } else if d == 7 {
        '7'
    } else if d == 8 {
        '8'
    } else {
        '9'
    }
}

/// The decimal numeral of `n`, without leading zeros.
pub open spec fn decimal(n: nat) -> Seq<char>
    decreases n,
{
    if n < 10 {
        seq![digit_char(n as int)]
    } else {
        decimal(n / 10).push(digit_char((n % 10) as int))
    }
}

fn digit(d: usize) -> (c: char)
    requires
        d < 10,
    ensures
        c == digit_char(d as int),
{
    if d == 0 {
        '0'
    } else if d == 1 {
        '1'
    } else if d == 2 {
        '2'
    } else if d == 3 {
        '3'
    } else if d == 4 {
        '4'
    } else if d == 5 {
        '5'
    } else if d == 6 {
        '6'
    } else if d == 7 {
        '7'
    } else if d == 8 {
        '8'
    } else {
        '9'
    }
}

/// Appends the decimal numeral of `n` to `out`.
pub fn push_decimal(out: &mut Vec<char>, n: usize)
    ensures
        final(out)@ == old(out)@ + decimal(n as nat),
    decreases n,
{
    if n >= 10 {
        push_decimal(out, n / 10);
    }
    out.push(digit(n % 10));
}

/// The decimal numeral of `n`.
pub fn decimal_string(n: usize) -> (out: String)
    ensures
        out@ == decimal(n as nat),
{
    let mut v: Vec<char> = Vec::new();
    push_decimal(&mut v, n);
    from_chars(v.as_slice())
}

} // verus!
