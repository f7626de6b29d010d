//! Reading the tokens of an embedded block.
//!
//! The tokens of an inline block hold Zig code, then, after the separator
//! `---`, the declarations. The tokens of an external reference open with
//! the quoted path of the Zig file.

use vstd::prelude::*;
use crate::text::{ends_with, find, find_char, find_char_from, find_from, first_match, first_match_from, from_chars, has_suffix, index_of, index_of_from, leading_ws, lemma_first_match_from, matches_at, push_all, push_str, slice, to_chars, trim, trim_end, trimmed, trimmed_end, whitespace};
use crate::edit::{replace, replaced};

verus! {

/// `s` without its first and last character, where these are `open` and
/// `close`.
pub open spec fn unwrapped(s: Seq<char>, open: char, close: char) -> Seq<char> {
    if s.len() >= 2 && s[0] == open && s.last() == close {
        s.subrange(1, s.len() - 1)
    } else {
        s
    }
}

pub(crate) fn unwrap<'a>(s: &'a [char], open: char, close: char) -> (r: &'a [char])
    ensures
        r@ == unwrapped(s@, open, close),
{
    let n = s.len();
    if n >= 2 && s[0] == open && s[n - 1] == close {
        slice(s, 1, n - 1)
    } else {
        slice(s, 0, n)
    }
}

/// The text between the first two double quotes of the tokens, the outer
/// parentheses set aside.
pub open spec fn first_quoted(tokens: Seq<char>) -> Option<Seq<char>> {
    let c = unwrapped(trimmed(tokens), '(', ')');
    match index_of(c, '"') {
        Some(a) => match index_of_from(c, '"', a + 1) {
            Some(b) => Some(c.subrange(a + 1, b)),
            None => None,
        },
        None => None,
    }
}

/// The file path that the tokens of an external reference name.
pub fn extract_file_path_from_tokens(tokens: &str) -> (r: Option<String>)
    ensures
        match r {
            Some(p) => first_quoted(tokens@) == Some(p@),
            None => first_quoted(tokens@) is None,
        },
{
    let t = to_chars(tokens);
    let c = unwrap(trim(t.as_slice()), '(', ')');
    let n = c.len();
    match find_char(c, '"') {
        Some(a) => match find_char_from(c, '"', a + 1) {
            Some(b) => Some(from_chars(slice(c, a + 1, b))),
            None => None,
        },
        None => None,
    }
}

// ---------------------------------------------------------------------------
// Struct declarations
// ---------------------------------------------------------------------------

/// The lesser of two positions, where both are there; else the one that
/// is.
pub open spec fn earlier(a: Option<int>, b: Option<int>) -> Option<int> {
    match (a, b) {
        (Some(x), Some(y)) => if y < x {
            Some(y)
        } else {
            Some(x)
        },
        (Some(x), None) => Some(x),
        (None, y) => y,
    }
}

/// The first position, at or after `from`, of `= struct` or `=struct`.
pub open spec fn struct_declaration_from(code: Seq<char>, from: int) -> Option<int> {
    earlier(
        first_match_from(code, "= struct"@, from),
        first_match_from(code, "=struct"@, from),
    )
}

/// The position just behind the first `struct`, or 0 without one.
pub open spec fn struct_keyword_end(code: Seq<char>) -> int {
    match first_match(code, "struct"@) {
        Some(i) => i + "struct"@.len(),
        None => 0,
    }
}

fn find_struct_declaration_from(code: &[char], from: usize) -> (r: Option<usize>)
    ensures
        match r {
            Some(i) => struct_declaration_from(code@, from as int) == Some(i as int) && from <= i
                < code@.len(),
            None => struct_declaration_from(code@, from as int) is None,
        },
{
    let spaced = to_chars("= struct");
    let tight = to_chars("=struct");
    proof {
        reveal_strlit("= struct");
        reveal_strlit("=struct");
    }
    let a = find_from(code, spaced.as_slice(), from);
    let b = find_from(code, tight.as_slice(), from);
    match (a, b) {
        (Some(x), Some(y)) => if y < x {
            Some(y)
        } else {
            Some(x)
        },
        (Some(x), None) => Some(x),
        (None, y) => y,
    }
}

/// The position of the first `= struct` or `=struct`.
pub fn find_struct_declaration(code: &str) -> (r: Option<usize>)
    ensures
        match r {
            Some(i) => struct_declaration_from(code@, 0) == Some(i as int),
            None => struct_declaration_from(code@, 0) is None,
        },
{
    let c = to_chars(code);
    find_struct_declaration_from(c.as_slice(), 0)
}

fn keyword_end(code: &[char]) -> (r: usize)
    ensures
        r == struct_keyword_end(code@),
        r <= code@.len(),
{
    let kw = to_chars("struct");
    let n = code.len();
    match find(code, kw.as_slice()) {
        Some(i) => i + kw.len(),
        None => 0,
    }
}

/// The position just behind the first `struct` keyword, or 0.
pub fn find_struct_keyword_end(code: &str) -> (r: usize)
    ensures
        r == struct_keyword_end(code@),
{
    let c = to_chars(code);
    keyword_end(c.as_slice())
}

/// The declaration keeps its form: the text before it ends, whitespace
/// aside, in `extern` or `packed`.
pub open spec fn keeps_layout(before: Seq<char>) -> bool {
    has_suffix(trimmed_end(before), "extern"@) || has_suffix(trimmed_end(before), "packed"@)
}

/// The code from `start` on, every struct declaration turned into an
/// `extern struct` declaration, but for those that follow `extern` or
/// `packed`.
pub open spec fn externed_from(code: Seq<char>, start: int) -> Seq<char>
    decreases code.len() - start,
{
    match struct_declaration_from(code, start) {
        Some(pos) => {
            let end = pos + struct_keyword_end(code.subrange(pos, code.len() as int));
            if 0 <= start <= pos && pos < end <= code.len() {
                let before = code.subrange(start, pos);
                let declaration = if keeps_layout(before) {
                    code.subrange(pos, end)
                } else {
                    "= extern struct"@
                };
                before + declaration + externed_from(code, end)
            } else {
                code.subrange(start, code.len() as int)
            }
        },
        None => code.subrange(start, code.len() as int),
    }
}

/// The code with its struct declarations turned into `extern struct`
/// declarations.
pub open spec fn externed(code: Seq<char>) -> Seq<char> {
    externed_from(code, 0)
}

/// A struct declaration spells `struct` one or two characters in.
proof fn lemma_keyword_after_declaration(code: Seq<char>, from: int, pos: int)
    requires
        0 <= from,
        struct_declaration_from(code, from) == Some(pos),
    ensures
        from <= pos,
        pos + 7 <= code.len(),
        pos + 7 <= pos + struct_keyword_end(code.subrange(pos, code.len() as int)) <= pos + 8,
        pos + struct_keyword_end(code.subrange(pos, code.len() as int)) <= code.len(),
{
    reveal_strlit("= struct");
    reveal_strlit("=struct");
    reveal_strlit("struct");
    lemma_first_match_from(code, "= struct"@, from);
    lemma_first_match_from(code, "=struct"@, from);
    let rest = code.subrange(pos, code.len() as int);
    lemma_first_match_from(rest, "struct"@, 0);
    if matches_at(code, "=struct"@, pos) {
        assert(rest.subrange(1, 7) =~= code.subrange(pos, pos + 7).subrange(1, 7));
        assert("=struct"@.subrange(1, 7) =~= "struct"@);
        assert(matches_at(rest, "struct"@, 1));
        assert("struct"@[0] == 's');
    } else {
        assert(rest.subrange(2, 8) =~= code.subrange(pos, pos + 8).subrange(2, 8));
        assert("= struct"@.subrange(2, 8) =~= "struct"@);
        assert(matches_at(rest, "struct"@, 2));
        assert("struct"@[0] == 's');
    }
}

pub(crate) fn extern_structs(code: &[char]) -> (out: Vec<char>)
    ensures
        out@ == externed(code@),
{
    let mut out: Vec<char> = Vec::new();
    let n = code.len();
    let marker_extern = to_chars("extern");
    let marker_packed = to_chars("packed");
    let mut start: usize = 0;
    loop
        invariant
            n == code@.len(),
            start <= n,
            marker_extern@ == "extern"@,
            marker_packed@ == "packed"@,
            out@ + externed_from(code@, start as int) == externed(code@),
        decreases n - start,
    {
        match find_struct_declaration_from(code, start) {
            Some(pos) => {
                proof {
                    lemma_keyword_after_declaration(code@, start as int, pos as int);
                }
                let end = pos + keyword_end(slice(code, pos, n));
                let before = slice(code, start, pos);
                push_all(&mut out, before);
                let tail = trim_end(before);
                if ends_with(tail, marker_extern.as_slice()) || ends_with(
                    tail,
                    marker_packed.as_slice(),
                ) {
                    push_all(&mut out, slice(code, pos, end));
                } else {
                    push_str(&mut out, "= extern struct");
                }
                start = end;
            },
            None => {
                push_all(&mut out, slice(code, start, n));
                return out;
            },
        }
    }
}

/// Turns the struct declarations of Zig code into `extern struct`
/// declarations, as the C calling convention asks.
pub fn convert_to_extern_struct(code: &str) -> (out: String)
    ensures
        out@ == externed(code@),
{
    let c = to_chars(code);
    let out = extern_structs(c.as_slice());
    from_chars(out.as_slice())
}

// ---------------------------------------------------------------------------
// The Zig half of an inline block
// ---------------------------------------------------------------------------

/// The code from `i` on, with the whitespace behind each `@` taken out.
pub open spec fn builtins_joined_from(s: Seq<char>, i: int) -> Seq<char>
    decreases s.len() - i,
{
    if i < 0 || i >= s.len() {
        Seq::empty()
    } else if s[i] == '@' {
        let j = leading_ws(s, i + 1);
        if i < j <= s.len() {
            seq!['@'] + builtins_joined_from(s, j)
        } else {
            seq!['@']
        }
    } else {
        seq![s[i]] + builtins_joined_from(s, i + 1)
    }
}

/// The code with the whitespace behind each `@` taken out.
pub open spec fn builtins_joined(s: Seq<char>) -> Seq<char> {
    builtins_joined_from(s, 0)
}

fn join_builtins(s: &[char]) -> (out: Vec<char>)
    ensures
        out@ == builtins_joined(s@),
{
    let mut out: Vec<char> = Vec::new();
    let n = s.len();
    let mut i: usize = 0;
    while i < n
        invariant
            n == s@.len(),
            i <= n,
            out@ + builtins_joined_from(s@, i as int) == builtins_joined(s@),
        decreases n - i,
    {
        let c = s[i];
        out.push(c);
        if c == '@' {
            let mut j: usize = i + 1;
            while j < n && whitespace(s[j])
                invariant
                    n == s@.len(),
                    i < j <= n,
                    leading_ws(s@, i + 1) == leading_ws(s@, j as int),
                decreases n - j,
            {
                j += 1;
            }
            i = j;
        } else {
            i += 1;
        }
    }
    out
}

/// The Zig half of the tokens of an inline block: the outer braces set
/// aside, what stands before the first `---`, or everything without one,
/// trimmed.
pub open spec fn zig_section(tokens: Seq<char>) -> Seq<char> {
    let content = unwrapped(trimmed(tokens), '{', '}');
    match first_match(content, "---"@) {
        Some(i) => trimmed(content.subrange(0, i)),
        None => trimmed(content),
    }
}

/// The declaration half of the tokens of an inline block: what follows the
/// first `---`; none without a separator.
pub open spec fn declaration_section(tokens: Seq<char>) -> Option<Seq<char>> {
    let content = unwrapped(trimmed(tokens), '{', '}');
    match first_match(content, "---"@) {
        Some(i) => Some(content.subrange(i + "---"@.len(), content.len() as int)),
        None => None,
    }
}

/// Zig code as the compiler takes it: the spacing that token printing puts
/// behind `@`, inside `[*]`, `[]` and ranges is taken out again, and struct
/// declarations are made `extern`.
pub open spec fn tidied(zig: Seq<char>) -> Seq<char> {
    externed(
        replaced(
            replaced(
                replaced(replaced(builtins_joined(zig), "[ * ]"@, "[*]"@), "[ ]"@, "[]"@),
                "[ 0 .. len ]"@,
                "[0..len]"@,
            ),
            ".. "@,
            ".."@,
        ),
    )
}

/// The Zig code of the tokens of an inline block; none where there is no
/// code.
pub open spec fn zig_of_tokens(tokens: Seq<char>) -> Option<Seq<char>> {
    if zig_section(tokens).len() == 0 {
        None
    } else {
        Some(tidied(zig_section(tokens)))
    }
}

fn tidy(zig: &[char]) -> (out: Vec<char>)
    ensures
        out@ == tidied(zig@),
{
    let a = join_builtins(zig);
    let b = replace(a.as_slice(), to_chars("[ * ]").as_slice(), to_chars("[*]").as_slice());
    let c = replace(b.as_slice(), to_chars("[ ]").as_slice(), to_chars("[]").as_slice());
    let d = replace(
        c.as_slice(),
        to_chars("[ 0 .. len ]").as_slice(),
        to_chars("[0..len]").as_slice(),
    );
    let e = replace(d.as_slice(), to_chars(".. ").as_slice(), to_chars("..").as_slice());
    extern_structs(e.as_slice())
}

/// Extracts the Zig code from the tokens of an inline block.
pub fn extract_zig_from_tokens(tokens: &str) -> (r: Option<String>)
    ensures
        match r {
            Some(z) => zig_of_tokens(tokens@) == Some(z@),
            None => zig_of_tokens(tokens@) is None,
        },
{
    let t = to_chars(tokens);
    let content = unwrap(trim(t.as_slice()), '{', '}');
    let section = match find(content, to_chars("---").as_slice()) {
        Some(i) => trim(slice(content, 0, i)),
        None => trim(content),
    };
    if section.len() == 0 {
        None
    } else {
        let out = tidy(section);
        Some(from_chars(out.as_slice()))
    }
}

/// Extracts the declaration text from the tokens of an inline block.
pub fn extract_declarations_from_tokens(tokens: &str) -> (r: Option<String>)
    ensures
        match r {
            Some(d) => declaration_section(tokens@) == Some(d@),
            None => declaration_section(tokens@) is None,
        },
{
    let t = to_chars(tokens);
    let content = unwrap(trim(t.as_slice()), '{', '}');
    let sep = to_chars("---");
    let n = content.len();
    match find(content, sep.as_slice()) {
        Some(i) => Some(from_chars(slice(content, i + sep.len(), n))),
        None => None,
    }
}

} // verus!
