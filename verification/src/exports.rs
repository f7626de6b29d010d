//! The exported functions of Zig code: reading their declarations, and
//! deciding how each crosses the boundary.
//!
//! An exported function that returns an aggregate cannot portably return it
//! by value. Such a function gets a wrapper that keeps the result in static
//! storage and returns its address. For a fixed-size array the wrapper
//! takes over the function's name and the function itself becomes internal;
//! for any other aggregate the wrapper is exported beside the function,
//! under a derived name.

use vstd::prelude::*;
use crate::text::{
    find_char, from_chars, has_prefix, index_of, is, occurs, slice, starts_with, to_chars, trim,
    trimmed,
};

verus! {

/// An exported Zig function, as its declaration spells it.
#[derive(Debug, Clone)]
pub struct ExportFunction {
    pub name: String,
    pub params: String,
    pub return_type: String,
}

pub struct ExportFunctionView {
    pub name: Seq<char>,
    pub params: Seq<char>,
    pub return_type: Seq<char>,
}

impl View for ExportFunction {
    type V = ExportFunctionView;

    open spec fn view(&self) -> ExportFunctionView {
        ExportFunctionView {
            name: self.name@,
            params: self.params@,
            return_type: self.return_type@,
        }
    }
}

/// The views of a list of exported functions.
pub open spec fn export_views(v: Seq<ExportFunction>) -> Seq<ExportFunctionView> {
    v.map_values(|f: ExportFunction| f@)
}

/// The suffix of the pointer-returning variant that is exported beside a
/// function returning a struct.
pub open spec fn pointer_variant_suffix() -> Seq<char> {
    "__ptr_variant"@
}

/// The suffix under which an array-returning function lives on once its
/// name has gone to the wrapper.
pub open spec fn internal_suffix() -> Seq<char> {
    "_impl"@
}

// ---------------------------------------------------------------------------
// Classifying types
// ---------------------------------------------------------------------------

/// A length between the brackets of an array type: whitespace aside it is
/// not empty, holds no `*` and does not open with `:`. So `3`, `N` and `_`
/// are lengths; what stands in the many-item pointers `[*]T`, `[*c]T` and
/// `[*:0]T` and in the slices `[]T` and `[:0]T` is none.
pub open spec fn is_array_length(n: Seq<char>) -> bool {
    let length = trimmed(n);
    length.len() > 0 && length[0] != ':' && index_of(length, '*') is None
}

/// A fixed-size array type: `[`, a length, `]`, and an element type behind
/// it. A many-item pointer and a slice are no arrays.
pub open spec fn is_fixed_array(t: Seq<char>) -> bool {
    t.len() > 0 && t[0] == '[' && match index_of(t, ']') {
        Some(close) => 1 <= close && close + 1 < t.len() && is_array_length(t.subrange(1, close)),
        None => false,
    }
}

/// The scalar types that cross the boundary by value.
pub open spec fn is_scalar_name(t: Seq<char>) -> bool {
    ||| t == "void"@
    ||| t == "i8"@
    ||| t == "i16"@
    ||| t == "i32"@
    ||| t == "i64"@
    ||| t == "i128"@
    ||| t == "u8"@
    ||| t == "u16"@
    ||| t == "u32"@
    ||| t == "u64"@
    ||| t == "u128"@
    ||| t == "usize"@
    ||| t == "isize"@
    ||| t == "f32"@
    ||| t == "f64"@
    ||| t == "bool"@
    ||| t == "c_int"@
    ||| t == "c_uint"@
    ||| t == "c_void"@
}

/// A value of this type gets pointer indirection at the boundary: a
/// fixed-size array, and every type that is no scalar. Types are known by
/// their spelling only, so whatever is no scalar is taken for a struct.
pub open spec fn wrapper_needed(zig_type: Seq<char>) -> bool {
    let t = trimmed(zig_type);
    is_fixed_array(t) || !is_scalar_name(t)
}

/// A function returning this type cannot be exported as it is: a
/// fixed-size array, and nothing else.
pub open spec fn wrapper_mandatory(zig_type: Seq<char>) -> bool {
    is_fixed_array(trimmed(zig_type))
}

/// A type whose wrapper is mandatory is a type that needs a wrapper.
pub proof fn law_mandatory_implies_needed(zig_type: Seq<char>)
    requires
        wrapper_mandatory(zig_type),
    ensures
        wrapper_needed(zig_type),
{
}

fn fixed_array(t: &[char]) -> (b: bool)
    ensures
        b == is_fixed_array(t@),
{
    if t.len() == 0 || t[0] != '[' {
        return false;
    }
    match find_char(t, ']') {
        Some(close) => {
            if close < 1 || close + 1 >= t.len() {
                return false;
            }
            let length = trim(slice(t, 1, close));
            length.len() > 0 && length[0] != ':' && find_char(length, '*').is_none()
        },
        None => false,
    }
}

fn scalar_name(t: &[char]) -> (b: bool)
    ensures
        b == is_scalar_name(t@),
{
    is(t, "void") || is(t, "i8") || is(t, "i16") || is(t, "i32") || is(t, "i64") || is(t, "i128")
        || is(t, "u8") || is(t, "u16") || is(t, "u32") || is(t, "u64") || is(t, "u128") || is(
        t,
        "usize",
    ) || is(t, "isize") || is(t, "f32") || is(t, "f64") || is(t, "bool") || is(t, "c_int") || is(
        t,
        "c_uint",
    ) || is(t, "c_void")
}

pub(crate) fn needs_wrapper(zig_type: &[char]) -> (b: bool)
    ensures
        b == wrapper_needed(zig_type@),
{
    let t = trim(zig_type);
    fixed_array(t) || !scalar_name(t)
}

/// Whether a Zig type needs an ABI wrapper: every type but the scalars.
pub fn needs_abi_wrapper(zig_type: &str) -> (b: bool)
    ensures
        b == wrapper_needed(zig_type@),
{
    let t = to_chars(zig_type);
    needs_wrapper(t.as_slice())
}

/// Whether a function returning this type must hand its name to the
/// wrapper: fixed-size arrays only.
pub fn must_use_wrapper(zig_type: &str) -> (b: bool)
    ensures
        b == wrapper_mandatory(zig_type@),
        b ==> wrapper_needed(zig_type@),
{
    let t = to_chars(zig_type);
    fixed_array(trim(t.as_slice()))
}

/// What becomes of an exported function, by its return type.
#[derive(Debug, Clone, Copy, PartialEq, Eq, Structural)]
pub enum Lowering {
    /// A scalar result: the function is exported as it stands.
    Direct,
    /// A struct result: a pointer-returning variant is exported beside it.
    DualExport,
    /// An array result: the wrapper takes the name, the function turns
    /// internal.
    Redirect,
}

/// What becomes of a function that returns the given type.
pub open spec fn lowering_of(return_type: Seq<char>) -> Lowering {
    if !wrapper_needed(return_type) {
        Lowering::Direct
    } else if wrapper_mandatory(return_type) {
        Lowering::Redirect
    } else {
        Lowering::DualExport
    }
}

/// Decides what becomes of a function that returns the given type.
pub fn classify_return(return_type: &str) -> (l: Lowering)
    ensures
        l == lowering_of(return_type@),
{
    if !needs_abi_wrapper(return_type) {
        Lowering::Direct
    } else if must_use_wrapper(return_type) {
        Lowering::Redirect
    } else {
        Lowering::DualExport
    }
}

// ---------------------------------------------------------------------------
// Reading export declarations
// ---------------------------------------------------------------------------

/// The position, at or after `i`, of the `)` that closes `depth` open
/// parentheses.
pub open spec fn closing_paren_from(s: Seq<char>, i: int, depth: int) -> Option<int>
    decreases s.len() - i,
{
    if i < 0 || i >= s.len() {
        None
    } else if s[i] == '(' {
        closing_paren_from(s, i + 1, depth + 1)
    } else if s[i] == ')' {
        if depth == 1 {
            Some(i)
        } else {
            closing_paren_from(s, i + 1, depth - 1)
        }
    } else {
        closing_paren_from(s, i + 1, depth)
    }
}

/// Where the parameter list ends in the text after its opening
/// parenthesis: at the balancing `)`; nowhere where the list does not
/// close.
pub open spec fn params_end(s: Seq<char>) -> Option<int> {
    closing_paren_from(s, 0, 1)
}

pub(crate) fn find_params_end(s: &[char]) -> (r: Option<usize>)
    ensures
        match r {
            Some(e) => params_end(s@) == Some(e as int) && e < s@.len(),
            None => params_end(s@) is None,
        },
{
    let mut depth: u128 = 1;
    let mut i: usize = 0;
    while i < s.len()
        invariant
            i <= s@.len(),
            1 <= depth <= i + 1,
            closing_paren_from(s@, 0, 1) == closing_paren_from(s@, i as int, depth as int),
        decreases s.len() - i,
    {
        if s[i] == '(' {
            depth += 1;
        } else if s[i] == ')' {
            if depth == 1 {
                return Some(i);
            }
            depth -= 1;
        }
        i += 1;
    }
    None
}

/// The declaration at the start of `line`: after `export fn `, the name up
/// to the first `(`, the parameters up to the balancing `)`, and the return
/// type up to the first `{`. None where one of the three is missing.
pub open spec fn parsed_export(line: Seq<char>) -> Option<ExportFunctionView> {
    let l = trimmed(line);
    let keyword = "export fn "@;
    if !has_prefix(l, keyword) {
        None
    } else {
        let after_fn = l.subrange(keyword.len() as int, l.len() as int);
        match index_of(after_fn, '(') {
            None => None,
            Some(p) => {
                let rest = after_fn.subrange(p + 1, after_fn.len() as int);
                match params_end(rest) {
                    None => None,
                    Some(e) => {
                        let tail = rest.subrange(e + 1, rest.len() as int);
                        match index_of(tail, '{') {
                            None => None,
                            Some(b) => Some(
                                ExportFunctionView {
                                    name: trimmed(after_fn.subrange(0, p)),
                                    params: trimmed(rest.subrange(0, e)),
                                    return_type: trimmed(tail.subrange(0, b)),
                                },
                            ),
                        }
                    },
                }
            },
        }
    }
}

pub(crate) fn parse_export(line: &[char]) -> (r: Option<ExportFunction>)
    ensures
        match r {
            Some(f) => parsed_export(line@) == Some(f@),
            None => parsed_export(line@) is None,
        },
{
    let l = trim(line);
    let keyword = to_chars("export fn ");
    if !starts_with(l, keyword.as_slice()) {
        return None;
    }
    let after_fn = slice(l, keyword.len(), l.len());
    let p = match find_char(after_fn, '(') {
        Some(p) => p,
        None => { return None; },
    };
    let rest = slice(after_fn, p + 1, after_fn.len());
    let e = match find_params_end(rest) {
        Some(e) => e,
        None => { return None; },
    };
    let tail = slice(rest, e + 1, rest.len());
    let b = match find_char(tail, '{') {
        Some(b) => b,
        None => { return None; },
    };
    Some(
        ExportFunction {
            name: from_chars(trim(slice(after_fn, 0, p))),
            params: from_chars(trim(slice(rest, 0, e))),
            return_type: from_chars(trim(slice(tail, 0, b))),
        },
    )
}

/// Parses the export declaration that `line` starts with. The lines around
/// it and its index among them are of no account.
pub fn parse_export_function(line: &str, _lines: &[&str], _idx: usize) -> (r: Option<
    ExportFunction,
>)
    ensures
        match r {
            Some(f) => parsed_export(line@) == Some(f@),
            None => parsed_export(line@) is None,
        },
{
    let l = to_chars(line);
    parse_export(l.as_slice())
}

/// The sequence of what an option holds: one element or none.
pub open spec fn option_seq<T>(o: Option<T>) -> Seq<T> {
    match o {
        Some(x) => seq![x],
        None => Seq::empty(),
    }
}

/// The declarations found at the occurrences of `export fn ` in `code`
/// from position `pos` on, in order; an occurrence that does not parse
/// gives none.
pub open spec fn exports_from(code: Seq<char>, pos: int) -> Seq<ExportFunctionView>
    decreases code.len() - pos,
{
    match first_export(code, pos) {
        Some(i) => if pos <= i && i + 10 <= code.len() {
            option_seq(parsed_export(code.subrange(i, code.len() as int))) + exports_from(
                code,
                i + 10,
            )
        } else {
            Seq::empty()
        },
        None => Seq::empty(),
    }
}

/// The first position at or after `pos` where `export fn ` occurs.
pub open spec fn first_export(code: Seq<char>, pos: int) -> Option<int> {
    crate::text::first_match_from(code, "export fn "@, pos)
}

/// The declarations found at the occurrences of `export fn ` in `code`.
pub open spec fn exports_of(code: Seq<char>) -> Seq<ExportFunctionView> {
    exports_from(code, 0)
}

/// Every export declaration in a piece of Zig code.
pub fn extract_export_functions(zig_code: &str) -> (functions: Vec<ExportFunction>)
    ensures
        export_views(functions@) == exports_of(zig_code@),
{
    let code = to_chars(zig_code);
    let keyword = to_chars("export fn ");
    proof {
        reveal_strlit("export fn ");
    }
    let mut functions: Vec<ExportFunction> = Vec::new();
    let mut pos: usize = 0;
    let n = code.len();
    loop
        invariant
            n == code@.len(),
            code@ == zig_code@,
            keyword@ == "export fn "@,
            keyword@.len() == 10,
            pos <= n,
            export_views(functions@) + exports_from(code@, pos as int) == exports_of(code@),
        decreases n - pos,
    {
        match crate::text::find_from(code.as_slice(), keyword.as_slice(), pos) {
            Some(i) => {
                let found = parse_export(slice(code.as_slice(), i, n));
                if let Some(f) = found {
                    functions.push(f);
                }
                pos = i + 10;
            },
            None => {
                return functions;
            },
        }
    }
}

} // verus!
