//! TypeScript declarations and a JavaScript loader for the exports of a
//! WebAssembly module.

use vstd::prelude::*;
use crate::text::{
    find, find_char, first_match, from_chars, has_prefix, index_of, is, is_letter_or_digit,
    letter_or_digit, slice,
    starts_with, to_chars, trim, trim_end_char, trimmed, without_trailing,
};
use crate::edit::{pieces, split, split_once, split_once_at, views};
use crate::scanner::name_view;

verus! {

/// A Rust type, as far as its TypeScript counterpart depends on it.
#[derive(Debug, Clone, PartialEq)]
pub enum RustType {
    U8,
    U16,
    U32,
    U64,
    I8,
    I16,
    I32,
    I64,
    Usize,
    Isize,
    F32,
    F64,
    Bool,
    /// A raw pointer.
    Ptr,
    Void,
    Unknown(String),
}

pub enum RustTypeView {
    U8,
    U16,
    U32,
    U64,
    I8,
    I16,
    I32,
    I64,
    Usize,
    Isize,
    F32,
    F64,
    Bool,
    Ptr,
    Void,
    Unknown(Seq<char>),
}

impl View for RustType {
    type V = RustTypeView;

    open spec fn view(&self) -> RustTypeView {
        match self {
            RustType::U8 => RustTypeView::U8,
            RustType::U16 => RustTypeView::U16,
            RustType::U32 => RustTypeView::U32,
            RustType::U64 => RustTypeView::U64,
            RustType::I8 => RustTypeView::I8,
            RustType::I16 => RustTypeView::I16,
            RustType::I32 => RustTypeView::I32,
            RustType::I64 => RustTypeView::I64,
            RustType::Usize => RustTypeView::Usize,
            RustType::Isize => RustTypeView::Isize,
            RustType::F32 => RustTypeView::F32,
            RustType::F64 => RustTypeView::F64,
            RustType::Bool => RustTypeView::Bool,
            RustType::Ptr => RustTypeView::Ptr,
            RustType::Void => RustTypeView::Void,
            RustType::Unknown(s) => RustTypeView::Unknown(s@),
        }
    }
}

/// The type that a type text names, whitespace at its ends aside.
pub open spec fn rust_type_of(s: Seq<char>) -> RustTypeView {
    let t = trimmed(s);
    if t == "u8"@ {
        RustTypeView::U8
    } else if t == "u16"@ {
        RustTypeView::U16
    } else if t == "u32"@ {
        RustTypeView::U32
    } else if t == "u64"@ {
        RustTypeView::U64
    } else if t == "i8"@ {
        RustTypeView::I8
    } else if t == "i16"@ {
        RustTypeView::I16
    } else if t == "i32"@ {
        RustTypeView::I32
    } else if t == "i64"@ {
        RustTypeView::I64
    } else if t == "usize"@ {
        RustTypeView::Usize
    } else if t == "isize"@ {
        RustTypeView::Isize
    } else if t == "f32"@ {
        RustTypeView::F32
    } else if t == "f64"@ {
        RustTypeView::F64
    } else if t == "bool"@ {
        RustTypeView::Bool
    } else if t == "()"@ || t.len() == 0 {
        RustTypeView::Void
    } else if has_prefix(t, "*mut"@) || has_prefix(t, "*const"@) {
        RustTypeView::Ptr
    } else {
        RustTypeView::Unknown(t)
    }
}

/// The TypeScript type for a Rust type. The 64-bit integers are `bigint`;
/// so are `usize` and `isize` on wasm64.
pub open spec fn typescript_of(ty: RustTypeView, is_wasm64: bool) -> Seq<char> {
    match ty {
        RustTypeView::U8 | RustTypeView::U16 | RustTypeView::U32 => "number"@,
        RustTypeView::I8 | RustTypeView::I16 | RustTypeView::I32 => "number"@,
        RustTypeView::F32 | RustTypeView::F64 => "number"@,
        RustTypeView::U64 | RustTypeView::I64 => "bigint"@,
        RustTypeView::Usize | RustTypeView::Isize => if is_wasm64 {
            "bigint"@
        } else {
            "number"@
        },
        RustTypeView::Bool => "boolean"@,
        RustTypeView::Ptr => "number"@,
        RustTypeView::Void => "void"@,
        RustTypeView::Unknown(_) => "unknown"@,
    }
}

/// Whether a value of the type crosses as a `BigInt`.
pub open spec fn bigint_needed(ty: RustTypeView, is_wasm64: bool) -> bool {
    match ty {
        RustTypeView::U64 | RustTypeView::I64 => true,
        RustTypeView::Usize | RustTypeView::Isize => is_wasm64,
        _ => false,
    }
}

fn type_of_text(t: &[char]) -> (r: RustType)
    ensures
        r@ == rust_type_of(t@),
{
    let t = trim(t);
    if is(t, "u8") {
        RustType::U8
    } else if is(t, "u16") {
        RustType::U16
    } else if is(t, "u32") {
        RustType::U32
    } else if is(t, "u64") {
        RustType::U64
    } else if is(t, "i8") {
        RustType::I8
    } else if is(t, "i16") {
        RustType::I16
    } else if is(t, "i32") {
        RustType::I32
    } else if is(t, "i64") {
        RustType::I64
    } else if is(t, "usize") {
        RustType::Usize
    } else if is(t, "isize") {
        RustType::Isize
    } else if is(t, "f32") {
        RustType::F32
    } else if is(t, "f64") {
        RustType::F64
    } else if is(t, "bool") {
        RustType::Bool
    } else if is(t, "()") || t.len() == 0 {
        RustType::Void
    } else if starts_with(t, to_chars("*mut").as_slice()) || starts_with(
        t,
        to_chars("*const").as_slice(),
    ) {
        RustType::Ptr
    } else {
        RustType::Unknown(from_chars(t))
    }
}

impl RustType {
    /// Reads a type from its text.
    pub fn from_str(s: &str) -> (r: RustType)
        ensures
            r@ == rust_type_of(s@),
    {
        let t = to_chars(s);
        type_of_text(t.as_slice())
    }

    /// The TypeScript type.
    pub fn to_typescript(&self, is_wasm64: bool) -> (r: &'static str)
        ensures
            r@ == typescript_of(self@, is_wasm64),
    {
        match self {
            RustType::U8 | RustType::U16 | RustType::U32 => "number",
            RustType::I8 | RustType::I16 | RustType::I32 => "number",
            RustType::F32 | RustType::F64 => "number",
            RustType::U64 | RustType::I64 => "bigint",
            RustType::Usize | RustType::Isize => {
                if is_wasm64 {
                    "bigint"
                } else {
                    "number"
                }
            },
            RustType::Bool => "boolean",
            RustType::Ptr => "number",
            RustType::Void => "void",
            RustType::Unknown(_) => "unknown",
        }
    }

    /// Whether a value of the type crosses as a `BigInt`.
    pub fn needs_bigint(&self, is_wasm64: bool) -> (b: bool)
        ensures
            b == bigint_needed(self@, is_wasm64),
    {
        match self {
            RustType::U64 | RustType::I64 => true,
            RustType::Usize | RustType::Isize => is_wasm64,
            _ => false,
        }
    }

    /// A copy with the same view.
    pub fn duplicate(&self) -> (r: RustType)
        ensures
            r@ == self@,
    {
        match self {
            RustType::U8 => RustType::U8,
            RustType::U16 => RustType::U16,
            RustType::U32 => RustType::U32,
            RustType::U64 => RustType::U64,
            RustType::I8 => RustType::I8,
            RustType::I16 => RustType::I16,
            RustType::I32 => RustType::I32,
            RustType::I64 => RustType::I64,
            RustType::Usize => RustType::Usize,
            RustType::Isize => RustType::Isize,
            RustType::F32 => RustType::F32,
            RustType::F64 => RustType::F64,
            RustType::Bool => RustType::Bool,
            RustType::Ptr => RustType::Ptr,
            RustType::Void => RustType::Void,
            RustType::Unknown(s) => RustType::Unknown(s.clone()),
        }
    }
}

// ---------------------------------------------------------------------------
// Attributes
// ---------------------------------------------------------------------------

/// The position of the `]` that closes an attribute, searched from `i` on
/// with `depth` brackets open. Brackets inside a string literal do not
/// count, and the character behind a backslash is passed over.
pub open spec fn attribute_end(s: Seq<char>, i: int, depth: int, in_string: bool, escape: bool) -> Option<
    int,
>
    decreases s.len() - i,
{
    if i < 0 || i >= s.len() {
        None
    } else if escape {
        attribute_end(s, i + 1, depth, in_string, false)
    } else if s[i] == '\\' {
        attribute_end(s, i + 1, depth, in_string, true)
    } else if s[i] == '"' {
        attribute_end(s, i + 1, depth, !in_string, false)
    } else if s[i] == '[' && !in_string {
        attribute_end(s, i + 1, depth + 1, in_string, false)
    } else if s[i] == ']' && !in_string {
        if depth == 1 {
            Some(i)
        } else {
            attribute_end(s, i + 1, depth - 1, in_string, false)
        }
    } else {
        attribute_end(s, i + 1, depth, in_string, false)
    }
}

/// The declaration without the attributes `#[...]` that it opens with,
/// trimmed. An attribute that is not closed stays.
pub open spec fn without_attributes(s: Seq<char>) -> Seq<char>
    decreases s.len(),
{
    let t = trimmed(s);
    if t.len() > 0 && t[0] == '#' {
        match index_of(t, '[') {
            Some(b) => match attribute_end(t, b + 1, 1, false, false) {
                Some(e) => if 0 <= e < t.len() && t.len() - (e + 1) < s.len() {
                    without_attributes(t.subrange(e + 1, t.len() as int))
                } else {
                    t
                },
                None => t,
            },
            None => t,
        }
    } else {
        t
    }
}

fn find_attribute_end(s: &[char], from: usize) -> (r: Option<usize>)
    requires
        from <= s@.len(),
    ensures
        match r {
            Some(e) => attribute_end(s@, from as int, 1, false, false) == Some(e as int) && from
                <= e < s@.len(),
            None => attribute_end(s@, from as int, 1, false, false) is None,
        },
{
    let mut depth: u128 = 1;
    let mut in_string = false;
    let mut escape = false;
    let mut i: usize = from;
    while i < s.len()
        invariant
            from <= i <= s@.len(),
            1 <= depth <= i - from + 1,
            attribute_end(s@, from as int, 1, false, false) == attribute_end(
                s@,
                i as int,
                depth as int,
                in_string,
                escape,
            ),
        decreases s.len() - i,
    {
        let c = s[i];
        if escape {
            escape = false;
        } else if c == '\\' {
            escape = true;
        } else if c == '"' {
            in_string = !in_string;
        } else if c == '[' && !in_string {
            depth += 1;
        } else if c == ']' && !in_string {
            if depth == 1 {
                return Some(i);
            }
            depth -= 1;
        }
        i += 1;
    }
    None
}

fn strip_attrs<'a>(s: &'a [char]) -> (r: &'a [char])
    ensures
        r@ == without_attributes(s@),
{
    let mut t = trim(s);
    proof {
        lemma_trimmed_twice(s@);
        lemma_without_attributes_trim(s@);
    }
    loop
        invariant
            t@ == trimmed(t@),
            without_attributes(s@) == without_attributes(t@),
        decreases t@.len(),
    {
        if t.len() > 0 && t[0] == '#' {
            let n = t.len();
            match find_char(t, '[') {
                Some(b) => match find_attribute_end(t, b + 1) {
                    Some(e) => {
                        let rest = slice(t, e + 1, n);
                        proof {
                            crate::text::lemma_trimmed(rest@);
                            lemma_without_attributes_trim(rest@);
                        }
                        t = trim(rest);
                    },
                    None => { return t; },
                },
                None => { return t; },
            }
        } else {
            return t;
        }
    }
}

/// Trimming a trimmed text changes nothing.
pub proof fn lemma_trimmed_twice(s: Seq<char>)
    ensures
        trimmed(trimmed(s)) == trimmed(s),
{
    let a = crate::text::leading_ws(s, 0);
    crate::text::lemma_leading_ws(s, 0);
    let b = crate::text::trailing_ws(s, a, s.len() as int);
    crate::text::lemma_trailing_ws(s, a, s.len() as int);
    let t = trimmed(s);
    crate::text::lemma_leading_ws(t, 0);
    if t.len() > 0 {
        crate::text::lemma_trailing_ws(t, 0, t.len() as int);
    }
}

/// Stripping attributes begins by trimming.
proof fn lemma_without_attributes_trim(s: Seq<char>)
    ensures
        without_attributes(trimmed(s)) == without_attributes(s),
{
    lemma_trimmed_twice(s);
    crate::text::lemma_trimmed(s);

}

// ---------------------------------------------------------------------------
// Signatures
// ---------------------------------------------------------------------------

/// The signature of an exported function.
#[derive(Debug, Clone)]
pub struct FunctionSignature {
    pub name: String,
    /// The parameters: name and type.
    pub params: Vec<(String, RustType)>,
    pub return_type: RustType,
    /// A documentation comment.
    pub doc: Option<String>,
}

pub struct FunctionSignatureView {
    pub name: Seq<char>,
    pub params: Seq<(Seq<char>, RustTypeView)>,
    pub return_type: RustTypeView,
    pub doc: Option<Seq<char>>,
}

/// The views of a list of parameters.
pub open spec fn param_views(v: Seq<(String, RustType)>) -> Seq<(Seq<char>, RustTypeView)> {
    v.map_values(|p: (String, RustType)| (p.0@, p.1@))
}

impl View for FunctionSignature {
    type V = FunctionSignatureView;

    open spec fn view(&self) -> FunctionSignatureView {
        FunctionSignatureView {
            name: self.name@,
            params: param_views(self.params@),
            return_type: self.return_type@,
            doc: name_view(self.doc),
        }
    }
}

/// The views of a list of signatures.
pub open spec fn function_views(v: Seq<FunctionSignature>) -> Seq<FunctionSignatureView> {
    v.map_values(|f: FunctionSignature| f@)
}

/// A function name: letters, digits and `_`, at least one.
pub open spec fn name_ok(name: Seq<char>) -> bool {
    name.len() > 0 && forall|i: int|
        0 <= i < name.len() ==> letter_or_digit(#[trigger] name[i]) || name[i] == '_'
}

/// The parameters that the first `n` pieces of a parameter list declare:
/// a piece `name: type` declares one, any other piece none.
pub open spec fn parsed_params(ps: Seq<Seq<char>>, n: int) -> Seq<(Seq<char>, RustTypeView)>
    decreases n,
{
    if n <= 0 {
        Seq::empty()
    } else {
        let rest = parsed_params(ps, n - 1);
        let p = trimmed(ps[n - 1]);
        if p.len() == 0 {
            rest
        } else {
            match split_once_at(p, ':') {
                Some((name, ty)) => rest.push((trimmed(name), rust_type_of(trimmed(ty)))),
                None => rest,
            }
        }
    }
}

/// The parameters of a parameter list.
pub open spec fn params_of(text: Seq<char>) -> Seq<(Seq<char>, RustTypeView)> {
    parsed_params(pieces(text, ','), pieces(text, ',').len() as int)
}

/// The return type that follows a parameter list: what stands behind
/// `->`, a closing semicolon aside; without an arrow, nothing.
pub open spec fn return_of(after_params: Seq<char>) -> RustTypeView {
    match first_match(after_params, "->"@) {
        Some(a) => rust_type_of(
            trimmed(
                without_trailing(
                    trimmed(
                        after_params.subrange(a + "->"@.len(), after_params.len() as int),
                    ),
                    ';',
                ),
            ),
        ),
        None => RustTypeView::Void,
    }
}

/// The signature that a declaration `fn name(params) -> type` spells,
/// attributes before it aside; none where the text is no such
/// declaration.
pub open spec fn parsed_signature(decl: Seq<char>) -> Option<FunctionSignatureView> {
    let d = trimmed(without_attributes(trimmed(decl)));
    if !has_prefix(d, "fn "@) {
        None
    } else {
        let rest = trimmed(d.subrange("fn "@.len() as int, d.len() as int));
        match index_of(rest, '(') {
            None => None,
            Some(p) => {
                let name = trimmed(rest.subrange(0, p));
                if !name_ok(name) {
                    None
                } else {
                    let after = rest.subrange(p + 1, rest.len() as int);
                    match index_of(after, ')') {
                        None => None,
                        Some(c) => Some(
                            FunctionSignatureView {
                                name,
                                params: params_of(after.subrange(0, c)),
                                return_type: return_of(
                                    after.subrange(c + 1, after.len() as int),
                                ),
                                doc: None,
                            },
                        ),
                    }
                }
            },
        }
    }
}

fn valid_name(name: &[char]) -> (b: bool)
    ensures
        b == name_ok(name@),
{
    if name.len() == 0 {
        return false;
    }
    let mut i: usize = 0;
    while i < name.len()
        invariant
            i <= name@.len(),
            forall|k: int| 0 <= k < i ==> letter_or_digit(#[trigger] name@[k]) || name@[k] == '_',
        decreases name.len() - i,
    {
        let c = name[i];
        if !(is_letter_or_digit(c) || c == '_') {
            return false;
        }
        i += 1;
    }
    true
}

fn params_from(text: &[char]) -> (params: Vec<(String, RustType)>)
    ensures
        param_views(params@) == params_of(text@),
{
    let parts = split(text, ',');
    let mut params: Vec<(String, RustType)> = Vec::new();
    let mut i: usize = 0;
    while i < parts.len()
        invariant
            i <= parts@.len(),
            views(parts@) == pieces(text@, ','),
            param_views(params@) == parsed_params(views(parts@), i as int),
        decreases parts.len() - i,
    {
        let p = trim(parts[i].as_slice());
        if p.len() > 0 {
            if let Some((name, ty)) = split_once(p, ':') {
                let param = (from_chars(trim(name)), type_of_text(trim(ty)));
                params.push(param);
            }
        }
        i += 1;
    }
    params
}

fn return_from(after_params: &[char]) -> (r: RustType)
    ensures
        r@ == return_of(after_params@),
{
    let arrow = to_chars("->");
    let n = after_params.len();
    match find(after_params, arrow.as_slice()) {
        Some(a) => {
            let ret = trim(slice(after_params, a + arrow.len(), n));
            type_of_text(trim(trim_end_char(ret, ';')))
        },
        None => RustType::Void,
    }
}

impl FunctionSignature {
    /// Parses a function declaration such as
    /// `fn get_memory_size() -> usize`.
    pub fn parse(decl: &str) -> (r: Option<FunctionSignature>)
        ensures
            match r {
                Some(f) => parsed_signature(decl@) == Some(f@),
                None => parsed_signature(decl@) is None,
            },
    {
        let text = to_chars(decl);
        let d = trim(strip_attrs(trim(text.as_slice())));
        let keyword = to_chars("fn ");
        if !starts_with(d, keyword.as_slice()) {
            return None;
        }
        let rest = trim(slice(d, keyword.len(), d.len()));
        let n = rest.len();
        let p = match find_char(rest, '(') {
            Some(p) => p,
            None => { return None; },
        };
        let name = trim(slice(rest, 0, p));
        if !valid_name(name) {
            return None;
        }
        let after = slice(rest, p + 1, n);
        let m = after.len();
        let c = match find_char(after, ')') {
            Some(c) => c,
            None => { return None; },
        };
        Some(
            FunctionSignature {
                name: from_chars(name),
                params: params_from(slice(after, 0, c)),
                return_type: return_from(slice(after, c + 1, m)),
                doc: None,
            },
        )
    }

    /// The declaration without the attributes it opens with.
    pub fn strip_attributes(s: &str) -> (r: String)
        ensures
            r@ == without_attributes(s@),
    {
        let text = to_chars(s);
        from_chars(strip_attrs(text.as_slice()))
    }

    /// The parameters of a parameter list.
    pub fn parse_params(params_str: &str) -> (params: Vec<(String, RustType)>)
        ensures
            param_views(params@) == params_of(params_str@),
    {
        let text = to_chars(params_str);
        params_from(text.as_slice())
    }
}

// ---------------------------------------------------------------------------
// The generator
// ---------------------------------------------------------------------------

/// Configuration of the generator.
#[derive(Debug, Clone)]
pub struct TsConfig {
    /// The target is wasm64: `usize` and `isize` are 64 bits wide.
    pub is_wasm64: bool,
    /// The name of the module.
    pub module_name: String,
    /// ES module format rather than CommonJS.
    pub es_module: bool,
}

impl Default for TsConfig {
    fn default() -> (config: TsConfig)
        ensures
            !config.is_wasm64,
            config.module_name@ == "autozig"@,
            config.es_module,
    {
        TsConfig { is_wasm64: false, module_name: "autozig".to_owned(), es_module: true }
    }
}

/// Generator of TypeScript bindings.
#[derive(Debug)]
pub struct TsGenerator {
    pub functions: Vec<FunctionSignature>,
    pub config: TsConfig,
}

/// The signatures that the first `n` declarations spell; a declaration
/// that does not parse gives none.
pub open spec fn parsed_signatures(decls: Seq<String>, n: int) -> Seq<FunctionSignatureView>
    decreases n,
{
    if n <= 0 {
        Seq::empty()
    } else {
        let rest = parsed_signatures(decls, n - 1);
        match parsed_signature(decls[n - 1]@) {
            Some(f) => rest.push(f),
            None => rest,
        }
    }
}

/// The first `n` parameters as TypeScript parameters.
pub open spec fn ts_params(params: Seq<(Seq<char>, RustTypeView)>, is_wasm64: bool, n: int) -> Seq<
    char,
>
    decreases n,
{
    if n <= 0 {
        Seq::empty()
    } else if n == 1 {
        params[0].0 + ": "@ + typescript_of(params[0].1, is_wasm64)
    } else {
        ts_params(params, is_wasm64, n - 1) + ", "@ + params[n - 1].0 + ": "@ + typescript_of(
            params[n - 1].1,
            is_wasm64,
        )
    }
}

/// The member of the exports interface for one function.
pub open spec fn dts_entry(f: FunctionSignatureView, is_wasm64: bool) -> Seq<char> {
    (match f.doc {
        Some(doc) => "  /** "@ + doc + " */\n"@,
        None => Seq::empty(),
    }) + "  "@ + f.name + "("@ + ts_params(f.params, is_wasm64, f.params.len() as int) + "): "@
        + typescript_of(f.return_type, is_wasm64) + ";\n"@
}

/// The members of the exports interface for the first `n` functions.
pub open spec fn dts_entries(fs: Seq<FunctionSignatureView>, is_wasm64: bool, n: int) -> Seq<char>
    decreases n,
{
    if n <= 0 {
        Seq::empty()
    } else {
        dts_entries(fs, is_wasm64, n - 1) + dts_entry(fs[n - 1], is_wasm64)
    }
}

/// The head of the declaration file, up to the opening of the exports
/// interface.
pub open spec fn dts_head() -> Seq<char> {
    "/* Auto-generated by AutoZig - Do not edit */\n"@ + "/* eslint-disable */\n"@ + "\n"@
        + "export interface WasmExports {\n"@
}

/// The end of the declaration file: the module interface and the two
/// loaders.
pub open spec fn dts_tail() -> Seq<char> {
    "}\n"@ + "\n"@ + "export interface AutoZigWasm {\n"@ + "  exports: WasmExports;\n"@
        + "  memory: WebAssembly.Memory;\n"@ + "  instance: WebAssembly.Instance;\n"@ + "}\n"@
        + "\n"@ + "/** Load WASM module from URL */\n"@
        + "export function loadWasm(path: string): Promise<AutoZigWasm>;\n"@ + "\n"@
        + "/** Load WASM module from ArrayBuffer */\n"@
        + "export function loadWasmSync(buffer: ArrayBuffer): Promise<AutoZigWasm>;\n"@
}

/// The declaration file for the functions.
pub open spec fn dts_of(fs: Seq<FunctionSignatureView>, is_wasm64: bool) -> Seq<char> {
    dts_head() + dts_entries(fs, is_wasm64, fs.len() as int) + dts_tail()
}

/// One of the first `n` parameters crosses as a `BigInt`.
pub open spec fn any_bigint(params: Seq<(Seq<char>, RustTypeView)>, is_wasm64: bool, n: int) -> bool
    decreases n,
{
    if n <= 0 {
        false
    } else {
        any_bigint(params, is_wasm64, n - 1) || bigint_needed(params[n - 1].1, is_wasm64)
    }
}

/// The names of the first `n` parameters, separated by `, `.
pub open spec fn js_names(params: Seq<(Seq<char>, RustTypeView)>, n: int) -> Seq<char>
    decreases n,
{
    if n <= 0 {
        Seq::empty()
    } else if n == 1 {
        params[0].0
    } else {
        js_names(params, n - 1) + ", "@ + params[n - 1].0
    }
}

/// The argument for one parameter: converted to `BigInt` where the type
/// asks for it.
pub open spec fn js_arg(param: (Seq<char>, RustTypeView), is_wasm64: bool) -> Seq<char> {
    if bigint_needed(param.1, is_wasm64) {
        "BigInt("@ + param.0 + ")"@
    } else {
        param.0
    }
}

/// The arguments for the first `n` parameters, separated by `, `.
pub open spec fn js_args(params: Seq<(Seq<char>, RustTypeView)>, is_wasm64: bool, n: int) -> Seq<
    char,
>
    decreases n,
{
    if n <= 0 {
        Seq::empty()
    } else if n == 1 {
        js_arg(params[0], is_wasm64)
    } else {
        js_args(params, is_wasm64, n - 1) + ", "@ + js_arg(params[n - 1], is_wasm64)
    }
}

/// The entry of the wrapped exports for one function: the raw export, or,
/// where a parameter crosses as a `BigInt`, a function that converts. A
/// comma closes every entry but the last.
pub open spec fn js_entry(f: FunctionSignatureView, is_wasm64: bool, last: bool) -> Seq<char> {
    let comma = if last {
        Seq::<char>::empty()
    } else {
        ","@
    };
    let n = f.params.len() as int;
    if any_bigint(f.params, is_wasm64, n) {
        "    "@ + f.name + ": ("@ + js_names(f.params, n) + ") => raw."@ + f.name + "("@ + js_args(
            f.params,
            is_wasm64,
            n,
        ) + ")"@ + comma + "\n"@
    } else {
        "    "@ + f.name + ": raw."@ + f.name + comma + "\n"@
    }
}

/// The entries of the wrapped exports for the first `n` functions.
pub open spec fn js_entries(fs: Seq<FunctionSignatureView>, is_wasm64: bool, n: int) -> Seq<char>
    decreases n,
{
    if n <= 0 {
        Seq::empty()
    } else {
        js_entries(fs, is_wasm64, n - 1) + js_entry(fs[n - 1], is_wasm64, n == fs.len())
    }
}

/// The head of the loader module, with the loader by URL.
pub open spec fn js_head() -> Seq<char> {
    "/* Auto-generated by AutoZig - Do not edit */\n"@ + "\n"@ + "/**\n"@
        + " * Load WASM module from URL\n"@ + " * @param {string} path - Path to .wasm file\n"@
        + " * @returns {Promise<AutoZigWasm>}\n"@ + " */\n"@
        + "export async function loadWasm(path) {\n"@
        + "  const response = await fetch(path);\n"@
        + "  const buffer = await response.arrayBuffer();\n"@ + "  return loadWasmSync(buffer);\n"@
        + "}\n"@ + "\n"@
}

/// The loader from an array buffer.
pub open spec fn js_sync_loader() -> Seq<char> {
    "/**\n"@ + " * Load WASM module from ArrayBuffer\n"@ + " * @param {ArrayBuffer} buffer\n"@
        + " * @returns {Promise<AutoZigWasm>}\n"@ + " */\n"@
        + "export async function loadWasmSync(buffer) {\n"@
        + "  const result = await WebAssembly.instantiate(buffer, {});\n"@
        + "  const instance = result.instance;\n"@ + "  const raw = instance.exports;\n"@ + "\n"@
        + "  return {\n"@ + "    exports: wrapExports(raw),\n"@ + "    memory: raw.memory,\n"@
        + "    instance: instance\n"@ + "  };\n"@ + "}\n"@ + "\n"@
}

/// The opening of the function that wraps the raw exports.
pub open spec fn js_wrapper_head() -> Seq<char> {
    "/**\n"@ + " * Wrap raw WASM exports with type conversions\n"@
        + " * @param {object} raw - Raw WebAssembly exports\n"@ + " * @returns {WasmExports}\n"@
        + " */\n"@ + "function wrapExports(raw) {\n"@ + "  return {\n"@
}

/// The loader module for the functions.
pub open spec fn js_loader_of(fs: Seq<FunctionSignatureView>, is_wasm64: bool) -> Seq<char> {
    js_head() + js_sync_loader() + js_wrapper_head() + js_entries(fs, is_wasm64, fs.len() as int)
        + "  };\n"@ + "}\n"@
}

fn write_ts_params(params: &Vec<(String, RustType)>, is_wasm64: bool) -> (out: String)
    ensures
        out@ == ts_params(param_views(params@), is_wasm64, params@.len() as int),
{
    let mut out = String::new();
    let mut i: usize = 0;
    while i < params.len()
        invariant
            i <= params@.len(),
            out@ == ts_params(param_views(params@), is_wasm64, i as int),
        decreases params.len() - i,
    {
        if i > 0 {
            out.append(", ");
        }
        out.append(params[i].0.as_str());
        out.append(": ");
        out.append(params[i].1.to_typescript(is_wasm64));
        i += 1;
    }
    out
}

fn write_dts_entry(f: &FunctionSignature, is_wasm64: bool) -> (out: String)
    ensures
        out@ == dts_entry(f@, is_wasm64),
{
    let mut out = String::new();
    if let Some(doc) = &f.doc {
        out.append("  /** ");
        out.append(doc.as_str());
        out.append(" */\n");
    }
    out.append("  ");
    out.append(f.name.as_str());
    out.append("(");
    out.append(write_ts_params(&f.params, is_wasm64).as_str());
    out.append("): ");
    out.append(f.return_type.to_typescript(is_wasm64));
    out.append(";\n");
    out
}

fn needs_conversion(params: &Vec<(String, RustType)>, is_wasm64: bool) -> (b: bool)
    ensures
        b == any_bigint(param_views(params@), is_wasm64, params@.len() as int),
{
    let mut found = false;
    let mut i: usize = 0;
    while i < params.len()
        invariant
            i <= params@.len(),
            found == any_bigint(param_views(params@), is_wasm64, i as int),
        decreases params.len() - i,
    {
        if params[i].1.needs_bigint(is_wasm64) {
            found = true;
        }
        i += 1;
    }
    found
}

fn write_js_names(params: &Vec<(String, RustType)>) -> (out: String)
    ensures
        out@ == js_names(param_views(params@), params@.len() as int),
{
    let mut out = String::new();
    let mut i: usize = 0;
    while i < params.len()
        invariant
            i <= params@.len(),
            out@ == js_names(param_views(params@), i as int),
        decreases params.len() - i,
    {
        if i > 0 {
            out.append(", ");
        }
        out.append(params[i].0.as_str());
        i += 1;
    }
    out
}

fn write_js_args(params: &Vec<(String, RustType)>, is_wasm64: bool) -> (out: String)
    ensures
        out@ == js_args(param_views(params@), is_wasm64, params@.len() as int),
{
    let mut out = String::new();
    let mut i: usize = 0;
    while i < params.len()
        invariant
            i <= params@.len(),
            out@ == js_args(param_views(params@), is_wasm64, i as int),
        decreases params.len() - i,
    {
        if i > 0 {
            out.append(", ");
        }
        if params[i].1.needs_bigint(is_wasm64) {
            out.append("BigInt(");
            out.append(params[i].0.as_str());
            out.append(")");
        } else {
            out.append(params[i].0.as_str());
        }
        i += 1;
    }
    out
}

fn write_js_entry(f: &FunctionSignature, is_wasm64: bool, last: bool) -> (out: String)
    ensures
        out@ == js_entry(f@, is_wasm64, last),
{
    let mut out = String::new();
    out.append("    ");
    out.append(f.name.as_str());
    if needs_conversion(&f.params, is_wasm64) {
        out.append(": (");
        out.append(write_js_names(&f.params).as_str());
        out.append(") => raw.");
        out.append(f.name.as_str());
        out.append("(");
        out.append(write_js_args(&f.params, is_wasm64).as_str());
        out.append(")");
    } else {
        out.append(": raw.");
        out.append(f.name.as_str());
    }
    if !last {
        out.append(",");
    }
    out.append("\n");
    out
}

impl TsGenerator {
    /// A generator for the given functions.
    pub fn new(functions: Vec<FunctionSignature>, config: TsConfig) -> (generator: TsGenerator)
        ensures
            generator.functions == functions,
            generator.config == config,
    {
        TsGenerator { functions, config }
    }

    /// A generator for the functions that the declarations spell.
    pub fn from_declarations(decls: &[String], config: TsConfig) -> (generator: TsGenerator)
        ensures
            function_views(generator.functions@) == parsed_signatures(
                decls@,
                decls@.len() as int,
            ),
            generator.config == config,
    {
        let mut functions: Vec<FunctionSignature> = Vec::new();
        let mut i: usize = 0;
        while i < decls.len()
            invariant
                i <= decls@.len(),
                function_views(functions@) == parsed_signatures(decls@, i as int),
            decreases decls.len() - i,
        {
            if let Some(f) = FunctionSignature::parse(decls[i].as_str()) {
                functions.push(f);
            }
            i += 1;
        }
        TsGenerator { functions, config }
    }

    /// Generates the TypeScript declaration file.
    pub fn generate_dts(&self) -> (output: String)
        ensures
            output@ == dts_of(function_views(self.functions@), self.config.is_wasm64),
    {
        let mut output = String::new();
        output.append("/* Auto-generated by AutoZig - Do not edit */\n");
        output.append("/* eslint-disable */\n");
        output.append("\n");
        output.append("export interface WasmExports {\n");
        assert(output@ =~= dts_head());
        let ghost fs = function_views(self.functions@);
        let wasm64 = self.config.is_wasm64;
        let mut i: usize = 0;
        assert(output@ =~= dts_head() + dts_entries(fs, wasm64, 0));
        while i < self.functions.len()
            invariant
                i <= self.functions@.len(),
                fs == function_views(self.functions@),
                output@ == dts_head() + dts_entries(fs, wasm64, i as int),
            decreases self.functions.len() - i,
        {
            assert(fs[i as int] == self.functions@[i as int]@);
            output.append(write_dts_entry(&self.functions[i], wasm64).as_str());
            assert(output@ =~= dts_head() + (dts_entries(fs, wasm64, i as int) + dts_entry(
                fs[i as int],
                wasm64,
            )));
            i += 1;
        }
        let ghost body = output@;
        output.append("}\n");
        output.append("\n");
        output.append("export interface AutoZigWasm {\n");
        output.append("  exports: WasmExports;\n");
        output.append("  memory: WebAssembly.Memory;\n");
        output.append("  instance: WebAssembly.Instance;\n");
        output.append("}\n");
        output.append("\n");
        output.append("/** Load WASM module from URL */\n");
        output.append("export function loadWasm(path: string): Promise<AutoZigWasm>;\n");
        output.append("\n");
        output.append("/** Load WASM module from ArrayBuffer */\n");
        output.append("export function loadWasmSync(buffer: ArrayBuffer): Promise<AutoZigWasm>;\n");
        assert(output@ =~= body + dts_tail());
        output
    }

    /// Generates the JavaScript loader module.
    pub fn generate_js_loader(&self) -> (output: String)
        ensures
            output@ == js_loader_of(function_views(self.functions@), self.config.is_wasm64),
    {
        let mut output = js_preamble();
        let ghost head = output@;
        let ghost fs = function_views(self.functions@);
        let wasm64 = self.config.is_wasm64;
        let n = self.functions.len();
        let mut i: usize = 0;
        assert(output@ =~= head + js_entries(fs, wasm64, 0));
        while i < n
            invariant
                i <= n == self.functions@.len(),
                fs == function_views(self.functions@),
                output@ == head + js_entries(fs, wasm64, i as int),
            decreases n - i,
        {
            assert(fs[i as int] == self.functions@[i as int]@);
            output.append(write_js_entry(&self.functions[i], wasm64, i + 1 == n).as_str());
            assert(output@ =~= head + (js_entries(fs, wasm64, i as int) + js_entry(
                fs[i as int],
                wasm64,
                i + 1 == n,
            )));
            i += 1;
        }
        output.append("  };\n");
        output.append("}\n");
        assert(output@ =~= js_loader_of(fs, wasm64));
        output
    }
}

fn js_preamble() -> (output: String)
    ensures
        output@ == js_head() + js_sync_loader() + js_wrapper_head(),
{
    let mut output = String::new();
    output.append("/* Auto-generated by AutoZig - Do not edit */\n");
    output.append("\n");
    output.append("/**\n");
    output.append(" * Load WASM module from URL\n");
    output.append(" * @param {string} path - Path to .wasm file\n");
    output.append(" * @returns {Promise<AutoZigWasm>}\n");
    output.append(" */\n");
    output.append("export async function loadWasm(path) {\n");
    output.append("  const response = await fetch(path);\n");
    output.append("  const buffer = await response.arrayBuffer();\n");
    output.append("  return loadWasmSync(buffer);\n");
    output.append("}\n");
    output.append("\n");
    assert(output@ =~= js_head());
    let ghost a = output@;
    output.append("/**\n");
    output.append(" * Load WASM module from ArrayBuffer\n");
    output.append(" * @param {ArrayBuffer} buffer\n");
    output.append(" * @returns {Promise<AutoZigWasm>}\n");
    output.append(" */\n");
    output.append("export async function loadWasmSync(buffer) {\n");
    output.append("  const result = await WebAssembly.instantiate(buffer, {});\n");
    output.append("  const instance = result.instance;\n");
    output.append("  const raw = instance.exports;\n");
    output.append("\n");
    output.append("  return {\n");
    output.append("    exports: wrapExports(raw),\n");
    output.append("    memory: raw.memory,\n");
    output.append("    instance: instance\n");
    output.append("  };\n");
    output.append("}\n");
    output.append("\n");
    assert(output@ =~= a + js_sync_loader());
    let ghost b = output@;
    output.append("/**\n");
    output.append(" * Wrap raw WASM exports with type conversions\n");
    output.append(" * @param {object} raw - Raw WebAssembly exports\n");
    output.append(" * @returns {WasmExports}\n");
    output.append(" */\n");
    output.append("function wrapExports(raw) {\n");
    output.append("  return {\n");
    assert(output@ =~= b + js_wrapper_head());
    output
}

} // verus!
