//! The native declarations of the Zig functions that impls forward to.

use vstd::prelude::*;
use crate::text::{
    find_char, index_of, is, leading_ws, match_at, matches_at, skip_ws, slice, to_chars, trim,
    trimmed,
};
use crate::edit::{join_strings, joined, string_views};
use crate::bridge::spaced;
use crate::idl::{
    impl_views, method_views, AutoZigConfig, RustTraitImpl, RustTraitImplView, TraitMethod,
    TraitMethodView,
};
use crate::lowering::{lower_params, native_params_text, native_params_upto, native_views, render_native_params, NativeParam, NativeParamView, NativeType, NativeTypeView};
use crate::exports::{find_params_end, params_end};
use crate::syntax::{
    arg_views, output_text, FnSignature, Output, OutputView, ParamView, TypeExpr, TypeExprView,
};
use crate::traits::{first_receiver, receiver, self_pointer_param, typed_params};

verus! {

/// Where the parameter list opens, if the export of the function `name`
/// stands at position `i`: `export fn`, a space or a line feed, the name,
/// and behind the name, whitespace aside, the `(`. A longer name that only
/// begins with `name` is no such export.
pub open spec fn export_opens_at(code: Seq<char>, name: Seq<char>, i: int) -> Option<int> {
    if matches_at(code, "export fn"@, i) && i + 9 < code.len() && (code[i + 9] == ' ' || code[i
        + 9] == '\n') && matches_at(code, name, i + 10) {
        let open = leading_ws(code, i + 10 + name.len());
        if open < code.len() && code[open] == '(' {
            Some(open)
        } else {
            None
        }
    } else {
        None
    }
}

/// Where the parameter list of the first export of `name` at or after
/// `from` opens.
pub open spec fn export_opening_from(code: Seq<char>, name: Seq<char>, from: int) -> Option<int>
    decreases code.len() - from,
{
    if from < 0 || from >= code.len() {
        None
    } else {
        match export_opens_at(code, name, from) {
            Some(open) => Some(open),
            None => export_opening_from(code, name, from + 1),
        }
    }
}

/// The return type that the Zig code declares for the function `name`:
/// what stands between the parameter list and the body of its first
/// export. None where the code holds no export of that name, where its
/// parameter list does not close, and where no body follows.
pub open spec fn zig_return_text(code: Seq<char>, name: Seq<char>) -> Option<Seq<char>> {
    match export_opening_from(code, name, 0) {
        None => None,
        Some(open) => {
            let rest = code.subrange(open + 1, code.len() as int);
            match params_end(rest) {
                None => None,
                Some(e) => {
                    let tail = rest.subrange(e + 1, rest.len() as int);
                    match index_of(tail, '{') {
                        None => None,
                        Some(b) => Some(trimmed(tail.subrange(0, b))),
                    }
                },
            }
        },
    }
}

/// The scalar type `name` as a type.
pub open spec fn scalar_type(name: Seq<char>) -> OutputView {
    OutputView::Type(
        TypeExprView::Path { text: name, ident: Some(name), last_segment: Some(name) },
    )
}

/// The Rust return type for a Zig return type: the scalars that both
/// languages spell alike, and nothing for `void`; none for any other type.
pub open spec fn rust_return_of(zig_type: Seq<char>) -> Option<OutputView> {
    if zig_type == "i32"@ || zig_type == "u32"@ || zig_type == "i64"@ || zig_type == "u64"@
        || zig_type == "f32"@ || zig_type == "f64"@ || zig_type == "bool"@ {
        Some(scalar_type(zig_type))
    } else if zig_type == "void"@ {
        Some(OutputView::Default)
    } else {
        None
    }
}

/// The Rust return type of the Zig function `name`, where the Zig code
/// declares the function with a return type that is known.
pub open spec fn zig_return_type(code: Seq<char>, name: Seq<char>) -> Option<OutputView> {
    match zig_return_text(code, name) {
        Some(t) => rust_return_of(t),
        None => None,
    }
}

/// The view of an optional return type.
pub open spec fn output_view(r: Option<Output>) -> Option<OutputView> {
    match r {
        Some(o) => Some(o@),
        None => None,
    }
}

fn opens_at(code: &[char], name: &[char], i: usize) -> (r: Option<usize>)
    requires
        i < code@.len(),
    ensures
        match r {
            Some(open) => export_opens_at(code@, name@, i as int) == Some(open as int) && open
                < code@.len(),
            None => export_opens_at(code@, name@, i as int) is None,
        },
{
    let keyword = to_chars("export fn");
    proof {
        reveal_strlit("export fn");
    }
    let n = code.len();
    if !match_at(code, keyword.as_slice(), i) || i + 9 >= n {
        return None;
    }
    let c = code[i + 9];
    if !(c == ' ' || c == '\n') || !match_at(code, name, i + 10) {
        return None;
    }
    let open = skip_ws(code, i + 10 + name.len());
    if open < n && code[open] == '(' {
        Some(open)
    } else {
        None
    }
}

fn export_opening(code: &[char], name: &[char]) -> (r: Option<usize>)
    ensures
        match r {
            Some(open) => export_opening_from(code@, name@, 0) == Some(open as int) && open
                < code@.len(),
            None => export_opening_from(code@, name@, 0) is None,
        },
{
    let n = code.len();
    let mut i: usize = 0;
    while i < n
        invariant
            i <= n,
            n == code@.len(),
            export_opening_from(code@, name@, 0) == export_opening_from(code@, name@, i as int),
        decreases n - i,
    {
        if let Some(open) = opens_at(code, name, i) {
            return Some(open);
        }
        i += 1;
    }
    None
}

fn return_text(code: &[char], name: &str) -> (r: Option<Vec<char>>)
    ensures
        match r {
            Some(t) => zig_return_text(code@, name@) == Some(t@),
            None => zig_return_text(code@, name@) is None,
        },
{
    let name = to_chars(name);
    let n = code.len();
    let open = match export_opening(code, name.as_slice()) {
        Some(open) => open,
        None => { return None; },
    };
    let rest = slice(code, open + 1, n);
    let e = match find_params_end(rest) {
        Some(e) => e,
        None => { return None; },
    };
    let tail = slice(rest, e + 1, rest.len());
    match find_char(tail, '{') {
        Some(b) => Some(crate::text::copy(trim(slice(tail, 0, b)))),
        None => None,
    }
}

fn scalar(name: &str) -> (r: Output)
    ensures
        r@ == scalar_type(name@),
{
    let r = Output::Type(
        TypeExpr::Path {
            text: name.to_owned(),
            ident: Some(name.to_owned()),
            last_segment: Some(name.to_owned()),
        },
    );
    assert(r@ == scalar_type(name@)) by {
        assert(r->Type_0@ is Path);
    }
    r
}

/// Reads the return type of a Zig function from its definition
/// `export fn name(...) TYPE {`.
pub fn extract_zig_return_type(zig_code: &str, fn_name: &str) -> (r: Option<Output>)
    ensures
        output_view(r) == zig_return_type(zig_code@, fn_name@),
{
    let code = to_chars(zig_code);
    match return_text(code.as_slice(), fn_name) {
        Some(t) => {
            let t = t.as_slice();
            if is(t, "i32") {
                Some(scalar("i32"))
            } else if is(t, "u32") {
                Some(scalar("u32"))
            } else if is(t, "i64") {
                Some(scalar("i64"))
            } else if is(t, "u64") {
                Some(scalar("u64"))
            } else if is(t, "f32") {
                Some(scalar("f32"))
            } else if is(t, "f64") {
                Some(scalar("f64"))
            } else if is(t, "bool") {
                Some(scalar("bool"))
            } else if is(t, "void") {
                Some(Output::Default)
            } else {
                None
            }
        },
        None => None,
    }
}

/// The native declaration of the allocation function of a constructor: it
/// takes the constructor's parameters and returns the pointer.
pub open spec fn constructor_declaration(c: TraitMethodView) -> Seq<char> {
    "extern \"C\" {\n    pub fn "@ + c.zig_function + "("@ + joined(
        typed_params(c.sig.inputs, c.sig.inputs.len() as int),
        ", "@,
    ) + ") -> *mut std::ffi::c_void;\n}\n"@
}

/// The native declaration of the function that frees the state.
pub open spec fn destructor_declaration(d: TraitMethodView) -> Seq<char> {
    "extern \"C\" {\n    pub fn "@ + d.zig_function + "(ptr: *mut std::ffi::c_void);\n}\n"@
}

/// The native parameters of a method: for an opaque target the handle's
/// pointer first, then the lowered parameters.
pub open spec fn method_native_params(inputs: Seq<ParamView>, opaque: bool) -> Seq<NativeParamView> {
    (if opaque {
        self_pointer_param(inputs)
    } else {
        Seq::empty()
    }) + native_params_upto(inputs, inputs.len() as int, false)
}

/// The return type of the native declaration of a method: the one that
/// the Zig code declares, where it is known, else the method's own.
pub open spec fn method_return(m: TraitMethodView, zig_code: Seq<char>) -> OutputView {
    match zig_return_type(zig_code, m.zig_function) {
        Some(o) => o,
        None => m.sig.output,
    }
}

/// The native declaration of the Zig function of a method.
pub open spec fn method_declaration(m: TraitMethodView, opaque: bool, zig_code: Seq<char>) -> Seq<
    char,
> {
    let params = method_native_params(m.sig.inputs, opaque);
    "extern \"C\" {\n    pub fn "@ + m.zig_function + "("@ + native_params_text(
        params,
        params.len() as int,
    ) + ")"@ + spaced(output_text(method_return(m, zig_code))) + ";\n}\n"@
}

/// The native declarations of the first `n` methods.
pub open spec fn method_declarations(
    methods: Seq<TraitMethodView>,
    opaque: bool,
    zig_code: Seq<char>,
    n: int,
) -> Seq<char>
    decreases n,
{
    if n <= 0 {
        Seq::empty()
    } else {
        method_declarations(methods, opaque, zig_code, n - 1) + method_declaration(
            methods[n - 1],
            opaque,
            zig_code,
        )
    }
}

/// The native declarations for one impl: of its constructor, of its
/// destructor, and of each of its methods.
pub open spec fn impl_declarations(t: RustTraitImplView, zig_code: Seq<char>) -> Seq<char> {
    (match t.constructor {
        Some(c) => constructor_declaration(c),
        None => Seq::empty(),
    }) + (match t.destructor {
        Some(d) => destructor_declaration(d),
        None => Seq::empty(),
    }) + method_declarations(t.methods, t.is_opaque, zig_code, t.methods.len() as int)
}

/// The native declarations for the first `n` impls.
pub open spec fn impls_declarations(impls: Seq<RustTraitImplView>, zig_code: Seq<char>, n: int) -> Seq<
    char,
>
    decreases n,
{
    if n <= 0 {
        Seq::empty()
    } else {
        impls_declarations(impls, zig_code, n - 1) + impl_declarations(impls[n - 1], zig_code)
    }
}

fn declare_constructor(c: &TraitMethod) -> (out: String)
    ensures
        out@ == constructor_declaration(c@),
{
    let mut out = String::new();
    out.append("extern \"C\" {\n    pub fn ");
    out.append(c.zig_function.as_str());
    out.append("(");
    out.append(join_strings(&typed(&c.sig), ", ").as_str());
    out.append(") -> *mut std::ffi::c_void;\n}\n");
    assert(out@ =~= constructor_declaration(c@));
    out
}

fn typed(sig: &FnSignature) -> (params: Vec<String>)
    ensures
        string_views(params@) == typed_params(sig@.inputs, sig@.inputs.len() as int),
{
    let mut params: Vec<String> = Vec::new();
    let mut i: usize = 0;
    while i < sig.inputs.len()
        invariant
            i <= sig.inputs@.len(),
            string_views(params@) == typed_params(arg_views(sig.inputs@), i as int),
        decreases sig.inputs.len() - i,
    {
        let ghost before = params@;
        assert(arg_views(sig.inputs@)[i as int] == sig.inputs@[i as int]@);
        if let crate::syntax::Param::Typed { .. } = &sig.inputs[i] {
            let text = sig.inputs[i].render();
            params.push(text);
            assert(string_views(params@) =~= string_views(before).push(
                crate::syntax::arg_text(sig.inputs@[i as int]@),
            ));
        }
        i += 1;
    }
    params
}

fn declare_destructor(d: &TraitMethod) -> (out: String)
    ensures
        out@ == destructor_declaration(d@),
{
    let mut out = String::new();
    out.append("extern \"C\" {\n    pub fn ");
    out.append(d.zig_function.as_str());
    out.append("(ptr: *mut std::ffi::c_void);\n}\n");
    assert(out@ =~= destructor_declaration(d@));
    out
}

/// Lowers the parameters of a method: for an opaque target the handle's
/// pointer comes first.
pub fn lower_method_params(sig: &FnSignature, opaque: bool) -> (params: Vec<NativeParam>)
    ensures
        native_views(params@) == method_native_params(sig@.inputs, opaque),
{
    let mut params: Vec<NativeParam> = Vec::new();
    if opaque {
        if let Some(mutable) = receiver(&sig.inputs) {
            params.push(
                NativeParam {
                    name: "self_ptr".to_owned(),
                    ty: NativeType::Pointer { mutable, pointee: "std::ffi::c_void".to_owned() },
                },
            );
        }
    }
    let ghost head = params@;
    assert(native_views(head) =~= if opaque {
        self_pointer_param(sig@.inputs)
    } else {
        Seq::<NativeParamView>::empty()
    });
    let mut more = lower_params(&sig.inputs, false);
    let ghost tail = more@;
    params.append(&mut more);
    assert(native_views(params@) =~= native_views(head) + native_views(tail));
    params
}

fn declare_method(m: &TraitMethod, opaque: bool, zig_code: &str) -> (out: String)
    ensures
        out@ == method_declaration(m@, opaque, zig_code@),
{
    let params = lower_method_params(&m.sig, opaque);
    let output = match extract_zig_return_type(zig_code, m.zig_function.as_str()) {
        Some(o) => o.render(),
        None => m.sig.output.render(),
    };
    let mut out = String::new();
    out.append("extern \"C\" {\n    pub fn ");
    out.append(m.zig_function.as_str());
    out.append("(");
    out.append(render_native_params(&params).as_str());
    out.append(")");
    if output.as_str().unicode_len() > 0 {
        out.append(" ");
        out.append(output.as_str());
    }
    out.append(";\n}\n");
    assert(out@ =~= method_declaration(m@, opaque, zig_code@));
    out
}

fn declare_methods(methods: &Vec<TraitMethod>, opaque: bool, zig_code: &str) -> (out: String)
    ensures
        out@ == method_declarations(method_views(methods@), opaque, zig_code@, methods@.len() as int),
{
    let mut out = String::new();
    let mut i: usize = 0;
    while i < methods.len()
        invariant
            i <= methods@.len(),
            out@ == method_declarations(method_views(methods@), opaque, zig_code@, i as int),
        decreases methods.len() - i,
    {
        assert(method_views(methods@)[i as int] == methods@[i as int]@);
        out.append(declare_method(&methods[i], opaque, zig_code).as_str());
        i += 1;
    }
    out
}

fn declare_impl(t: &RustTraitImpl, zig_code: &str) -> (out: String)
    ensures
        out@ == impl_declarations(t@, zig_code@),
{
    let mut out = match &t.constructor {
        Some(c) => declare_constructor(c),
        None => String::new(),
    };
    let destructor = match &t.destructor {
        Some(d) => declare_destructor(d),
        None => String::new(),
    };
    out.append(destructor.as_str());
    out.append(declare_methods(&t.methods, t.is_opaque, zig_code).as_str());
    out
}

/// The native declarations of the Zig functions that the impls of an
/// inline block forward to.
pub fn generate_trait_ffi_declarations(config: &AutoZigConfig) -> (out: String)
    ensures
        out@ == impls_declarations(
            impl_views(config.rust_trait_impls@),
            config.zig_code@,
            config.rust_trait_impls@.len() as int,
        ),
{
    let mut out = String::new();
    let mut i: usize = 0;
    while i < config.rust_trait_impls.len()
        invariant
            i <= config.rust_trait_impls@.len(),
            out@ == impls_declarations(
                impl_views(config.rust_trait_impls@),
                config.zig_code@,
                i as int,
            ),
        decreases config.rust_trait_impls.len() - i,
    {
        assert(impl_views(config.rust_trait_impls@)[i as int] == config.rust_trait_impls@[i as int]@);
        out.append(declare_impl(&config.rust_trait_impls[i], config.zig_code.as_str()).as_str());
        i += 1;
    }
    out
}

/// A method of an opaque target that has a receiver takes the handle's
/// pointer as its first native parameter: a mutable pointer for a mutating
/// receiver, a const pointer for any other.
pub proof fn law_handle_pointer_first(inputs: Seq<ParamView>, mutable: bool)
    requires
        first_receiver(inputs, 0) == Some(mutable),
    ensures
        method_native_params(inputs, true).len() >= 1,
        method_native_params(inputs, true)[0] == (NativeParamView {
            name: "self_ptr"@,
            ty: NativeTypeView::Pointer { mutable, pointee: "std::ffi::c_void"@ },
        }),
{
}

} // verus!
