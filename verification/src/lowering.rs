//! Type lowering: from a declared signature to the native one.
//!
//! A reference to a slice or to a string crosses the boundary as a pointer
//! and a length; every other parameter crosses as it is.

use vstd::prelude::*;
use crate::text::{from_chars, is_letter_or_digit, letter_or_digit, to_chars};
use crate::edit::{replace, replaced, string_views};
use crate::scanner::{same_text};
use crate::syntax::{
    arg_views, type_text, FnSignature, FnSignatureView, Output, OutputView, Param, ParamView,
    TypeExpr, TypeExprView,
};

verus! {

/// The reference that `ty` is, where it refers to a slice or to `str`:
/// whether it is mutable, and the element type of a slice.
pub open spec fn slice_or_str(ty: TypeExprView) -> Option<(bool, Option<TypeExprView>)> {
    match ty {
        TypeExprView::Reference { mutable, elem, .. } => match *elem {
            TypeExprView::Path { ident, .. } => if ident == Some("str"@) {
                Some((mutable, None))
            } else {
                None
            },
            TypeExprView::Slice { elem: inner } => Some((mutable, Some(*inner))),
            _ => None,
        },
        _ => None,
    }
}

/// The view of what `is_slice_or_str_ref` returns.
pub open spec fn slice_view(r: Option<(bool, Option<TypeExpr>)>) -> Option<
    (bool, Option<TypeExprView>),
> {
    match r {
        Some((m, Some(e))) => Some((m, Some(e@))),
        Some((m, None)) => Some((m, None)),
        None => None,
    }
}

/// Whether a type is a reference to a slice or to `str`.
pub fn is_slice_or_str_ref(ty: &TypeExpr) -> (r: Option<(bool, Option<TypeExpr>)>)
    ensures
        slice_view(r) == slice_or_str(ty@),
{
    match ty {
        TypeExpr::Reference { mutable, elem, .. } => match &**elem {
            TypeExpr::Path { ident, .. } => match ident {
                Some(name) => if same_text(name.as_str(), "str") {
                    Some((*mutable, None))
                } else {
                    None
                },
                None => None,
            },
            TypeExpr::Slice { elem: inner } => Some((*mutable, Some(inner.duplicate()))),
            TypeExpr::Other { .. } => None,
            TypeExpr::Reference { .. } => {
                assert((**elem)@ is Reference);
                None
            },
        },
        _ => None,
    }
}

/// The type of a native parameter.
#[derive(Debug)]
pub enum NativeType {
    /// A raw pointer to elements of type `pointee`.
    Pointer { mutable: bool, pointee: String },
    /// The number of elements behind the pointer before it.
    Length,
    /// A type that crosses the boundary as it is.
    Value { text: String },
}

pub enum NativeTypeView {
    Pointer { mutable: bool, pointee: Seq<char> },
    Length,
    Value { text: Seq<char> },
}

impl View for NativeType {
    type V = NativeTypeView;

    open spec fn view(&self) -> NativeTypeView {
        match self {
            NativeType::Pointer { mutable, pointee } => NativeTypeView::Pointer {
                mutable: *mutable,
                pointee: pointee@,
            },
            NativeType::Length => NativeTypeView::Length,
            NativeType::Value { text } => NativeTypeView::Value { text: text@ },
        }
    }
}

/// A parameter of the native signature.
#[derive(Debug)]
pub struct NativeParam {
    pub name: String,
    pub ty: NativeType,
}

pub struct NativeParamView {
    pub name: Seq<char>,
    pub ty: NativeTypeView,
}

impl View for NativeParam {
    type V = NativeParamView;

    open spec fn view(&self) -> NativeParamView {
        NativeParamView { name: self.name@, ty: self.ty@ }
    }
}

/// The views of a list of native parameters.
pub open spec fn native_views(v: Seq<NativeParam>) -> Seq<NativeParamView> {
    v.map_values(|p: NativeParam| p@)
}

/// The native type as source text.
pub open spec fn native_type_text(ty: NativeTypeView) -> Seq<char> {
    match ty {
        NativeTypeView::Pointer { mutable, pointee } => (if mutable {
            "*mut "@
        } else {
            "*const "@
        }) + pointee,
        NativeTypeView::Length => "usize"@,
        NativeTypeView::Value { text } => text,
    }
}

/// The native parameter as source text.
pub open spec fn native_param_text(p: NativeParamView) -> Seq<char> {
    p.name + ": "@ + native_type_text(p.ty)
}

/// The first `n` native parameters as source text, separated by `, `.
pub open spec fn native_params_text(ps: Seq<NativeParamView>, n: int) -> Seq<char>
    decreases n,
{
    if n <= 0 {
        Seq::empty()
    } else if n == 1 {
        native_param_text(ps[0])
    } else {
        native_params_text(ps, n - 1) + ", "@ + native_param_text(ps[n - 1])
    }
}

/// The pointee of the pointer that a reference is lowered to: the element
/// type of a slice, `u8` for a string.
pub open spec fn pointee_text(elem: Option<TypeExprView>) -> Seq<char> {
    match elem {
        Some(e) => type_text(e),
        None => "u8"@,
    }
}

/// The two native parameters of a reference to a slice or a string named
/// `name`: the pointer, then the length.
pub open spec fn pointer_and_length(name: Seq<char>, mutable: bool, elem: Option<TypeExprView>) -> Seq<
    NativeParamView,
> {
    seq![
        NativeParamView {
            name: name + "_ptr"@,
            ty: NativeTypeView::Pointer { mutable, pointee: pointee_text(elem) },
        },
        NativeParamView { name: name + "_len"@, ty: NativeTypeView::Length },
    ]
}

/// The native parameters that a declared parameter is lowered to. A
/// receiver has none. A reference to a slice or a string gives a pointer
/// and a length, named after the parameter. Any other parameter is passed
/// through. A parameter whose pattern is no plain name cannot be named on
/// the native side: it is left out where it would be lowered, and, if
/// `named_only` is set, in every case.
pub open spec fn native_params_of(arg: ParamView, named_only: bool) -> Seq<NativeParamView> {
    match arg {
        ParamView::Receiver { .. } => Seq::empty(),
        ParamView::Typed { pattern, name, ty } => match slice_or_str(ty) {
            Some((mutable, elem)) => match name {
                Some(n) => pointer_and_length(n, mutable, elem),
                None => Seq::empty(),
            },
            None => if named_only && name is None {
                Seq::empty()
            } else {
                seq![
                    NativeParamView {
                        name: pattern,
                        ty: NativeTypeView::Value { text: type_text(ty) },
                    },
                ]
            },
        },
    }
}

/// The native parameters of the first `n` declared parameters.
pub open spec fn native_params_upto(inputs: Seq<ParamView>, n: int, named_only: bool) -> Seq<
    NativeParamView,
>
    decreases n,
{
    if n <= 0 {
        Seq::empty()
    } else {
        native_params_upto(inputs, n - 1, named_only) + native_params_of(inputs[n - 1], named_only)
    }
}

/// Lowers one declared parameter to its native parameters. A reference to
/// a slice or a string always gives exactly two: the pointer, whose
/// mutability is that of the reference, then the length.
pub fn lower_param(arg: &Param, named_only: bool) -> (out: Vec<NativeParam>)
    ensures
        native_views(out@) == native_params_of(arg@, named_only),
        match arg@ {
            ParamView::Typed { name: Some(n), ty, .. } => match slice_or_str(ty) {
                Some((mutable, elem)) => {
                    &&& out@.len() == 2
                    &&& out@[0]@.name == n + "_ptr"@
                    &&& out@[0]@.ty == (NativeTypeView::Pointer {
                        mutable,
                        pointee: pointee_text(elem),
                    })
                    &&& out@[1]@.name == n + "_len"@
                    &&& out@[1]@.ty == NativeTypeView::Length
                },
                None => true,
            },
            _ => true,
        },
{
    let mut out: Vec<NativeParam> = Vec::new();
    match arg {
        Param::Receiver { .. } => {},
        Param::Typed { pattern, name, ty } => match is_slice_or_str_ref(ty) {
            Some((mutable, elem)) => {
                if let Some(n) = name {
                    let pointee = match &elem {
                        Some(e) => e.render(),
                        None => "u8".to_owned(),
                    };
                    let mut ptr_name = n.clone();
                    ptr_name.append("_ptr");
                    let mut len_name = n.clone();
                    len_name.append("_len");
                    out.push(
                        NativeParam { name: ptr_name, ty: NativeType::Pointer { mutable, pointee } },
                    );
                    out.push(NativeParam { name: len_name, ty: NativeType::Length });
                }
            },
            None => {
                if !(named_only && name.is_none()) {
                    out.push(
                        NativeParam {
                            name: pattern.clone(),
                            ty: NativeType::Value { text: ty.render() },
                        },
                    );
                }
            },
        },
    }
    out
}

/// A reference to a slice or a string that has a plain name is lowered to
/// exactly two native parameters: the pointer, whose mutability is that of
/// the reference, then the length.
pub proof fn law_pointer_then_length(
    pattern: Seq<char>,
    name: Seq<char>,
    ty: TypeExprView,
    mutable: bool,
    elem: Option<TypeExprView>,
    named_only: bool,
)
    requires
        slice_or_str(ty) == Some((mutable, elem)),
    ensures
        ({
            let native = native_params_of(
                ParamView::Typed { pattern, name: Some(name), ty },
                named_only,
            );
            &&& native.len() == 2
            &&& native[0].name == name + "_ptr"@
            &&& native[0].ty == (NativeTypeView::Pointer { mutable, pointee: pointee_text(elem) })
            &&& native[1].name == name + "_len"@
            &&& native[1].ty == NativeTypeView::Length
        }),
{
}

/// Lowers the declared parameters to the native parameter list.
pub fn lower_params(inputs: &Vec<Param>, named_only: bool) -> (out: Vec<NativeParam>)
    ensures
        native_views(out@) == native_params_upto(
            arg_views(inputs@),
            inputs@.len() as int,
            named_only,
        ),
{
    let mut out: Vec<NativeParam> = Vec::new();
    let mut i: usize = 0;
    while i < inputs.len()
        invariant
            i <= inputs@.len(),
            native_views(out@) == native_params_upto(arg_views(inputs@), i as int, named_only),
        decreases inputs.len() - i,
    {
        let mut more = lower_param(&inputs[i], named_only);
        out.append(&mut more);
        i += 1;
    }
    out
}

/// Renders a native parameter list.
pub fn render_native_params(params: &Vec<NativeParam>) -> (out: String)
    ensures
        out@ == native_params_text(native_views(params@), params@.len() as int),
{
    let mut out = String::new();
    let mut i: usize = 0;
    while i < params.len()
        invariant
            i <= params@.len(),
            out@ == native_params_text(native_views(params@), i as int),
        decreases params.len() - i,
    {
        if i > 0 {
            out.append(", ");
        }
        out.append(params[i].name.as_str());
        out.append(": ");
        match &params[i].ty {
            NativeType::Pointer { mutable, pointee } => {
                if *mutable {
                    out.append("*mut ");
                } else {
                    out.append("*const ");
                }
                out.append(pointee.as_str());
            },
            NativeType::Length => {
                out.append("usize");
            },
            NativeType::Value { text } => {
                out.append(text.as_str());
            },
        }
        i += 1;
    }
    out
}

// ---------------------------------------------------------------------------
// Call arguments
// ---------------------------------------------------------------------------

/// What the wrapper passes for a declared parameter: for a reference to a
/// slice or a string its pointer and its length, else the parameter
/// itself. A receiver and a parameter without a plain name pass nothing.
/// The pointer is a mutable one exactly where the reference is.
pub open spec fn call_args_of(arg: ParamView) -> Seq<Seq<char>> {
    match arg {
        ParamView::Typed { name: Some(n), ty, .. } => match slice_or_str(ty) {
            Some((mutable, _)) => seq![
                n + (if mutable {
                    ".as_mut_ptr()"@
                } else {
                    ".as_ptr()"@
                }),
                n + ".len()"@,
            ],
            None => seq![n],
        },
        _ => Seq::empty(),
    }
}

/// The call arguments of the first `n` declared parameters.
pub open spec fn call_args_upto(inputs: Seq<ParamView>, n: int) -> Seq<Seq<char>>
    decreases n,
{
    if n <= 0 {
        Seq::empty()
    } else {
        call_args_upto(inputs, n - 1) + call_args_of(inputs[n - 1])
    }
}

/// The arguments of the native call for the declared parameters.
pub fn lower_args(inputs: &Vec<Param>) -> (out: Vec<String>)
    ensures
        string_views(out@) == call_args_upto(arg_views(inputs@), inputs@.len() as int),
{
    let mut out: Vec<String> = Vec::new();
    let mut i: usize = 0;
    while i < inputs.len()
        invariant
            i <= inputs@.len(),
            string_views(out@) == call_args_upto(arg_views(inputs@), i as int),
        decreases inputs.len() - i,
    {
        if let Param::Typed { name, ty, .. } = &inputs[i] {
            if let Some(n) = name {
                match is_slice_or_str_ref(ty) {
                    Some((mutable, _)) => {
                        let mut ptr = n.clone();
                        if mutable {
                            ptr.append(".as_mut_ptr()");
                        } else {
                            ptr.append(".as_ptr()");
                        }
                        let mut len = n.clone();
                        len.append(".len()");
                        out.push(ptr);
                        out.push(len);
                    },
                    None => {
                        out.push(n.clone());
                    },
                }
            }
        }
        i += 1;
    }
    out
}

// ---------------------------------------------------------------------------
// Substitution
// ---------------------------------------------------------------------------

/// The type with the generic parameter `generic` replaced by `concrete`
/// wherever it stands: at the top, behind references, inside slices.
pub open spec fn substituted(ty: TypeExprView, generic: Seq<char>, concrete: TypeExprView) -> TypeExprView
    decreases ty,
{
    match ty {
        TypeExprView::Path { ident, .. } => if ident == Some(generic) {
            concrete
        } else {
            ty
        },
        TypeExprView::Reference { lifetime, mutable, elem } => TypeExprView::Reference {
            lifetime,
            mutable,
            elem: Box::new(substituted(*elem, generic, concrete)),
        },
        TypeExprView::Slice { elem } => TypeExprView::Slice {
            elem: Box::new(substituted(*elem, generic, concrete)),
        },
        TypeExprView::Other { .. } => ty,
    }
}

/// Replaces a generic parameter by a concrete type throughout a type.
pub fn substitute_type_recursive(ty: &TypeExpr, generic_name: &str, concrete_ty: &TypeExpr) -> (r:
    TypeExpr)
    ensures
        r@ == substituted(ty@, generic_name@, concrete_ty@),
    decreases ty,
{
    match ty {
        TypeExpr::Path { ident, .. } => {
            let is_generic = match ident {
                Some(name) => same_text(name.as_str(), generic_name),
                None => false,
            };
            if is_generic {
                concrete_ty.duplicate()
            } else {
                ty.duplicate()
            }
        },
        TypeExpr::Reference { lifetime, mutable, elem } => TypeExpr::Reference {
            lifetime: crate::syntax::copy_name(lifetime),
            mutable: *mutable,
            elem: Box::new(substitute_type_recursive(elem, generic_name, concrete_ty)),
        },
        TypeExpr::Slice { elem } => TypeExpr::Slice {
            elem: Box::new(substitute_type_recursive(elem, generic_name, concrete_ty)),
        },
        TypeExpr::Other { .. } => ty.duplicate(),
    }
}

/// The parameter with the generic parameter replaced in its type.
pub open spec fn substituted_arg(arg: ParamView, generic: Seq<char>, concrete: TypeExprView) -> ParamView {
    match arg {
        ParamView::Receiver { .. } => arg,
        ParamView::Typed { pattern, name, ty } => ParamView::Typed {
            pattern,
            name,
            ty: substituted(ty, generic, concrete),
        },
    }
}

/// The return type with the generic parameter replaced.
pub open spec fn substituted_output(
    output: OutputView,
    generic: Seq<char>,
    concrete: TypeExprView,
) -> OutputView {
    match output {
        OutputView::Default => OutputView::Default,
        OutputView::Type(t) => OutputView::Type(substituted(t, generic, concrete)),
    }
}

/// The signature for the concrete type: where the first generic parameter
/// is a type parameter, the generics are gone and that parameter is
/// replaced in every parameter type and in the return type; else the
/// signature stays as it is.
pub open spec fn monomorphized(sig: FnSignatureView, concrete: TypeExprView) -> FnSignatureView {
    if sig.generics.len() > 0 {
        match sig.generics[0] {
            crate::syntax::GenericDeclView::Type { name, .. } => FnSignatureView {
                name: sig.name,
                is_async: sig.is_async,
                generics: Seq::empty(),
                inputs: sig.inputs.map_values(|a: ParamView| substituted_arg(a, name, concrete)),
                output: substituted_output(sig.output, name, concrete),
            },
            crate::syntax::GenericDeclView::Other => sig,
        }
    } else {
        sig
    }
}

/// The signature with its first generic parameter replaced by a concrete
/// type.
pub fn substitute(sig: &FnSignature, concrete_ty: &TypeExpr) -> (r: FnSignature)
    ensures
        r@ == monomorphized(sig@, concrete_ty@),
{
    if sig.generics.len() == 0 {
        return sig.duplicate();
    }
    let generic_name = match &sig.generics[0] {
        crate::syntax::GenericDecl::Type { name, .. } => name.clone(),
        crate::syntax::GenericDecl::Other => { return sig.duplicate(); },
    };
    let mut inputs: Vec<Param> = Vec::new();
    let mut i: usize = 0;
    let ghost target = arg_views(sig.inputs@).map_values(
        |a: ParamView| substituted_arg(a, generic_name@, concrete_ty@),
    );
    while i < sig.inputs.len()
        invariant
            i <= sig.inputs@.len(),
            target == arg_views(sig.inputs@).map_values(
                |a: ParamView| substituted_arg(a, generic_name@, concrete_ty@),
            ),
            arg_views(inputs@) == target.take(i as int),
        decreases sig.inputs.len() - i,
    {
        let arg = match &sig.inputs[i] {
            Param::Receiver { text, mutable } => Param::Receiver {
                text: text.clone(),
                mutable: *mutable,
            },
            Param::Typed { pattern, name, ty } => Param::Typed {
                pattern: pattern.clone(),
                name: crate::syntax::copy_name(name),
                ty: substitute_type_recursive(ty, generic_name.as_str(), concrete_ty),
            },
        };
        inputs.push(arg);
        assert(target.take(i + 1) =~= target.take(i as int).push(target[i as int]));
        i += 1;
    }
    assert(target.take(target.len() as int) =~= target);
    let output = match &sig.output {
        Output::Default => Output::Default,
        Output::Type(t) => Output::Type(
            substitute_type_recursive(t, generic_name.as_str(), concrete_ty),
        ),
    };
    let generics: Vec<crate::syntax::GenericDecl> = Vec::new();
    assert(crate::syntax::generic_views(generics@) =~= Seq::empty());
    FnSignature { name: sig.name.clone(), is_async: sig.is_async, generics, inputs, output }
}

// ---------------------------------------------------------------------------
// Mangling
// ---------------------------------------------------------------------------

/// The character as it stands in a symbol: letters, digits and `_` stay,
/// anything else becomes `_`.
pub open spec fn symbol_char(c: char) -> char {
    if letter_or_digit(c) || c == '_' {
        c
    } else {
        '_'
    }
}

/// The token of a concrete type in a symbol: each `::` becomes one `_`,
/// then every character that is neither letter nor digit becomes `_`.
pub open spec fn type_token(ty: Seq<char>) -> Seq<char> {
    replaced(ty, "::"@, "_"@).map_values(|c: char| symbol_char(c))
}

/// The symbol of the expansion of `base` for the concrete type `ty`.
pub open spec fn mangled(base: Seq<char>, ty: Seq<char>) -> Seq<char> {
    base + "_"@ + type_token(ty)
}

/// The symbol of the expansion of a generic function for a concrete type.
pub fn mangle(base: &str, concrete_type: &str) -> (symbol: String)
    ensures
        symbol@ == mangled(base@, concrete_type@),
{
    let ty = to_chars(concrete_type);
    let joined = replace(ty.as_slice(), to_chars("::").as_slice(), to_chars("_").as_slice());
    let mut symbol = to_chars(base);
    symbol.push('_');
    proof {
        reveal_strlit("_");
    }
    let ghost head = symbol@;
    let mut i: usize = 0;
    while i < joined.len()
        invariant
            i <= joined@.len(),
            symbol@ == head + joined@.take(i as int).map_values(|c: char| symbol_char(c)),
        decreases joined.len() - i,
    {
        let c = joined[i];
        let mapped = if is_letter_or_digit(c) || c == '_' {
            c
        } else {
            '_'
        };
        symbol.push(mapped);
        i += 1;
    }
    from_chars(symbol.as_slice())
}

} // verus!
