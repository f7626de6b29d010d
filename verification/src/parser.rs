//! The IDL parser: from declaration text to the typed model.
//!
//! The Rust parser is called on the declaration text, and once more on the
//! tokens that it left unparsed. Nothing is claimed of what it returns:
//! `collect_definitions` takes both results as arguments and says exactly
//! what it makes of them, and `parse_rust_definitions` makes the calls.

use vstd::prelude::*;
use crate::text::{
    contains, from_chars, has_prefix, is, occurs, push_all, push_str, starts_with, to_chars,
    trim, trim_end_char, trimmed, without_trailing,
};
use crate::edit::{normalize, normalized, pieces, split, string_views, views};
use crate::extract::{unwrap, unwrapped};
use crate::exports::option_seq;
use crate::scanner::{name_view, same_text};
use crate::syntax::{
    callee_in_stmts, copy_name, extract_zig_function_call, Attr, AttrMeta, BoundDecl,
    BoundDeclView, Decl, EnumItemView, Fields, FieldsView, FnItem, FnSignature, FnSignatureView,
    ForeignItem, GenericDecl, GenericDeclView, ImplBlock, ImplEntry, ImplMethod, StructItem,
    StructItemView,
    TypeExpr, TypeExprView,
};
use crate::idl::{
    definitions_view, enum_views, generic_param_views, impl_views, method_view, method_views,
    no_definitions, signature_views, struct_views, DefinitionsView, GenericParam,
    GenericParamView, RustEnumDefinition, RustFunctionSignature, RustFunctionSignatureView,
    RustStructDefinition, RustTraitImpl, RustTraitImplView, TraitMethod, TraitMethodView,
};
use crate::syn_parse::{parse_fn_item, parse_items};

verus! {

// ---------------------------------------------------------------------------
// Opaque handles and attributes
// ---------------------------------------------------------------------------

/// The opaque marker: a tuple struct with one field whose type is the
/// bare name `opaque`.
pub open spec fn is_opaque(fields: FieldsView) -> bool {
    match fields {
        FieldsView::Unnamed(tys) => tys.len() == 1 && match tys[0] {
            TypeExprView::Path { ident, .. } => ident == Some("opaque"@),
            _ => false,
        },
        _ => false,
    }
}

/// Whether a struct is declared as an opaque handle: `struct Name(opaque);`.
pub fn is_opaque_struct(item: &StructItem) -> (b: bool)
    ensures
        b == is_opaque(item.fields@),
{
    match &item.fields {
        Fields::Unnamed(tys) => {
            if tys.len() == 1 {
                match &tys[0] {
                    TypeExpr::Path { ident, .. } => match ident {
                        Some(name) => same_text(name.as_str(), "opaque"),
                        None => false,
                    },
                    _ => false,
                }
            } else {
                false
            }
        },
        _ => false,
    }
}

/// The attribute is the bare marker `#[name]`.
pub open spec fn attr_is(attr: Attr, name: Seq<char>) -> bool {
    attr.meta is Path && name_view(attr.name) == Some(name)
}

/// One of the attributes is the bare marker `#[name]`.
pub open spec fn has_attr(attrs: Seq<Attr>, name: Seq<char>) -> bool {
    exists|i: int| 0 <= i < attrs.len() && attr_is(#[trigger] attrs[i], name)
}

fn named(name: &Option<String>, expected: &str) -> (b: bool)
    ensures
        b == (name_view(*name) == Some(expected@)),
{
    match name {
        Some(n) => same_text(n.as_str(), expected),
        None => false,
    }
}

/// Whether the attributes hold the bare marker `#[name]`.
pub fn has_attribute(attrs: &[Attr], name: &str) -> (b: bool)
    ensures
        b == has_attr(attrs@, name@),
{
    let mut i: usize = 0;
    while i < attrs.len()
        invariant
            i <= attrs@.len(),
            forall|k: int| 0 <= k < i ==> !attr_is(#[trigger] attrs@[k], name@),
        decreases attrs.len() - i,
    {
        let is_path = match &attrs[i].meta {
            AttrMeta::Path => true,
            _ => false,
        };
        if is_path && named(&attrs[i].name, name) {
            return true;
        }
        i += 1;
    }
    false
}

/// The attribute is `#[monomorphize(..)]`.
pub open spec fn is_monomorphize(attr: Attr) -> bool {
    attr.meta is List && name_view(attr.name) == Some("monomorphize"@)
}

/// The pieces, trimmed, without the empty ones.
pub open spec fn listed(ps: Seq<Seq<char>>, n: int) -> Seq<Seq<char>>
    decreases n,
{
    if n <= 0 {
        Seq::empty()
    } else {
        let rest = listed(ps, n - 1);
        if trimmed(ps[n - 1]).len() == 0 {
            rest
        } else {
            rest.push(trimmed(ps[n - 1]))
        }
    }
}

/// The types named in a comma-separated list.
pub open spec fn type_list(tokens: Seq<char>) -> Seq<Seq<char>> {
    listed(pieces(tokens, ','), pieces(tokens, ',').len() as int)
}

/// The types that the first `#[monomorphize(..)]` attribute from `i` on
/// names; none without such an attribute.
pub open spec fn requested_types(attrs: Seq<Attr>, i: int) -> Seq<Seq<char>>
    decreases attrs.len() - i,
{
    if i < 0 || i >= attrs.len() {
        Seq::empty()
    } else {
        match attrs[i].meta {
            AttrMeta::List { tokens } => if is_monomorphize(attrs[i]) {
                type_list(tokens@)
            } else {
                requested_types(attrs, i + 1)
            },
            _ => requested_types(attrs, i + 1),
        }
    }
}

fn list_types(tokens: &str) -> (types: Vec<String>)
    ensures
        string_views(types@) == type_list(tokens@),
{
    let t = to_chars(tokens);
    let parts = split(t.as_slice(), ',');
    let mut types: Vec<String> = Vec::new();
    let mut i: usize = 0;
    while i < parts.len()
        invariant
            i <= parts@.len(),
            views(parts@) == pieces(tokens@, ','),
            string_views(types@) == listed(views(parts@), i as int),
        decreases parts.len() - i,
    {
        let p = trim(parts[i].as_slice());
        if p.len() > 0 {
            types.push(from_chars(p));
        }
        i += 1;
    }
    types
}

/// The types of the `#[monomorphize(T1, T2, ...)]` attribute.
pub fn extract_monomorphize_types(attrs: &[Attr]) -> (types: Vec<String>)
    ensures
        string_views(types@) == requested_types(attrs@, 0),
{
    let mut i: usize = 0;
    while i < attrs.len()
        invariant
            i <= attrs@.len(),
            requested_types(attrs@, 0) == requested_types(attrs@, i as int),
        decreases attrs.len() - i,
    {
        if let AttrMeta::List { tokens } = &attrs[i].meta {
            if named(&attrs[i].name, "monomorphize") {
                return list_types(tokens.as_str());
            }
        }
        i += 1;
    }
    let none: Vec<String> = Vec::new();
    none
}

// ---------------------------------------------------------------------------
// Function signatures
// ---------------------------------------------------------------------------

/// The names of the traits among the first `n` bounds.
pub open spec fn trait_bound_names(bounds: Seq<BoundDeclView>, n: int) -> Seq<Seq<char>>
    decreases n,
{
    if n <= 0 {
        Seq::empty()
    } else {
        let rest = trait_bound_names(bounds, n - 1);
        match bounds[n - 1] {
            BoundDeclView::Trait { last_segment: Some(name) } => rest.push(name),
            _ => rest,
        }
    }
}

/// The type parameters among the first `n` generic parameters.
pub open spec fn type_params(generics: Seq<GenericDeclView>, n: int) -> Seq<GenericParamView>
    decreases n,
{
    if n <= 0 {
        Seq::empty()
    } else {
        let rest = type_params(generics, n - 1);
        match generics[n - 1] {
            GenericDeclView::Type { name, bounds } => rest.push(
                GenericParamView { name, bounds: trait_bound_names(bounds, bounds.len() as int) },
            ),
            GenericDeclView::Other => rest,
        }
    }
}

/// The declared function of a signature and its attributes. Its concrete
/// types are not resolved yet.
pub open spec fn declared_function(sig: FnSignatureView, attrs: Seq<Attr>) -> RustFunctionSignatureView {
    RustFunctionSignatureView {
        sig,
        generic_params: type_params(sig.generics, sig.generics.len() as int),
        is_async: sig.is_async,
        monomorphize_types: requested_types(attrs, 0),
        concrete_types: Seq::empty(),
    }
}

fn bound_names(bounds: &Vec<BoundDecl>) -> (names: Vec<String>)
    ensures
        string_views(names@) == trait_bound_names(
            crate::syntax::bound_views(bounds@),
            bounds@.len() as int,
        ),
{
    let mut names: Vec<String> = Vec::new();
    let mut i: usize = 0;
    let ghost bv = crate::syntax::bound_views(bounds@);
    while i < bounds.len()
        invariant
            i <= bounds@.len(),
            bv == crate::syntax::bound_views(bounds@),
            string_views(names@) == trait_bound_names(bv, i as int),
        decreases bounds.len() - i,
    {
        if let BoundDecl::Trait { last_segment } = &bounds[i] {
            if let Some(name) = last_segment {
                names.push(name.clone());
            }
        }
        i += 1;
    }
    names
}

/// Reads a signature with its attributes as a declared function: its type
/// parameters with their trait bounds, whether it is asynchronous, and the
/// types it is to be expanded for.
pub fn parse_function_signature(sig: FnSignature, attrs: &[Attr]) -> (r: RustFunctionSignature)
    ensures
        r@ == declared_function(sig@, attrs@),
{
    let mut generic_params: Vec<GenericParam> = Vec::new();
    let mut i: usize = 0;
    let ghost gv = crate::syntax::generic_views(sig.generics@);
    while i < sig.generics.len()
        invariant
            i <= sig.generics@.len(),
            gv == crate::syntax::generic_views(sig.generics@),
            generic_param_views(generic_params@) == type_params(gv, i as int),
        decreases sig.generics.len() - i,
    {
        if let GenericDecl::Type { name, bounds } = &sig.generics[i] {
            let p = GenericParam { name: name.clone(), bounds: bound_names(bounds) };
            generic_params.push(p);
        }
        i += 1;
    }
    let is_async = sig.is_async;
    let monomorphize_types = extract_monomorphize_types(attrs);
    let r = RustFunctionSignature {
        sig,
        generic_params,
        is_async,
        monomorphize_types,
        concrete_types: Vec::new(),
    };
    assert(r@.concrete_types =~= Seq::empty());
    r
}

// ---------------------------------------------------------------------------
// Impl blocks
// ---------------------------------------------------------------------------

/// The method as a forwarding method: it names the first function that
/// its body calls. None where the body calls none.
pub open spec fn forwarding_method(m: ImplMethod) -> Option<TraitMethodView> {
    match callee_in_stmts(m.body@, 0) {
        Some(zig_function) => Some(
            TraitMethodView {
                name: m.sig@.name,
                sig: m.sig@,
                zig_function,
                body: Some(m.body_text@),
                zig_return_type: None,
                is_constructor: has_attr(m.attrs@, "constructor"@),
                is_destructor: has_attr(m.attrs@, "destructor"@),
            },
        ),
        None => None,
    }
}

/// What an item of an impl block forwards as: a method as its forwarding
/// method; any other item as nothing.
pub open spec fn forwarding_entry(e: ImplEntry) -> Option<TraitMethodView> {
    match e {
        ImplEntry::Fn(m) => forwarding_method(m),
        ImplEntry::Other => None,
    }
}

/// The forwarding methods among the first `n` items that are neither
/// constructor nor destructor.
pub open spec fn plain_methods(ms: Seq<ImplEntry>, n: int) -> Seq<TraitMethodView>
    decreases n,
{
    if n <= 0 {
        Seq::empty()
    } else {
        let rest = plain_methods(ms, n - 1);
        match forwarding_entry(ms[n - 1]) {
            Some(t) => if !t.is_constructor && !t.is_destructor {
                rest.push(t)
            } else {
                rest
            },
            None => rest,
        }
    }
}

/// The last forwarding method among the first `n` that is marked as
/// constructor.
pub open spec fn constructor_of(ms: Seq<ImplEntry>, n: int) -> Option<TraitMethodView>
    decreases n,
{
    if n <= 0 {
        None
    } else {
        match forwarding_entry(ms[n - 1]) {
            Some(t) => if t.is_constructor {
                Some(t)
            } else {
                constructor_of(ms, n - 1)
            },
            None => constructor_of(ms, n - 1),
        }
    }
}

/// The last forwarding method among the first `n` that is marked as
/// destructor and not as constructor.
pub open spec fn destructor_of(ms: Seq<ImplEntry>, n: int) -> Option<TraitMethodView>
    decreases n,
{
    if n <= 0 {
        None
    } else {
        match forwarding_entry(ms[n - 1]) {
            Some(t) => if !t.is_constructor && t.is_destructor {
                Some(t)
            } else {
                destructor_of(ms, n - 1)
            },
            None => destructor_of(ms, n - 1),
        }
    }
}

/// The name of the type that an impl block is for: the last segment of a
/// path type.
pub open spec fn self_type_name(ty: TypeExprView) -> Option<Seq<char>> {
    match ty {
        TypeExprView::Path { last_segment, .. } => last_segment,
        _ => None,
    }
}

/// The trait impl that the block is: it implements a trait for a path
/// type, and at least one of its methods forwards to Zig.
pub open spec fn trait_impl_of(b: ImplBlock) -> Option<RustTraitImplView> {
    match b.implements {
        None => None,
        Some(t) => match name_view(t.last_segment) {
            None => None,
            Some(trait_name) => match self_type_name(b.self_ty@) {
                None => None,
                Some(target_type) => {
                    let n = b.items@.len() as int;
                    let methods = plain_methods(b.items@, n);
                    let constructor = constructor_of(b.items@, n);
                    let destructor = destructor_of(b.items@, n);
                    if methods.len() == 0 && constructor is None && destructor is None {
                        None
                    } else {
                        Some(
                            RustTraitImplView {
                                trait_name,
                                target_type,
                                methods,
                                is_zst: true,
                                is_opaque: false,
                                constructor,
                                destructor,
                            },
                        )
                    }
                },
            },
        },
    }
}

/// The inherent impl that the block is: it implements no trait, is for an
/// opaque type, and holds a forwarding constructor or destructor.
pub open spec fn inherent_impl_of(b: ImplBlock, opaque: Seq<Seq<char>>) -> Option<
    RustTraitImplView,
> {
    if b.implements is Some {
        None
    } else {
        match self_type_name(b.self_ty@) {
            None => None,
            Some(target_type) => if !opaque.contains(target_type) {
                None
            } else {
                let n = b.items@.len() as int;
                let constructor = constructor_of(b.items@, n);
                let destructor = destructor_of(b.items@, n);
                if constructor is None && destructor is None {
                    None
                } else {
                    Some(
                        RustTraitImplView {
                            trait_name: Seq::empty(),
                            target_type,
                            methods: Seq::empty(),
                            is_zst: false,
                            is_opaque: true,
                            constructor,
                            destructor,
                        },
                    )
                }
            },
        }
    }
}

fn trait_method_of(m: &ImplMethod) -> (r: Option<TraitMethod>)
    ensures
        method_view(r) == forwarding_method(*m),
{
    match extract_zig_function_call(&m.body) {
        Some(zig_function) => Some(
            TraitMethod {
                name: m.sig.name.clone(),
                sig: m.sig.duplicate(),
                zig_function,
                body: Some(m.body_text.clone()),
                zig_return_type: None,
                is_constructor: has_attribute(m.attrs.as_slice(), "constructor"),
                is_destructor: has_attribute(m.attrs.as_slice(), "destructor"),
            },
        ),
        None => None,
    }
}

/// The methods of a block, sorted: the plain forwarding methods, the
/// constructor and the destructor.
fn sort_methods(ms: &Vec<ImplEntry>) -> (r: (
    Vec<TraitMethod>,
    Option<TraitMethod>,
    Option<TraitMethod>,
))
    ensures
        method_views(r.0@) == plain_methods(ms@, ms@.len() as int),
        method_view(r.1) == constructor_of(ms@, ms@.len() as int),
        method_view(r.2) == destructor_of(ms@, ms@.len() as int),
{
    let mut methods: Vec<TraitMethod> = Vec::new();
    let mut constructor: Option<TraitMethod> = None;
    let mut destructor: Option<TraitMethod> = None;
    let mut i: usize = 0;
    while i < ms.len()
        invariant
            i <= ms@.len(),
            method_views(methods@) == plain_methods(ms@, i as int),
            method_view(constructor) == constructor_of(ms@, i as int),
            method_view(destructor) == destructor_of(ms@, i as int),
        decreases ms.len() - i,
    {
        let forwarding = match &ms[i] {
            ImplEntry::Fn(m) => trait_method_of(m),
            ImplEntry::Other => None,
        };
        if let Some(t) = forwarding {
            if t.is_constructor {
                constructor = Some(t);
            } else if t.is_destructor {
                destructor = Some(t);
            } else {
                methods.push(t);
            }
        }
        i += 1;
    }
    (methods, constructor, destructor)
}

fn type_name_of(ty: &TypeExpr) -> (r: Option<String>)
    ensures
        name_view(r) == self_type_name(ty@),
{
    match ty {
        TypeExpr::Path { last_segment, .. } => copy_name(last_segment),
        _ => None,
    }
}

/// The view of an optional impl.
pub open spec fn impl_view(r: Option<RustTraitImpl>) -> Option<RustTraitImplView> {
    match r {
        Some(t) => Some(t@),
        None => None,
    }
}

/// Reads an impl block as a trait impl (`impl Trait for Type`).
pub fn parse_trait_impl(item_impl: &ImplBlock) -> (r: Option<RustTraitImpl>)
    ensures
        impl_view(r) == trait_impl_of(*item_impl),
{
    let trait_name = match &item_impl.implements {
        Some(t) => match &t.last_segment {
            Some(name) => name.clone(),
            None => { return None; },
        },
        None => { return None; },
    };
    let target_type = match type_name_of(&item_impl.self_ty) {
        Some(name) => name,
        None => { return None; },
    };
    let (methods, constructor, destructor) = sort_methods(&item_impl.items);
    if methods.len() == 0 && constructor.is_none() && destructor.is_none() {
        return None;
    }
    Some(
        RustTraitImpl {
            trait_name,
            target_type,
            methods,
            is_zst: true,
            is_opaque: false,
            constructor,
            destructor,
        },
    )
}

pub(crate) fn holds_name(names: &Vec<String>, name: &str) -> (b: bool)
    ensures
        b == string_views(names@).contains(name@),
{
    let mut i: usize = 0;
    while i < names.len()
        invariant
            i <= names@.len(),
            forall|k: int| 0 <= k < i ==> string_views(names@)[k] != name@,
        decreases names.len() - i,
    {
        if same_text(names[i].as_str(), name) {
            assert(string_views(names@)[i as int] == name@);
            return true;
        }
        i += 1;
    }
    false
}

/// Reads an impl block as the inherent impl (`impl Type`) of an opaque
/// type, for its constructor and destructor.
pub fn parse_inherent_impl(item_impl: &ImplBlock, opaque_types: &Vec<String>) -> (r: Option<
    RustTraitImpl,
>)
    ensures
        impl_view(r) == inherent_impl_of(*item_impl, string_views(opaque_types@)),
{
    if item_impl.implements.is_some() {
        return None;
    }
    let target_type = match type_name_of(&item_impl.self_ty) {
        Some(name) => name,
        None => { return None; },
    };
    if !holds_name(opaque_types, target_type.as_str()) {
        return None;
    }
    let (_methods, constructor, destructor) = sort_methods(&item_impl.items);
    if constructor.is_none() && destructor.is_none() {
        return None;
    }
    let methods: Vec<TraitMethod> = Vec::new();
    assert(method_views(methods@) =~= Seq::<TraitMethodView>::empty());
    Some(
        RustTraitImpl {
            trait_name: String::new(),
            target_type,
            methods,
            is_zst: false,
            is_opaque: true,
            constructor,
            destructor,
        },
    )
}

// ---------------------------------------------------------------------------
// The three passes over the items of a module
// ---------------------------------------------------------------------------

/// The names of the opaque structs among the first `n` items.
pub open spec fn opaque_names(items: Seq<Decl>, n: int) -> Seq<Seq<char>>
    decreases n,
{
    if n <= 0 {
        Seq::empty()
    } else {
        let rest = opaque_names(items, n - 1);
        match items[n - 1] {
            Decl::Struct(s) => if is_opaque(s.fields@) {
                rest.push(s.name@)
            } else {
                rest
            },
            _ => rest,
        }
    }
}

/// A trait impl with its target marked as an opaque handle.
pub open spec fn marked_opaque(t: RustTraitImplView) -> RustTraitImplView {
    RustTraitImplView { is_opaque: true, is_zst: false, ..t }
}

/// What an impl block is read as: a trait impl, marked opaque where its
/// target is an opaque struct; else the inherent impl of an opaque type.
pub open spec fn impl_of_block(b: ImplBlock, opaque: Seq<Seq<char>>) -> Option<RustTraitImplView> {
    match trait_impl_of(b) {
        Some(t) => if opaque.contains(t.target_type) {
            Some(marked_opaque(t))
        } else {
            Some(t)
        },
        None => inherent_impl_of(b, opaque),
    }
}

/// The impls among the first `n` items, in order.
pub open spec fn impls_of(items: Seq<Decl>, n: int, opaque: Seq<Seq<char>>) -> Seq<
    RustTraitImplView,
>
    decreases n,
{
    if n <= 0 {
        Seq::empty()
    } else {
        let rest = impls_of(items, n - 1, opaque);
        match items[n - 1] {
            Decl::Impl(b) => match impl_of_block(b, opaque) {
                Some(t) => rest.push(t),
                None => rest,
            },
            _ => rest,
        }
    }
}

/// The target types of impls.
pub open spec fn target_types(impls: Seq<RustTraitImplView>) -> Seq<Seq<char>> {
    impls.map_values(|t: RustTraitImplView| t.target_type)
}

/// The enums among the first `n` items.
pub open spec fn enums_of(items: Seq<Decl>, n: int) -> Seq<EnumItemView>
    decreases n,
{
    if n <= 0 {
        Seq::empty()
    } else {
        let rest = enums_of(items, n - 1);
        match items[n - 1] {
            Decl::Enum(e) => rest.push(e@),
            _ => rest,
        }
    }
}

/// The structs among the first `n` items that are emitted as they are:
/// neither opaque markers nor targets of an impl.
pub open spec fn structs_of(items: Seq<Decl>, n: int, targets: Seq<Seq<char>>) -> Seq<
    StructItemView,
>
    decreases n,
{
    if n <= 0 {
        Seq::empty()
    } else {
        let rest = structs_of(items, n - 1, targets);
        match items[n - 1] {
            Decl::Struct(s) => if !targets.contains(s.name@) && !is_opaque(s.fields@) {
                rest.push(s@)
            } else {
                rest
            },
            _ => rest,
        }
    }
}

/// The text of the function that unparsed tokens may hold: the tokens,
/// normalized, without a closing semicolon and with a body; none where
/// they hold no `fn `.
pub open spec fn verbatim_function_text(tokens: Seq<char>) -> Option<Seq<char>> {
    let n = normalized(tokens);
    if has_prefix(trimmed(n), "fn "@) || has_prefix(trimmed(n), "async fn "@) || occurs(
        n,
        "fn "@,
    ) {
        Some(trimmed(without_trailing(n, ';')) + " { unimplemented!() }"@)
    } else {
        None
    }
}

/// The declared function that unparsed tokens hold, where `reparsed` is
/// what the Rust parser made of their function text: none where the tokens
/// have no function text, and none where the parser refused it.
pub open spec fn verbatim_signature(tokens: Seq<char>, reparsed: Option<FnItem>) -> Option<
    RustFunctionSignatureView,
> {
    match verbatim_function_text(tokens) {
        Some(_) => match reparsed {
            Some(f) => Some(declared_function(f.sig@, f.attrs@)),
            None => None,
        },
        None => None,
    }
}

/// The entry of a row at index `j`; none beyond the row.
pub open spec fn entry(row: Seq<Option<FnItem>>, j: int) -> Option<FnItem> {
    if 0 <= j < row.len() {
        row[j]
    } else {
        None
    }
}

/// The row of a table at index `k`; an empty row beyond the table.
pub open spec fn row_of(table: Seq<Vec<Option<FnItem>>>, k: int) -> Seq<Option<FnItem>> {
    if 0 <= k < table.len() {
        table[k]@
    } else {
        Seq::empty()
    }
}

/// The declared functions among the first `n` items of a foreign module.
pub open spec fn foreign_signatures(items: Seq<ForeignItem>, n: int) -> Seq<
    RustFunctionSignatureView,
>
    decreases n,
{
    if n <= 0 {
        Seq::empty()
    } else {
        let rest = foreign_signatures(items, n - 1);
        match items[n - 1] {
            ForeignItem::Fn(f) => rest.push(declared_function(f.sig@, f.attrs@)),
            ForeignItem::Other => rest,
        }
    }
}

/// The declared functions that one item holds; `reparsed` is what the
/// Rust parser made of the function text of unparsed tokens.
pub open spec fn signatures_of_item(item: Decl, reparsed: Option<FnItem>) -> Seq<
    RustFunctionSignatureView,
> {
    match item {
        Decl::Fn(f) => seq![declared_function(f.sig@, f.attrs@)],
        Decl::ForeignMod(items) => foreign_signatures(items@, items@.len() as int),
        Decl::Verbatim(tokens) => option_seq(verbatim_signature(tokens@, reparsed)),
        _ => Seq::empty(),
    }
}

/// The declared functions among the first `n` items; the row holds, at
/// the index of each item, what the Rust parser made of its function text.
pub open spec fn signatures_of(items: Seq<Decl>, row: Seq<Option<FnItem>>, n: int) -> Seq<
    RustFunctionSignatureView,
>
    decreases n,
{
    if n <= 0 {
        Seq::empty()
    } else {
        signatures_of(items, row, n - 1) + signatures_of_item(items[n - 1], entry(row, n - 1))
    }
}

/// The definitions with those of one more module. In a module the opaque
/// structs are found first, then the impls, then everything else; a struct
/// that an impl of this or an earlier module targets is not emitted.
pub open spec fn with_module(
    prev: DefinitionsView,
    items: Seq<Decl>,
    row: Seq<Option<FnItem>>,
) -> DefinitionsView {
    let n = items.len() as int;
    let impls = prev.trait_impls + impls_of(items, n, opaque_names(items, n));
    DefinitionsView {
        enums: prev.enums + enums_of(items, n),
        structs: prev.structs + structs_of(items, n, target_types(impls)),
        signatures: prev.signatures + signatures_of(items, row, n),
        trait_impls: impls,
    }
}

/// The definitions of the first `k` top-level items of a file: those of
/// its modules that have a body. Any other top-level item holds none. The
/// table holds, for the item at index `j` of the module at index `i`, what
/// the Rust parser made of its function text.
pub open spec fn definitions_upto(
    top: Seq<Decl>,
    table: Seq<Vec<Option<FnItem>>>,
    k: int,
) -> DefinitionsView
    decreases k,
{
    if k <= 0 {
        no_definitions()
    } else {
        let prev = definitions_upto(top, table, k - 1);
        match top[k - 1] {
            Decl::Mod { content: Some(items) } => with_module(prev, items@, row_of(table, k - 1)),
            _ => prev,
        }
    }
}

fn find_opaque(items: &Vec<Decl>) -> (names: Vec<String>)
    ensures
        string_views(names@) == opaque_names(items@, items@.len() as int),
{
    let mut names: Vec<String> = Vec::new();
    let mut i: usize = 0;
    while i < items.len()
        invariant
            i <= items@.len(),
            string_views(names@) == opaque_names(items@, i as int),
        decreases items.len() - i,
    {
        if let Decl::Struct(s) = &items[i] {
            if is_opaque_struct(s) {
                names.push(s.name.clone());
            }
        }
        i += 1;
    }
    names
}

fn read_impl(b: &ImplBlock, opaque: &Vec<String>) -> (r: Option<RustTraitImpl>)
    ensures
        impl_view(r) == impl_of_block(*b, string_views(opaque@)),
{
    match parse_trait_impl(b) {
        Some(t) => {
            if holds_name(opaque, t.target_type.as_str()) {
                let RustTraitImpl {
                    trait_name,
                    target_type,
                    methods,
                    is_zst: _,
                    is_opaque: _,
                    constructor,
                    destructor,
                } = t;
                Some(
                    RustTraitImpl {
                        trait_name,
                        target_type,
                        methods,
                        is_zst: false,
                        is_opaque: true,
                        constructor,
                        destructor,
                    },
                )
            } else {
                Some(t)
            }
        },
        None => parse_inherent_impl(b, opaque),
    }
}

fn declare(f: &FnItem) -> (r: RustFunctionSignature)
    ensures
        r@ == declared_function(f.sig@, f.attrs@),
{
    parse_function_signature(f.sig.duplicate(), f.attrs.as_slice())
}

/// The function text of unparsed tokens: what is handed to the Rust
/// parser to read them as a function.
pub fn verbatim_function_source(tokens: &str) -> (r: Option<String>)
    ensures
        match r {
            Some(text) => verbatim_function_text(tokens@) == Some(text@),
            None => verbatim_function_text(tokens@) is None,
        },
{
    let t = to_chars(tokens);
    let n = normalize(t.as_slice());
    let fn_kw = to_chars("fn ");
    let async_kw = to_chars("async fn ");
    if starts_with(trim(n.as_slice()), fn_kw.as_slice()) || starts_with(
        trim(n.as_slice()),
        async_kw.as_slice(),
    ) || contains(n.as_slice(), fn_kw.as_slice()) {
        let mut text = from_chars(trim(trim_end_char(n.as_slice(), ';')));
        text.append(" { unimplemented!() }");
        Some(text)
    } else {
        None
    }
}

fn read_verbatim(tokens: &str, reparsed: &Option<FnItem>) -> (r: Option<RustFunctionSignature>)
    ensures
        match r {
            Some(f) => verbatim_signature(tokens@, *reparsed) == Some(f@),
            None => verbatim_signature(tokens@, *reparsed) is None,
        },
{
    match verbatim_function_source(tokens) {
        Some(_) => match reparsed {
            Some(f) => Some(declare(f)),
            None => None,
        },
        None => None,
    }
}

fn read_signatures(
    signatures: &mut Vec<RustFunctionSignature>,
    item: &Decl,
    reparsed: &Option<FnItem>,
)
    ensures
        signature_views(final(signatures)@) == signature_views(old(signatures)@)
            + signatures_of_item(*item, *reparsed),
{
    let ghost before = signatures@;
    match item {
        Decl::Fn(f) => {
            signatures.push(declare(f));
        },
        Decl::ForeignMod(items) => {
            let mut i: usize = 0;
            while i < items.len()
                invariant
                    i <= items@.len(),
                    signature_views(signatures@) == signature_views(before) + foreign_signatures(
                        items@,
                        i as int,
                    ),
                decreases items.len() - i,
            {
                let ghost inner = signatures@;
                if let ForeignItem::Fn(f) = &items[i] {
                    signatures.push(declare(f));
                    assert(signature_views(signatures@) =~= signature_views(inner).push(
                        declared_function(f.sig@, f.attrs@),
                    ));
                }
                i += 1;
            }
        },
        Decl::Verbatim(tokens) => {
            if let Some(f) = read_verbatim(tokens.as_str(), reparsed) {
                signatures.push(f);
            }
        },
        _ => {},
    }
}

fn target_names(impls: &Vec<RustTraitImpl>) -> (names: Vec<String>)
    ensures
        string_views(names@) == target_types(impl_views(impls@)),
{
    let mut names: Vec<String> = Vec::new();
    let mut i: usize = 0;
    while i < impls.len()
        invariant
            i <= impls@.len(),
            string_views(names@) == target_types(impl_views(impls@)).take(i as int),
        decreases impls.len() - i,
    {
        names.push(impls[i].target_type.clone());
        assert(target_types(impl_views(impls@)).take(i + 1) =~= target_types(
            impl_views(impls@),
        ).take(i as int).push(impls@[i as int].target_type@));
        i += 1;
    }
    names
}

/// Adds the definitions of one module to the four lists.
fn collect_module(
    items: &Vec<Decl>,
    row: &Vec<Option<FnItem>>,
    enums: &mut Vec<RustEnumDefinition>,
    structs: &mut Vec<RustStructDefinition>,
    signatures: &mut Vec<RustFunctionSignature>,
    trait_impls: &mut Vec<RustTraitImpl>,
)
    ensures
        (DefinitionsView {
            enums: enum_views(final(enums)@),
            structs: struct_views(final(structs)@),
            signatures: signature_views(final(signatures)@),
            trait_impls: impl_views(final(trait_impls)@),
        }) == with_module(
            DefinitionsView {
                enums: enum_views(old(enums)@),
                structs: struct_views(old(structs)@),
                signatures: signature_views(old(signatures)@),
                trait_impls: impl_views(old(trait_impls)@),
            },
            items@,
            row@,
        ),
{
    let ghost prev = DefinitionsView {
        enums: enum_views(old(enums)@),
        structs: struct_views(old(structs)@),
        signatures: signature_views(old(signatures)@),
        trait_impls: impl_views(old(trait_impls)@),
    };
    let opaque = find_opaque(items);
    let mut i: usize = 0;
    assert(impl_views(trait_impls@) =~= prev.trait_impls + impls_of(
        items@,
        0,
        string_views(opaque@),
    ));
    while i < items.len()
        invariant
            i <= items@.len(),
            impl_views(trait_impls@) == prev.trait_impls + impls_of(
                items@,
                i as int,
                string_views(opaque@),
            ),
        decreases items.len() - i,
    {
        let ghost before = trait_impls@;
        if let Decl::Impl(b) = &items[i] {
            if let Some(t) = read_impl(b, &opaque) {
                trait_impls.push(t);
                assert(impl_views(trait_impls@) =~= impl_views(before).push(t@));
            }
        }
        assert(impl_views(trait_impls@) =~= prev.trait_impls + impls_of(
            items@,
            i + 1,
            string_views(opaque@),
        ));
        i += 1;
    }
    let targets = target_names(trait_impls);
    let mut j: usize = 0;
    assert(enum_views(enums@) =~= prev.enums + enums_of(items@, 0));
    assert(struct_views(structs@) =~= prev.structs + structs_of(
        items@,
        0,
        string_views(targets@),
    ));
    assert(signature_views(signatures@) =~= prev.signatures + signatures_of(items@, row@, 0));
    while j < items.len()
        invariant
            j <= items@.len(),
            enum_views(enums@) == prev.enums + enums_of(items@, j as int),
            struct_views(structs@) == prev.structs + structs_of(
                items@,
                j as int,
                string_views(targets@),
            ),
            signature_views(signatures@) == prev.signatures + signatures_of(
                items@,
                row@,
                j as int,
            ),
        decreases items.len() - j,
    {
        let ghost enums_before = enums@;
        let ghost structs_before = structs@;
        match &items[j] {
            Decl::Enum(e) => {
                enums.push(RustEnumDefinition { item: e.duplicate() });
                assert(enum_views(enums@) =~= enum_views(enums_before).push(e@));
            },
            Decl::Struct(s) => {
                if !holds_name(&targets, s.name.as_str()) && !is_opaque_struct(s) {
                    structs.push(RustStructDefinition { item: s.duplicate() });
                    assert(struct_views(structs@) =~= struct_views(structs_before).push(s@));
                }
            },
            _ => {},
        }
        let none: Option<FnItem> = None;
        if j < row.len() {
            read_signatures(signatures, &items[j], &row[j]);
        } else {
            read_signatures(signatures, &items[j], &none);
        }
        assert(enum_views(enums@) =~= prev.enums + enums_of(items@, j + 1));
        assert(struct_views(structs@) =~= prev.structs + structs_of(
            items@,
            j + 1,
            string_views(targets@),
        ));
        assert(signature_views(signatures@) =~= prev.signatures + (signatures_of(
            items@,
            row@,
            j as int,
        ) + signatures_of_item(items@[j as int], entry(row@, j as int))));
        j += 1;
    }
}

/// Sorts the items of the modules of a parsed file into enums, structs,
/// declared functions and impls. `top` holds the top-level items of the
/// file; only modules with a body hold definitions. `table` holds, for the
/// item at index `j` of the module at index `k`, what the Rust parser made
/// of the function text of its tokens; a missing entry counts as a refusal.
pub fn collect_definitions(top: &Vec<Decl>, table: &Vec<Vec<Option<FnItem>>>) -> (r: (
    Vec<RustEnumDefinition>,
    Vec<RustStructDefinition>,
    Vec<RustFunctionSignature>,
    Vec<RustTraitImpl>,
))
    ensures
        definitions_view(r) == definitions_upto(top@, table@, top@.len() as int),
{
    let mut enums: Vec<RustEnumDefinition> = Vec::new();
    let mut structs: Vec<RustStructDefinition> = Vec::new();
    let mut signatures: Vec<RustFunctionSignature> = Vec::new();
    let mut trait_impls: Vec<RustTraitImpl> = Vec::new();
    let empty: Vec<Option<FnItem>> = Vec::new();
    let mut k: usize = 0;
    assert(definitions_view((enums, structs, signatures, trait_impls)) =~= no_definitions()) by {
        assert(enum_views(enums@) =~= Seq::empty());
        assert(struct_views(structs@) =~= Seq::empty());
        assert(signature_views(signatures@) =~= Seq::empty());
        assert(impl_views(trait_impls@) =~= Seq::empty());
    }
    while k < top.len()
        invariant
            k <= top@.len(),
            empty@.len() == 0,
            definitions_view((enums, structs, signatures, trait_impls)) == definitions_upto(
                top@,
                table@,
                k as int,
            ),
        decreases top.len() - k,
    {
        if let Decl::Mod { content } = &top[k] {
            if let Some(items) = content {
                if k < table.len() {
                    collect_module(
                        items,
                        &table[k],
                        &mut enums,
                        &mut structs,
                        &mut signatures,
                        &mut trait_impls,
                    );
                } else {
                    assert(empty@ =~= row_of(table@, k as int));
                    collect_module(
                        items,
                        &empty,
                        &mut enums,
                        &mut structs,
                        &mut signatures,
                        &mut trait_impls,
                    );
                }
            }
        }
        k += 1;
    }
    (enums, structs, signatures, trait_impls)
}

/// What the Rust parser makes of the function text of each item of a
/// module: an entry for each item, filled only for unparsed tokens that
/// have a function text, and only where the parser took it.
pub fn reparse_module(items: &Vec<Decl>) -> (row: Vec<Option<FnItem>>)
    ensures
        row@.len() == items@.len(),
        forall|j: int|
            0 <= j < items@.len() && (#[trigger] row@[j]) is Some ==> items@[j] is Verbatim
                && verbatim_function_text(items@[j]->Verbatim_0@) is Some,
{
    let mut row: Vec<Option<FnItem>> = Vec::new();
    let mut j: usize = 0;
    while j < items.len()
        invariant
            j <= items@.len(),
            row@.len() == j,
            forall|m: int|
                0 <= m < j && (#[trigger] row@[m]) is Some ==> items@[m] is Verbatim
                    && verbatim_function_text(items@[m]->Verbatim_0@) is Some,
        decreases items.len() - j,
    {
        let reparsed = match &items[j] {
            Decl::Verbatim(tokens) => match verbatim_function_source(tokens.as_str()) {
                Some(text) => parse_fn_item(text.as_str()),
                None => None,
            },
            _ => None,
        };
        row.push(reparsed);
        j += 1;
    }
    row
}

/// What the Rust parser makes of the function text of each item of each
/// module of a parsed file: a row for each top-level item, empty for what
/// is no module with a body.
pub fn reparse_verbatim(top: &Vec<Decl>) -> (table: Vec<Vec<Option<FnItem>>>)
    ensures
        table@.len() == top@.len(),
        forall|k: int|
            0 <= k < top@.len() ==> (#[trigger] table@[k])@.len() == (match top@[k] {
                Decl::Mod { content: Some(items) } => items@.len(),
                _ => 0,
            }),
{
    let mut table: Vec<Vec<Option<FnItem>>> = Vec::new();
    let mut k: usize = 0;
    while k < top.len()
        invariant
            k <= top@.len(),
            table@.len() == k,
            forall|m: int|
                0 <= m < k ==> (#[trigger] table@[m])@.len() == (match top@[m] {
                    Decl::Mod { content: Some(items) } => items@.len(),
                    _ => 0,
                }),
        decreases top.len() - k,
    {
        let row = match &top[k] {
            Decl::Mod { content: Some(items) } => reparse_module(items),
            _ => Vec::new(),
        };
        table.push(row);
        k += 1;
    }
    table
}

/// The text that is handed to the Rust parser for a declaration text: the
/// declarations, whitespace normalized and outer braces set aside, inside
/// a module.
pub open spec fn module_text(input: Seq<char>) -> Seq<char> {
    "mod temp { "@ + unwrapped(trimmed(normalized(input)), '{', '}') + " }"@
}

/// The text that is handed to the Rust parser for a declaration text.
pub fn module_source(input: &str) -> (file: String)
    ensures
        file@ == module_text(input@),
{
    let text = to_chars(input);
    let n = normalize(text.as_slice());
    let content = unwrap(trim(n.as_slice()), '{', '}');
    let mut file: Vec<char> = Vec::new();
    push_str(&mut file, "mod temp { ");
    push_all(&mut file, content);
    push_str(&mut file, " }");
    from_chars(file.as_slice())
}

/// Parses a declaration text into enums, structs, declared functions and
/// impls. The text goes to the Rust parser inside a module; what the
/// parser makes of it is sorted by `collect_definitions`. A text that the
/// parser refuses, like an item of no known form, gives nothing.
pub fn parse_rust_definitions(input: &str) -> (r: (
    Vec<RustEnumDefinition>,
    Vec<RustStructDefinition>,
    Vec<RustFunctionSignature>,
    Vec<RustTraitImpl>,
))
    ensures
        exists|top: Seq<Decl>, table: Seq<Vec<Option<FnItem>>>|
            definitions_view(r) == #[trigger] definitions_upto(top, table, top.len() as int),
{
    let file = module_source(input);
    match parse_items(file.as_str()) {
        Some(top) => {
            let table = reparse_verbatim(&top);
            let r = collect_definitions(&top, &table);
            assert(definitions_view(r) == definitions_upto(top@, table@, top@.len() as int));
            r
        },
        None => {
            let r = (Vec::new(), Vec::new(), Vec::new(), Vec::new());
            assert(definitions_view(r) =~= no_definitions()) by {
                assert(enum_views(r.0@) =~= Seq::empty());
                assert(struct_views(r.1@) =~= Seq::empty());
                assert(signature_views(r.2@) =~= Seq::empty());
                assert(impl_views(r.3@) =~= Seq::empty());
            }
            let ghost nothing = Seq::<Decl>::empty();
            assert(definitions_view(r) == definitions_upto(
                nothing,
                Seq::<Vec<Option<FnItem>>>::empty(),
                nothing.len() as int,
            ));
            r
        },
    }
}

} // verus!
