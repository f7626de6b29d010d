//! Parsing Rust declarations.
//!
//! The declaration half of a block is Rust; `syn` parses it. The functions
//! here make the call and turn what `syn` returns into the library's own
//! syntax types, variant by variant and field by field. Nothing in this
//! file is proved, and nothing is claimed of what `syn` returns: the
//! verified functions take the parsed values as they come.

use vstd::prelude::*;
use quote::ToTokens;
use crate::syntax::{
    Attr, AttrMeta, BodyExpr, BodyStmt, BoundDecl, Decl, EnumItem, Fields, FnItem, FnSignature,
    ForeignItem, GenericDecl, ImplBlock, ImplEntry, ImplMethod, Output, Param, StructItem,
    TraitRef, TypeExpr,
};

verus! {

/// `syn::Type`: a type. Nothing is known of a value.
#[verifier::external_type_specification]
#[verifier::external_body]
pub struct ExType(syn::Type);

/// `syn::FnArg`: a parameter of a function. Nothing is known of a value.
#[verifier::external_type_specification]
#[verifier::external_body]
pub struct ExFnArg(syn::FnArg);

/// `syn::Signature`: the signature of a function. Nothing is known of a
/// value.
#[verifier::external_type_specification]
#[verifier::external_body]
pub struct ExSignature(syn::Signature);

/// `syn::Attribute`: an attribute. Nothing is known of a value.
#[verifier::external_type_specification]
#[verifier::external_body]
pub struct ExAttribute(syn::Attribute);

/// `syn::ItemStruct`: a struct definition. Nothing is known of a value.
#[verifier::external_type_specification]
#[verifier::external_body]
pub struct ExItemStruct(syn::ItemStruct);

/// `syn::Expr`: an expression. Nothing is known of a value.
#[verifier::external_type_specification]
#[verifier::external_body]
pub struct ExExpr(syn::Expr);

/// `syn::Stmt`: a statement. Nothing is known of a value.
#[verifier::external_type_specification]
#[verifier::external_body]
pub struct ExStmt(syn::Stmt);

/// `syn::Block`: a block of statements. Nothing is known of a value.
#[verifier::external_type_specification]
#[verifier::external_body]
pub struct ExBlock(syn::Block);

/// `syn::ImplItemFn`: a method of an impl block. Nothing is known of a
/// value.
#[verifier::external_type_specification]
#[verifier::external_body]
pub struct ExImplItemFn(syn::ImplItemFn);

/// `syn::ItemImpl`: an impl block. Nothing is known of a value.
#[verifier::external_type_specification]
#[verifier::external_body]
pub struct ExItemImpl(syn::ItemImpl);

/// `syn::ItemForeignMod`: a foreign module. Nothing is known of a value.
#[verifier::external_type_specification]
#[verifier::external_body]
pub struct ExItemForeignMod(syn::ItemForeignMod);

/// `syn::ItemMod`: a module. Nothing is known of a value.
#[verifier::external_type_specification]
#[verifier::external_body]
pub struct ExItemMod(syn::ItemMod);

/// `syn::Item`: an item. Nothing is known of a value.
#[verifier::external_type_specification]
#[verifier::external_body]
pub struct ExItem(syn::Item);

/// Turns a `syn::Type` into the library's form by its variant: a path
/// (with `Path::get_ident` and the last of `Path::segments`), a reference
/// and a slice are told apart; any other type is kept as its tokens.
#[verifier::external_body]
fn type_of(ty: &syn::Type) -> TypeExpr {
    match ty {
        syn::Type::Path(p) => TypeExpr::Path {
            text: p.to_token_stream().to_string(),
            ident: p.path.get_ident().map(|i| i.to_string()),
            last_segment: p.path.segments.last().map(|s| s.ident.to_string()),
        },
        syn::Type::Reference(r) => TypeExpr::Reference {
            lifetime: r.lifetime.as_ref().map(|l| l.to_string()),
            mutable: r.mutability.is_some(),
            elem: Box::new(type_of(&r.elem)),
        },
        syn::Type::Slice(s) => TypeExpr::Slice { elem: Box::new(type_of(&s.elem)) },
        other => TypeExpr::Other { text: other.to_token_stream().to_string() },
    }
}

/// Turns a `syn::FnArg` into the library's form: a receiver with its
/// tokens and whether it is `mut`, a typed parameter with the tokens of
/// its pattern, the identifier of a `Pat::Ident`, and its type.
#[verifier::external_body]
fn fn_arg_of(arg: &syn::FnArg) -> Param {
    match arg {
        syn::FnArg::Receiver(r) => Param::Receiver {
            text: r.to_token_stream().to_string(),
            mutable: r.mutability.is_some(),
        },
        syn::FnArg::Typed(t) => Param::Typed {
            pattern: t.pat.to_token_stream().to_string(),
            name: match &*t.pat {
                syn::Pat::Ident(i) => Some(i.ident.to_string()),
                _ => None,
            },
            ty: type_of(&t.ty),
        },
    }
}

/// The generic parameters of a `syn::Signature`: of a type parameter the
/// name and, for each bound, whether it is a trait and which.
#[verifier::external_body]
fn generics_of(sig: &syn::Signature) -> Vec<GenericDecl> {
    sig.generics.params.iter().map(|p| match p {
        syn::GenericParam::Type(t) => GenericDecl::Type {
            name: t.ident.to_string(),
            bounds: t.bounds.iter().map(|b| match b {
                syn::TypeParamBound::Trait(tb) => BoundDecl::Trait {
                    last_segment: tb.path.segments.last().map(|s| s.ident.to_string()),
                },
                _ => BoundDecl::Other,
            }).collect(),
        },
        _ => GenericDecl::Other,
    }).collect()
}

/// Turns a `syn::Signature` into the library's form: the identifier,
/// whether `async` is written, the generic parameters, the parameters and
/// the return type.
#[verifier::external_body]
fn signature_of(sig: &syn::Signature) -> FnSignature {
    FnSignature {
        name: sig.ident.to_string(),
        is_async: sig.asyncness.is_some(),
        generics: generics_of(sig),
        inputs: sig.inputs.iter().map(fn_arg_of).collect(),
        output: match &sig.output {
            syn::ReturnType::Default => Output::Default,
            syn::ReturnType::Type(_, ty) => Output::Type(type_of(ty)),
        },
    }
}

/// Turns a `syn::Attribute` into the library's form: the identifier of its
/// path (`Path::get_ident`) and the variant of its `Meta`, with the tokens
/// of a list.
#[verifier::external_body]
fn attribute_of(attr: &syn::Attribute) -> Attr {
    Attr {
        name: attr.path().get_ident().map(|i| i.to_string()),
        meta: match &attr.meta {
            syn::Meta::Path(_) => AttrMeta::Path,
            syn::Meta::List(l) => AttrMeta::List { tokens: l.tokens.to_string() },
            syn::Meta::NameValue(_) => AttrMeta::NameValue,
        },
    }
}

/// Turns a `syn::ItemStruct` into the library's form: the identifier, the
/// variant of its `Fields` with the types of unnamed fields, and its
/// tokens.
#[verifier::external_body]
fn struct_of(item: &syn::ItemStruct) -> StructItem {
    StructItem {
        name: item.ident.to_string(),
        fields: match &item.fields {
            syn::Fields::Named(_) => Fields::Named,
            syn::Fields::Unnamed(u) => Fields::Unnamed(
                u.unnamed.iter().map(|f| type_of(&f.ty)).collect(),
            ),
            syn::Fields::Unit => Fields::Unit,
        },
        text: item.to_token_stream().to_string(),
    }
}

/// The statements of a `syn::Block` in the library's form.
#[verifier::external_body]
fn stmts_of(block: &syn::Block) -> Vec<BodyStmt> {
    block.stmts.iter().map(stmt_of).collect()
}

/// The name of the function that a call names: where the called
/// expression is a `syn::Expr::Path`, the last segment of the path.
#[verifier::external_body]
fn callee_of(func: &syn::Expr) -> Option<String> {
    match func {
        syn::Expr::Path(p) => p.path.segments.last().map(|s| s.ident.to_string()),
        _ => None,
    }
}

/// Turns a `syn::Expr` into the library's form by its variant: a call, a
/// block, an `if` and a `let` are told apart.
#[verifier::external_body]
fn expr_of(expr: &syn::Expr) -> BodyExpr {
    match expr {
        syn::Expr::Call(c) => BodyExpr::Call { callee: callee_of(&c.func) },
        syn::Expr::Block(b) => BodyExpr::Block { stmts: stmts_of(&b.block) },
        syn::Expr::If(i) => BodyExpr::If {
            cond: Box::new(expr_of(&i.cond)),
            then_branch: stmts_of(&i.then_branch),
            else_branch: i.else_branch.as_ref().map(|e| Box::new(expr_of(&e.1))),
        },
        syn::Expr::Let(l) => BodyExpr::Let { expr: Box::new(expr_of(&l.expr)) },
        _ => BodyExpr::Other,
    }
}

/// Turns a `syn::Stmt` into the library's form by its variant: an
/// expression and a `let` binding with its initializer are told apart.
#[verifier::external_body]
fn stmt_of(stmt: &syn::Stmt) -> BodyStmt {
    match stmt {
        syn::Stmt::Expr(e, _) => BodyStmt::Expr(expr_of(e)),
        syn::Stmt::Local(l) => BodyStmt::Local { init: l.init.as_ref().map(|i| expr_of(&i.expr)) },
        _ => BodyStmt::Other,
    }
}

/// Turns a `syn::ImplItemFn` into the library's form: its attributes, its
/// signature, the statements of its block and the tokens of the block.
#[verifier::external_body]
fn method_of(method: &syn::ImplItemFn) -> ImplMethod {
    ImplMethod {
        attrs: method.attrs.iter().map(attribute_of).collect(),
        sig: signature_of(&method.sig),
        body: stmts_of(&method.block),
        body_text: method.block.to_token_stream().to_string(),
    }
}

/// Turns a `syn::ItemImpl` into the library's form: the last segment of
/// the path of the implemented trait, the self type, and its items, each
/// a function or something else.
#[verifier::external_body]
fn impl_of(item: &syn::ItemImpl) -> ImplBlock {
    ImplBlock {
        implements: item.trait_.as_ref().map(|t| TraitRef {
            last_segment: t.1.segments.last().map(|s| s.ident.to_string()),
        }),
        self_ty: type_of(&item.self_ty),
        items: item.items.iter().map(|i| match i {
            syn::ImplItem::Fn(m) => ImplEntry::Fn(method_of(m)),
            _ => ImplEntry::Other,
        }).collect(),
    }
}

/// The attributes and the signature of a function in the library's form.
#[verifier::external_body]
fn fn_item_of(attrs: &Vec<syn::Attribute>, sig: &syn::Signature) -> FnItem {
    FnItem { attrs: attrs.iter().map(attribute_of).collect(), sig: signature_of(sig) }
}

/// The items of a `syn::ItemForeignMod` in the library's form: its
/// functions are told apart from its other items.
#[verifier::external_body]
fn foreign_items_of(module: &syn::ItemForeignMod) -> Vec<ForeignItem> {
    module.items.iter().map(|i| match i {
        syn::ForeignItem::Fn(f) => ForeignItem::Fn(fn_item_of(&f.attrs, &f.sig)),
        _ => ForeignItem::Other,
    }).collect()
}

/// Turns a `syn::ItemMod` into the library's form: the items of its body,
/// where it has one.
#[verifier::external_body]
fn module_of(module: &syn::ItemMod) -> Decl {
    Decl::Mod { content: module.content.as_ref().map(|c| c.1.iter().map(item_of).collect()) }
}

/// Turns a `syn::Item` into the library's form by its variant.
#[verifier::external_body]
fn item_of(item: &syn::Item) -> Decl {
    match item {
        syn::Item::Enum(e) => Decl::Enum(
            EnumItem { name: e.ident.to_string(), text: e.to_token_stream().to_string() },
        ),
        syn::Item::Struct(s) => Decl::Struct(struct_of(s)),
        syn::Item::Fn(f) => Decl::Fn(fn_item_of(&f.attrs, &f.sig)),
        syn::Item::Impl(i) => Decl::Impl(impl_of(i)),
        syn::Item::ForeignMod(m) => Decl::ForeignMod(foreign_items_of(m)),
        syn::Item::Verbatim(t) => Decl::Verbatim(t.to_string()),
        syn::Item::Mod(m) => module_of(m),
        _ => Decl::Other,
    }
}

/// `syn::parse_str::<syn::File>`, then each top-level item of the file in
/// the library's form; none where the parser refuses the text. Nothing is
/// claimed of the result: what the lexer takes and how tokens are printed
/// is `proc-macro2`'s, which goes by the process it runs in.
#[verifier::external_body]
pub(crate) fn parse_items(text: &str) -> (r: Option<Vec<Decl>>) {
    let file = syn::parse_str::<syn::File>(text).ok()?;
    Some(file.items.iter().map(item_of).collect())
}

/// `syn::parse_str::<syn::ItemFn>`: the text read as a function with a
/// body; none where the parser refuses it. Nothing is claimed of the
/// result.
#[verifier::external_body]
pub(crate) fn parse_fn_item(text: &str) -> (r: Option<FnItem>) {
    let item = syn::parse_str::<syn::ItemFn>(text).ok()?;
    Some(fn_item_of(&item.attrs, &item.sig))
}

/// `syn::parse_str::<syn::Type>`: the text read as a type; none where the
/// parser refuses it. Nothing is claimed of the result.
#[verifier::external_body]
pub(crate) fn parse_type(text: &str) -> (r: Option<TypeExpr>) {
    let ty = syn::parse_str::<syn::Type>(text).ok()?;
    Some(type_of(&ty))
}

} // verus!
