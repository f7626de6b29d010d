//! The typed model of the declaration half of a block.

use vstd::prelude::*;
use crate::edit::string_views;
use crate::scanner::name_view;
use crate::syntax::{
    EnumItem, EnumItemView, FnSignature, FnSignatureView, Output, OutputView, StructItem,
    StructItemView, TypeExpr, TypeExprView,
};

verus! {

/// A generic type parameter of a declared function.
#[derive(Debug)]
pub struct GenericParam {
    /// The parameter's name, such as `T`.
    pub name: String,
    /// The names of the traits that bound it.
    pub bounds: Vec<String>,
}

pub struct GenericParamView {
    pub name: Seq<char>,
    pub bounds: Seq<Seq<char>>,
}

impl View for GenericParam {
    type V = GenericParamView;

    open spec fn view(&self) -> GenericParamView {
        GenericParamView { name: self.name@, bounds: string_views(self.bounds@) }
    }
}

/// The views of a list of generic parameters.
pub open spec fn generic_param_views(v: Seq<GenericParam>) -> Seq<GenericParamView> {
    v.map_values(|g: GenericParam| g@)
}

/// A declared function: the signature that gets a safe wrapper.
#[derive(Debug)]
pub struct RustFunctionSignature {
    pub sig: FnSignature,
    pub generic_params: Vec<GenericParam>,
    pub is_async: bool,
    /// The concrete types that the function is to be expanded for.
    pub monomorphize_types: Vec<String>,
    /// What the Rust parser made of each concrete type, in their order:
    /// the type, or nothing where it refused the text. Empty until the
    /// types are resolved; a type without an entry counts as refused.
    pub concrete_types: Vec<Option<TypeExpr>>,
}

pub struct RustFunctionSignatureView {
    pub sig: FnSignatureView,
    pub generic_params: Seq<GenericParamView>,
    pub is_async: bool,
    pub monomorphize_types: Seq<Seq<char>>,
    pub concrete_types: Seq<Option<TypeExprView>>,
}

/// The view of a type that may be missing.
pub open spec fn type_option_view(t: Option<TypeExpr>) -> Option<TypeExprView> {
    match t {
        Some(t) => Some(t@),
        None => None,
    }
}

/// The views of a list of types that may be missing.
pub open spec fn type_option_views(v: Seq<Option<TypeExpr>>) -> Seq<Option<TypeExprView>> {
    v.map_values(|t: Option<TypeExpr>| type_option_view(t))
}

impl View for RustFunctionSignature {
    type V = RustFunctionSignatureView;

    open spec fn view(&self) -> RustFunctionSignatureView {
        RustFunctionSignatureView {
            sig: self.sig@,
            generic_params: generic_param_views(self.generic_params@),
            is_async: self.is_async,
            monomorphize_types: string_views(self.monomorphize_types@),
            concrete_types: type_option_views(self.concrete_types@),
        }
    }
}

/// The views of a list of declared functions.
pub open spec fn signature_views(v: Seq<RustFunctionSignature>) -> Seq<
    RustFunctionSignatureView,
> {
    v.map_values(|s: RustFunctionSignature| s@)
}

/// A declared struct.
#[derive(Debug)]
pub struct RustStructDefinition {
    pub item: StructItem,
}

/// A declared enum.
#[derive(Debug)]
pub struct RustEnumDefinition {
    pub item: EnumItem,
}

/// The views of the items of a list of declared structs.
pub open spec fn struct_views(v: Seq<RustStructDefinition>) -> Seq<StructItemView> {
    v.map_values(|s: RustStructDefinition| s.item@)
}

/// The views of the items of a list of declared enums.
pub open spec fn enum_views(v: Seq<RustEnumDefinition>) -> Seq<EnumItemView> {
    v.map_values(|e: RustEnumDefinition| e.item@)
}

/// A method of an impl block that forwards to a Zig function.
#[derive(Debug)]
pub struct TraitMethod {
    pub name: String,
    pub sig: FnSignature,
    /// The Zig function that the method forwards to.
    pub zig_function: String,
    /// The method's body as written.
    pub body: Option<String>,
    /// The return type of the Zig function, where it is known.
    pub zig_return_type: Option<Output>,
    pub is_constructor: bool,
    pub is_destructor: bool,
}

pub struct TraitMethodView {
    pub name: Seq<char>,
    pub sig: FnSignatureView,
    pub zig_function: Seq<char>,
    pub body: Option<Seq<char>>,
    pub zig_return_type: Option<OutputView>,
    pub is_constructor: bool,
    pub is_destructor: bool,
}

impl View for TraitMethod {
    type V = TraitMethodView;

    open spec fn view(&self) -> TraitMethodView {
        TraitMethodView {
            name: self.name@,
            sig: self.sig@,
            zig_function: self.zig_function@,
            body: name_view(self.body),
            zig_return_type: match self.zig_return_type {
                Some(t) => Some(t@),
                None => None,
            },
            is_constructor: self.is_constructor,
            is_destructor: self.is_destructor,
        }
    }
}

/// The views of a list of methods.
pub open spec fn method_views(v: Seq<TraitMethod>) -> Seq<TraitMethodView> {
    v.map_values(|m: TraitMethod| m@)
}

/// The view of an optional method.
pub open spec fn method_view(m: Option<TraitMethod>) -> Option<TraitMethodView> {
    match m {
        Some(m) => Some(m@),
        None => None,
    }
}

/// An impl block whose methods forward to Zig: a trait impl, or the
/// inherent impl that holds the constructor and destructor of an opaque
/// type.
#[derive(Debug)]
pub struct RustTraitImpl {
    /// The implemented trait; empty for an inherent impl.
    pub trait_name: String,
    pub target_type: String,
    pub methods: Vec<TraitMethod>,
    /// The target type holds no state.
    pub is_zst: bool,
    /// The target type is an opaque handle to state on the Zig side.
    pub is_opaque: bool,
    pub constructor: Option<TraitMethod>,
    pub destructor: Option<TraitMethod>,
}

pub struct RustTraitImplView {
    pub trait_name: Seq<char>,
    pub target_type: Seq<char>,
    pub methods: Seq<TraitMethodView>,
    pub is_zst: bool,
    pub is_opaque: bool,
    pub constructor: Option<TraitMethodView>,
    pub destructor: Option<TraitMethodView>,
}

impl View for RustTraitImpl {
    type V = RustTraitImplView;

    open spec fn view(&self) -> RustTraitImplView {
        RustTraitImplView {
            trait_name: self.trait_name@,
            target_type: self.target_type@,
            methods: method_views(self.methods@),
            is_zst: self.is_zst,
            is_opaque: self.is_opaque,
            constructor: method_view(self.constructor),
            destructor: method_view(self.destructor),
        }
    }
}

/// The views of a list of impls.
pub open spec fn impl_views(v: Seq<RustTraitImpl>) -> Seq<RustTraitImplView> {
    v.map_values(|t: RustTraitImpl| t@)
}

/// The declarations of a block, by kind.
pub struct DefinitionsView {
    pub enums: Seq<EnumItemView>,
    pub structs: Seq<StructItemView>,
    pub signatures: Seq<RustFunctionSignatureView>,
    pub trait_impls: Seq<RustTraitImplView>,
}

/// No definition of any kind.
pub open spec fn no_definitions() -> DefinitionsView {
    DefinitionsView {
        enums: Seq::empty(),
        structs: Seq::empty(),
        signatures: Seq::empty(),
        trait_impls: Seq::empty(),
    }
}

/// The views of the four lists of definitions.
pub open spec fn definitions_view(
    d: (
        Vec<RustEnumDefinition>,
        Vec<RustStructDefinition>,
        Vec<RustFunctionSignature>,
        Vec<RustTraitImpl>,
    ),
) -> DefinitionsView {
    DefinitionsView {
        enums: enum_views(d.0@),
        structs: struct_views(d.1@),
        signatures: signature_views(d.2@),
        trait_impls: impl_views(d.3@),
    }
}

/// What an inline block holds.
#[derive(Debug)]
pub struct AutoZigConfig {
    /// The Zig code.
    pub zig_code: String,
    /// The path of an external Zig file, where the block refers to one.
    pub external_file: Option<String>,
    pub rust_signatures: Vec<RustFunctionSignature>,
    pub rust_structs: Vec<RustStructDefinition>,
    pub rust_enums: Vec<RustEnumDefinition>,
    pub rust_trait_impls: Vec<RustTraitImpl>,
}

/// What a reference to an external Zig file holds.
#[derive(Debug)]
pub struct IncludeZigConfig {
    /// The path of the Zig file, relative to the manifest directory.
    pub file_path: String,
    pub rust_signatures: Vec<RustFunctionSignature>,
    pub rust_structs: Vec<RustStructDefinition>,
    pub rust_enums: Vec<RustEnumDefinition>,
    pub rust_trait_impls: Vec<RustTraitImpl>,
}

} // verus!
