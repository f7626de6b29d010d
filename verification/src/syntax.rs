//! The syntax that the declaration half of a block is made of.
//!
//! These types hold what the library reads of a parsed declaration: names,
//! shapes, and the text of what it only hands on.

use vstd::prelude::*;
use crate::scanner::name_view;

verus! {

/// A type, by its shape.
#[derive(Debug)]
pub enum TypeExpr {
    /// A path such as `i32` or `std::ffi::c_void`.
    Path {
        /// The path as written.
        text: String,
        /// The identifier, where the path is nothing but one.
        ident: Option<String>,
        /// The identifier of the last segment.
        last_segment: Option<String>,
    },
    /// A reference `&T` or `&mut T`.
    Reference { lifetime: Option<String>, mutable: bool, elem: Box<TypeExpr> },
    /// A slice `[T]`.
    Slice { elem: Box<TypeExpr> },
    /// Any other type, as written.
    Other { text: String },
}

pub enum TypeExprView {
    Path { text: Seq<char>, ident: Option<Seq<char>>, last_segment: Option<Seq<char>> },
    Reference { lifetime: Option<Seq<char>>, mutable: bool, elem: Box<TypeExprView> },
    Slice { elem: Box<TypeExprView> },
    Other { text: Seq<char> },
}

impl View for TypeExpr {
    type V = TypeExprView;

    open spec fn view(&self) -> TypeExprView
        decreases self,
    {
        match self {
            TypeExpr::Path { text, ident, last_segment } => TypeExprView::Path {
                text: text@,
                ident: name_view(*ident),
                last_segment: name_view(*last_segment),
            },
            TypeExpr::Reference { lifetime, mutable, elem } => TypeExprView::Reference {
                lifetime: name_view(*lifetime),
                mutable: *mutable,
                elem: Box::new((**elem)@),
            },
            TypeExpr::Slice { elem } => TypeExprView::Slice { elem: Box::new((**elem)@) },
            TypeExpr::Other { text } => TypeExprView::Other { text: text@ },
        }
    }
}

pub(crate) fn copy_name(name: &Option<String>) -> (r: Option<String>)
    ensures
        name_view(r) == name_view(*name),
{
    match name {
        Some(n) => Some(n.clone()),
        None => None,
    }
}

/// The type as source text.
pub open spec fn type_text(ty: TypeExprView) -> Seq<char>
    decreases ty,
{
    match ty {
        TypeExprView::Path { text, .. } => text,
        TypeExprView::Reference { lifetime, mutable, elem } => "&"@ + (match lifetime {
            Some(l) => l + " "@,
            None => Seq::empty(),
        }) + (if mutable {
            "mut "@
        } else {
            Seq::empty()
        }) + type_text(*elem),
        TypeExprView::Slice { elem } => "["@ + type_text(*elem) + "]"@,
        TypeExprView::Other { text } => text,
    }
}

impl TypeExpr {
    /// A copy with the same view.
    pub fn duplicate(&self) -> (r: TypeExpr)
        ensures
            r@ == self@,
        decreases self,
    {
        match self {
            TypeExpr::Path { text, ident, last_segment } => TypeExpr::Path {
                text: text.clone(),
                ident: copy_name(ident),
                last_segment: copy_name(last_segment),
            },
            TypeExpr::Reference { lifetime, mutable, elem } => TypeExpr::Reference {
                lifetime: copy_name(lifetime),
                mutable: *mutable,
                elem: Box::new(elem.duplicate()),
            },
            TypeExpr::Slice { elem } => TypeExpr::Slice { elem: Box::new(elem.duplicate()) },
            TypeExpr::Other { text } => TypeExpr::Other { text: text.clone() },
        }
    }

    /// The type as source text.
    pub fn render(&self) -> (out: String)
        ensures
            out@ == type_text(self@),
        decreases self,
    {
        match self {
            TypeExpr::Path { text, .. } => text.clone(),
            TypeExpr::Reference { lifetime, mutable, elem } => {
                let mut out = String::new();
                out.append("&");
                if let Some(l) = lifetime {
                    out.append(l.as_str());
                    out.append(" ");
                }
                if *mutable {
                    out.append("mut ");
                }
                out.append(elem.render().as_str());
                out
            },
            TypeExpr::Slice { elem } => {
                let mut out = String::new();
                out.append("[");
                out.append(elem.render().as_str());
                out.append("]");
                out
            },
            TypeExpr::Other { text } => text.clone(),
        }
    }
}

/// An expression, as far as the search for a forwarded call looks into it.
#[derive(Debug)]
pub enum BodyExpr {
    /// A call; `callee` names the function where it is called by a path.
    Call { callee: Option<String> },
    Block { stmts: Vec<BodyStmt> },
    If { cond: Box<BodyExpr>, then_branch: Vec<BodyStmt>, else_branch: Option<Box<BodyExpr>> },
    /// A `let` used as a condition; `expr` is what it matches on.
    Let { expr: Box<BodyExpr> },
    Other,
}

/// A statement of a block.
#[derive(Debug)]
pub enum BodyStmt {
    Expr(BodyExpr),
    /// A `let` binding with its initializer.
    Local { init: Option<BodyExpr> },
    Other,
}

/// The name of the first function called in the expression: that of a
/// call itself, else the first found in a block's statements, in the
/// condition, the then-branch and the else-branch of an `if`, or in what a
/// `let` matches on.
pub open spec fn callee_in_expr(e: BodyExpr) -> Option<Seq<char>>
    decreases e, 0int,
{
    match e {
        BodyExpr::Call { callee } => name_view(callee),
        BodyExpr::Block { stmts } => callee_in_stmts(stmts@, 0),
        BodyExpr::If { cond, then_branch, else_branch } => match callee_in_expr(*cond) {
            Some(f) => Some(f),
            None => match callee_in_stmts(then_branch@, 0) {
                Some(f) => Some(f),
                None => match else_branch {
                    Some(other) => callee_in_expr(*other),
                    None => None,
                },
            },
        },
        BodyExpr::Let { expr } => callee_in_expr(*expr),
        BodyExpr::Other => None,
    }
}

/// The name of the first function called in the statement.
pub open spec fn callee_in_stmt(s: BodyStmt) -> Option<Seq<char>>
    decreases s, 0int,
{
    match s {
        BodyStmt::Expr(e) => callee_in_expr(e),
        BodyStmt::Local { init } => match init {
            Some(e) => callee_in_expr(e),
            None => None,
        },
        BodyStmt::Other => None,
    }
}

/// The name of the first function called in the statements from `i` on.
pub open spec fn callee_in_stmts(stmts: Seq<BodyStmt>, i: int) -> Option<Seq<char>>
    decreases stmts, stmts.len() - i,
{
    if i < 0 || i >= stmts.len() {
        None
    } else {
        match callee_in_stmt(stmts[i]) {
            Some(f) => Some(f),
            None => callee_in_stmts(stmts, i + 1),
        }
    }
}

/// Finds the Zig function that an expression forwards to.
pub fn extract_zig_function_from_expr(expr: &BodyExpr) -> (r: Option<String>)
    ensures
        name_view(r) == callee_in_expr(*expr),
    decreases expr, 0int,
{
    match expr {
        BodyExpr::Call { callee } => copy_name(callee),
        BodyExpr::Block { stmts } => extract_zig_function_from_stmts(stmts, 0),
        BodyExpr::If { cond, then_branch, else_branch } => {
            if let Some(f) = extract_zig_function_from_expr(cond) {
                return Some(f);
            }
            if let Some(f) = extract_zig_function_from_stmts(then_branch, 0) {
                return Some(f);
            }
            match else_branch {
                Some(other) => extract_zig_function_from_expr(other),
                None => None,
            }
        },
        BodyExpr::Let { expr } => extract_zig_function_from_expr(expr),
        BodyExpr::Other => None,
    }
}

/// Finds the Zig function that a statement forwards to.
pub fn extract_zig_function_from_stmt(stmt: &BodyStmt) -> (r: Option<String>)
    ensures
        name_view(r) == callee_in_stmt(*stmt),
    decreases stmt, 0int,
{
    match stmt {
        BodyStmt::Expr(e) => extract_zig_function_from_expr(e),
        BodyStmt::Local { init } => match init {
            Some(e) => extract_zig_function_from_expr(e),
            None => None,
        },
        BodyStmt::Other => None,
    }
}

fn extract_zig_function_from_stmts(stmts: &Vec<BodyStmt>, from: usize) -> (r: Option<String>)
    ensures
        name_view(r) == callee_in_stmts(stmts@, from as int),
    decreases stmts, stmts@.len() - from,
{
    if from >= stmts.len() {
        None
    } else {
        match extract_zig_function_from_stmt(&stmts[from]) {
            Some(f) => Some(f),
            None => extract_zig_function_from_stmts(stmts, from + 1),
        }
    }
}

/// Finds the Zig function that a method body forwards to: the first
/// function called in its statements.
pub fn extract_zig_function_call(block: &Vec<BodyStmt>) -> (r: Option<String>)
    ensures
        name_view(r) == callee_in_stmts(block@, 0),
{
    extract_zig_function_from_stmts(block, 0)
}

// ---------------------------------------------------------------------------
// Signatures
// ---------------------------------------------------------------------------

/// The return type of a function.
#[derive(Debug)]
pub enum Output {
    /// None is written: the function returns `()`.
    Default,
    Type(TypeExpr),
}

pub enum OutputView {
    Default,
    Type(TypeExprView),
}

impl View for Output {
    type V = OutputView;

    open spec fn view(&self) -> OutputView {
        match self {
            Output::Default => OutputView::Default,
            Output::Type(t) => OutputView::Type(t@),
        }
    }
}

/// The return type as source text: empty, or an arrow and the type.
pub open spec fn output_text(output: OutputView) -> Seq<char> {
    match output {
        OutputView::Default => Seq::empty(),
        OutputView::Type(t) => "-> "@ + type_text(t),
    }
}

impl Output {
    /// A copy with the same view.
    pub fn duplicate(&self) -> (r: Output)
        ensures
            r@ == self@,
    {
        match self {
            Output::Default => Output::Default,
            Output::Type(t) => Output::Type(t.duplicate()),
        }
    }

    /// The source text.
    pub fn render(&self) -> (out: String)
        ensures
            out@ == output_text(self@),
    {
        match self {
            Output::Default => String::new(),
            Output::Type(t) => {
                let mut out = String::new();
                out.append("-> ");
                out.append(t.render().as_str());
                out
            },
        }
    }
}

/// One parameter of a function.
#[derive(Debug)]
pub enum Param {
    /// `self` in one of its forms, as written.
    Receiver { text: String, mutable: bool },
    /// A parameter `pattern: ty`; `name` is the pattern's identifier where
    /// the pattern is one.
    Typed { pattern: String, name: Option<String>, ty: TypeExpr },
}

pub enum ParamView {
    Receiver { text: Seq<char>, mutable: bool },
    Typed { pattern: Seq<char>, name: Option<Seq<char>>, ty: TypeExprView },
}

impl View for Param {
    type V = ParamView;

    open spec fn view(&self) -> ParamView {
        match self {
            Param::Receiver { text, mutable } => ParamView::Receiver {
                text: text@,
                mutable: *mutable,
            },
            Param::Typed { pattern, name, ty } => ParamView::Typed {
                pattern: pattern@,
                name: name_view(*name),
                ty: ty@,
            },
        }
    }
}

/// The views of a list of parameters.
pub open spec fn arg_views(v: Seq<Param>) -> Seq<ParamView> {
    v.map_values(|a: Param| a@)
}

/// The parameter as source text.
pub open spec fn arg_text(arg: ParamView) -> Seq<char> {
    match arg {
        ParamView::Receiver { text, .. } => text,
        ParamView::Typed { pattern, ty, .. } => pattern + ": "@ + type_text(ty),
    }
}

/// The first `n` parameters as source text, separated by `, `.
pub open spec fn inputs_text(inputs: Seq<ParamView>, n: int) -> Seq<char>
    decreases n,
{
    if n <= 0 {
        Seq::empty()
    } else if n == 1 {
        arg_text(inputs[0])
    } else {
        inputs_text(inputs, n - 1) + ", "@ + arg_text(inputs[n - 1])
    }
}

impl Param {
    /// A copy with the same view.
    pub fn duplicate(&self) -> (r: Param)
        ensures
            r@ == self@,
    {
        match self {
            Param::Receiver { text, mutable } => Param::Receiver {
                text: text.clone(),
                mutable: *mutable,
            },
            Param::Typed { pattern, name, ty } => Param::Typed {
                pattern: pattern.clone(),
                name: copy_name(name),
                ty: ty.duplicate(),
            },
        }
    }

    /// The source text.
    pub fn render(&self) -> (out: String)
        ensures
            out@ == arg_text(self@),
    {
        match self {
            Param::Receiver { text, .. } => text.clone(),
            Param::Typed { pattern, ty, .. } => {
                let mut out = pattern.clone();
                out.append(": ");
                out.append(ty.render().as_str());
                out
            },
        }
    }
}

/// A bound on a type parameter.
#[derive(Debug)]
pub enum BoundDecl {
    /// A trait bound; `last_segment` is the trait's own name.
    Trait { last_segment: Option<String> },
    /// A lifetime or any other bound.
    Other,
}

pub enum BoundDeclView {
    Trait { last_segment: Option<Seq<char>> },
    Other,
}

impl View for BoundDecl {
    type V = BoundDeclView;

    open spec fn view(&self) -> BoundDeclView {
        match self {
            BoundDecl::Trait { last_segment } => BoundDeclView::Trait {
                last_segment: name_view(*last_segment),
            },
            BoundDecl::Other => BoundDeclView::Other,
        }
    }
}

/// The views of a list of bounds.
pub open spec fn bound_views(v: Seq<BoundDecl>) -> Seq<BoundDeclView> {
    v.map_values(|b: BoundDecl| b@)
}

/// A generic parameter of a function.
#[derive(Debug)]
pub enum GenericDecl {
    Type { name: String, bounds: Vec<BoundDecl> },
    /// A lifetime or const parameter.
    Other,
}

pub enum GenericDeclView {
    Type { name: Seq<char>, bounds: Seq<BoundDeclView> },
    Other,
}

impl View for GenericDecl {
    type V = GenericDeclView;

    open spec fn view(&self) -> GenericDeclView {
        match self {
            GenericDecl::Type { name, bounds } => GenericDeclView::Type {
                name: name@,
                bounds: bound_views(bounds@),
            },
            GenericDecl::Other => GenericDeclView::Other,
        }
    }
}

/// The views of a list of generic parameters.
pub open spec fn generic_views(v: Seq<GenericDecl>) -> Seq<GenericDeclView> {
    v.map_values(|g: GenericDecl| g@)
}

impl GenericDecl {
    /// A copy with the same view.
    pub fn duplicate(&self) -> (r: GenericDecl)
        ensures
            r@ == self@,
    {
        match self {
            GenericDecl::Type { name, bounds } => {
                let mut copy: Vec<BoundDecl> = Vec::new();
                let mut i: usize = 0;
                while i < bounds.len()
                    invariant
                        i <= bounds@.len(),
                        bound_views(copy@) == bound_views(bounds@).take(i as int),
                    decreases bounds.len() - i,
                {
                    let b = match &bounds[i] {
                        BoundDecl::Trait { last_segment } => BoundDecl::Trait {
                            last_segment: copy_name(last_segment),
                        },
                        BoundDecl::Other => BoundDecl::Other,
                    };
                    copy.push(b);
                    assert(bound_views(bounds@).take(i + 1) =~= bound_views(bounds@).take(
                        i as int,
                    ).push(bounds@[i as int]@));
                    i += 1;
                }
                assert(bound_views(bounds@).take(bounds@.len() as int) =~= bound_views(bounds@));
                GenericDecl::Type { name: name.clone(), bounds: copy }
            },
            GenericDecl::Other => GenericDecl::Other,
        }
    }
}

/// The signature of a function.
#[derive(Debug)]
pub struct FnSignature {
    pub name: String,
    pub is_async: bool,
    pub generics: Vec<GenericDecl>,
    pub inputs: Vec<Param>,
    pub output: Output,
}

pub struct FnSignatureView {
    pub name: Seq<char>,
    pub is_async: bool,
    pub generics: Seq<GenericDeclView>,
    pub inputs: Seq<ParamView>,
    pub output: OutputView,
}

impl View for FnSignature {
    type V = FnSignatureView;

    open spec fn view(&self) -> FnSignatureView {
        FnSignatureView {
            name: self.name@,
            is_async: self.is_async,
            generics: generic_views(self.generics@),
            inputs: arg_views(self.inputs@),
            output: self.output@,
        }
    }
}

pub(crate) fn copy_args(inputs: &Vec<Param>) -> (copy: Vec<Param>)
    ensures
        arg_views(copy@) == arg_views(inputs@),
{
    let mut copy: Vec<Param> = Vec::new();
    let mut i: usize = 0;
    while i < inputs.len()
        invariant
            i <= inputs@.len(),
            arg_views(copy@) == arg_views(inputs@).take(i as int),
        decreases inputs.len() - i,
    {
        copy.push(inputs[i].duplicate());
        assert(arg_views(inputs@).take(i + 1) =~= arg_views(inputs@).take(i as int).push(
            inputs@[i as int]@,
        ));
        i += 1;
    }
    copy
}

/// The parameters as source text, separated by `, `.
pub fn render_inputs(inputs: &Vec<Param>) -> (out: String)
    ensures
        out@ == inputs_text(arg_views(inputs@), inputs@.len() as int),
{
    let mut out = String::new();
    let mut i: usize = 0;
    while i < inputs.len()
        invariant
            i <= inputs@.len(),
            out@ == inputs_text(arg_views(inputs@), i as int),
        decreases inputs.len() - i,
    {
        if i > 0 {
            out.append(", ");
        }
        out.append(inputs[i].render().as_str());
        i += 1;
    }
    out
}

impl FnSignature {
    /// A copy with the same view.
    pub fn duplicate(&self) -> (r: FnSignature)
        ensures
            r@ == self@,
    {
        let mut generics: Vec<GenericDecl> = Vec::new();
        let mut i: usize = 0;
        while i < self.generics.len()
            invariant
                i <= self.generics@.len(),
                generic_views(generics@) == generic_views(self.generics@).take(i as int),
            decreases self.generics.len() - i,
        {
            generics.push(self.generics[i].duplicate());
            assert(generic_views(self.generics@).take(i + 1) =~= generic_views(
                self.generics@,
            ).take(i as int).push(self.generics@[i as int]@));
            i += 1;
        }
        assert(generic_views(self.generics@).take(self.generics@.len() as int) =~= generic_views(
            self.generics@,
        ));
        FnSignature {
            name: self.name.clone(),
            is_async: self.is_async,
            generics,
            inputs: copy_args(&self.inputs),
            output: self.output.duplicate(),
        }
    }
}

// ---------------------------------------------------------------------------
// Items
// ---------------------------------------------------------------------------

/// What an attribute holds behind its path.
#[derive(Debug)]
pub enum AttrMeta {
    /// Nothing: `#[name]`.
    Path,
    /// A delimited list: `#[name(tokens)]`.
    List { tokens: String },
    /// A value: `#[name = value]`.
    NameValue,
}

/// An attribute.
#[derive(Debug)]
pub struct Attr {
    /// The identifier, where the attribute's path is nothing but one.
    pub name: Option<String>,
    pub meta: AttrMeta,
}

/// The fields of a struct, by their form.
#[derive(Debug)]
pub enum Fields {
    Named,
    /// The types of the fields of a tuple struct.
    Unnamed(Vec<TypeExpr>),
    Unit,
}

/// A struct definition.
#[derive(Debug)]
pub struct StructItem {
    pub name: String,
    pub fields: Fields,
    /// The definition as written.
    pub text: String,
}

pub enum FieldsView {
    Named,
    Unnamed(Seq<TypeExprView>),
    Unit,
}

/// The views of a list of types.
pub open spec fn type_views(v: Seq<TypeExpr>) -> Seq<TypeExprView> {
    v.map_values(|t: TypeExpr| t@)
}

impl View for Fields {
    type V = FieldsView;

    open spec fn view(&self) -> FieldsView {
        match self {
            Fields::Named => FieldsView::Named,
            Fields::Unnamed(tys) => FieldsView::Unnamed(type_views(tys@)),
            Fields::Unit => FieldsView::Unit,
        }
    }
}

pub struct StructItemView {
    pub name: Seq<char>,
    pub fields: FieldsView,
    pub text: Seq<char>,
}

impl View for StructItem {
    type V = StructItemView;

    open spec fn view(&self) -> StructItemView {
        StructItemView { name: self.name@, fields: self.fields@, text: self.text@ }
    }
}

impl StructItem {
    /// A copy with the same view.
    pub fn duplicate(&self) -> (r: StructItem)
        ensures
            r@ == self@,
    {
        let fields = match &self.fields {
            Fields::Named => Fields::Named,
            Fields::Unnamed(tys) => {
                let mut copy: Vec<TypeExpr> = Vec::new();
                let mut i: usize = 0;
                while i < tys.len()
                    invariant
                        i <= tys@.len(),
                        type_views(copy@) == type_views(tys@).take(i as int),
                    decreases tys.len() - i,
                {
                    copy.push(tys[i].duplicate());
                    assert(type_views(tys@).take(i + 1) =~= type_views(tys@).take(i as int).push(
                        tys@[i as int]@,
                    ));
                    i += 1;
                }
                assert(type_views(tys@).take(tys@.len() as int) =~= type_views(tys@));
                Fields::Unnamed(copy)
            },
            Fields::Unit => Fields::Unit,
        };
        StructItem { name: self.name.clone(), fields, text: self.text.clone() }
    }
}

/// An enum definition.
#[derive(Debug)]
pub struct EnumItem {
    pub name: String,
    /// The definition as written.
    pub text: String,
}

pub struct EnumItemView {
    pub name: Seq<char>,
    pub text: Seq<char>,
}

impl View for EnumItem {
    type V = EnumItemView;

    open spec fn view(&self) -> EnumItemView {
        EnumItemView { name: self.name@, text: self.text@ }
    }
}

impl EnumItem {
    /// A copy with the same view.
    pub fn duplicate(&self) -> (r: EnumItem)
        ensures
            r@ == self@,
    {
        EnumItem { name: self.name.clone(), text: self.text.clone() }
    }
}

/// A function declaration: its attributes and its signature.
#[derive(Debug)]
pub struct FnItem {
    pub attrs: Vec<Attr>,
    pub sig: FnSignature,
}

/// A method of an impl block.
#[derive(Debug)]
pub struct ImplMethod {
    pub attrs: Vec<Attr>,
    pub sig: FnSignature,
    /// The statements of the body.
    pub body: Vec<BodyStmt>,
    /// The body as written, braces included.
    pub body_text: String,
}

/// An item of an impl block.
#[derive(Debug)]
pub enum ImplEntry {
    /// A method.
    Fn(ImplMethod),
    /// A constant, a type or any other item.
    Other,
}

/// The trait that an impl block implements.
#[derive(Debug)]
pub struct TraitRef {
    /// The trait's own name: the last segment of its path.
    pub last_segment: Option<String>,
}

/// An impl block.
#[derive(Debug)]
pub struct ImplBlock {
    /// The implemented trait; none for an inherent impl.
    pub implements: Option<TraitRef>,
    pub self_ty: TypeExpr,
    /// The items of the block, in order.
    pub items: Vec<ImplEntry>,
}

/// An item of a foreign module.
#[derive(Debug)]
pub enum ForeignItem {
    Fn(FnItem),
    Other,
}

/// An item of the declaration half.
#[derive(Debug)]
pub enum Decl {
    Enum(EnumItem),
    Struct(StructItem),
    Fn(FnItem),
    Impl(ImplBlock),
    ForeignMod(Vec<ForeignItem>),
    /// Tokens that are no item of a known form.
    Verbatim(String),
    /// A module, with its items where it has a body.
    Mod { content: Option<Vec<Decl>> },
    Other,
}

} // verus!
