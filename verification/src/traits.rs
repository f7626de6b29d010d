//! Generating the types and the impls of impl blocks: unit structs for
//! stateless targets; for opaque handles the owning struct, its
//! constructor and its destructor; and the methods that forward to Zig.

use vstd::prelude::*;
use crate::text::{has_suffix, is};
use crate::edit::{join_strings, joined, string_views};
use crate::bridge::spaced;
use crate::idl::{
    impl_views, method_views, AutoZigConfig, IncludeZigConfig, RustTraitImpl, RustTraitImplView,
    TraitMethod, TraitMethodView,
};
use crate::lowering::{call_args_upto, lower_args, NativeParamView, NativeTypeView};
use crate::parser::target_types;
use crate::scanner::same_text;
use crate::syntax::{arg_text, arg_views, inputs_text, output_text, render_inputs, FnSignature, Param, ParamView};
use crate::config::unique_mod_name;

verus! {

// ---------------------------------------------------------------------------
// Types
// ---------------------------------------------------------------------------

/// The struct of an opaque handle: it owns a non-null pointer to the state
/// on the Zig side and can be neither copied nor shared.
pub open spec fn opaque_struct_text(name: Seq<char>) -> Seq<char> {
    "pub struct "@ + name + " {\n    inner: std::ptr::NonNull<std::ffi::c_void>,\n"@
        + "    _marker: std::marker::PhantomData<*mut ()>,\n}\n"@ + "impl Default for "@ + name
        + " {\n    fn default() -> Self {\n        Self::new()\n    }\n}\n"@
}

/// The struct of a stateless target.
pub open spec fn unit_struct_text(name: Seq<char>) -> Seq<char> {
    "#[derive(Default, Debug, Clone, Copy)]\npub struct "@ + name + ";\n"@
}

/// The type that is generated for the target of an impl.
pub open spec fn target_definition(t: RustTraitImplView) -> Seq<char> {
    if t.is_opaque {
        opaque_struct_text(t.target_type)
    } else if t.is_zst {
        unit_struct_text(t.target_type)
    } else {
        Seq::empty()
    }
}

/// The types generated for the targets of the first `n` impls: each target
/// type once, at its first impl.
pub open spec fn target_definitions(impls: Seq<RustTraitImplView>, n: int) -> Seq<char>
    decreases n,
{
    if n <= 0 {
        Seq::empty()
    } else {
        let rest = target_definitions(impls, n - 1);
        if target_types(impls).take(n - 1).contains(impls[n - 1].target_type) {
            rest
        } else {
            rest + target_definition(impls[n - 1])
        }
    }
}

/// The struct of an opaque handle.
pub fn generate_opaque_struct(target_name: &str) -> (out: String)
    ensures
        out@ == opaque_struct_text(target_name@),
{
    let mut out = String::new();
    out.append("pub struct ");
    out.append(target_name);
    out.append(" {\n    inner: std::ptr::NonNull<std::ffi::c_void>,\n");
    out.append("    _marker: std::marker::PhantomData<*mut ()>,\n}\n");
    out.append("impl Default for ");
    out.append(target_name);
    out.append(" {\n    fn default() -> Self {\n        Self::new()\n    }\n}\n");
    assert(out@ =~= opaque_struct_text(target_name@));
    out
}

fn unit_struct(target_name: &str) -> (out: String)
    ensures
        out@ == unit_struct_text(target_name@),
{
    let mut out = String::new();
    out.append("#[derive(Default, Debug, Clone, Copy)]\npub struct ");
    out.append(target_name);
    out.append(";\n");
    out
}

fn targeted_before(impls: &Vec<RustTraitImpl>, i: usize) -> (b: bool)
    requires
        i < impls@.len(),
    ensures
        b == target_types(impl_views(impls@)).take(i as int).contains(
            impls@[i as int].target_type@,
        ),
{
    let ghost names = target_types(impl_views(impls@)).take(i as int);
    let mut k: usize = 0;
    while k < i
        invariant
            k <= i < impls@.len(),
            names == target_types(impl_views(impls@)).take(i as int),
            forall|m: int| 0 <= m < k ==> names[m] != impls@[i as int].target_type@,
        decreases i - k,
    {
        assert(names[k as int] == impls@[k as int].target_type@);
        if same_text(impls[k].target_type.as_str(), impls[i].target_type.as_str()) {
            return true;
        }
        k += 1;
    }
    false
}

fn write_target_definitions(impls: &Vec<RustTraitImpl>) -> (out: String)
    ensures
        out@ == target_definitions(impl_views(impls@), impls@.len() as int),
{
    let mut out = String::new();
    let mut i: usize = 0;
    while i < impls.len()
        invariant
            i <= impls@.len(),
            out@ == target_definitions(impl_views(impls@), i as int),
        decreases impls.len() - i,
    {
        assert(impl_views(impls@)[i as int] == impls@[i as int]@);
        if !targeted_before(impls, i) {
            if impls[i].is_opaque {
                out.append(generate_opaque_struct(impls[i].target_type.as_str()).as_str());
            } else if impls[i].is_zst {
                out.append(unit_struct(impls[i].target_type.as_str()).as_str());
            }
        }
        i += 1;
    }
    out
}

/// The types for the targets of the impls of an inline block.
pub fn generate_trait_impl_types(config: &AutoZigConfig) -> (out: String)
    ensures
        out@ == target_definitions(
            impl_views(config.rust_trait_impls@),
            config.rust_trait_impls@.len() as int,
        ),
{
    write_target_definitions(&config.rust_trait_impls)
}

/// The unit structs for the stateless targets among the first `n` impls.
pub open spec fn unit_structs(impls: Seq<RustTraitImplView>, n: int) -> Seq<char>
    decreases n,
{
    if n <= 0 {
        Seq::empty()
    } else {
        unit_structs(impls, n - 1) + (if impls[n - 1].is_zst {
            unit_struct_text(impls[n - 1].target_type)
        } else {
            Seq::empty()
        })
    }
}

/// The types for the targets of the impls of an external reference: a
/// unit struct for each stateless impl.
pub fn generate_trait_impl_types_for_include(config: &IncludeZigConfig) -> (out: String)
    ensures
        out@ == unit_structs(
            impl_views(config.rust_trait_impls@),
            config.rust_trait_impls@.len() as int,
        ),
{
    let impls = &config.rust_trait_impls;
    let mut out = String::new();
    let mut i: usize = 0;
    while i < config.rust_trait_impls.len()
        invariant
            i <= config.rust_trait_impls@.len(),
            out@ == unit_structs(impl_views(config.rust_trait_impls@), i as int),
        decreases config.rust_trait_impls.len() - i,
    {
        assert(impl_views(config.rust_trait_impls@)[i as int] == config.rust_trait_impls@[i as int]@);
        if config.rust_trait_impls[i].is_zst {
            out.append(unit_struct(config.rust_trait_impls[i].target_type.as_str()).as_str());
        }
        i += 1;
    }
    out
}

// ---------------------------------------------------------------------------
// The handle pointer
// ---------------------------------------------------------------------------

/// Whether the first receiver among the parameters from `i` on is
/// mutable; none without a receiver.
pub open spec fn first_receiver(inputs: Seq<ParamView>, i: int) -> Option<bool>
    decreases inputs.len() - i,
{
    if i < 0 || i >= inputs.len() {
        None
    } else {
        match inputs[i] {
            ParamView::Receiver { mutable, .. } => Some(mutable),
            _ => first_receiver(inputs, i + 1),
        }
    }
}

/// The handle's pointer as the first argument of a native call: a mutable
/// pointer for a mutating receiver, a const pointer for any other.
pub open spec fn self_pointer_arg(inputs: Seq<ParamView>) -> Seq<char> {
    match first_receiver(inputs, 0) {
        Some(true) => "self.inner.as_ptr()"@,
        Some(false) => "self.inner.as_ptr() as *const std::ffi::c_void"@,
        None => Seq::empty(),
    }
}

/// The handle's pointer as the first native parameter.
pub open spec fn self_pointer_param(inputs: Seq<ParamView>) -> Seq<NativeParamView> {
    match first_receiver(inputs, 0) {
        Some(mutable) => seq![
            NativeParamView {
                name: "self_ptr"@,
                ty: NativeTypeView::Pointer { mutable, pointee: "std::ffi::c_void"@ },
            },
        ],
        None => Seq::empty(),
    }
}

pub(crate) fn receiver(inputs: &Vec<Param>) -> (r: Option<bool>)
    ensures
        r == first_receiver(arg_views(inputs@), 0),
{
    let mut i: usize = 0;
    while i < inputs.len()
        invariant
            i <= inputs@.len(),
            first_receiver(arg_views(inputs@), 0) == first_receiver(arg_views(inputs@), i as int),
        decreases inputs.len() - i,
    {
        assert(arg_views(inputs@)[i as int] == inputs@[i as int]@);
        if let Param::Receiver { mutable, .. } = &inputs[i] {
            return Some(*mutable);
        }
        i += 1;
    }
    None
}

/// The handle's pointer as the first argument of a native call.
pub fn inject_self_pointer(sig: &FnSignature) -> (out: String)
    ensures
        out@ == self_pointer_arg(sig@.inputs),
{
    match receiver(&sig.inputs) {
        Some(true) => "self.inner.as_ptr()".to_owned(),
        Some(false) => "self.inner.as_ptr() as *const std::ffi::c_void".to_owned(),
        None => String::new(),
    }
}

/// The handle's pointer as a native parameter, as written; empty without a
/// receiver.
pub open spec fn self_pointer_param_text(inputs: Seq<ParamView>) -> Seq<char> {
    match first_receiver(inputs, 0) {
        Some(true) => "self_ptr: *mut std::ffi::c_void"@,
        Some(false) => "self_ptr: *const std::ffi::c_void"@,
        None => Seq::empty(),
    }
}

/// The handle's pointer as the first parameter of a native declaration.
pub fn handle_receiver_type(sig: &FnSignature) -> (out: String)
    ensures
        out@ == self_pointer_param_text(sig@.inputs),
{
    match receiver(&sig.inputs) {
        Some(true) => "self_ptr: *mut std::ffi::c_void".to_owned(),
        Some(false) => "self_ptr: *const std::ffi::c_void".to_owned(),
        None => String::new(),
    }
}

// ---------------------------------------------------------------------------
// Constructor and destructor
// ---------------------------------------------------------------------------

/// The names of the typed parameters among the first `n` that have a
/// plain name.
pub open spec fn typed_names(inputs: Seq<ParamView>, n: int) -> Seq<Seq<char>>
    decreases n,
{
    if n <= 0 {
        Seq::empty()
    } else {
        let rest = typed_names(inputs, n - 1);
        match inputs[n - 1] {
            ParamView::Typed { name: Some(name), .. } => rest.push(name),
            _ => rest,
        }
    }
}

/// The typed parameters among the first `n`, each as written.
pub open spec fn typed_params(inputs: Seq<ParamView>, n: int) -> Seq<Seq<char>>
    decreases n,
{
    if n <= 0 {
        Seq::empty()
    } else {
        let rest = typed_params(inputs, n - 1);
        match inputs[n - 1] {
            ParamView::Typed { .. } => rest.push(arg_text(inputs[n - 1])),
            _ => rest,
        }
    }
}

/// The constructor of an opaque handle: it calls the allocation function
/// and takes the pointer it gets. A null pointer is fatal: no handle is
/// made of it.
pub open spec fn constructor_text(
    target_name: Seq<char>,
    constructor: TraitMethodView,
    module: Seq<char>,
) -> Seq<char> {
    let inputs = constructor.sig.inputs;
    "impl "@ + target_name + " {\n    pub fn "@ + constructor.name + "("@ + inputs_text(
        inputs,
        inputs.len() as int,
    ) + ") -> Self {\n        unsafe {\n            let ptr = "@ + module + "::"@
        + constructor.zig_function + "("@ + joined(typed_names(inputs, inputs.len() as int), ", "@)
        + ");\n            std::ptr::NonNull::new(ptr as *mut std::ffi::c_void)\n"@
        + "                .map(|inner| Self { inner, _marker: std::marker::PhantomData })\n"@
        + "                .expect(\"Zig allocation failed (OOM)\")\n        }\n    }\n}\n"@
}

/// How every generated constructor ends: the pointer that the allocation
/// function returned goes through `NonNull::new`, the handle is made of the
/// non-null pointer only, and a null pointer ends in `expect`.
pub open spec fn null_guard() -> Seq<char> {
    ");\n            std::ptr::NonNull::new(ptr as *mut std::ffi::c_void)\n"@
        + "                .map(|inner| Self { inner, _marker: std::marker::PhantomData })\n"@
        + "                .expect(\"Zig allocation failed (OOM)\")\n        }\n    }\n}\n"@
}

/// The text of every generated constructor ends with the null guard,
/// whatever the handle, the constructor and the module are.
pub proof fn law_constructor_ends_in_null_guard(
    target_name: Seq<char>,
    constructor: TraitMethodView,
    module: Seq<char>,
)
    ensures
        has_suffix(constructor_text(target_name, constructor, module), null_guard()),
{
    let text = constructor_text(target_name, constructor, module);
    assert(text.subrange(text.len() - null_guard().len(), text.len() as int) =~= null_guard());
}

/// The destructor of an opaque handle: dropping the handle frees the
/// state, once.
pub open spec fn drop_text(target_name: Seq<char>, destructor: TraitMethodView, module: Seq<char>) -> Seq<
    char,
> {
    "impl Drop for "@ + target_name
        + " {\n    fn drop(&mut self) {\n        unsafe {\n            "@ + module + "::"@
        + destructor.zig_function + "(self.inner.as_ptr());\n        }\n    }\n}\n"@
}

fn names_of_typed(inputs: &Vec<Param>) -> (names: Vec<String>)
    ensures
        string_views(names@) == typed_names(arg_views(inputs@), inputs@.len() as int),
{
    let mut names: Vec<String> = Vec::new();
    let mut i: usize = 0;
    while i < inputs.len()
        invariant
            i <= inputs@.len(),
            string_views(names@) == typed_names(arg_views(inputs@), i as int),
        decreases inputs.len() - i,
    {
        let ghost before = names@;
        assert(arg_views(inputs@)[i as int] == inputs@[i as int]@);
        if let Param::Typed { name, .. } = &inputs[i] {
            if let Some(n) = name {
                names.push(n.clone());
                assert(string_views(names@) =~= string_views(before).push(n@));
            }
        }
        i += 1;
    }
    names
}

/// The constructor of an opaque handle.
pub fn generate_constructor(target_name: &str, constructor: &TraitMethod, mod_name: &str) -> (out:
    String)
    ensures
        out@ == constructor_text(target_name@, constructor@, mod_name@),
{
    let mut out = String::new();
    out.append("impl ");
    out.append(target_name);
    out.append(" {\n    pub fn ");
    out.append(constructor.name.as_str());
    out.append("(");
    out.append(render_inputs(&constructor.sig.inputs).as_str());
    out.append(") -> Self {\n        unsafe {\n            let ptr = ");
    out.append(mod_name);
    out.append("::");
    out.append(constructor.zig_function.as_str());
    out.append("(");
    out.append(join_strings(&names_of_typed(&constructor.sig.inputs), ", ").as_str());
    out.append(");\n            std::ptr::NonNull::new(ptr as *mut std::ffi::c_void)\n");
    out.append("                .map(|inner| Self { inner, _marker: std::marker::PhantomData })\n");
    out.append("                .expect(\"Zig allocation failed (OOM)\")\n        }\n    }\n}\n");
    assert(out@ =~= constructor_text(target_name@, constructor@, mod_name@));
    out
}

/// The `Drop` impl of an opaque handle.
pub fn generate_drop_impl(target_name: &str, destructor: &TraitMethod, mod_name: &str) -> (out:
    String)
    ensures
        out@ == drop_text(target_name@, destructor@, mod_name@),
{
    let mut out = String::new();
    out.append("impl Drop for ");
    out.append(target_name);
    out.append(" {\n    fn drop(&mut self) {\n        unsafe {\n            ");
    out.append(mod_name);
    out.append("::");
    out.append(destructor.zig_function.as_str());
    out.append("(self.inner.as_ptr());\n        }\n    }\n}\n");
    assert(out@ =~= drop_text(target_name@, destructor@, mod_name@));
    out
}

// ---------------------------------------------------------------------------
// Methods
// ---------------------------------------------------------------------------

/// The arguments of the native call of a method: for an opaque target the
/// handle's pointer first, then the lowered parameters.
pub open spec fn method_args(inputs: Seq<ParamView>, opaque: bool) -> Seq<Seq<char>> {
    (if opaque && first_receiver(inputs, 0) is Some {
        seq![self_pointer_arg(inputs)]
    } else {
        Seq::empty()
    }) + call_args_upto(inputs, inputs.len() as int)
}

/// A method of a generated impl. A method of a stateless target keeps the
/// body it was written with; any other forwards to its Zig function.
pub open spec fn method_text(m: TraitMethodView, opaque: bool, keep_body: bool, module: Seq<char>) -> Seq<
    char,
> {
    let inputs = m.sig.inputs;
    let header = "    fn "@ + m.sig.name + "("@ + inputs_text(inputs, inputs.len() as int) + ")"@
        + spaced(output_text(m.sig.output));
    match m.body {
        Some(body) => if keep_body && !opaque {
            header + " {\n        unsafe "@ + body + "\n    }\n"@
        } else {
            header + " {\n        unsafe { "@ + module + "::"@ + m.zig_function + "("@ + joined(
                method_args(inputs, opaque),
                ", "@,
            ) + ") }\n    }\n"@
        },
        None => header + " {\n        unsafe { "@ + module + "::"@ + m.zig_function + "("@
            + joined(method_args(inputs, opaque), ", "@) + ") }\n    }\n"@,
    }
}

/// The first `n` methods of a generated impl.
pub open spec fn methods_text(
    methods: Seq<TraitMethodView>,
    opaque: bool,
    keep_body: bool,
    module: Seq<char>,
    n: int,
) -> Seq<char>
    decreases n,
{
    if n <= 0 {
        Seq::empty()
    } else {
        methods_text(methods, opaque, keep_body, module, n - 1) + method_text(
            methods[n - 1],
            opaque,
            keep_body,
            module,
        )
    }
}

/// The constructor of an impl, where it has one.
pub open spec fn constructor_part(t: RustTraitImplView, module: Seq<char>) -> Seq<char> {
    match t.constructor {
        Some(c) => constructor_text(t.target_type, c, module),
        None => Seq::empty(),
    }
}

/// The destructor of an impl, where it has one.
pub open spec fn destructor_part(t: RustTraitImplView, module: Seq<char>) -> Seq<char> {
    match t.destructor {
        Some(d) => drop_text(t.target_type, d, module),
        None => Seq::empty(),
    }
}

/// The trait impl with its methods; nothing for an inherent impl.
pub open spec fn trait_part(t: RustTraitImplView, module: Seq<char>) -> Seq<char> {
    if t.trait_name.len() == 0 {
        Seq::empty()
    } else {
        "impl "@ + t.trait_name + " for "@ + t.target_type + " {\n"@ + methods_text(
            t.methods,
            t.is_opaque,
            true,
            module,
            t.methods.len() as int,
        ) + "}\n"@
    }
}

/// What is generated for one impl: the constructor and the destructor,
/// where it has them, then, unless the impl is inherent, the trait impl
/// with its methods.
pub open spec fn impl_text(t: RustTraitImplView, module: Seq<char>) -> Seq<char> {
    constructor_part(t, module) + destructor_part(t, module) + trait_part(t, module)
}

/// What is generated for the first `n` impls.
pub open spec fn impls_text(impls: Seq<RustTraitImplView>, module: Seq<char>, n: int) -> Seq<char>
    decreases n,
{
    if n <= 0 {
        Seq::empty()
    } else {
        impls_text(impls, module, n - 1) + impl_text(impls[n - 1], module)
    }
}

fn arguments(sig: &FnSignature, opaque: bool) -> (args: Vec<String>)
    ensures
        string_views(args@) == method_args(sig@.inputs, opaque),
{
    let mut args: Vec<String> = Vec::new();
    if opaque && receiver(&sig.inputs).is_some() {
        args.push(inject_self_pointer(sig));
    }
    let ghost head = args@;
    let mut more = lower_args(&sig.inputs);
    let ghost tail = more@;
    args.append(&mut more);
    assert(string_views(args@) =~= string_views(head) + string_views(tail));
    assert(string_views(head) =~= if opaque && first_receiver(sig@.inputs, 0) is Some {
        seq![self_pointer_arg(sig@.inputs)]
    } else {
        Seq::<Seq<char>>::empty()
    });
    args
}

fn write_method(m: &TraitMethod, opaque: bool, keep_body: bool, module: &str) -> (out: String)
    ensures
        out@ == method_text(m@, opaque, keep_body, module@),
{
    let mut out = String::new();
    out.append("    fn ");
    out.append(m.sig.name.as_str());
    out.append("(");
    out.append(render_inputs(&m.sig.inputs).as_str());
    out.append(")");
    let output = m.sig.output.render();
    if output.as_str().unicode_len() > 0 {
        out.append(" ");
        out.append(output.as_str());
    }
    let ghost header = out@;
    assert(header =~= "    fn "@ + m@.sig.name + "("@ + inputs_text(
        m@.sig.inputs,
        m@.sig.inputs.len() as int,
    ) + ")"@ + spaced(output_text(m@.sig.output)));
    let kept = match &m.body {
        Some(body) => keep_body && !opaque,
        None => false,
    };
    if kept {
        if let Some(body) = &m.body {
            out.append(" {\n        unsafe ");
            out.append(body.as_str());
            out.append("\n    }\n");
            assert(out@ =~= header + " {\n        unsafe "@ + body@ + "\n    }\n"@);
        }
    } else {
        out.append(" {\n        unsafe { ");
        out.append(module);
        out.append("::");
        out.append(m.zig_function.as_str());
        out.append("(");
        out.append(join_strings(&arguments(&m.sig, opaque), ", ").as_str());
        out.append(") }\n    }\n");
        assert(out@ =~= header + " {\n        unsafe { "@ + module@ + "::"@ + m@.zig_function
            + "("@ + joined(method_args(m@.sig.inputs, opaque), ", "@) + ") }\n    }\n"@);
    }
    out
}

fn write_methods(methods: &Vec<TraitMethod>, opaque: bool, keep_body: bool, module: &str) -> (out:
    String)
    ensures
        out@ == methods_text(method_views(methods@), opaque, keep_body, module@, methods@.len() as int),
{
    let mut out = String::new();
    let mut i: usize = 0;
    while i < methods.len()
        invariant
            i <= methods@.len(),
            out@ == methods_text(method_views(methods@), opaque, keep_body, module@, i as int),
        decreases methods.len() - i,
    {
        assert(method_views(methods@)[i as int] == methods@[i as int]@);
        out.append(write_method(&methods[i], opaque, keep_body, module).as_str());
        i += 1;
    }
    out
}

fn write_trait_part(t: &RustTraitImpl, module: &str) -> (out: String)
    ensures
        out@ == trait_part(t@, module@),
{
    let mut out = String::new();
    if t.trait_name.as_str().unicode_len() > 0 {
        out.append("impl ");
        out.append(t.trait_name.as_str());
        out.append(" for ");
        out.append(t.target_type.as_str());
        out.append(" {\n");
        out.append(write_methods(&t.methods, t.is_opaque, true, module).as_str());
        out.append("}\n");
    }
    assert(out@ =~= trait_part(t@, module@));
    out
}

fn write_impl(t: &RustTraitImpl, module: &str) -> (out: String)
    ensures
        out@ == impl_text(t@, module@),
{
    let mut out = match &t.constructor {
        Some(c) => generate_constructor(t.target_type.as_str(), c, module),
        None => String::new(),
    };
    let destructor = match &t.destructor {
        Some(d) => generate_drop_impl(t.target_type.as_str(), d, module),
        None => String::new(),
    };
    out.append(destructor.as_str());
    out.append(write_trait_part(t, module).as_str());
    out
}

/// The constructors, destructors and trait impls of an inline block.
pub fn generate_trait_implementations(config: &AutoZigConfig) -> (out: String)
    ensures
        out@ == impls_text(
            impl_views(config.rust_trait_impls@),
            "ffi"@,
            config.rust_trait_impls@.len() as int,
        ),
{
    let mut out = String::new();
    let mut i: usize = 0;
    while i < config.rust_trait_impls.len()
        invariant
            i <= config.rust_trait_impls@.len(),
            out@ == impls_text(impl_views(config.rust_trait_impls@), "ffi"@, i as int),
        decreases config.rust_trait_impls.len() - i,
    {
        assert(impl_views(config.rust_trait_impls@)[i as int] == config.rust_trait_impls@[i as int]@);
        out.append(write_impl(&config.rust_trait_impls[i], config.get_mod_name()).as_str());
        i += 1;
    }
    out
}

/// The trait impl of an external reference: every method forwards to its
/// Zig function.
pub open spec fn forwarding_impl_text(t: RustTraitImplView, module: Seq<char>) -> Seq<char> {
    "impl "@ + t.trait_name + " for "@ + t.target_type + " {\n"@ + methods_text(
        t.methods,
        false,
        false,
        module,
        t.methods.len() as int,
    ) + "}\n"@
}

/// The trait impls of the first `n` impls of an external reference.
pub open spec fn forwarding_impls_text(
    impls: Seq<RustTraitImplView>,
    module: Seq<char>,
    n: int,
) -> Seq<char>
    decreases n,
{
    if n <= 0 {
        Seq::empty()
    } else {
        forwarding_impls_text(impls, module, n - 1) + forwarding_impl_text(impls[n - 1], module)
    }
}

/// The trait impls of an external reference.
pub fn generate_trait_implementations_for_include(config: &IncludeZigConfig) -> (out: String)
    ensures
        out@ == forwarding_impls_text(
            impl_views(config.rust_trait_impls@),
            unique_mod_name(config.file_path@),
            config.rust_trait_impls@.len() as int,
        ),
{
    let module = config.get_unique_mod_name();
    let mut out = String::new();
    let mut i: usize = 0;
    while i < config.rust_trait_impls.len()
        invariant
            i <= config.rust_trait_impls@.len(),
            module@ == unique_mod_name(config.file_path@),
            out@ == forwarding_impls_text(
                impl_views(config.rust_trait_impls@),
                module@,
                i as int,
            ),
        decreases config.rust_trait_impls.len() - i,
    {
        let t = &config.rust_trait_impls[i];
        assert(impl_views(config.rust_trait_impls@)[i as int] == t@);
        let ghost before = out@;
        out.append("impl ");
        out.append(t.trait_name.as_str());
        out.append(" for ");
        out.append(t.target_type.as_str());
        out.append(" {\n");
        out.append(write_methods(&t.methods, false, false, module.as_str()).as_str());
        out.append("}\n");
        assert(out@ =~= before + forwarding_impl_text(t@, module@));
        i += 1;
    }
    out
}

} // verus!
