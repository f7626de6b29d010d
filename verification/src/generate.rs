//! Generating the bindings of declared functions: the native declarations
//! and the safe wrappers.

use vstd::prelude::*;
use crate::bridge::{
    bridge, bridge_of, bridge_views, declaration_text, declarations_text, render_bridges,
    wrapper_text, wrappers_text, BridgeKind, BridgeSpec, BridgeSpecView,
};
use crate::expand::{
    expand_monomorphization, expansion_view, monomorphization_of, ExpandError, ExpandErrorView,
};
use crate::idl::{
    enum_views, signature_views, struct_views, AutoZigConfig, IncludeZigConfig,
    RustEnumDefinition, RustFunctionSignature, RustFunctionSignatureView, RustStructDefinition,
};
use crate::syntax::{EnumItemView, FnSignature, StructItemView};
use crate::config::unique_mod_name;

verus! {

/// The bridges that a declared function expands to. A generic function
/// with requested types gives one for each type, or the error of the
/// request; an asynchronous function gives an asynchronous bridge; any
/// other a plain one.
pub open spec fn expansion_of(s: RustFunctionSignatureView) -> Result<
    Seq<BridgeSpecView>,
    ExpandErrorView,
> {
    if s.generic_params.len() > 0 && s.monomorphize_types.len() > 0 {
        monomorphization_of(s.sig, s.monomorphize_types, s.concrete_types)
    } else if s.is_async {
        Ok(seq![bridge_of(s.sig.name, s.sig, BridgeKind::Async)])
    } else {
        Ok(seq![bridge_of(s.sig.name, s.sig, BridgeKind::Plain)])
    }
}

/// The bridges of the first `n` declared functions, in order, or the
/// error of the first that has no expansion.
pub open spec fn expansions_upto(sigs: Seq<RustFunctionSignatureView>, n: int) -> Result<
    Seq<BridgeSpecView>,
    ExpandErrorView,
>
    decreases n,
{
    if n <= 0 {
        Ok(Seq::empty())
    } else {
        match expansions_upto(sigs, n - 1) {
            Ok(a) => match expansion_of(sigs[n - 1]) {
                Ok(b) => Ok(a + b),
                Err(e) => Err(e),
            },
            Err(e) => Err(e),
        }
    }
}

/// Expands one declared function into its bridges.
pub fn expand(rust_sig: &RustFunctionSignature) -> (r: Result<Vec<BridgeSpec>, ExpandError>)
    ensures
        expansion_view(r) == expansion_of(rust_sig@),
{
    if rust_sig.generic_params.len() > 0 && rust_sig.monomorphize_types.len() > 0 {
        expand_monomorphization(rust_sig)
    } else {
        let kind = if rust_sig.is_async {
            BridgeKind::Async
        } else {
            BridgeKind::Plain
        };
        let mut bridges: Vec<BridgeSpec> = Vec::new();
        let b = bridge(rust_sig.sig.name.as_str(), &rust_sig.sig, kind);
        bridges.push(b);
        assert(bridge_views(bridges@) =~= seq![bridge_of(rust_sig@.sig.name, rust_sig@.sig, kind)]);
        Ok(bridges)
    }
}

/// Expands the declared functions into the list of all their bridges.
pub fn expand_all(signatures: &Vec<RustFunctionSignature>) -> (r: Result<
    Vec<BridgeSpec>,
    ExpandError,
>)
    ensures
        expansion_view(r) == expansions_upto(
            signature_views(signatures@),
            signatures@.len() as int,
        ),
{
    let mut all: Vec<BridgeSpec> = Vec::new();
    let mut i: usize = 0;
    let ghost sigs = signature_views(signatures@);
    assert(bridge_views(all@) =~= Seq::<BridgeSpecView>::empty());
    while i < signatures.len()
        invariant
            i <= signatures@.len(),
            sigs == signature_views(signatures@),
            expansions_upto(sigs, i as int) == Ok::<Seq<BridgeSpecView>, ExpandErrorView>(
                bridge_views(all@),
            ),
        decreases signatures.len() - i,
    {
        let ghost before = all@;
        match expand(&signatures[i]) {
            Ok(mut more) => {
                let ghost added = more@;
                all.append(&mut more);
                assert(bridge_views(all@) =~= bridge_views(before) + bridge_views(added));
            },
            Err(e) => {
                proof {
                    lemma_error_stays(sigs, i + 1, signatures@.len() as int);
                }
                return Err(e);
            },
        }
        i += 1;
    }
    Ok(all)
}

/// Once the list has an error, it keeps it.
proof fn lemma_error_stays(sigs: Seq<RustFunctionSignatureView>, m: int, n: int)
    requires
        m <= n,
        expansions_upto(sigs, m) is Err,
    ensures
        expansions_upto(sigs, n) == expansions_upto(sigs, m),
    decreases n - m,
{
    if m < n {
        lemma_error_stays(sigs, m, n - 1);
    }
}

/// The native declaration of a plain declared function.
pub fn generate_single_ffi_declaration(rust_sig: &RustFunctionSignature) -> (out: String)
    ensures
        out@ == declaration_text(bridge_of(rust_sig@.sig.name, rust_sig@.sig, BridgeKind::Plain)),
{
    bridge(rust_sig.sig.name.as_str(), &rust_sig.sig, BridgeKind::Plain).declaration()
}

/// The safe wrapper of a plain declared function.
pub fn generate_single_safe_wrapper(rust_sig: &RustFunctionSignature, mod_name: &str) -> (out:
    String)
    ensures
        out@ == wrapper_text(
            bridge_of(rust_sig@.sig.name, rust_sig@.sig, BridgeKind::Plain),
            mod_name@,
        ),
{
    bridge(rust_sig.sig.name.as_str(), &rust_sig.sig, BridgeKind::Plain).wrapper(mod_name)
}

/// The native declaration of a signature under the name `fn_name`.
pub fn generate_ffi_declaration_from_sig(fn_name: &str, sig: &FnSignature) -> (out: String)
    ensures
        out@ == declaration_text(bridge_of(fn_name@, sig@, BridgeKind::Monomorphized)),
{
    bridge(fn_name, sig, BridgeKind::Monomorphized).declaration()
}

/// The safe wrapper of a signature under the name `fn_name`.
pub fn generate_wrapper_from_sig(fn_name: &str, sig: &FnSignature, mod_name: &str) -> (out:
    String)
    ensures
        out@ == wrapper_text(bridge_of(fn_name@, sig@, BridgeKind::Monomorphized), mod_name@),
{
    bridge(fn_name, sig, BridgeKind::Monomorphized).wrapper(mod_name)
}

/// The native declaration and the wrapper of an asynchronous function.
/// The Zig side stays synchronous: the wrapper copies what it borrows,
/// runs the call on the pool of blocking workers and awaits it; a worker
/// that panics or is cancelled is fatal.
pub fn generate_async_ffi_and_wrapper(rust_sig: &RustFunctionSignature, mod_name: &str) -> (r: (
    String,
    String,
))
    ensures
        r.0@ == declaration_text(bridge_of(rust_sig@.sig.name, rust_sig@.sig, BridgeKind::Async)),
        r.1@ == wrapper_text(
            bridge_of(rust_sig@.sig.name, rust_sig@.sig, BridgeKind::Async),
            mod_name@,
        ),
{
    let b = bridge(rust_sig.sig.name.as_str(), &rust_sig.sig, BridgeKind::Async);
    (b.declaration(), b.wrapper(mod_name))
}

/// The texts of a list of bridges, or the error in place of the list.
pub open spec fn rendered(
    bridges: Result<Seq<BridgeSpecView>, ExpandErrorView>,
    module: Seq<char>,
) -> Result<(Seq<char>, Seq<char>), ExpandErrorView> {
    match bridges {
        Ok(bs) => Ok(
            (declarations_text(bs, bs.len() as int), wrappers_text(bs, module, bs.len() as int)),
        ),
        Err(e) => Err(e),
    }
}

/// The views of the two texts, or of the error.
pub open spec fn bindings_view(r: Result<(String, String), ExpandError>) -> Result<
    (Seq<char>, Seq<char>),
    ExpandErrorView,
> {
    match r {
        Ok((d, w)) => Ok((d@, w@)),
        Err(e) => Err(e@),
    }
}

/// The native declarations and the wrappers of a generic function, one of
/// each for every requested type.
pub fn generate_monomorphized_versions(rust_sig: &RustFunctionSignature, mod_name: &str) -> (r:
    Result<(String, String), ExpandError>)
    ensures
        bindings_view(r) == rendered(
            monomorphization_of(
                rust_sig@.sig,
                rust_sig@.monomorphize_types,
                rust_sig@.concrete_types,
            ),
            mod_name@,
        ),
{
    match expand_monomorphization(rust_sig) {
        Ok(bridges) => Ok(render_bridges(&bridges, mod_name)),
        Err(e) => Err(e),
    }
}

/// The native declarations and the wrappers of declared functions, for the
/// module `module`, or the error of the first function that has no
/// expansion.
pub open spec fn bindings_of(sigs: Seq<RustFunctionSignatureView>, module: Seq<char>) -> Result<
    (Seq<char>, Seq<char>),
    ExpandErrorView,
> {
    rendered(expansions_upto(sigs, sigs.len() as int), module)
}

fn generate_bindings(signatures: &Vec<RustFunctionSignature>, module: &str) -> (r: Result<
    (String, String),
    ExpandError,
>)
    ensures
        bindings_view(r) == bindings_of(signature_views(signatures@), module@),
{
    match expand_all(signatures) {
        Ok(bridges) => Ok(render_bridges(&bridges, module)),
        Err(e) => Err(e),
    }
}

/// The native declarations and the wrappers of the declared functions of
/// an inline block.
pub fn generate_with_monomorphization(config: &AutoZigConfig) -> (r: Result<
    (String, String),
    ExpandError,
>)
    ensures
        bindings_view(r) == bindings_of(signature_views(config.rust_signatures@), "ffi"@),
{
    generate_bindings(&config.rust_signatures, config.get_mod_name())
}

/// The native declarations and the wrappers of the declared functions of
/// an external reference.
pub fn generate_with_monomorphization_for_include(config: &IncludeZigConfig) -> (r: Result<
    (String, String),
    ExpandError,
>)
    ensures
        bindings_view(r) == bindings_of(
            signature_views(config.rust_signatures@),
            unique_mod_name(config.file_path@),
        ),
{
    let module = config.get_unique_mod_name();
    generate_bindings(&config.rust_signatures, module.as_str())
}

/// The plain bridges of the first `n` declared functions.
pub open spec fn plain_bridges(sigs: Seq<RustFunctionSignatureView>, n: int) -> Seq<BridgeSpecView>
    decreases n,
{
    if n <= 0 {
        Seq::empty()
    } else {
        plain_bridges(sigs, n - 1).push(
            bridge_of(sigs[n - 1].sig.name, sigs[n - 1].sig, BridgeKind::Plain),
        )
    }
}

fn plain(signatures: &Vec<RustFunctionSignature>) -> (bridges: Vec<BridgeSpec>)
    ensures
        bridge_views(bridges@) == plain_bridges(
            signature_views(signatures@),
            signatures@.len() as int,
        ),
        bridges@.len() == signatures@.len(),
{
    let mut bridges: Vec<BridgeSpec> = Vec::new();
    let mut i: usize = 0;
    while i < signatures.len()
        invariant
            i <= signatures@.len(),
            bridges@.len() == i,
            bridge_views(bridges@) == plain_bridges(signature_views(signatures@), i as int),
        decreases signatures.len() - i,
    {
        let b = bridge(signatures[i].sig.name.as_str(), &signatures[i].sig, BridgeKind::Plain);
        bridges.push(b);
        i += 1;
    }
    bridges
}

/// The native declarations of the declared functions of an external
/// reference, each taken as a plain function.
pub fn generate_ffi_declarations_for_include(config: &IncludeZigConfig) -> (out: String)
    ensures
        out@ == declarations_text(
            plain_bridges(
                signature_views(config.rust_signatures@),
                config.rust_signatures@.len() as int,
            ),
            config.rust_signatures@.len() as int,
        ),
{
    let bridges = plain(&config.rust_signatures);
    render_bridges(&bridges, "").0
}

/// The safe wrappers of the declared functions of an external reference,
/// each taken as a plain function.
pub fn generate_safe_wrappers_for_include(config: &IncludeZigConfig) -> (out: String)
    ensures
        out@ == wrappers_text(
            plain_bridges(
                signature_views(config.rust_signatures@),
                config.rust_signatures@.len() as int,
            ),
            unique_mod_name(config.file_path@),
            config.rust_signatures@.len() as int,
        ),
{
    let bridges = plain(&config.rust_signatures);
    let module = config.get_unique_mod_name();
    render_bridges(&bridges, module.as_str()).1
}

// ---------------------------------------------------------------------------
// Type definitions
// ---------------------------------------------------------------------------

/// The first `n` enum definitions as written, each on a line of its own.
pub open spec fn enum_definitions(enums: Seq<EnumItemView>, n: int) -> Seq<char>
    decreases n,
{
    if n <= 0 {
        Seq::empty()
    } else {
        enum_definitions(enums, n - 1) + enums[n - 1].text + "\n"@
    }
}

/// The first `n` struct definitions as written, each on a line of its own.
pub open spec fn struct_definitions(structs: Seq<StructItemView>, n: int) -> Seq<char>
    decreases n,
{
    if n <= 0 {
        Seq::empty()
    } else {
        struct_definitions(structs, n - 1) + structs[n - 1].text + "\n"@
    }
}

fn write_enums(enums: &Vec<RustEnumDefinition>) -> (out: String)
    ensures
        out@ == enum_definitions(enum_views(enums@), enums@.len() as int),
{
    let mut out = String::new();
    let mut i: usize = 0;
    while i < enums.len()
        invariant
            i <= enums@.len(),
            out@ == enum_definitions(enum_views(enums@), i as int),
        decreases enums.len() - i,
    {
        out.append(enums[i].item.text.as_str());
        out.append("\n");
        i += 1;
    }
    out
}

fn write_structs(structs: &Vec<RustStructDefinition>) -> (out: String)
    ensures
        out@ == struct_definitions(struct_views(structs@), structs@.len() as int),
{
    let mut out = String::new();
    let mut i: usize = 0;
    while i < structs.len()
        invariant
            i <= structs@.len(),
            out@ == struct_definitions(struct_views(structs@), i as int),
        decreases structs.len() - i,
    {
        out.append(structs[i].item.text.as_str());
        out.append("\n");
        i += 1;
    }
    out
}

/// The enum definitions of an inline block.
pub fn generate_enum_definitions(config: &AutoZigConfig) -> (out: String)
    ensures
        out@ == enum_definitions(enum_views(config.rust_enums@), config.rust_enums@.len() as int),
{
    write_enums(&config.rust_enums)
}

/// The struct definitions of an inline block.
pub fn generate_struct_definitions(config: &AutoZigConfig) -> (out: String)
    ensures
        out@ == struct_definitions(
            struct_views(config.rust_structs@),
            config.rust_structs@.len() as int,
        ),
{
    write_structs(&config.rust_structs)
}

/// The enum definitions of an external reference.
pub fn generate_enum_definitions_for_include(config: &IncludeZigConfig) -> (out: String)
    ensures
        out@ == enum_definitions(enum_views(config.rust_enums@), config.rust_enums@.len() as int),
{
    write_enums(&config.rust_enums)
}

/// The struct definitions of an external reference.
pub fn generate_struct_definitions_for_include(config: &IncludeZigConfig) -> (out: String)
    ensures
        out@ == struct_definitions(
            struct_views(config.rust_structs@),
            config.rust_structs@.len() as int,
        ),
{
    write_structs(&config.rust_structs)
}

} // verus!
