//! The expansions of the two macros: what a block turns into.

use vstd::prelude::*;
use crate::idl::{
    enum_views, impl_views, signature_views, struct_views, AutoZigConfig, IncludeZigConfig,
};
use crate::expand::{ExpandError, ExpandErrorView};
use crate::generate::{bindings_of, enum_definitions, generate_enum_definitions, generate_enum_definitions_for_include, generate_struct_definitions, generate_struct_definitions_for_include, generate_with_monomorphization, generate_with_monomorphization_for_include, struct_definitions};
use crate::traits::{
    generate_trait_implementations, generate_trait_impl_types, impls_text, target_definitions,
};
use crate::declare::{generate_trait_ffi_declarations, impls_declarations};
use crate::config::unique_mod_name;

verus! {

/// The module that holds the native declarations.
pub open spec fn module_block(module: Seq<char>, declarations: Seq<char>) -> Seq<char> {
    "mod "@ + module + " {\n    use super::*;\n"@ + declarations + "}\n"@
}

/// The text as the content of a string literal: a backslash before each
/// backslash and each double quote.
pub open spec fn escaped(s: Seq<char>, n: int) -> Seq<char>
    decreases n,
{
    if n <= 0 {
        Seq::empty()
    } else if s[n - 1] == '\\' || s[n - 1] == '"' {
        escaped(s, n - 1).push('\\').push(s[n - 1])
    } else {
        escaped(s, n - 1).push(s[n - 1])
    }
}

/// The attribute that marks the expansion of an external reference with
/// the path of its file.
pub open spec fn include_marker(path: Seq<char>) -> Seq<char> {
    "#[doc = \"// @autozig:include:"@ + escaped(path, path.len() as int) + "\"]\n"@
}

fn escape(s: &str) -> (out: String)
    ensures
        out@ == escaped(s@, s@.len() as int),
{
    let chars = crate::text::to_chars(s);
    let mut out: Vec<char> = Vec::new();
    let mut i: usize = 0;
    while i < chars.len()
        invariant
            i <= chars@.len(),
            chars@ == s@,
            out@ == escaped(s@, i as int),
        decreases chars.len() - i,
    {
        let c = chars[i];
        if c == '\\' || c == '"' {
            out.push('\\');
        }
        out.push(c);
        i += 1;
    }
    crate::text::from_chars(out.as_slice())
}

impl AutoZigConfig {
    /// The block declares something: a function, a struct, an enum or an
    /// impl.
    pub open spec fn declares(&self) -> bool {
        self.rust_signatures@.len() > 0 || self.rust_structs@.len() > 0 || self.rust_enums@.len()
            > 0 || self.rust_trait_impls@.len() > 0
    }

    /// The expansion of the block, given the native declarations and the
    /// wrappers of its functions: the type definitions, the module of
    /// native declarations, the wrappers and the impls.
    pub open spec fn expansion(&self, declarations: Seq<char>, wrappers: Seq<char>) -> Seq<char> {
        let impls = impl_views(self.rust_trait_impls@);
        enum_definitions(enum_views(self.rust_enums@), self.rust_enums@.len() as int)
            + struct_definitions(struct_views(self.rust_structs@), self.rust_structs@.len() as int)
            + target_definitions(impls, impls.len() as int) + module_block(
            "ffi"@,
            declarations + impls_declarations(impls, self.zig_code@, impls.len() as int),
        ) + wrappers + impls_text(impls, "ffi"@, impls.len() as int)
    }

    /// What the block expands to: an error where it declares nothing or a
    /// request for concrete types cannot be met.
    pub open spec fn expanded(&self) -> Result<Seq<char>, ExpandErrorView> {
        if !self.declares() {
            Err(ExpandErrorView::NothingToBridge)
        } else {
            match bindings_of(signature_views(self.rust_signatures@), "ffi"@) {
                Ok((d, w)) => Ok(self.expansion(d, w)),
                Err(e) => Err(e),
            }
        }
    }
}

/// The text of an expansion, or its error.
pub open spec fn expansion_view(r: Result<String, ExpandError>) -> Result<
    Seq<char>,
    ExpandErrorView,
> {
    match r {
        Ok(text) => Ok(text@),
        Err(e) => Err(e@),
    }
}

impl IncludeZigConfig {
    /// The reference declares something: a function, a struct or an enum.
    pub open spec fn declares(&self) -> bool {
        self.rust_signatures@.len() > 0 || self.rust_structs@.len() > 0 || self.rust_enums@.len()
            > 0
    }

    /// The expansion of the reference, given the native declarations and
    /// the wrappers of its functions.
    pub open spec fn expansion(&self, declarations: Seq<char>, wrappers: Seq<char>) -> Seq<char> {
        include_marker(self.file_path@) + enum_definitions(
            enum_views(self.rust_enums@),
            self.rust_enums@.len() as int,
        ) + struct_definitions(struct_views(self.rust_structs@), self.rust_structs@.len() as int)
            + module_block(unique_mod_name(self.file_path@), declarations) + wrappers
    }

    /// What the reference expands to: an error where it declares nothing
    /// or a request for concrete types cannot be met.
    pub open spec fn expanded(&self) -> Result<Seq<char>, ExpandErrorView> {
        if !self.declares() {
            Err(ExpandErrorView::NothingToInclude)
        } else {
            match bindings_of(
                signature_views(self.rust_signatures@),
                unique_mod_name(self.file_path@),
            ) {
                Ok((d, w)) => Ok(self.expansion(d, w)),
                Err(e) => Err(e),
            }
        }
    }
}

/// Expands an inline block into the Rust code that binds its Zig code. A
/// block that declares nothing is an error; so is a request for concrete
/// types that cannot be met.
pub fn autozig(config: &AutoZigConfig) -> (r: Result<String, ExpandError>)
    ensures
        expansion_view(r) == config.expanded(),
{
    if !(config.has_rust_signatures() || config.rust_structs.len() > 0 || config.rust_enums.len()
        > 0 || config.rust_trait_impls.len() > 0) {
        return Err(ExpandError::NothingToBridge);
    }
    let (declarations, wrappers) = match generate_with_monomorphization(config) {
        Ok(r) => r,
        Err(e) => { return Err(e); },
    };
    let mut module = String::new();
    module.append("mod ");
    module.append(config.get_mod_name());
    module.append(" {\n    use super::*;\n");
    module.append(declarations.as_str());
    module.append(generate_trait_ffi_declarations(config).as_str());
    module.append("}\n");
    let ghost impls = impl_views(config.rust_trait_impls@);
    assert(module@ =~= module_block(
        "ffi"@,
        declarations@ + impls_declarations(impls, config.zig_code@, impls.len() as int),
    ));
    let mut out = generate_enum_definitions(config);
    out.append(generate_struct_definitions(config).as_str());
    out.append(generate_trait_impl_types(config).as_str());
    out.append(module.as_str());
    out.append(wrappers.as_str());
    out.append(generate_trait_implementations(config).as_str());
    Ok(out)
}

/// Expands an external reference into the Rust code that binds the Zig
/// file. A reference that declares nothing is an error; so is a request
/// for concrete types that cannot be met.
pub fn include_zig(config: &IncludeZigConfig) -> (r: Result<String, ExpandError>)
    ensures
        expansion_view(r) == config.expanded(),
{
    if !(config.has_rust_signatures() || config.rust_structs.len() > 0 || config.rust_enums.len()
        > 0) {
        return Err(ExpandError::NothingToInclude);
    }
    let (declarations, wrappers) = match generate_with_monomorphization_for_include(config) {
        Ok(r) => r,
        Err(e) => { return Err(e); },
    };
    let mut module = String::new();
    module.append("mod ");
    module.append(config.get_unique_mod_name().as_str());
    module.append(" {\n    use super::*;\n");
    module.append(declarations.as_str());
    module.append("}\n");
    assert(module@ =~= module_block(unique_mod_name(config.file_path@), declarations@));
    let mut out = String::new();
    out.append("#[doc = \"// @autozig:include:");
    out.append(escape(config.file_path.as_str()).as_str());
    out.append("\"]\n");
    assert(out@ =~= include_marker(config.file_path@));
    out.append(generate_enum_definitions_for_include(config).as_str());
    out.append(generate_struct_definitions_for_include(config).as_str());
    out.append(module.as_str());
    out.append(wrappers.as_str());
    Ok(out)
}

} // verus!
