//! Reading the tokens of a block into its configuration.

use vstd::prelude::*;
use crate::text::{
    ends_with, find, first_match, from_chars, has_suffix, slice, to_chars, trim, trimmed,
};
use crate::idl::{
    enum_views, impl_views, no_definitions, signature_views, struct_views, AutoZigConfig,
    DefinitionsView, IncludeZigConfig,
};
use crate::expand::{resolve_all, unresolved};
use crate::idl::RustFunctionSignatureView;
use crate::parser::{definitions_upto, parse_rust_definitions};
use crate::syntax::{Decl, FnItem};

verus! {

/// The two halves of the tokens: the text before the first `sep`, and all
/// the text behind it; none where `sep` does not occur.
pub open spec fn split_at_separator(tokens: Seq<char>, sep: Seq<char>) -> Option<
    (Seq<char>, Seq<char>),
> {
    match first_match(tokens, sep) {
        Some(i) => {
            Some((tokens.subrange(0, i), tokens.subrange(i + sep.len(), tokens.len() as int)))
        },
        None => None,
    }
}

/// The Zig half and the declaration half of the tokens of a block. The
/// separator is `---`, or one of the forms that token printing gives it:
/// `- - -`, `-- -`, `- --`; the first form that occurs counts. Without a
/// separator all is Zig.
pub open spec fn sections(tokens: Seq<char>) -> (Seq<char>, Option<Seq<char>>) {
    match split_at_separator(tokens, "---"@) {
        Some((zig, decls)) => (zig, Some(decls)),
        None => match split_at_separator(tokens, "- - -"@) {
            Some((zig, decls)) => (zig, Some(decls)),
            None => match split_at_separator(tokens, "-- -"@) {
                Some((zig, decls)) => (zig, Some(decls)),
                None => match split_at_separator(tokens, "- --"@) {
                    Some((zig, decls)) => (zig, Some(decls)),
                    None => (tokens, None),
                },
            },
        },
    }
}

fn split_at<'a>(tokens: &'a [char], sep: &str) -> (r: Option<(&'a [char], &'a [char])>)
    ensures
        match r {
            Some((a, b)) => split_at_separator(tokens@, sep@) == Some((a@, b@)),
            None => split_at_separator(tokens@, sep@) is None,
        },
{
    let s = to_chars(sep);
    let n = tokens.len();
    match find(tokens, s.as_slice()) {
        Some(i) => {
            Some((slice(tokens, 0, i), slice(tokens, i + s.len(), n)))
        },
        None => None,
    }
}

fn split_sections<'a>(tokens: &'a [char]) -> (r: (&'a [char], Option<&'a [char]>))
    ensures
        r.0@ == sections(tokens@).0,
        match r.1 {
            Some(d) => sections(tokens@).1 == Some(d@),
            None => sections(tokens@).1 is None,
        },
{
    if let Some((z, d)) = split_at(tokens, "---") {
        return (z, Some(d));
    }
    if let Some((z, d)) = split_at(tokens, "- - -") {
        return (z, Some(d));
    }
    if let Some((z, d)) = split_at(tokens, "-- -") {
        return (z, Some(d));
    }
    if let Some((z, d)) = split_at(tokens, "- --") {
        return (z, Some(d));
    }
    (tokens, None)
}

/// The text without the suffix `p`, however often it is repeated at the
/// end.
pub open spec fn without_suffix(s: Seq<char>, p: Seq<char>) -> Seq<char>
    decreases s.len(),
{
    if p.len() > 0 && has_suffix(s, p) {
        without_suffix(s.subrange(0, s.len() - p.len()), p)
    } else {
        s
    }
}

/// The character, or `_` in place of a path separator, a dot or a hyphen.
pub open spec fn identifier_char(c: char) -> char {
    if c == '/' || c == '\\' || c == '.' || c == '-' {
        '_'
    } else {
        c
    }
}

/// The module name for the bindings of the file at `path`: `ffi_`, then
/// the path without its `.zig` ending and with `_` in place of every
/// separator, dot and hyphen.
pub open spec fn unique_mod_name(path: Seq<char>) -> Seq<char> {
    "ffi_"@ + without_suffix(path, ".zig"@).map_values(|c: char| identifier_char(c))
}

/// The definitions without what the Rust parser made of the concrete types
/// of the declared functions.
pub open spec fn without_types(d: DefinitionsView) -> DefinitionsView {
    DefinitionsView {
        enums: d.enums,
        structs: d.structs,
        signatures: d.signatures.map_values(|s: RustFunctionSignatureView| unresolved(s)),
        trait_impls: d.trait_impls,
    }
}

/// Definitions that the sorting of some parsed file gave stay such, the
/// concrete types aside, when the types are resolved.
proof fn lemma_resolved_definitions(given: DefinitionsView, resolved: DefinitionsView)
    requires
        exists|top: Seq<Decl>, table: Seq<Vec<Option<FnItem>>>|
            given == #[trigger] definitions_upto(top, table, top.len() as int),
        resolved.enums == given.enums,
        resolved.structs == given.structs,
        resolved.trait_impls == given.trait_impls,
        resolved.signatures.len() == given.signatures.len(),
        forall|i: int|
            0 <= i < resolved.signatures.len() ==> unresolved(#[trigger] resolved.signatures[i])
                == unresolved(given.signatures[i]),
    ensures
        exists|top: Seq<Decl>, table: Seq<Vec<Option<FnItem>>>|
            without_types(resolved) == without_types(
                #[trigger] definitions_upto(top, table, top.len() as int),
            ),
{
    let (top, table) = choose|top: Seq<Decl>, table: Seq<Vec<Option<FnItem>>>|
        given == #[trigger] definitions_upto(top, table, top.len() as int);
    assert(without_types(resolved).signatures =~= without_types(given).signatures);
    assert(without_types(resolved) == without_types(definitions_upto(top, table, top.len() as int)));
}

/// No definitions are what the sorting of an empty file gives.
proof fn lemma_nothing_parsed(d: DefinitionsView)
    requires
        d == no_definitions(),
    ensures
        exists|top: Seq<Decl>, table: Seq<Vec<Option<FnItem>>>|
            without_types(d) == without_types(
                #[trigger] definitions_upto(top, table, top.len() as int),
            ),
{
    let nothing = Seq::<Decl>::empty();
    assert(d == definitions_upto(nothing, Seq::<Vec<Option<FnItem>>>::empty(), nothing.len() as int));
}

impl AutoZigConfig {
    /// The definitions of the block, by kind.
    pub open spec fn definitions(&self) -> DefinitionsView {
        DefinitionsView {
            enums: enum_views(self.rust_enums@),
            structs: struct_views(self.rust_structs@),
            signatures: signature_views(self.rust_signatures@),
            trait_impls: impl_views(self.rust_trait_impls@),
        }
    }

    /// Reads the tokens of an inline block: the Zig code before the
    /// separator, the definitions after it. The declaration half goes to
    /// the Rust parser, by `parse_rust_definitions`, and the concrete types
    /// of the declared functions are resolved; without a declaration half
    /// there is no definition.
    pub fn parse(tokens: &str) -> (config: AutoZigConfig)
        ensures
            config.zig_code@ == trimmed(sections(tokens@).0),
            config.external_file is None,
            sections(tokens@).1 is None ==> config.definitions() == no_definitions(),
            exists|top: Seq<Decl>, table: Seq<Vec<Option<FnItem>>>|
                without_types(config.definitions()) == without_types(
                    #[trigger] definitions_upto(top, table, top.len() as int),
                ),
            forall|i: int|
                0 <= i < config.rust_signatures@.len() ==> (
                #[trigger] config.rust_signatures@[i])@.concrete_types.len()
                    == config.rust_signatures@[i]@.monomorphize_types.len(),
    {
        let t = to_chars(tokens);
        let (zig, decls) = split_sections(t.as_slice());
        let zig_code = from_chars(trim(zig));
        match decls {
            Some(d) => {
                let text = from_chars(d);
                let (rust_enums, rust_structs, parsed, rust_trait_impls) = parse_rust_definitions(
                    text.as_str(),
                );
                let ghost given = DefinitionsView {
                    enums: enum_views(rust_enums@),
                    structs: struct_views(rust_structs@),
                    signatures: signature_views(parsed@),
                    trait_impls: impl_views(rust_trait_impls@),
                };
                let rust_signatures = resolve_all(parsed);
                let config = AutoZigConfig {
                    zig_code,
                    external_file: None,
                    rust_signatures,
                    rust_structs,
                    rust_enums,
                    rust_trait_impls,
                };
                proof {
                    lemma_resolved_definitions(given, config.definitions());
                }
                config
            },
            None => {
                let config = AutoZigConfig {
                    zig_code,
                    external_file: None,
                    rust_signatures: Vec::new(),
                    rust_structs: Vec::new(),
                    rust_enums: Vec::new(),
                    rust_trait_impls: Vec::new(),
                };
                assert(config.definitions() =~= no_definitions()) by {
                    assert(enum_views(config.rust_enums@) =~= Seq::empty());
                    assert(struct_views(config.rust_structs@) =~= Seq::empty());
                    assert(signature_views(config.rust_signatures@) =~= Seq::empty());
                    assert(impl_views(config.rust_trait_impls@) =~= Seq::empty());
                }
                proof {
                    lemma_nothing_parsed(config.definitions());
                }
                config
            },
        }
    }

    /// The name of the module that holds the raw bindings.
    pub fn get_mod_name(&self) -> (name: &'static str)
        ensures
            name@ == "ffi"@,
    {
        "ffi"
    }

    /// Whether the block declares any function.
    pub fn has_rust_signatures(&self) -> (b: bool)
        ensures
            b == (self.rust_signatures@.len() > 0),
    {
        self.rust_signatures.len() > 0
    }

    /// Whether the block refers to an external file.
    pub fn is_external_mode(&self) -> (b: bool)
        ensures
            b == (self.external_file is Some),
    {
        self.external_file.is_some()
    }
}

impl IncludeZigConfig {
    /// The definitions of the block, by kind.
    pub open spec fn definitions(&self) -> DefinitionsView {
        DefinitionsView {
            enums: enum_views(self.rust_enums@),
            structs: struct_views(self.rust_structs@),
            signatures: signature_views(self.rust_signatures@),
            trait_impls: impl_views(self.rust_trait_impls@),
        }
    }

    /// Reads an external reference: the path of the Zig file and, where
    /// given, the declaration text that follows it. The declaration text
    /// goes to the Rust parser, by `parse_rust_definitions`, and the
    /// concrete types of the declared functions are resolved; without a
    /// declaration text there is no definition.
    pub fn parse(file_path: &str, declarations: Option<&str>) -> (config: IncludeZigConfig)
        ensures
            config.file_path@ == file_path@,
            declarations is None ==> config.definitions() == no_definitions(),
            exists|top: Seq<Decl>, table: Seq<Vec<Option<FnItem>>>|
                without_types(config.definitions()) == without_types(
                    #[trigger] definitions_upto(top, table, top.len() as int),
                ),
            forall|i: int|
                0 <= i < config.rust_signatures@.len() ==> (
                #[trigger] config.rust_signatures@[i])@.concrete_types.len()
                    == config.rust_signatures@[i]@.monomorphize_types.len(),
    {
        match declarations {
            Some(d) => {
                let (rust_enums, rust_structs, parsed, rust_trait_impls) = parse_rust_definitions(d);
                let ghost given = DefinitionsView {
                    enums: enum_views(rust_enums@),
                    structs: struct_views(rust_structs@),
                    signatures: signature_views(parsed@),
                    trait_impls: impl_views(rust_trait_impls@),
                };
                let rust_signatures = resolve_all(parsed);
                let config = IncludeZigConfig {
                    file_path: file_path.to_owned(),
                    rust_signatures,
                    rust_structs,
                    rust_enums,
                    rust_trait_impls,
                };
                proof {
                    lemma_resolved_definitions(given, config.definitions());
                }
                config
            },
            None => {
                let config = IncludeZigConfig {
                    file_path: file_path.to_owned(),
                    rust_signatures: Vec::new(),
                    rust_structs: Vec::new(),
                    rust_enums: Vec::new(),
                    rust_trait_impls: Vec::new(),
                };
                assert(config.definitions() =~= no_definitions()) by {
                    assert(enum_views(config.rust_enums@) =~= Seq::empty());
                    assert(struct_views(config.rust_structs@) =~= Seq::empty());
                    assert(signature_views(config.rust_signatures@) =~= Seq::empty());
                    assert(impl_views(config.rust_trait_impls@) =~= Seq::empty());
                }
                proof {
                    lemma_nothing_parsed(config.definitions());
                }
                config
            },
        }
    }

    /// The name of the module that holds the raw bindings.
    pub fn get_mod_name(&self) -> (name: &'static str)
        ensures
            name@ == "ffi"@,
    {
        "ffi"
    }

    /// A module name made from the file path: `zig/math.zig` gives
    /// `ffi_zig_math`.
    pub fn get_unique_mod_name(&self) -> (name: String)
        ensures
            name@ == unique_mod_name(self.file_path@),
    {
        let path = to_chars(self.file_path.as_str());
        let ending = to_chars(".zig");
        let mut end: usize = path.len();
        proof {
            reveal_strlit(".zig");
            assert(path@.subrange(0, path@.len() as int) == path@);
        }
        while ends_with(slice(path.as_slice(), 0, end), ending.as_slice())
            invariant
                end <= path@.len(),
                ending@ == ".zig"@,
                ending@.len() == 4,
                without_suffix(path@, ".zig"@) == without_suffix(
                    path@.subrange(0, end as int),
                    ".zig"@,
                ),
            decreases end,
        {
            assert(path@.subrange(0, end as int).subrange(0, end - 4) == path@.subrange(
                0,
                end - 4,
            ));
            end = end - 4;
        }
        let mut name = to_chars("ffi_");
        let ghost head = name@;
        let stem = slice(path.as_slice(), 0, end);
        let mut i: usize = 0;
        while i < stem.len()
            invariant
                i <= stem@.len(),
                name@ == head + stem@.take(i as int).map_values(|c: char| identifier_char(c)),
            decreases stem.len() - i,
        {
            let c = stem[i];
            let mapped = if c == '/' || c == '\\' || c == '.' || c == '-' {
                '_'
            } else {
                c
            };
            name.push(mapped);
            i += 1;
        }
        from_chars(name.as_slice())
    }

    /// Whether the reference declares any function.
    pub fn has_rust_signatures(&self) -> (b: bool)
        ensures
            b == (self.rust_signatures@.len() > 0),
    {
        self.rust_signatures.len() > 0
    }
}

} // verus!
