//! Mapping Zig types to the Rust types of the C ABI.

use vstd::prelude::*;
use crate::text::{has_prefix, starts_with, to_chars};
use crate::scanner::same_text;
use crate::syntax::{TypeExpr, TypeExprView};

verus! {

/// The table of the mapper: each Zig type with its Rust type. A Zig
/// `bool` is a `u8` in the C ABI.
pub open spec fn type_table() -> Seq<(Seq<char>, Seq<char>)> {
    seq![
        ("i8"@, "i8"@),
        ("i16"@, "i16"@),
        ("i32"@, "i32"@),
        ("i64"@, "i64"@),
        ("i128"@, "i128"@),
        ("isize"@, "isize"@),
        ("u8"@, "u8"@),
        ("u16"@, "u16"@),
        ("u32"@, "u32"@),
        ("u64"@, "u64"@),
        ("u128"@, "u128"@),
        ("usize"@, "usize"@),
        ("f32"@, "f32"@),
        ("f64"@, "f64"@),
        ("bool"@, "u8"@),
        ("void"@, "()"@),
        ("[*]const u8"@, "*const u8"@),
        ("[*]u8"@, "*mut u8"@),
    ]
}

/// What the first entry for `key` from `i` on maps it to.
pub open spec fn looked_up(table: Seq<(Seq<char>, Seq<char>)>, key: Seq<char>, i: int) -> Option<
    Seq<char>,
>
    decreases table.len() - i,
{
    if i < 0 || i >= table.len() {
        None
    } else if table[i].0 == key {
        Some(table[i].1)
    } else {
        looked_up(table, key, i + 1)
    }
}

/// The Rust type for a Zig type; none for a type that the table lacks.
pub open spec fn mapped_type(zig_type: Seq<char>) -> Option<Seq<char>> {
    looked_up(type_table(), zig_type, 0)
}

/// Maps Zig types to Rust types.
pub struct TypeMapper {
    mappings: Vec<(&'static str, &'static str)>,
}

/// The views of a list of pairs of string slices.
pub open spec fn pair_views(v: Seq<(&'static str, &'static str)>) -> Seq<(Seq<char>, Seq<char>)> {
    v.map_values(|p: (&'static str, &'static str)| (p.0@, p.1@))
}

impl TypeMapper {
    /// The table that the mapper holds.
    pub closed spec fn table(&self) -> Seq<(Seq<char>, Seq<char>)> {
        pair_views(self.mappings@)
    }

    /// Every mapper holds the table of types.
    #[verifier::type_invariant]
    spec fn holds_table(&self) -> bool {
        self.table() == type_table()
    }

    /// A mapper that holds the table of types.
    pub fn new() -> (mapper: TypeMapper)
        ensures
            mapper.table() == type_table(),
    {
        let mut mappings: Vec<(&'static str, &'static str)> = Vec::new();
        mappings.push(("i8", "i8"));
        mappings.push(("i16", "i16"));
        mappings.push(("i32", "i32"));
        mappings.push(("i64", "i64"));
        mappings.push(("i128", "i128"));
        mappings.push(("isize", "isize"));
        mappings.push(("u8", "u8"));
        mappings.push(("u16", "u16"));
        mappings.push(("u32", "u32"));
        mappings.push(("u64", "u64"));
        mappings.push(("u128", "u128"));
        mappings.push(("usize", "usize"));
        mappings.push(("f32", "f32"));
        mappings.push(("f64", "f64"));
        mappings.push(("bool", "u8"));
        mappings.push(("void", "()"));
        mappings.push(("[*]const u8", "*const u8"));
        mappings.push(("[*]u8", "*mut u8"));
        assert(pair_views(mappings@) =~= type_table());
        TypeMapper { mappings }
    }

    /// The Rust type for a Zig type.
    pub fn map_type(&self, zig_type: &str) -> (r: Option<&'static str>)
        ensures
            match r {
                Some(t) => mapped_type(zig_type@) == Some(t@),
                None => mapped_type(zig_type@) is None,
            },
    {
        proof {
            use_type_invariant(self);
        }
        let mut i: usize = 0;
        while i < self.mappings.len()
            invariant
                i <= self.mappings@.len(),
                pair_views(self.mappings@) == type_table(),
                mapped_type(zig_type@) == looked_up(type_table(), zig_type@, i as int),
            decreases self.mappings.len() - i,
        {
            let (zig, rust) = self.mappings[i];
            if same_text(zig, zig_type) {
                return Some(rust);
            }
            i += 1;
        }
        None
    }

    /// Whether a Zig type is a many-item pointer, which needs a length
    /// beside it.
    pub fn is_slice_type(&self, zig_type: &str) -> (b: bool)
        ensures
            b == has_prefix(zig_type@, "[*]"@),
    {
        let t = to_chars(zig_type);
        starts_with(t.as_slice(), to_chars("[*]").as_slice())
    }
}

impl Default for TypeMapper {
    fn default() -> (mapper: TypeMapper)
        ensures
            mapper.table() == type_table(),
    {
        TypeMapper::new()
    }
}

/// How a parameter crosses the boundary.
#[derive(Debug, Clone, Copy, PartialEq, Eq, Structural)]
pub enum ParamConversion {
    /// As it is.
    Direct,
    /// A reference to a slice, as pointer and length.
    SliceToPtrLen,
    /// A reference to a string, as pointer and length.
    StrToPtrLen,
}

/// The conversion for a parameter of the given type, by the shape of the
/// type: a reference to a slice, a reference to a path that ends in
/// `str`, or anything else.
pub open spec fn conversion_of(ty: TypeExprView) -> ParamConversion {
    match ty {
        TypeExprView::Reference { elem, .. } => match *elem {
            TypeExprView::Slice { .. } => ParamConversion::SliceToPtrLen,
            TypeExprView::Path { last_segment, .. } => if last_segment == Some("str"@) {
                ParamConversion::StrToPtrLen
            } else {
                ParamConversion::Direct
            },
            _ => ParamConversion::Direct,
        },
        _ => ParamConversion::Direct,
    }
}

/// Decides how a parameter of the given type crosses the boundary.
pub fn analyze_param_type(ty: &TypeExpr) -> (c: ParamConversion)
    ensures
        c == conversion_of(ty@),
{
    match ty {
        TypeExpr::Reference { elem, .. } => match &**elem {
            TypeExpr::Slice { .. } => ParamConversion::SliceToPtrLen,
            TypeExpr::Path { last_segment, .. } => match last_segment {
                Some(name) => if same_text(name.as_str(), "str") {
                    ParamConversion::StrToPtrLen
                } else {
                    ParamConversion::Direct
                },
                None => ParamConversion::Direct,
            },
            TypeExpr::Reference { .. } => ParamConversion::Direct,
            TypeExpr::Other { .. } => {
                assert((**elem)@ is Other);
                ParamConversion::Direct
            },
        },
        _ => ParamConversion::Direct,
    }
}

} // verus!
