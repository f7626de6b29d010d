//! The symbols that the lowered Zig code holds for each exported function,
//! and what ties the table to the generated text: the wrapper of a function
//! is the exported symbol of the table, and the modified code holds the
//! internal one.

use vstd::prelude::*;
use crate::edit::{
    closed_by, lemma_replaced_holds, lemma_replaced_keeps, lemma_replaced_lacks, replaced,
};
use crate::engine::{
    embedded_block, embedded_paragraphs, import_lines, imports_std, keep_block, lowered_line,
    lowered_lines, lowered_wrappers, lowering_banner, main_module, modified_code,
    redirected_names, std_header, with_redirected_internal, wrappers_block,
};
use crate::exports::{
    classify_return, exports_of, internal_suffix, lowering_of, pointer_variant_suffix,
    wrapper_mandatory, wrapper_needed, ExportFunction, ExportFunctionView, Lowering,
};
use crate::text::{
    has_prefix, has_suffix, lemma_matches_inside, lemma_occurs_at, lemma_occurs_inside,
    lemma_occurs_position, matches_at, occurs,
};
use crate::wrapper::{
    forwarding_args, pointer_params, pointer_variant, redirecting_wrapper, static_slot_wrapper,
    unexported, unexported_all,
};

verus! {

/// How a symbol hands back its result.
#[derive(Debug, Clone, Copy, PartialEq, Eq, Structural)]
pub enum Convention {
    /// The result itself.
    ByValue,
    /// The address of a static slot that holds the result.
    ByPointer,
}

/// One entry of the symbol table.
#[derive(Debug, Clone)]
pub struct Symbol {
    pub name: String,
    /// Whether the symbol is visible to the linker.
    pub exported: bool,
    pub convention: Convention,
}

pub struct SymbolView {
    pub name: Seq<char>,
    pub exported: bool,
    pub convention: Convention,
}

impl View for Symbol {
    type V = SymbolView;

    open spec fn view(&self) -> SymbolView {
        SymbolView { name: self.name@, exported: self.exported, convention: self.convention }
    }
}

/// The views of a list of symbols.
pub open spec fn symbol_views(v: Seq<Symbol>) -> Seq<SymbolView> {
    v.map_values(|s: Symbol| s@)
}

/// The symbols of one exported function after lowering.
pub open spec fn symbols_of(f: ExportFunctionView) -> Seq<SymbolView> {
    match lowering_of(f.return_type) {
        Lowering::Direct => seq![
            SymbolView { name: f.name, exported: true, convention: Convention::ByValue },
        ],
        Lowering::DualExport => seq![
            SymbolView { name: f.name, exported: true, convention: Convention::ByValue },
            SymbolView {
                name: f.name + pointer_variant_suffix(),
                exported: true,
                convention: Convention::ByPointer,
            },
        ],
        Lowering::Redirect => seq![
            SymbolView { name: f.name, exported: true, convention: Convention::ByPointer },
            SymbolView {
                name: f.name + internal_suffix(),
                exported: false,
                convention: Convention::ByValue,
            },
        ],
    }
}

/// The symbols of the first `n` functions, in order.
pub open spec fn symbols_upto(fns: Seq<ExportFunctionView>, n: int) -> Seq<SymbolView>
    decreases n,
{
    if n <= 0 {
        Seq::empty()
    } else {
        symbols_upto(fns, n - 1) + symbols_of(fns[n - 1])
    }
}

/// The symbols that lowering gives one exported function.
pub fn symbols_for(func: &ExportFunction) -> (table: Vec<Symbol>)
    ensures
        symbol_views(table@) == symbols_of(func@),
{
    let mut table: Vec<Symbol> = Vec::new();
    match classify_return(func.return_type.as_str()) {
        Lowering::Direct => {
            table.push(
                Symbol { name: func.name.clone(), exported: true, convention: Convention::ByValue },
            );
        },
        Lowering::DualExport => {
            let mut variant = func.name.clone();
            variant.append("__ptr_variant");
            table.push(
                Symbol { name: func.name.clone(), exported: true, convention: Convention::ByValue },
            );
            table.push(
                Symbol { name: variant, exported: true, convention: Convention::ByPointer },
            );
        },
        Lowering::Redirect => {
            let mut internal = func.name.clone();
            internal.append("_impl");
            table.push(
                Symbol {
                    name: func.name.clone(),
                    exported: true,
                    convention: Convention::ByPointer,
                },
            );
            table.push(
                Symbol { name: internal, exported: false, convention: Convention::ByValue },
            );
        },
    }
    table
}

/// The symbol table of a list of exported functions.
pub fn symbol_table(functions: &[ExportFunction]) -> (table: Vec<Symbol>)
    ensures
        symbol_views(table@) == symbols_upto(
            crate::exports::export_views(functions@),
            functions@.len() as int,
        ),
{
    let mut table: Vec<Symbol> = Vec::new();
    let mut i: usize = 0;
    while i < functions.len()
        invariant
            i <= functions@.len(),
            symbol_views(table@) == symbols_upto(
                crate::exports::export_views(functions@),
                i as int,
            ),
        decreases functions.len() - i,
    {
        let mut part = symbols_for(&functions[i]);
        table.append(&mut part);
        i += 1;
    }
    table
}

/// An array-returning function leaves exactly one exported symbol under its
/// own name, and that symbol returns a pointer: none exported under that
/// name returns by value.
pub proof fn law_array_return_redirected(f: ExportFunctionView)
    requires
        wrapper_mandatory(f.return_type),
    ensures
        exists|i: int|
            0 <= i < symbols_of(f).len() && #[trigger] symbols_of(f)[i] == (SymbolView {
                name: f.name,
                exported: true,
                convention: Convention::ByPointer,
            }),
        forall|i: int, j: int|
            0 <= i < symbols_of(f).len() && 0 <= j < symbols_of(f).len() && symbols_of(
                f,
            )[i].exported && symbols_of(f)[j].exported && symbols_of(f)[i].name == f.name
                && symbols_of(f)[j].name == f.name ==> i == j,
        forall|i: int|
            0 <= i < symbols_of(f).len() && (#[trigger] symbols_of(f)[i]).exported && symbols_of(
                f,
            )[i].name == f.name ==> symbols_of(f)[i].convention == Convention::ByPointer,
        exists|i: int|
            0 <= i < symbols_of(f).len() && #[trigger] symbols_of(f)[i] == (SymbolView {
                name: f.name + internal_suffix(),
                exported: false,
                convention: Convention::ByValue,
            }),
{
    let t = symbols_of(f);
}

/// A struct-returning function keeps its by-value export and gains a
/// second exported symbol that returns a pointer, under a name derived from
/// its own and different from it.
pub proof fn law_struct_return_dual_export(f: ExportFunctionView)
    requires
        wrapper_needed(f.return_type),
        !wrapper_mandatory(f.return_type),
    ensures
        exists|i: int|
            0 <= i < symbols_of(f).len() && #[trigger] symbols_of(f)[i] == (SymbolView {
                name: f.name,
                exported: true,
                convention: Convention::ByValue,
            }),
        exists|j: int|
            0 <= j < symbols_of(f).len() && #[trigger] symbols_of(f)[j] == (SymbolView {
                name: f.name + pointer_variant_suffix(),
                exported: true,
                convention: Convention::ByPointer,
            }),
        f.name + pointer_variant_suffix() != f.name,
{
    let t = symbols_of(f);
    reveal_strlit("__ptr_variant");
}

// ---------------------------------------------------------------------------
// The symbols in the generated text
// ---------------------------------------------------------------------------

/// The header under which Zig code exports a function of this name.
pub open spec fn export_header(name: Seq<char>) -> Seq<char> {
    "export fn "@ + name + "("@
}

/// The call of a function of this name whose result goes to the static slot.
pub open spec fn slot_call(name: Seq<char>) -> Seq<char> {
    "static.result = "@ + name + "("@
}

/// The opening of an exported function of this name that takes `params`
/// and returns a pointer to a `return_type`.
pub open spec fn pointer_signature(
    name: Seq<char>,
    params: Seq<char>,
    return_type: Seq<char>,
) -> Seq<char> {
    export_header(name) + params + ") *const "@ + return_type + " {"@
}

/// A static-slot wrapper opens with the export header of its name, takes
/// its parameters and returns a pointer to the result type, and holds the
/// call of its callee.
pub proof fn lemma_wrapper_text(
    export_name: Seq<char>,
    params: Seq<char>,
    return_type: Seq<char>,
    note: Seq<char>,
    callee: Seq<char>,
    args: Seq<char>,
)
    ensures
        has_prefix(
            static_slot_wrapper(export_name, params, return_type, note, callee, args),
            export_header(export_name),
        ),
        has_prefix(
            static_slot_wrapper(export_name, params, return_type, note, callee, args) + seq!['\n'],
            export_header(export_name),
        ),
        has_prefix(
            static_slot_wrapper(export_name, params, return_type, note, callee, args) + seq!['\n'],
            pointer_signature(export_name, params, return_type),
        ),
        occurs(
            static_slot_wrapper(export_name, params, return_type, note, callee, args) + seq!['\n'],
            slot_call(callee),
        ),
{
    let w = static_slot_wrapper(export_name, params, return_type, note, callee, args);
    let head = export_header(export_name);
    assert(w.subrange(0, head.len() as int) =~= head);
    assert((w + seq!['\n']).subrange(0, head.len() as int) =~= head);
    let opening = pointer_signature(export_name, params, return_type);
    reveal_strlit(" {\n    // ");
    reveal_strlit(" {");
    assert((w + seq!['\n']).subrange(0, opening.len() as int) =~= opening);
    let before = "export fn "@ + export_name + "("@ + params + ") *const "@ + return_type
        + " {\n    // "@ + note + "\n    const static = struct {\n        var result: "@
        + return_type + " = undefined;\n    };\n    "@;
    let after = args + ");\n    return &static.result;\n}"@ + seq!['\n'];
    reveal_strlit(" = undefined;\n    };\n    static.result = ");
    reveal_strlit(" = undefined;\n    };\n    ");
    reveal_strlit("static.result = ");
    assert(" = undefined;\n    };\n    static.result = "@ =~= " = undefined;\n    };\n    "@
        + "static.result = "@);
    assert(w + seq!['\n'] =~= before + slot_call(callee) + after);
    assert(slot_call(callee).subrange(0, slot_call(callee).len() as int) =~= slot_call(callee));
    lemma_matches_inside(before, slot_call(callee), after, slot_call(callee), 0);
    lemma_occurs_at(w + seq!['\n'], slot_call(callee), before.len() as int);
}

/// The wrapper of an array-returning function is the static-slot wrapper
/// under the exported symbol of the table, and it calls the internal one:
/// it opens with `export fn NAME(` and holds `static.result = NAME_impl(`.
pub proof fn law_array_wrapper_takes_name(f: ExportFunctionView)
    requires
        wrapper_mandatory(f.return_type),
    ensures
        symbols_of(f).len() == 2,
        symbols_of(f)[0].exported && symbols_of(f)[0].convention == Convention::ByPointer,
        !symbols_of(f)[1].exported,
        lowered_line(f) == static_slot_wrapper(
            symbols_of(f)[0].name,
            pointer_params(f.params),
            f.return_type,
            "Macro expects pointer return for array types"@,
            symbols_of(f)[1].name,
            forwarding_args(f.params),
        ) + seq!['\n'],
        has_prefix(lowered_line(f), export_header(f.name)),
        has_prefix(
            lowered_line(f),
            pointer_signature(f.name, pointer_params(f.params), f.return_type),
        ),
        occurs(lowered_line(f), slot_call(f.name + internal_suffix())),
{
    lemma_wrapper_text(
        f.name,
        pointer_params(f.params),
        f.return_type,
        "Macro expects pointer return for array types"@,
        f.name + internal_suffix(),
        forwarding_args(f.params),
    );
}

/// The wrapper of a struct-returning function is the static-slot wrapper
/// under the second exported symbol of the table, and it calls the
/// function itself: it opens with `export fn NAME__ptr_variant(` and holds
/// `static.result = NAME(`.
pub proof fn law_struct_wrapper_beside_name(f: ExportFunctionView)
    requires
        wrapper_needed(f.return_type),
        !wrapper_mandatory(f.return_type),
    ensures
        symbols_of(f).len() == 2,
        symbols_of(f)[0].exported && symbols_of(f)[0].convention == Convention::ByValue,
        symbols_of(f)[1].exported && symbols_of(f)[1].convention == Convention::ByPointer,
        lowered_line(f) == static_slot_wrapper(
            symbols_of(f)[1].name,
            pointer_params(f.params),
            f.return_type,
            "ABI-safe wrapper: returns pointer instead of struct by value"@,
            symbols_of(f)[0].name,
            forwarding_args(f.params),
        ) + seq!['\n'],
        has_prefix(lowered_line(f), export_header(f.name + pointer_variant_suffix())),
        has_prefix(
            lowered_line(f),
            pointer_signature(
                f.name + pointer_variant_suffix(),
                pointer_params(f.params),
                f.return_type,
            ),
        ),
        occurs(lowered_line(f), slot_call(f.name)),
{
    lemma_wrapper_text(
        f.name + pointer_variant_suffix(),
        pointer_params(f.params),
        f.return_type,
        "ABI-safe wrapper: returns pointer instead of struct by value"@,
        f.name,
        forwarding_args(f.params),
    );
}

/// A function whose result crosses by value has no wrapper.
pub proof fn law_scalar_has_no_wrapper(f: ExportFunctionView)
    requires
        !wrapper_needed(f.return_type),
    ensures
        lowered_line(f).len() == 0,
        symbols_of(f).len() == 1,
{
}

/// The wrappers of a list of functions hold the wrapper of each.
pub proof fn lemma_lines_hold_each(fns: Seq<ExportFunctionView>, n: int, i: int)
    requires
        0 <= i < n <= fns.len(),
    ensures
        occurs(lowered_lines(fns, n), lowered_line(fns[i])),
    decreases n,
{
    let line = lowered_line(fns[i]);
    if i == n - 1 {
        let before = lowered_lines(fns, n - 1);
        assert(lowered_lines(fns, n) =~= before + line + Seq::<char>::empty());
        assert(line.subrange(0, line.len() as int) =~= line);
        lemma_matches_inside(before, line, Seq::empty(), line, 0);
        lemma_occurs_at(lowered_lines(fns, n), line, before.len() as int);
    } else {
        lemma_lines_hold_each(fns, n - 1, i);
        assert(lowered_lines(fns, n) =~= Seq::<char>::empty() + lowered_lines(fns, n - 1)
            + lowered_line(fns[n - 1]));
        lemma_occurs_inside(
            Seq::empty(),
            lowered_lines(fns, n - 1),
            lowered_line(fns[n - 1]),
            line,
        );
    }
}

/// The wrappers generated for a list of blocks hold the wrapper of every
/// exported function of every block.
pub proof fn law_wrappers_hold_each(blocks: Seq<Seq<char>>, n: int, k: int, i: int)
    requires
        0 <= k < n <= blocks.len(),
        0 <= i < exports_of(blocks[k]).len(),
    ensures
        occurs(lowered_wrappers(blocks, n), lowered_line(exports_of(blocks[k])[i])),
    decreases n,
{
    let line = lowered_line(exports_of(blocks[k])[i]);
    let fns = exports_of(blocks[n - 1]);
    let last = lowered_lines(fns, fns.len() as int);
    let before = lowered_wrappers(blocks, n - 1);
    if k == n - 1 {
        lemma_lines_hold_each(fns, fns.len() as int, i);
        assert(lowered_wrappers(blocks, n) =~= before + last + Seq::<char>::empty());
        lemma_occurs_inside(before, last, Seq::empty(), line);
    } else {
        law_wrappers_hold_each(blocks, n - 1, k, i);
        assert(lowered_wrappers(blocks, n) =~= Seq::<char>::empty() + before + last);
        lemma_occurs_inside(Seq::empty(), before, last, line);
    }
}

/// Taking the export away from a header that the code holds, written
/// `export fn NAME(` or `export fn NAME (`, leaves the internal header
/// `fn NAME` + suffix + `(`, in the same spelling, in the result.
pub proof fn law_unexported_holds_internal(code: Seq<char>, name: Seq<char>, suffix: Seq<char>)
    requires
        occurs(code, "export fn "@ + name + "("@) || occurs(code, "export fn "@ + name + " ("@),
    ensures
        occurs(unexported(code, name, suffix), "fn "@ + name + suffix + "("@) || occurs(
            unexported(code, name, suffix),
            "fn "@ + name + suffix + " ("@,
        ),
{
    reveal_strlit("export fn ");
    let spaced = "export fn "@ + name + " ("@;
    let tight = "export fn "@ + name + "("@;
    if occurs(code, spaced) {
        lemma_replaced_holds(code, spaced, "fn "@ + name + suffix + " ("@);
    } else {
        lemma_replaced_holds(code, tight, "fn "@ + name + suffix + "("@);
    }
}

/// The names of the array-returning functions are those of functions of
/// the list; without such a function there is none.
pub proof fn lemma_redirected_names(fns: Seq<ExportFunctionView>, n: int)
    requires
        0 <= n <= fns.len(),
    ensures
        (forall|i: int| 0 <= i < n ==> !wrapper_mandatory((#[trigger] fns[i]).return_type))
            ==> redirected_names(fns, n).len() == 0,
    decreases n,
{
    if n > 0 {
        lemma_redirected_names(fns, n - 1);
    }
}

/// A block with one array-returning function, whose header the code holds
/// written `export fn NAME(` or `export fn NAME (`: the modified code holds
/// the internal header `fn NAME_impl(`, in the same spelling.
pub proof fn law_array_function_made_internal(code: Seq<char>, name: Seq<char>)
    requires
        redirected_names(exports_of(code), exports_of(code).len() as int) == seq![name],
        occurs(code, "export fn "@ + name + "("@) || occurs(code, "export fn "@ + name + " ("@),
    ensures
        with_redirected_internal(code) == unexported(code, name, internal_suffix()),
        occurs(with_redirected_internal(code), "fn "@ + name + internal_suffix() + "("@)
            || occurs(with_redirected_internal(code), "fn "@ + name + internal_suffix() + " ("@),
{
    let names = seq![name];
    assert(unexported_all(code, names, internal_suffix(), 1) == unexported(
        unexported_all(code, names, internal_suffix(), 0),
        names[0],
        internal_suffix(),
    ));
    law_unexported_holds_internal(code, name, internal_suffix());
}

/// A block without an array-returning function is left as it is: the
/// functions that get a pointer variant keep their by-value export.
pub proof fn law_dual_export_keeps_code(code: Seq<char>)
    requires
        forall|i: int|
            0 <= i < exports_of(code).len() ==> !wrapper_mandatory(
                (#[trigger] exports_of(code)[i]).return_type,
            ),
    ensures
        with_redirected_internal(code) == code,
{
    lemma_redirected_names(exports_of(code), exports_of(code).len() as int);
}

// ---------------------------------------------------------------------------
// The exported name leaves the code
// ---------------------------------------------------------------------------

/// The header of an export of this name, written with a space before the
/// parenthesis.
pub open spec fn spaced_header(name: Seq<char>) -> Seq<char> {
    "export fn "@ + name + " ("@
}

/// The header of the internal form of an array-returning function.
pub open spec fn internal_header(name: Seq<char>) -> Seq<char> {
    "fn "@ + name + internal_suffix() + "("@
}

/// A name that holds neither a space nor an opening parenthesis.
pub open spec fn plain_name(name: Seq<char>) -> bool {
    forall|i: int| 0 <= i < name.len() ==> name[i] != '(' && name[i] != ' '
}

/// No name of the list is another one with the internal suffix.
pub open spec fn names_apart(names: Seq<Seq<char>>) -> bool {
    forall|i: int, j: int|
        0 <= i < names.len() && 0 <= j < names.len() ==> #[trigger] names[i] != (
        #[trigger] names[j]) + internal_suffix()
}

/// The characters of the three headers.
pub proof fn lemma_header_chars(name: Seq<char>)
    requires
        plain_name(name),
    ensures
        export_header(name).len() == name.len() + 11,
        spaced_header(name).len() == name.len() + 12,
        internal_header(name).len() == name.len() + 9,
        closed_by(export_header(name), '('),
        closed_by(spaced_header(name), '('),
        closed_by(internal_header(name), '('),
        forall|i: int|
            0 <= i < name.len() + 11 && export_header(name)[i] == ' ' ==> i == 6 || i == 9,
        export_header(name)[4] == 'r',
        export_header(name)[0] == 'e',
        export_header(name)[3] == 'o',
        export_header(name)[6] == ' ',
        export_header(name)[9] == ' ',
        forall|i: int| 0 <= i < name.len() ==> export_header(name)[10 + i] == name[i],
        forall|i: int| 0 <= i < name.len() + 9 && internal_header(name)[i] == ' ' ==> i == 2,
        internal_header(name)[0] == 'f',
        internal_header(name)[2] == ' ',
        forall|i: int| 0 <= i < name.len() ==> internal_header(name)[3 + i] == name[i],
        forall|i: int|
            0 <= i < 5 ==> internal_header(name)[3 + name.len() + i] == internal_suffix()[i],
        internal_header(name)[name.len() as int + 7] == 'l',
        spaced_header(name)[name.len() as int + 10] == ' ',
        internal_suffix().len() == 5,
{
    reveal_strlit("export fn ");
    reveal_strlit("fn ");
    reveal_strlit("(");
    reveal_strlit(" (");
    reveal_strlit("_impl");
}

/// Neither of the header of an export and the internal header ends with
/// the other.
pub proof fn lemma_headers_apart(exported: Seq<char>, internal: Seq<char>)
    requires
        plain_name(exported),
        plain_name(internal),
        exported != internal + internal_suffix(),
    ensures
        !has_suffix(export_header(exported), internal_header(internal)),
        !has_suffix(internal_header(internal), export_header(exported)),
        !has_suffix(spaced_header(exported), internal_header(internal)),
        !has_suffix(internal_header(internal), spaced_header(exported)),
{
    lemma_header_chars(exported);
    lemma_header_chars(internal);
    let q = export_header(exported);
    let wide = spaced_header(exported);
    let to = internal_header(internal);
    if has_suffix(q, to) {
        let d = q.len() - to.len();
        let part = q.subrange(d, q.len() as int);
        assert(part[2] == to[2] && part[2] == q[d + 2]);
        assert(part[0] == to[0] && part[0] == q[d]);
        assert(d == 7);
        assert(exported =~= internal + internal_suffix()) by {
            assert forall|x: int| 0 <= x < exported.len() implies exported[x] == (internal
                + internal_suffix())[x] by {
                assert(part[3 + x] == to[3 + x] && part[3 + x] == q[d + 3 + x]);
                if x >= internal.len() {
                    assert(to[3 + x] == internal_suffix()[x - internal.len()]);
                }
            }
        }
    }
    if has_suffix(to, q) {
        let d = to.len() - q.len();
        let part = to.subrange(d, to.len() as int);
        assert(part[6] == q[6] && part[6] == to[d + 6]);
    }
    if has_suffix(wide, to) {
        let d = wide.len() - to.len();
        let part = wide.subrange(d, wide.len() as int);
        let x = to.len() - 2;
        assert(part[x] == to[x] && part[x] == wide[d + x]);
    }
    if has_suffix(to, wide) {
        let d = to.len() - wide.len();
        let part = to.subrange(d, to.len() as int);
        let x = wide.len() - 2;
        assert(part[x] == wide[x] && part[x] == to[d + x]);
    }
}

/// A text that `q` does not occur in holds it at no position.
pub proof fn lemma_absent_everywhere(s: Seq<char>, q: Seq<char>)
    requires
        !occurs(s, q),
    ensures
        forall|j: int| !matches_at(s, q, j),
{
    assert forall|j: int| !matches_at(s, q, j) by {
        if matches_at(s, q, j) {
            lemma_occurs_at(s, q, j);
        }
    }
}

/// After the first `n` names have been made internal, the code holds the
/// export header of none of them, and still no header in the spelling
/// with a space.
pub proof fn lemma_made_internal_lacks(code: Seq<char>, names: Seq<Seq<char>>, n: int)
    requires
        0 <= n <= names.len(),
        forall|j: int| 0 <= j < names.len() ==> plain_name(#[trigger] names[j]),
        names_apart(names),
        forall|j: int| 0 <= j < names.len() ==> !occurs(code, spaced_header(#[trigger] names[j])),
    ensures
        forall|j: int|
            0 <= j < names.len() ==> !occurs(
                unexported_all(code, names, internal_suffix(), n),
                spaced_header(#[trigger] names[j]),
            ),
        forall|j: int|
            0 <= j < n ==> !occurs(
                unexported_all(code, names, internal_suffix(), n),
                export_header(#[trigger] names[j]),
            ),
    decreases n,
{
    if n > 0 {
        lemma_made_internal_lacks(code, names, n - 1);
        let before = unexported_all(code, names, internal_suffix(), n - 1);
        let name = names[n - 1];
        let p = export_header(name);
        let to = internal_header(name);
        let after = unexported_all(code, names, internal_suffix(), n);
        assert(!occurs(before, spaced_header(name)));
        assert(after == replaced(before, p, to));
        lemma_header_chars(name);
        assert((name + internal_suffix()).len() == name.len() + 5);
        lemma_headers_apart(name, name);
        lemma_replaced_lacks(before, p, to, p, '(');
        assert forall|j: int| 0 <= j < names.len() implies !occurs(
            after,
            spaced_header(#[trigger] names[j]),
        ) by {
            lemma_header_chars(names[j]);
            lemma_headers_apart(names[j], name);
            lemma_absent_everywhere(before, spaced_header(names[j]));
            lemma_replaced_lacks(before, p, to, spaced_header(names[j]), '(');
        }
        assert forall|j: int| 0 <= j < n implies !occurs(
            after,
            export_header(#[trigger] names[j]),
        ) by {
            if j < n - 1 {
                lemma_header_chars(names[j]);
                lemma_headers_apart(names[j], name);
                lemma_absent_everywhere(before, export_header(names[j]));
                lemma_replaced_lacks(before, p, to, export_header(names[j]), '(');
            }
        }
    }
}

/// Of the export headers of two different names neither ends with the
/// other.
pub proof fn lemma_exports_apart(a: Seq<char>, b: Seq<char>)
    requires
        plain_name(a),
        plain_name(b),
        a != b,
    ensures
        !has_suffix(export_header(a), export_header(b)),
{
    lemma_header_chars(a);
    lemma_header_chars(b);
    let q = export_header(a);
    let p = export_header(b);
    if has_suffix(q, p) {
        let d = q.len() - p.len();
        let part = q.subrange(d, q.len() as int);
        assert(part[6] == p[6] && part[6] == q[d + 6]);
        assert(part[0] == p[0] && part[0] == q[d]);
        assert(d == 0);
        assert(a =~= b) by {
            assert forall|x: int| 0 <= x < a.len() implies a[x] == b[x] by {
                assert(part[10 + x] == p[10 + x] && part[10 + x] == q[10 + x]);
            }
        }
    }
}

/// After the first `n` names have been made internal, the code holds the
/// internal header of each of them, and of every other name of the list
/// still the export header, or the internal header already.
pub proof fn lemma_made_internal_holds(code: Seq<char>, names: Seq<Seq<char>>, n: int)
    requires
        0 <= n <= names.len(),
        forall|j: int| 0 <= j < names.len() ==> plain_name(#[trigger] names[j]),
        names_apart(names),
        forall|j: int| 0 <= j < names.len() ==> !occurs(code, spaced_header(#[trigger] names[j])),
        forall|j: int| 0 <= j < names.len() ==> occurs(code, export_header(#[trigger] names[j])),
    ensures
        forall|j: int|
            0 <= j < names.len() ==> occurs(
                unexported_all(code, names, internal_suffix(), n),
                internal_header(#[trigger] names[j]),
            ) || occurs(
                unexported_all(code, names, internal_suffix(), n),
                export_header(names[j]),
            ),
        forall|j: int|
            0 <= j < n ==> occurs(
                unexported_all(code, names, internal_suffix(), n),
                internal_header(#[trigger] names[j]),
            ),
    decreases n,
{
    if n > 0 {
        lemma_made_internal_holds(code, names, n - 1);
        lemma_made_internal_lacks(code, names, n - 1);
        let before = unexported_all(code, names, internal_suffix(), n - 1);
        let name = names[n - 1];
        let p = export_header(name);
        let to = internal_header(name);
        let after = unexported_all(code, names, internal_suffix(), n);
        assert(!occurs(before, spaced_header(name)));
        assert(after == replaced(before, p, to));
        lemma_header_chars(name);
        assert forall|j: int| 0 <= j < names.len() implies (occurs(
            after,
            internal_header(#[trigger] names[j]),
        ) || occurs(after, export_header(names[j]))) && (names[j] == name ==> occurs(
            after,
            internal_header(names[j]),
        )) by {
            let other = names[j];
            lemma_header_chars(other);
            if occurs(before, internal_header(other)) {
                lemma_headers_apart(name, other);
                lemma_replaced_keeps(before, p, to, internal_header(other), '(');
            } else if other == name {
                lemma_replaced_holds(before, p, to);
            } else {
                lemma_exports_apart(other, name);
                lemma_exports_apart(name, other);
                lemma_replaced_keeps(before, p, to, export_header(other), '(');
            }
        }
        assert forall|j: int| 0 <= j < n implies occurs(
            after,
            internal_header(#[trigger] names[j]),
        ) by {
            if j < n - 1 {
                lemma_header_chars(names[j]);
                lemma_headers_apart(name, names[j]);
                lemma_replaced_keeps(before, p, to, internal_header(names[j]), '(');
            }
        }
    }
}

/// Every array-returning function among the first `n` has its name in the
/// list of the names that are made internal.
pub proof fn lemma_redirected_listed(fns: Seq<ExportFunctionView>, n: int, i: int) -> (j: int)
    requires
        0 <= i < n <= fns.len(),
        wrapper_mandatory(fns[i].return_type),
    ensures
        0 <= j < redirected_names(fns, n).len(),
        redirected_names(fns, n)[j] == fns[i].name,
    decreases n,
{
    if i == n - 1 {
        redirected_names(fns, n - 1).len() as int
    } else {
        lemma_redirected_listed(fns, n - 1, i)
    }
}

/// The name of an array-returning function is no longer exported by the
/// code itself: the modified code holds `export fn NAME(` for none of
/// them. This is stated for code whose array-returning functions have
/// names without space or parenthesis, none of them another one with
/// `_impl` behind it, and no header written with a space before the
/// parenthesis.
pub proof fn law_array_function_leaves_code(code: Seq<char>, i: int)
    requires
        0 <= i < exports_of(code).len(),
        wrapper_mandatory(exports_of(code)[i].return_type),
        forall|j: int|
            0 <= j < redirected_names(exports_of(code), exports_of(code).len() as int).len()
                ==> plain_name(
                #[trigger] redirected_names(exports_of(code), exports_of(code).len() as int)[j],
            ) && !occurs(
                code,
                spaced_header(
                    redirected_names(exports_of(code), exports_of(code).len() as int)[j],
                ),
            ),
        names_apart(redirected_names(exports_of(code), exports_of(code).len() as int)),
    ensures
        !occurs(with_redirected_internal(code), export_header(exports_of(code)[i].name)),
{
    let fns = exports_of(code);
    let names = redirected_names(fns, fns.len() as int);
    let j = lemma_redirected_listed(fns, fns.len() as int, i);
    lemma_made_internal_lacks(code, names, names.len() as int);
    assert(names[j] == fns[i].name);
}

/// Every array-returning function lives on in the modified code under its
/// internal name: the code holds `fn NAME_impl(` for each of them. This is
/// stated for code that holds the header `export fn NAME(` of each of them,
/// where their names are without space or parenthesis, none of them is
/// another one with `_impl` behind it, and no header is written with a
/// space before the parenthesis.
pub proof fn law_array_function_lives_on(code: Seq<char>, i: int)
    requires
        0 <= i < exports_of(code).len(),
        wrapper_mandatory(exports_of(code)[i].return_type),
        forall|j: int|
            0 <= j < redirected_names(exports_of(code), exports_of(code).len() as int).len()
                ==> plain_name(
                #[trigger] redirected_names(exports_of(code), exports_of(code).len() as int)[j],
            ) && !occurs(
                code,
                spaced_header(
                    redirected_names(exports_of(code), exports_of(code).len() as int)[j],
                ),
            ) && occurs(
                code,
                export_header(
                    redirected_names(exports_of(code), exports_of(code).len() as int)[j],
                ),
            ),
        names_apart(redirected_names(exports_of(code), exports_of(code).len() as int)),
    ensures
        occurs(with_redirected_internal(code), internal_header(exports_of(code)[i].name)),
        !occurs(with_redirected_internal(code), export_header(exports_of(code)[i].name)),
{
    let fns = exports_of(code);
    let names = redirected_names(fns, fns.len() as int);
    let j = lemma_redirected_listed(fns, fns.len() as int, i);
    lemma_made_internal_holds(code, names, names.len() as int);
    lemma_made_internal_lacks(code, names, names.len() as int);
    assert(names[j] == fns[i].name);
}

/// The array rule in the generated text. For an array-returning function
/// of the last block, the wrappers hold its wrapper, which opens with
/// `export fn NAME(PARAMS) *const TYPE {`; the modified code holds
/// `fn NAME_impl(` and no longer `export fn NAME(`.
/// The code holds the header `export fn NAME(` of each of its
/// array-returning functions; their names are without space or
/// parenthesis, none of them is another one with `_impl` behind it, and no
/// header is written with a space before the parenthesis.
pub proof fn law_array_rule_in_text(blocks: Seq<Seq<char>>, i: int)
    requires
        blocks.len() > 0,
        0 <= i < exports_of(blocks.last()).len(),
        wrapper_mandatory(exports_of(blocks.last())[i].return_type),
        forall|j: int|
            0 <= j < redirected_names(
                exports_of(blocks.last()),
                exports_of(blocks.last()).len() as int,
            ).len() ==> plain_name(
                #[trigger] redirected_names(
                    exports_of(blocks.last()),
                    exports_of(blocks.last()).len() as int,
                )[j],
            ) && !occurs(
                blocks.last(),
                spaced_header(
                    redirected_names(
                        exports_of(blocks.last()),
                        exports_of(blocks.last()).len() as int,
                    )[j],
                ),
            ) && occurs(
                blocks.last(),
                export_header(
                    redirected_names(
                        exports_of(blocks.last()),
                        exports_of(blocks.last()).len() as int,
                    )[j],
                ),
            ),
        names_apart(
            redirected_names(exports_of(blocks.last()), exports_of(blocks.last()).len() as int),
        ),
    ensures
        occurs(
            lowered_wrappers(blocks, blocks.len() as int),
            lowered_line(exports_of(blocks.last())[i]),
        ),
        has_prefix(
            lowered_line(exports_of(blocks.last())[i]),
            pointer_signature(
                exports_of(blocks.last())[i].name,
                pointer_params(exports_of(blocks.last())[i].params),
                exports_of(blocks.last())[i].return_type,
            ),
        ),
        occurs(modified_code(blocks), internal_header(exports_of(blocks.last())[i].name)),
        !occurs(modified_code(blocks), export_header(exports_of(blocks.last())[i].name)),
{
    law_wrappers_hold_each(blocks, blocks.len() as int, blocks.len() - 1, i);
    law_array_wrapper_takes_name(exports_of(blocks.last())[i]);
    law_array_function_lives_on(blocks.last(), i);
}

/// The struct rule in the generated text. For a struct-returning function
/// of the last block, the wrappers hold its pointer variant, which opens
/// with `export fn NAME__ptr_variant(PARAMS) *const TYPE {` and calls
/// `NAME`; where the block
/// has no array-returning function, the modified code is the block itself,
/// so that the export by value stays as it was written.
pub proof fn law_struct_rule_in_text(blocks: Seq<Seq<char>>, i: int)
    requires
        blocks.len() > 0,
        0 <= i < exports_of(blocks.last()).len(),
        wrapper_needed(exports_of(blocks.last())[i].return_type),
        !wrapper_mandatory(exports_of(blocks.last())[i].return_type),
    ensures
        occurs(
            lowered_wrappers(blocks, blocks.len() as int),
            lowered_line(exports_of(blocks.last())[i]),
        ),
        has_prefix(
            lowered_line(exports_of(blocks.last())[i]),
            pointer_signature(
                exports_of(blocks.last())[i].name + pointer_variant_suffix(),
                pointer_params(exports_of(blocks.last())[i].params),
                exports_of(blocks.last())[i].return_type,
            ),
        ),
        occurs(
            lowered_line(exports_of(blocks.last())[i]),
            slot_call(exports_of(blocks.last())[i].name),
        ),
        (forall|j: int|
            0 <= j < exports_of(blocks.last()).len() ==> !wrapper_mandatory(
                (#[trigger] exports_of(blocks.last())[j]).return_type,
            )) ==> modified_code(blocks) == blocks.last(),
{
    law_wrappers_hold_each(blocks, blocks.len() as int, blocks.len() - 1, i);
    law_struct_wrapper_beside_name(exports_of(blocks.last())[i]);
    if forall|j: int|
        0 <= j < exports_of(blocks.last()).len() ==> !wrapper_mandatory(
            (#[trigger] exports_of(blocks.last())[j]).return_type,
        ) {
        law_dual_export_keeps_code(blocks.last());
    }
}

/// One block that exports one function. For an array result the
/// wrappers are its redirecting wrapper and nothing else, and the modified
/// code is the block with that one header made internal; for a struct
/// result the wrappers are its pointer variant and nothing else, and the
/// modified code is the block itself; for a scalar result there is no
/// wrapper, and the modified code is the block itself.
pub proof fn law_single_export(code: Seq<char>)
    requires
        exports_of(code).len() == 1,
    ensures
        match lowering_of(exports_of(code)[0].return_type) {
            Lowering::Redirect => lowered_wrappers(seq![code], 1) == redirecting_wrapper(
                exports_of(code)[0],
            ) + seq!['\n'] && modified_code(seq![code]) == unexported(
                code,
                exports_of(code)[0].name,
                internal_suffix(),
            ),
            Lowering::DualExport => lowered_wrappers(seq![code], 1) == pointer_variant(
                exports_of(code)[0],
            ) + seq!['\n'] && modified_code(seq![code]) == code,
            Lowering::Direct => lowered_wrappers(seq![code], 1).len() == 0 && modified_code(
                seq![code],
            ) == code,
        },
{
    let fns = exports_of(code);
    let blocks = seq![code];
    assert(blocks.last() == code);
    assert(lowered_lines(fns, 1) =~= lowered_lines(fns, 0) + lowered_line(fns[0]));
    assert(lowered_lines(fns, 1) =~= lowered_line(fns[0]));
    assert(lowered_wrappers(blocks, 1) =~= lowered_wrappers(blocks, 0) + lowered_lines(fns, 1));
    assert(lowered_wrappers(blocks, 1) =~= lowered_line(fns[0]));
    let names = redirected_names(fns, 1);
    assert(redirected_names(fns, 0).len() == 0);
    if lowering_of(fns[0].return_type) == Lowering::Redirect {
        assert(names =~= seq![fns[0].name]);
        assert(unexported_all(code, names, internal_suffix(), 1) == unexported(
            unexported_all(code, names, internal_suffix(), 0),
            names[0],
            internal_suffix(),
        ));
    } else {
        assert(names.len() == 0);
    }
}

/// The embedded code of a main module holds every block, with its
/// array-returning functions made internal.
pub proof fn lemma_paragraphs_hold_each(codes: Seq<Seq<char>>, n: int, k: int)
    requires
        0 <= k < n <= codes.len(),
    ensures
        occurs(embedded_paragraphs(codes, n), with_redirected_internal(codes[k])),
    decreases n,
{
    let block = with_redirected_internal(codes[k]);
    let before = embedded_paragraphs(codes, n - 1);
    if k == n - 1 {
        assert(embedded_paragraphs(codes, n) =~= before + block + "\n\n"@);
        assert(block.subrange(0, block.len() as int) =~= block);
        lemma_matches_inside(before, block, "\n\n"@, block, 0);
        lemma_occurs_at(embedded_paragraphs(codes, n), block, before.len() as int);
    } else {
        lemma_paragraphs_hold_each(codes, n - 1, k);
        assert(embedded_paragraphs(codes, n) =~= Seq::<char>::empty() + before + (
        with_redirected_internal(codes[n - 1]) + "\n\n"@));
        lemma_occurs_inside(
            Seq::empty(),
            before,
            with_redirected_internal(codes[n - 1]) + "\n\n"@,
            block,
        );
    }
}

/// The main module of a modular build lowers every block as a merged
/// build does: it holds each block with its array-returning functions made
/// internal, and the wrapper of every exported function of every block.
pub proof fn law_main_module_lowers_each_block(
    codes: Seq<Seq<char>>,
    files: Seq<Option<Seq<char>>>,
    k: int,
    i: int,
)
    requires
        0 <= k < codes.len(),
        0 <= i < exports_of(codes[k]).len(),
    ensures
        occurs(main_module(codes, files), with_redirected_internal(codes[k])),
        occurs(main_module(codes, files), lowered_line(exports_of(codes[k])[i])),
{
    let main = main_module(codes, files);
    let head = (if imports_std(codes, codes.len() as int) {
        Seq::<char>::empty()
    } else {
        std_header()
    }) + import_lines(files, files.len() as int) + keep_block(files.len() as int);
    let title = "// Embedded code from autozig! macros\n"@;
    let paragraphs = embedded_paragraphs(codes, codes.len() as int);
    let block = with_redirected_internal(codes[k]);
    lemma_paragraphs_hold_each(codes, codes.len() as int, k);
    assert(main =~= (head + title) + paragraphs + wrappers_block(codes));
    lemma_occurs_inside(head + title, paragraphs, wrappers_block(codes), block);

    let line = lowered_line(exports_of(codes[k])[i]);
    let abi = lowered_wrappers(codes, codes.len() as int);
    law_wrappers_hold_each(codes, codes.len() as int, k, i);
    if line.len() == 0 {
        assert(main.subrange(0, 0) =~= line);
        lemma_occurs_at(main, line, 0);
    } else {
        let at = lemma_occurs_position(abi, line);
        assert(abi.len() > 0);
        assert(main =~= (head + embedded_block(codes) + lowering_banner()) + abi + "\n"@);
        lemma_occurs_inside(head + embedded_block(codes) + lowering_banner(), abi, "\n"@, line);
    }
}

} // verus!
