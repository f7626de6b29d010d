//! Where export headers stand in the generated wrappers: each wrapper
//! opens with one, and the wrappers hold the word `export` nowhere else,
//! as long as the names, parameters and types that they are made of hold
//! none.

use vstd::prelude::*;
use crate::engine::{
    lowered_line, lowered_lines, lowered_wrappers, modified_code, redirected_names,
};
use crate::exports::{
    exports_of, internal_suffix, lowering_of, pointer_variant_suffix, wrapper_mandatory,
    ExportFunctionView, Lowering,
};
use crate::symbols::{
    export_header, internal_header, names_apart, plain_name, pointer_signature, spaced_header,
};
use crate::text::{matches_at, occurs};
use crate::wrapper::{forwarding_args, pointer_params, static_slot_wrapper};

verus! {

/// The word that every export header opens with.
pub open spec fn keyword() -> Seq<char> {
    "export"@
}

/// The text holds the word `export` nowhere.
pub open spec fn lacks_keyword(s: Seq<char>) -> bool {
    forall|j: int| !matches_at(s, keyword(), j)
}

/// The text holds the word `export` at its start or nowhere.
pub open spec fn keyword_at_start_only(s: Seq<char>) -> bool {
    forall|j: int| matches_at(s, keyword(), j) ==> j == 0
}

/// The text does not end with a letter that the word goes on behind.
pub open spec fn ends_clear(a: Seq<char>) -> bool {
    a.len() == 0 || (a.last() != 'e' && a.last() != 'x' && a.last() != 'p' && a.last() != 'o'
        && a.last() != 'r')
}

/// The text does not open with a letter that goes on with the word.
pub open spec fn starts_clear(b: Seq<char>) -> bool {
    b.len() == 0 || (b[0] != 'x' && b[0] != 'p' && b[0] != 'o' && b[0] != 'r' && b[0] != 't')
}

/// Where two texts are joined and one of them is clear at the joint, the
/// word stands in one of the two, not across the joint.
pub proof fn lemma_joint(a: Seq<char>, b: Seq<char>, j: int)
    requires
        matches_at(a + b, keyword(), j),
        ends_clear(a) || starts_clear(b),
    ensures
        matches_at(a, keyword(), j) || (j >= a.len() && matches_at(b, keyword(), j - a.len())),
{
    reveal_strlit("export");
    let s = a + b;
    let part = s.subrange(j, j + 6);
    assert(part == keyword());
    if j + 6 <= a.len() {
        assert(a.subrange(j, j + 6) =~= part);
    } else if j >= a.len() {
        assert(b.subrange(j - a.len(), j - a.len() + 6) =~= part);
    } else {
        let m = a.len() - j;
        assert(part[m - 1] == s[a.len() - 1]);
        assert(part[m] == s[a.len() as int]);
        assert(s[a.len() - 1] == a.last());
        assert(s[a.len() as int] == b[0]);
    }
}

/// Two texts without the word, one of them clear at the joint, give a
/// text without the word.
pub proof fn lemma_joined_lacks(a: Seq<char>, b: Seq<char>)
    requires
        lacks_keyword(a),
        lacks_keyword(b),
        ends_clear(a) || starts_clear(b),
    ensures
        lacks_keyword(a + b),
{
    assert forall|j: int| !matches_at(a + b, keyword(), j) by {
        if matches_at(a + b, keyword(), j) {
            lemma_joint(a, b, j);
        }
    }
}

/// A text with the word at its start only, joined by a text without the
/// word, has the word at its start only.
pub proof fn lemma_joined_start_only(a: Seq<char>, b: Seq<char>)
    requires
        keyword_at_start_only(a),
        lacks_keyword(b),
        ends_clear(a) || starts_clear(b),
    ensures
        keyword_at_start_only(a + b),
{
    assert forall|j: int| matches_at(a + b, keyword(), j) implies j == 0 by {
        lemma_joint(a, b, j);
    }
}

/// A text without the letter `x` is without the word.
pub proof fn lemma_no_x(s: Seq<char>)
    requires
        forall|i: int| 0 <= i < s.len() ==> s[i] != 'x',
    ensures
        lacks_keyword(s),
{
    reveal_strlit("export");
    assert forall|j: int| !matches_at(s, keyword(), j) by {
        if matches_at(s, keyword(), j) {
            assert(s.subrange(j, j + 6)[1] == s[j + 1]);
        }
    }
}

/// The fixed parts of a static-slot wrapper hold the word nowhere, and none
/// of them opens with a letter that goes on with the word or ends with one
/// that the word goes on behind.
pub proof fn lemma_fixed_parts()
    ensures
        keyword_at_start_only("export fn "@),
        ends_clear("export fn "@),
        "export fn "@.len() == 10,
        lacks_keyword("("@) && starts_clear("("@) && "("@.len() == 1 && "("@.last() == '(',
        lacks_keyword(") *const "@) && starts_clear(") *const "@) && ") *const "@.len() == 9
            && ") *const "@.last() == ' ',
        lacks_keyword(" {\n    // "@) && starts_clear(" {\n    // "@) && " {\n    // "@.len() == 10
            && " {\n    // "@.last() == ' ',
        lacks_keyword("\n    const static = struct {\n        var result: "@) && starts_clear(
            "\n    const static = struct {\n        var result: "@,
        ) && "\n    const static = struct {\n        var result: "@.len() == 49
            && "\n    const static = struct {\n        var result: "@.last() == ' ',
        lacks_keyword(" = undefined;\n    };\n    static.result = "@) && starts_clear(
            " = undefined;\n    };\n    static.result = "@,
        ) && " = undefined;\n    };\n    static.result = "@.len() == 41
            && " = undefined;\n    };\n    static.result = "@.last() == ' ',
        lacks_keyword(");\n    return &static.result;\n}"@) && starts_clear(
            ");\n    return &static.result;\n}"@,
        ),
        lacks_keyword("Macro expects pointer return for array types"@),
        lacks_keyword("ABI-safe wrapper: returns pointer instead of struct by value"@),
        lacks_keyword(internal_suffix()) && starts_clear(internal_suffix()),
        lacks_keyword(pointer_variant_suffix()) && starts_clear(pointer_variant_suffix()),
{
    reveal_strlit("export");
    reveal_strlit("export fn ");
    reveal_strlit("(");
    reveal_strlit(") *const ");
    reveal_strlit(" {\n    // ");
    reveal_strlit("\n    const static = struct {\n        var result: ");
    reveal_strlit(" = undefined;\n    };\n    static.result = ");
    reveal_strlit(");\n    return &static.result;\n}");
    reveal_strlit("Macro expects pointer return for array types");
    reveal_strlit("ABI-safe wrapper: returns pointer instead of struct by value");
    reveal_strlit("_impl");
    reveal_strlit("__ptr_variant");
    assert forall|j: int| matches_at("export fn "@, keyword(), j) implies j == 0 by {
        assert("export fn "@.subrange(j, j + 6)[1] == "export fn "@[j + 1]);
    }
    lemma_no_x("("@);
    lemma_no_x(") *const "@);
    lemma_no_x(" {\n    // "@);
    lemma_no_x("\n    const static = struct {\n        var result: "@);
    lemma_no_x(" = undefined;\n    };\n    static.result = "@);
    lemma_no_x(");\n    return &static.result;\n}"@);
    lemma_no_x("ABI-safe wrapper: returns pointer instead of struct by value"@);
    lemma_no_x("_impl"@);
    lemma_no_x("__ptr_variant"@);
    let note = "Macro expects pointer return for array types"@;
    assert forall|j: int| !matches_at(note, keyword(), j) by {
        if matches_at(note, keyword(), j) {
            assert(note.subrange(j, j + 6)[1] == note[j + 1]);
            assert(note.subrange(j, j + 6)[3] == note[j + 3]);
        }
    }
}

/// A static-slot wrapper whose name, parameters, types, note, callee and
/// arguments hold the word nowhere holds it at its start and nowhere else.
pub proof fn lemma_wrapper_keyword(
    export_name: Seq<char>,
    params: Seq<char>,
    return_type: Seq<char>,
    note: Seq<char>,
    callee: Seq<char>,
    args: Seq<char>,
)
    requires
        lacks_keyword(export_name),
        lacks_keyword(params),
        lacks_keyword(return_type),
        lacks_keyword(note),
        lacks_keyword(callee),
        lacks_keyword(args),
    ensures
        keyword_at_start_only(
            static_slot_wrapper(export_name, params, return_type, note, callee, args) + seq![
                '\n',
            ],
        ),
{
    lemma_fixed_parts();
    let a0 = "export fn "@;
    let a1 = a0 + export_name;
    lemma_joined_start_only(a0, export_name);
    let a2 = a1 + "("@;
    lemma_joined_start_only(a1, "("@);
    assert(a2.last() == '(');
    let a3 = a2 + params;
    lemma_joined_start_only(a2, params);
    let a4 = a3 + ") *const "@;
    lemma_joined_start_only(a3, ") *const "@);
    assert(a4.last() == ' ');
    let a5 = a4 + return_type;
    lemma_joined_start_only(a4, return_type);
    let a6 = a5 + " {\n    // "@;
    lemma_joined_start_only(a5, " {\n    // "@);
    assert(a6.last() == ' ');
    let a7 = a6 + note;
    lemma_joined_start_only(a6, note);
    let a8 = a7 + "\n    const static = struct {\n        var result: "@;
    lemma_joined_start_only(a7, "\n    const static = struct {\n        var result: "@);
    assert(a8.last() == ' ');
    let a9 = a8 + return_type;
    lemma_joined_start_only(a8, return_type);
    let a10 = a9 + " = undefined;\n    };\n    static.result = "@;
    lemma_joined_start_only(a9, " = undefined;\n    };\n    static.result = "@);
    assert(a10.last() == ' ');
    let a11 = a10 + callee;
    lemma_joined_start_only(a10, callee);
    let a12 = a11 + "("@;
    lemma_joined_start_only(a11, "("@);
    assert(a12.last() == '(');
    let a13 = a12 + args;
    lemma_joined_start_only(a12, args);
    let a14 = a13 + ");\n    return &static.result;\n}"@;
    lemma_joined_start_only(a13, ");\n    return &static.result;\n}"@);
    let end = seq!['\n'];
    assert(lacks_keyword(end)) by {
        lemma_no_x(end);
    }
    lemma_joined_start_only(a14, end);
    assert(a14 == static_slot_wrapper(export_name, params, return_type, note, callee, args));
}

// ---------------------------------------------------------------------------
// The wrappers of a block
// ---------------------------------------------------------------------------

/// The name under which the wrapper of `f` is exported: its own for an
/// array result, the derived one for a struct result; none for a scalar.
pub open spec fn export_name_of(f: ExportFunctionView) -> Option<Seq<char>> {
    match lowering_of(f.return_type) {
        Lowering::Direct => None,
        Lowering::DualExport => Some(f.name + pointer_variant_suffix()),
        Lowering::Redirect => Some(f.name),
    }
}

/// What the wrapper of `f` is made of holds the word `export` nowhere: its
/// name, its return type, and its parameters as the wrapper takes and
/// forwards them. The name is without space and parenthesis.
pub open spec fn plainly_written(f: ExportFunctionView) -> bool {
    plain_name(f.name) && lacks_keyword(f.name) && lacks_keyword(pointer_params(f.params))
        && lacks_keyword(f.return_type) && lacks_keyword(forwarding_args(f.params))
}

/// The wrapper of a plainly written function holds the word at its start
/// only, ends with a line feed where it is not empty, and opens with the
/// export header of its name.
pub proof fn lemma_line_keyword(f: ExportFunctionView)
    requires
        plainly_written(f),
    ensures
        keyword_at_start_only(lowered_line(f)),
        ends_clear(lowered_line(f)),
        match export_name_of(f) {
            Some(e) => plain_name(e) && matches_at(lowered_line(f), export_header(e), 0),
            None => lowered_line(f).len() == 0,
        },
{
    lemma_fixed_parts();
    reveal_strlit("_impl");
    reveal_strlit("__ptr_variant");
    match lowering_of(f.return_type) {
        Lowering::Direct => {},
        Lowering::DualExport => {
            let e = f.name + pointer_variant_suffix();
            lemma_joined_lacks(f.name, pointer_variant_suffix());
            lemma_wrapper_keyword(
                e,
                pointer_params(f.params),
                f.return_type,
                "ABI-safe wrapper: returns pointer instead of struct by value"@,
                f.name,
                forwarding_args(f.params),
            );
            crate::symbols::lemma_wrapper_text(
                e,
                pointer_params(f.params),
                f.return_type,
                "ABI-safe wrapper: returns pointer instead of struct by value"@,
                f.name,
                forwarding_args(f.params),
            );
        },
        Lowering::Redirect => {
            lemma_joined_lacks(f.name, internal_suffix());
            lemma_wrapper_keyword(
                f.name,
                pointer_params(f.params),
                f.return_type,
                "Macro expects pointer return for array types"@,
                f.name + internal_suffix(),
                forwarding_args(f.params),
            );
            crate::symbols::lemma_wrapper_text(
                f.name,
                pointer_params(f.params),
                f.return_type,
                "Macro expects pointer return for array types"@,
                f.name + internal_suffix(),
                forwarding_args(f.params),
            );
        },
    }
}

/// The wrappers of the first `i` functions open the wrappers of the first
/// `n`, and the wrapper of the function at `i` follows them.
pub proof fn lemma_lines_open(fns: Seq<ExportFunctionView>, i: int, n: int)
    requires
        0 <= i < n <= fns.len(),
    ensures
        matches_at(lowered_lines(fns, n), lowered_line(fns[i]), lowered_lines(fns, i).len() as int),
    decreases n,
{
    let line = lowered_line(fns[i]);
    let before = lowered_lines(fns, i);
    if i == n - 1 {
        assert(lowered_lines(fns, n).subrange(before.len() as int, before.len() as int + line.len())
            =~= line);
    } else {
        lemma_lines_open(fns, i, n - 1);
        let shorter = lowered_lines(fns, n - 1);
        assert(shorter.subrange(before.len() as int, before.len() as int + line.len()) == line);
        assert(lowered_lines(fns, n).subrange(before.len() as int, before.len() as int + line.len())
            =~= shorter.subrange(before.len() as int, before.len() as int + line.len()));
    }
}

/// The wrappers of plainly written functions end with a line feed, where
/// there is any.
pub proof fn lemma_lines_end_clear(fns: Seq<ExportFunctionView>, n: int)
    requires
        0 <= n <= fns.len(),
        forall|k: int| 0 <= k < n ==> plainly_written(#[trigger] fns[k]),
    ensures
        ends_clear(lowered_lines(fns, n)),
    decreases n,
{
    if n > 0 {
        lemma_lines_end_clear(fns, n - 1);
        lemma_line_keyword(fns[n - 1]);
        let before = lowered_lines(fns, n - 1);
        let line = lowered_line(fns[n - 1]);
        if line.len() == 0 {
            assert(lowered_lines(fns, n) =~= before);
        } else {
            assert(lowered_lines(fns, n).last() == line.last());
        }
    }
}

/// In the wrappers of plainly written functions the word `export` stands
/// where a wrapper starts, and nowhere else.
pub proof fn lemma_lines_keyword(fns: Seq<ExportFunctionView>, n: int, j: int) -> (i: int)
    requires
        0 <= n <= fns.len(),
        forall|k: int| 0 <= k < n ==> plainly_written(#[trigger] fns[k]),
        matches_at(lowered_lines(fns, n), keyword(), j),
    ensures
        0 <= i < n,
        lowered_line(fns[i]).len() > 0,
        j == lowered_lines(fns, i).len(),
    decreases n,
{
    reveal_strlit("export");
    if n <= 0 {
        assert(lowered_lines(fns, n).len() == 0);
        0
    } else {
        let before = lowered_lines(fns, n - 1);
        let line = lowered_line(fns[n - 1]);
        lemma_lines_end_clear(fns, n - 1);
        lemma_line_keyword(fns[n - 1]);
        lemma_joint(before, line, j);
        if matches_at(before, keyword(), j) {
            lemma_lines_keyword(fns, n - 1, j)
        } else {
            assert(matches_at(line, keyword(), j - before.len()));
            n - 1
        }
    }
}

/// In the wrappers of plainly written functions the export header of a
/// name stands where the wrapper that is exported under that name starts,
/// and nowhere else.
pub proof fn lemma_header_position(fns: Seq<ExportFunctionView>, n: int, e: Seq<char>, j: int) -> (i:
    int)
    requires
        0 <= n <= fns.len(),
        forall|k: int| 0 <= k < n ==> plainly_written(#[trigger] fns[k]),
        plain_name(e),
        matches_at(lowered_lines(fns, n), export_header(e), j),
    ensures
        0 <= i < n,
        export_name_of(fns[i]) == Some(e),
        j == lowered_lines(fns, i).len(),
{
    reveal_strlit("export");
    reveal_strlit("export fn ");
    reveal_strlit("(");
    let lines = lowered_lines(fns, n);
    let h = export_header(e);
    let found = lines.subrange(j, j + h.len());
    assert(found == h);
    assert(lines.subrange(j, j + 6) =~= keyword()) by {
        assert forall|x: int| 0 <= x < 6 implies lines[j + x] == keyword()[x] by {
            assert(found[x] == lines[j + x]);
        }
    }
    let i = lemma_lines_keyword(fns, n, j);
    let line = lowered_line(fns[i]);
    lemma_line_keyword(fns[i]);
    lemma_lines_open(fns, i, n);
    let en = export_name_of(fns[i])->0;
    let hi = export_header(en);
    let held = lines.subrange(j, j + line.len());
    assert(held == line);
    let opening = line.subrange(0, hi.len() as int);
    assert(opening == hi);
    assert forall|x: int| 0 <= x < hi.len() && x < h.len() implies hi[x] == h[x] by {
        assert(opening[x] == line[x]);
        assert(held[x] == lines[j + x]);
        assert(found[x] == lines[j + x]);
    }
    if en.len() < e.len() {
        assert(hi[10 + en.len() as int] == h[10 + en.len() as int]);
        assert(h[10 + en.len() as int] == e[en.len() as int]);
    } else if en.len() > e.len() {
        assert(hi[10 + e.len() as int] == h[10 + e.len() as int]);
        assert(hi[10 + e.len() as int] == en[e.len() as int]);
    } else {
        assert(en =~= e) by {
            assert forall|x: int| 0 <= x < e.len() implies en[x] == e[x] by {
                assert(hi[10 + x] == h[10 + x]);
            }
        }
    }
    i
}

// ---------------------------------------------------------------------------
// Exported once
// ---------------------------------------------------------------------------

/// The functions of the block are plainly written, and the function at
/// `i` is the only one whose wrapper is exported under its name.
pub open spec fn alone_under_its_name(fns: Seq<ExportFunctionView>, i: int) -> bool {
    &&& 0 <= i < fns.len()
    &&& export_name_of(fns[i]) is Some
    &&& forall|k: int| 0 <= k < fns.len() ==> plainly_written(#[trigger] fns[k])
    &&& forall|k: int|
        0 <= k < fns.len() && k != i ==> export_name_of(#[trigger] fns[k]) != export_name_of(
            fns[i],
        )
}

/// The wrappers of one block hold the export header of a wrapper exactly
/// once: where that wrapper starts. This is stated for a block of plainly
/// written functions in which no other wrapper is exported under the same
/// name.
pub proof fn law_wrapper_header_once(code: Seq<char>, i: int)
    requires
        alone_under_its_name(exports_of(code), i),
    ensures
        forall|j: int|
            matches_at(
                lowered_wrappers(seq![code], 1),
                export_header(export_name_of(exports_of(code)[i])->0),
                j,
            ) <==> j == lowered_lines(exports_of(code), i).len(),
{
    let fns = exports_of(code);
    let n = fns.len() as int;
    let e = export_name_of(fns[i])->0;
    let h = export_header(e);
    let lines = lowered_lines(fns, n);
    let blocks = seq![code];
    assert(lowered_wrappers(blocks, 1) =~= lowered_wrappers(blocks, 0) + lines);
    assert(lowered_wrappers(blocks, 1) =~= lines);
    let at = lowered_lines(fns, i).len() as int;
    let line = lowered_line(fns[i]);
    lemma_line_keyword(fns[i]);
    lemma_lines_open(fns, i, n);
    assert(matches_at(lines, h, at)) by {
        let held = lines.subrange(at, at + line.len());
        let opening = line.subrange(0, h.len() as int);
        assert(lines.subrange(at, at + h.len()) =~= h) by {
            assert forall|x: int| 0 <= x < h.len() implies lines[at + x] == h[x] by {
                assert(held[x] == lines[at + x]);
                assert(opening[x] == line[x]);
            }
        }
    }
    assert forall|j: int| matches_at(lines, h, j) implies j == at by {
        let k = lemma_header_position(fns, n, e, j);
    }
}

/// An array-returning function is exported once: by its wrapper, which
/// returns a pointer. The wrappers hold `export fn NAME(` exactly once,
/// where the wrapper starts, and the modified code holds it nowhere. This
/// is stated for a block of plainly written functions that holds the
/// header `export fn NAME(` of each array-returning function and none
/// written with a space before the parenthesis, in which no other wrapper
/// is exported under that name and no array-returning function is named
/// like another one with `_impl` behind it.
pub proof fn law_array_name_exported_once(code: Seq<char>, i: int)
    requires
        alone_under_its_name(exports_of(code), i),
        wrapper_mandatory(exports_of(code)[i].return_type),
        forall|j: int|
            0 <= j < redirected_names(exports_of(code), exports_of(code).len() as int).len()
                ==> !occurs(
                code,
                spaced_header(
                    #[trigger] redirected_names(exports_of(code), exports_of(code).len() as int)[j],
                ),
            ) && occurs(
                code,
                export_header(
                    redirected_names(exports_of(code), exports_of(code).len() as int)[j],
                ),
            ),
        names_apart(redirected_names(exports_of(code), exports_of(code).len() as int)),
    ensures
        forall|j: int|
            matches_at(
                lowered_wrappers(seq![code], 1),
                export_header(exports_of(code)[i].name),
                j,
            ) <==> j == lowered_lines(exports_of(code), i).len(),
        matches_at(
            lowered_wrappers(seq![code], 1),
            pointer_signature(
                exports_of(code)[i].name,
                pointer_params(exports_of(code)[i].params),
                exports_of(code)[i].return_type,
            ),
            lowered_lines(exports_of(code), i).len() as int,
        ),
        forall|j: int| !matches_at(modified_code(seq![code]), export_header(exports_of(code)[i].name), j),
        occurs(modified_code(seq![code]), internal_header(exports_of(code)[i].name)),
{
    let fns = exports_of(code);
    let n = fns.len() as int;
    let names = redirected_names(fns, n);
    law_wrapper_header_once(code, i);
    lemma_signature_position(code, i);
    assert forall|j: int| 0 <= j < names.len() implies plain_name(#[trigger] names[j]) by {
        lemma_redirected_from(fns, n, j);
    }
    assert(seq![code].last() == code);
    crate::symbols::law_array_function_lives_on(code, i);
    crate::symbols::lemma_absent_everywhere(
        modified_code(seq![code]),
        export_header(fns[i].name),
    );
}

/// A struct-returning function is exported twice: by the code itself, and
/// by its pointer variant. The wrappers hold `export fn NAME__ptr_variant(`
/// exactly once, where the variant starts, and the variant returns a
/// pointer; where the block has no array-returning function, the modified
/// code is the block itself. This is stated for a block of plainly written
/// functions in which no other wrapper is exported under the derived name.
pub proof fn law_pointer_variant_exported_once(code: Seq<char>, i: int)
    requires
        alone_under_its_name(exports_of(code), i),
        lowering_of(exports_of(code)[i].return_type) == Lowering::DualExport,
    ensures
        forall|j: int|
            matches_at(
                lowered_wrappers(seq![code], 1),
                export_header(exports_of(code)[i].name + pointer_variant_suffix()),
                j,
            ) <==> j == lowered_lines(exports_of(code), i).len(),
        matches_at(
            lowered_wrappers(seq![code], 1),
            pointer_signature(
                exports_of(code)[i].name + pointer_variant_suffix(),
                pointer_params(exports_of(code)[i].params),
                exports_of(code)[i].return_type,
            ),
            lowered_lines(exports_of(code), i).len() as int,
        ),
        exports_of(code)[i].name + pointer_variant_suffix() != exports_of(code)[i].name,
        (forall|k: int|
            0 <= k < exports_of(code).len() ==> !wrapper_mandatory(
                (#[trigger] exports_of(code)[k]).return_type,
            )) ==> modified_code(seq![code]) == code,
{
    law_wrapper_header_once(code, i);
    lemma_signature_position(code, i);
    reveal_strlit("__ptr_variant");
    assert(seq![code].last() == code);
    if forall|k: int|
        0 <= k < exports_of(code).len() ==> !wrapper_mandatory(
            (#[trigger] exports_of(code)[k]).return_type,
        ) {
        crate::symbols::law_dual_export_keeps_code(code);
    }
}

/// The wrapper of the function at `i` opens, where it starts in the
/// wrappers of the block, with its signature: the export header, the
/// parameters, and the pointer to the result type.
pub proof fn lemma_signature_position(code: Seq<char>, i: int)
    requires
        0 <= i < exports_of(code).len(),
        export_name_of(exports_of(code)[i]) is Some,
    ensures
        matches_at(
            lowered_wrappers(seq![code], 1),
            pointer_signature(
                export_name_of(exports_of(code)[i])->0,
                pointer_params(exports_of(code)[i].params),
                exports_of(code)[i].return_type,
            ),
            lowered_lines(exports_of(code), i).len() as int,
        ),
{
    let fns = exports_of(code);
    let n = fns.len() as int;
    let f = fns[i];
    let lines = lowered_lines(fns, n);
    let blocks = seq![code];
    assert(lowered_wrappers(blocks, 1) =~= lowered_wrappers(blocks, 0) + lines);
    assert(lowered_wrappers(blocks, 1) =~= lines);
    let at = lowered_lines(fns, i).len() as int;
    let line = lowered_line(f);
    let sig = pointer_signature(export_name_of(f)->0, pointer_params(f.params), f.return_type);
    lemma_lines_open(fns, i, n);
    match lowering_of(f.return_type) {
        Lowering::Direct => {},
        Lowering::DualExport => {
            crate::symbols::lemma_wrapper_text(
                f.name + pointer_variant_suffix(),
                pointer_params(f.params),
                f.return_type,
                "ABI-safe wrapper: returns pointer instead of struct by value"@,
                f.name,
                forwarding_args(f.params),
            );
        },
        Lowering::Redirect => {
            crate::symbols::lemma_wrapper_text(
                f.name,
                pointer_params(f.params),
                f.return_type,
                "Macro expects pointer return for array types"@,
                f.name + internal_suffix(),
                forwarding_args(f.params),
            );
        },
    }
    assert(matches_at(line, sig, 0));
    let held = lines.subrange(at, at + line.len());
    let opening = line.subrange(0, sig.len() as int);
    assert(lines.subrange(at, at + sig.len()) =~= sig) by {
        assert forall|x: int| 0 <= x < sig.len() implies lines[at + x] == sig[x] by {
            assert(held[x] == lines[at + x]);
            assert(opening[x] == line[x]);
        }
    }
}

/// Each name that is made internal is the name of a function of the list.
pub proof fn lemma_redirected_from(fns: Seq<ExportFunctionView>, n: int, j: int) -> (k: int)
    requires
        0 <= n <= fns.len(),
        0 <= j < redirected_names(fns, n).len(),
    ensures
        0 <= k < n,
        redirected_names(fns, n)[j] == fns[k].name,
    decreases n,
{
    if n <= 0 {
        0
    } else if lowering_of(fns[n - 1].return_type) == Lowering::Redirect && j == redirected_names(
        fns,
        n - 1,
    ).len() {
        n - 1
    } else {
        lemma_redirected_from(fns, n - 1, j)
    }
}

} // verus!
