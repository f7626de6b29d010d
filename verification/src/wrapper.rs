//! The text of the pointer-returning wrappers, and the renaming that makes
//! room for them.

use vstd::prelude::*;
use crate::text::{contains, from_chars, index_of, occurs, slice, to_chars, trim, trimmed};
use crate::edit::{
    join_strings, joined, pieces, replace, replaced, split, split_once, split_once_at,
    string_views, views,
};
use crate::exports::{needs_wrapper, wrapper_needed, ExportFunction, ExportFunctionView};

verus! {

// ---------------------------------------------------------------------------
// Parameters
// ---------------------------------------------------------------------------

/// The name and the type of one declared parameter `name: Type`, each
/// trimmed; none for a blank piece or one without a colon.
pub open spec fn declared_param(piece: Seq<char>) -> Option<(Seq<char>, Seq<char>)> {
    let p = trimmed(piece);
    if p.len() == 0 {
        None
    } else {
        match split_once_at(p, ':') {
            Some((name, ty)) => Some((trimmed(name), trimmed(ty))),
            None => None,
        }
    }
}

/// The wrapper's parameter for a declared one: an aggregate is taken by
/// const pointer.
pub open spec fn wrapper_param(name: Seq<char>, ty: Seq<char>) -> Seq<char> {
    if wrapper_needed(ty) {
        name + " : *const "@ + ty
    } else {
        name + " : "@ + ty
    }
}

/// What the wrapper forwards for a declared parameter: an aggregate is
/// dereferenced.
pub open spec fn forwarded_arg(name: Seq<char>, ty: Seq<char>) -> Seq<char> {
    if wrapper_needed(ty) {
        name + ".*"@
    } else {
        name
    }
}

/// The wrapper's parameters for the pieces of a declared parameter list.
pub open spec fn wrapper_params_of(ps: Seq<Seq<char>>) -> Seq<Seq<char>>
    decreases ps.len(),
{
    if ps.len() == 0 {
        Seq::empty()
    } else {
        let rest = wrapper_params_of(ps.drop_last());
        match declared_param(ps.last()) {
            Some((name, ty)) => rest.push(wrapper_param(name, ty)),
            None => rest,
        }
    }
}

/// What the wrapper forwards for the pieces of a declared parameter list.
pub open spec fn forwarded_args_of(ps: Seq<Seq<char>>) -> Seq<Seq<char>>
    decreases ps.len(),
{
    if ps.len() == 0 {
        Seq::empty()
    } else {
        let rest = forwarded_args_of(ps.drop_last());
        match declared_param(ps.last()) {
            Some((name, ty)) => rest.push(forwarded_arg(name, ty)),
            None => rest,
        }
    }
}

/// The wrapper's parameter list for the declared list `params`.
pub open spec fn pointer_params(params: Seq<char>) -> Seq<char> {
    joined(wrapper_params_of(pieces(params, ',')), " , "@)
}

/// The arguments that the wrapper forwards for the declared list `params`.
pub open spec fn forwarding_args(params: Seq<char>) -> Seq<char> {
    joined(forwarded_args_of(pieces(params, ',')), ", "@)
}

/// Turns aggregate parameters into const-pointer parameters. Returns the
/// wrapper's parameter list and the arguments it forwards.
pub fn convert_params_to_ptrs(params: &str) -> (r: (String, String))
    ensures
        r.0@ == pointer_params(params@),
        r.1@ == forwarding_args(params@),
{
    let text = to_chars(params);
    let parts = split(text.as_slice(), ',');
    let mut wrapper_params: Vec<String> = Vec::new();
    let mut forwarding: Vec<String> = Vec::new();
    let mut i: usize = 0;
    while i < parts.len()
        invariant
            i <= parts@.len(),
            string_views(wrapper_params@) == wrapper_params_of(views(parts@).take(i as int)),
            string_views(forwarding@) == forwarded_args_of(views(parts@).take(i as int)),
        decreases parts.len() - i,
    {
        proof {
            let next = views(parts@).take(i + 1);
            assert(next.drop_last() =~= views(parts@).take(i as int));
            assert(next.last() == parts@[i as int]@);
        }
        let ghost wp = wrapper_params@;
        let ghost fa = forwarding@;
        let p = trim(parts[i].as_slice());
        if p.len() > 0 {
            if let Some((name, ty)) = split_once(p, ':') {
                let name = trim(name);
                let ty = trim(ty);
                let mut param = from_chars(name);
                let mut arg = from_chars(name);
                if needs_wrapper(ty) {
                    param.append(" : *const ");
                    arg.append(".*");
                } else {
                    param.append(" : ");
                }
                param.append(from_chars(ty).as_str());
                wrapper_params.push(param);
                forwarding.push(arg);
                proof {
                    assert(string_views(wrapper_params@) =~= string_views(wp).push(
                        wrapper_param(name@, ty@),
                    ));
                    assert(string_views(forwarding@) =~= string_views(fa).push(
                        forwarded_arg(name@, ty@),
                    ));
                }
            }
        }
        i += 1;
    }
    assert(views(parts@).take(parts@.len() as int) =~= views(parts@));
    (join_strings(&wrapper_params, " , "), join_strings(&forwarding, ", "))
}

/// What stands before the first colon of `p`, or all of `p` without one.
pub open spec fn before_colon(p: Seq<char>) -> Seq<char> {
    match index_of(p, ':') {
        Some(j) => p.subrange(0, j),
        None => p,
    }
}

/// The name that the piece `piece` of a parameter list declares.
pub open spec fn param_name(piece: Seq<char>) -> Seq<char> {
    trimmed(before_colon(trimmed(piece)))
}

/// The names of the parameters of `params`, separated by `, `.
pub open spec fn param_names(params: Seq<char>) -> Seq<char> {
    if trimmed(params).len() == 0 {
        Seq::empty()
    } else {
        joined(pieces(params, ',').map_values(|p: Seq<char>| param_name(p)), ", "@)
    }
}

/// The parameter names of a parameter list, for forwarding.
pub fn extract_param_names(params: &str) -> (r: String)
    ensures
        r@ == param_names(params@),
{
    let text = to_chars(params);
    if trim(text.as_slice()).len() == 0 {
        return String::new();
    }
    let parts = split(text.as_slice(), ',');
    let mut names: Vec<String> = Vec::new();
    let mut i: usize = 0;
    while i < parts.len()
        invariant
            i <= parts@.len(),
            string_views(names@) == views(parts@).take(i as int).map_values(
                |p: Seq<char>| param_name(p),
            ),
        decreases parts.len() - i,
    {
        let ghost before = names@;
        let p = trim(parts[i].as_slice());
        let head = match crate::text::find_char(p, ':') {
            Some(j) => slice(p, 0, j),
            None => {
                assert(p@.subrange(0, p@.len() as int) == p@);
                slice(p, 0, p.len())
            },
        };
        names.push(from_chars(trim(head)));
        proof {
            assert(string_views(names@) =~= string_views(before).push(
                param_name(parts@[i as int]@),
            ));
            assert(views(parts@).take(i + 1).map_values(|p: Seq<char>| param_name(p))
                =~= views(parts@).take(i as int).map_values(|p: Seq<char>| param_name(p)).push(
                param_name(parts@[i as int]@),
            ));
        }
        i += 1;
    }
    assert(views(parts@).take(parts@.len() as int) =~= views(parts@));
    join_strings(&names, ", ")
}

// ---------------------------------------------------------------------------
// Wrapper text
// ---------------------------------------------------------------------------

/// An exported function `export_name` that takes `params`, calls `callee`
/// on `args`, keeps the result of type `return_type` in static storage and
/// returns its address. `note` is the comment on its first line.
pub open spec fn static_slot_wrapper(
    export_name: Seq<char>,
    params: Seq<char>,
    return_type: Seq<char>,
    note: Seq<char>,
    callee: Seq<char>,
    args: Seq<char>,
) -> Seq<char> {
    "export fn "@ + export_name + "("@ + params + ") *const "@ + return_type + " {\n    // "@
        + note + "\n    const static = struct {\n        var result: "@ + return_type
        + " = undefined;\n    };\n    static.result = "@ + callee + "("@ + args
        + ");\n    return &static.result;\n}"@
}

fn write_static_slot_wrapper(
    export_name: &str,
    params: &str,
    return_type: &str,
    note: &str,
    callee: &str,
    args: &str,
) -> (out: String)
    ensures
        out@ == static_slot_wrapper(
            export_name@,
            params@,
            return_type@,
            note@,
            callee@,
            args@,
        ),
{
    let mut out = String::new();
    out.append("export fn ");
    out.append(export_name);
    out.append("(");
    out.append(params);
    out.append(") *const ");
    out.append(return_type);
    out.append(" {\n    // ");
    out.append(note);
    out.append("\n    const static = struct {\n        var result: ");
    out.append(return_type);
    out.append(" = undefined;\n    };\n    static.result = ");
    out.append(callee);
    out.append("(");
    out.append(args);
    out.append(");\n    return &static.result;\n}");
    assert(out@ =~= static_slot_wrapper(
        export_name@,
        params@,
        return_type@,
        note@,
        callee@,
        args@,
    ));
    out
}

/// The pointer-returning variant exported beside `func`: named after it
/// with the pointer-variant suffix, it calls `func` itself.
pub open spec fn pointer_variant(func: ExportFunctionView) -> Seq<char> {
    static_slot_wrapper(
        func.name + crate::exports::pointer_variant_suffix(),
        pointer_params(func.params),
        func.return_type,
        "ABI-safe wrapper: returns pointer instead of struct by value"@,
        func.name,
        forwarding_args(func.params),
    )
}

/// The wrapper that takes over the name of an array-returning `func` and
/// calls its internal form.
pub open spec fn redirecting_wrapper(func: ExportFunctionView) -> Seq<char> {
    static_slot_wrapper(
        func.name,
        pointer_params(func.params),
        func.return_type,
        "Macro expects pointer return for array types"@,
        func.name + crate::exports::internal_suffix(),
        forwarding_args(func.params),
    )
}

/// Generates the pointer-returning variant of a struct-returning function.
pub fn generate_ptr_wrapper(func: &ExportFunction) -> (out: String)
    ensures
        out@ == pointer_variant(func@),
{
    let mut wrapper_name = func.name.clone();
    wrapper_name.append("__ptr_variant");
    let (wrapper_params, forwarding) = convert_params_to_ptrs(func.params.as_str());
    write_static_slot_wrapper(
        wrapper_name.as_str(),
        wrapper_params.as_str(),
        func.return_type.as_str(),
        "ABI-safe wrapper: returns pointer instead of struct by value",
        func.name.as_str(),
        forwarding.as_str(),
    )
}

/// Generates the exported wrapper of an array-returning function.
pub fn generate_array_pointer_wrapper(func: &ExportFunction) -> (out: String)
    ensures
        out@ == redirecting_wrapper(func@),
{
    let mut impl_name = func.name.clone();
    impl_name.append("_impl");
    let (wrapper_params, forwarding) = convert_params_to_ptrs(func.params.as_str());
    write_static_slot_wrapper(
        func.name.as_str(),
        wrapper_params.as_str(),
        func.return_type.as_str(),
        "Macro expects pointer return for array types",
        impl_name.as_str(),
        forwarding.as_str(),
    )
}

// ---------------------------------------------------------------------------
// Renaming
// ---------------------------------------------------------------------------

/// `code` with the header `export fn NAME(` turned into `fn NAME` + `suffix`
/// + `(`. Where the header is written with a space before the parenthesis,
/// that spelling is the one replaced, and the space is kept.
pub open spec fn unexported(code: Seq<char>, name: Seq<char>, suffix: Seq<char>) -> Seq<char> {
    let spaced = "export fn "@ + name + " ("@;
    let tight = "export fn "@ + name + "("@;
    if occurs(code, spaced) {
        replaced(code, spaced, "fn "@ + name + suffix + " ("@)
    } else {
        replaced(code, tight, "fn "@ + name + suffix + "("@)
    }
}

/// `code` after `unexported` has been applied for each of the first `n`
/// names in turn.
pub open spec fn unexported_all(
    code: Seq<char>,
    names: Seq<Seq<char>>,
    suffix: Seq<char>,
    n: int,
) -> Seq<char>
    decreases n,
{
    if n <= 0 {
        code
    } else {
        unexported(unexported_all(code, names, suffix, n - 1), names[n - 1], suffix)
    }
}

fn unexport(code: &Vec<char>, name: &str, suffix: &str) -> (out: Vec<char>)
    ensures
        out@ == unexported(code@, name@, suffix@),
{
    let mut spaced = String::new();
    spaced.append("export fn ");
    spaced.append(name);
    spaced.append(" (");
    let mut tight = String::new();
    tight.append("export fn ");
    tight.append(name);
    tight.append("(");
    let mut to_spaced = String::new();
    to_spaced.append("fn ");
    to_spaced.append(name);
    to_spaced.append(suffix);
    to_spaced.append(" (");
    let mut to_tight = String::new();
    to_tight.append("fn ");
    to_tight.append(name);
    to_tight.append(suffix);
    to_tight.append("(");
    let spaced = to_chars(spaced.as_str());
    let tight = to_chars(tight.as_str());
    let to_spaced = to_chars(to_spaced.as_str());
    let to_tight = to_chars(to_tight.as_str());
    assert(spaced@ =~= "export fn "@ + name@ + " ("@);
    assert(tight@ =~= "export fn "@ + name@ + "("@);
    assert(to_spaced@ =~= "fn "@ + name@ + suffix@ + " ("@);
    assert(to_tight@ =~= "fn "@ + name@ + suffix@ + "("@);
    if contains(code.as_slice(), spaced.as_slice()) {
        replace(code.as_slice(), spaced.as_slice(), to_spaced.as_slice())
    } else {
        replace(code.as_slice(), tight.as_slice(), to_tight.as_slice())
    }
}

fn unexport_all(code: &str, function_names: &[String], suffix: &str) -> (out: String)
    ensures
        out@ == unexported_all(
            code@,
            string_views(function_names@),
            suffix@,
            function_names@.len() as int,
        ),
{
    let mut result = to_chars(code);
    let mut i: usize = 0;
    while i < function_names.len()
        invariant
            i <= function_names@.len(),
            result@ == unexported_all(code@, string_views(function_names@), suffix@, i as int),
        decreases function_names.len() - i,
    {
        result = unexport(&result, function_names[i].as_str(), suffix);
        i += 1;
    }
    from_chars(result.as_slice())
}

/// Takes the listed functions out of the exports and renames each to its
/// internal form.
pub fn rename_functions_to_impl(code: &str, function_names: &[String]) -> (out: String)
    ensures
        out@ == unexported_all(
            code@,
            string_views(function_names@),
            crate::exports::internal_suffix(),
            function_names@.len() as int,
        ),
{
    unexport_all(code, function_names, "_impl")
}

/// Takes the listed functions out of the exports, names unchanged.
pub fn remove_export_from_functions(code: &str, function_names: &[String]) -> (out: String)
    ensures
        out@ == unexported_all(
            code@,
            string_views(function_names@),
            Seq::empty(),
            function_names@.len() as int,
        ),
{
    proof {
        reveal_strlit("");
        assert(""@ =~= Seq::<char>::empty());
    }
    unexport_all(code, function_names, "")
}

} // verus!
