//! Expanding declared functions into bridges: one bridge for a plain or an
//! asynchronous function, one for each requested concrete type of a
//! generic function.
//!
//! Whether a text is a type is for the Rust parser to say. A declared
//! function carries what the parser made of its concrete types, and the
//! expansion goes by that: `resolve_types` makes the calls.

use vstd::prelude::*;
use crate::edit::string_views;
use crate::bridge::{bridge, bridge_of, bridge_views, BridgeKind, BridgeSpec, BridgeSpecView};
use crate::idl::{RustFunctionSignature, RustFunctionSignatureView};
use crate::lowering::{mangle, mangled, monomorphized, substitute};
use crate::syn_parse::parse_type;
use crate::scanner::same_text;
use crate::syntax::{FnSignature, FnSignatureView, TypeExpr, TypeExprView};

verus! {

/// Why a block cannot be expanded.
#[derive(Debug)]
pub enum ExpandError {
    /// A requested concrete type is no type.
    InvalidType { text: String },
    /// Two requested concrete types give the same symbol.
    DuplicateSymbol { symbol: String },
    /// The inline block declares nothing to bridge.
    NothingToBridge,
    /// The external reference declares nothing to bridge.
    NothingToInclude,
}

pub enum ExpandErrorView {
    InvalidType { text: Seq<char> },
    DuplicateSymbol { symbol: Seq<char> },
    NothingToBridge,
    NothingToInclude,
}

impl View for ExpandError {
    type V = ExpandErrorView;

    open spec fn view(&self) -> ExpandErrorView {
        match self {
            ExpandError::InvalidType { text } => ExpandErrorView::InvalidType { text: text@ },
            ExpandError::DuplicateSymbol { symbol } => ExpandErrorView::DuplicateSymbol {
                symbol: symbol@,
            },
            ExpandError::NothingToBridge => ExpandErrorView::NothingToBridge,
            ExpandError::NothingToInclude => ExpandErrorView::NothingToInclude,
        }
    }
}

impl ExpandError {
    /// The message of the error.
    pub open spec fn text(self) -> Seq<char> {
        match self {
            ExpandError::InvalidType { text } => "Invalid type: "@ + text@,
            ExpandError::DuplicateSymbol { symbol } => "Duplicate monomorphized symbol: "@
                + symbol@,
            ExpandError::NothingToBridge =>
                "autozig! macro requires Rust function signatures after --- separator"@,
            ExpandError::NothingToInclude =>
                "include_zig! macro requires Rust function signatures"@,
        }
    }

    /// The message of the error.
    pub fn message(&self) -> (m: String)
        ensures
            m@ == self.text(),
    {
        match self {
            ExpandError::InvalidType { text } => {
                let mut m = String::new();
                m.append("Invalid type: ");
                m.append(text.as_str());
                m
            },
            ExpandError::DuplicateSymbol { symbol } => {
                let mut m = String::new();
                m.append("Duplicate monomorphized symbol: ");
                m.append(symbol.as_str());
                m
            },
            ExpandError::NothingToBridge => "autozig! macro requires Rust function signatures after --- separator".to_owned(),
            ExpandError::NothingToInclude => "include_zig! macro requires Rust function signatures".to_owned(),
        }
    }
}

/// What the Rust parser made of the type at index `i`: the entry of the
/// list; a refusal where the list has none.
pub open spec fn parsed_at(parsed: Seq<Option<TypeExprView>>, i: int) -> Option<TypeExprView> {
    if 0 <= i < parsed.len() {
        parsed[i]
    } else {
        None
    }
}

/// Every one of the types was taken by the Rust parser.
pub open spec fn all_parse(types: Seq<Seq<char>>, parsed: Seq<Option<TypeExprView>>) -> bool {
    forall|i: int| 0 <= i < types.len() ==> (#[trigger] parsed_at(parsed, i)) is Some
}

/// No two of the types give the same symbol.
pub open spec fn symbols_distinct(base: Seq<char>, types: Seq<Seq<char>>) -> bool {
    forall|i: int, j: int|
        0 <= i < j < types.len() ==> mangled(base, #[trigger] types[i]) != mangled(
            base,
            #[trigger] types[j],
        )
}

/// The first of the types from `i` on that the Rust parser refused.
pub open spec fn first_invalid(
    types: Seq<Seq<char>>,
    parsed: Seq<Option<TypeExprView>>,
    i: int,
) -> Option<Seq<char>>
    decreases types.len() - i,
{
    if i < 0 || i >= types.len() {
        None
    } else if parsed_at(parsed, i) is None {
        Some(types[i])
    } else {
        first_invalid(types, parsed, i + 1)
    }
}

/// The symbol of the first type from `i` on that shares its symbol with
/// a type before it.
pub open spec fn first_repeat(base: Seq<char>, types: Seq<Seq<char>>, i: int) -> Option<Seq<char>>
    decreases types.len() - i,
{
    if i < 0 || i >= types.len() {
        None
    } else if exists|a: int| 0 <= a < i && mangled(base, #[trigger] types[a]) == mangled(base, types[i]) {
        Some(mangled(base, types[i]))
    } else {
        first_repeat(base, types, i + 1)
    }
}

/// The bridges of a generic signature for the first `n` requested types:
/// each under its mangled symbol, for the signature with the concrete
/// type in place of the generic parameter.
pub open spec fn monomorphized_bridges(
    sig: FnSignatureView,
    types: Seq<Seq<char>>,
    parsed: Seq<Option<TypeExprView>>,
    n: int,
) -> Seq<BridgeSpecView>
    decreases n,
{
    if n <= 0 {
        Seq::empty()
    } else {
        monomorphized_bridges(sig, types, parsed, n - 1).push(
            bridge_of(
                mangled(sig.name, types[n - 1]),
                match parsed_at(parsed, n - 1) {
                    Some(t) => monomorphized(sig, t),
                    None => sig,
                },
                BridgeKind::Monomorphized,
            ),
        )
    }
}

/// The expansion of a generic signature for the requested types, where
/// `parsed` is what the Rust parser made of each: a type that it refused is
/// an error, the first such being named; so are two types that share a
/// symbol.
pub open spec fn monomorphization_of(
    sig: FnSignatureView,
    types: Seq<Seq<char>>,
    parsed: Seq<Option<TypeExprView>>,
) -> Result<Seq<BridgeSpecView>, ExpandErrorView> {
    match first_invalid(types, parsed, 0) {
        Some(text) => Err(ExpandErrorView::InvalidType { text }),
        None => match first_repeat(sig.name, types, 0) {
            Some(symbol) => Err(ExpandErrorView::DuplicateSymbol { symbol }),
            None => Ok(monomorphized_bridges(sig, types, parsed, types.len() as int)),
        },
    }
}

/// The views of the bridges, or of the error.
pub open spec fn expansion_view(r: Result<Vec<BridgeSpec>, ExpandError>) -> Result<
    Seq<BridgeSpecView>,
    ExpandErrorView,
> {
    match r {
        Ok(bridges) => Ok(bridge_views(bridges@)),
        Err(e) => Err(e@),
    }
}

/// No type is invalid exactly where all parse; no symbol is repeated
/// exactly where all are distinct.
pub proof fn lemma_request_checks(
    base: Seq<char>,
    types: Seq<Seq<char>>,
    parsed: Seq<Option<TypeExprView>>,
    i: int,
)
    requires
        0 <= i <= types.len(),
    ensures
        first_invalid(types, parsed, i) is None <==> forall|k: int|
            i <= k < types.len() ==> (#[trigger] parsed_at(parsed, k)) is Some,
        first_repeat(base, types, i) is None <==> forall|a: int, b: int|
            0 <= a < b < types.len() && i <= b ==> mangled(base, #[trigger] types[a]) != mangled(
                base,
                #[trigger] types[b],
            ),
    decreases types.len() - i,
{
    if i < types.len() {
        lemma_request_checks(base, types, parsed, i + 1);
        if exists|a: int| 0 <= a < i && mangled(base, #[trigger] types[a]) == mangled(base, types[i]) {
            let a = choose|a: int|
                0 <= a < i && mangled(base, #[trigger] types[a]) == mangled(base, types[i]);
            assert(mangled(base, types[a]) == mangled(base, types[i]));
        }
    }
}

/// The signature for a concrete type, where `parsed` is what the Rust
/// parser made of its text: the signature with the type in place of the
/// generic parameter, or the error that names the text where the parser
/// refused it.
pub fn substitute_parsed_type(
    sig: &FnSignature,
    concrete_type: &str,
    parsed: &Option<TypeExpr>,
) -> (r: Result<FnSignature, ExpandError>)
    ensures
        match r {
            Ok(s) => *parsed is Some && s@ == monomorphized(sig@, parsed->0@),
            Err(ExpandError::InvalidType { text }) => *parsed is None && text@ == concrete_type@,
            Err(_) => false,
        },
{
    match parsed {
        Some(t) => Ok(substitute(sig, t)),
        None => Err(ExpandError::InvalidType { text: concrete_type.to_owned() }),
    }
}

/// The signature for a concrete type given as text. The text goes to the
/// Rust parser; what the parser makes of it decides, as
/// `substitute_parsed_type` says. The only error is the one that names the
/// text.
pub fn substitute_generic_type(sig: &FnSignature, concrete_type: &str) -> (r: Result<
    FnSignature,
    ExpandError,
>)
    ensures
        match r {
            Ok(s) => exists|t: TypeExprView| s@ == #[trigger] monomorphized(sig@, t),
            Err(ExpandError::InvalidType { text }) => text@ == concrete_type@,
            Err(_) => false,
        },
{
    let parsed = parse_type(concrete_type);
    let r = substitute_parsed_type(sig, concrete_type, &parsed);
    proof {
        if r is Ok {
            assert(r->Ok_0@ == monomorphized(sig@, parsed->0@));
        }
    }
    r
}

/// A declared function without what the Rust parser made of its concrete
/// types.
pub open spec fn unresolved(s: RustFunctionSignatureView) -> RustFunctionSignatureView {
    RustFunctionSignatureView {
        sig: s.sig,
        generic_params: s.generic_params,
        is_async: s.is_async,
        monomorphize_types: s.monomorphize_types,
        concrete_types: Seq::empty(),
    }
}

/// Hands each concrete type of a declared function to the Rust parser and
/// keeps what it made of it. Nothing else of the function changes, and
/// every type has its entry.
pub fn resolve_types(rust_sig: RustFunctionSignature) -> (r: RustFunctionSignature)
    ensures
        unresolved(r@) == unresolved(rust_sig@),
        r@.concrete_types.len() == r@.monomorphize_types.len(),
{
    let RustFunctionSignature {
        sig,
        generic_params,
        is_async,
        monomorphize_types,
        concrete_types: _,
    } = rust_sig;
    let mut concrete_types: Vec<Option<TypeExpr>> = Vec::new();
    let mut i: usize = 0;
    while i < monomorphize_types.len()
        invariant
            i <= monomorphize_types@.len(),
            concrete_types@.len() == i,
        decreases monomorphize_types.len() - i,
    {
        concrete_types.push(parse_type(monomorphize_types[i].as_str()));
        i += 1;
    }
    RustFunctionSignature { sig, generic_params, is_async, monomorphize_types, concrete_types }
}

/// Resolves the concrete types of every declared function of a list. The
/// functions stay in their order, and nothing else of them changes.
pub fn resolve_all(signatures: Vec<RustFunctionSignature>) -> (r: Vec<RustFunctionSignature>)
    ensures
        r@.len() == signatures@.len(),
        forall|i: int|
            0 <= i < r@.len() ==> unresolved((#[trigger] r@[i])@) == unresolved(signatures@[i]@)
                && r@[i]@.concrete_types.len() == r@[i]@.monomorphize_types.len(),
{
    let ghost given = signatures@;
    let mut rest = signatures;
    let mut reversed: Vec<RustFunctionSignature> = Vec::new();
    while rest.len() > 0
        invariant
            rest@.len() + reversed@.len() == given.len(),
            rest@ == given.take(rest@.len() as int),
            forall|i: int|
                0 <= i < reversed@.len() ==> unresolved((#[trigger] reversed@[i])@) == unresolved(
                    given[given.len() - 1 - i]@,
                ) && reversed@[i]@.concrete_types.len() == reversed@[i]@.monomorphize_types.len(),
        decreases rest.len(),
    {
        let ghost before = rest@;
        match rest.pop() {
            Some(s) => {
                assert(s == given[before.len() - 1]);
                reversed.push(resolve_types(s));
                assert(rest@ =~= given.take(rest@.len() as int));
            },
            None => {},
        }
    }
    let ghost turned = reversed@;
    let mut out: Vec<RustFunctionSignature> = Vec::new();
    while reversed.len() > 0
        invariant
            reversed@.len() + out@.len() == given.len(),
            turned.len() == given.len(),
            reversed@ == turned.take(reversed@.len() as int),
            forall|i: int|
                0 <= i < turned.len() ==> unresolved((#[trigger] turned[i])@) == unresolved(
                    given[given.len() - 1 - i]@,
                ) && turned[i]@.concrete_types.len() == turned[i]@.monomorphize_types.len(),
            forall|i: int|
                0 <= i < out@.len() ==> unresolved((#[trigger] out@[i])@) == unresolved(given[i]@)
                    && out@[i]@.concrete_types.len() == out@[i]@.monomorphize_types.len(),
        decreases reversed.len(),
    {
        let ghost before = reversed@;
        match reversed.pop() {
            Some(s) => {
                assert(s == turned[before.len() - 1]);
                out.push(s);
                assert(reversed@ =~= turned.take(reversed@.len() as int));
            },
            None => {},
        }
    }
    out
}

proof fn lemma_bridges_len(
    sig: FnSignatureView,
    types: Seq<Seq<char>>,
    parsed: Seq<Option<TypeExprView>>,
    n: int,
)
    requires
        0 <= n <= types.len(),
    ensures
        monomorphized_bridges(sig, types, parsed, n).len() == n,
        forall|i: int|
            0 <= i < n ==> (#[trigger] monomorphized_bridges(sig, types, parsed, n)[i]).symbol
                == mangled(sig.name, types[i]),
    decreases n,
{
    if n > 0 {
        lemma_bridges_len(sig, types, parsed, n - 1);
    }
}

/// Expands a generic declaration for its requested concrete types: one
/// bridge for each type, in order, under pairwise distinct symbols. A
/// request with a type that the Rust parser refused, or that was not
/// resolved, is an error; so is one in which two types give the same
/// symbol, as a type named twice does.
pub fn expand_monomorphization(rust_sig: &RustFunctionSignature) -> (r: Result<
    Vec<BridgeSpec>,
    ExpandError,
>)
    ensures
        expansion_view(r) == monomorphization_of(
            rust_sig@.sig,
            rust_sig@.monomorphize_types,
            rust_sig@.concrete_types,
        ),
        r is Ok <==> all_parse(rust_sig@.monomorphize_types, rust_sig@.concrete_types)
            && symbols_distinct(rust_sig@.sig.name, rust_sig@.monomorphize_types),
        match r {
            Ok(bridges) => {
                &&& bridges@.len() == rust_sig@.monomorphize_types.len()
                &&& forall|i: int, j: int|
                    0 <= i < j < bridges@.len() ==> (#[trigger] bridges@[i]).symbol@ != (
                    #[trigger] bridges@[j]).symbol@
            },
            Err(ExpandError::InvalidType { .. }) => !all_parse(
                rust_sig@.monomorphize_types,
                rust_sig@.concrete_types,
            ),
            Err(ExpandError::DuplicateSymbol { .. }) => all_parse(
                rust_sig@.monomorphize_types,
                rust_sig@.concrete_types,
            ),
            Err(_) => false,
        },
{
    let ghost tv = string_views(rust_sig.monomorphize_types@);
    let ghost pv = rust_sig@.concrete_types;
    let ghost sig = rust_sig@.sig;
    let mut signatures: Vec<FnSignature> = Vec::new();
    let mut symbols: Vec<String> = Vec::new();
    let none: Option<TypeExpr> = None;
    let mut i: usize = 0;
    proof {
        lemma_request_checks(sig.name, tv, pv, 0);
    }
    while i < rust_sig.monomorphize_types.len()
        invariant
            i <= rust_sig.monomorphize_types@.len(),
            tv == string_views(rust_sig.monomorphize_types@),
            pv == crate::idl::type_option_views(rust_sig.concrete_types@),
            sig == rust_sig.sig@,
            none is None,
            signatures@.len() == i,
            symbols@.len() == i,
            forall|k: int| 0 <= k < i ==> (#[trigger] parsed_at(pv, k)) is Some,
            first_invalid(tv, pv, 0) == first_invalid(tv, pv, i as int),
            forall|k: int|
                0 <= k < i ==> (#[trigger] signatures@[k])@ == monomorphized(
                    sig,
                    parsed_at(pv, k)->0,
                ),
            forall|k: int| 0 <= k < i ==> (#[trigger] symbols@[k])@ == mangled(sig.name, tv[k]),
        decreases rust_sig.monomorphize_types.len() - i,
    {
        let parsed = if i < rust_sig.concrete_types.len() {
            &rust_sig.concrete_types[i]
        } else {
            &none
        };
        assert(crate::idl::type_option_view(*parsed) == parsed_at(pv, i as int));
        match substitute_parsed_type(
            &rust_sig.sig,
            rust_sig.monomorphize_types[i].as_str(),
            parsed,
        ) {
            Ok(s) => {
                signatures.push(s);
            },
            Err(e) => {
                proof {
                    lemma_request_checks(sig.name, tv, pv, 0);
                }
                return Err(e);
            },
        }
        symbols.push(mangle(rust_sig.sig.name.as_str(), rust_sig.monomorphize_types[i].as_str()));
        i += 1;
    }
    let mut b: usize = 0;
    while b < symbols.len()
        invariant
            b <= symbols@.len(),
            first_invalid(tv, pv, 0) is None,
            first_repeat(sig.name, tv, 0) == first_repeat(sig.name, tv, b as int),
            symbols@.len() == tv.len(),
            pv == rust_sig@.concrete_types,
            tv == string_views(rust_sig.monomorphize_types@),
            sig == rust_sig.sig@,
            forall|k: int| 0 <= k < tv.len() ==> (#[trigger] symbols@[k])@ == mangled(
                sig.name,
                tv[k],
            ),
            forall|k: int| 0 <= k < tv.len() ==> (#[trigger] parsed_at(pv, k)) is Some,
            forall|x: int, y: int|
                0 <= x < y < b ==> mangled(sig.name, #[trigger] tv[x]) != mangled(
                    sig.name,
                    #[trigger] tv[y],
                ),
        decreases symbols.len() - b,
    {
        let mut a: usize = 0;
        while a < b
            invariant
                a <= b < symbols@.len(),
                first_invalid(tv, pv, 0) is None,
                first_repeat(sig.name, tv, 0) == first_repeat(sig.name, tv, b as int),
                symbols@.len() == tv.len(),
                pv == rust_sig@.concrete_types,
                tv == string_views(rust_sig.monomorphize_types@),
                sig == rust_sig.sig@,
                forall|k: int| 0 <= k < tv.len() ==> (#[trigger] symbols@[k])@ == mangled(
                    sig.name,
                    tv[k],
                ),
                forall|k: int| 0 <= k < tv.len() ==> (#[trigger] parsed_at(pv, k)) is Some,
                forall|x: int|
                    0 <= x < a ==> mangled(sig.name, #[trigger] tv[x]) != mangled(
                        sig.name,
                        tv[b as int],
                    ),
            decreases b - a,
        {
            if same_text(symbols[a].as_str(), symbols[b].as_str()) {
                proof {
                    lemma_request_checks(sig.name, tv, pv, 0);
                }
                return Err(ExpandError::DuplicateSymbol { symbol: symbols[b].clone() });
            }
            a += 1;
        }
        b += 1;
    }
    let mut bridges: Vec<BridgeSpec> = Vec::new();
    let mut k: usize = 0;
    while k < signatures.len()
        invariant
            k <= signatures@.len(),
            signatures@.len() == symbols@.len(),
            signatures@.len() == tv.len(),
            pv == rust_sig@.concrete_types,
            tv == string_views(rust_sig.monomorphize_types@),
            sig == rust_sig.sig@,
            first_invalid(tv, pv, 0) is None,
            first_repeat(sig.name, tv, 0) is None,
            bridge_views(bridges@) == monomorphized_bridges(sig, tv, pv, k as int),
            forall|m: int| 0 <= m < tv.len() ==> (#[trigger] parsed_at(pv, m)) is Some,
            forall|m: int|
                0 <= m < tv.len() ==> (#[trigger] signatures@[m])@ == monomorphized(
                    sig,
                    parsed_at(pv, m)->0,
                ),
            forall|m: int| 0 <= m < tv.len() ==> (#[trigger] symbols@[m])@ == mangled(
                sig.name,
                tv[m],
            ),
        decreases signatures.len() - k,
    {
        assert(parsed_at(pv, k as int) is Some);
        let b = bridge(symbols[k].as_str(), &signatures[k], BridgeKind::Monomorphized);
        bridges.push(b);
        k += 1;
    }
    proof {
        lemma_request_checks(sig.name, tv, pv, 0);
        lemma_bridges_len(sig, tv, pv, tv.len() as int);
        assert forall|a: int, b: int| 0 <= a < b < bridges@.len() implies (
        #[trigger] bridges@[a]).symbol@ != (#[trigger] bridges@[b]).symbol@ by {
            assert(bridge_views(bridges@)[a] == bridges@[a]@);
            assert(bridge_views(bridges@)[b] == bridges@[b]@);
        }
    }
    Ok(bridges)
}

/// A request whose types were all taken by the Rust parser and give
/// pairwise distinct symbols has exactly one bridge for each type, in
/// order, each under the symbol of its type; so no two bridges share a
/// symbol.
pub proof fn law_one_bridge_for_each_type(
    sig: FnSignatureView,
    types: Seq<Seq<char>>,
    parsed: Seq<Option<TypeExprView>>,
)
    requires
        all_parse(types, parsed),
        symbols_distinct(sig.name, types),
    ensures
        monomorphization_of(sig, types, parsed) is Ok,
        monomorphization_of(sig, types, parsed)->Ok_0.len() == types.len(),
        forall|i: int|
            0 <= i < types.len() ==> (#[trigger] monomorphization_of(
                sig,
                types,
                parsed,
            )->Ok_0[i]).symbol == mangled(sig.name, types[i]),
        forall|i: int, j: int|
            0 <= i < j < types.len() ==> (#[trigger] monomorphization_of(
                sig,
                types,
                parsed,
            )->Ok_0[i]).symbol != (#[trigger] monomorphization_of(sig, types, parsed)->Ok_0[j]).symbol,
{
    lemma_request_checks(sig.name, types, parsed, 0);
    lemma_bridges_len(sig, types, parsed, types.len() as int);
    let bridges = monomorphized_bridges(sig, types, parsed, types.len() as int);
    assert forall|i: int, j: int| 0 <= i < j < types.len() implies (#[trigger] bridges[i]).symbol != (
    #[trigger] bridges[j]).symbol by {
    }
}

/// A request that names a concrete type twice is rejected, whatever the
/// Rust parser made of the types: the two would share a symbol.
pub proof fn law_duplicate_type_rejected(
    sig: FnSignatureView,
    types: Seq<Seq<char>>,
    parsed: Seq<Option<TypeExprView>>,
    i: int,
    j: int,
)
    requires
        0 <= i < j < types.len(),
        types[i] == types[j],
    ensures
        monomorphization_of(sig, types, parsed) is Err,
{
    lemma_request_checks(sig.name, types, parsed, 0);
}

} // verus!
