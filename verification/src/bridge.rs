//! Bridge specifications: one for each symbol that the generated code
//! exports, with the native signature, the wrapper's signature and the
//! arguments that connect them.

use vstd::prelude::*;
use crate::edit::{join_strings, joined, string_views};
use crate::lowering::{call_args_upto, lower_args, lower_params, native_params_text, native_params_upto, native_views, render_native_params, slice_or_str, NativeParam, NativeParamView};
use crate::syntax::{
    arg_views, inputs_text, output_text, render_inputs, FnSignature, FnSignatureView, Param,
    ParamView,
};

verus! {

/// How the wrapper of a bridge calls the native function.
#[derive(Debug, Clone, Copy, PartialEq, Eq, Structural)]
pub enum BridgeKind {
    /// A direct call.
    Plain,
    /// A direct call, for one concrete type of a generic declaration.
    Monomorphized,
    /// A call offloaded to the pool of blocking workers and awaited.
    Async,
}

/// A parameter that an asynchronous wrapper copies into an owned buffer.
#[derive(Debug)]
pub struct Capture {
    pub name: String,
    /// Whether the native function writes through the pointer, so that
    /// the copy has to be mutable.
    pub mutable: bool,
}

pub struct CaptureView {
    pub name: Seq<char>,
    pub mutable: bool,
}

impl View for Capture {
    type V = CaptureView;

    open spec fn view(&self) -> CaptureView {
        CaptureView { name: self.name@, mutable: self.mutable }
    }
}

/// The views of a list of captures.
pub open spec fn capture_views(v: Seq<Capture>) -> Seq<CaptureView> {
    v.map_values(|c: Capture| c@)
}

/// The bridge for one exported symbol.
#[derive(Debug)]
pub struct BridgeSpec {
    /// The exported symbol, which is also the wrapper's name.
    pub symbol: String,
    /// The parameters of the native signature.
    pub native_params: Vec<NativeParam>,
    /// The return type of both signatures, as written; empty for none.
    pub output: String,
    /// The parameters of the wrapper, as written.
    pub wrapper_inputs: String,
    /// The arguments that the wrapper passes to the native function.
    pub call_args: Vec<String>,
    /// The parameters that the wrapper copies into owned buffers before
    /// the call.
    pub captures: Vec<Capture>,
    pub kind: BridgeKind,
}

pub struct BridgeSpecView {
    pub symbol: Seq<char>,
    pub native_params: Seq<NativeParamView>,
    pub output: Seq<char>,
    pub wrapper_inputs: Seq<char>,
    pub call_args: Seq<Seq<char>>,
    pub captures: Seq<CaptureView>,
    pub kind: BridgeKind,
}

impl View for BridgeSpec {
    type V = BridgeSpecView;

    open spec fn view(&self) -> BridgeSpecView {
        BridgeSpecView {
            symbol: self.symbol@,
            native_params: native_views(self.native_params@),
            output: self.output@,
            wrapper_inputs: self.wrapper_inputs@,
            call_args: string_views(self.call_args@),
            captures: capture_views(self.captures@),
            kind: self.kind,
        }
    }
}

/// The views of a list of bridges.
pub open spec fn bridge_views(v: Seq<BridgeSpec>) -> Seq<BridgeSpecView> {
    v.map_values(|b: BridgeSpec| b@)
}

/// The references to slices or strings among the first `n` parameters,
/// each with the mutability of its reference.
pub open spec fn captured_upto(inputs: Seq<ParamView>, n: int) -> Seq<CaptureView>
    decreases n,
{
    if n <= 0 {
        Seq::empty()
    } else {
        let rest = captured_upto(inputs, n - 1);
        match inputs[n - 1] {
            ParamView::Typed { name: Some(name), ty, .. } => match slice_or_str(ty) {
                Some((mutable, _)) => rest.push(CaptureView { name, mutable }),
                None => rest,
            },
            _ => rest,
        }
    }
}

/// The bridge of a signature under the symbol `symbol`. An asynchronous
/// bridge copies every reference to a slice or a string into an owned
/// buffer, mutable where the reference is, and passes pointers into the
/// copies: the pointer that the call passes is of the kind that the
/// declaration asks for.
pub open spec fn bridge_of(symbol: Seq<char>, sig: FnSignatureView, kind: BridgeKind) -> BridgeSpecView {
    let n = sig.inputs.len() as int;
    BridgeSpecView {
        symbol,
        native_params: native_params_upto(sig.inputs, n, true),
        output: output_text(sig.output),
        wrapper_inputs: inputs_text(sig.inputs, n),
        call_args: call_args_upto(sig.inputs, n),
        captures: if kind == BridgeKind::Async {
            captured_upto(sig.inputs, n)
        } else {
            Seq::empty()
        },
        kind,
    }
}

fn captured(inputs: &Vec<Param>) -> (captures: Vec<Capture>)
    ensures
        capture_views(captures@) == captured_upto(arg_views(inputs@), inputs@.len() as int),
{
    let mut captures: Vec<Capture> = Vec::new();
    let mut i: usize = 0;
    while i < inputs.len()
        invariant
            i <= inputs@.len(),
            capture_views(captures@) == captured_upto(arg_views(inputs@), i as int),
        decreases inputs.len() - i,
    {
        let ghost before = captures@;
        assert(arg_views(inputs@)[i as int] == inputs@[i as int]@);
        if let Param::Typed { name, ty, .. } = &inputs[i] {
            if let Some(n) = name {
                if let Some((mutable, _)) = crate::lowering::is_slice_or_str_ref(ty) {
                    captures.push(Capture { name: n.clone(), mutable });
                    assert(capture_views(captures@) =~= capture_views(before).push(
                        CaptureView { name: n@, mutable },
                    ));
                }
            }
        }
        i += 1;
    }
    captures
}

/// The bridge of a signature under a symbol.
pub fn bridge(symbol: &str, sig: &FnSignature, kind: BridgeKind) -> (spec: BridgeSpec)
    ensures
        spec@ == bridge_of(symbol@, sig@, kind),
{
    let is_async = match kind {
        BridgeKind::Async => true,
        _ => false,
    };
    let captures = if is_async {
        captured(&sig.inputs)
    } else {
        let none: Vec<Capture> = Vec::new();
        assert(capture_views(none@) =~= Seq::<CaptureView>::empty());
        none
    };
    BridgeSpec {
        symbol: symbol.to_owned(),
        native_params: lower_params(&sig.inputs, true),
        output: sig.output.render(),
        wrapper_inputs: render_inputs(&sig.inputs),
        call_args: lower_args(&sig.inputs),
        captures,
        kind,
    }
}

// ---------------------------------------------------------------------------
// Text
// ---------------------------------------------------------------------------

/// The return type behind a parameter list: a space and the type, or
/// nothing.
pub open spec fn spaced(output: Seq<char>) -> Seq<char> {
    if output.len() == 0 {
        Seq::empty()
    } else {
        " "@ + output
    }
}

/// The declaration of the native function of a bridge.
pub open spec fn declaration_text(b: BridgeSpecView) -> Seq<char> {
    "extern \"C\" {\n    pub fn "@ + b.symbol + "("@ + native_params_text(
        b.native_params,
        b.native_params.len() as int,
    ) + ")"@ + spaced(b.output) + ";\n}\n"@
}

/// The native call of a bridge, through the module `module`.
pub open spec fn native_call(b: BridgeSpecView, module: Seq<char>) -> Seq<char> {
    module + "::"@ + b.symbol + "("@ + joined(b.call_args, ", "@) + ")"@
}

/// The line that copies a parameter into an owned buffer:
/// `let x = x.to_vec();`, with `mut` where the copy is written to.
pub open spec fn capture_line(c: CaptureView) -> Seq<char> {
    "    let "@ + (if c.mutable {
        "mut "@
    } else {
        Seq::empty()
    }) + c.name + " = "@ + c.name + ".to_vec();\n"@
}

/// The lines that copy the first `n` captures.
pub open spec fn capture_lines(captures: Seq<CaptureView>, n: int) -> Seq<char>
    decreases n,
{
    if n <= 0 {
        Seq::empty()
    } else {
        capture_lines(captures, n - 1) + capture_line(captures[n - 1])
    }
}

/// The safe wrapper of a bridge.
pub open spec fn wrapper_text(b: BridgeSpecView, module: Seq<char>) -> Seq<char> {
    match b.kind {
        BridgeKind::Plain => "pub fn "@ + b.symbol + "("@ + b.wrapper_inputs + ")"@ + spaced(
            b.output,
        ) + " {\n    unsafe { "@ + native_call(b, module) + " }\n}\n"@,
        BridgeKind::Monomorphized => "/// Monomorphized wrapper (generated by autozig)\n"@
            + "pub fn "@ + b.symbol + "("@ + b.wrapper_inputs + ")"@ + spaced(b.output)
            + " {\n    unsafe { "@ + native_call(b, module) + " }\n}\n"@,
        BridgeKind::Async => "/// Async wrapper: the synchronous Zig call runs on the pool of\n"@
            + "/// blocking workers, so that the caller is never blocked.\n"@ + "pub async fn "@
            + b.symbol + "("@ + b.wrapper_inputs + ")"@ + spaced(b.output) + " {\n"@
            + capture_lines(b.captures, b.captures.len() as int)
            + "    tokio::task::spawn_blocking(move || unsafe { "@ + native_call(b, module)
            + " })\n        .await\n        .expect(\"Zig task panicked or was cancelled\")\n}\n"@,
    }
}

impl BridgeSpec {
    /// The declaration of the native function.
    pub fn declaration(&self) -> (out: String)
        ensures
            out@ == declaration_text(self@),
    {
        let mut out = String::new();
        out.append("extern \"C\" {\n    pub fn ");
        out.append(self.symbol.as_str());
        out.append("(");
        out.append(render_native_params(&self.native_params).as_str());
        out.append(")");
        if self.output.as_str().unicode_len() > 0 {
            out.append(" ");
            out.append(self.output.as_str());
        }
        out.append(";\n}\n");
        assert(out@ =~= declaration_text(self@));
        out
    }

    fn call(&self, module: &str) -> (out: String)
        ensures
            out@ == native_call(self@, module@),
    {
        let mut out = module.to_owned();
        out.append("::");
        out.append(self.symbol.as_str());
        out.append("(");
        out.append(join_strings(&self.call_args, ", ").as_str());
        out.append(")");
        out
    }

    fn header(&self, out: &mut String)
        ensures
            final(out)@ == old(out)@ + self.symbol@ + "("@ + self.wrapper_inputs@ + ")"@ + spaced(
                self.output@,
            ),
    {
        out.append(self.symbol.as_str());
        out.append("(");
        out.append(self.wrapper_inputs.as_str());
        out.append(")");
        if self.output.as_str().unicode_len() > 0 {
            out.append(" ");
            out.append(self.output.as_str());
        }
        assert(out@ =~= old(out)@ + self.symbol@ + "("@ + self.wrapper_inputs@ + ")"@ + spaced(
            self.output@,
        ));
    }

    /// The safe wrapper, which calls the native function in the module
    /// `module`.
    pub fn wrapper(&self, module: &str) -> (out: String)
        ensures
            out@ == wrapper_text(self@, module@),
    {
        let mut out = String::new();
        match self.kind {
            BridgeKind::Plain => {
                out.append("pub fn ");
                self.header(&mut out);
                out.append(" {\n    unsafe { ");
                out.append(self.call(module).as_str());
                out.append(" }\n}\n");
                assert(out@ =~= wrapper_text(self@, module@));
            },
            BridgeKind::Monomorphized => {
                out.append("/// Monomorphized wrapper (generated by autozig)\n");
                out.append("pub fn ");
                self.header(&mut out);
                out.append(" {\n    unsafe { ");
                out.append(self.call(module).as_str());
                out.append(" }\n}\n");
                assert(out@ =~= wrapper_text(self@, module@));
            },
            BridgeKind::Async => {
                out.append("/// Async wrapper: the synchronous Zig call runs on the pool of\n");
                out.append("/// blocking workers, so that the caller is never blocked.\n");
                out.append("pub async fn ");
                self.header(&mut out);
                out.append(" {\n");
                let ghost opened = out@;
                let ghost caps = capture_views(self.captures@);
                let mut i: usize = 0;
                assert(out@ =~= opened + capture_lines(caps, 0));
                while i < self.captures.len()
                    invariant
                        i <= self.captures@.len(),
                        caps == capture_views(self.captures@),
                        out@ == opened + capture_lines(caps, i as int),
                    decreases self.captures.len() - i,
                {
                    out.append("    let ");
                    if self.captures[i].mutable {
                        out.append("mut ");
                    }
                    out.append(self.captures[i].name.as_str());
                    out.append(" = ");
                    out.append(self.captures[i].name.as_str());
                    out.append(".to_vec();\n");
                    assert(caps[i as int] == self.captures@[i as int]@);
                    assert(out@ =~= opened + (capture_lines(caps, i as int) + capture_line(
                        caps[i as int],
                    )));
                    i += 1;
                }
                out.append("    tokio::task::spawn_blocking(move || unsafe { ");
                out.append(self.call(module).as_str());
                out.append(
                    " })\n        .await\n        .expect(\"Zig task panicked or was cancelled\")\n}\n",
                );
                assert(out@ =~= wrapper_text(self@, module@));
            },
        }
        out
    }
}

/// The declarations of the first `n` bridges, one after the other.
pub open spec fn declarations_text(bridges: Seq<BridgeSpecView>, n: int) -> Seq<char>
    decreases n,
{
    if n <= 0 {
        Seq::empty()
    } else {
        declarations_text(bridges, n - 1) + declaration_text(bridges[n - 1])
    }
}

/// The wrappers of the first `n` bridges, one after the other.
pub open spec fn wrappers_text(bridges: Seq<BridgeSpecView>, module: Seq<char>, n: int) -> Seq<
    char,
>
    decreases n,
{
    if n <= 0 {
        Seq::empty()
    } else {
        wrappers_text(bridges, module, n - 1) + wrapper_text(bridges[n - 1], module)
    }
}

/// Renders the declarations and the wrappers of a list of bridges.
pub fn render_bridges(bridges: &Vec<BridgeSpec>, module: &str) -> (r: (String, String))
    ensures
        r.0@ == declarations_text(bridge_views(bridges@), bridges@.len() as int),
        r.1@ == wrappers_text(bridge_views(bridges@), module@, bridges@.len() as int),
{
    let mut declarations = String::new();
    let mut wrappers = String::new();
    let mut i: usize = 0;
    while i < bridges.len()
        invariant
            i <= bridges@.len(),
            declarations@ == declarations_text(bridge_views(bridges@), i as int),
            wrappers@ == wrappers_text(bridge_views(bridges@), module@, i as int),
        decreases bridges.len() - i,
    {
        assert(bridge_views(bridges@)[i as int] == bridges@[i as int]@);
        declarations.append(bridges[i].declaration().as_str());
        wrappers.append(bridges[i].wrapper(module).as_str());
        i += 1;
    }
    (declarations, wrappers)
}

} // verus!
