//! The engine: what the build of a crate with embedded Zig generates.

use vstd::prelude::*;
use crate::text::{contains, from_chars, is, occurs, push_str, to_chars};
use crate::edit::{decimal, push_decimal, string_views};
use crate::exports::{
    classify_return, export_views, exports_of, extract_export_functions, internal_suffix,
    lowering_of, ExportFunctionView, Lowering,
};
use crate::wrapper::{
    generate_array_pointer_wrapper, generate_ptr_wrapper, pointer_variant, redirecting_wrapper,
    rename_functions_to_impl, unexported_all,
};
use crate::scanner::{CompilationMode, SourceFile};

verus! {

/// The Zig target for a Rust target triple; `native` for one not listed.
pub open spec fn zig_target_of(rust_target: Seq<char>) -> Seq<char> {
    if rust_target == "x86_64-unknown-linux-gnu"@ {
        "x86_64-linux-gnu"@
    } else if rust_target == "x86_64-unknown-linux-musl"@ {
        "x86_64-linux-musl"@
    } else if rust_target == "aarch64-unknown-linux-gnu"@ {
        "aarch64-linux-gnu"@
    } else if rust_target == "aarch64-unknown-linux-musl"@ {
        "aarch64-linux-musl"@
    } else if rust_target == "arm-unknown-linux-gnueabihf"@ {
        "arm-linux-gnueabihf"@
    } else if rust_target == "i686-unknown-linux-gnu"@ {
        "i386-linux-gnu"@
    } else if rust_target == "x86_64-apple-darwin"@ {
        "x86_64-macos"@
    } else if rust_target == "aarch64-apple-darwin"@ {
        "aarch64-macos"@
    } else if rust_target == "x86_64-pc-windows-msvc"@ {
        "x86_64-windows"@
    } else if rust_target == "x86_64-pc-windows-gnu"@ {
        "x86_64-windows-gnu"@
    } else if rust_target == "i686-pc-windows-msvc"@ {
        "i386-windows"@
    } else if rust_target == "aarch64-pc-windows-msvc"@ {
        "aarch64-windows"@
    } else if rust_target == "wasm32-unknown-unknown"@ {
        "wasm32-freestanding"@
    } else if rust_target == "wasm32-wasi"@ {
        "wasm32-wasi"@
    } else if rust_target == "wasm64-unknown-unknown"@ {
        "wasm64-freestanding"@
    } else if rust_target == "wasm64-wasi"@ {
        "wasm64-wasi"@
    } else {
        "native"@
    }
}

/// Maps a Rust target triple to the Zig target.
pub fn rust_to_zig_target(rust_target: &str) -> (zig_target: &'static str)
    ensures
        zig_target@ == zig_target_of(rust_target@),
{
    let t = to_chars(rust_target);
    let t = t.as_slice();
    if is(t, "x86_64-unknown-linux-gnu") {
        "x86_64-linux-gnu"
    } else if is(t, "x86_64-unknown-linux-musl") {
        "x86_64-linux-musl"
    } else if is(t, "aarch64-unknown-linux-gnu") {
        "aarch64-linux-gnu"
    } else if is(t, "aarch64-unknown-linux-musl") {
        "aarch64-linux-musl"
    } else if is(t, "arm-unknown-linux-gnueabihf") {
        "arm-linux-gnueabihf"
    } else if is(t, "i686-unknown-linux-gnu") {
        "i386-linux-gnu"
    } else if is(t, "x86_64-apple-darwin") {
        "x86_64-macos"
    } else if is(t, "aarch64-apple-darwin") {
        "aarch64-macos"
    } else if is(t, "x86_64-pc-windows-msvc") {
        "x86_64-windows"
    } else if is(t, "x86_64-pc-windows-gnu") {
        "x86_64-windows-gnu"
    } else if is(t, "i686-pc-windows-msvc") {
        "i386-windows"
    } else if is(t, "aarch64-pc-windows-msvc") {
        "aarch64-windows"
    } else if is(t, "wasm32-unknown-unknown") {
        "wasm32-freestanding"
    } else if is(t, "wasm32-wasi") {
        "wasm32-wasi"
    } else if is(t, "wasm64-unknown-unknown") {
        "wasm64-freestanding"
    } else if is(t, "wasm64-wasi") {
        "wasm64-wasi"
    } else {
        "native"
    }
}

// ---------------------------------------------------------------------------
// ABI lowering over blocks of code
// ---------------------------------------------------------------------------

/// The wrapper that lowering gives `f`, on a line of its own: none for a
/// scalar result, the pointer variant for a struct, the redirecting
/// wrapper for an array.
pub open spec fn lowered_line(f: ExportFunctionView) -> Seq<char> {
    match lowering_of(f.return_type) {
        Lowering::Direct => Seq::empty(),
        Lowering::DualExport => pointer_variant(f) + seq!['\n'],
        Lowering::Redirect => redirecting_wrapper(f) + seq!['\n'],
    }
}

/// The wrappers that lowering gives the first `n` functions.
pub open spec fn lowered_lines(fns: Seq<ExportFunctionView>, n: int) -> Seq<char>
    decreases n,
{
    if n <= 0 {
        Seq::empty()
    } else {
        lowered_lines(fns, n - 1) + lowered_line(fns[n - 1])
    }
}

/// The names of the array-returning functions among the first `n`.
pub open spec fn redirected_names(fns: Seq<ExportFunctionView>, n: int) -> Seq<Seq<char>>
    decreases n,
{
    if n <= 0 {
        Seq::empty()
    } else {
        let rest = redirected_names(fns, n - 1);
        if lowering_of(fns[n - 1].return_type) == Lowering::Redirect {
            rest.push(fns[n - 1].name)
        } else {
            rest
        }
    }
}

/// The wrappers for the export functions of the first `n` blocks.
pub open spec fn lowered_wrappers(blocks: Seq<Seq<char>>, n: int) -> Seq<char>
    decreases n,
{
    if n <= 0 {
        Seq::empty()
    } else {
        let fns = exports_of(blocks[n - 1]);
        lowered_wrappers(blocks, n - 1) + lowered_lines(fns, fns.len() as int)
    }
}

/// One block of code with its array-returning functions made internal.
pub open spec fn with_redirected_internal(code: Seq<char>) -> Seq<char> {
    let fns = exports_of(code);
    let names = redirected_names(fns, fns.len() as int);
    unexported_all(code, names, internal_suffix(), names.len() as int)
}

/// The modified code of a list of blocks: that of the last block; empty
/// without a block.
pub open spec fn modified_code(blocks: Seq<Seq<char>>) -> Seq<char> {
    if blocks.len() == 0 {
        Seq::empty()
    } else {
        with_redirected_internal(blocks.last())
    }
}

/// What a build hands back.
#[derive(Debug)]
pub struct BuildOutput {
    /// The path of the static library, where one was built.
    pub lib_path: Option<String>,
}

/// Main engine for the Zig code of a crate.
#[derive(Debug)]
pub struct AutoZigEngine {
    /// The directory that generated files and the library go to.
    pub out_dir: String,
    /// The source directory to scan.
    pub src_dir: String,
    pub mode: CompilationMode,
}

/// The embedded code of the first `n` blocks, each with its
/// array-returning functions made internal, two line feeds after each.
pub open spec fn embedded_paragraphs(codes: Seq<Seq<char>>, n: int) -> Seq<char>
    decreases n,
{
    if n <= 0 {
        Seq::empty()
    } else {
        embedded_paragraphs(codes, n - 1) + with_redirected_internal(codes[n - 1]) + "\n\n"@
    }
}

/// Some block of the first `n` imports `std` itself.
pub open spec fn imports_std(codes: Seq<Seq<char>>, n: int) -> bool
    decreases n,
{
    if n <= 0 {
        false
    } else {
        imports_std(codes, n - 1) || occurs(codes[n - 1], "const std = @import"@) || occurs(
            codes[n - 1],
            "const std=@import"@,
        )
    }
}

/// The import lines for the first `n` files: the file at index `i` is
/// imported as `mod_i`; a file without a file name has no line.
pub open spec fn import_lines(names: Seq<Option<Seq<char>>>, n: int) -> Seq<char>
    decreases n,
{
    if n <= 0 {
        Seq::empty()
    } else {
        let rest = import_lines(names, n - 1);
        match names[n - 1] {
            Some(name) => rest + "pub const mod_"@ + decimal((n - 1) as nat) + " = @import(\""@
                + name + "\");\n"@,
            None => rest,
        }
    }
}

/// The file names of a list of files.
pub open spec fn file_names(files: Seq<SourceFile>) -> Seq<Option<Seq<char>>> {
    files.map_values(|f: SourceFile| crate::scanner::name_view(f.file_name))
}

/// One line `_ = mod_i;` for each index below `n`.
pub open spec fn keep_lines(n: int) -> Seq<char>
    decreases n,
{
    if n <= 0 {
        Seq::empty()
    } else {
        keep_lines(n - 1) + "    _ = mod_"@ + decimal((n - 1) as nat) + ";\n"@
    }
}

/// The header of a main module whose embedded code does not import `std`.
pub open spec fn std_header() -> Seq<char> {
    "const std = @import(\"std\");\n\n"@ + "// Global allocator - defined once\n"@
        + "pub var g_allocator: std.mem.Allocator = undefined;\n\n"@
}

/// The block that keeps the exported symbols of the imported modules.
pub open spec fn keep_block(n: int) -> Seq<char> {
    if n <= 0 {
        Seq::empty()
    } else {
        "\n"@ + "// Force exported symbols from imported modules to be included\n"@
            + "comptime {\n"@ + keep_lines(n) + "}\n\n"@
    }
}

/// The embedded code under its heading; nothing without code.
pub open spec fn embedded_block(codes: Seq<Seq<char>>) -> Seq<char> {
    if codes.len() == 0 {
        Seq::empty()
    } else {
        "// Embedded code from autozig! macros\n"@ + embedded_paragraphs(codes, codes.len() as int)
    }
}

/// The comment that heads the generated wrappers.
pub open spec fn lowering_banner() -> Seq<char> {
    "// ABI Lowering: Pointer-based wrappers for struct returns\n"@
        + "// These wrappers ensure cross-platform ABI compatibility\n"@
}

/// The wrappers of all blocks under their banner; nothing without a
/// wrapper.
pub open spec fn wrappers_block(codes: Seq<Seq<char>>) -> Seq<char> {
    let abi = lowered_wrappers(codes, codes.len() as int);
    if abi.len() == 0 {
        Seq::empty()
    } else {
        lowering_banner() + abi + "\n"@
    }
}

/// The main module of a modular build: the header, the imports of the
/// Zig files, the embedded code with its array-returning functions made
/// internal, and the wrappers: a redirecting wrapper for each
/// array-returning function, a pointer variant for each struct-returning
/// one.
pub open spec fn main_module(codes: Seq<Seq<char>>, files: Seq<Option<Seq<char>>>) -> Seq<
    char,
> {
    (if imports_std(codes, codes.len() as int) {
        Seq::empty()
    } else {
        std_header()
    }) + import_lines(files, files.len() as int) + keep_block(files.len() as int) + embedded_block(
        codes,
    ) + wrappers_block(codes)
}

fn any_imports_std(codes: &[String]) -> (b: bool)
    ensures
        b == imports_std(string_views(codes@), codes@.len() as int),
{
    let spaced = to_chars("const std = @import");
    let tight = to_chars("const std=@import");
    let mut i: usize = 0;
    while i < codes.len()
        invariant
            i <= codes@.len(),
            spaced@ == "const std = @import"@,
            tight@ == "const std=@import"@,
            !imports_std(string_views(codes@), i as int),
        decreases codes.len() - i,
    {
        let c = to_chars(codes[i].as_str());
        if contains(c.as_slice(), spaced.as_slice()) || contains(c.as_slice(), tight.as_slice()) {
            proof {
                lemma_imports_std_grows(string_views(codes@), i + 1, codes@.len() as int);
            }
            return true;
        }
        i += 1;
    }
    false
}

proof fn lemma_imports_std_grows(codes: Seq<Seq<char>>, m: int, n: int)
    requires
        m <= n,
        imports_std(codes, m),
    ensures
        imports_std(codes, n),
    decreases n - m,
{
    if m < n {
        lemma_imports_std_grows(codes, m, n - 1);
    }
}

/// Lowers the export functions of one block. Returns the block with its
/// array-returning functions made internal, and the wrappers of the block.
pub fn lower_block(code: &str) -> (r: (String, String))
    ensures
        r.0@ == with_redirected_internal(code@),
        r.1@ == lowered_lines(exports_of(code@), exports_of(code@).len() as int),
{
    let mut wrappers = String::new();
    let export_fns = extract_export_functions(code);
    let ghost fns = exports_of(code@);
    let mut functions_to_rename: Vec<String> = Vec::new();
    let mut j: usize = 0;
    while j < export_fns.len()
        invariant
            j <= export_fns@.len(),
            export_views(export_fns@) == fns,
            wrappers@ == lowered_lines(fns, j as int),
            string_views(functions_to_rename@) == redirected_names(fns, j as int),
        decreases export_fns.len() - j,
    {
        let ghost inner = wrappers@;
        let ghost named = functions_to_rename@;
        let f = &export_fns[j];
        assert(fns[j as int] == f@);
        proof {
            reveal_strlit("\n");
            assert("\n"@ =~= seq!['\n']);
        }
        match classify_return(f.return_type.as_str()) {
            Lowering::Direct => {},
            Lowering::Redirect => {
                functions_to_rename.push(f.name.clone());
                let wrapper = generate_array_pointer_wrapper(f);
                wrappers.append(wrapper.as_str());
                wrappers.append("\n");
                assert(wrappers@ =~= inner + (redirecting_wrapper(f@) + seq!['\n']));
                assert(string_views(functions_to_rename@) =~= string_views(named).push(f.name@));
            },
            Lowering::DualExport => {
                let wrapper = generate_ptr_wrapper(f);
                wrappers.append(wrapper.as_str());
                wrappers.append("\n");
                assert(wrappers@ =~= inner + (pointer_variant(f@) + seq!['\n']));
            },
        }
        assert(wrappers@ =~= lowered_lines(fns, j as int) + lowered_line(fns[j as int]));
        j += 1;
    }
    let modified = rename_functions_to_impl(code, functions_to_rename.as_slice());
    (modified, wrappers)
}

impl AutoZigEngine {
    /// An engine in the mode without a setting.
    pub fn new(src_dir: &str, out_dir: &str) -> (engine: AutoZigEngine)
        ensures
            engine.src_dir@ == src_dir@,
            engine.out_dir@ == out_dir@,
            engine.mode == CompilationMode::Merged,
    {
        AutoZigEngine::with_mode(src_dir, out_dir, CompilationMode::Merged)
    }

    /// An engine in the given mode.
    pub fn with_mode(src_dir: &str, out_dir: &str, mode: CompilationMode) -> (engine:
        AutoZigEngine)
        ensures
            engine.src_dir@ == src_dir@,
            engine.out_dir@ == out_dir@,
            engine.mode == mode,
    {
        AutoZigEngine { src_dir: src_dir.to_owned(), out_dir: out_dir.to_owned(), mode }
    }

    /// The wrappers for the export functions of all blocks: a redirecting
    /// wrapper for each array-returning function, a pointer variant for
    /// each struct-returning one.
    pub fn generate_abi_lowering_wrappers(&self, embedded_code: &[String]) -> (wrappers: String)
        ensures
            wrappers@ == lowered_wrappers(
                string_views(embedded_code@),
                embedded_code@.len() as int,
            ),
    {
        let mut wrappers = String::new();
        let mut i: usize = 0;
        while i < embedded_code.len()
            invariant
                i <= embedded_code@.len(),
                wrappers@ == lowered_wrappers(string_views(embedded_code@), i as int),
            decreases embedded_code.len() - i,
        {
            let (_, lines) = lower_block(embedded_code[i].as_str());
            wrappers.append(lines.as_str());
            i += 1;
        }
        wrappers
    }

    /// Lowers the export functions of the blocks. Returns the modified code
    /// of the last block, in which array-returning functions have turned
    /// internal, and the wrappers for all blocks: a redirecting wrapper for
    /// each array-returning function, a pointer variant for each
    /// struct-returning one.
    pub fn generate_abi_lowering_with_modified_code(&self, embedded_code: &[String]) -> (r: (
        String,
        String,
    ))
        ensures
            r.0@ == modified_code(string_views(embedded_code@)),
            r.1@ == lowered_wrappers(string_views(embedded_code@), embedded_code@.len() as int),
    {
        let mut wrappers = String::new();
        let mut modified = String::new();
        let mut i: usize = 0;
        while i < embedded_code.len()
            invariant
                i <= embedded_code@.len(),
                wrappers@ == lowered_wrappers(string_views(embedded_code@), i as int),
                modified@ == modified_code(string_views(embedded_code@).take(i as int)),
            decreases embedded_code.len() - i,
        {
            let (code, lines) = lower_block(embedded_code[i].as_str());
            wrappers.append(lines.as_str());
            modified = code;
            proof {
                let blocks = string_views(embedded_code@);
                assert(blocks.take(i + 1).last() == embedded_code@[i as int]@);
            }
            i += 1;
        }
        proof {
            let blocks = string_views(embedded_code@);
            assert(blocks.take(blocks.len() as int) =~= blocks);
        }
        (modified, wrappers)
    }

    /// The main module of a modular build.
    pub fn generate_main_module(&self, embedded_code: &[String], all_zig_files: &[SourceFile]) -> (main:
        String)
        ensures
            main@ == main_module(string_views(embedded_code@), file_names(all_zig_files@)),
    {
        self.generate_main_module_with_files(embedded_code, all_zig_files)
    }

    /// The main module of a modular build over the given Zig files: it
    /// imports each file as `mod_i`, holds the embedded code with its
    /// array-returning functions made internal, and ends with the wrappers
    /// of the export functions.
    pub fn generate_main_module_with_files(
        &self,
        embedded_code: &[String],
        zig_files: &[SourceFile],
    ) -> (main: String)
        ensures
            main@ == main_module(string_views(embedded_code@), file_names(zig_files@)),
    {
        let mut main: Vec<char> = Vec::new();
        let ghost codes = string_views(embedded_code@);
        if !any_imports_std(embedded_code) {
            push_str(&mut main, "const std = @import(\"std\");\n\n");
            push_str(&mut main, "// Global allocator - defined once\n");
            push_str(&mut main, "pub var g_allocator: std.mem.Allocator = undefined;\n\n");
        }
        let ghost head = main@;
        assert(head =~= if imports_std(codes, codes.len() as int) {
            Seq::<char>::empty()
        } else {
            std_header()
        });
        let ghost names = file_names(zig_files@);
        let mut idx: usize = 0;
        assert(main@ =~= head + import_lines(names, 0));
        while idx < zig_files.len()
            invariant
                idx <= zig_files@.len(),
                names == file_names(zig_files@),
                main@ == head + import_lines(names, idx as int),
            decreases zig_files.len() - idx,
        {
            let ghost before = main@;
            if let Some(name) = &zig_files[idx].file_name {
                push_str(&mut main, "pub const mod_");
                push_decimal(&mut main, idx);
                push_str(&mut main, " = @import(\"");
                push_str(&mut main, name.as_str());
                push_str(&mut main, "\");\n");
                assert(names[idx as int] == Some(name@));
                assert(main@ =~= head + (import_lines(names, idx as int) + "pub const mod_"@
                    + decimal(idx as nat) + " = @import(\""@ + name@ + "\");\n"@));
            }
            idx += 1;
        }
        let ghost imported = main@;
        if zig_files.len() > 0 {
            push_str(&mut main, "\n");
            push_str(&mut main, "// Force exported symbols from imported modules to be included\n");
            push_str(&mut main, "comptime {\n");
            let ghost opened = main@;
            let mut k: usize = 0;
            assert(main@ =~= opened + keep_lines(0));
            while k < zig_files.len()
                invariant
                    k <= zig_files@.len(),
                    main@ == opened + keep_lines(k as int),
                decreases zig_files.len() - k,
            {
                push_str(&mut main, "    _ = mod_");
                push_decimal(&mut main, k);
                push_str(&mut main, ";\n");
                assert(main@ =~= opened + (keep_lines(k as int) + "    _ = mod_"@ + decimal(
                    k as nat,
                ) + ";\n"@));
                k += 1;
            }
            push_str(&mut main, "}\n\n");
            assert(main@ =~= imported + keep_block(zig_files@.len() as int));
        }
        assert(main@ =~= imported + keep_block(zig_files@.len() as int));
        let ghost kept = main@;
        if embedded_code.len() > 0 {
            push_str(&mut main, "// Embedded code from autozig! macros\n");
            let ghost titled = main@;
            let mut c: usize = 0;
            assert(main@ =~= titled + embedded_paragraphs(codes, 0));
            while c < embedded_code.len()
                invariant
                    c <= embedded_code@.len(),
                    codes == string_views(embedded_code@),
                    main@ == titled + embedded_paragraphs(codes, c as int),
                decreases embedded_code.len() - c,
            {
                let (code, _) = lower_block(embedded_code[c].as_str());
                push_str(&mut main, code.as_str());
                push_str(&mut main, "\n\n");
                assert(main@ =~= titled + (embedded_paragraphs(codes, c as int)
                    + with_redirected_internal(codes[c as int]) + "\n\n"@));
                c += 1;
            }
            assert(main@ =~= kept + embedded_block(codes));
        }
        assert(main@ =~= kept + embedded_block(codes));
        let ghost embedded = main@;
        let abi_wrappers = self.generate_abi_lowering_wrappers(embedded_code);
        if abi_wrappers.as_str().unicode_len() > 0 {
            push_str(&mut main, "// ABI Lowering: Pointer-based wrappers for struct returns\n");
            push_str(&mut main, "// These wrappers ensure cross-platform ABI compatibility\n");
            push_str(&mut main, abi_wrappers.as_str());
            push_str(&mut main, "\n");
            assert(main@ =~= embedded + (lowering_banner() + abi_wrappers@ + "\n"@));
        }
        assert(main@ =~= embedded + wrappers_block(codes));
        from_chars(main.as_slice())
    }

    /// The instructions that make cargo link the static library.
    pub open spec fn link_lines(out_dir: Seq<char>) -> Seq<Seq<char>> {
        seq!["cargo:rustc-link-search=native="@ + out_dir, "cargo:rustc-link-lib=static=autozig"@]
    }

    /// The link instructions for the library in the out directory.
    pub fn link_library(&self) -> (lines: Vec<String>)
        ensures
            string_views(lines@) == Self::link_lines(self.out_dir@),
    {
        let mut search = String::new();
        search.append("cargo:rustc-link-search=native=");
        search.append(self.out_dir.as_str());
        let mut lines: Vec<String> = Vec::new();
        lines.push(search);
        lines.push("cargo:rustc-link-lib=static=autozig".to_owned());
        assert(string_views(lines@) =~= Self::link_lines(self.out_dir@));
        lines
    }
}

} // verus!
