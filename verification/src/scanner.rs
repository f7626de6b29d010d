//! Scanning host source files for embedded Zig.
//!
//! Walking the source tree and parsing each file is the caller's part: it
//! hands over, for each file, the macro invocations it holds, or the
//! message of the parse failure. The scanner turns these into embedded
//! blocks, and later, with the referenced files resolved, into the result
//! that the build works on.

use vstd::prelude::*;
use crate::text::{
    contains, from_chars, has_prefix, occurs, push_all, push_str, starts_with, to_chars, trim,
    trimmed, find_char, find_char_from, index_of, index_of_from, slice, is,
};
use crate::edit::{joined, join_strings, lines, lines_of, string_views, views};
use crate::extract::{
    declaration_section, extract_declarations_from_tokens, extract_zig_from_tokens, first_quoted,
    unwrap, unwrapped, zig_of_tokens,
};

verus! {

/// How the Zig code of a crate is compiled.
#[derive(Debug, Clone, Copy, PartialEq, Eq, Structural)]
pub enum CompilationMode {
    /// All Zig code is merged into one file.
    Merged,
    /// A main module imports the external files.
    ModularImport,
    /// A generated `build.zig` drives the compilation.
    ModularBuildZig,
}

/// The mode that a setting selects: `merged`, `modular_import` or
/// `modular_buildzig`; anything else, or no setting, selects `Merged`.
pub open spec fn mode_of_setting(value: Option<Seq<char>>) -> CompilationMode {
    match value {
        Some(v) => if v == "modular_import"@ {
            CompilationMode::ModularImport
        } else if v == "modular_buildzig"@ {
            CompilationMode::ModularBuildZig
        } else {
            CompilationMode::Merged
        },
        None => CompilationMode::Merged,
    }
}

impl CompilationMode {
    /// The mode selected by the value of the `AUTOZIG_MODE` setting.
    pub fn from_setting(value: Option<&str>) -> (mode: CompilationMode)
        ensures
            mode == mode_of_setting(
                match value {
                    Some(v) => Some(v@),
                    None => None,
                },
            ),
    {
        match value {
            Some(v) => {
                let v = to_chars(v);
                if is(v.as_slice(), "modular_import") {
                    CompilationMode::ModularImport
                } else if is(v.as_slice(), "modular_buildzig") {
                    CompilationMode::ModularBuildZig
                } else {
                    CompilationMode::Merged
                }
            },
            None => CompilationMode::Merged,
        }
    }
}

impl Default for CompilationMode {
    /// The mode without a setting.
    fn default() -> (mode: CompilationMode)
        ensures
            mode == CompilationMode::Merged,
    {
        CompilationMode::Merged
    }
}

/// One macro invocation found in a source file.
#[derive(Debug, Clone)]
pub struct MacroCall {
    /// The macro's name, where its path is a single identifier.
    pub name: Option<String>,
    /// The invocation's tokens, printed.
    pub tokens: String,
}

/// One host source file, as the caller parsed it.
#[derive(Debug)]
pub struct SourceUnit {
    pub path: String,
    /// The macro invocations of the file, in source order, or the message
    /// of the parse failure.
    pub calls: Result<Vec<MacroCall>, String>,
}

/// A block of embedded Zig: inline code, or a reference to a Zig file.
#[derive(Debug, Clone)]
pub enum EmbeddedBlock {
    /// Zig code, with the declaration text behind the separator.
    Inline { zig_code: String, declarations: Option<String> },
    /// A reference to a Zig file, with the declaration text beside it.
    External { path: String, signatures: String },
}

pub enum EmbeddedBlockView {
    Inline { zig_code: Seq<char>, declarations: Option<Seq<char>> },
    External { path: Seq<char>, signatures: Seq<char> },
}

impl View for EmbeddedBlock {
    type V = EmbeddedBlockView;

    open spec fn view(&self) -> EmbeddedBlockView {
        match self {
            EmbeddedBlock::Inline { zig_code, declarations } => EmbeddedBlockView::Inline {
                zig_code: zig_code@,
                declarations: match declarations {
                    Some(d) => Some(d@),
                    None => None,
                },
            },
            EmbeddedBlock::External { path, signatures } => EmbeddedBlockView::External {
                path: path@,
                signatures: signatures@,
            },
        }
    }
}

/// The views of a list of blocks.
pub open spec fn block_views(v: Seq<EmbeddedBlock>) -> Seq<EmbeddedBlockView> {
    v.map_values(|b: EmbeddedBlock| b@)
}

/// The declaration text of an external reference: what follows the quoted
/// path and one comma.
pub open spec fn declarations_after_path(tokens: Seq<char>) -> Seq<char> {
    let c = unwrapped(trimmed(tokens), '(', ')');
    match index_of(c, '"') {
        Some(a) => match index_of_from(c, '"', a + 1) {
            Some(b) => {
                let rest = trimmed(c.subrange(b + 1, c.len() as int));
                if rest.len() > 0 && rest[0] == ',' {
                    trimmed(rest.subrange(1, rest.len() as int))
                } else {
                    rest
                }
            },
            None => Seq::empty(),
        },
        None => Seq::empty(),
    }
}

fn extract_declarations_after_path(tokens: &str) -> (r: String)
    ensures
        r@ == declarations_after_path(tokens@),
{
    let t = to_chars(tokens);
    let c = unwrap(trim(t.as_slice()), '(', ')');
    let n = c.len();
    match find_char(c, '"') {
        Some(a) => match find_char_from(c, '"', a + 1) {
            Some(b) => {
                let rest = trim(slice(c, b + 1, n));
                if rest.len() > 0 && rest[0] == ',' {
                    from_chars(trim(slice(rest, 1, rest.len())))
                } else {
                    from_chars(rest)
                }
            },
            None => String::new(),
        },
        None => String::new(),
    }
}

/// The block that one macro invocation embeds: `autozig` embeds inline
/// code, `include_zig` refers to a file; any other macro, an inline block
/// without code and a reference without a quoted path embed nothing.
pub open spec fn block_of(name: Option<Seq<char>>, tokens: Seq<char>) -> Option<
    EmbeddedBlockView,
> {
    if name == Some("autozig"@) {
        match zig_of_tokens(tokens) {
            Some(z) => Some(
                EmbeddedBlockView::Inline {
                    zig_code: z,
                    declarations: declaration_section(tokens),
                },
            ),
            None => None,
        }
    } else if name == Some("include_zig"@) {
        match first_quoted(tokens) {
            Some(p) => Some(
                EmbeddedBlockView::External {
                    path: p,
                    signatures: declarations_after_path(tokens),
                },
            ),
            None => None,
        }
    } else {
        None
    }
}

/// The view of an optional string.
pub open spec fn name_view(name: Option<String>) -> Option<Seq<char>> {
    match name {
        Some(n) => Some(n@),
        None => None,
    }
}

/// The blocks of the first `n` invocations, in order.
pub open spec fn blocks_of_calls(calls: Seq<MacroCall>, n: int) -> Seq<EmbeddedBlockView>
    decreases n,
{
    if n <= 0 {
        Seq::empty()
    } else {
        let rest = blocks_of_calls(calls, n - 1);
        match block_of(name_view(calls[n - 1].name), calls[n - 1].tokens@) {
            Some(b) => rest.push(b),
            None => rest,
        }
    }
}

/// The diagnostic for a source file that did not parse.
pub open spec fn parse_failure(path: Seq<char>, message: Seq<char>) -> Seq<char> {
    "Warning: Failed to parse "@ + path + ": "@ + message
}

/// The blocks of the first `n` source files, in order. A file that did not
/// parse has none.
pub open spec fn blocks_of_units(units: Seq<SourceUnit>, n: int) -> Seq<EmbeddedBlockView>
    decreases n,
{
    if n <= 0 {
        Seq::empty()
    } else {
        let rest = blocks_of_units(units, n - 1);
        match units[n - 1].calls {
            Ok(calls) => rest + blocks_of_calls(calls@, calls@.len() as int),
            Err(_) => rest,
        }
    }
}

/// The diagnostics of the first `n` source files: one for each that did
/// not parse.
pub open spec fn failures_of_units(units: Seq<SourceUnit>, n: int) -> Seq<Seq<char>>
    decreases n,
{
    if n <= 0 {
        Seq::empty()
    } else {
        let rest = failures_of_units(units, n - 1);
        match units[n - 1].calls {
            Ok(_) => rest,
            Err(message) => rest.push(parse_failure(units[n - 1].path@, message@)),
        }
    }
}

/// What the scan of the source files found.
#[derive(Debug, Clone)]
pub struct Scan {
    pub blocks: Vec<EmbeddedBlock>,
    /// One diagnostic for each file that did not parse.
    pub failures: Vec<String>,
}

/// The block embedded by one macro invocation.
pub fn block_of_call(call: &MacroCall) -> (r: Option<EmbeddedBlock>)
    ensures
        match r {
            Some(b) => block_of(name_view(call.name), call.tokens@) == Some(b@),
            None => block_of(name_view(call.name), call.tokens@) is None,
        },
{
    match &call.name {
        Some(name) => {
            let n = to_chars(name.as_str());
            if is(n.as_slice(), "autozig") {
                match extract_zig_from_tokens(call.tokens.as_str()) {
                    Some(zig_code) => Some(
                        EmbeddedBlock::Inline {
                            zig_code,
                            declarations: extract_declarations_from_tokens(call.tokens.as_str()),
                        },
                    ),
                    None => None,
                }
            } else if is(n.as_slice(), "include_zig") {
                match crate::extract::extract_file_path_from_tokens(call.tokens.as_str()) {
                    Some(path) => Some(
                        EmbeddedBlock::External {
                            path,
                            signatures: extract_declarations_after_path(call.tokens.as_str()),
                        },
                    ),
                    None => None,
                }
            } else {
                None
            }
        },
        None => None,
    }
}

/// The embedded blocks of the given source files, and a diagnostic for
/// each file that did not parse. No file stops the scan.
pub fn collect_blocks(units: &[SourceUnit]) -> (scan: Scan)
    ensures
        block_views(scan.blocks@) == blocks_of_units(units@, units@.len() as int),
        string_views(scan.failures@) == failures_of_units(units@, units@.len() as int),
{
    let mut blocks: Vec<EmbeddedBlock> = Vec::new();
    let mut failures: Vec<String> = Vec::new();
    let mut i: usize = 0;
    while i < units.len()
        invariant
            i <= units@.len(),
            block_views(blocks@) == blocks_of_units(units@, i as int),
            string_views(failures@) == failures_of_units(units@, i as int),
        decreases units.len() - i,
    {
        let ghost blocks_before = blocks@;
        match &units[i].calls {
            Ok(calls) => {
                let mut j: usize = 0;
                while j < calls.len()
                    invariant
                        j <= calls@.len(),
                        block_views(blocks@) == block_views(blocks_before) + blocks_of_calls(
                            calls@,
                            j as int,
                        ),
                    decreases calls.len() - j,
                {
                    let ghost inner = blocks@;
                    if let Some(b) = block_of_call(&calls[j]) {
                        blocks.push(b);
                        assert(block_views(blocks@) =~= block_views(inner).push(b@));
                    }
                    j += 1;
                }
            },
            Err(message) => {
                let mut line = String::new();
                line.append("Warning: Failed to parse ");
                line.append(units[i].path.as_str());
                line.append(": ");
                line.append(message.as_str());
                failures.push(line);
            },
        }
        i += 1;
    }
    Scan { blocks, failures }
}

// ---------------------------------------------------------------------------
// Merging
// ---------------------------------------------------------------------------

/// The line imports the standard library under the name `std`.
pub open spec fn is_std_import(line: Seq<char>) -> bool {
    let t = trimmed(line);
    has_prefix(t, "const std"@) && occurs(t, "@import(\"std\")"@)
}

/// The first `n` lines, each with a line feed, but for every import of
/// `std` after the first; `seen` says whether an import came before these
/// lines. The second component says whether one has come by their end.
pub open spec fn imports_deduped(lines: Seq<Seq<char>>, n: int, seen: bool) -> (Seq<char>, bool)
    decreases n,
{
    if n <= 0 {
        (Seq::empty(), seen)
    } else {
        let (text, s) = imports_deduped(lines, n - 1, seen);
        let line = lines[n - 1];
        if is_std_import(line) {
            if s {
                (text, true)
            } else {
                (text + line + seq!['\n'], true)
            }
        } else {
            (text + line + seq!['\n'], s)
        }
    }
}

fn std_import(line: &[char]) -> (b: bool)
    ensures
        b == is_std_import(line@),
{
    let t = trim(line);
    starts_with(t, to_chars("const std").as_slice()) && contains(
        t,
        to_chars("@import(\"std\")").as_slice(),
    )
}

pub(crate) fn dedup_imports(content: &[char], has_std_import: &mut bool) -> (out: Vec<char>)
    ensures
        (out@, *final(has_std_import)) == imports_deduped(
            lines_of(content@),
            lines_of(content@).len() as int,
            *old(has_std_import),
        ),
{
    let all = lines(content);
    let mut out: Vec<char> = Vec::new();
    let mut i: usize = 0;
    while i < all.len()
        invariant
            i <= all@.len(),
            views(all@) == lines_of(content@),
            (out@, *has_std_import) == imports_deduped(
                lines_of(content@),
                i as int,
                *old(has_std_import),
            ),
        decreases all.len() - i,
    {
        let line = all[i].as_slice();
        if std_import(line) {
            if !*has_std_import {
                push_all(&mut out, line);
                out.push('\n');
                *has_std_import = true;
            }
        } else {
            push_all(&mut out, line);
            out.push('\n');
        }
        i += 1;
    }
    out
}

/// Drops every import of `std` but the first from the content of a Zig
/// file. `has_std_import` says whether an earlier file imported it
/// already, and is set when this one does.
pub fn remove_duplicate_imports(content: &str, has_std_import: &mut bool) -> (out: String)
    ensures
        (out@, *final(has_std_import)) == imports_deduped(
            lines_of(content@),
            lines_of(content@).len() as int,
            *old(has_std_import),
        ),
{
    let c = to_chars(content);
    let out = dedup_imports(c.as_slice(), has_std_import);
    from_chars(out.as_slice())
}

// ---------------------------------------------------------------------------
// Files
// ---------------------------------------------------------------------------

/// A file on disk, as the caller found it.
#[derive(Debug)]
pub struct SourceFile {
    pub path: String,
    /// The last component of the path, where it has one.
    pub file_name: Option<String>,
}

impl SourceFile {
    /// A copy of the file.
    pub fn duplicate(&self) -> (r: SourceFile)
        ensures
            r == *self,
    {
        SourceFile {
            path: self.path.clone(),
            file_name: match &self.file_name {
                Some(n) => Some(n.clone()),
                None => None,
            },
        }
    }
}

/// A referenced Zig file, as the caller resolved it.
#[derive(Debug)]
pub struct ExternalSource {
    pub file: SourceFile,
    /// Whether the reference resolves to an existing file.
    pub exists: bool,
    /// The content of the file, or the message of the read failure.
    pub content: Result<String, String>,
}

/// The result of a scan: merged code, or the parts of a modular build.
#[derive(Debug)]
pub enum ScanResult {
    Merged(String),
    Modular {
        /// The Zig code of the inline blocks.
        embedded_code: Vec<String>,
        /// The referenced Zig files that exist.
        external_files: Vec<SourceFile>,
        /// Every Zig file to compile, each once.
        all_zig_files: Vec<SourceFile>,
        /// The C source files to compile and link, each once.
        c_source_files: Vec<SourceFile>,
        /// All the Zig code of the build in one text: the embedded code,
        /// then each referenced file under a comment that names it.
        foreign_text: String,
    },
}

impl ScanResult {
    /// The text of a modular result is empty exactly where the result
    /// holds neither embedded code nor a referenced file.
    pub open spec fn well_formed(self) -> bool {
        match self {
            ScanResult::Merged(_) => true,
            ScanResult::Modular { embedded_code, external_files, foreign_text, .. } => (
            foreign_text@.len() == 0) <==> (embedded_code@.len() == 0 && external_files@.len()
                == 0),
        }
    }
}

/// A scan result with the diagnostics that came up on the way.
#[derive(Debug)]
pub struct ScanOutcome {
    pub result: ScanResult,
    pub diagnostics: Vec<String>,
}

pub(crate) fn same_text(a: &str, b: &str) -> (r: bool)
    ensures
        r == (a@ == b@),
{
    let x = to_chars(a);
    let y = to_chars(b);
    crate::text::eq(x.as_slice(), y.as_slice())
}

/// The Zig code of the inline blocks among the first `n`, in order.
pub open spec fn inline_codes(blocks: Seq<EmbeddedBlock>, n: int) -> Seq<Seq<char>>
    decreases n,
{
    if n <= 0 {
        Seq::empty()
    } else {
        let rest = inline_codes(blocks, n - 1);
        match blocks[n - 1] {
            EmbeddedBlock::Inline { zig_code, .. } => rest.push(zig_code@),
            EmbeddedBlock::External { .. } => rest,
        }
    }
}

/// The paths of the external references among the first `n` blocks.
pub open spec fn referenced_paths(blocks: Seq<EmbeddedBlock>, n: int) -> Seq<Seq<char>>
    decreases n,
{
    if n <= 0 {
        Seq::empty()
    } else {
        let rest = referenced_paths(blocks, n - 1);
        match blocks[n - 1] {
            EmbeddedBlock::Inline { .. } => rest,
            EmbeddedBlock::External { path, .. } => rest.push(path@),
        }
    }
}

/// The Zig code of the inline blocks, in order.
pub fn embedded_code(blocks: &[EmbeddedBlock]) -> (codes: Vec<String>)
    ensures
        string_views(codes@) == inline_codes(blocks@, blocks@.len() as int),
{
    let mut codes: Vec<String> = Vec::new();
    let mut i: usize = 0;
    while i < blocks.len()
        invariant
            i <= blocks@.len(),
            string_views(codes@) == inline_codes(blocks@, i as int),
        decreases blocks.len() - i,
    {
        match &blocks[i] {
            EmbeddedBlock::Inline { zig_code, .. } => {
                codes.push(zig_code.clone());
            },
            EmbeddedBlock::External { .. } => {},
        }
        i += 1;
    }
    codes
}

/// The paths that the external references name, in order. The caller
/// resolves each against the manifest directory.
pub fn external_references(blocks: &[EmbeddedBlock]) -> (paths: Vec<String>)
    ensures
        string_views(paths@) == referenced_paths(blocks@, blocks@.len() as int),
{
    let mut paths: Vec<String> = Vec::new();
    let mut i: usize = 0;
    while i < blocks.len()
        invariant
            i <= blocks@.len(),
            string_views(paths@) == referenced_paths(blocks@, i as int),
        decreases blocks.len() - i,
    {
        match &blocks[i] {
            EmbeddedBlock::Inline { .. } => {},
            EmbeddedBlock::External { path, .. } => {
                paths.push(path.clone());
            },
        }
        i += 1;
    }
    paths
}

/// The files among the first `n` references that exist.
pub open spec fn existing_files(externals: Seq<ExternalSource>, n: int) -> Seq<SourceFile>
    decreases n,
{
    if n <= 0 {
        Seq::empty()
    } else {
        let rest = existing_files(externals, n - 1);
        if externals[n - 1].exists {
            rest.push(externals[n - 1].file)
        } else {
            rest
        }
    }
}

/// The diagnostic for a reference that resolves to no file.
pub open spec fn not_found(path: Seq<char>) -> Seq<char> {
    "Warning: External Zig file not found: "@ + path
}

/// The diagnostic for a referenced file that could not be read.
pub open spec fn unreadable(path: Seq<char>, message: Seq<char>) -> Seq<char> {
    "Warning: Failed to read external Zig file "@ + path + ": "@ + message
}

/// One diagnostic for each of the first `n` references that resolves to no
/// file.
pub open spec fn missing_files(externals: Seq<ExternalSource>, n: int) -> Seq<Seq<char>>
    decreases n,
{
    if n <= 0 {
        Seq::empty()
    } else {
        let rest = missing_files(externals, n - 1);
        if externals[n - 1].exists {
            rest
        } else {
            rest.push(not_found(externals[n - 1].file.path@))
        }
    }
}

/// One diagnostic for each of the first `n` references that exists and
/// could not be read.
pub open spec fn unreadable_files(externals: Seq<ExternalSource>, n: int) -> Seq<Seq<char>>
    decreases n,
{
    if n <= 0 {
        Seq::empty()
    } else {
        let rest = unreadable_files(externals, n - 1);
        match externals[n - 1].content {
            Err(message) => if externals[n - 1].exists {
                rest.push(unreadable(externals[n - 1].file.path@, message@))
            } else {
                rest
            },
            Ok(_) => rest,
        }
    }
}

/// Some file among `files` has the path `path`.
pub open spec fn has_path(files: Seq<SourceFile>, path: Seq<char>) -> bool {
    exists|j: int| 0 <= j < files.len() && (#[trigger] files[j]).path@ == path
}

/// The first `n` files, each path once: of files with one path the first
/// stays.
pub open spec fn distinct_files(files: Seq<SourceFile>, n: int) -> Seq<SourceFile>
    decreases n,
{
    if n <= 0 {
        Seq::empty()
    } else {
        let rest = distinct_files(files, n - 1);
        if has_path(rest, files[n - 1].path@) {
            rest
        } else {
            rest.push(files[n - 1])
        }
    }
}

/// No two of the files have the same path.
pub open spec fn paths_distinct(files: Seq<SourceFile>) -> bool {
    forall|i: int, j: int|
        0 <= i < j < files.len() ==> (#[trigger] files[i]).path@ != (#[trigger] files[j]).path@
}

/// `distinct_files` holds no path twice, and holds every path of the
/// files it was made from.
pub proof fn lemma_distinct_files(files: Seq<SourceFile>, n: int)
    requires
        0 <= n <= files.len(),
    ensures
        paths_distinct(distinct_files(files, n)),
        forall|k: int|
            0 <= k < n ==> has_path(distinct_files(files, n), (#[trigger] files[k]).path@),
        forall|j: int|
            0 <= j < distinct_files(files, n).len() ==> exists|k: int|
                0 <= k < n && files[k] == #[trigger] distinct_files(files, n)[j],
    decreases n,
{
    if n > 0 {
        lemma_distinct_files(files, n - 1);
        let rest = distinct_files(files, n - 1);
        let all = distinct_files(files, n);
        let last = files[n - 1];
        if !has_path(rest, last.path@) {
            assert forall|k: int| 0 <= k < n implies has_path(all, (#[trigger] files[k]).path@) by {
                if k < n - 1 {
                    let j = choose|j: int| 0 <= j < rest.len() && rest[j].path@ == files[k].path@;
                    assert(all[j].path@ == files[k].path@);
                } else {
                    assert(all[all.len() - 1].path@ == files[k].path@);
                }
            }
            assert forall|j: int| 0 <= j < all.len() implies exists|k: int|
                0 <= k < n && files[k] == #[trigger] all[j] by {
                if j < rest.len() {
                    let k = choose|k: int| 0 <= k < n - 1 && files[k] == rest[j];
                    assert(files[k] == all[j]);
                }
            }
        }
    }
}

fn holds_path(files: &Vec<SourceFile>, path: &str) -> (r: bool)
    ensures
        r == has_path(files@, path@),
{
    let mut j: usize = 0;
    while j < files.len()
        invariant
            j <= files@.len(),
            forall|k: int| 0 <= k < j ==> (#[trigger] files@[k]).path@ != path@,
        decreases files.len() - j,
    {
        if same_text(files[j].path.as_str(), path) {
            return true;
        }
        j += 1;
    }
    false
}

/// The files, each path once, in the order in which each first comes.
pub fn unique_files(files: &[SourceFile]) -> (out: Vec<SourceFile>)
    ensures
        out@ == distinct_files(files@, files@.len() as int),
        paths_distinct(out@),
{
    let mut out: Vec<SourceFile> = Vec::new();
    let mut i: usize = 0;
    while i < files.len()
        invariant
            i <= files@.len(),
            out@ == distinct_files(files@, i as int),
        decreases files.len() - i,
    {
        if !holds_path(&out, files[i].path.as_str()) {
            out.push(files[i].duplicate());
        }
        i += 1;
    }
    proof {
        lemma_distinct_files(files@, files@.len() as int);
    }
    out
}

/// The embedded code, each piece followed by a line feed.
pub open spec fn embedded_merged(codes: Seq<Seq<char>>, n: int) -> Seq<char>
    decreases n,
{
    if n <= 0 {
        Seq::empty()
    } else {
        embedded_merged(codes, n - 1) + codes[n - 1] + seq!['\n']
    }
}

/// The content of those of the first `n` referenced files that exist and
/// were read, each under a comment that names the file, with every import
/// of `std` after the first dropped.
pub open spec fn externals_merged(externals: Seq<ExternalSource>, n: int) -> (Seq<char>, bool)
    decreases n,
{
    if n <= 0 {
        (Seq::empty(), false)
    } else {
        let (text, seen) = externals_merged(externals, n - 1);
        let e = externals[n - 1];
        match e.content {
            Ok(content) => if e.exists {
                let (cleaned, s) = imports_deduped(
                    lines_of(content@),
                    lines_of(content@).len() as int,
                    seen,
                );
                (
                    text + "\n// From external file: "@ + e.file.path@ + seq!['\n'] + cleaned
                        + seq!['\n'],
                    s,
                )
            } else {
                (text, seen)
            },
            Err(_) => (text, seen),
        }
    }
}

/// All the Zig code in one text: the embedded code, then the external
/// files.
pub open spec fn merged_code(codes: Seq<Seq<char>>, externals: Seq<ExternalSource>) -> Seq<
    char,
> {
    embedded_merged(codes, codes.len() as int) + externals_merged(
        externals,
        externals.len() as int,
    ).0
}

/// Merges the embedded code and the content of the referenced files into
/// one text. Returns the text and a diagnostic for each file that could
/// not be read.
pub fn merge_code(embedded: &[String], external: &[ExternalSource]) -> (r: (String, Vec<String>))
    ensures
        r.0@ == merged_code(string_views(embedded@), external@),
        string_views(r.1@) == unreadable_files(external@, external@.len() as int),
{
    let mut out: Vec<char> = Vec::new();
    let mut warnings: Vec<String> = Vec::new();
    let mut has_std_import = false;
    let mut i: usize = 0;
    while i < embedded.len()
        invariant
            i <= embedded@.len(),
            out@ == embedded_merged(string_views(embedded@), i as int),
        decreases embedded.len() - i,
    {
        push_str(&mut out, embedded[i].as_str());
        out.push('\n');
        i += 1;
    }
    let ghost head = out@;
    let mut k: usize = 0;
    while k < external.len()
        invariant
            k <= external@.len(),
            out@ == head + externals_merged(external@, k as int).0,
            has_std_import == externals_merged(external@, k as int).1,
            string_views(warnings@) == unreadable_files(external@, k as int),
        decreases external.len() - k,
    {
        let e = &external[k];
        if e.exists {
            match &e.content {
                Ok(content) => {
                    push_str(&mut out, "\n// From external file: ");
                    push_str(&mut out, e.file.path.as_str());
                    out.push('\n');
                    let c = to_chars(content.as_str());
                    let cleaned = dedup_imports(c.as_slice(), &mut has_std_import);
                    push_all(&mut out, cleaned.as_slice());
                    out.push('\n');
                },
                Err(message) => {
                    let mut line = String::new();
                    line.append("Warning: Failed to read external Zig file ");
                    line.append(e.file.path.as_str());
                    line.append(": ");
                    line.append(message.as_str());
                    warnings.push(line);
                },
            }
        }
        k += 1;
    }
    (from_chars(out.as_slice()), warnings)
}

/// What each of the first `n` references that exists adds to the text of
/// a modular build: a comment that names the file, then its content, as
/// far as it could be read.
pub open spec fn externals_aggregated(externals: Seq<ExternalSource>, n: int) -> Seq<char>
    decreases n,
{
    if n <= 0 {
        Seq::empty()
    } else {
        let text = externals_aggregated(externals, n - 1);
        let e = externals[n - 1];
        if e.exists {
            text + "\n// From external file: "@ + e.file.path@ + seq!['\n'] + (match e.content {
                Ok(content) => content@,
                Err(_) => Seq::empty(),
            }) + seq!['\n']
        } else {
            text
        }
    }
}

/// All the Zig code of a modular build in one text: the embedded code,
/// then the referenced files. The text is empty exactly where there is
/// neither embedded code nor an existing referenced file.
pub open spec fn aggregated_code(codes: Seq<Seq<char>>, externals: Seq<ExternalSource>) -> Seq<
    char,
> {
    embedded_merged(codes, codes.len() as int) + externals_aggregated(
        externals,
        externals.len() as int,
    )
}

/// Each piece of embedded code and each existing file adds to the text.
pub proof fn lemma_aggregated_grows(codes: Seq<Seq<char>>, externals: Seq<ExternalSource>, n: int, m: int)
    requires
        0 <= n <= codes.len(),
        0 <= m <= externals.len(),
    ensures
        embedded_merged(codes, n).len() >= n,
        externals_aggregated(externals, m).len() >= existing_files(externals, m).len(),
        existing_files(externals, m).len() == 0 ==> externals_aggregated(externals, m).len() == 0,
    decreases n + m,
{
    if n > 0 {
        lemma_aggregated_grows(codes, externals, n - 1, m);
    } else if m > 0 {
        lemma_aggregated_grows(codes, externals, n, m - 1);
    }
}

/// Puts the embedded code and the content of the referenced files into
/// the one text that stands for the Zig code of a modular build.
pub fn aggregate_code(embedded: &[String], external: &[ExternalSource]) -> (text: String)
    ensures
        text@ == aggregated_code(string_views(embedded@), external@),
{
    let mut out: Vec<char> = Vec::new();
    let mut i: usize = 0;
    while i < embedded.len()
        invariant
            i <= embedded@.len(),
            out@ == embedded_merged(string_views(embedded@), i as int),
        decreases embedded.len() - i,
    {
        push_str(&mut out, embedded[i].as_str());
        out.push('\n');
        i += 1;
    }
    let ghost head = out@;
    let mut k: usize = 0;
    assert(out@ =~= head + externals_aggregated(external@, 0));
    while k < external.len()
        invariant
            k <= external@.len(),
            out@ == head + externals_aggregated(external@, k as int),
        decreases external.len() - k,
    {
        let ghost before = externals_aggregated(external@, k as int);
        let e = &external[k];
        if e.exists {
            push_str(&mut out, "\n// From external file: ");
            push_str(&mut out, e.file.path.as_str());
            out.push('\n');
            match &e.content {
                Ok(content) => {
                    push_str(&mut out, content.as_str());
                    out.push('\n');
                    assert(out@ =~= head + (before + "\n// From external file: "@ + e.file.path@
                        + seq!['\n'] + content@ + seq!['\n']));
                },
                Err(_) => {
                    out.push('\n');
                    assert(out@ =~= head + (before + "\n// From external file: "@ + e.file.path@
                        + seq!['\n'] + Seq::<char>::empty() + seq!['\n']));
                },
            }
        }
        k += 1;
    }
    from_chars(out.as_slice())
}

// ---------------------------------------------------------------------------
// The scanner
// ---------------------------------------------------------------------------

/// Scanner for the Zig code embedded in a source tree.
#[derive(Debug)]
pub struct ZigCodeScanner {
    pub src_dir: String,
    pub mode: CompilationMode,
}

fn existing(externals: &[ExternalSource]) -> (r: (Vec<SourceFile>, Vec<String>))
    ensures
        r.0@ == existing_files(externals@, externals@.len() as int),
        string_views(r.1@) == missing_files(externals@, externals@.len() as int),
{
    let mut files: Vec<SourceFile> = Vec::new();
    let mut warnings: Vec<String> = Vec::new();
    let mut i: usize = 0;
    while i < externals.len()
        invariant
            i <= externals@.len(),
            files@ == existing_files(externals@, i as int),
            string_views(warnings@) == missing_files(externals@, i as int),
        decreases externals.len() - i,
    {
        if externals[i].exists {
            files.push(externals[i].file.duplicate());
        } else {
            let mut line = String::new();
            line.append("Warning: External Zig file not found: ");
            line.append(externals[i].file.path.as_str());
            warnings.push(line);
        }
        i += 1;
    }
    (files, warnings)
}

fn push_files(out: &mut Vec<SourceFile>, files: &[SourceFile])
    ensures
        final(out)@ == old(out)@ + files@,
{
    let mut i: usize = 0;
    while i < files.len()
        invariant
            i <= files@.len(),
            out@ == old(out)@ + files@.take(i as int),
        decreases files.len() - i,
    {
        out.push(files[i].duplicate());
        i += 1;
    }
}

fn push_lines(out: &mut Vec<String>, more: &Vec<String>)
    ensures
        string_views(final(out)@) == string_views(old(out)@) + string_views(more@),
{
    let mut i: usize = 0;
    while i < more.len()
        invariant
            i <= more@.len(),
            string_views(out@) == string_views(old(out)@) + string_views(more@).take(i as int),
        decreases more.len() - i,
    {
        let ghost before = out@;
        out.push(more[i].clone());
        assert(string_views(out@) =~= string_views(before).push(more@[i as int]@));
        i += 1;
    }
}

impl ZigCodeScanner {
    /// A scanner in the mode without a setting.
    pub fn new(src_dir: &str) -> (scanner: ZigCodeScanner)
        ensures
            scanner.src_dir@ == src_dir@,
            scanner.mode == CompilationMode::Merged,
    {
        ZigCodeScanner::with_mode(src_dir, CompilationMode::Merged)
    }

    /// A scanner in the given mode.
    pub fn with_mode(src_dir: &str, mode: CompilationMode) -> (scanner: ZigCodeScanner)
        ensures
            scanner.src_dir@ == src_dir@,
            scanner.mode == mode,
    {
        ZigCodeScanner { src_dir: src_dir.to_owned(), mode }
    }

    /// The compilation mode of the scanner.
    pub fn mode(&self) -> (mode: CompilationMode)
        ensures
            mode == self.mode,
    {
        self.mode
    }

    /// The diagnostics of a scan: the files that did not parse, the
    /// references that resolve to no file, and the files that could not be
    /// read.
    pub open spec fn diagnostics_of(
        &self,
        scan: Scan,
        externals: Seq<ExternalSource>,
    ) -> Seq<Seq<char>> {
        string_views(scan.failures@) + missing_files(externals, externals.len() as int)
            + unreadable_files(externals, externals.len() as int)
    }

    /// Every Zig file of a modular build: the referenced files that exist,
    /// then the files of the source tree, each path once.
    pub open spec fn zig_files_of(
        externals: Seq<ExternalSource>,
        zig_files: Seq<SourceFile>,
    ) -> Seq<SourceFile> {
        let all = existing_files(externals, externals.len() as int) + zig_files;
        distinct_files(all, all.len() as int)
    }

    /// Puts the scan together. `scan` holds the embedded blocks,
    /// `externals` each referenced file as the caller resolved it, in the
    /// order of the references; `zig_files` and `c_files` are the Zig and C
    /// files found in the source tree. A merged scanner merges all code
    /// into one text; a modular one lists the parts.
    pub fn scan_modular(
        &self,
        scan: &Scan,
        externals: &[ExternalSource],
        zig_files: &[SourceFile],
        c_files: &[SourceFile],
    ) -> (outcome: ScanOutcome)
        ensures
            string_views(outcome.diagnostics@) == self.diagnostics_of(*scan, externals@),
            match outcome.result {
                ScanResult::Merged(code) => self.mode == CompilationMode::Merged && code@
                    == merged_code(
                    inline_codes(scan.blocks@, scan.blocks@.len() as int),
                    externals@,
                ),
                ScanResult::Modular {
                    embedded_code,
                    external_files,
                    all_zig_files,
                    c_source_files,
                    foreign_text,
                } => {
                    &&& self.mode != CompilationMode::Merged
                    &&& foreign_text@ == aggregated_code(
                        inline_codes(scan.blocks@, scan.blocks@.len() as int),
                        externals@,
                    )
                    &&& outcome.result.well_formed()
                    &&& string_views(embedded_code@) == inline_codes(
                        scan.blocks@,
                        scan.blocks@.len() as int,
                    )
                    &&& external_files@ == existing_files(externals@, externals@.len() as int)
                    &&& all_zig_files@ == Self::zig_files_of(externals@, zig_files@)
                    &&& paths_distinct(all_zig_files@)
                    &&& c_source_files@ == distinct_files(c_files@, c_files@.len() as int)
                    &&& paths_distinct(c_source_files@)
                },
            },
    {
        let codes = embedded_code(scan.blocks.as_slice());
        let (external_files, missing) = existing(externals);
        let mut diagnostics: Vec<String> = Vec::new();
        push_lines(&mut diagnostics, &scan.failures);
        push_lines(&mut diagnostics, &missing);
        let (code, unread) = merge_code(codes.as_slice(), externals);
        push_lines(&mut diagnostics, &unread);
        match self.mode {
            CompilationMode::Merged => {
                ScanOutcome { result: ScanResult::Merged(code), diagnostics }
            },
            CompilationMode::ModularImport | CompilationMode::ModularBuildZig => {
                let foreign_text = aggregate_code(codes.as_slice(), externals);
                proof {
                    lemma_aggregated_grows(
                        string_views(codes@),
                        externals@,
                        codes@.len() as int,
                        externals@.len() as int,
                    );
                }
                let mut all: Vec<SourceFile> = Vec::new();
                push_files(&mut all, external_files.as_slice());
                push_files(&mut all, zig_files);
                let all_zig_files = unique_files(all.as_slice());
                let c_source_files = unique_files(c_files);
                ScanOutcome {
                    result: ScanResult::Modular {
                        embedded_code: codes,
                        external_files,
                        all_zig_files,
                        c_source_files,
                        foreign_text,
                    },
                    diagnostics,
                }
            },
        }
    }

    /// The scanned Zig code as one text: the merged code of a merged scan,
    /// the embedded code joined by line feeds of a modular one.
    pub fn scan(
        &self,
        scan: &Scan,
        externals: &[ExternalSource],
        zig_files: &[SourceFile],
        c_files: &[SourceFile],
    ) -> (r: (String, Vec<String>))
        ensures
            string_views(r.1@) == self.diagnostics_of(*scan, externals@),
            self.mode == CompilationMode::Merged ==> r.0@ == merged_code(
                inline_codes(scan.blocks@, scan.blocks@.len() as int),
                externals@,
            ),
            self.mode != CompilationMode::Merged ==> r.0@ == joined(
                inline_codes(scan.blocks@, scan.blocks@.len() as int),
                seq!['\n'],
            ),
    {
        let outcome = self.scan_modular(scan, externals, zig_files, c_files);
        match outcome.result {
            ScanResult::Merged(code) => (code, outcome.diagnostics),
            ScanResult::Modular { embedded_code, .. } => {
                proof {
                    reveal_strlit("\n");
                    assert("\n"@ =~= seq!['\n']);
                }
                (join_strings(&embedded_code, "\n"), outcome.diagnostics)
            },
        }
    }
}

} // verus!
