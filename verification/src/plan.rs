//! Planning a build.
//!
//! The engine decides what a build does; the caller does it. From the scan
//! of the source tree and the state that the last build left behind, the
//! engine makes a plan: the notices to print, the steps to perform in
//! order (the first that fails ends the build), and the link instructions
//! to emit once all steps are done.

use vstd::prelude::*;
use sha2::{Digest, Sha256};
use crate::edit::{join_strings, joined, string_views};
use crate::engine::{
    file_names, lowered_wrappers, lowering_banner, main_module, modified_code,
    rust_to_zig_target, zig_target_of, AutoZigEngine, BuildOutput,
};
use crate::buildzig::build_zig;
use crate::scanner::{name_view, same_text, CompilationMode, ScanResult, SourceFile};

verus! {

/// The SHA-256 digest of the UTF-8 encoding of a text, written as
/// lower-case hexadecimal digits.
pub uninterp spec fn sha256_hex(text: Seq<char>) -> Seq<char>;

/// `sha2::Sha256::digest` on the bytes of `text`, formatted with `{:x}`:
/// the digest is a function of the text alone.
#[verifier::external_body]
fn sha256_digest_hex(text: &str) -> (digest: String)
    ensures
        digest@ == sha256_hex(text@),
{
    format!("{:x}", Sha256::digest(text.as_bytes()))
}

/// The content fingerprint of a piece of code.
pub fn fingerprint(code: &str) -> (digest: String)
    ensures
        digest@ == sha256_hex(code@),
{
    sha256_digest_hex(code)
}

/// What the caller knows when a build starts.
#[derive(Debug)]
pub struct BuildContext {
    /// The Rust target triple of the build, where one is set.
    pub rust_target: Option<String>,
    /// The fingerprint that the last build recorded, where its record can
    /// be read.
    pub stored_fingerprint: Option<String>,
    /// Whether the static library of an earlier build is in place.
    pub artifact_exists: bool,
}

pub struct BuildContextView {
    pub rust_target: Option<Seq<char>>,
    pub stored_fingerprint: Option<Seq<char>>,
    pub artifact_exists: bool,
}

impl View for BuildContext {
    type V = BuildContextView;

    open spec fn view(&self) -> BuildContextView {
        BuildContextView {
            rust_target: name_view(self.rust_target),
            stored_fingerprint: name_view(self.stored_fingerprint),
            artifact_exists: self.artifact_exists,
        }
    }
}

/// One step of a build.
#[derive(Debug)]
pub enum BuildStep {
    /// Write `content` to the file at `path`.
    WriteFile { path: String, content: String },
    /// Copy the file at `from` to `to`.
    CopyFile { from: String, to: String },
    /// Compile the Zig file `source` to the static library `output` for
    /// `target`, with the C sources found in `src_dir`.
    CompileLibrary { source: String, output: String, target: String, src_dir: String },
    /// Run the build file `build_file` in `build_dir`; the library is
    /// expected at `output`.
    RunBuildZig { build_file: String, build_dir: String, output: String },
}

pub enum BuildStepView {
    WriteFile { path: Seq<char>, content: Seq<char> },
    CopyFile { from: Seq<char>, to: Seq<char> },
    CompileLibrary { source: Seq<char>, output: Seq<char>, target: Seq<char>, src_dir: Seq<char> },
    RunBuildZig { build_file: Seq<char>, build_dir: Seq<char>, output: Seq<char> },
}

impl View for BuildStep {
    type V = BuildStepView;

    open spec fn view(&self) -> BuildStepView {
        match self {
            BuildStep::WriteFile { path, content } => BuildStepView::WriteFile {
                path: path@,
                content: content@,
            },
            BuildStep::CopyFile { from, to } => BuildStepView::CopyFile { from: from@, to: to@ },
            BuildStep::CompileLibrary {
                source,
                output,
                target,
                src_dir,
            } => BuildStepView::CompileLibrary {
                source: source@,
                output: output@,
                target: target@,
                src_dir: src_dir@,
            },
            BuildStep::RunBuildZig { build_file, build_dir, output } => BuildStepView::RunBuildZig {
                build_file: build_file@,
                build_dir: build_dir@,
                output: output@,
            },
        }
    }
}

/// The views of a list of steps.
pub open spec fn step_views(v: Seq<BuildStep>) -> Seq<BuildStepView> {
    v.map_values(|s: BuildStep| s@)
}

/// The plan of a build.
#[derive(Debug)]
pub struct BuildPlan {
    /// Lines for cargo, printed before anything is done.
    pub notices: Vec<String>,
    /// The steps, in order. A failing step ends the build.
    pub steps: Vec<BuildStep>,
    /// The link instructions, printed once every step is done.
    pub link: Vec<String>,
    pub output: BuildOutput,
}

pub struct BuildPlanView {
    pub notices: Seq<Seq<char>>,
    pub steps: Seq<BuildStepView>,
    pub link: Seq<Seq<char>>,
    pub lib_path: Option<Seq<char>>,
}

impl View for BuildPlan {
    type V = BuildPlanView;

    open spec fn view(&self) -> BuildPlanView {
        BuildPlanView {
            notices: string_views(self.notices@),
            steps: step_views(self.steps@),
            link: string_views(self.link@),
            lib_path: name_view(self.output.lib_path),
        }
    }
}

/// Why no plan can be made.
#[derive(Debug)]
pub enum BuildError {
    /// A modular build was handed a merged scan.
    ExpectedModularScan,
    /// A file to copy has a path without a file name.
    MissingFileName { path: String },
}

impl BuildError {
    /// The message of the error.
    pub open spec fn text(self) -> Seq<char> {
        match self {
            BuildError::ExpectedModularScan => "Expected modular scan result"@,
            BuildError::MissingFileName { path } => "Failed to copy "@ + path@,
        }
    }

    /// The message of the error.
    pub fn message(&self) -> (m: String)
        ensures
            m@ == self.text(),
    {
        match self {
            BuildError::ExpectedModularScan => "Expected modular scan result".to_owned(),
            BuildError::MissingFileName { path } => {
                let mut m = String::new();
                m.append("Failed to copy ");
                m.append(path.as_str());
                m
            },
        }
    }
}

/// The path of the file `name` in the out directory.
pub open spec fn out_path(out_dir: Seq<char>, name: Seq<char>) -> Seq<char> {
    out_dir + "/"@ + name
}

/// The code that a merged build compiles: the Zig code with its
/// array-returning functions made internal, then the wrappers under their
/// banner.
pub open spec fn complete_code(zig_code: Seq<char>) -> Seq<char> {
    let blocks = seq![zig_code];
    let modified = modified_code(blocks);
    let wrappers = lowered_wrappers(blocks, 1);
    (if modified.len() == 0 {
        zig_code
    } else {
        modified
    }) + (if wrappers.len() == 0 {
        Seq::empty()
    } else {
        "\n\n"@ + lowering_banner() + wrappers
    })
}

/// The artifact of the last build stands for code with this fingerprint.
pub open spec fn up_to_date(ctx: BuildContextView, digest: Seq<char>) -> bool {
    ctx.artifact_exists && ctx.stored_fingerprint == Some(digest)
}

/// The Zig target of the build; `native` without a Rust target.
pub open spec fn target_of(ctx: BuildContextView) -> Seq<char> {
    zig_target_of(
        match ctx.rust_target {
            Some(t) => t,
            None => "native"@,
        },
    )
}

/// The Zig code of a scan as one text, as a build in the given mode takes
/// it: a merged build takes merged code, or the embedded code of a modular
/// scan joined by line feeds; a modular build takes the text that the
/// modular scan aggregated.
pub open spec fn aggregated(mode: CompilationMode, scan: ScanResult) -> Seq<char> {
    match scan {
        ScanResult::Merged(code) => code@,
        ScanResult::Modular { embedded_code, foreign_text, .. } => if mode
            == CompilationMode::Merged {
            joined(string_views(embedded_code@), seq!['\n'])
        } else {
            foreign_text@
        },
    }
}

/// The fingerprint that a build in the given mode records for the
/// aggregated text: a merged build fingerprints the code it compiles, a
/// modular build the aggregated text itself.
pub open spec fn build_fingerprint(mode: CompilationMode, text: Seq<char>) -> Seq<char> {
    if mode == CompilationMode::Merged {
        sha256_hex(complete_code(text))
    } else {
        sha256_hex(text)
    }
}

/// The notice of a build that finds its code unchanged.
pub open spec fn unchanged_notice() -> Seq<char> {
    "cargo:warning=Zig code unchanged, skipping compilation"@
}

/// The step that records a fingerprint in the out directory.
pub open spec fn record_step(out_dir: Seq<char>, digest: Seq<char>) -> BuildStepView {
    BuildStepView::WriteFile { path: out_path(out_dir, ".zig_code_hash"@), content: digest }
}

/// The line that makes cargo run the build again when the source
/// directory changes.
pub open spec fn rerun_notice(src_dir: Seq<char>) -> Seq<char> {
    "cargo:rerun-if-changed="@ + src_dir
}

/// The plan of a merged build.
pub open spec fn merged_plan(
    src_dir: Seq<char>,
    out_dir: Seq<char>,
    zig_code: Seq<char>,
    ctx: BuildContextView,
) -> BuildPlanView {
    let notices = seq![
        rerun_notice(src_dir),
        "cargo:warning=Using MERGED compilation mode (legacy)"@,
    ];
    if zig_code.len() == 0 {
        BuildPlanView { notices, steps: Seq::empty(), link: Seq::empty(), lib_path: None }
    } else {
        let code = complete_code(zig_code);
        let digest = sha256_hex(code);
        let lib = out_path(out_dir, "libautozig.a"@);
        if up_to_date(ctx, digest) {
            BuildPlanView {
                notices: notices.push(unchanged_notice()),
                steps: Seq::empty(),
                link: AutoZigEngine::link_lines(out_dir),
                lib_path: Some(lib),
            }
        } else {
            let source = out_path(out_dir, "generated_autozig.zig"@);
            BuildPlanView {
                notices,
                steps: seq![
                    BuildStepView::WriteFile { path: source, content: code },
                    BuildStepView::CompileLibrary {
                        source,
                        output: lib,
                        target: target_of(ctx),
                        src_dir,
                    },
                    record_step(out_dir, digest),
                ],
                link: AutoZigEngine::link_lines(out_dir),
                lib_path: Some(lib),
            }
        }
    }
}

/// One copy into the out directory for each of the first `n` files that
/// has a file name.
pub open spec fn copy_steps(files: Seq<SourceFile>, out_dir: Seq<char>, n: int) -> Seq<
    BuildStepView,
>
    decreases n,
{
    if n <= 0 {
        Seq::empty()
    } else {
        let rest = copy_steps(files, out_dir, n - 1);
        match files[n - 1].file_name {
            Some(name) => rest.push(
                BuildStepView::CopyFile { from: files[n - 1].path@, to: out_path(out_dir, name@) },
            ),
            None => rest,
        }
    }
}

/// The file names of the copies of the first `n` files.
pub open spec fn copied_names(files: Seq<SourceFile>, n: int) -> Seq<Option<Seq<char>>>
    decreases n,
{
    if n <= 0 {
        Seq::empty()
    } else {
        let rest = copied_names(files, n - 1);
        match files[n - 1].file_name {
            Some(name) => rest.push(Some(name@)),
            None => rest,
        }
    }
}

/// Every one of the files has a file name.
pub open spec fn all_named(files: Seq<SourceFile>) -> bool {
    forall|i: int| 0 <= i < files.len() ==> (#[trigger] files[i]).file_name is Some
}

/// The plan of a modular build with a main module that imports the
/// external files. `text` is the aggregated Zig code: where the last build
/// recorded its fingerprint and left its artifact, nothing is done again;
/// else the last step records the fingerprint.
pub open spec fn modular_import_plan(
    src_dir: Seq<char>,
    out_dir: Seq<char>,
    embedded: Seq<Seq<char>>,
    external: Seq<SourceFile>,
    text: Seq<char>,
    ctx: BuildContextView,
) -> BuildPlanView {
    let notices = seq![
        rerun_notice(src_dir),
        "cargo:warning=Using MODULAR_IMPORT compilation mode"@,
    ];
    if embedded.len() == 0 && external.len() == 0 {
        BuildPlanView { notices, steps: Seq::empty(), link: Seq::empty(), lib_path: None }
    } else if up_to_date(ctx, sha256_hex(text)) {
        BuildPlanView {
            notices: notices.push(unchanged_notice()),
            steps: Seq::empty(),
            link: AutoZigEngine::link_lines(out_dir),
            lib_path: Some(out_path(out_dir, "libautozig.a"@)),
        }
    } else {
        let lib = out_path(out_dir, "libautozig.a"@);
        let main_file = out_path(out_dir, "generated_main.zig"@);
        let n = external.len() as int;
        BuildPlanView {
            notices,
            steps: copy_steps(external, out_dir, n).push(
                BuildStepView::WriteFile {
                    path: main_file,
                    content: main_module(embedded, copied_names(external, n)),
                },
            ).push(
                BuildStepView::CompileLibrary {
                    source: main_file,
                    output: lib,
                    target: target_of(ctx),
                    src_dir,
                },
            ).push(record_step(out_dir, sha256_hex(text))),
            link: AutoZigEngine::link_lines(out_dir),
            lib_path: Some(lib),
        }
    }
}

/// The plan of a modular build driven by a generated `build.zig`. `text`
/// is the aggregated Zig code, as for `modular_import_plan`.
pub open spec fn modular_buildzig_plan(
    src_dir: Seq<char>,
    out_dir: Seq<char>,
    embedded: Seq<Seq<char>>,
    external: Seq<SourceFile>,
    c_files: Seq<SourceFile>,
    text: Seq<char>,
    ctx: BuildContextView,
) -> BuildPlanView {
    let notices = seq![
        rerun_notice(src_dir),
        "cargo:warning=Using MODULAR_BUILDZIG compilation mode (recommended)"@,
    ];
    if embedded.len() == 0 && external.len() == 0 {
        BuildPlanView { notices, steps: Seq::empty(), link: Seq::empty(), lib_path: None }
    } else if up_to_date(ctx, sha256_hex(text)) {
        BuildPlanView {
            notices: notices.push(unchanged_notice()),
            steps: Seq::empty(),
            link: AutoZigEngine::link_lines(out_dir),
            lib_path: Some(out_path(out_dir, "libautozig.a"@)),
        }
    } else {
        let lib = out_path(out_dir, "libautozig.a"@);
        let main_file = out_path(out_dir, "generated_main.zig"@);
        let build_file = out_path(out_dir, "build.zig"@);
        let n = external.len() as int;
        let m = c_files.len() as int;
        BuildPlanView {
            notices,
            steps: (copy_steps(external, out_dir, n) + copy_steps(c_files, out_dir, m)).push(
                BuildStepView::WriteFile {
                    path: main_file,
                    content: main_module(embedded, copied_names(external, n)),
                },
            ).push(
                BuildStepView::WriteFile {
                    path: build_file,
                    content: build_zig(target_of(ctx), copied_names(c_files, m)),
                },
            ).push(BuildStepView::RunBuildZig { build_file, build_dir: out_dir, output: lib }).push(
                record_step(out_dir, sha256_hex(text)),
            ),
            link: AutoZigEngine::link_lines(out_dir),
            lib_path: Some(lib),
        }
    }
}

fn in_out_dir(out_dir: &str, name: &str) -> (path: String)
    ensures
        path@ == out_path(out_dir@, name@),
{
    let mut path = out_dir.to_owned();
    path.append("/");
    path.append(name);
    path
}

fn rerun_line(src_dir: &str) -> (line: String)
    ensures
        line@ == rerun_notice(src_dir@),
{
    let mut line = String::new();
    line.append("cargo:rerun-if-changed=");
    line.append(src_dir);
    line
}

fn zig_target(context: &BuildContext) -> (target: String)
    ensures
        target@ == target_of(context@),
{
    match &context.rust_target {
        Some(t) => rust_to_zig_target(t.as_str()).to_owned(),
        None => rust_to_zig_target("native").to_owned(),
    }
}

fn unchanged(context: &BuildContext, digest: &str) -> (b: bool)
    ensures
        b == up_to_date(context@, digest@),
{
    context.artifact_exists && match &context.stored_fingerprint {
        Some(old) => same_text(old.as_str(), digest),
        None => false,
    }
}

fn nothing_to_build(notices: Vec<String>) -> (plan: BuildPlan)
    ensures
        plan@ == (BuildPlanView {
            notices: string_views(notices@),
            steps: Seq::empty(),
            link: Seq::empty(),
            lib_path: None,
        }),
{
    let plan = BuildPlan {
        notices,
        steps: Vec::new(),
        link: Vec::new(),
        output: BuildOutput { lib_path: None },
    };
    assert(plan@.steps =~= Seq::empty());
    assert(plan@.link =~= Seq::empty());
    plan
}

/// Copies of the files into the out directory, and the copied files.
fn plan_copies(steps: &mut Vec<BuildStep>, files: &[SourceFile], out_dir: &str) -> (copied: Vec<
    SourceFile,
>)
    ensures
        step_views(final(steps)@) == step_views(old(steps)@) + copy_steps(
            files@,
            out_dir@,
            files@.len() as int,
        ),
        file_names(copied@) == copied_names(files@, files@.len() as int),
{
    let mut copied: Vec<SourceFile> = Vec::new();
    let mut i: usize = 0;
    while i < files.len()
        invariant
            i <= files@.len(),
            step_views(steps@) == step_views(old(steps)@) + copy_steps(files@, out_dir@, i as int),
            file_names(copied@) == copied_names(files@, i as int),
        decreases files.len() - i,
    {
        let ghost planned = steps@;
        if let Some(name) = &files[i].file_name {
            let to = in_out_dir(out_dir, name.as_str());
            steps.push(BuildStep::CopyFile { from: files[i].path.clone(), to: to.clone() });
            copied.push(SourceFile { path: to, file_name: Some(name.clone()) });
            assert(step_views(steps@) =~= step_views(planned).push(
                BuildStepView::CopyFile {
                    from: files@[i as int].path@,
                    to: out_path(out_dir@, name@),
                },
            ));
        }
        i += 1;
    }
    copied
}

fn first_unnamed(files: &[SourceFile]) -> (r: Option<usize>)
    ensures
        match r {
            Some(i) => i < files@.len() && files@[i as int].file_name is None
                && first_unnamed_path(files@, 0) == Some(files@[i as int].path@),
            None => all_named(files@) && first_unnamed_path(files@, 0) is None,
        },
{
    let mut i: usize = 0;
    while i < files.len()
        invariant
            i <= files@.len(),
            forall|k: int| 0 <= k < i ==> (#[trigger] files@[k]).file_name is Some,
            first_unnamed_path(files@, 0) == first_unnamed_path(files@, i as int),
        decreases files.len() - i,
    {
        if files[i].file_name.is_none() {
            return Some(i);
        }
        i += 1;
    }
    None
}

/// The plan of a build in the given mode, from the source directory into
/// the out directory.
pub open spec fn planned(
    src_dir: Seq<char>,
    out_dir: Seq<char>,
    mode: CompilationMode,
    scan: ScanResult,
    ctx: BuildContextView,
) -> BuildPlanView {
    match mode {
        CompilationMode::Merged => merged_plan(src_dir, out_dir, aggregated(mode, scan), ctx),
        CompilationMode::ModularImport => match scan {
            ScanResult::Modular {
                embedded_code,
                external_files,
                foreign_text,
                ..
            } => modular_import_plan(
                src_dir,
                out_dir,
                string_views(embedded_code@),
                external_files@,
                foreign_text@,
                ctx,
            ),
            ScanResult::Merged(_) => arbitrary(),
        },
        CompilationMode::ModularBuildZig => match scan {
            ScanResult::Modular {
                embedded_code,
                external_files,
                c_source_files,
                foreign_text,
                ..
            } => modular_buildzig_plan(
                src_dir,
                out_dir,
                string_views(embedded_code@),
                external_files@,
                c_source_files@,
                foreign_text@,
                ctx,
            ),
            ScanResult::Merged(_) => arbitrary(),
        },
    }
}

/// There is something to copy for a `build.zig` build, and one of the
/// files to copy has no file name.
pub open spec fn unnamed_copy(mode: CompilationMode, scan: ScanResult) -> bool {
    mode == CompilationMode::ModularBuildZig && match scan {
        ScanResult::Modular { embedded_code, external_files, c_source_files, .. } => {
            !(embedded_code@.len() == 0 && external_files@.len() == 0) && !(all_named(
                external_files@,
            ) && all_named(c_source_files@))
        },
        ScanResult::Merged(_) => false,
    }
}

/// The path of the first file from `i` on that has no file name.
pub open spec fn first_unnamed_path(files: Seq<SourceFile>, i: int) -> Option<Seq<char>>
    decreases files.len() - i,
{
    if i < 0 || i >= files.len() {
        None
    } else if files[i].file_name is None {
        Some(files[i].path@)
    } else {
        first_unnamed_path(files, i + 1)
    }
}

/// The path of the first file of a scan that cannot be copied for want of
/// a file name: the referenced Zig files come before the C files.
pub open spec fn unnamed_path(scan: ScanResult) -> Option<Seq<char>> {
    match scan {
        ScanResult::Modular { external_files, c_source_files, .. } => match first_unnamed_path(
            external_files@,
            0,
        ) {
            Some(p) => Some(p),
            None => first_unnamed_path(c_source_files@, 0),
        },
        ScanResult::Merged(_) => None,
    }
}

/// A modular build was handed a merged scan.
pub open spec fn mismatch(mode: CompilationMode, scan: ScanResult) -> bool {
    mode != CompilationMode::Merged && scan is Merged
}

impl AutoZigEngine {
    /// The plan that the engine makes of a scan and a context.
    pub open spec fn plan_of(&self, scan: ScanResult, ctx: BuildContextView) -> BuildPlanView {
        planned(self.src_dir@, self.out_dir@, self.mode, scan, ctx)
    }

    /// There is something to copy for a `build.zig` build, and one of the
    /// files to copy has no file name.
    pub open spec fn copy_unnamed(&self, scan: ScanResult) -> bool {
        unnamed_copy(self.mode, scan)
    }

    /// A modular build was handed a merged scan.
    pub open spec fn scan_mismatch(&self, scan: ScanResult) -> bool {
        mismatch(self.mode, scan)
    }

    /// The merged build of the given Zig code.
    pub fn build_merged(&self, zig_code: &str, context: &BuildContext) -> (plan: BuildPlan)
        ensures
            plan@ == merged_plan(self.src_dir@, self.out_dir@, zig_code@, context@),
    {
        let mut notices: Vec<String> = Vec::new();
        notices.push(rerun_line(self.src_dir.as_str()));
        notices.push("cargo:warning=Using MERGED compilation mode (legacy)".to_owned());
        let ghost base = seq![
            rerun_notice(self.src_dir@),
            "cargo:warning=Using MERGED compilation mode (legacy)"@,
        ];
        assert(string_views(notices@) =~= base);
        if zig_code.unicode_len() == 0 {
            return nothing_to_build(notices);
        }
        let mut blocks: Vec<String> = Vec::new();
        blocks.push(zig_code.to_owned());
        assert(string_views(blocks@) =~= seq![zig_code@]);
        let (modified, wrappers) = self.generate_abi_lowering_with_modified_code(
            blocks.as_slice(),
        );
        let mut code = if modified.as_str().unicode_len() == 0 {
            zig_code.to_owned()
        } else {
            modified
        };
        if wrappers.as_str().unicode_len() > 0 {
            code.append("\n\n");
            code.append("// ABI Lowering: Pointer-based wrappers for struct returns\n");
            code.append("// These wrappers ensure cross-platform ABI compatibility\n");
            code.append(wrappers.as_str());
        }
        assert(code@ =~= complete_code(zig_code@));
        let digest = fingerprint(code.as_str());
        if unchanged(context, digest.as_str()) {
            self.skip(notices)
        } else {
            let lib = in_out_dir(self.out_dir.as_str(), "libautozig.a");
            let link = self.link_library();
            let source = in_out_dir(self.out_dir.as_str(), "generated_autozig.zig");
            let mut steps: Vec<BuildStep> = Vec::new();
            steps.push(BuildStep::WriteFile { path: source.clone(), content: code });
            steps.push(
                BuildStep::CompileLibrary {
                    source,
                    output: lib.clone(),
                    target: zig_target(context),
                    src_dir: self.src_dir.clone(),
                },
            );
            steps.push(self.record(digest));
            let plan = BuildPlan { notices, steps, link, output: BuildOutput { lib_path: Some(lib) } };
            assert(plan@.steps =~= merged_plan(
                self.src_dir@,
                self.out_dir@,
                zig_code@,
                context@,
            ).steps);
            plan
        }
    }

    /// The plan of a build that finds its code unchanged.
    fn skip(&self, mut notices: Vec<String>) -> (plan: BuildPlan)
        ensures
            plan@ == (BuildPlanView {
                notices: string_views(notices@).push(unchanged_notice()),
                steps: Seq::empty(),
                link: Self::link_lines(self.out_dir@),
                lib_path: Some(out_path(self.out_dir@, "libautozig.a"@)),
            }),
    {
        let ghost before = string_views(notices@);
        notices.push("cargo:warning=Zig code unchanged, skipping compilation".to_owned());
        let plan = BuildPlan {
            notices,
            steps: Vec::new(),
            link: self.link_library(),
            output: BuildOutput {
                lib_path: Some(in_out_dir(self.out_dir.as_str(), "libautozig.a")),
            },
        };
        assert(plan@.notices =~= before.push(unchanged_notice()));
        assert(plan@.steps =~= Seq::empty());
        plan
    }

    /// The step that records the fingerprint.
    fn record(&self, digest: String) -> (step: BuildStep)
        ensures
            step@ == record_step(self.out_dir@, digest@),
    {
        BuildStep::WriteFile {
            path: in_out_dir(self.out_dir.as_str(), ".zig_code_hash"),
            content: digest,
        }
    }

    /// The modular build with a main module that imports the external
    /// files. `foreign_text` is the aggregated Zig code of the scan.
    pub fn build_modular_import(
        &self,
        embedded_code: &[String],
        external_files: &[SourceFile],
        foreign_text: &str,
        context: &BuildContext,
    ) -> (plan: BuildPlan)
        ensures
            plan@ == modular_import_plan(
                self.src_dir@,
                self.out_dir@,
                string_views(embedded_code@),
                external_files@,
                foreign_text@,
                context@,
            ),
    {
        let mut notices: Vec<String> = Vec::new();
        notices.push(rerun_line(self.src_dir.as_str()));
        notices.push("cargo:warning=Using MODULAR_IMPORT compilation mode".to_owned());
        assert(string_views(notices@) =~= seq![
            rerun_notice(self.src_dir@),
            "cargo:warning=Using MODULAR_IMPORT compilation mode"@,
        ]);
        if embedded_code.len() == 0 && external_files.len() == 0 {
            return nothing_to_build(notices);
        }
        let digest = fingerprint(foreign_text);
        if unchanged(context, digest.as_str()) {
            return self.skip(notices);
        }
        let mut steps: Vec<BuildStep> = Vec::new();
        let copied = plan_copies(&mut steps, external_files, self.out_dir.as_str());
        let main_zig = self.generate_main_module_with_files(embedded_code, copied.as_slice());
        let main_file = in_out_dir(self.out_dir.as_str(), "generated_main.zig");
        let lib = in_out_dir(self.out_dir.as_str(), "libautozig.a");
        steps.push(BuildStep::WriteFile { path: main_file.clone(), content: main_zig });
        steps.push(
            BuildStep::CompileLibrary {
                source: main_file,
                output: lib.clone(),
                target: zig_target(context),
                src_dir: self.src_dir.clone(),
            },
        );
        steps.push(self.record(digest));
        let link = self.link_library();
        let plan = BuildPlan { notices, steps, link, output: BuildOutput { lib_path: Some(lib) } };
        assert(plan@.steps =~= modular_import_plan(
            self.src_dir@,
            self.out_dir@,
            string_views(embedded_code@),
            external_files@,
            foreign_text@,
            context@,
        ).steps);
        plan
    }

    /// The modular build driven by a generated `build.zig`. Every file to
    /// copy has a file name. `foreign_text` is the aggregated Zig code of
    /// the scan.
    pub fn build_modular_buildzig(
        &self,
        embedded_code: &[String],
        external_files: &[SourceFile],
        c_source_files: &[SourceFile],
        foreign_text: &str,
        context: &BuildContext,
    ) -> (plan: BuildPlan)
        ensures
            plan@ == modular_buildzig_plan(
                self.src_dir@,
                self.out_dir@,
                string_views(embedded_code@),
                external_files@,
                c_source_files@,
                foreign_text@,
                context@,
            ),
    {
        let mut notices: Vec<String> = Vec::new();
        notices.push(rerun_line(self.src_dir.as_str()));
        notices.push(
            "cargo:warning=Using MODULAR_BUILDZIG compilation mode (recommended)".to_owned(),
        );
        assert(string_views(notices@) =~= seq![
            rerun_notice(self.src_dir@),
            "cargo:warning=Using MODULAR_BUILDZIG compilation mode (recommended)"@,
        ]);
        if embedded_code.len() == 0 && external_files.len() == 0 {
            return nothing_to_build(notices);
        }
        let digest = fingerprint(foreign_text);
        if unchanged(context, digest.as_str()) {
            return self.skip(notices);
        }
        let mut steps: Vec<BuildStep> = Vec::new();
        let copied = plan_copies(&mut steps, external_files, self.out_dir.as_str());
        let copied_c = plan_copies(&mut steps, c_source_files, self.out_dir.as_str());
        let main_zig = self.generate_main_module_with_files(embedded_code, copied.as_slice());
        let main_file = in_out_dir(self.out_dir.as_str(), "generated_main.zig");
        let target = match &context.rust_target {
            Some(t) => t.clone(),
            None => "native".to_owned(),
        };
        let build_zig = self.generate_build_zig_with_c(
            embedded_code,
            copied.as_slice(),
            copied_c.as_slice(),
            target.as_str(),
        );
        let build_file = in_out_dir(self.out_dir.as_str(), "build.zig");
        let lib = in_out_dir(self.out_dir.as_str(), "libautozig.a");
        steps.push(BuildStep::WriteFile { path: main_file, content: main_zig });
        steps.push(BuildStep::WriteFile { path: build_file.clone(), content: build_zig });
        steps.push(
            BuildStep::RunBuildZig {
                build_file,
                build_dir: self.out_dir.clone(),
                output: lib.clone(),
            },
        );
        steps.push(self.record(digest));
        let link = self.link_library();
        let plan = BuildPlan { notices, steps, link, output: BuildOutput { lib_path: Some(lib) } };
        assert(plan@.steps =~= modular_buildzig_plan(
            self.src_dir@,
            self.out_dir@,
            string_views(embedded_code@),
            external_files@,
            c_source_files@,
            foreign_text@,
            context@,
        ).steps);
        plan
    }

    /// Plans the build of a scan in the engine's mode. A modular engine
    /// takes a modular scan only; a `build.zig` build needs a file name for
    /// every file it copies.
    pub fn build(&self, scan: &ScanResult, context: &BuildContext) -> (r: Result<
        BuildPlan,
        BuildError,
    >)
        ensures
            match r {
                Ok(plan) => !self.scan_mismatch(*scan) && !self.copy_unnamed(*scan) && plan@
                    == self.plan_of(*scan, context@),
                Err(BuildError::ExpectedModularScan) => self.scan_mismatch(*scan),
                Err(BuildError::MissingFileName { path }) => self.copy_unnamed(*scan) && unnamed_path(
                    *scan,
                ) == Some(path@),
            },
    {
        match self.mode {
            CompilationMode::Merged => {
                let code = match scan {
                    ScanResult::Merged(code) => code.clone(),
                    ScanResult::Modular { embedded_code, .. } => {
                        proof {
                            reveal_strlit("\n");
                            assert("\n"@ =~= seq!['\n']);
                        }
                        join_strings(embedded_code, "\n")
                    },
                };
                Ok(self.build_merged(code.as_str(), context))
            },
            CompilationMode::ModularImport => match scan {
                ScanResult::Modular { embedded_code, external_files, foreign_text, .. } => Ok(
                    self.build_modular_import(
                        embedded_code.as_slice(),
                        external_files.as_slice(),
                        foreign_text.as_str(),
                        context,
                    ),
                ),
                ScanResult::Merged(_) => Err(BuildError::ExpectedModularScan),
            },
            CompilationMode::ModularBuildZig => match scan {
                ScanResult::Modular {
                    embedded_code,
                    external_files,
                    c_source_files,
                    foreign_text,
                    ..
                } => {
                    if !(embedded_code.len() == 0 && external_files.len() == 0) {
                        if let Some(i) = first_unnamed(external_files.as_slice()) {
                            return Err(
                                BuildError::MissingFileName {
                                    path: external_files[i].path.clone(),
                                },
                            );
                        }
                        if let Some(i) = first_unnamed(c_source_files.as_slice()) {
                            return Err(
                                BuildError::MissingFileName {
                                    path: c_source_files[i].path.clone(),
                                },
                            );
                        }
                    }
                    Ok(
                        self.build_modular_buildzig(
                            embedded_code.as_slice(),
                            external_files.as_slice(),
                            c_source_files.as_slice(),
                            foreign_text.as_str(),
                            context,
                        ),
                    )
                },
                ScanResult::Merged(_) => Err(BuildError::ExpectedModularScan),
            },
        }
    }
}

/// A build of code that an earlier build compiled compiles nothing, and
/// emits the link instructions of that build, in every mode. The earlier
/// build is any build by the same engine of the same aggregated code; it
/// left its artifact and recorded the fingerprint of that code. Both scans
/// are such as the engine takes.
pub proof fn law_unchanged_code_skips_compilation(
    engine: AutoZigEngine,
    first: ScanResult,
    second: ScanResult,
    before: BuildContextView,
    after: BuildContextView,
)
    requires
        !engine.scan_mismatch(first),
        !engine.scan_mismatch(second),
        first.well_formed(),
        second.well_formed(),
        aggregated(engine.mode, first) == aggregated(engine.mode, second),
        after.artifact_exists,
        after.stored_fingerprint == Some(
            build_fingerprint(engine.mode, aggregated(engine.mode, first)),
        ),
    ensures
        engine.plan_of(second, after).steps.len() == 0,
        engine.plan_of(second, after).link == engine.plan_of(first, before).link,
        engine.plan_of(second, after).lib_path == engine.plan_of(first, before).lib_path,
{
}

/// A build that compiles ends by recording the fingerprint of the
/// aggregated code, so that the next build of the same code finds it.
pub proof fn law_compiling_build_records_fingerprint(
    engine: AutoZigEngine,
    scan: ScanResult,
    context: BuildContextView,
)
    requires
        !engine.scan_mismatch(scan),
        engine.plan_of(scan, context).steps.len() > 0,
    ensures
        engine.plan_of(scan, context).steps.last() == record_step(
            engine.out_dir@,
            build_fingerprint(engine.mode, aggregated(engine.mode, scan)),
        ),
{
}

} // verus!
