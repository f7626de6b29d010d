//! Helpers for build scripts.

use vstd::prelude::*;
use crate::engine::AutoZigEngine;
use crate::plan::{
    mismatch, planned, unnamed_copy, unnamed_path, BuildContext, BuildError, BuildPlan,
};
use crate::scanner::{CompilationMode, ScanResult};

verus! {

/// Builder for the Zig code of a crate.
#[derive(Debug)]
pub struct Builder {
    pub src_dir: String,
    pub mode: CompilationMode,
}

/// The out directory of a build: the one that cargo names, or the default
/// one.
pub open spec fn out_dir_of(out_dir: Option<Seq<char>>) -> Seq<char> {
    match out_dir {
        Some(d) => d,
        None => "target/debug/build"@,
    }
}

impl Builder {
    /// A builder for the source directory, in the mode without a setting.
    pub fn new(src_dir: &str) -> (builder: Builder)
        ensures
            builder.src_dir@ == src_dir@,
            builder.mode == CompilationMode::Merged,
    {
        Builder { src_dir: src_dir.to_owned(), mode: CompilationMode::Merged }
    }

    /// The builder in the given mode.
    pub fn mode(self, mode: CompilationMode) -> (builder: Builder)
        ensures
            builder.src_dir == self.src_dir,
            builder.mode == mode,
    {
        Builder { src_dir: self.src_dir, mode }
    }

    /// The engine of the build. `out_dir` is the directory that cargo
    /// names for the outputs of the build script.
    pub fn engine(&self, out_dir: Option<&str>) -> (engine: AutoZigEngine)
        ensures
            engine.src_dir@ == self.src_dir@,
            engine.mode == self.mode,
            engine.out_dir@ == out_dir_of(
                match out_dir {
                    Some(d) => Some(d@),
                    None => None,
                },
            ),
    {
        match out_dir {
            Some(d) => AutoZigEngine::with_mode(self.src_dir.as_str(), d, self.mode),
            None => AutoZigEngine::with_mode(
                self.src_dir.as_str(),
                "target/debug/build",
                self.mode,
            ),
        }
    }

    /// Plans the build of a scan, as the engine of this builder does.
    pub fn build(&self, out_dir: Option<&str>, scan: &ScanResult, context: &BuildContext) -> (r:
        Result<BuildPlan, BuildError>)
        ensures
            match r {
                Ok(plan) => !mismatch(self.mode, *scan) && !unnamed_copy(self.mode, *scan) && plan@
                    == planned(
                    self.src_dir@,
                    out_dir_of(
                        match out_dir {
                            Some(d) => Some(d@),
                            None => None,
                        },
                    ),
                    self.mode,
                    *scan,
                    context@,
                ),
                Err(BuildError::ExpectedModularScan) => mismatch(self.mode, *scan),
                Err(BuildError::MissingFileName { path }) => unnamed_copy(self.mode, *scan)
                    && unnamed_path(*scan) == Some(path@),
            },
    {
        let engine = self.engine(out_dir);
        engine.build(scan, context)
    }
}

/// Plans a build in the mode without a setting, which merges all code.
pub fn build(src_dir: &str, out_dir: Option<&str>, scan: &ScanResult, context: &BuildContext) -> (r:
    Result<BuildPlan, BuildError>)
    ensures
        match r {
            Ok(plan) => plan@ == planned(
                src_dir@,
                out_dir_of(
                    match out_dir {
                        Some(d) => Some(d@),
                        None => None,
                    },
                ),
                CompilationMode::Merged,
                *scan,
                context@,
            ),
            Err(_) => false,
        },
{
    Builder::new(src_dir).build(out_dir, scan, context)
}

/// Plans a build in the given mode.
pub fn build_with_mode(
    src_dir: &str,
    mode: CompilationMode,
    out_dir: Option<&str>,
    scan: &ScanResult,
    context: &BuildContext,
) -> (r: Result<BuildPlan, BuildError>)
    ensures
        match r {
            Ok(plan) => !mismatch(mode, *scan) && !unnamed_copy(mode, *scan) && plan@ == planned(
                src_dir@,
                out_dir_of(
                    match out_dir {
                        Some(d) => Some(d@),
                        None => None,
                    },
                ),
                mode,
                *scan,
                context@,
            ),
            Err(BuildError::ExpectedModularScan) => mismatch(mode, *scan),
            Err(BuildError::MissingFileName { path }) => unnamed_copy(mode, *scan) && unnamed_path(
                *scan,
            ) == Some(path@),
        },
{
    Builder::new(src_dir).mode(mode).build(out_dir, scan, context)
}

} // verus!
