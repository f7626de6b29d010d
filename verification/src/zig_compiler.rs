//! The command lines of the Zig compiler.
//!
//! Running the compiler is the caller's part; which program is run, with
//! which arguments, is decided here.

use vstd::prelude::*;
use crate::text::{contains, from_chars, occurs, to_chars, trim, trimmed};
use crate::edit::string_views;
use crate::scanner::name_view;

verus! {

/// A command to run.
#[derive(Debug)]
pub struct ZigCommand {
    pub program: String,
    pub args: Vec<String>,
    /// The directory to run the command in, where it matters.
    pub current_dir: Option<String>,
}

pub struct ZigCommandView {
    pub program: Seq<char>,
    pub args: Seq<Seq<char>>,
    pub current_dir: Option<Seq<char>>,
}

impl View for ZigCommand {
    type V = ZigCommandView;

    open spec fn view(&self) -> ZigCommandView {
        ZigCommandView {
            program: self.program@,
            args: string_views(self.args@),
            current_dir: name_view(self.current_dir),
        }
    }
}

/// The Zig compiler, by the path of its executable.
#[derive(Debug)]
pub struct ZigCompiler {
    pub zig_path: String,
}

/// The flags for a target: a WebAssembly build goes without stack
/// protector and with SIMD; any other build is position independent and
/// links libc. Both are optimized for speed.
pub open spec fn target_flags(target: Seq<char>) -> Seq<Seq<char>> {
    if occurs(target, "wasm32"@) {
        seq!["-fno-stack-protector"@, "-mcpu=mvp+simd128"@, "-O"@, "ReleaseFast"@]
    } else {
        seq!["-fPIC"@, "-lc"@, "-O"@, "ReleaseFast"@]
    }
}

/// The arguments that compile `source` to the static library
/// `output_lib` for `target`, with the C sources compiled in.
pub open spec fn build_lib_args(
    source: Seq<char>,
    output_lib: Seq<char>,
    target: Seq<char>,
    c_sources: Seq<Seq<char>>,
) -> Seq<Seq<char>> {
    seq!["build-lib"@, source, "-static"@, "-femit-bin="@ + output_lib, "-target"@, target]
        + target_flags(target) + c_sources
}

/// The arguments that compile the tests of `source` to `output_exe`.
pub open spec fn test_args(source: Seq<char>, output_exe: Seq<char>, target: Seq<char>) -> Seq<
    Seq<char>,
> {
    seq!["test"@, source, "-femit-bin="@ + output_exe, "-target"@, target, "-O"@, "ReleaseFast"@]
}

/// The arguments that run a build file and install into `build_dir`.
pub open spec fn build_zig_args(build_file: Seq<char>, build_dir: Seq<char>) -> Seq<Seq<char>> {
    seq!["build"@, "--build-file"@, build_file, "--prefix"@, build_dir]
}

/// Where a build file may leave the library, most likely place first.
pub open spec fn library_candidates(build_dir: Seq<char>) -> Seq<Seq<char>> {
    seq![
        build_dir + "/zig-out/lib/libautozig.a"@,
        build_dir + "/lib/libautozig.a"@,
        build_dir + "/libautozig.a"@,
    ]
}

/// The first position from `i` on that holds `true`.
pub open spec fn first_true(exists: Seq<bool>, i: int) -> Option<int>
    decreases exists.len() - i,
{
    if i < 0 || i >= exists.len() {
        None
    } else if exists[i] {
        Some(i)
    } else {
        first_true(exists, i + 1)
    }
}

/// The report on a run of the tests.
pub open spec fn test_output(stdout: Seq<char>, stderr: Seq<char>) -> Seq<char> {
    "Stdout: "@ + stdout + "\nStderr: "@ + stderr
}

fn push_owned(args: &mut Vec<String>, s: &str)
    ensures
        string_views(final(args)@) == string_views(old(args)@).push(s@),
{
    args.push(s.to_owned());
    assert(string_views(args@) =~= string_views(old(args)@).push(s@));
}

impl ZigCompiler {
    /// The compiler found on the search path.
    pub fn new() -> (compiler: ZigCompiler)
        ensures
            compiler.zig_path@ == "zig"@,
    {
        ZigCompiler { zig_path: "zig".to_owned() }
    }

    /// The compiler at the path that the `ZIG_PATH` setting holds, or the
    /// one on the search path without a setting.
    pub fn from_setting(zig_path: Option<&str>) -> (compiler: ZigCompiler)
        ensures
            compiler.zig_path@ == match zig_path {
                Some(p) => p@,
                None => "zig"@,
            },
    {
        match zig_path {
            Some(p) => ZigCompiler { zig_path: p.to_owned() },
            None => ZigCompiler::new(),
        }
    }

    fn command(&self, args: Vec<String>, current_dir: Option<String>) -> (c: ZigCommand)
        ensures
            c@ == (ZigCommandView {
                program: self.zig_path@,
                args: string_views(args@),
                current_dir: name_view(current_dir),
            }),
    {
        ZigCommand { program: self.zig_path.clone(), args, current_dir }
    }

    /// The command that prints the version of the compiler.
    pub fn check_version(&self) -> (c: ZigCommand)
        ensures
            c@ == (ZigCommandView {
                program: self.zig_path@,
                args: seq!["version"@],
                current_dir: None,
            }),
    {
        let mut args: Vec<String> = Vec::new();
        push_owned(&mut args, "version");
        assert(string_views(args@) =~= seq!["version"@]);
        self.command(args, None)
    }

    /// The version that the compiler printed.
    pub fn version_of(stdout: &str) -> (version: String)
        ensures
            version@ == trimmed(stdout@),
    {
        let t = to_chars(stdout);
        from_chars(trim(t.as_slice()))
    }

    /// The command that compiles `source` to the static library
    /// `output_lib` for `target`. `c_sources` are the C files to compile
    /// with it.
    pub fn compile_with_target(
        &self,
        source: &str,
        output_lib: &str,
        target: &str,
        c_sources: &[String],
    ) -> (c: ZigCommand)
        ensures
            c@ == (ZigCommandView {
                program: self.zig_path@,
                args: build_lib_args(source@, output_lib@, target@, string_views(c_sources@)),
                current_dir: None,
            }),
    {
        let mut args: Vec<String> = Vec::new();
        push_owned(&mut args, "build-lib");
        push_owned(&mut args, source);
        push_owned(&mut args, "-static");
        let mut emit = "-femit-bin=".to_owned();
        emit.append(output_lib);
        push_owned(&mut args, emit.as_str());
        push_owned(&mut args, "-target");
        push_owned(&mut args, target);
        let t = to_chars(target);
        if contains(t.as_slice(), to_chars("wasm32").as_slice()) {
            push_owned(&mut args, "-fno-stack-protector");
            push_owned(&mut args, "-mcpu=mvp+simd128");
            push_owned(&mut args, "-O");
            push_owned(&mut args, "ReleaseFast");
        } else {
            push_owned(&mut args, "-fPIC");
            push_owned(&mut args, "-lc");
            push_owned(&mut args, "-O");
            push_owned(&mut args, "ReleaseFast");
        }
        let ghost head = string_views(args@);
        assert(head =~= seq![
            "build-lib"@,
            source@,
            "-static"@,
            "-femit-bin="@ + output_lib@,
            "-target"@,
            target@,
        ] + target_flags(target@));
        let mut i: usize = 0;
        while i < c_sources.len()
            invariant
                i <= c_sources@.len(),
                string_views(args@) == head + string_views(c_sources@).take(i as int),
            decreases c_sources.len() - i,
        {
            push_owned(&mut args, c_sources[i].as_str());
            assert(string_views(c_sources@).take(i + 1) =~= string_views(c_sources@).take(
                i as int,
            ).push(c_sources@[i as int]@));
            i += 1;
        }
        assert(string_views(c_sources@).take(c_sources@.len() as int) =~= string_views(
            c_sources@,
        ));
        self.command(args, None)
    }

    /// As `compile_with_target`, for C sources that the caller found in
    /// the source directory.
    pub fn compile_with_target_and_src(
        &self,
        source: &str,
        output_lib: &str,
        target: &str,
        c_sources: &[String],
    ) -> (c: ZigCommand)
        ensures
            c@ == (ZigCommandView {
                program: self.zig_path@,
                args: build_lib_args(source@, output_lib@, target@, string_views(c_sources@)),
                current_dir: None,
            }),
    {
        self.compile_with_target(source, output_lib, target, c_sources)
    }

    /// The command that compiles for the building machine.
    pub fn compile(&self, source: &str, output_lib: &str, c_sources: &[String]) -> (c: ZigCommand)
        ensures
            c@ == (ZigCommandView {
                program: self.zig_path@,
                args: build_lib_args(source@, output_lib@, "native"@, string_views(c_sources@)),
                current_dir: None,
            }),
    {
        self.compile_with_target(source, output_lib, "native", c_sources)
    }

    /// The command that compiles the tests of `source` to an executable.
    pub fn compile_tests(&self, source: &str, output_exe: &str, target: &str) -> (c: ZigCommand)
        ensures
            c@ == (ZigCommandView {
                program: self.zig_path@,
                args: test_args(source@, output_exe@, target@),
                current_dir: None,
            }),
    {
        let mut args: Vec<String> = Vec::new();
        push_owned(&mut args, "test");
        push_owned(&mut args, source);
        let mut emit = "-femit-bin=".to_owned();
        emit.append(output_exe);
        push_owned(&mut args, emit.as_str());
        push_owned(&mut args, "-target");
        push_owned(&mut args, target);
        push_owned(&mut args, "-O");
        push_owned(&mut args, "ReleaseFast");
        assert(string_views(args@) =~= test_args(source@, output_exe@, target@));
        self.command(args, None)
    }

    /// What a run of a test executable comes to: its output, or, where it
    /// failed, the message of the failure.
    pub fn run_test_executable(success: bool, stdout: &str, stderr: &str) -> (r: Result<
        String,
        String,
    >)
        ensures
            match r {
                Ok(report) => success && report@ == test_output(stdout@, stderr@),
                Err(message) => !success && message@ == "Zig tests failed:\n"@ + test_output(
                    stdout@,
                    stderr@,
                ),
            },
    {
        let mut report = String::new();
        if !success {
            report.append("Zig tests failed:\n");
        }
        report.append("Stdout: ");
        report.append(stdout);
        report.append("\nStderr: ");
        report.append(stderr);
        if success {
            assert(report@ =~= test_output(stdout@, stderr@));
            Ok(report)
        } else {
            assert(report@ =~= "Zig tests failed:\n"@ + test_output(stdout@, stderr@));
            Err(report)
        }
    }

    /// The command that runs a build file in `build_dir`.
    pub fn compile_with_buildzig(&self, build_file: &str, build_dir: &str) -> (c: ZigCommand)
        ensures
            c@ == (ZigCommandView {
                program: self.zig_path@,
                args: build_zig_args(build_file@, build_dir@),
                current_dir: Some(build_dir@),
            }),
    {
        let mut args: Vec<String> = Vec::new();
        push_owned(&mut args, "build");
        push_owned(&mut args, "--build-file");
        push_owned(&mut args, build_file);
        push_owned(&mut args, "--prefix");
        push_owned(&mut args, build_dir);
        assert(string_views(args@) =~= build_zig_args(build_file@, build_dir@));
        self.command(args, Some(build_dir.to_owned()))
    }

    /// The places where the run of a build file may have left the library.
    pub fn built_library_candidates(build_dir: &str) -> (paths: Vec<String>)
        ensures
            string_views(paths@) == library_candidates(build_dir@),
    {
        let mut paths: Vec<String> = Vec::new();
        let mut a = build_dir.to_owned();
        a.append("/zig-out/lib/libautozig.a");
        let mut b = build_dir.to_owned();
        b.append("/lib/libautozig.a");
        let mut c = build_dir.to_owned();
        c.append("/libautozig.a");
        paths.push(a);
        paths.push(b);
        paths.push(c);
        assert(string_views(paths@) =~= library_candidates(build_dir@));
        paths
    }

    /// The first of the candidates that exists.
    pub fn locate_built_library(exists: &[bool]) -> (r: Option<usize>)
        ensures
            match r {
                Some(i) => first_true(exists@, 0) == Some(i as int) && i < exists@.len(),
                None => first_true(exists@, 0) is None,
            },
    {
        let mut i: usize = 0;
        while i < exists.len()
            invariant
                i <= exists@.len(),
                first_true(exists@, 0) == first_true(exists@, i as int),
            decreases exists.len() - i,
        {
            if exists[i] {
                return Some(i);
            }
            i += 1;
        }
        None
    }
}

impl Default for ZigCompiler {
    fn default() -> (compiler: ZigCompiler)
        ensures
            compiler.zig_path@ == "zig"@,
    {
        ZigCompiler::new()
    }
}

} // verus!
