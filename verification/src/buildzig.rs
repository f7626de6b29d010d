//! The `build.zig` file of a modular build.

use vstd::prelude::*;
use crate::text::{contains, from_chars, occurs, push_str, to_chars};
use crate::engine::{file_names, rust_to_zig_target, zig_target_of, AutoZigEngine};
use crate::scanner::SourceFile;

verus! {

/// The operating system and ABI lines for an x86_64 target.
pub open spec fn x86_64_os_lines(t: Seq<char>) -> Seq<char> {
    if occurs(t, "linux"@) {
        "        .os_tag = .linux,\n"@ + (if occurs(t, "musl"@) {
            "        .abi = .musl,\n"@
        } else {
            "        .abi = .gnu,\n"@
        })
    } else if occurs(t, "macos"@) {
        "        .os_tag = .macos,\n"@
    } else if occurs(t, "windows"@) {
        "        .os_tag = .windows,\n"@ + (if occurs(t, "gnu"@) {
            "        .abi = .gnu,\n"@
        } else {
            "        .abi = .msvc,\n"@
        })
    } else {
        Seq::empty()
    }
}

/// The operating system and ABI lines for an aarch64 target.
pub open spec fn aarch64_os_lines(t: Seq<char>) -> Seq<char> {
    if occurs(t, "linux"@) {
        "        .os_tag = .linux,\n"@ + "        .abi = .gnu,\n"@
    } else if occurs(t, "macos"@) {
        "        .os_tag = .macos,\n"@
    } else {
        Seq::empty()
    }
}

/// The lines of the target query that follow from the Zig target.
pub open spec fn target_lines(t: Seq<char>) -> Seq<char> {
    if occurs(t, "wasm32"@) {
        "        .cpu_arch = .wasm32,\n"@ + "        .os_tag = .freestanding,\n"@
    } else if occurs(t, "x86_64"@) {
        "        .cpu_arch = .x86_64,\n"@ + x86_64_os_lines(t)
    } else if occurs(t, "aarch64"@) {
        "        .cpu_arch = .aarch64,\n"@ + aarch64_os_lines(t)
    } else {
        Seq::empty()
    }
}

/// One `addCSourceFile` line for each of the first `n` files that has a
/// file name.
pub open spec fn c_source_lines(files: Seq<Option<Seq<char>>>, n: int) -> Seq<char>
    decreases n,
{
    if n <= 0 {
        Seq::empty()
    } else {
        let rest = c_source_lines(files, n - 1);
        match files[n - 1] {
            Some(name) => rest + "    lib.addCSourceFile(.{ .file = b.path(\""@ + name
                + "\"), .flags = &.{\"-fno-sanitize=undefined\"} });\n"@,
            None => rest,
        }
    }
}

/// The lines that add the C source files, under their heading; nothing
/// without a file.
pub open spec fn c_sources_block(files: Seq<Option<Seq<char>>>) -> Seq<char> {
    if files.len() == 0 {
        Seq::empty()
    } else {
        "\n    // Add C source files\n"@ + c_source_lines(files, files.len() as int)
    }
}

/// What follows the library declaration: position independent code and
/// libc everywhere but on wasm32, which goes without stack protector and
/// red zone instead.
pub open spec fn platform_lines(t: Seq<char>) -> Seq<char> {
    if occurs(t, "wasm32"@) {
        "    // WASM-specific configuration\n"@ + "    lib.root_module.stack_protector = false;\n"@
            + "    lib.root_module.red_zone = false;\n"@
    } else {
        "    // Enable PIC for Rust FFI compatibility\n"@ + "    lib.root_module.pic = true;\n\n"@
            + "    // Link with libc\n"@ + "    lib.linkLibC();\n"@
    }
}

/// The opening of the build function, up to the target query.
pub open spec fn build_zig_head() -> Seq<char> {
    "const std = @import(\"std\");\n\n"@ + "pub fn build(b: *std.Build) void {\n"@
        + "    // Force baseline CPU model to match Rust's expectations\n"@
        + "    const target = b.resolveTargetQuery(.{\n"@
        + "        .cpu_model = .baseline,  // Critical: use baseline, not native\n"@
}

/// The end of the target query, the module and the static library.
pub open spec fn build_zig_library() -> Seq<char> {
    "    });\n"@ + "    const optimize = b.standardOptimizeOption(.{});\n\n"@
        + "    const mod = b.addModule(\"autozig\", .{\n"@
        + "        .root_source_file = b.path(\"generated_main.zig\"),\n"@
        + "        .target = target,\n"@ + "        .optimize = optimize,\n"@ + "    });\n\n"@
        + "    const lib = b.addLibrary(.{\n"@ + "        .name = \"autozig\",\n"@
        + "        .root_module = mod,\n"@ + "        .linkage = .static,\n"@ + "    });\n\n"@
}

/// The `build.zig` for the Zig target `t` and the given C source files.
pub open spec fn build_zig(t: Seq<char>, c_files: Seq<Option<Seq<char>>>) -> Seq<char> {
    build_zig_head() + target_lines(t) + build_zig_library() + platform_lines(t)
        + c_sources_block(c_files) + "\n    b.installArtifact(lib);\n"@ + "}\n"@
}

fn has(t: &[char], word: &str) -> (b: bool)
    ensures
        b == occurs(t@, word@),
{
    contains(t, to_chars(word).as_slice())
}

fn push_target_lines(build: &mut Vec<char>, t: &[char])
    ensures
        final(build)@ == old(build)@ + target_lines(t@),
{
    if has(t, "wasm32") {
        push_str(build, "        .cpu_arch = .wasm32,\n");
        push_str(build, "        .os_tag = .freestanding,\n");
    } else if has(t, "x86_64") {
        push_str(build, "        .cpu_arch = .x86_64,\n");
        if has(t, "linux") {
            push_str(build, "        .os_tag = .linux,\n");
            if has(t, "musl") {
                push_str(build, "        .abi = .musl,\n");
            } else {
                push_str(build, "        .abi = .gnu,\n");
            }
        } else if has(t, "macos") {
            push_str(build, "        .os_tag = .macos,\n");
        } else if has(t, "windows") {
            push_str(build, "        .os_tag = .windows,\n");
            if has(t, "gnu") {
                push_str(build, "        .abi = .gnu,\n");
            } else {
                push_str(build, "        .abi = .msvc,\n");
            }
        }
    } else if has(t, "aarch64") {
        push_str(build, "        .cpu_arch = .aarch64,\n");
        if has(t, "linux") {
            push_str(build, "        .os_tag = .linux,\n");
            push_str(build, "        .abi = .gnu,\n");
        } else if has(t, "macos") {
            push_str(build, "        .os_tag = .macos,\n");
        }
    }
    assert(build@ =~= old(build)@ + target_lines(t@));
}

fn push_platform_lines(build: &mut Vec<char>, t: &[char])
    ensures
        final(build)@ == old(build)@ + platform_lines(t@),
{
    if has(t, "wasm32") {
        push_str(build, "    // WASM-specific configuration\n");
        push_str(build, "    lib.root_module.stack_protector = false;\n");
        push_str(build, "    lib.root_module.red_zone = false;\n");
    } else {
        push_str(build, "    // Enable PIC for Rust FFI compatibility\n");
        push_str(build, "    lib.root_module.pic = true;\n\n");
        push_str(build, "    // Link with libc\n");
        push_str(build, "    lib.linkLibC();\n");
    }
    assert(build@ =~= old(build)@ + platform_lines(t@));
}

fn push_c_sources(build: &mut Vec<char>, c_source_files: &[SourceFile])
    ensures
        final(build)@ == old(build)@ + c_sources_block(file_names(c_source_files@)),
{
    let ghost names = file_names(c_source_files@);
    if c_source_files.len() > 0 {
        push_str(build, "\n    // Add C source files\n");
        let ghost titled = build@;
        let mut i: usize = 0;
        assert(build@ =~= titled + c_source_lines(names, 0));
        while i < c_source_files.len()
            invariant
                i <= c_source_files@.len(),
                names == file_names(c_source_files@),
                build@ == titled + c_source_lines(names, i as int),
            decreases c_source_files.len() - i,
        {
            if let Some(name) = &c_source_files[i].file_name {
                push_str(build, "    lib.addCSourceFile(.{ .file = b.path(\"");
                push_str(build, name.as_str());
                push_str(build, "\"), .flags = &.{\"-fno-sanitize=undefined\"} });\n");
                assert(names[i as int] == Some(name@));
                assert(build@ =~= titled + (c_source_lines(names, i as int)
                    + "    lib.addCSourceFile(.{ .file = b.path(\""@ + name@
                    + "\"), .flags = &.{\"-fno-sanitize=undefined\"} });\n"@));
            }
            i += 1;
        }
        assert(build@ =~= old(build)@ + c_sources_block(names));
    } else {
        assert(build@ =~= old(build)@ + c_sources_block(names));
    }
}

impl AutoZigEngine {
    /// The `build.zig` of a modular build for the Rust target
    /// `rust_target`, with the given C source files compiled in.
    pub fn generate_build_zig_with_c(
        &self,
        _embedded_code: &[String],
        _all_zig_files: &[SourceFile],
        c_source_files: &[SourceFile],
        rust_target: &str,
    ) -> (build: String)
        ensures
            build@ == build_zig(zig_target_of(rust_target@), file_names(c_source_files@)),
    {
        let zig_target = to_chars(rust_to_zig_target(rust_target));
        let t = zig_target.as_slice();
        let mut build: Vec<char> = Vec::new();
        push_str(&mut build, "const std = @import(\"std\");\n\n");
        push_str(&mut build, "pub fn build(b: *std.Build) void {\n");
        push_str(&mut build, "    // Force baseline CPU model to match Rust's expectations\n");
        push_str(&mut build, "    const target = b.resolveTargetQuery(.{\n");
        push_str(
            &mut build,
            "        .cpu_model = .baseline,  // Critical: use baseline, not native\n",
        );
        assert(build@ =~= build_zig_head());
        push_target_lines(&mut build, t);
        let ghost targeted = build@;
        push_str(&mut build, "    });\n");
        push_str(&mut build, "    const optimize = b.standardOptimizeOption(.{});\n\n");
        push_str(&mut build, "    const mod = b.addModule(\"autozig\", .{\n");
        push_str(&mut build, "        .root_source_file = b.path(\"generated_main.zig\"),\n");
        push_str(&mut build, "        .target = target,\n");
        push_str(&mut build, "        .optimize = optimize,\n");
        push_str(&mut build, "    });\n\n");
        push_str(&mut build, "    const lib = b.addLibrary(.{\n");
        push_str(&mut build, "        .name = \"autozig\",\n");
        push_str(&mut build, "        .root_module = mod,\n");
        push_str(&mut build, "        .linkage = .static,\n");
        push_str(&mut build, "    });\n\n");
        assert(build@ =~= targeted + build_zig_library());
        push_platform_lines(&mut build, t);
        push_c_sources(&mut build, c_source_files);
        push_str(&mut build, "\n    b.installArtifact(lib);\n");
        push_str(&mut build, "}\n");
        assert(build@ =~= build_zig(t@, file_names(c_source_files@)));
        from_chars(build.as_slice())
    }

    /// The `build.zig` of a modular build without C source files.
    pub fn generate_build_zig(
        &self,
        embedded_code: &[String],
        all_zig_files: &[SourceFile],
        rust_target: &str,
    ) -> (build: String)
        ensures
            build@ == build_zig(zig_target_of(rust_target@), Seq::empty()),
    {
        let none: Vec<SourceFile> = Vec::new();
        assert(file_names(none@) =~= Seq::<Option<Seq<char>>>::empty());
        self.generate_build_zig_with_c(embedded_code, all_zig_files, none.as_slice(), rust_target)
    }
}

} // verus!
