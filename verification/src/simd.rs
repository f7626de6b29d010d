//! Choosing the CPU flag for the Zig compiler from the target of the
//! build and the features that cargo enables.

use vstd::prelude::*;
use crate::text::{contains, occurs, to_chars};
use crate::edit::string_views;

verus! {

/// The CPU architecture of the target.
#[derive(Debug, Clone, Copy, PartialEq, Eq, Structural)]
pub enum CpuArch {
    X86_64,
    Aarch64,
    Arm,
    Other,
}

/// The SIMD feature sets of x86_64.
#[derive(Debug, Clone, Copy, PartialEq, Eq, Structural)]
pub enum X86SimdLevel {
    /// Baseline x86_64 (SSE2).
    Baseline,
    SSE4_2,
    AVX,
    AVX2,
    AVX512,
}

/// The SIMD feature sets of ARM.
#[derive(Debug, Clone, Copy, PartialEq, Eq, Structural)]
pub enum ArmSimdLevel {
    /// No SIMD.
    Scalar,
    NEON,
    /// Scalable Vector Extension.
    SVE,
}

/// The SIMD configuration for the Zig compiler.
#[derive(Debug, Clone)]
pub struct SimdConfig {
    pub arch: CpuArch,
    /// The CPU flag for the Zig compiler.
    pub zig_cpu_flag: String,
    /// A description for the reader of the build log.
    pub description: String,
    /// Whether the features of the building machine are used.
    pub use_native: bool,
}

/// The architecture of a target triple.
pub open spec fn arch_of(target: Seq<char>) -> CpuArch {
    if occurs(target, "x86_64"@) {
        CpuArch::X86_64
    } else if occurs(target, "aarch64"@) {
        CpuArch::Aarch64
    } else if occurs(target, "arm"@) {
        CpuArch::Arm
    } else {
        CpuArch::Other
    }
}

/// The name of an architecture.
pub open spec fn arch_name(arch: CpuArch) -> Seq<char> {
    match arch {
        CpuArch::X86_64 => "X86_64"@,
        CpuArch::Aarch64 => "Aarch64"@,
        CpuArch::Arm => "Arm"@,
        CpuArch::Other => "Other"@,
    }
}

/// The highest x86_64 level among the enabled features.
pub open spec fn x86_level(features: Seq<char>) -> X86SimdLevel {
    if occurs(features, "avx512"@) {
        X86SimdLevel::AVX512
    } else if occurs(features, "avx2"@) {
        X86SimdLevel::AVX2
    } else if occurs(features, "avx"@) {
        X86SimdLevel::AVX
    } else if occurs(features, "sse4.2"@) || occurs(features, "sse4_2"@) {
        X86SimdLevel::SSE4_2
    } else {
        X86SimdLevel::Baseline
    }
}

/// The CPU flag and the description for an x86_64 build.
pub open spec fn x86_features(target: Seq<char>, features: Seq<char>) -> (Seq<char>, Seq<char>) {
    match x86_level(features) {
        X86SimdLevel::AVX512 => ("-mcpu=x86_64_v4"@, "x86_64 v4 (AVX-512)"@),
        X86SimdLevel::AVX2 => ("-mcpu=x86_64_v3"@, "x86_64 v3 (AVX2, FMA)"@),
        X86SimdLevel::AVX => ("-mcpu=x86_64+avx"@, "x86_64 with AVX"@),
        X86SimdLevel::SSE4_2 => ("-mcpu=x86_64+sse4.2"@, "x86_64 with SSE4.2"@),
        X86SimdLevel::Baseline => if occurs(target, "x86_64"@) {
            ("-mcpu=x86_64"@, "x86_64 baseline (SSE2)"@)
        } else {
            ("-mcpu=baseline"@, "baseline"@)
        },
    }
}

/// The highest ARM level among the enabled features.
pub open spec fn arm_level(features: Seq<char>) -> ArmSimdLevel {
    if occurs(features, "sve"@) {
        ArmSimdLevel::SVE
    } else if occurs(features, "neon"@) {
        ArmSimdLevel::NEON
    } else {
        ArmSimdLevel::Scalar
    }
}

/// The CPU flag and the description for an ARM build.
pub open spec fn arm_features(features: Seq<char>) -> (Seq<char>, Seq<char>) {
    match arm_level(features) {
        ArmSimdLevel::SVE => ("-mcpu=generic+sve"@, "ARM with SVE"@),
        ArmSimdLevel::NEON => ("-mcpu=generic+neon"@, "ARM with NEON"@),
        ArmSimdLevel::Scalar => ("-mcpu=generic"@, "ARM generic"@),
    }
}

/// The CPU flag and the description for a build on the architecture.
pub open spec fn features_of(target: Seq<char>, features: Seq<char>, arch: CpuArch) -> (
    Seq<char>,
    Seq<char>,
) {
    match arch {
        CpuArch::X86_64 => x86_features(target, features),
        CpuArch::Aarch64 | CpuArch::Arm => arm_features(features),
        CpuArch::Other => ("-mcpu=baseline"@, "baseline (unknown architecture)"@),
    }
}

/// The compiler flags ask for the CPU of the building machine.
pub open spec fn native_requested(rust_flags: Seq<char>) -> bool {
    occurs(rust_flags, "target-cpu=native"@) || occurs(rust_flags, "-C native"@) || occurs(
        rust_flags,
        "--target-cpu=native"@,
    )
}

/// The report on a configuration.
pub open spec fn report_of(
    arch: CpuArch,
    description: Seq<char>,
    zig_cpu_flag: Seq<char>,
    use_native: bool,
) -> Seq<char> {
    "\n╔════════════════════════════════════════════╗\n"@
        + "║     AutoZig SIMD Optimization Report      ║\n"@
        + "╚════════════════════════════════════════════╝\n\n"@ + "Architecture:    "@
        + arch_name(arch) + "\nConfiguration:   "@ + description + "\nZig CPU Flag:    "@
        + zig_cpu_flag + "\nNative Features: "@ + (if use_native {
        "ENABLED"@
    } else {
        "disabled"@
    }) + "\n\nTIP: Set RUSTFLAGS=\"-C target-cpu=native\" for maximum performance\n"@
}

fn has(text: &[char], word: &str) -> (b: bool)
    ensures
        b == occurs(text@, word@),
{
    contains(text, to_chars(word).as_slice())
}

fn name_of(arch: CpuArch) -> (name: &'static str)
    ensures
        name@ == arch_name(arch),
{
    match arch {
        CpuArch::X86_64 => "X86_64",
        CpuArch::Aarch64 => "Aarch64",
        CpuArch::Arm => "Arm",
        CpuArch::Other => "Other",
    }
}

impl SimdConfig {
    /// The configuration for a build: `target` is the target triple,
    /// `unknown` where none is set; `rust_flags` are the flags handed to
    /// the Rust compiler, `target_features` the features that cargo
    /// enables.
    pub fn detect(target: &str, rust_flags: &str, target_features: &str) -> (config: SimdConfig)
        ensures
            config.arch == arch_of(target@),
            config.use_native == native_requested(rust_flags@),
            config.use_native ==> config.zig_cpu_flag@ == "-mcpu=native"@ && config.description@
                == arch_name(config.arch) + " with native CPU features"@,
            !config.use_native ==> (config.zig_cpu_flag@, config.description@) == features_of(
                target@,
                target_features@,
                config.arch,
            ),
    {
        let flags = to_chars(rust_flags);
        let use_native = has(flags.as_slice(), "target-cpu=native") || has(
            flags.as_slice(),
            "-C native",
        ) || has(flags.as_slice(), "--target-cpu=native");
        let arch = SimdConfig::detect_arch(target);
        if use_native {
            let mut description = name_of(arch).to_owned();
            description.append(" with native CPU features");
            SimdConfig { arch, zig_cpu_flag: "-mcpu=native".to_owned(), description, use_native }
        } else {
            let (zig_cpu_flag, description) = SimdConfig::detect_features(
                target,
                target_features,
                arch,
            );
            SimdConfig { arch, zig_cpu_flag, description, use_native }
        }
    }

    /// The architecture of a target triple.
    pub fn detect_arch(target: &str) -> (arch: CpuArch)
        ensures
            arch == arch_of(target@),
    {
        let t = to_chars(target);
        if has(t.as_slice(), "x86_64") {
            CpuArch::X86_64
        } else if has(t.as_slice(), "aarch64") {
            CpuArch::Aarch64
        } else if has(t.as_slice(), "arm") {
            CpuArch::Arm
        } else {
            CpuArch::Other
        }
    }

    /// The CPU flag and the description for the enabled features.
    pub fn detect_features(target: &str, features: &str, arch: CpuArch) -> (r: (String, String))
        ensures
            (r.0@, r.1@) == features_of(target@, features@, arch),
    {
        match arch {
            CpuArch::X86_64 => SimdConfig::detect_x86_features(target, features),
            CpuArch::Aarch64 | CpuArch::Arm => SimdConfig::detect_arm_features(features),
            CpuArch::Other => (
                "-mcpu=baseline".to_owned(),
                "baseline (unknown architecture)".to_owned(),
            ),
        }
    }

    /// The CPU flag and the description for x86_64: the highest level
    /// that the features name.
    pub fn detect_x86_features(target: &str, features: &str) -> (r: (String, String))
        ensures
            (r.0@, r.1@) == x86_features(target@, features@),
    {
        let f = to_chars(features);
        let f = f.as_slice();
        if has(f, "avx512") {
            return ("-mcpu=x86_64_v4".to_owned(), "x86_64 v4 (AVX-512)".to_owned());
        }
        if has(f, "avx2") {
            return ("-mcpu=x86_64_v3".to_owned(), "x86_64 v3 (AVX2, FMA)".to_owned());
        }
        if has(f, "avx") {
            return ("-mcpu=x86_64+avx".to_owned(), "x86_64 with AVX".to_owned());
        }
        if has(f, "sse4.2") || has(f, "sse4_2") {
            return ("-mcpu=x86_64+sse4.2".to_owned(), "x86_64 with SSE4.2".to_owned());
        }
        let t = to_chars(target);
        if has(t.as_slice(), "x86_64") {
            ("-mcpu=x86_64".to_owned(), "x86_64 baseline (SSE2)".to_owned())
        } else {
            ("-mcpu=baseline".to_owned(), "baseline".to_owned())
        }
    }

    /// The CPU flag and the description for ARM.
    pub fn detect_arm_features(features: &str) -> (r: (String, String))
        ensures
            (r.0@, r.1@) == arm_features(features@),
    {
        let f = to_chars(features);
        let f = f.as_slice();
        if has(f, "sve") {
            return ("-mcpu=generic+sve".to_owned(), "ARM with SVE".to_owned());
        }
        if has(f, "neon") {
            return ("-mcpu=generic+neon".to_owned(), "ARM with NEON".to_owned());
        }
        ("-mcpu=generic".to_owned(), "ARM generic".to_owned())
    }

    /// A report for the build log.
    pub fn report(&self) -> (out: String)
        ensures
            out@ == report_of(self.arch, self.description@, self.zig_cpu_flag@, self.use_native),
    {
        let mut out = String::new();
        out.append("\n╔════════════════════════════════════════════╗\n");
        out.append("║     AutoZig SIMD Optimization Report      ║\n");
        out.append("╚════════════════════════════════════════════╝\n\n");
        out.append("Architecture:    ");
        out.append(name_of(self.arch));
        out.append("\nConfiguration:   ");
        out.append(self.description.as_str());
        out.append("\nZig CPU Flag:    ");
        out.append(self.zig_cpu_flag.as_str());
        out.append("\nNative Features: ");
        if self.use_native {
            out.append("ENABLED");
        } else {
            out.append("disabled");
        }
        out.append("\n\nTIP: Set RUSTFLAGS=\"-C target-cpu=native\" for maximum performance\n");
        assert(out@ =~= report_of(
            self.arch,
            self.description@,
            self.zig_cpu_flag@,
            self.use_native,
        ));
        out
    }

    /// The CPU flag for the Zig compiler.
    pub fn as_zig_flag(&self) -> (flag: &str)
        ensures
            flag@ == self.zig_cpu_flag@,
    {
        self.zig_cpu_flag.as_str()
    }
}

/// The lines that publish a configuration to cargo: the report as a
/// warning, then the architecture, the description and the CPU flag as
/// environment variables of the compilation.
pub open spec fn published(
    arch: CpuArch,
    description: Seq<char>,
    zig_cpu_flag: Seq<char>,
    use_native: bool,
) -> Seq<Seq<char>> {
    seq![
        "cargo:warning="@ + report_of(arch, description, zig_cpu_flag, use_native),
        "cargo:rustc-env=AUTOZIG_SIMD_ARCH="@ + arch_name(arch),
        "cargo:rustc-env=AUTOZIG_SIMD_CONFIG="@ + description,
        "cargo:rustc-env=AUTOZIG_ZIG_CPU_FLAG="@ + zig_cpu_flag,
    ]
}

/// Detects the configuration of a build and returns it with the lines
/// that publish it to cargo.
pub fn detect_and_report(target: &str, rust_flags: &str, target_features: &str) -> (r: (
    SimdConfig,
    Vec<String>,
))
    ensures
        r.0.arch == arch_of(target@),
        r.0.use_native == native_requested(rust_flags@),
        string_views(r.1@) == published(
            r.0.arch,
            r.0.description@,
            r.0.zig_cpu_flag@,
            r.0.use_native,
        ),
{
    let config = SimdConfig::detect(target, rust_flags, target_features);
    let mut lines: Vec<String> = Vec::new();
    let mut line = "cargo:warning=".to_owned();
    line.append(config.report().as_str());
    lines.push(line);
    let mut line = "cargo:rustc-env=AUTOZIG_SIMD_ARCH=".to_owned();
    line.append(name_of(config.arch));
    lines.push(line);
    let mut line = "cargo:rustc-env=AUTOZIG_SIMD_CONFIG=".to_owned();
    line.append(config.description.as_str());
    lines.push(line);
    let mut line = "cargo:rustc-env=AUTOZIG_ZIG_CPU_FLAG=".to_owned();
    line.append(config.zig_cpu_flag.as_str());
    lines.push(line);
    assert(string_views(lines@) =~= published(
        config.arch,
        config.description@,
        config.zig_cpu_flag@,
        config.use_native,
    ));
    (config, lines)
}

} // verus!
