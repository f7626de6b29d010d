use std::path::PathBuf;

use autozig::builder::{build, build_with_mode, Builder};
use autozig::edit::decimal_string;
use autozig::ffi_types::{element_count, validate_buffer, BufferError};
use autozig::plan::{BuildContext, BuildError};
use autozig::scanner::{CompilationMode, ScanResult};
use autozig::simd::{detect_and_report, CpuArch, SimdConfig};
use autozig::zig_compiler::ZigCompiler;

#[test]
fn test_compiler_creation() {
    let compiler = ZigCompiler::new();
    assert!(!compiler.zig_path.is_empty());
}

#[test]
fn test_builder_creation() {
    let builder = Builder::new("src");
    assert_eq!(PathBuf::from(&builder.src_dir), PathBuf::from("src"));
}

#[test]
fn test_detect_arch() {
    assert_eq!(SimdConfig::detect_arch("x86_64-unknown-linux-gnu"), CpuArch::X86_64);
    assert_eq!(SimdConfig::detect_arch("aarch64-apple-darwin"), CpuArch::Aarch64);
    assert_eq!(SimdConfig::detect_arch("armv7-unknown-linux"), CpuArch::Arm);
}

#[test]
fn test_x86_feature_detection() {
    let (flag, desc) = SimdConfig::detect_x86_features("x86_64-pc-windows-msvc", "avx2,fma");
    assert!(flag.contains("x86_64"));
    assert!(desc.contains("AVX2") || desc.contains("v3"));

    let (flag, desc) = SimdConfig::detect_x86_features("x86_64-pc-windows-msvc", "sse4.2");
    assert!(flag.contains("sse4.2") || flag.contains("x86_64"));
    assert!(desc.contains("SSE") || desc.contains("baseline"));
}

#[test]
fn test_arm_feature_detection() {
    let (flag, desc) = SimdConfig::detect_arm_features("neon");
    assert!(flag.contains("neon") || flag.contains("generic"));
    assert!(desc.contains("NEON") || desc.contains("ARM"));
}

#[test]
fn test_config_detection() {
    // Just ensure it doesn't panic
    let config = SimdConfig::detect("unknown", "", "");
    assert!(!config.zig_cpu_flag.is_empty());
    assert!(!config.description.is_empty());
}

#[test]
fn test_report_generation() {
    let config = SimdConfig::detect("unknown", "", "");
    let report = config.report();
    assert!(report.contains("AutoZig SIMD"));
    assert!(report.contains("Architecture"));
}

#[test]
fn simd_feature_table() {
    let x86 = "x86_64-unknown-linux-gnu";
    assert_eq!(
        SimdConfig::detect_x86_features(x86, "sse2,avx512f,avx2"),
        ("-mcpu=x86_64_v4".to_string(), "x86_64 v4 (AVX-512)".to_string())
    );
    assert_eq!(
        SimdConfig::detect_x86_features(x86, "avx2,fma"),
        ("-mcpu=x86_64_v3".to_string(), "x86_64 v3 (AVX2, FMA)".to_string())
    );
    assert_eq!(
        SimdConfig::detect_x86_features(x86, "avx"),
        ("-mcpu=x86_64+avx".to_string(), "x86_64 with AVX".to_string())
    );
    assert_eq!(
        SimdConfig::detect_x86_features(x86, "sse4_2"),
        ("-mcpu=x86_64+sse4.2".to_string(), "x86_64 with SSE4.2".to_string())
    );
    assert_eq!(
        SimdConfig::detect_x86_features(x86, ""),
        ("-mcpu=x86_64".to_string(), "x86_64 baseline (SSE2)".to_string())
    );
    assert_eq!(
        SimdConfig::detect_x86_features("i686-pc-windows-msvc", ""),
        ("-mcpu=baseline".to_string(), "baseline".to_string())
    );
    assert_eq!(
        SimdConfig::detect_arm_features("sve,neon"),
        ("-mcpu=generic+sve".to_string(), "ARM with SVE".to_string())
    );
    assert_eq!(
        SimdConfig::detect_arm_features("neon"),
        ("-mcpu=generic+neon".to_string(), "ARM with NEON".to_string())
    );
    assert_eq!(
        SimdConfig::detect_arm_features(""),
        ("-mcpu=generic".to_string(), "ARM generic".to_string())
    );
    assert_eq!(
        SimdConfig::detect_features("riscv64gc-unknown-linux-gnu", "avx2", CpuArch::Other),
        ("-mcpu=baseline".to_string(), "baseline (unknown architecture)".to_string())
    );
    assert_eq!(
        SimdConfig::detect_features("aarch64-apple-darwin", "neon", CpuArch::Aarch64).0,
        "-mcpu=generic+neon"
    );
    assert_eq!(SimdConfig::detect_arch("riscv64gc-unknown-linux-gnu"), CpuArch::Other);
}

#[test]
fn simd_native_and_report() {
    let config = SimdConfig::detect("x86_64-unknown-linux-gnu", "-C target-cpu=native", "avx2");
    assert!(config.use_native);
    assert_eq!(config.as_zig_flag(), "-mcpu=native");
    assert_eq!(config.description, "X86_64 with native CPU features");
    assert_eq!(
        config.report(),
        "\n╔════════════════════════════════════════════╗\n║     AutoZig SIMD Optimization Report      ║\n╚════════════════════════════════════════════╝\n\nArchitecture:    X86_64\nConfiguration:   X86_64 with native CPU features\nZig CPU Flag:    -mcpu=native\nNative Features: ENABLED\n\nTIP: Set RUSTFLAGS=\"-C target-cpu=native\" for maximum performance\n"
    );
    let (config, lines) = detect_and_report("aarch64-apple-darwin", "", "neon");
    assert!(!config.use_native);
    assert_eq!(lines.len(), 4);
    assert!(lines[0].starts_with("cargo:warning=\n"));
    assert!(lines[0].contains("Native Features: disabled\n"));
    assert_eq!(lines[1], "cargo:rustc-env=AUTOZIG_SIMD_ARCH=Aarch64");
    assert_eq!(lines[2], "cargo:rustc-env=AUTOZIG_SIMD_CONFIG=ARM with NEON");
    assert_eq!(lines[3], "cargo:rustc-env=AUTOZIG_ZIG_CPU_FLAG=-mcpu=generic+neon");
}

#[test]
fn compiler_commands() {
    let zig = ZigCompiler::from_setting(Some("/opt/zig/zig"));
    assert_eq!(zig.zig_path, "/opt/zig/zig");
    assert_eq!(ZigCompiler::from_setting(None).zig_path, "zig");
    assert_eq!(ZigCompiler::default().zig_path, "zig");

    let c = zig.compile_with_target("a.zig", "liba.a", "x86_64-linux-gnu", &["x.c".to_string()]);
    assert_eq!(c.program, "/opt/zig/zig");
    assert_eq!(
        c.args,
        vec![
            "build-lib", "a.zig", "-static", "-femit-bin=liba.a", "-target", "x86_64-linux-gnu",
            "-fPIC", "-lc", "-O", "ReleaseFast", "x.c"
        ]
    );
    assert!(c.current_dir.is_none());
    let c = zig.compile_with_target_and_src("a.zig", "a.wasm", "wasm32-freestanding", &[]);
    assert_eq!(
        c.args,
        vec![
            "build-lib", "a.zig", "-static", "-femit-bin=a.wasm", "-target",
            "wasm32-freestanding", "-fno-stack-protector", "-mcpu=mvp+simd128", "-O",
            "ReleaseFast"
        ]
    );
    let c = zig.compile("a.zig", "liba.a", &[]);
    assert_eq!(c.args[5], "native");
    let c = zig.compile_tests("t.zig", "test_t", "native");
    assert_eq!(
        c.args,
        vec!["test", "t.zig", "-femit-bin=test_t", "-target", "native", "-O", "ReleaseFast"]
    );
    let c = zig.compile_with_buildzig("out/build.zig", "out");
    assert_eq!(c.args, vec!["build", "--build-file", "out/build.zig", "--prefix", "out"]);
    assert_eq!(c.current_dir.as_deref(), Some("out"));
    assert_eq!(zig.check_version().args, vec!["version"]);
    assert_eq!(ZigCompiler::version_of(" 0.15.2\n"), "0.15.2");
}

#[test]
fn compiler_outcomes() {
    assert_eq!(
        ZigCompiler::built_library_candidates("out"),
        vec!["out/zig-out/lib/libautozig.a", "out/lib/libautozig.a", "out/libautozig.a"]
    );
    assert_eq!(ZigCompiler::locate_built_library(&[false, true, true]), Some(1));
    assert_eq!(ZigCompiler::locate_built_library(&[false, false, false]), None);
    assert_eq!(ZigCompiler::locate_built_library(&[]), None);
    assert_eq!(
        ZigCompiler::run_test_executable(true, "ok", ""),
        Ok("Stdout: ok\nStderr: ".to_string())
    );
    assert_eq!(
        ZigCompiler::run_test_executable(false, "", "boom"),
        Err("Zig tests failed:\nStdout: \nStderr: boom".to_string())
    );
}

fn context() -> BuildContext {
    BuildContext { rust_target: None, stored_fingerprint: None, artifact_exists: false }
}

#[test]
fn builder_plans() {
    let builder = Builder::new("src");
    assert_eq!(builder.mode, CompilationMode::Merged);
    let builder = builder.mode(CompilationMode::ModularImport);
    assert_eq!(builder.mode, CompilationMode::ModularImport);
    assert_eq!(builder.src_dir, "src");
    assert_eq!(builder.engine(None).out_dir, "target/debug/build");
    assert_eq!(builder.engine(Some("out")).out_dir, "out");
    let merged = ScanResult::Merged("const a = 1;".to_string());
    assert!(matches!(
        builder.build(None, &merged, &context()),
        Err(BuildError::ExpectedModularScan)
    ));
    let plan = build("src", Some("out"), &merged, &context()).unwrap();
    assert_eq!(plan.output.lib_path.as_deref(), Some("out/libautozig.a"));
    assert!(build_with_mode("src", CompilationMode::ModularBuildZig, None, &merged, &context())
        .is_err());
    let plan =
        build_with_mode("src", CompilationMode::Merged, None, &merged, &context()).unwrap();
    assert_eq!(plan.output.lib_path.as_deref(), Some("target/debug/build/libautozig.a"));
}

#[test]
fn decimal_numerals() {
    assert_eq!(decimal_string(0), "0");
    assert_eq!(decimal_string(7), "7");
    assert_eq!(decimal_string(10), "10");
    assert_eq!(decimal_string(1234567890), "1234567890");
    assert_eq!(decimal_string(usize::MAX), usize::MAX.to_string());
}

#[test]
fn buffer_rules() {
    assert_eq!(validate_buffer(false, 3, 3), Ok(()));
    assert_eq!(validate_buffer(false, 3, 8), Ok(()));
    assert_eq!(validate_buffer(true, 0, 0), Ok(()));
    assert_eq!(validate_buffer(true, 0, 4), Ok(()));
    assert_eq!(validate_buffer(true, 1, 1), Err(BufferError::NullPointerWithLength));
    assert_eq!(validate_buffer(false, 0, 0), Err(BufferError::NullPointerWithLength));
    assert_eq!(validate_buffer(true, 2, 1), Err(BufferError::NullPointerWithLength));
    assert_eq!(validate_buffer(false, 4, 3), Err(BufferError::CapacityBelowLength));
    assert_eq!(BufferError::NullPointerWithLength.message(), "Null pointer with non-zero length");
    assert_eq!(BufferError::CapacityBelowLength.message(), "Capacity less than length");
    assert_eq!(element_count(12, 4), 3);
    assert_eq!(element_count(13, 4), 3);
    assert_eq!(element_count(0, 8), 0);
}

#[test]
fn panic_report_text_is_exact() {
    assert_eq!(
        autozig::console::panic_report("panicked at 'index out of bounds'"),
        "RUST PANIC: panicked at 'index out of bounds'"
    );
    assert_eq!(autozig::console::panic_report(""), "RUST PANIC: ");
}
