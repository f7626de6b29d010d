use std::path::PathBuf;

use autozig::engine::{rust_to_zig_target, AutoZigEngine};
use autozig::exports::{
    classify_return, extract_export_functions, must_use_wrapper, needs_abi_wrapper,
    parse_export_function, ExportFunction, Lowering,
};
use autozig::plan::{fingerprint, BuildContext, BuildError, BuildStep};
use autozig::scanner::{aggregate_code, CompilationMode, ExternalSource, ScanResult, SourceFile};
use autozig::symbols::{symbol_table, symbols_for, Convention};
use autozig::wrapper::{
    convert_params_to_ptrs, extract_param_names, generate_array_pointer_wrapper,
    generate_ptr_wrapper, remove_export_from_functions, rename_functions_to_impl,
};

#[test]
fn test_engine_creation() {
    let engine = AutoZigEngine::new("src", "target");
    assert_eq!(PathBuf::from(&engine.src_dir), PathBuf::from("src"));
    assert_eq!(PathBuf::from(&engine.out_dir), PathBuf::from("target"));
}

#[test]
fn test_target_mapping() {
    assert_eq!(rust_to_zig_target("x86_64-unknown-linux-gnu"), "x86_64-linux-gnu");
    assert_eq!(rust_to_zig_target("aarch64-apple-darwin"), "aarch64-macos");
    assert_eq!(rust_to_zig_target("x86_64-pc-windows-msvc"), "x86_64-windows");
    assert_eq!(rust_to_zig_target("wasm32-wasi"), "wasm32-wasi");
    assert_eq!(rust_to_zig_target("unknown-target"), "native");
}

#[test]
fn it_works() {
    assert_eq!(2 + 2, 4);
}

#[test]
fn engine_default_mode_is_merged() {
    let engine = AutoZigEngine::new("src", "out");
    assert_eq!(engine.mode, CompilationMode::Merged);
    let engine = AutoZigEngine::with_mode("src", "out", CompilationMode::ModularBuildZig);
    assert_eq!(engine.mode, CompilationMode::ModularBuildZig);
}

#[test]
fn mode_from_setting() {
    assert_eq!(CompilationMode::from_setting(Some("merged")), CompilationMode::Merged);
    assert_eq!(
        CompilationMode::from_setting(Some("modular_import")),
        CompilationMode::ModularImport
    );
    assert_eq!(
        CompilationMode::from_setting(Some("modular_buildzig")),
        CompilationMode::ModularBuildZig
    );
    assert_eq!(CompilationMode::from_setting(Some("bogus")), CompilationMode::Merged);
    assert_eq!(CompilationMode::from_setting(None), CompilationMode::Merged);
    assert_eq!(CompilationMode::default(), CompilationMode::Merged);
}

#[test]
fn scalar_types_need_no_wrapper() {
    for ty in [
        "void", "i8", "i16", "i32", "i64", "i128", "u8", "u16", "u32", "u64", "u128", "usize",
        "isize", "f32", "f64", "bool", "c_int", "c_uint", "c_void",
    ] {
        assert!(!needs_abi_wrapper(ty), "{}", ty);
        assert!(!must_use_wrapper(ty), "{}", ty);
        assert_eq!(classify_return(ty), Lowering::Direct);
    }
    assert!(!needs_abi_wrapper("  i32  "));
}

#[test]
fn aggregates_need_a_wrapper() {
    assert!(needs_abi_wrapper("Vec3"));
    assert!(!must_use_wrapper("Vec3"));
    assert_eq!(classify_return("Vec3"), Lowering::DualExport);
    assert!(needs_abi_wrapper("[5]i32"));
    assert!(must_use_wrapper("[5]i32"));
    assert!(must_use_wrapper(" [3]f32 "));
    assert_eq!(classify_return("[5]i32"), Lowering::Redirect);
    // An opening bracket without a closing one is no array.
    assert!(!must_use_wrapper("[5"));
    assert!(needs_abi_wrapper("[5"));
}

#[test]
fn only_fixed_size_arrays_are_redirected() {
    for ty in ["[5]i32", "[N]u8", "[_]f32", " [3]f32 ", "[2][3]u8", "[4]Vec3", "[8:0]u8"] {
        assert!(must_use_wrapper(ty), "{}", ty);
        assert!(needs_abi_wrapper(ty), "{}", ty);
        assert_eq!(classify_return(ty), Lowering::Redirect, "{}", ty);
    }
    // A many-item pointer and a slice are no arrays: the function keeps
    // its export.
    assert!(must_use_wrapper("[ 5 ] i32"));
    for ty in [
        "[*]u8", "[*]const u8", "[]const u8", "[]u8", "[*c]u8", "[*:0]u8", "[:0]u8", "[5]", "[]",
        "]3[u8", "*[3]u8", "?[3]u8", "[ * ]u8", "[ ]u8", "[ :0 ]u8",
    ] {
        assert!(!must_use_wrapper(ty), "{}", ty);
        assert_ne!(classify_return(ty), Lowering::Redirect, "{}", ty);
    }
    let engine = AutoZigEngine::new("src", "out");
    let code = "export fn get() [*]u8 { return p; }";
    let (modified, wrappers) = engine.generate_abi_lowering_with_modified_code(&[code.to_string()]);
    assert_eq!(modified, code);
    assert!(!wrappers.contains("export fn get("));
}

#[test]
fn parse_export_function_reads_the_parts() {
    let f = parse_export_function("export fn add(a: i32, b: i32) i32 { return a + b; }", &[], 0).unwrap();
    assert_eq!(f.name, "add");
    assert_eq!(f.params, "a: i32, b: i32");
    assert_eq!(f.return_type, "i32");

    let f = parse_export_function("  export fn  get ( cb: fn(i32) void ) Vec3 {", &[], 0).unwrap();
    assert_eq!(f.name, "get");
    assert_eq!(f.params, "cb: fn(i32) void");
    assert_eq!(f.return_type, "Vec3");

    assert!(parse_export_function("fn add(a: i32) i32 {", &[], 0).is_none());
    assert!(parse_export_function("export fn add", &[], 0).is_none());
    assert!(parse_export_function("export fn add(a: i32) i32", &[], 0).is_none());
    assert!(parse_export_function("export fn add(", &[], 0).is_none());
}

#[test]
fn parse_export_function_without_balance() {
    // Without a balancing parenthesis there is no declaration.
    assert!(parse_export_function("export fn broken(a: i32 {", &[], 0).is_none());
    assert!(parse_export_function("export fn broken((a: i32) i32 {", &[], 0).is_none());
    assert!(extract_export_functions("export fn broken(a: i32 { return a; }").is_empty());
    // A nested pair is part of the list.
    let f = parse_export_function("export fn cb(f: fn (i32) i32, x: i32) i32 {", &[], 0).unwrap();
    assert_eq!(f.name, "cb");
    assert_eq!(f.params, "f: fn (i32) i32, x: i32");
    assert_eq!(f.return_type, "i32");
}

#[test]
fn extract_export_functions_finds_all() {
    let code = "const std = @import(\"std\"); export fn a() i32 { return 1; } fn hidden() void {} export fn b(x: Vec3) Vec3 { return x; }";
    let fns = extract_export_functions(code);
    assert_eq!(fns.len(), 2);
    assert_eq!(fns[0].name, "a");
    assert_eq!(fns[0].return_type, "i32");
    assert_eq!(fns[1].name, "b");
    assert_eq!(fns[1].params, "x: Vec3");
    assert_eq!(fns[1].return_type, "Vec3");
    assert!(extract_export_functions("fn a() void {}").is_empty());
    assert!(extract_export_functions("").is_empty());
}

#[test]
fn convert_params_lowers_aggregates_only() {
    let (params, args) = convert_params_to_ptrs("a: i32, v: Vec3");
    assert_eq!(params, "a : i32 , v : *const Vec3");
    assert_eq!(args, "a, v.*");
    assert_eq!(convert_params_to_ptrs(""), (String::new(), String::new()));
    assert_eq!(convert_params_to_ptrs("   "), (String::new(), String::new()));
    let (params, args) = convert_params_to_ptrs("x: f32, , nameless, y: f32");
    assert_eq!(params, "x : f32 , y : f32");
    assert_eq!(args, "x, y");
}

#[test]
fn extract_param_names_keeps_every_piece() {
    assert_eq!(extract_param_names("a: i32, b: Vec3"), "a, b");
    assert_eq!(extract_param_names(""), "");
    assert_eq!(extract_param_names("  "), "");
    assert_eq!(extract_param_names("a: i32, "), "a, ");
    assert_eq!(extract_param_names("lonely"), "lonely");
}

fn vec3_function() -> ExportFunction {
    ExportFunction {
        name: "create_vec3".to_string(),
        params: "x: f32, y: f32, z: f32".to_string(),
        return_type: "Vec3".to_string(),
    }
}

fn range_function() -> ExportFunction {
    ExportFunction {
        name: "create_range".to_string(),
        params: String::new(),
        return_type: "[5]i32".to_string(),
    }
}

#[test]
fn pointer_wrapper_text_is_exact() {
    let text = generate_ptr_wrapper(&vec3_function());
    assert_eq!(
        text,
        "export fn create_vec3__ptr_variant(x : f32 , y : f32 , z : f32) *const Vec3 {\n    // ABI-safe wrapper: returns pointer instead of struct by value\n    const static = struct {\n        var result: Vec3 = undefined;\n    };\n    static.result = create_vec3(x, y, z);\n    return &static.result;\n}"
    );
}

#[test]
fn array_wrapper_text_is_exact() {
    let text = generate_array_pointer_wrapper(&range_function());
    assert_eq!(
        text,
        "export fn create_range() *const [5]i32 {\n    // Macro expects pointer return for array types\n    const static = struct {\n        var result: [5]i32 = undefined;\n    };\n    static.result = create_range_impl();\n    return &static.result;\n}"
    );
}

#[test]
fn struct_return_is_exported_twice() {
    let code = "export fn create_vec3(x: f32, y: f32, z: f32) Vec3 { return Vec3{ .x = x, .y = y, .z = z }; }";
    let fns = extract_export_functions(code);
    assert_eq!(fns.len(), 1);
    let table = symbols_for(&fns[0]);
    assert_eq!(table.len(), 2);
    assert_eq!(table[0].name, "create_vec3");
    assert!(table[0].exported);
    assert_eq!(table[0].convention, Convention::ByValue);
    assert_eq!(table[1].name, "create_vec3__ptr_variant");
    assert!(table[1].exported);
    assert_eq!(table[1].convention, Convention::ByPointer);

    let engine = AutoZigEngine::new("src", "out");
    let (modified, wrappers) =
        engine.generate_abi_lowering_with_modified_code(&[code.to_string()]);
    // The export itself stays as it is; the variant calls it.
    assert_eq!(modified, code);
    assert!(wrappers.starts_with("export fn create_vec3__ptr_variant("));
    assert!(wrappers.contains("static.result = create_vec3(x, y, z);"));
}

#[test]
fn array_return_is_redirected() {
    let code = "export fn create_range() [5]i32 { return .{ 1, 2, 3, 4, 5 }; }";
    let fns = extract_export_functions(code);
    assert_eq!(fns.len(), 1);
    let table = symbols_for(&fns[0]);
    let exported: Vec<_> = table.iter().filter(|s| s.exported).collect();
    assert_eq!(exported.len(), 1);
    assert_eq!(exported[0].name, "create_range");
    assert_eq!(exported[0].convention, Convention::ByPointer);
    let internal: Vec<_> = table.iter().filter(|s| !s.exported).collect();
    assert_eq!(internal.len(), 1);
    assert_eq!(internal[0].name, "create_range_impl");
    assert_eq!(internal[0].convention, Convention::ByValue);

    let engine = AutoZigEngine::new("src", "out");
    let (modified, wrappers) =
        engine.generate_abi_lowering_with_modified_code(&[code.to_string()]);
    assert_eq!(modified, "fn create_range_impl() [5]i32 { return .{ 1, 2, 3, 4, 5 }; }");
    assert!(!modified.contains("export fn create_range"));
    assert!(wrappers.starts_with("export fn create_range() *const [5]i32 {"));
    assert!(wrappers.contains("static.result = create_range_impl();"));
}

#[test]
fn symbol_table_of_mixed_functions() {
    let scalar = ExportFunction {
        name: "add".to_string(),
        params: "a: i32".to_string(),
        return_type: "i32".to_string(),
    };
    let table = symbol_table(&[scalar, vec3_function(), range_function()]);
    let names: Vec<&str> = table.iter().map(|s| s.name.as_str()).collect();
    assert_eq!(
        names,
        vec![
            "add",
            "create_vec3",
            "create_vec3__ptr_variant",
            "create_range",
            "create_range_impl"
        ]
    );
}

#[test]
fn rename_and_remove_export() {
    let code = "export fn a() [2]u8 {} export fn b () [2]u8 {} export fn c() i32 {}";
    let renamed = rename_functions_to_impl(code, &["a".to_string(), "b".to_string()]);
    assert_eq!(renamed, "fn a_impl() [2]u8 {} fn b_impl () [2]u8 {} export fn c() i32 {}");
    let removed = remove_export_from_functions(code, &["c".to_string()]);
    assert_eq!(removed, "export fn a() [2]u8 {} export fn b () [2]u8 {} fn c() i32 {}");
    assert_eq!(rename_functions_to_impl(code, &[]), code);
}

#[test]
fn abi_lowering_wrappers_cover_every_aggregate() {
    let engine = AutoZigEngine::new("src", "out");
    let blocks = vec![
        "export fn one() i32 { return 1; }".to_string(),
        "export fn p() Point { return .{}; } export fn q() Point { return .{}; }".to_string(),
    ];
    let wrappers = engine.generate_abi_lowering_wrappers(&blocks);
    assert_eq!(wrappers.matches("export fn ").count(), 2);
    assert!(wrappers.contains("export fn p__ptr_variant("));
    assert!(wrappers.contains("export fn q__ptr_variant("));
    assert!(engine.generate_abi_lowering_wrappers(&[]).is_empty());
}

#[test]
fn modified_code_is_that_of_the_last_block() {
    let engine = AutoZigEngine::new("src", "out");
    let blocks =
        vec!["export fn r() [2]u8 {}".to_string(), "export fn s() i32 {}".to_string()];
    let (modified, wrappers) = engine.generate_abi_lowering_with_modified_code(&blocks);
    assert_eq!(modified, "export fn s() i32 {}");
    assert!(wrappers.starts_with("export fn r() *const [2]u8 {"));
    let (modified, wrappers) = engine.generate_abi_lowering_with_modified_code(&[]);
    assert_eq!(modified, "");
    assert_eq!(wrappers, "");
}

fn file(path: &str, name: Option<&str>) -> SourceFile {
    SourceFile { path: path.to_string(), file_name: name.map(|n| n.to_string()) }
}

#[test]
fn main_module_text_is_exact() {
    let engine = AutoZigEngine::new("src", "out");
    let main = engine.generate_main_module_with_files(
        &["export fn one() i32 { return 1; }".to_string()],
        &[file("out/math.zig", Some("math.zig")), file("out/..", None)],
    );
    assert_eq!(
        main,
        "const std = @import(\"std\");\n\n// Global allocator - defined once\npub var g_allocator: std.mem.Allocator = undefined;\n\npub const mod_0 = @import(\"math.zig\");\n\n// Force exported symbols from imported modules to be included\ncomptime {\n    _ = mod_0;\n    _ = mod_1;\n}\n\n// Embedded code from autozig! macros\nexport fn one() i32 { return 1; }\n\n"
    );
}

#[test]
fn main_module_keeps_a_std_import_single() {
    let engine = AutoZigEngine::new("src", "out");
    let main = engine.generate_main_module(
        &["const std = @import(\"std\");\nexport fn p() Point { return .{}; }".to_string()],
        &[],
    );
    assert_eq!(main.matches("@import(\"std\")").count(), 1);
    assert!(!main.contains("g_allocator"));
    assert!(main.contains("// ABI Lowering: Pointer-based wrappers for struct returns\n"));
    assert!(main.contains("export fn p__ptr_variant("));
    assert!(main.ends_with("}\n\n"));
}

#[test]
fn main_module_numbers_past_nine() {
    let engine = AutoZigEngine::new("src", "out");
    let files: Vec<SourceFile> =
        (0..12).map(|i| file(&format!("f{}.zig", i), Some(&format!("f{}.zig", i)))).collect();
    let main = engine.generate_main_module_with_files(&[], &files);
    assert!(main.contains("pub const mod_10 = @import(\"f10.zig\");\n"));
    assert!(main.contains("    _ = mod_11;\n"));
}

#[test]
fn build_zig_follows_the_target() {
    let engine = AutoZigEngine::new("src", "out");
    let linux = engine.generate_build_zig(&[], &[], "x86_64-unknown-linux-musl");
    assert!(linux.contains("        .cpu_arch = .x86_64,\n        .os_tag = .linux,\n        .abi = .musl,\n"));
    assert!(linux.contains("    lib.root_module.pic = true;\n"));
    assert!(linux.contains("    lib.linkLibC();\n"));
    assert!(linux.starts_with("const std = @import(\"std\");\n\npub fn build(b: *std.Build) void {\n"));
    assert!(linux.ends_with("\n    b.installArtifact(lib);\n}\n"));

    let wasm = engine.generate_build_zig(&[], &[], "wasm32-unknown-unknown");
    assert!(wasm.contains("        .cpu_arch = .wasm32,\n        .os_tag = .freestanding,\n"));
    assert!(wasm.contains("    lib.root_module.stack_protector = false;\n"));
    assert!(!wasm.contains("linkLibC"));

    let native = engine.generate_build_zig(&[], &[], "something-else");
    assert!(!native.contains(".cpu_arch"));

    let windows = engine.generate_build_zig(&[], &[], "x86_64-pc-windows-msvc");
    assert!(windows.contains("        .os_tag = .windows,\n        .abi = .msvc,\n"));
    let mac = engine.generate_build_zig(&[], &[], "aarch64-apple-darwin");
    assert!(mac.contains("        .cpu_arch = .aarch64,\n        .os_tag = .macos,\n"));
}

#[test]
fn build_zig_adds_c_sources() {
    let engine = AutoZigEngine::new("src", "out");
    let text = engine.generate_build_zig_with_c(
        &[],
        &[],
        &[file("out/a.c", Some("a.c")), file("out/..", None)],
        "x86_64-unknown-linux-gnu",
    );
    assert!(text.contains("\n    // Add C source files\n    lib.addCSourceFile(.{ .file = b.path(\"a.c\"), .flags = &.{\"-fno-sanitize=undefined\"} });\n"));
    assert_eq!(text.matches("addCSourceFile").count(), 1);
}

#[test]
fn link_instructions() {
    let engine = AutoZigEngine::new("src", "out/dir");
    assert_eq!(
        engine.link_library(),
        vec![
            "cargo:rustc-link-search=native=out/dir".to_string(),
            "cargo:rustc-link-lib=static=autozig".to_string()
        ]
    );
}

#[test]
fn fingerprint_is_sha256_in_hex() {
    assert_eq!(
        fingerprint("abc"),
        "ba7816bf8f01cfea414140de5dae2223b00361a396177a9cb410ff61f20015ad"
    );
    assert_eq!(
        fingerprint(""),
        "e3b0c44298fc1c149afbf4c8996fb92427ae41e4649b934ca495991b7852b855"
    );
}

fn context(stored: Option<&str>, artifact: bool) -> BuildContext {
    BuildContext {
        rust_target: Some("x86_64-unknown-linux-gnu".to_string()),
        stored_fingerprint: stored.map(|s| s.to_string()),
        artifact_exists: artifact,
    }
}

#[test]
fn merged_build_compiles_then_skips() {
    let engine = AutoZigEngine::new("src", "out");
    let scan = ScanResult::Merged("export fn one() i32 { return 1; }\n".to_string());
    let first = engine.build(&scan, &context(None, false)).unwrap();
    assert_eq!(
        first.notices,
        vec![
            "cargo:rerun-if-changed=src".to_string(),
            "cargo:warning=Using MERGED compilation mode (legacy)".to_string()
        ]
    );
    assert_eq!(first.steps.len(), 3);
    let recorded = match &first.steps[2] {
        BuildStep::WriteFile { path, content } => {
            assert_eq!(path, "out/.zig_code_hash");
            content.clone()
        },
        other => panic!("unexpected step {:?}", other),
    };
    match &first.steps[0] {
        BuildStep::WriteFile { path, content } => {
            assert_eq!(path, "out/generated_autozig.zig");
            assert_eq!(content, "export fn one() i32 { return 1; }\n");
            assert_eq!(fingerprint(content), recorded);
        },
        other => panic!("unexpected step {:?}", other),
    }
    match &first.steps[1] {
        BuildStep::CompileLibrary { source, output, target, src_dir } => {
            assert_eq!(source, "out/generated_autozig.zig");
            assert_eq!(output, "out/libautozig.a");
            assert_eq!(target, "x86_64-linux-gnu");
            assert_eq!(src_dir, "src");
        },
        other => panic!("unexpected step {:?}", other),
    }
    assert_eq!(first.output.lib_path.as_deref(), Some("out/libautozig.a"));

    // The same code again, with the record and the artifact in place.
    let second = engine.build(&scan, &context(Some(&recorded), true)).unwrap();
    assert!(second.steps.is_empty());
    assert_eq!(second.link, first.link);
    assert_eq!(second.output.lib_path, first.output.lib_path);
    assert_eq!(
        second.notices.last().map(|s| s.as_str()),
        Some("cargo:warning=Zig code unchanged, skipping compilation")
    );

    // Without the artifact, or with another record, the build compiles.
    assert_eq!(engine.build(&scan, &context(Some(&recorded), false)).unwrap().steps.len(), 3);
    assert_eq!(engine.build(&scan, &context(Some("0000"), true)).unwrap().steps.len(), 3);
}

#[test]
fn merged_build_of_nothing() {
    let engine = AutoZigEngine::new("src", "out");
    let plan = engine.build(&ScanResult::Merged(String::new()), &context(None, false)).unwrap();
    assert!(plan.steps.is_empty());
    assert!(plan.link.is_empty());
    assert!(plan.output.lib_path.is_none());
}

#[test]
fn merged_build_appends_wrappers() {
    let engine = AutoZigEngine::new("src", "out");
    let plan = engine.build_merged(
        "export fn r() [2]u8 { return .{ 1, 2 }; }",
        &BuildContext { rust_target: None, stored_fingerprint: None, artifact_exists: false },
    );
    match &plan.steps[0] {
        BuildStep::WriteFile { content, .. } => {
            assert!(content.starts_with("fn r_impl() [2]u8 { return .{ 1, 2 }; }\n\n// ABI Lowering: Pointer-based wrappers for struct returns\n// These wrappers ensure cross-platform ABI compatibility\nexport fn r() *const [2]u8 {"));
        },
        other => panic!("unexpected step {:?}", other),
    }
    match &plan.steps[1] {
        BuildStep::CompileLibrary { target, .. } => assert_eq!(target, "native"),
        other => panic!("unexpected step {:?}", other),
    }
}

fn math_source(content: &str) -> ExternalSource {
    ExternalSource {
        file: file("crate/zig/math.zig", Some("math.zig")),
        exists: true,
        content: Ok(content.to_string()),
    }
}

fn modular_scan_of(math: &str) -> ScanResult {
    let embedded_code = vec!["export fn one() i32 { return 1; }".to_string()];
    let foreign_text = aggregate_code(&embedded_code, &[math_source(math)]);
    ScanResult::Modular {
        embedded_code,
        external_files: vec![file("crate/zig/math.zig", Some("math.zig"))],
        all_zig_files: vec![file("crate/zig/math.zig", Some("math.zig"))],
        c_source_files: vec![file("crate/src/helper.c", Some("helper.c"))],
        foreign_text,
    }
}

fn modular_scan() -> ScanResult {
    modular_scan_of("pub fn two() i32 { return 2; }\n")
}

fn recorded_fingerprint(steps: &[BuildStep]) -> String {
    match steps.last() {
        Some(BuildStep::WriteFile { path, content }) => {
            assert_eq!(path, "out/.zig_code_hash");
            content.clone()
        },
        other => panic!("unexpected last step {:?}", other),
    }
}

#[test]
fn aggregated_text_holds_code_and_files() {
    let text = aggregate_code(
        &["const a = 1;".to_string(), "const b = 2;".to_string()],
        &[
            math_source("pub fn two() i32 { return 2; }"),
            ExternalSource {
                file: file("gone.zig", Some("gone.zig")),
                exists: false,
                content: Err("no such file".to_string()),
            },
            ExternalSource {
                file: file("locked.zig", Some("locked.zig")),
                exists: true,
                content: Err("permission denied".to_string()),
            },
        ],
    );
    assert_eq!(
        text,
        "const a = 1;\nconst b = 2;\n\n// From external file: crate/zig/math.zig\npub fn two() i32 { return 2; }\n\n// From external file: locked.zig\n\n"
    );
    assert_eq!(aggregate_code(&[], &[]), "");
}

#[test]
fn modular_import_build() {
    let engine = AutoZigEngine::with_mode("src", "out", CompilationMode::ModularImport);
    let plan = engine.build(&modular_scan(), &context(None, false)).unwrap();
    assert_eq!(plan.steps.len(), 4);
    match &plan.steps[0] {
        BuildStep::CopyFile { from, to } => {
            assert_eq!(from, "crate/zig/math.zig");
            assert_eq!(to, "out/math.zig");
        },
        other => panic!("unexpected step {:?}", other),
    }
    match &plan.steps[1] {
        BuildStep::WriteFile { path, content } => {
            assert_eq!(path, "out/generated_main.zig");
            assert!(content.contains("pub const mod_0 = @import(\"math.zig\");\n"));
        },
        other => panic!("unexpected step {:?}", other),
    }
    assert!(matches!(&plan.steps[2], BuildStep::CompileLibrary { .. }));
    let scan = modular_scan();
    let text = match &scan {
        ScanResult::Modular { foreign_text, .. } => foreign_text.clone(),
        other => panic!("unexpected scan {:?}", other),
    };
    assert_eq!(recorded_fingerprint(&plan.steps), fingerprint(&text));
    assert_eq!(plan.link.len(), 2);
}

#[test]
fn modular_import_build_skips_unchanged_code() {
    let engine = AutoZigEngine::with_mode("src", "out", CompilationMode::ModularImport);
    let first = engine.build(&modular_scan(), &context(None, false)).unwrap();
    let recorded = recorded_fingerprint(&first.steps);

    let second = engine.build(&modular_scan(), &context(Some(&recorded), true)).unwrap();
    assert!(second.steps.is_empty());
    assert_eq!(second.link, first.link);
    assert_eq!(second.output.lib_path, first.output.lib_path);
    assert_eq!(second.output.lib_path.as_deref(), Some("out/libautozig.a"));
    assert_eq!(
        second.notices.last().map(|s| s.as_str()),
        Some("cargo:warning=Zig code unchanged, skipping compilation")
    );

    // Without the artifact, with another record, or with another content
    // of a referenced file, the build compiles.
    assert_eq!(engine.build(&modular_scan(), &context(Some(&recorded), false)).unwrap().steps.len(), 4);
    assert_eq!(engine.build(&modular_scan(), &context(Some("0000"), true)).unwrap().steps.len(), 4);
    let changed = modular_scan_of("pub fn two() i32 { return 3; }\n");
    let third = engine.build(&changed, &context(Some(&recorded), true)).unwrap();
    assert_eq!(third.steps.len(), 4);
    assert_ne!(recorded_fingerprint(&third.steps), recorded);
}

#[test]
fn modular_buildzig_build() {
    let engine = AutoZigEngine::with_mode("src", "out", CompilationMode::ModularBuildZig);
    let plan = engine.build(&modular_scan(), &context(None, false)).unwrap();
    assert_eq!(plan.steps.len(), 6);
    assert!(matches!(&plan.steps[0], BuildStep::CopyFile { .. }));
    match &plan.steps[1] {
        BuildStep::CopyFile { from, to } => {
            assert_eq!(from, "crate/src/helper.c");
            assert_eq!(to, "out/helper.c");
        },
        other => panic!("unexpected step {:?}", other),
    }
    match &plan.steps[3] {
        BuildStep::WriteFile { path, content } => {
            assert_eq!(path, "out/build.zig");
            assert!(content.contains("b.path(\"helper.c\")"));
            assert!(content.contains(".os_tag = .linux"));
        },
        other => panic!("unexpected step {:?}", other),
    }
    match &plan.steps[4] {
        BuildStep::RunBuildZig { build_file, build_dir, output } => {
            assert_eq!(build_file, "out/build.zig");
            assert_eq!(build_dir, "out");
            assert_eq!(output, "out/libautozig.a");
        },
        other => panic!("unexpected step {:?}", other),
    }
    let recorded = recorded_fingerprint(&plan.steps);

    // The same code again, with the record and the artifact in place.
    let second = engine.build(&modular_scan(), &context(Some(&recorded), true)).unwrap();
    assert!(second.steps.is_empty());
    assert_eq!(second.link, plan.link);
    assert_eq!(second.output.lib_path, plan.output.lib_path);
    assert_eq!(engine.build(&modular_scan(), &context(Some(&recorded), false)).unwrap().steps.len(), 6);
}

#[test]
fn modular_build_of_nothing() {
    let engine = AutoZigEngine::with_mode("src", "out", CompilationMode::ModularImport);
    let scan = ScanResult::Modular {
        embedded_code: vec![],
        external_files: vec![],
        all_zig_files: vec![],
        c_source_files: vec![],
        foreign_text: String::new(),
    };
    let plan = engine.build(&scan, &context(None, false)).unwrap();
    assert!(plan.steps.is_empty());
    assert!(plan.link.is_empty());
    assert!(plan.output.lib_path.is_none());
}

#[test]
fn build_errors() {
    let engine = AutoZigEngine::with_mode("src", "out", CompilationMode::ModularImport);
    let err = engine.build(&ScanResult::Merged("x".to_string()), &context(None, false)).unwrap_err();
    assert!(matches!(err, BuildError::ExpectedModularScan));
    assert_eq!(err.message(), "Expected modular scan result");

    let engine = AutoZigEngine::with_mode("src", "out", CompilationMode::ModularBuildZig);
    let scan = ScanResult::Modular {
        embedded_code: vec![],
        external_files: vec![file("weird/..", None)],
        all_zig_files: vec![],
        c_source_files: vec![],
        foreign_text: "\n// From external file: weird/..\n\n".to_string(),
    };
    let err = engine.build(&scan, &context(None, false)).unwrap_err();
    assert!(matches!(err, BuildError::MissingFileName { .. }));
    assert_eq!(err.message(), "Failed to copy weird/..");
}

#[test]
fn merged_engine_joins_a_modular_scan() {
    let engine = AutoZigEngine::new("src", "out");
    let scan = ScanResult::Modular {
        embedded_code: vec!["const a = 1;".to_string(), "const b = 2;".to_string()],
        external_files: vec![],
        all_zig_files: vec![],
        c_source_files: vec![],
        foreign_text: "const a = 1;\nconst b = 2;\n".to_string(),
    };
    let plan = engine.build(&scan, &context(None, false)).unwrap();
    match &plan.steps[0] {
        BuildStep::WriteFile { content, .. } => assert_eq!(content, "const a = 1;\nconst b = 2;"),
        other => panic!("unexpected step {:?}", other),
    }
}

#[test]
fn several_array_functions_in_one_block() {
    let code = "export fn first() [2]u8 { return .{ 1, 2 }; }\nexport fn pair() Pair { return .{}; }\nexport fn second(n: u8) [3]u8 { return .{ n, n, n }; }\nexport fn plain() i32 { return 0; }\n";
    let engine = AutoZigEngine::new("src", "out");
    let (modified, wrappers) =
        engine.generate_abi_lowering_with_modified_code(&[code.to_string()]);
    // Each array-returning function lives on under its internal name and is
    // no longer exported by the code; the others stay as they were written.
    assert_eq!(
        modified,
        "fn first_impl() [2]u8 { return .{ 1, 2 }; }\nexport fn pair() Pair { return .{}; }\nfn second_impl(n: u8) [3]u8 { return .{ n, n, n }; }\nexport fn plain() i32 { return 0; }\n"
    );
    for name in ["first", "second"] {
        assert!(!modified.contains(&format!("export fn {}(", name)));
        assert!(modified.contains(&format!("fn {}_impl(", name)));
        assert_eq!(wrappers.matches(&format!("export fn {}(", name)).count(), 1);
        assert!(wrappers.contains(&format!("static.result = {}_impl(", name)));
    }
    assert!(wrappers.contains("export fn pair__ptr_variant() *const Pair {"));
    assert!(wrappers.contains("static.result = pair();"));
    assert!(!wrappers.contains("plain"));
}

#[test]
fn header_written_with_a_space_is_made_internal() {
    let code = "export fn spaced () [2]u8 { return .{ 1, 2 }; }";
    let engine = AutoZigEngine::new("src", "out");
    let (modified, wrappers) =
        engine.generate_abi_lowering_with_modified_code(&[code.to_string()]);
    assert_eq!(modified, "fn spaced_impl () [2]u8 { return .{ 1, 2 }; }");
    assert!(wrappers.starts_with("export fn spaced() *const [2]u8 {"));
}

#[test]
fn modular_build_redirects_array_functions() {
    let engine = AutoZigEngine::with_mode("src", "out", CompilationMode::ModularImport);
    let blocks = vec![
        "export fn range() [3]u8 { return .{ 1, 2, 3 }; }".to_string(),
        "export fn point() Point { return .{}; }\nexport fn one() i32 { return 1; }".to_string(),
    ];
    let wrappers = engine.generate_abi_lowering_wrappers(&blocks);
    assert!(wrappers.starts_with("export fn range() *const [3]u8 {"));
    assert!(wrappers.contains("static.result = range_impl();"));
    assert!(wrappers.contains("export fn point__ptr_variant() *const Point {"));
    assert!(!wrappers.contains("range__ptr_variant"));
    assert_eq!(wrappers.matches("export fn ").count(), 2);
    assert_eq!(wrappers, engine.generate_abi_lowering_with_modified_code(&blocks).1);

    let main = engine.generate_main_module(&blocks, &[]);
    assert_eq!(
        main,
        format!(
            "const std = @import(\"std\");\n\n// Global allocator - defined once\npub var g_allocator: std.mem.Allocator = undefined;\n\n// Embedded code from autozig! macros\nfn range_impl() [3]u8 {{ return .{{ 1, 2, 3 }}; }}\n\nexport fn point() Point {{ return .{{}}; }}\nexport fn one() i32 {{ return 1; }}\n\n// ABI Lowering: Pointer-based wrappers for struct returns\n// These wrappers ensure cross-platform ABI compatibility\n{}\n",
            wrappers
        )
    );
    // The name of the array function is exported once, by its wrapper.
    assert_eq!(main.matches("export fn range(").count(), 1);
    assert_eq!(main.matches("fn range_impl(").count(), 1);
}

#[test]
fn lower_block_returns_code_and_wrappers() {
    let (code, wrappers) = autozig::engine::lower_block("export fn r() [2]u8 {}\nexport fn s() i32 {}");
    assert_eq!(code, "fn r_impl() [2]u8 {}\nexport fn s() i32 {}");
    assert!(wrappers.starts_with("export fn r() *const [2]u8 {"));
    assert!(wrappers.ends_with("}\n"));
    assert_eq!(autozig::engine::lower_block("const a = 1;"), ("const a = 1;".to_string(), String::new()));
}

#[test]
fn export_headers_stand_once_in_the_wrappers() {
    let code = "export fn first() [2]u8 { return .{ 1, 2 }; }\nexport fn pair(a: Pair) Pair { return a; }\nexport fn second(n: u8) [3]u8 { return .{ n, n, n }; }\n";
    let engine = AutoZigEngine::new("src", "out");
    let (modified, wrappers) =
        engine.generate_abi_lowering_with_modified_code(&[code.to_string()]);
    // The word stands where a wrapper starts, and nowhere else.
    let starts: Vec<usize> = wrappers.match_indices("export").map(|(i, _)| i).collect();
    assert_eq!(starts.len(), 3);
    assert_eq!(starts[0], 0);
    for (header, at) in [
        ("export fn first(", starts[0]),
        ("export fn pair__ptr_variant(", starts[1]),
        ("export fn second(", starts[2]),
    ] {
        let found: Vec<usize> = wrappers.match_indices(header).map(|(i, _)| i).collect();
        assert_eq!(found, vec![at], "{}", header);
    }
    let (params, _) = convert_params_to_ptrs("a: Pair");
    assert!(wrappers[starts[1]..]
        .starts_with(&format!("export fn pair__ptr_variant({}) *const Pair {{", params)));
    let (params, _) = convert_params_to_ptrs("n: u8");
    assert!(wrappers[starts[2]..]
        .starts_with(&format!("export fn second({}) *const [3]u8 {{", params)));
    assert_eq!(modified.matches("export fn ").count(), 1);
    assert_eq!(modified.matches("export fn pair(").count(), 1);
}
