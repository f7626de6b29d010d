use autozig::extract::{
    convert_to_extern_struct, extract_declarations_from_tokens, extract_file_path_from_tokens,
    extract_zig_from_tokens, find_struct_declaration, find_struct_keyword_end,
};
use autozig::scanner::{
    block_of_call, collect_blocks, embedded_code, external_references, merge_code,
    remove_duplicate_imports, unique_files, CompilationMode, EmbeddedBlock, ExternalSource,
    MacroCall, ScanResult, SourceFile, SourceUnit, ZigCodeScanner,
};

#[test]
fn test_extract_zig_from_tokens() {
    let tokens = r#"{
            const std = @import("std");
            export fn add(a: i32, b: i32) i32 {
                return a + b;
            }
            ---
            fn add(a: i32, b: i32) -> i32;
        }"#;

    let result = extract_zig_from_tokens(tokens).unwrap();
    // Should contain Zig code
    assert!(result.contains("export fn add"));
    assert!(result.contains("const std"));
    // Should NOT contain separator or Rust signatures (look for -> which is
    // Rust-specific)
    assert!(!result.contains("---"));
    assert!(!result.contains("-> i32;")); // Rust return type syntax
}

#[test]
fn test_extract_without_separator() {
    let tokens = r#"{
            const std = @import("std");
            export fn multiply(a: i32, b: i32) i32 {
                return a * b;
            }
        }"#;

    let result = extract_zig_from_tokens(tokens).unwrap();
    assert!(result.contains("export fn multiply"));
}

#[test]
fn test_remove_duplicate_imports() {
    let content = r#"const std = @import("std");

export fn test() void {}
"#;
    let mut has_std = false;
    let result1 = remove_duplicate_imports(content, &mut has_std);
    assert!(result1.contains("const std"));
    assert!(has_std);

    // Second call should remove the import
    let result2 = remove_duplicate_imports(content, &mut has_std);
    assert!(!result2.contains("const std"));
    assert!(result2.contains("export fn test"));
}

#[test]
fn test_convert_to_extern_struct_basic() {
    let code = "pub const Color = struct { r: f32, g: f32, b: f32, };";
    let result = convert_to_extern_struct(code);
    assert!(result.contains("= extern struct"));
    assert!(!result.contains("= struct {") || result.contains("extern struct"));
}

#[test]
fn test_convert_to_extern_struct_already_extern() {
    let code = "pub const Vec3 = extern struct { x: f32, y: f32, z: f32, };";
    let result = convert_to_extern_struct(code);
    // Should remain unchanged - only one "extern struct"
    assert_eq!(result.matches("extern struct").count(), 1);
    assert!(!result.contains("extern extern"));
}

#[test]
fn test_convert_to_extern_struct_packed() {
    let code = "pub const PackedData = packed struct { a: u8, b: u8, };";
    let result = convert_to_extern_struct(code);
    // Should remain packed struct, not converted
    assert!(result.contains("packed struct"));
    assert!(!result.contains("extern struct"));
}

#[test]
fn test_convert_to_extern_struct_multiple() {
    let code = r#"
            pub const Color = struct { r: f32, g: f32, b: f32, };
            pub const Vec3 = struct { x: f32, y: f32, z: f32, };
        "#;
    let result = convert_to_extern_struct(code);
    // Both should be converted
    assert_eq!(result.matches("extern struct").count(), 2);
}

#[test]
fn test_convert_to_extern_struct_with_export_fn() {
    let code = r#"
            pub const Color = struct { r: f32, g: f32, b: f32, };
            export fn create_color(r: f32, g: f32, b: f32) Color {
                return Color{ .r = r, .g = g, .b = b };
            }
        "#;
    let result = convert_to_extern_struct(code);
    assert!(result.contains("extern struct"));
    assert!(result.contains("export fn create_color"));
}

#[test]
fn convert_to_extern_struct_exact() {
    assert_eq!(
        convert_to_extern_struct("const A = struct {}; const B =struct {};"),
        "const A = extern struct {}; const B = extern struct {};"
    );
    assert_eq!(convert_to_extern_struct("no declarations"), "no declarations");
    assert_eq!(convert_to_extern_struct(""), "");
    // After `extern` or `packed` the declaration keeps its form.
    assert_eq!(convert_to_extern_struct("x extern = struct {}"), "x extern = struct {}");
    assert_eq!(convert_to_extern_struct("x packed  =struct {}"), "x packed  =struct {}");
}

#[test]
fn struct_declaration_positions() {
    assert_eq!(find_struct_declaration("const A = struct {"), Some(8));
    assert_eq!(find_struct_declaration("a =struct, b = struct"), Some(2));
    assert_eq!(find_struct_declaration("a = struct, b =struct"), Some(2));
    assert_eq!(find_struct_declaration("nothing"), None);
    assert_eq!(find_struct_keyword_end("= struct {"), 8);
    assert_eq!(find_struct_keyword_end("=struct"), 7);
    assert_eq!(find_struct_keyword_end("none"), 0);
}

#[test]
fn extract_zig_tidies_token_spacing() {
    let zig = extract_zig_from_tokens(
        "{ const std = @ import (\"std\") ; fn f (p : [ * ] const u8 , s : [ ] u8) void { _ = p [ 0 .. len ] ; _ = s [1 .. 2] ; } }",
    )
    .unwrap();
    assert_eq!(
        zig,
        "const std = @import (\"std\") ; fn f (p : [*] const u8 , s : [] u8) void { _ = p [0..len] ; _ = s [1 ..2] ; }"
    );
}

#[test]
fn extract_zig_edge_cases() {
    assert_eq!(extract_zig_from_tokens("{ }"), None);
    assert_eq!(extract_zig_from_tokens(""), None);
    assert_eq!(extract_zig_from_tokens("{ --- fn f(); }"), None);
    assert_eq!(extract_zig_from_tokens("const a = 1;").as_deref(), Some("const a = 1;"));
    // An `@` at the very end keeps nothing behind it.
    assert_eq!(extract_zig_from_tokens("a @   ").as_deref(), Some("a @"));
    assert_eq!(extract_zig_from_tokens("a @  \n b").as_deref(), Some("a @b"));
}

#[test]
fn extract_declarations() {
    assert_eq!(
        extract_declarations_from_tokens("{ zig --- fn f(); }").as_deref(),
        Some(" fn f(); ")
    );
    assert_eq!(extract_declarations_from_tokens("{ zig only }"), None);
}

#[test]
fn extract_file_path() {
    assert_eq!(
        extract_file_path_from_tokens("(\"zig/math.zig\", { fn add(a: i32) -> i32; })").as_deref(),
        Some("zig/math.zig")
    );
    assert_eq!(extract_file_path_from_tokens("\"a.zig\"").as_deref(), Some("a.zig"));
    assert_eq!(extract_file_path_from_tokens("  ( \"\" )  ").as_deref(), Some(""));
    assert_eq!(extract_file_path_from_tokens("no quotes"), None);
    assert_eq!(extract_file_path_from_tokens("\"unterminated"), None);
}

fn call(name: &str, tokens: &str) -> MacroCall {
    MacroCall { name: Some(name.to_string()), tokens: tokens.to_string() }
}

#[test]
fn blocks_of_calls() {
    match block_of_call(&call("autozig", "{ const a = 1; --- fn f(); }")) {
        Some(EmbeddedBlock::Inline { zig_code, declarations }) => {
            assert_eq!(zig_code, "const a = 1;");
            assert_eq!(declarations.as_deref(), Some(" fn f(); "));
        },
        other => panic!("unexpected block {:?}", other),
    }
    match block_of_call(&call("include_zig", "\"zig/m.zig\" , { fn f(); }")) {
        Some(EmbeddedBlock::External { path, signatures }) => {
            assert_eq!(path, "zig/m.zig");
            assert_eq!(signatures, "{ fn f(); }");
        },
        other => panic!("unexpected block {:?}", other),
    }
    assert!(block_of_call(&call("println", "\"hello\"")).is_none());
    assert!(block_of_call(&call("autozig", "{ }")).is_none());
    assert!(block_of_call(&call("include_zig", "no path")).is_none());
    assert!(block_of_call(&MacroCall { name: None, tokens: "{ a }".to_string() }).is_none());
}

fn units() -> Vec<SourceUnit> {
    vec![
        SourceUnit {
            path: "src/a.rs".to_string(),
            calls: Ok(vec![
                call("autozig", "{ const a = 1; }"),
                call("vec", "1, 2"),
                call("include_zig", "\"zig/m.zig\""),
            ]),
        },
        SourceUnit { path: "src/bad.rs".to_string(), calls: Err("expected item".to_string()) },
        SourceUnit {
            path: "src/b.rs".to_string(),
            calls: Ok(vec![call("autozig", "{ const b = 2; }")]),
        },
    ]
}

#[test]
fn scan_goes_on_after_a_bad_file() {
    let scan = collect_blocks(&units());
    assert_eq!(scan.blocks.len(), 3);
    assert_eq!(scan.failures, vec!["Warning: Failed to parse src/bad.rs: expected item"]);
    assert_eq!(embedded_code(&scan.blocks), vec!["const a = 1;", "const b = 2;"]);
    assert_eq!(external_references(&scan.blocks), vec!["zig/m.zig"]);
    let nothing = collect_blocks(&[]);
    assert!(nothing.blocks.is_empty());
    assert!(nothing.failures.is_empty());
}

fn file(path: &str) -> SourceFile {
    let name = path.rsplit('/').next().map(|n| n.to_string());
    SourceFile { path: path.to_string(), file_name: name }
}

fn externals() -> Vec<ExternalSource> {
    vec![
        ExternalSource {
            file: file("crate/zig/m.zig"),
            exists: true,
            content: Ok("const std = @import(\"std\");\nexport fn m() void {}\n".to_string()),
        },
        ExternalSource {
            file: file("crate/zig/gone.zig"),
            exists: false,
            content: Err("not found".to_string()),
        },
        ExternalSource {
            file: file("crate/zig/locked.zig"),
            exists: true,
            content: Err("permission denied".to_string()),
        },
        ExternalSource {
            file: file("crate/zig/n.zig"),
            exists: true,
            content: Ok("const std = @import(\"std\");\r\nexport fn n() void {}".to_string()),
        },
    ]
}

#[test]
fn merge_code_text_is_exact() {
    let (code, warnings) =
        merge_code(&["const a = 1;".to_string(), "const b = 2;".to_string()], &externals());
    assert_eq!(
        code,
        "const a = 1;\nconst b = 2;\n\n// From external file: crate/zig/m.zig\nconst std = @import(\"std\");\nexport fn m() void {}\n\n\n// From external file: crate/zig/n.zig\nexport fn n() void {}\n\n"
    );
    assert_eq!(
        warnings,
        vec!["Warning: Failed to read external Zig file crate/zig/locked.zig: permission denied"]
    );
}

#[test]
fn scanner_modes() {
    let scanner = ZigCodeScanner::new("src");
    assert_eq!(scanner.mode(), CompilationMode::Merged);
    assert_eq!(scanner.src_dir, "src");
    let scanner = ZigCodeScanner::with_mode("src", CompilationMode::ModularImport);
    assert_eq!(scanner.mode(), CompilationMode::ModularImport);
}

#[test]
fn merged_scan() {
    let scanner = ZigCodeScanner::new("src");
    let scan = collect_blocks(&units());
    let outcome = scanner.scan_modular(&scan, &externals(), &[], &[]);
    match outcome.result {
        ScanResult::Merged(code) => {
            assert!(code.starts_with("const a = 1;\nconst b = 2;\n"));
            assert!(code.contains("export fn n() void {}"));
        },
        other => panic!("unexpected result {:?}", other),
    }
    assert_eq!(
        outcome.diagnostics,
        vec![
            "Warning: Failed to parse src/bad.rs: expected item",
            "Warning: External Zig file not found: crate/zig/gone.zig",
            "Warning: Failed to read external Zig file crate/zig/locked.zig: permission denied",
        ]
    );
    let (code, _) = scanner.scan(&scan, &externals(), &[], &[]);
    assert!(code.starts_with("const a = 1;\nconst b = 2;\n\n// From external file: crate/zig/m.zig\n"));
}

#[test]
fn modular_scan_lists_each_file_once() {
    let scanner = ZigCodeScanner::with_mode("src", CompilationMode::ModularBuildZig);
    let scan = collect_blocks(&units());
    let zig_files = vec![file("src/x.zig"), file("crate/zig/m.zig"), file("src/x.zig")];
    let c_files = vec![file("src/h.c"), file("src/h.c")];
    let outcome = scanner.scan_modular(&scan, &externals(), &zig_files, &c_files);
    match outcome.result {
        ScanResult::Modular {
            embedded_code,
            external_files,
            all_zig_files,
            c_source_files,
            foreign_text,
        } => {
            assert_eq!(embedded_code, vec!["const a = 1;", "const b = 2;"]);
            assert_eq!(
                foreign_text,
                "const a = 1;\nconst b = 2;\n\n// From external file: crate/zig/m.zig\nconst std = @import(\"std\");\nexport fn m() void {}\n\n\n// From external file: crate/zig/locked.zig\n\n\n// From external file: crate/zig/n.zig\nconst std = @import(\"std\");\r\nexport fn n() void {}\n"
            );
            let paths: Vec<&str> = external_files.iter().map(|f| f.path.as_str()).collect();
            assert_eq!(paths, vec!["crate/zig/m.zig", "crate/zig/locked.zig", "crate/zig/n.zig"]);
            let paths: Vec<&str> = all_zig_files.iter().map(|f| f.path.as_str()).collect();
            assert_eq!(
                paths,
                vec!["crate/zig/m.zig", "crate/zig/locked.zig", "crate/zig/n.zig", "src/x.zig"]
            );
            let paths: Vec<&str> = c_source_files.iter().map(|f| f.path.as_str()).collect();
            assert_eq!(paths, vec!["src/h.c"]);
        },
        other => panic!("unexpected result {:?}", other),
    }
    assert_eq!(
        outcome.diagnostics,
        vec![
            "Warning: Failed to parse src/bad.rs: expected item",
            "Warning: External Zig file not found: crate/zig/gone.zig",
            "Warning: Failed to read external Zig file crate/zig/locked.zig: permission denied",
        ]
    );
    let (code, _) = scanner.scan(&scan, &externals(), &zig_files, &c_files);
    assert_eq!(code, "const a = 1;\nconst b = 2;");
}

#[test]
fn unique_files_keeps_the_first() {
    let files = vec![
        SourceFile { path: "a".to_string(), file_name: Some("first".to_string()) },
        SourceFile { path: "b".to_string(), file_name: None },
        SourceFile { path: "a".to_string(), file_name: Some("second".to_string()) },
    ];
    let unique = unique_files(&files);
    assert_eq!(unique.len(), 2);
    assert_eq!(unique[0].file_name.as_deref(), Some("first"));
    assert_eq!(unique[1].path, "b");
}

#[test]
fn remove_duplicate_imports_exact() {
    let mut seen = false;
    let out = remove_duplicate_imports(
        "  const std = @import(\"std\");\r\nconst std = @import(\"std\");\nconst x = 1;",
        &mut seen,
    );
    assert_eq!(out, "  const std = @import(\"std\");\nconst x = 1;\n");
    assert!(seen);
    let mut seen = false;
    assert_eq!(remove_duplicate_imports("", &mut seen), "");
    assert!(!seen);
    assert_eq!(remove_duplicate_imports("a\n\nb\n", &mut seen), "a\n\nb\n");
    assert_eq!(remove_duplicate_imports("trailing\r", &mut seen), "trailing\r\n");
}
