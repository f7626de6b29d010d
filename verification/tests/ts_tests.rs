use autozig::ts_generator::{FunctionSignature, RustType, TsConfig, TsGenerator};
use autozig::type_mapper::{analyze_param_type, ParamConversion, TypeMapper};
use autozig::syntax::TypeExpr;

#[test]
fn test_parse_function_simple() {
    let sig = FunctionSignature::parse("fn get_memory_size() -> usize").unwrap();
    assert_eq!(sig.name, "get_memory_size");
    assert!(sig.params.is_empty());
    assert_eq!(sig.return_type, RustType::Usize);
}

#[test]
fn test_parse_function_with_params() {
    let sig = FunctionSignature::parse("fn write_buffer(offset: usize, value: u8)").unwrap();
    assert_eq!(sig.name, "write_buffer");
    assert_eq!(sig.params.len(), 2);
    assert_eq!(sig.params[0], ("offset".to_string(), RustType::Usize));
    assert_eq!(sig.params[1], ("value".to_string(), RustType::U8));
    assert_eq!(sig.return_type, RustType::Void);
}

#[test]
fn test_parse_with_autozig_attr() {
    let sig =
        FunctionSignature::parse(r#"#[autozig(strategy = "dual")] fn get_arch_info() -> u32"#)
            .unwrap();
    assert_eq!(sig.name, "get_arch_info");
    assert_eq!(sig.return_type, RustType::U32);
}

#[test]
fn test_type_to_typescript() {
    assert_eq!(RustType::U32.to_typescript(false), "number");
    assert_eq!(RustType::Usize.to_typescript(false), "number");
    assert_eq!(RustType::Usize.to_typescript(true), "bigint");
    assert_eq!(RustType::U64.to_typescript(true), "bigint");
}

#[test]
fn test_type_mapper() {
    let mapper = TypeMapper::new();

    assert_eq!(mapper.map_type("i32"), Some("i32"));
    assert_eq!(mapper.map_type("u64"), Some("u64"));
    assert_eq!(mapper.map_type("f32"), Some("f32"));
    assert_eq!(mapper.map_type("bool"), Some("u8"));
    assert_eq!(mapper.map_type("void"), Some("()"));
}

#[test]
fn test_slice_detection() {
    let mapper = TypeMapper::new();

    assert!(mapper.is_slice_type("[*]const u8"));
    assert!(mapper.is_slice_type("[*]u8"));
    assert!(!mapper.is_slice_type("i32"));
}

#[test]
fn type_mapper_table() {
    let mapper = TypeMapper::default();
    assert_eq!(mapper.map_type("[*]const u8"), Some("*const u8"));
    assert_eq!(mapper.map_type("[*]u8"), Some("*mut u8"));
    assert_eq!(mapper.map_type("i128"), Some("i128"));
    assert_eq!(mapper.map_type("usize"), Some("usize"));
    assert_eq!(mapper.map_type("Vec3"), None);
    assert_eq!(mapper.map_type(""), None);
    assert_eq!(mapper.map_type(" i32"), None);
}

fn path(name: &str) -> TypeExpr {
    TypeExpr::Path {
        text: name.to_string(),
        ident: Some(name.to_string()),
        last_segment: Some(name.to_string()),
    }
}

fn reference(mutable: bool, elem: TypeExpr) -> TypeExpr {
    TypeExpr::Reference { lifetime: None, mutable, elem: Box::new(elem) }
}

#[test]
fn param_conversions() {
    assert_eq!(analyze_param_type(&path("i32")), ParamConversion::Direct);
    assert_eq!(
        analyze_param_type(&reference(false, TypeExpr::Slice { elem: Box::new(path("u8")) })),
        ParamConversion::SliceToPtrLen
    );
    assert_eq!(analyze_param_type(&reference(true, path("str"))), ParamConversion::StrToPtrLen);
    assert_eq!(analyze_param_type(&reference(false, path("Vec3"))), ParamConversion::Direct);
    assert_eq!(
        analyze_param_type(&TypeExpr::Slice { elem: Box::new(path("u8")) }),
        ParamConversion::Direct
    );
    // A qualified path that ends in `str` counts as a string.
    let qualified = TypeExpr::Path {
        text: "core::primitive::str".to_string(),
        ident: None,
        last_segment: Some("str".to_string()),
    };
    assert_eq!(analyze_param_type(&reference(false, qualified)), ParamConversion::StrToPtrLen);
}

#[test]
fn rust_type_from_str() {
    assert_eq!(RustType::from_str(" u8 "), RustType::U8);
    assert_eq!(RustType::from_str("u16"), RustType::U16);
    assert_eq!(RustType::from_str("i8"), RustType::I8);
    assert_eq!(RustType::from_str("i16"), RustType::I16);
    assert_eq!(RustType::from_str("i32"), RustType::I32);
    assert_eq!(RustType::from_str("i64"), RustType::I64);
    assert_eq!(RustType::from_str("isize"), RustType::Isize);
    assert_eq!(RustType::from_str("f32"), RustType::F32);
    assert_eq!(RustType::from_str("f64"), RustType::F64);
    assert_eq!(RustType::from_str("bool"), RustType::Bool);
    assert_eq!(RustType::from_str("()"), RustType::Void);
    assert_eq!(RustType::from_str(""), RustType::Void);
    assert_eq!(RustType::from_str("*mut u8"), RustType::Ptr);
    assert_eq!(RustType::from_str("*const Foo"), RustType::Ptr);
    assert_eq!(RustType::from_str(" Vec<u8> "), RustType::Unknown("Vec<u8>".to_string()));
}

#[test]
fn typescript_types() {
    for ty in [RustType::U8, RustType::U16, RustType::I8, RustType::I16, RustType::I32] {
        assert_eq!(ty.to_typescript(true), "number");
        assert!(!ty.needs_bigint(true));
    }
    assert_eq!(RustType::F32.to_typescript(true), "number");
    assert_eq!(RustType::F64.to_typescript(false), "number");
    assert_eq!(RustType::I64.to_typescript(false), "bigint");
    assert_eq!(RustType::Isize.to_typescript(true), "bigint");
    assert_eq!(RustType::Isize.to_typescript(false), "number");
    assert_eq!(RustType::Bool.to_typescript(false), "boolean");
    assert_eq!(RustType::Ptr.to_typescript(true), "number");
    assert_eq!(RustType::Void.to_typescript(false), "void");
    assert_eq!(RustType::Unknown("X".to_string()).to_typescript(false), "unknown");
    assert!(RustType::U64.needs_bigint(false));
    assert!(RustType::I64.needs_bigint(false));
    assert!(RustType::Usize.needs_bigint(true));
    assert!(!RustType::Usize.needs_bigint(false));
    assert!(!RustType::Ptr.needs_bigint(true));
}

#[test]
fn signature_parse_rejects() {
    assert!(FunctionSignature::parse("struct X;").is_none());
    assert!(FunctionSignature::parse("fn no_parens").is_none());
    assert!(FunctionSignature::parse("fn (a: u8)").is_none());
    assert!(FunctionSignature::parse("fn bad-name()").is_none());
    assert!(FunctionSignature::parse("fn open(a: u8").is_none());
    assert!(FunctionSignature::parse("#[unclosed fn f()").is_none());
    assert!(FunctionSignature::parse("").is_none());
}

#[test]
fn signature_parse_details() {
    let sig = FunctionSignature::parse(
        "  #[a] #[b(c = \"]\")]  fn  mix ( p: *mut u8 , n : u64, odd, ) -> i64 ;",
    )
    .unwrap();
    assert_eq!(sig.name, "mix");
    assert_eq!(
        sig.params,
        vec![("p".to_string(), RustType::Ptr), ("n".to_string(), RustType::U64)]
    );
    assert_eq!(sig.return_type, RustType::I64);
    assert!(sig.doc.is_none());
}

#[test]
fn strip_attributes_and_params() {
    assert_eq!(FunctionSignature::strip_attributes(" #[a(b[c])] #[d] fn f() "), "fn f()");
    assert_eq!(FunctionSignature::strip_attributes("#[open fn f()"), "#[open fn f()");
    assert_eq!(FunctionSignature::strip_attributes("# fn f()"), "# fn f()");
    assert_eq!(FunctionSignature::strip_attributes("#[a = \"\\\"]\"] x"), "x");
    assert!(FunctionSignature::parse_params("  ").is_empty());
    assert_eq!(
        FunctionSignature::parse_params("a: u8, b: Foo"),
        vec![("a".to_string(), RustType::U8), ("b".to_string(), RustType::Unknown("Foo".to_string()))]
    );
}

fn generator(is_wasm64: bool) -> TsGenerator {
    let decls = vec![
        "fn get_size() -> usize".to_string(),
        "not a function".to_string(),
        "fn write(offset: usize, value: u8)".to_string(),
        "fn seek(pos: u64, flag: bool) -> u64".to_string(),
    ];
    TsGenerator::from_declarations(
        &decls,
        TsConfig { is_wasm64, module_name: "m".to_string(), es_module: true },
    )
}

#[test]
fn ts_config_default() {
    let config = TsConfig::default();
    assert!(!config.is_wasm64);
    assert_eq!(config.module_name, "autozig");
    assert!(config.es_module);
}

#[test]
fn generator_from_declarations_skips_what_does_not_parse() {
    let g = generator(false);
    assert_eq!(g.functions.len(), 3);
    assert_eq!(g.functions[2].name, "seek");
    let g = TsGenerator::new(vec![], TsConfig::default());
    assert!(g.functions.is_empty());
}

#[test]
fn dts_text_is_exact() {
    let mut g = generator(true);
    g.functions[0].doc = Some("Size of memory".to_string());
    assert_eq!(
        g.generate_dts(),
        "/* Auto-generated by AutoZig - Do not edit */\n/* eslint-disable */\n\nexport interface WasmExports {\n  /** Size of memory */\n  get_size(): bigint;\n  write(offset: bigint, value: number): void;\n  seek(pos: bigint, flag: boolean): bigint;\n}\n\nexport interface AutoZigWasm {\n  exports: WasmExports;\n  memory: WebAssembly.Memory;\n  instance: WebAssembly.Instance;\n}\n\n/** Load WASM module from URL */\nexport function loadWasm(path: string): Promise<AutoZigWasm>;\n\n/** Load WASM module from ArrayBuffer */\nexport function loadWasmSync(buffer: ArrayBuffer): Promise<AutoZigWasm>;\n"
    );
    let g = generator(false);
    assert!(g.generate_dts().contains("  write(offset: number, value: number): void;\n"));
}

#[test]
fn js_loader_entries() {
    let js = generator(false).generate_js_loader();
    assert!(js.starts_with("/* Auto-generated by AutoZig - Do not edit */\n\n/**\n * Load WASM module from URL\n"));
    assert!(js.ends_with("function wrapExports(raw) {\n  return {\n    get_size: raw.get_size,\n    write: raw.write,\n    seek: (pos, flag) => raw.seek(BigInt(pos), flag)\n  };\n}\n"));
    let js = generator(true).generate_js_loader();
    assert!(js.contains("    write: (offset, value) => raw.write(BigInt(offset), value),\n"));
    let empty = TsGenerator::new(vec![], TsConfig::default()).generate_js_loader();
    assert!(empty.ends_with("function wrapExports(raw) {\n  return {\n  };\n}\n"));
}
