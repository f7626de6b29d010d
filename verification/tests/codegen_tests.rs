use autozig::bridge::{bridge, render_bridges, BridgeKind};
use autozig::declare::{extract_zig_return_type, generate_trait_ffi_declarations};
use autozig::expand::{
    expand_monomorphization, resolve_all, resolve_types, substitute_generic_type,
    substitute_parsed_type, ExpandError,
};
use autozig::generate::{
    expand, expand_all, generate_async_ffi_and_wrapper, generate_enum_definitions,
    generate_ffi_declaration_from_sig, generate_ffi_declarations_for_include,
    generate_monomorphized_versions, generate_safe_wrappers_for_include,
    generate_single_ffi_declaration, generate_single_safe_wrapper, generate_struct_definitions,
    generate_with_monomorphization, generate_with_monomorphization_for_include,
    generate_wrapper_from_sig,
};
use autozig::idl::{AutoZigConfig, IncludeZigConfig, RustFunctionSignature};
use autozig::lowering::{
    is_slice_or_str_ref, lower_args, lower_param, lower_params, mangle, substitute,
    substitute_type_recursive, NativeType,
};
use autozig::macros::{autozig, include_zig};
use autozig::parser::parse_rust_definitions;
use autozig::syntax::{Output, Param, TypeExpr};
use autozig::traits::{
    generate_constructor, generate_drop_impl, generate_opaque_struct,
    generate_trait_impl_types, generate_trait_impl_types_for_include,
    generate_trait_implementations, generate_trait_implementations_for_include,
    handle_receiver_type, inject_self_pointer,
};

fn declared(text: &str) -> RustFunctionSignature {
    let (_, _, mut signatures, _) = parse_rust_definitions(text);
    assert_eq!(signatures.len(), 1, "{}", text);
    resolve_types(signatures.remove(0))
}

fn path(name: &str) -> TypeExpr {
    TypeExpr::Path {
        text: name.to_string(),
        ident: Some(name.to_string()),
        last_segment: Some(name.to_string()),
    }
}

fn slice_ref(mutable: bool, elem: TypeExpr) -> TypeExpr {
    TypeExpr::Reference {
        lifetime: None,
        mutable,
        elem: Box::new(TypeExpr::Slice { elem: Box::new(elem) }),
    }
}

fn typed(name: &str, ty: TypeExpr) -> Param {
    Param::Typed { pattern: name.to_string(), name: Some(name.to_string()), ty }
}

#[test]
fn slice_reference_gives_pointer_then_length() {
    for mutable in [false, true] {
        let native = lower_param(&typed("data", slice_ref(mutable, path("f32"))), true);
        assert_eq!(native.len(), 2);
        assert_eq!(native[0].name, "data_ptr");
        match &native[0].ty {
            NativeType::Pointer { mutable: m, pointee } => {
                assert_eq!(*m, mutable);
                assert_eq!(pointee, "f32");
            },
            other => panic!("unexpected type {:?}", other),
        }
        assert_eq!(native[1].name, "data_len");
        assert!(matches!(native[1].ty, NativeType::Length));
    }
    let text = TypeExpr::Reference { lifetime: None, mutable: false, elem: Box::new(path("str")) };
    let native = lower_param(&typed("s", text), false);
    assert_eq!(native.len(), 2);
    match &native[0].ty {
        NativeType::Pointer { mutable, pointee } => {
            assert!(!*mutable);
            assert_eq!(pointee, "u8");
        },
        other => panic!("unexpected type {:?}", other),
    }
}

#[test]
fn other_parameters_pass_through() {
    let native = lower_param(&typed("n", path("usize")), true);
    assert_eq!(native.len(), 1);
    assert_eq!(native[0].name, "n");
    assert!(matches!(&native[0].ty, NativeType::Value { text } if text == "usize"));
    // A reference to anything else is no slice.
    let plain = TypeExpr::Reference { lifetime: None, mutable: true, elem: Box::new(path("Vec3")) };
    assert!(is_slice_or_str_ref(&plain).is_none());
    assert_eq!(lower_param(&typed("v", plain), true).len(), 1);
    assert!(is_slice_or_str_ref(&TypeExpr::Slice { elem: Box::new(path("u8")) }).is_none());
    let receiver = Param::Receiver { text: "& self".to_string(), mutable: false };
    assert!(lower_param(&receiver, true).is_empty());
    // Without a plain name a parameter cannot be lowered.
    let unnamed = Param::Typed {
        pattern: "(a, b)".to_string(),
        name: None,
        ty: slice_ref(false, path("u8")),
    };
    assert!(lower_param(&unnamed, false).is_empty());
    let unnamed_value =
        Param::Typed { pattern: "(a, b)".to_string(), name: None, ty: path("Pair") };
    assert!(lower_param(&unnamed_value, true).is_empty());
    assert_eq!(lower_param(&unnamed_value, false).len(), 1);
}

#[test]
fn lowered_lists() {
    let inputs = vec![
        Param::Receiver { text: "& mut self".to_string(), mutable: true },
        typed("buf", slice_ref(true, path("u8"))),
        typed("n", path("usize")),
    ];
    let names: Vec<String> = lower_params(&inputs, true).into_iter().map(|p| p.name).collect();
    assert_eq!(names, vec!["buf_ptr", "buf_len", "n"]);
    assert_eq!(lower_args(&inputs), vec!["buf.as_mut_ptr()", "buf.len()", "n"]);
    let shared = vec![typed("buf", slice_ref(false, path("u8"))), typed("n", path("usize"))];
    assert_eq!(lower_args(&shared), vec!["buf.as_ptr()", "buf.len()", "n"]);
    assert!(lower_params(&vec![], true).is_empty());
}

#[test]
fn plain_function_text_is_exact() {
    let f = declared("fn fill(buf: &mut [u8], label: &str, n: usize) -> usize;");
    assert_eq!(
        generate_single_ffi_declaration(&f),
        "extern \"C\" {\n    pub fn fill(buf_ptr: *mut u8, buf_len: usize, label_ptr: *const u8, label_len: usize, n: usize) -> usize;\n}\n"
    );
    assert_eq!(
        generate_single_safe_wrapper(&f, "ffi"),
        "pub fn fill(buf: &mut [u8], label: &str, n: usize) -> usize {\n    unsafe { ffi::fill(buf.as_mut_ptr(), buf.len(), label.as_ptr(), label.len(), n) }\n}\n"
    );
    let g = declared("fn ping();");
    assert_eq!(generate_single_ffi_declaration(&g), "extern \"C\" {\n    pub fn ping();\n}\n");
    assert_eq!(
        generate_single_safe_wrapper(&g, "m"),
        "pub fn ping() {\n    unsafe { m::ping() }\n}\n"
    );
}

#[test]
fn async_function_text_is_exact() {
    let f = declared("async fn compute(data: &[u8], n: usize) -> u32;");
    assert!(f.is_async);
    let (declaration, wrapper) = generate_async_ffi_and_wrapper(&f, "ffi");
    assert_eq!(
        declaration,
        "extern \"C\" {\n    pub fn compute(data_ptr: *const u8, data_len: usize, n: usize) -> u32;\n}\n"
    );
    assert_eq!(
        wrapper,
        "/// Async wrapper: the synchronous Zig call runs on the pool of\n/// blocking workers, so that the caller is never blocked.\npub async fn compute(data: &[u8], n: usize) -> u32 {\n    let data = data.to_vec();\n    tokio::task::spawn_blocking(move || unsafe { ffi::compute(data.as_ptr(), data.len(), n) })\n        .await\n        .expect(\"Zig task panicked or was cancelled\")\n}\n"
    );
    let bridges = expand(&f).unwrap();
    assert_eq!(bridges.len(), 1);
    assert_eq!(bridges[0].kind, BridgeKind::Async);
    assert_eq!(bridges[0].captures.len(), 1);
    assert_eq!(bridges[0].captures[0].name, "data");
    assert!(!bridges[0].captures[0].mutable);
}

#[test]
fn async_function_copies_a_mutable_slice_mutably() {
    let f = declared("async fn fill(buf: &mut [u8], label: &str) -> usize;");
    let (declaration, wrapper) = generate_async_ffi_and_wrapper(&f, "ffi");
    assert_eq!(
        declaration,
        "extern \"C\" {\n    pub fn fill(buf_ptr: *mut u8, buf_len: usize, label_ptr: *const u8, label_len: usize) -> usize;\n}\n"
    );
    assert_eq!(
        wrapper,
        "/// Async wrapper: the synchronous Zig call runs on the pool of\n/// blocking workers, so that the caller is never blocked.\npub async fn fill(buf: &mut [u8], label: &str) -> usize {\n    let mut buf = buf.to_vec();\n    let label = label.to_vec();\n    tokio::task::spawn_blocking(move || unsafe { ffi::fill(buf.as_mut_ptr(), buf.len(), label.as_ptr(), label.len()) })\n        .await\n        .expect(\"Zig task panicked or was cancelled\")\n}\n"
    );
    let bridges = expand(&f).unwrap();
    assert_eq!(bridges[0].call_args, vec!["buf.as_mut_ptr()", "buf.len()", "label.as_ptr()", "label.len()"]);
    let captures: Vec<(&str, bool)> =
        bridges[0].captures.iter().map(|c| (c.name.as_str(), c.mutable)).collect();
    assert_eq!(captures, vec![("buf", true), ("label", false)]);
}

#[test]
fn generic_sum_expands_for_each_type() {
    let f = declared("#[monomorphize(int32, float64)] fn sum<T>(data: &[T]) -> T;");
    let bridges = expand_monomorphization(&f).unwrap();
    assert_eq!(bridges.len(), 2);
    assert_eq!(bridges[0].symbol, "sum_int32");
    assert_eq!(bridges[1].symbol, "sum_float64");
    assert_eq!(
        bridges[0].declaration(),
        "extern \"C\" {\n    pub fn sum_int32(data_ptr: *const int32, data_len: usize) -> int32;\n}\n"
    );
    assert_eq!(
        bridges[1].declaration(),
        "extern \"C\" {\n    pub fn sum_float64(data_ptr: *const float64, data_len: usize) -> float64;\n}\n"
    );
    assert_eq!(
        bridges[1].wrapper("ffi"),
        "/// Monomorphized wrapper (generated by autozig)\npub fn sum_float64(data: &[float64]) -> float64 {\n    unsafe { ffi::sum_float64(data.as_ptr(), data.len()) }\n}\n"
    );
    let (declarations, wrappers) = generate_monomorphized_versions(&f, "ffi").unwrap();
    assert_eq!(declarations.matches("pub fn sum_").count(), 2);
    assert_eq!(wrappers.matches("pub fn sum_").count(), 2);
    assert!(expand(&f).is_ok());
}

#[test]
fn expansion_counts_and_names() {
    let f = declared("#[monomorphize(u8, u16, u32, std::ffi::c_int)] fn f<T>(x: T) -> T;");
    let bridges = expand_monomorphization(&f).unwrap();
    let symbols: Vec<&str> = bridges.iter().map(|b| b.symbol.as_str()).collect();
    assert_eq!(symbols, vec!["f_u8", "f_u16", "f_u32", "f_std___ffi___c_int"]);
    for (i, a) in symbols.iter().enumerate() {
        for b in &symbols[i + 1..] {
            assert_ne!(a, b);
        }
    }
}

#[test]
fn duplicate_type_is_rejected() {
    let f = declared("#[monomorphize(i32, f64, i32)] fn f<T>(x: T) -> T;");
    let err = expand_monomorphization(&f).unwrap_err();
    match &err {
        ExpandError::DuplicateSymbol { symbol } => assert_eq!(symbol, "f_i32"),
        other => panic!("unexpected error {:?}", other),
    }
    assert_eq!(err.message(), "Duplicate monomorphized symbol: f_i32");
    assert!(expand(&f).is_err());
    assert!(generate_monomorphized_versions(&f, "ffi").is_err());
    // Two types that give one symbol cannot both stand.
    let mut g = declared("#[monomorphize(u8)] fn g<T>(x: T);");
    g.monomorphize_types = vec!["a::b".to_string(), "a_b".to_string()];
    let g = resolve_types(g);
    assert!(matches!(
        expand_monomorphization(&g),
        Err(ExpandError::DuplicateSymbol { .. })
    ));
}

#[test]
fn unparsable_type_is_rejected() {
    let f = declared("#[monomorphize(i32, +)] fn f<T>(x: T) -> T;");
    let err = expand_monomorphization(&f).unwrap_err();
    match &err {
        ExpandError::InvalidType { text } => assert_eq!(text, "+"),
        other => panic!("unexpected error {:?}", other),
    }
    assert_eq!(err.message(), "Invalid type: +");
    assert!(matches!(
        substitute_generic_type(&f.sig, "not a type"),
        Err(ExpandError::InvalidType { .. })
    ));
}

#[test]
fn mangling() {
    assert_eq!(mangle("process", "i32"), "process_i32");
    assert_eq!(mangle("process", "std::ffi::c_int"), "process_std_ffi_c_int");
    assert_eq!(mangle("f", "Vec<u8>"), "f_Vec_u8_");
    assert_eq!(mangle("f", "&[u8]"), "f___u8_");
    assert_eq!(mangle("f", ""), "f_");
}

#[test]
fn substitution_reaches_inside() {
    let nested = TypeExpr::Reference {
        lifetime: None,
        mutable: false,
        elem: Box::new(TypeExpr::Slice {
            elem: Box::new(TypeExpr::Reference {
                lifetime: None,
                mutable: true,
                elem: Box::new(path("T")),
            }),
        }),
    };
    let concrete = path("f64");
    assert_eq!(substitute_type_recursive(&nested, "T", &concrete).render(), "&[&mut f64]");
    assert_eq!(substitute_type_recursive(&path("U"), "T", &concrete).render(), "U");
    let other = TypeExpr::Other { text: "(T, T)".to_string() };
    assert_eq!(substitute_type_recursive(&other, "T", &concrete).render(), "(T, T)");
    // Only the bare name is the parameter.
    let qualified = TypeExpr::Path {
        text: "m::T".to_string(),
        ident: None,
        last_segment: Some("T".to_string()),
    };
    assert_eq!(substitute_type_recursive(&qualified, "T", &concrete).render(), "m::T");

    let f = declared("fn f<T>(a: &[T], b: T, c: u8) -> T;");
    let mono = substitute(&f.sig, &concrete);
    assert!(mono.generics.is_empty());
    assert_eq!(autozig::syntax::render_inputs(&mono.inputs), "a: &[f64], b: f64, c: u8");
    assert_eq!(mono.output.render(), "-> f64");
    // Where the first generic parameter is no type, nothing changes.
    let g = declared("fn g<'a, T>(a: &'a T) -> T;");
    let same = substitute(&g.sig, &concrete);
    assert_eq!(same.generics.len(), 2);
    assert_eq!(same.output.render(), "-> T");
    let parsed = substitute_generic_type(&f.sig, "&[u8]").unwrap();
    assert_eq!(autozig::syntax::render_inputs(&parsed.inputs), "a: &[&[u8]], b: &[u8], c: u8");
}

#[test]
fn bindings_of_a_block() {
    let config = AutoZigConfig::parse(
        "export fn add(a: i32, b: i32) i32 { return a + b; } --- fn add(a: i32, b: i32) -> i32; #[monomorphize(u8, u16)] fn id<T>(x: T) -> T; async fn slow(n: u64) -> u64;",
    );
    assert_eq!(config.rust_signatures.len(), 3);
    let bridges = expand_all(&config.rust_signatures).unwrap();
    let symbols: Vec<&str> = bridges.iter().map(|b| b.symbol.as_str()).collect();
    assert_eq!(symbols, vec!["add", "id_u8", "id_u16", "slow"]);
    let (declarations, wrappers) = generate_with_monomorphization(&config).unwrap();
    assert_eq!(render_bridges(&bridges, "ffi"), (declarations.clone(), wrappers.clone()));
    assert_eq!(declarations.matches("extern \"C\"").count(), 4);
    assert!(wrappers.contains("pub async fn slow(n: u64) -> u64 {"));
    assert!(wrappers.contains("unsafe { ffi::id_u16(x) }"));

    let text = autozig(&config).unwrap();
    assert!(text.starts_with("mod ffi {\n    use super::*;\nextern \"C\" {\n    pub fn add(a: i32, b: i32) -> i32;\n}\n"));
    assert!(text.ends_with(&wrappers));
}

#[test]
fn block_without_declarations_is_an_error() {
    let config = AutoZigConfig::parse("export fn add(a: i32, b: i32) i32 { return a + b; }");
    let err = autozig(&config).unwrap_err();
    assert!(matches!(err, ExpandError::NothingToBridge));
    assert_eq!(
        err.message(),
        "autozig! macro requires Rust function signatures after --- separator"
    );
    let config = IncludeZigConfig::parse("a.zig", None);
    let err = include_zig(&config).unwrap_err();
    assert!(matches!(err, ExpandError::NothingToInclude));
    assert_eq!(err.message(), "include_zig! macro requires Rust function signatures");
    // An error in a request comes through.
    let config = AutoZigConfig::parse("--- #[monomorphize(u8, u8)] fn f<T>(x: T);");
    assert!(matches!(autozig(&config), Err(ExpandError::DuplicateSymbol { .. })));
}

#[test]
fn include_expansion() {
    let config = IncludeZigConfig::parse(
        "zig/\"odd\".zig",
        Some("{ #[repr(C)] struct P { x: f32 } fn norm(p: P) -> f32; #[monomorphize(u8)] fn id<T>(x: T) -> T; }"),
    );
    let text = include_zig(&config).unwrap();
    assert!(text.starts_with("#[doc = \"// @autozig:include:zig/\\\"odd\\\".zig\"]\n"));
    assert!(text.contains("mod ffi_zig_\"odd\" {\n    use super::*;\nextern \"C\" {\n    pub fn norm(p: P) -> f32;\n}\n"));
    assert!(text.contains("unsafe { ffi_zig_\"odd\"::norm(p) }"));
    assert!(text.contains("pub fn id_u8(x: u8) -> u8 {"));
    let (declarations, wrappers) = generate_with_monomorphization_for_include(&config).unwrap();
    assert!(text.contains(&declarations));
    assert!(text.ends_with(&wrappers));
    // Taken as plain functions, generic ones keep their name.
    assert!(generate_ffi_declarations_for_include(&config).contains("pub fn id(x: T) -> T;"));
    assert!(generate_safe_wrappers_for_include(&config).contains("unsafe { ffi_zig_\"odd\"::id(x) }"));
}

#[test]
fn named_bridges() {
    let f = declared("fn f(a: &[u8]);");
    assert_eq!(
        generate_ffi_declaration_from_sig("g", &f.sig),
        "extern \"C\" {\n    pub fn g(a_ptr: *const u8, a_len: usize);\n}\n"
    );
    assert_eq!(
        generate_wrapper_from_sig("g", &f.sig, "m"),
        "/// Monomorphized wrapper (generated by autozig)\npub fn g(a: &[u8]) {\n    unsafe { m::g(a.as_ptr(), a.len()) }\n}\n"
    );
    let b = bridge("h", &f.sig, BridgeKind::Plain);
    assert_eq!(b.symbol, "h");
    assert_eq!(b.wrapper_inputs, "a: &[u8]");
    assert_eq!(b.output, "");
    assert_eq!(b.call_args, vec!["a.as_ptr()", "a.len()"]);
    assert!(b.captures.is_empty());
}

fn handle_config() -> AutoZigConfig {
    AutoZigConfig::parse(
        r#"
        export fn counter_new(start: u32) ?*Counter { return null; }
        export fn counter_free(ptr: *Counter) void {}
        export fn counter_bump(ptr: *Counter, by: u32) u32 { return by; }
        export fn counter_get(ptr: *const Counter) u64 { return 0; }
        export fn zig_add(a: i32, b: i32) i32 { return a + b; }
        ---
        struct Counter(opaque);
        struct Calc;
        impl Counter {
            #[constructor]
            fn new(start: u32) -> Self { counter_new(start) }
            #[destructor]
            fn destroy(&mut self) { counter_free(self.inner) }
        }
        impl Count for Counter {
            fn bump(&mut self, by: u32) -> u32 { counter_bump(self, by) }
            fn get(&self) -> u32 { counter_get(self) }
            fn feed(&mut self, data: &[u8]) { counter_feed(self, data) }
        }
        impl Calculator for Calc {
            fn add(&self, a: i32, b: i32) -> i32 { zig_add(a, b) }
        }
        "#,
    )
}

#[test]
fn opaque_constructor_refuses_null() {
    let config = handle_config();
    let constructor = config.rust_trait_impls[0].constructor.as_ref().unwrap();
    assert_eq!(
        generate_constructor("Counter", constructor, "ffi"),
        "impl Counter {\n    pub fn new(start: u32) -> Self {\n        unsafe {\n            let ptr = ffi::counter_new(start);\n            std::ptr::NonNull::new(ptr as *mut std::ffi::c_void)\n                .map(|inner| Self { inner, _marker: std::marker::PhantomData })\n                .expect(\"Zig allocation failed (OOM)\")\n        }\n    }\n}\n"
    );
    let destructor = config.rust_trait_impls[0].destructor.as_ref().unwrap();
    assert_eq!(
        generate_drop_impl("Counter", destructor, "ffi"),
        "impl Drop for Counter {\n    fn drop(&mut self) {\n        unsafe {\n            ffi::counter_free(self.inner.as_ptr());\n        }\n    }\n}\n"
    );
}

#[test]
fn opaque_struct_text_is_exact() {
    assert_eq!(
        generate_opaque_struct("Counter"),
        "pub struct Counter {\n    inner: std::ptr::NonNull<std::ffi::c_void>,\n    _marker: std::marker::PhantomData<*mut ()>,\n}\nimpl Default for Counter {\n    fn default() -> Self {\n        Self::new()\n    }\n}\n"
    );
}

#[test]
fn impl_types_once_for_each_target() {
    let config = handle_config();
    assert_eq!(config.rust_trait_impls.len(), 3);
    let types = generate_trait_impl_types(&config);
    assert_eq!(types.matches("pub struct Counter {").count(), 1);
    assert!(types.ends_with("#[derive(Default, Debug, Clone, Copy)]\npub struct Calc;\n"));
    assert!(config.rust_structs.is_empty());
    assert_eq!(generate_struct_definitions(&config), "");
    assert_eq!(generate_enum_definitions(&config), "");
}

#[test]
fn handle_pointer_is_injected() {
    let config = handle_config();
    let count = &config.rust_trait_impls[1];
    assert!(count.is_opaque);
    assert_eq!(inject_self_pointer(&count.methods[0].sig), "self.inner.as_ptr()");
    assert_eq!(
        inject_self_pointer(&count.methods[1].sig),
        "self.inner.as_ptr() as *const std::ffi::c_void"
    );
    assert_eq!(handle_receiver_type(&count.methods[0].sig), "self_ptr: *mut std::ffi::c_void");
    assert_eq!(handle_receiver_type(&count.methods[1].sig), "self_ptr: *const std::ffi::c_void");
    let free = declared("fn free_standing(a: u8);");
    assert_eq!(inject_self_pointer(&free.sig), "");
    assert_eq!(handle_receiver_type(&free.sig), "");

    let impls = generate_trait_implementations(&config);
    assert!(impls.contains("unsafe { ffi::counter_bump(self.inner.as_ptr(), by) }"));
    assert!(impls.contains(
        "unsafe { ffi::counter_get(self.inner.as_ptr() as *const std::ffi::c_void) }"
    ));
    assert!(impls.contains(
        "unsafe { ffi::counter_feed(self.inner.as_ptr(), data.as_ptr(), data.len()) }"
    ));
    assert!(impls.contains("impl Count for Counter {\n"));
    assert!(impls.contains("impl Calculator for Calc {\n"));
    // The stateless target keeps the body it was written with.
    assert!(!impls.contains("ffi::zig_add"));
    assert!(impls.starts_with("impl Counter {\n    pub fn new(start: u32) -> Self {"));
}

#[test]
fn trait_declarations() {
    let config = handle_config();
    let declarations = generate_trait_ffi_declarations(&config);
    assert!(declarations.starts_with(
        "extern \"C\" {\n    pub fn counter_new(start: u32) -> *mut std::ffi::c_void;\n}\nextern \"C\" {\n    pub fn counter_free(ptr: *mut std::ffi::c_void);\n}\n"
    ));
    assert!(declarations.contains(
        "    pub fn counter_bump(self_ptr: *mut std::ffi::c_void, by: u32) -> u32;\n"
    ));
    // The Zig code declares `u64`, which goes before the method's `u32`.
    assert!(declarations
        .contains("    pub fn counter_get(self_ptr: *const std::ffi::c_void) -> u64;\n"));
    // Zig code that does not declare the function: the method's own type.
    assert!(declarations.contains(
        "    pub fn counter_feed(self_ptr: *mut std::ffi::c_void, data_ptr: *const u8, data_len: usize);\n"
    ));
    assert!(declarations.ends_with("extern \"C\" {\n    pub fn zig_add(a: i32, b: i32) -> i32;\n}\n"));
}

#[test]
fn zig_return_types() {
    let code = "export fn a(x: i32) i32 { } export fn\nb() void { } export fn c(f: fn(u8) u8) Vec3 { } export fn d() bool";
    assert!(matches!(extract_zig_return_type(code, "a"), Some(Output::Type(_))));
    assert_eq!(extract_zig_return_type(code, "a").unwrap().render(), "-> i32");
    assert!(matches!(extract_zig_return_type(code, "b"), Some(Output::Default)));
    assert!(extract_zig_return_type(code, "c").is_none());
    assert!(extract_zig_return_type(code, "d").is_none());
    assert!(extract_zig_return_type(code, "missing").is_none());
    for ty in ["u32", "i64", "u64", "f32", "f64", "bool"] {
        let code = format!("export fn f() {} {{ }}", ty);
        assert_eq!(extract_zig_return_type(&code, "f").unwrap().render(), format!("-> {}", ty));
    }
    assert!(extract_zig_return_type("export fn f() u8 { }", "f").is_none());
    // A parameter list that does not close declares no type.
    assert!(extract_zig_return_type("export fn f(xi32{", "f").is_none());
    assert!(extract_zig_return_type("export fn f(x: i32 i32 { }", "f").is_none());
    // The name is read whole: `add` is not found in `add_all`.
    let code = "export fn add_all(xs: [*]const i32, n: usize) i64 { }";
    assert!(extract_zig_return_type(code, "add").is_none());
    assert_eq!(extract_zig_return_type(code, "add_all").unwrap().render(), "-> i64");
    let code = "export fn add_all(n: usize) i64 { }\nexport fn add (a: i32) i32 { }";
    assert_eq!(extract_zig_return_type(code, "add").unwrap().render(), "-> i32");
    assert_eq!(extract_zig_return_type("export fn\nf(g: fn (u8) u8) bool { }", "f").unwrap().render(), "-> bool");
    assert!(extract_zig_return_type("export fn  f() bool { }", "f").is_none());
    assert!(extract_zig_return_type("", "").is_none());
}

#[test]
fn include_impls() {
    let config = IncludeZigConfig::parse(
        "calc.zig",
        Some("struct Calc; impl Calculator for Calc { fn add(&self, a: i32, xs: &mut [i32]) -> i32 { zig_add(a, xs) } }"),
    );
    assert_eq!(
        generate_trait_impl_types_for_include(&config),
        "#[derive(Default, Debug, Clone, Copy)]\npub struct Calc;\n"
    );
    let impls = generate_trait_implementations_for_include(&config);
    assert!(impls.starts_with("impl Calculator for Calc {\n    fn add("));
    assert!(impls.contains(") -> i32 {\n        unsafe { ffi_calc::zig_add(a, xs.as_mut_ptr(), xs.len()) }\n    }\n"));
    assert!(impls.ends_with("}\n"));
}

#[test]
fn invalid_type_goes_before_duplicates() {
    let f = declared("#[monomorphize(i32, i32, +)] fn f<T>(x: T) -> T;");
    assert!(matches!(
        expand_monomorphization(&f),
        Err(ExpandError::InvalidType { text }) if text == "+"
    ));
    // Of several invalid types the first is named.
    let g = declared("#[monomorphize(+, i32, -)] fn g<T>(x: T) -> T;");
    assert!(matches!(
        expand_monomorphization(&g),
        Err(ExpandError::InvalidType { text }) if text == "+"
    ));
}

#[test]
fn first_error_of_a_block_comes_through() {
    let config = AutoZigConfig::parse(
        "--- fn ok(a: u8); #[monomorphize(u8, u8)] fn twice<T>(x: T); #[monomorphize(+)] fn bad<T>(x: T);",
    );
    assert_eq!(config.rust_signatures.len(), 3);
    assert!(matches!(
        expand_all(&config.rust_signatures),
        Err(ExpandError::DuplicateSymbol { symbol }) if symbol == "twice_u8"
    ));
    assert!(matches!(
        generate_with_monomorphization(&config),
        Err(ExpandError::DuplicateSymbol { .. })
    ));
}

#[test]
fn generic_without_request_is_plain() {
    // Without requested types a generic function is declared as it stands.
    let f = declared("fn id<T>(x: T) -> T;");
    let bridges = expand(&f).unwrap();
    assert_eq!(bridges.len(), 1);
    assert_eq!(bridges[0].symbol, "id");
    assert_eq!(bridges[0].kind, BridgeKind::Plain);
    // A request on a function that is not generic counts for nothing.
    let g = declared("#[monomorphize(u8)] fn plain(x: u8) -> u8;");
    let bridges = expand(&g).unwrap();
    assert_eq!(bridges.len(), 1);
    assert_eq!(bridges[0].symbol, "plain");
}

#[test]
fn mangle_keeps_letters_of_any_script() {
    // A letter beyond ASCII stays; a sign that is no letter becomes `_`.
    assert_eq!(mangle("f", "Gr\u{f6}\u{df}e"), "f_Gr\u{f6}\u{df}e");
    assert_eq!(mangle("f", "a\u{d7}b"), "f_a_b");
    assert_eq!(mangle("f", "a-b.c"), "f_a_b_c");
}

#[test]
fn concrete_types_are_resolved_before_expansion() {
    let (_, _, mut signatures, _) =
        parse_rust_definitions("#[monomorphize(u8, +)] fn f<T>(x: &[T]) -> T; fn g();");
    assert_eq!(signatures.len(), 2);
    // As parsed, no concrete type is resolved: the first is refused.
    assert!(signatures[0].concrete_types.is_empty());
    assert!(matches!(
        expand_monomorphization(&signatures[0]),
        Err(ExpandError::InvalidType { text }) if text == "u8"
    ));
    let resolved = resolve_all(std::mem::take(&mut signatures));
    assert_eq!(resolved.len(), 2);
    assert_eq!(resolved[0].sig.name, "f");
    assert_eq!(resolved[1].sig.name, "g");
    assert_eq!(resolved[0].monomorphize_types, vec!["u8", "+"]);
    assert_eq!(resolved[0].concrete_types.len(), 2);
    assert!(matches!(&resolved[0].concrete_types[0], Some(TypeExpr::Path { text, .. }) if text == "u8"));
    assert!(resolved[0].concrete_types[1].is_none());
    assert!(resolved[1].concrete_types.is_empty());
    assert!(matches!(
        expand_monomorphization(&resolved[0]),
        Err(ExpandError::InvalidType { text }) if text == "+"
    ));

    // The expansion goes by what is handed in, not by the text.
    let mut f = resolve_types(declared("#[monomorphize(u8)] fn f<T>(x: &[T]) -> T;"));
    f.concrete_types = vec![Some(path("i64"))];
    let bridges = expand_monomorphization(&f).unwrap();
    assert_eq!(bridges[0].symbol, "f_u8");
    assert_eq!(
        bridges[0].declaration(),
        "extern \"C\" {\n    pub fn f_u8(x_ptr: *const i64, x_len: usize) -> i64;\n}\n"
    );
}

#[test]
fn substitute_parsed_type_goes_by_the_parsed_value() {
    let f = declared("fn f<T>(x: T) -> T;");
    let s = substitute_parsed_type(&f.sig, "u8", &Some(path("u8"))).unwrap();
    assert_eq!(generate_ffi_declaration_from_sig("f", &s), "extern \"C\" {\n    pub fn f(x: u8) -> u8;\n}\n");
    assert!(matches!(
        substitute_parsed_type(&f.sig, "??", &None),
        Err(ExpandError::InvalidType { text }) if text == "??"
    ));
}
