use autozig::idl::{AutoZigConfig, IncludeZigConfig};
use autozig::parser::{
    collect_definitions, extract_monomorphize_types, has_attribute, is_opaque_struct,
    module_source, parse_function_signature, parse_inherent_impl, parse_rust_definitions,
    parse_trait_impl, reparse_verbatim, verbatim_function_source,
};
use autozig::syntax::{
    extract_zig_function_call, extract_zig_function_from_expr, extract_zig_function_from_stmt,
    Attr, AttrMeta, BodyExpr, BodyStmt, BoundDecl, Decl, EnumItem, Fields, FnItem, FnSignature,
    GenericDecl, ImplBlock, ImplEntry, ImplMethod, Output, Param, StructItem, TraitRef,
    TypeExpr,
};

fn tokens(text: &str) -> String {
    text.parse::<proc_macro2::TokenStream>().unwrap().to_string()
}

#[test]
fn test_parse_zig_only() {
    let input = tokens(
        r#"
            const std = @import("std");
            export fn add(a: i32, b: i32) i32 {
                return a + b;
            }
        "#,
    );

    let config = AutoZigConfig::parse(&input);
    assert!(!config.zig_code.is_empty());
    assert_eq!(config.rust_signatures.len(), 0);
}

#[test]
fn test_parse_with_separator() {
    let input = tokens(
        r#"
            const std = @import("std");
            export fn add(a: i32, b: i32) i32 {
                return a + b;
            }
            ---
            fn add(a: i32, b: i32) -> i32;
        "#,
    );

    let config = AutoZigConfig::parse(&input);
    assert!(!config.zig_code.is_empty());
    assert_eq!(config.rust_signatures.len(), 1);
}

#[test]
fn test_parse_generic_function() {
    let input = tokens(
        r#"
            export fn process_i32(ptr: [*]const i32, len: usize) usize {
                return len;
            }
            ---
            #[monomorphize(i32, f64)]
            fn process<T>(data: &[T]) -> usize;
        "#,
    );

    let config = AutoZigConfig::parse(&input);
    assert_eq!(config.rust_signatures.len(), 1);
    let sig = &config.rust_signatures[0];
    assert_eq!(sig.generic_params.len(), 1);
    assert_eq!(sig.generic_params[0].name, "T");
    assert_eq!(sig.monomorphize_types, vec!["i32", "f64"]);
}

#[test]
fn test_parse_async_function() {
    let input = tokens(
        r#"
            export fn async_compute(ptr: [*]const u8, len: usize) void {}
            ---
            async fn async_compute(data: &[u8]) -> Result<Vec<u8>, i32>;
        "#,
    );

    let config = AutoZigConfig::parse(&input);
    assert_eq!(config.rust_signatures.len(), 1);
    let sig = &config.rust_signatures[0];
    assert!(sig.is_async);
}

#[test]
fn config_sections() {
    let config = AutoZigConfig::parse("  zig code  ");
    assert_eq!(config.zig_code, "zig code");
    assert!(config.external_file.is_none());
    assert!(!config.has_rust_signatures());
    assert!(!config.is_external_mode());
    assert_eq!(config.get_mod_name(), "ffi");

    // Each spelling of the separator splits the tokens in two.
    for sep in ["---", "- - -", "-- -", "- --"] {
        let text = format!("zig {} fn a(); fn b();", sep);
        let config = AutoZigConfig::parse(&text);
        assert_eq!(config.zig_code, "zig", "{}", sep);
        let names: Vec<&str> = config.rust_signatures.iter().map(|s| s.sig.name.as_str()).collect();
        assert_eq!(names, vec!["a", "b"], "{}", sep);
    }
    // All that follows the first separator is the declaration half: a
    // second separator makes it no Rust, as it does for the scanner.
    let config = AutoZigConfig::parse("zig --- fn a(); --- fn b();");
    assert_eq!(config.zig_code, "zig");
    assert!(config.rust_signatures.is_empty());
}

#[test]
fn include_config() {
    let config = IncludeZigConfig::parse("zig/math.zig", Some("{ fn add(a: i32, b: i32) -> i32; }"));
    assert_eq!(config.file_path, "zig/math.zig");
    assert!(config.has_rust_signatures());
    assert_eq!(config.rust_signatures[0].sig.name, "add");
    assert_eq!(config.get_mod_name(), "ffi");
    assert_eq!(config.get_unique_mod_name(), "ffi_zig_math");

    let config = IncludeZigConfig::parse("a-b\\c.d.zig.zig", None);
    assert!(!config.has_rust_signatures());
    assert_eq!(config.get_unique_mod_name(), "ffi_a_b_c_d");
    assert_eq!(IncludeZigConfig::parse("", None).get_unique_mod_name(), "ffi_");
    assert_eq!(IncludeZigConfig::parse(".zig", None).get_unique_mod_name(), "ffi_");
}

#[test]
fn definitions_of_a_block() {
    let (enums, structs, signatures, impls) = parse_rust_definitions(
        r#"
        #[repr(C)]
        enum Color { Red, Green }
        #[repr(C)]
        struct Point { x: f32, y: f32 }
        struct Counter(opaque);
        struct Calc;
        fn dist(a: Point, b: Point) -> f32;
        extern "C" { fn raw(p: *const u8) -> u8; static X: u8; }
        use std::fmt;
        impl Counter {
            #[constructor]
            fn new(start: u32) -> Self { counter_new(start) }
            #[destructor]
            fn destroy(&mut self) { counter_free(self.inner) }
            fn helper(&self) -> u32 { not_collected(self) }
        }
        impl Count for Counter {
            fn bump(&mut self, by: u32) -> u32 { counter_bump(self, by) }
            fn constant(&self) -> u32 { 7 }
        }
        impl Calculator for Calc {
            fn add(&self, a: i32, b: i32) -> i32 { let r = zig_add(a, b); r }
        }
        "#,
    );
    assert_eq!(enums.len(), 1);
    assert_eq!(enums[0].item.name, "Color");
    assert!(enums[0].item.text.contains("Red"));
    // The opaque marker and the targets of impls are not emitted.
    assert_eq!(structs.len(), 1);
    assert_eq!(structs[0].item.name, "Point");
    let names: Vec<&str> = signatures.iter().map(|s| s.sig.name.as_str()).collect();
    assert_eq!(names, vec!["dist", "raw"]);

    assert_eq!(impls.len(), 3);
    let inherent = &impls[0];
    assert_eq!(inherent.trait_name, "");
    assert_eq!(inherent.target_type, "Counter");
    assert!(inherent.is_opaque);
    assert!(!inherent.is_zst);
    assert!(inherent.methods.is_empty());
    let constructor = inherent.constructor.as_ref().unwrap();
    assert_eq!(constructor.name, "new");
    assert_eq!(constructor.zig_function, "counter_new");
    assert!(constructor.is_constructor);
    let destructor = inherent.destructor.as_ref().unwrap();
    assert_eq!(destructor.zig_function, "counter_free");
    assert!(destructor.is_destructor);

    let count = &impls[1];
    assert_eq!(count.trait_name, "Count");
    assert_eq!(count.target_type, "Counter");
    assert!(count.is_opaque);
    assert!(!count.is_zst);
    // `constant` calls nothing and is left out.
    assert_eq!(count.methods.len(), 1);
    assert_eq!(count.methods[0].name, "bump");
    assert_eq!(count.methods[0].zig_function, "counter_bump");
    assert!(count.methods[0].body.is_some());
    assert!(count.methods[0].zig_return_type.is_none());

    let calc = &impls[2];
    assert_eq!(calc.trait_name, "Calculator");
    assert!(calc.is_zst);
    assert!(!calc.is_opaque);
    assert_eq!(calc.methods[0].zig_function, "zig_add");
}

#[test]
fn definitions_of_text_that_is_no_rust() {
    let (enums, structs, signatures, impls) = parse_rust_definitions("fn ( { ");
    assert!(enums.is_empty() && structs.is_empty() && signatures.is_empty() && impls.is_empty());
    let (_, _, signatures, _) = parse_rust_definitions("");
    assert!(signatures.is_empty());
}

#[test]
fn parsed_signature_shapes() {
    let (_, _, signatures, _) = parse_rust_definitions(
        "fn f<'a, T: Copy + 'a + std::fmt::Debug, U>(self_like: &'a mut [T], s: &str, (a, b): (u8, u8), n: usize) -> Option<U>;",
    );
    assert_eq!(signatures.len(), 1);
    let f = &signatures[0];
    assert!(!f.is_async);
    assert!(f.monomorphize_types.is_empty());
    assert_eq!(f.generic_params.len(), 2);
    assert_eq!(f.generic_params[0].name, "T");
    assert_eq!(f.generic_params[0].bounds, vec!["Copy", "Debug"]);
    assert_eq!(f.generic_params[1].name, "U");
    assert!(f.generic_params[1].bounds.is_empty());
    assert!(matches!(f.sig.generics[0], GenericDecl::Other));
    assert_eq!(f.sig.inputs.len(), 4);
    match &f.sig.inputs[0] {
        Param::Typed { name, ty, .. } => {
            assert_eq!(name.as_deref(), Some("self_like"));
            match ty {
                TypeExpr::Reference { lifetime, mutable, elem } => {
                    assert_eq!(lifetime.as_deref(), Some("'a"));
                    assert!(*mutable);
                    assert!(matches!(**elem, TypeExpr::Slice { .. }));
                },
                other => panic!("unexpected type {:?}", other),
            }
            assert_eq!(ty.render(), "&'a mut [T]");
        },
        other => panic!("unexpected parameter {:?}", other),
    }
    match &f.sig.inputs[2] {
        Param::Typed { name, ty, .. } => {
            assert!(name.is_none());
            assert!(matches!(ty, TypeExpr::Other { .. }));
        },
        other => panic!("unexpected parameter {:?}", other),
    }
    assert!(matches!(&f.sig.output, Output::Type(TypeExpr::Path { ident: None, .. })));
}

fn attr(name: &str, meta: AttrMeta) -> Attr {
    Attr { name: Some(name.to_string()), meta }
}

#[test]
fn attributes() {
    let attrs = vec![
        attr("inline", AttrMeta::Path),
        attr("constructor", AttrMeta::NameValue),
        attr("doc", AttrMeta::List { tokens: "hidden".to_string() }),
        attr("monomorphize", AttrMeta::Path),
        attr("monomorphize", AttrMeta::List { tokens: " i32 , , std :: ffi :: c_int,".to_string() }),
        attr("monomorphize", AttrMeta::List { tokens: "u8".to_string() }),
    ];
    assert!(has_attribute(&attrs, "inline"));
    // Only the bare marker counts.
    assert!(!has_attribute(&attrs, "constructor"));
    assert!(!has_attribute(&attrs, "doc"));
    assert!(!has_attribute(&[], "inline"));
    assert_eq!(extract_monomorphize_types(&attrs), vec!["i32", "std :: ffi :: c_int"]);
    assert!(extract_monomorphize_types(&attrs[..4]).is_empty());
}

fn opaque_type() -> TypeExpr {
    TypeExpr::Path {
        text: "opaque".to_string(),
        ident: Some("opaque".to_string()),
        last_segment: Some("opaque".to_string()),
    }
}

fn named_struct(name: &str, fields: Fields) -> StructItem {
    StructItem { name: name.to_string(), fields, text: format!("struct {};", name) }
}

#[test]
fn opaque_marker_shape() {
    assert!(is_opaque_struct(&named_struct("H", Fields::Unnamed(vec![opaque_type()]))));
    assert!(!is_opaque_struct(&named_struct("H", Fields::Unnamed(vec![]))));
    assert!(!is_opaque_struct(&named_struct(
        "H",
        Fields::Unnamed(vec![opaque_type(), opaque_type()])
    )));
    assert!(!is_opaque_struct(&named_struct("H", Fields::Named)));
    assert!(!is_opaque_struct(&named_struct("H", Fields::Unit)));
    // A qualified path is not the marker, whatever it ends in.
    let qualified = TypeExpr::Path {
        text: "m::opaque".to_string(),
        ident: None,
        last_segment: Some("opaque".to_string()),
    };
    assert!(!is_opaque_struct(&named_struct("H", Fields::Unnamed(vec![qualified]))));
    let other = TypeExpr::Other { text: "(opaque)".to_string() };
    assert!(!is_opaque_struct(&named_struct("H", Fields::Unnamed(vec![other]))));
    // The name of the struct is of no account.
    assert!(is_opaque_struct(&named_struct("opaque", Fields::Unnamed(vec![opaque_type()]))));
}

fn call_expr(name: &str) -> BodyExpr {
    BodyExpr::Call { callee: Some(name.to_string()) }
}

#[test]
fn forwarded_call_search() {
    assert_eq!(extract_zig_function_from_expr(&call_expr("f")).as_deref(), Some("f"));
    assert_eq!(extract_zig_function_from_expr(&BodyExpr::Call { callee: None }), None);
    assert_eq!(extract_zig_function_from_expr(&BodyExpr::Other), None);
    let block = BodyExpr::Block {
        stmts: vec![
            BodyStmt::Other,
            BodyStmt::Local { init: None },
            BodyStmt::Expr(BodyExpr::Call { callee: None }),
            BodyStmt::Local { init: Some(call_expr("in_let")) },
            BodyStmt::Expr(call_expr("later")),
        ],
    };
    assert_eq!(extract_zig_function_from_expr(&block).as_deref(), Some("in_let"));

    // Condition, then-branch, else-branch: in that order.
    let full = BodyExpr::If {
        cond: Box::new(BodyExpr::Let { expr: Box::new(call_expr("cond")) }),
        then_branch: vec![BodyStmt::Expr(call_expr("then"))],
        else_branch: Some(Box::new(call_expr("else"))),
    };
    assert_eq!(extract_zig_function_from_expr(&full).as_deref(), Some("cond"));
    let no_cond = BodyExpr::If {
        cond: Box::new(BodyExpr::Other),
        then_branch: vec![BodyStmt::Expr(call_expr("then"))],
        else_branch: Some(Box::new(call_expr("else"))),
    };
    assert_eq!(extract_zig_function_from_expr(&no_cond).as_deref(), Some("then"));
    let only_else = BodyExpr::If {
        cond: Box::new(BodyExpr::Other),
        then_branch: vec![BodyStmt::Other],
        else_branch: Some(Box::new(BodyExpr::Block { stmts: vec![BodyStmt::Expr(call_expr("else"))] })),
    };
    assert_eq!(extract_zig_function_from_expr(&only_else).as_deref(), Some("else"));
    let nothing = BodyExpr::If {
        cond: Box::new(BodyExpr::Other),
        then_branch: vec![],
        else_branch: None,
    };
    assert_eq!(extract_zig_function_from_expr(&nothing), None);

    assert_eq!(extract_zig_function_from_stmt(&BodyStmt::Other), None);
    assert_eq!(extract_zig_function_call(&vec![]), None);
    assert_eq!(
        extract_zig_function_call(&vec![BodyStmt::Expr(nothing), BodyStmt::Expr(full)]).as_deref(),
        Some("cond")
    );
}

#[test]
fn forwarded_call_in_parsed_bodies() {
    let (_, _, _, impls) = parse_rust_definitions(
        r#"
        struct Calc;
        impl Calculator for Calc {
            fn nested(&self, a: i32) -> i32 { if a > 0 { deep_then(a) } else { deep_else(a) } }
            fn in_else(&self, a: i32) -> i32 { if a > 0 { a } else { { only_else(a) } } }
            fn in_cond(&self, a: i32) -> i32 { if check(a) { 1 } else { other(a) } }
            fn method_call(&self, a: i32) -> i32 { a.abs() }
            fn qualified(&self, a: i32) -> i32 { ffi::zig_q(a) }
        }
        "#,
    );
    assert_eq!(impls.len(), 1);
    let found: Vec<(&str, &str)> =
        impls[0].methods.iter().map(|m| (m.name.as_str(), m.zig_function.as_str())).collect();
    assert_eq!(
        found,
        vec![
            ("nested", "deep_then"),
            ("in_else", "only_else"),
            ("in_cond", "check"),
            ("qualified", "zig_q"),
        ]
    );
}

fn simple_sig(name: &str) -> FnSignature {
    FnSignature {
        name: name.to_string(),
        is_async: false,
        generics: vec![],
        inputs: vec![],
        output: Output::Default,
    }
}

fn method(name: &str, marks: &[&str], callee: Option<&str>) -> ImplMethod {
    ImplMethod {
        attrs: marks.iter().map(|m| attr(m, AttrMeta::Path)).collect(),
        sig: simple_sig(name),
        body: match callee {
            Some(c) => vec![BodyStmt::Expr(call_expr(c))],
            None => vec![],
        },
        body_text: "{ }".to_string(),
    }
}

fn self_type(name: &str) -> TypeExpr {
    TypeExpr::Path {
        text: name.to_string(),
        ident: Some(name.to_string()),
        last_segment: Some(name.to_string()),
    }
}

fn entries(methods: Vec<ImplMethod>) -> Vec<ImplEntry> {
    methods.into_iter().map(ImplEntry::Fn).collect()
}

#[test]
fn trait_impl_rules() {
    let block = ImplBlock {
        implements: Some(TraitRef { last_segment: Some("T".to_string()) }),
        self_ty: self_type("S"),
        items: entries(vec![
            method("a", &[], Some("zig_a")),
            method("quiet", &[], None),
            method("first_new", &["constructor"], Some("new1")),
            method("new", &["constructor"], Some("new2")),
            method("both", &["constructor", "destructor"], Some("both")),
            method("drop", &["destructor"], Some("free")),
        ]),
    };
    let parsed = parse_trait_impl(&block).unwrap();
    assert_eq!(parsed.trait_name, "T");
    assert_eq!(parsed.target_type, "S");
    assert!(parsed.is_zst);
    assert!(!parsed.is_opaque);
    assert_eq!(parsed.methods.len(), 1);
    // Of several constructors the last one stays.
    assert_eq!(parsed.constructor.as_ref().unwrap().zig_function, "both");
    assert_eq!(parsed.destructor.as_ref().unwrap().zig_function, "free");

    let empty = ImplBlock {
        implements: Some(TraitRef { last_segment: Some("T".to_string()) }),
        self_ty: self_type("S"),
        items: entries(vec![method("quiet", &[], None)]),
    };
    assert!(parse_trait_impl(&empty).is_none());
    let inherent =
        ImplBlock { implements: None, self_ty: self_type("S"), items: entries(vec![method("a", &[], Some("z"))]) };
    assert!(parse_trait_impl(&inherent).is_none());
    let on_tuple = ImplBlock {
        implements: Some(TraitRef { last_segment: Some("T".to_string()) }),
        self_ty: TypeExpr::Other { text: "(u8, u8)".to_string() },
        items: entries(vec![method("a", &[], Some("z"))]),
    };
    assert!(parse_trait_impl(&on_tuple).is_none());
}

#[test]
fn inherent_impl_rules() {
    let opaque = vec!["H".to_string()];
    let block = ImplBlock {
        implements: None,
        self_ty: self_type("H"),
        items: entries(vec![
            method("new", &["constructor"], Some("h_new")),
            method("plain", &[], Some("h_plain")),
        ]),
    };
    let parsed = parse_inherent_impl(&block, &opaque).unwrap();
    assert_eq!(parsed.trait_name, "");
    assert_eq!(parsed.target_type, "H");
    assert!(parsed.is_opaque);
    assert!(!parsed.is_zst);
    assert!(parsed.methods.is_empty());
    assert_eq!(parsed.constructor.as_ref().unwrap().zig_function, "h_new");
    assert!(parsed.destructor.is_none());

    // Not for a type that is not opaque, nor without constructor and
    // destructor, nor for a trait impl.
    assert!(parse_inherent_impl(&block, &vec![]).is_none());
    let bare = ImplBlock {
        implements: None,
        self_ty: self_type("H"),
        items: entries(vec![method("plain", &[], Some("h_plain")), method("new", &["constructor"], None)]),
    };
    assert!(parse_inherent_impl(&bare, &opaque).is_none());
    let with_trait = ImplBlock {
        implements: Some(TraitRef { last_segment: None }),
        self_ty: self_type("H"),
        items: entries(vec![method("new", &["constructor"], Some("h_new"))]),
    };
    assert!(parse_inherent_impl(&with_trait, &opaque).is_none());
}

#[test]
fn function_signature_from_parts() {
    let sig = FnSignature {
        name: "f".to_string(),
        is_async: true,
        generics: vec![
            GenericDecl::Type {
                name: "T".to_string(),
                bounds: vec![
                    BoundDecl::Trait { last_segment: Some("Copy".to_string()) },
                    BoundDecl::Other,
                    BoundDecl::Trait { last_segment: None },
                ],
            },
            GenericDecl::Other,
        ],
        inputs: vec![],
        output: Output::Default,
    };
    let declared = parse_function_signature(
        sig,
        &[attr("monomorphize", AttrMeta::List { tokens: "u8,u16".to_string() })],
    );
    assert!(declared.is_async);
    assert_eq!(declared.generic_params.len(), 1);
    assert_eq!(declared.generic_params[0].bounds, vec!["Copy"]);
    assert_eq!(declared.monomorphize_types, vec!["u8", "u16"]);
    assert_eq!(declared.sig.name, "f");
}

#[test]
fn collect_definitions_over_modules() {
    let top = vec![
        // Outside a module nothing is a definition.
        Decl::Struct(named_struct("Outside", Fields::Named)),
        Decl::Mod {
            content: Some(vec![
                Decl::Struct(named_struct("Later", Fields::Unit)),
                Decl::Enum(EnumItem { name: "E".to_string(), text: "enum E { }".to_string() }),
                Decl::Other,
                Decl::Verbatim("const X : u8 ;".to_string()),
                Decl::Verbatim("fn   v ( a : u8 ) ;".to_string()),
            ]),
        },
        // A module without a body holds nothing.
        Decl::Mod { content: None },
        Decl::Mod {
            content: Some(vec![
                Decl::Impl(ImplBlock {
                    implements: Some(TraitRef { last_segment: Some("T".to_string()) }),
                    self_ty: self_type("Later"),
                    items: vec![ImplEntry::Other, ImplEntry::Fn(method("a", &[], Some("zig_a")))],
                }),
                Decl::Struct(named_struct("Later", Fields::Unit)),
                Decl::Struct(named_struct("Free", Fields::Named)),
                Decl::Fn(FnItem { attrs: vec![], sig: simple_sig("g") }),
                // The items of a nested module are not looked at.
                Decl::Mod {
                    content: Some(vec![Decl::Struct(named_struct("Nested", Fields::Named))]),
                },
            ]),
        },
    ];
    let table = reparse_verbatim(&top);
    assert_eq!(table.len(), top.len());
    assert_eq!(table.iter().map(|row| row.len()).collect::<Vec<_>>(), vec![0, 5, 0, 5]);
    // Only the tokens that hold a function were handed to the parser.
    assert!(table[1][3].is_none());
    assert_eq!(table[1][4].as_ref().unwrap().sig.name, "v");
    let (enums, structs, signatures, impls) = collect_definitions(&top, &table);
    assert_eq!(enums.len(), 1);
    // In the first module no impl targets `Later` yet.
    let names: Vec<&str> = structs.iter().map(|s| s.item.name.as_str()).collect();
    assert_eq!(names, vec!["Later", "Free"]);
    let names: Vec<&str> = signatures.iter().map(|s| s.sig.name.as_str()).collect();
    assert_eq!(names, vec!["v", "g"]);
    assert_eq!(impls.len(), 1);
    // Where the parser refused the function text, or no entry was handed
    // in, the tokens declare nothing.
    let (_, _, signatures, _) = collect_definitions(&top, &vec![]);
    let names: Vec<&str> = signatures.iter().map(|s| s.sig.name.as_str()).collect();
    assert_eq!(names, vec!["g"]);
    let mut refused = reparse_verbatim(&top);
    refused[1][4] = None;
    let (_, _, signatures, _) = collect_definitions(&top, &refused);
    assert_eq!(signatures.len(), 1);
    // What is handed in for tokens that hold no function is not looked at.
    let mut misplaced = reparse_verbatim(&top);
    misplaced[1][3] = Some(FnItem { attrs: vec![], sig: simple_sig("stray") });
    misplaced[1][0] = Some(FnItem { attrs: vec![], sig: simple_sig("stray") });
    let (_, _, signatures, _) = collect_definitions(&top, &misplaced);
    let names: Vec<&str> = signatures.iter().map(|s| s.sig.name.as_str()).collect();
    assert_eq!(names, vec!["v", "g"]);
    let (enums, structs, signatures, impls) = collect_definitions(&vec![], &vec![]);
    assert!(enums.is_empty() && structs.is_empty() && signatures.is_empty() && impls.is_empty());
}

#[test]
fn definitions_come_from_modules_and_methods_only() {
    // The text closes the enclosing module early: `Loose` stands at the
    // top level and is no definition, `In` stands in a module and is one.
    let (_, structs, _, impls) = parse_rust_definitions(
        "} struct Loose { a: u8 } mod bodyless; mod other { struct In { a: u8 } struct S; impl T for S { const K: u8 = 1; type Out = u8; fn a(&self) { zig_a() } } ",
    );
    let names: Vec<&str> = structs.iter().map(|s| s.item.name.as_str()).collect();
    assert_eq!(names, vec!["In"]);
    assert_eq!(impls.len(), 1);
    let found: Vec<(&str, &str)> =
        impls[0].methods.iter().map(|m| (m.name.as_str(), m.zig_function.as_str())).collect();
    assert_eq!(found, vec![("a", "zig_a")]);
}

#[test]
fn texts_handed_to_the_parser() {
    assert_eq!(module_source("  { fn  f ( ) ;\n fn g(); }  "), "mod temp {  fn f ( ) ; fn g();  }");
    assert_eq!(module_source(""), "mod temp {  }");
    assert_eq!(
        verbatim_function_source("fn   v ( a : u8 ) ;").as_deref(),
        Some("fn v ( a : u8 ) { unimplemented!() }")
    );
    assert_eq!(
        verbatim_function_source("pub async fn w ( )").as_deref(),
        Some("pub async fn w ( ) { unimplemented!() }")
    );
    assert!(verbatim_function_source("const X : u8 ;").is_none());
}
