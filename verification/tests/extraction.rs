//! End-to-end tests of the extraction pipeline over real grammars.

use neopilot::{extract_definitions, get_definitions_string, stringify_definitions};

#[test]
fn test_rust() {
    let source = r#"
        // This is a test comment
        pub const TEST_CONST: u32 = 1;
        pub static TEST_STATIC: u32 = 2;
        const INNER_TEST_CONST: u32 = 3;
        static INNER_TEST_STATIC: u32 = 4;
        pub(crate) struct TestStruct {
            pub test_field: String,
            inner_test_field: String,
        }
        impl TestStruct {
            pub fn test_method(&self, a: u32, b: u32) -> u32 {
                a + b
            }
            fn inner_test_method(&self, a: u32, b: u32) -> u32 {
                a + b
            }
        }
        struct InnerTestStruct {
            pub test_field: String,
            inner_test_field: String,
        }
        impl InnerTestStruct {
            pub fn test_method(&self, a: u32, b: u32) -> u32 {
                a + b
            }
            fn inner_test_method(&self, a: u32, b: u32) -> u32 {
                a + b
            }
        }
        pub enum TestEnum {
            TestEnumField1,
            TestEnumField2,
        }
        enum InnerTestEnum {
            InnerTestEnumField1,
            InnerTestEnumField2,
        }
        pub fn test_fn(a: u32, b: u32) -> u32 {
            let inner_var_in_func = 1;
            struct InnerStructInFunc {
                c: u32,
            }
            a + b + inner_var_in_func
        }
        fn inner_test_fn(a: u32, b: u32) -> u32 {
            a + b
        }
        "#;
    let definitions = extract_definitions("rust", source).unwrap();
    let stringified = stringify_definitions(&definitions);
    println!("{stringified}");
    // Basic test - just ensure it doesn't panic
    assert!(!stringified.is_empty());
}

#[test]
fn test_unsupported_language() {
    let source = "print(\"Hello, world!\")";
    let definitions = extract_definitions("unknown", source).unwrap();

    let stringified = stringify_definitions(&definitions);
    println!("{stringified}");
    let expected = "";
    assert_eq!(stringified, expected);
}

#[test]
fn rust_public_struct_only() {
    let source = "pub struct A { x: u32 }\nstruct B { y: u32 }\n";
    let out = get_definitions_string("rust", source).unwrap();
    assert_eq!(out, "class A{};");
}

#[test]
fn go_exported_function_only() {
    let source = "package main\nfunc Exported() {}\nfunc notExported() {}\n";
    let out = get_definitions_string("go", source).unwrap();
    assert!(out.contains("Exported"));
    assert!(!out.contains("notExported"));
}

#[test]
fn go_overlapping_patterns_yield_one_entity() {
    // The go query matches a plain function declaration with two patterns
    // under the same capture tag; the node must still surface once.
    let source = "package main\nfunc Exported() {}\n";
    let out = get_definitions_string("go", source).unwrap();
    assert_eq!(out, "class Exported{};");
}

#[test]
fn empty_source_yields_empty_output_for_every_language() {
    let languages = [
        "rust",
        "python",
        "php",
        "java",
        "javascript",
        "typescript",
        "go",
        "c",
        "cpp",
        "lua",
        "ruby",
        "zig",
        "scala",
        "swift",
        "elixir",
        "csharp",
    ];
    for lang in languages {
        let out = get_definitions_string(lang, "").unwrap();
        assert_eq!(out, "", "language {lang} produced output for empty source");
        let defs = extract_definitions(lang, "").unwrap();
        assert_eq!(defs.len(), 0);
    }
}

#[test]
fn identical_calls_render_identically() {
    let source = "pub struct A { x: u32 }\npub enum E { X, Y }\n";
    let a = get_definitions_string("rust", source).unwrap();
    let b = get_definitions_string("rust", source).unwrap();
    assert_eq!(a, b);
}

#[test]
fn shuffled_declarations_render_the_same_entities() {
    let one = "pub struct B { x: u32 }\npub struct A { y: u32 }\npub enum E { X }\n";
    let two = "pub enum E { X }\npub struct A { y: u32 }\npub struct B { x: u32 }\n";
    let a = get_definitions_string("rust", one).unwrap();
    let b = get_definitions_string("rust", two).unwrap();
    assert_eq!(a, b);
    assert_eq!(a, "class A{};class B{};enum E{X;};");
}

#[test]
fn rust_enum_items_are_collected() {
    let source = "pub enum E { X, Y }\nenum Inner { Z }\n";
    let out = get_definitions_string("rust", source).unwrap();
    assert_eq!(out, "enum E{X;Y;};enum Inner{Z;};");
}

#[test]
fn rust_union_items_are_collected() {
    let source = "pub union U { a: u32, b: i64 }\n";
    let out = get_definitions_string("rust", source).unwrap();
    assert_eq!(out, "union U{a:u32;b:i64;};");
}

#[test]
fn java_methods_attach_to_their_class() {
    let source = "public class A { public int m(int x) { return x; } }\n";
    let out = get_definitions_string("java", source).unwrap();
    assert!(out.starts_with("class A{"), "got: {out}");
    assert!(out.contains("func m(int x)"), "got: {out}");
    assert!(out.contains("-> int"), "got: {out}");
}

#[test]
fn python_methods_attach_to_their_class() {
    let source = "class A:\n    def m(self, x):\n        return x\n\ndef top():\n    pass\n";
    let out = get_definitions_string("python", source).unwrap();
    assert!(out.starts_with("class A{"), "got: {out}");
    assert!(out.contains("func m(self, x);"), "got: {out}");
    assert!(!out.contains("top"), "got: {out}");
}

#[test]
fn ruby_nested_class_carries_module_path() {
    let source = "module A\n  class B\n  end\nend\n";
    let out = get_definitions_string("ruby", source).unwrap();
    assert!(out.contains("module A{};"), "got: {out}");
    assert!(out.contains("class A::B{};"), "got: {out}");
}

#[test]
fn elixir_module_is_named_by_its_argument() {
    let source = "defmodule Foo do\nend\n";
    let out = get_definitions_string("elixir", source).unwrap();
    assert_eq!(out, "module Foo{};");
}

#[test]
fn zig_public_container_only() {
    let source = "pub const Foo = struct {};\nconst Bar = struct {};\n";
    let out = get_definitions_string("zig", source).unwrap();
    assert!(out.contains("Foo"), "got: {out}");
    assert!(!out.contains("Bar"), "got: {out}");
}

#[test]
fn csharp_primary_constructor_is_named_by_its_class() {
    let source = "public class A(int x) { }\n";
    let out = get_definitions_string("csharp", source).unwrap();
    assert!(out.starts_with("class A{"), "got: {out}");
    assert!(out.contains("func A"), "got: {out}");
}
