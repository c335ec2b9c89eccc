//! Exact-value tests of the serializer's rendering rules.

use neopilot::{Class, Definition, Enum, Func, Union, Variable, stringify_definitions};
use neopilot::render::{
    stringify_function, stringify_variable, stringify_enum_item, stringify_union_item,
    stringify_class, stringify_enum, stringify_union,
};

fn func(name: &str, params: &str, ret: &str, modifier: Option<&str>) -> Func {
    Func {
        name: name.to_string(),
        params: params.to_string(),
        return_type: ret.to_string(),
        accessibility_modifier: modifier.map(|m| m.to_string()),
    }
}

fn var(name: &str, ty: &str) -> Variable {
    Variable { name: name.to_string(), value_type: ty.to_string() }
}

#[test]
fn function_rendering_rules() {
    assert_eq!(stringify_function(&func("f", "", "", None)), "func f();");
    assert_eq!(stringify_function(&func("f", "(a: u32)", "", None)), "func f(a: u32);");
    assert_eq!(stringify_function(&func("f", "", "u32", None)), "func f() -> u32;");
    assert_eq!(
        stringify_function(&func("f", "(x)", "y", Some("pub"))),
        "pub func f(x) -> y;"
    );
}

#[test]
fn variable_and_item_rendering_rules() {
    assert_eq!(stringify_variable(&var("v", "")), "var v;");
    assert_eq!(stringify_variable(&var("v", "u32")), "var v:u32;");
    assert_eq!(stringify_enum_item(&var("X", "")), "X;");
    assert_eq!(stringify_enum_item(&var("X", "u8")), "X:u8;");
    assert_eq!(stringify_union_item(&var("a", "f32")), "a:f32;");
}

#[test]
fn class_rendering_rule() {
    let class = Class {
        type_word: "class".to_string(),
        name: "A".to_string(),
        methods: vec![func("m", "", "", None)],
        properties: vec![var("p", "u8")],
        visibility_modifier: Some("pub".to_string()),
    };
    assert_eq!(stringify_class(&class), "class A{func m();var p:u8;};");
}

#[test]
fn enum_and_union_rendering_rules() {
    let e = Enum { name: "E".to_string(), items: vec![var("X", ""), var("Y", "")] };
    assert_eq!(stringify_enum(&e), "enum E{X;Y;};");
    let u = Union { name: "U".to_string(), items: vec![var("a", "u32")] };
    assert_eq!(stringify_union(&u), "union U{a:u32;};");
}

#[test]
fn definitions_concatenate_without_separators() {
    let defs = vec![
        Definition::Class(Class {
            type_word: "class".to_string(),
            name: "A".to_string(),
            methods: vec![],
            properties: vec![],
            visibility_modifier: None,
        }),
        Definition::Func(func("f", "", "", None)),
        Definition::Variable(var("v", "")),
    ];
    assert_eq!(stringify_definitions(&defs), "class A{};func f();var v;");
}
