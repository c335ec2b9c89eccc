//! Per-language extraction coverage: each grammar's query and naming rules.

use neopilot::get_definitions_string;

#[test]
fn c_structs_enums_unions() {
    let source = "struct Point { int x; int y; };\nenum Color { RED, GREEN };\nunion Value { int i; float f; };\n";
    let out = get_definitions_string("c", source).unwrap();
    assert!(out.contains("class Point{};"), "got: {out}");
    assert!(out.contains("enum Color{RED;GREEN;};"), "got: {out}");
    assert!(out.contains("union Value{"), "got: {out}");
}

#[test]
fn cpp_class_with_members() {
    let source = "class Shape {\npublic:\n  int area() { return 0; }\n  int width;\n};\n";
    let out = get_definitions_string("cpp", source).unwrap();
    assert!(out.starts_with("class Shape{"), "got: {out}");
    assert!(out.contains("func area"), "got: {out}");
    assert!(out.contains("var width"), "got: {out}");
}

#[test]
fn javascript_class_with_method() {
    let source = "class Greeter {\n  greet(name) { return name; }\n}\n";
    let out = get_definitions_string("javascript", source).unwrap();
    assert!(out.starts_with("class Greeter{"), "got: {out}");
    assert!(out.contains("func greet(name)"), "got: {out}");
}

#[test]
fn typescript_class_and_interface() {
    let source = "class Widget {\n  render(): string { return \"\"; }\n}\ninterface Shape {}\n";
    let out = get_definitions_string("typescript", source).unwrap();
    assert!(out.contains("class Shape{};"), "got: {out}");
    assert!(out.contains("class Widget{"), "got: {out}");
    assert!(out.contains("func render"), "got: {out}");
}

#[test]
fn php_class_with_method() {
    let source = "<?php\nclass Greeter {\n  public function greet($name) { return $name; }\n}\n";
    let out = get_definitions_string("php", source).unwrap();
    assert!(out.starts_with("class Greeter{"), "got: {out}");
    assert!(out.contains("func greet"), "got: {out}");
}

#[test]
fn scala_class_and_object() {
    let source = "class Greeter {\n  def greet(name: String): String = name\n}\nobject Main\n";
    let out = get_definitions_string("scala", source).unwrap();
    assert!(out.contains("class Greeter{"), "got: {out}");
    assert!(out.contains("class Main{};"), "got: {out}");
    assert!(out.contains("func greet"), "got: {out}");
}

#[test]
fn swift_class_with_members() {
    let source = "class Greeter {\n  var name: String = \"\"\n  func greet() -> String { return name }\n}\n";
    let out = get_definitions_string("swift", source).unwrap();
    assert!(out.starts_with("class Greeter{"), "got: {out}");
    assert!(out.contains("func greet"), "got: {out}");
    assert!(out.contains("var name"), "got: {out}");
}

#[test]
fn lua_function_surfaces() {
    let source = "function greet(name)\n  return name\nend\n";
    let out = get_definitions_string("lua", source).unwrap();
    assert!(out.contains("greet"), "got: {out}");
}

#[test]
fn java_enum_constants() {
    let source = "public enum Color { RED, GREEN }\n";
    let out = get_definitions_string("java", source).unwrap();
    assert!(out.contains("enum Color{RED;GREEN;};"), "got: {out}");
}

#[test]
fn go_types_surface_when_exported() {
    let source = "package main\ntype Point struct { X int }\ntype hidden struct { y int }\n";
    let out = get_definitions_string("go", source).unwrap();
    assert!(out.contains("Point"), "got: {out}");
    assert!(!out.contains("hidden"), "got: {out}");
}

#[test]
fn csharp_class_variables_use_their_declarator() {
    let source = "public class A { private int count = 0; }\n";
    let out = get_definitions_string("csharp", source).unwrap();
    assert!(out.starts_with("class A{"), "got: {out}");
    assert!(out.contains("var count"), "got: {out}");
}
