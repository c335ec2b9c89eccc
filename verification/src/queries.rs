//! The embedded structural queries, one per supported language.  Each query
//! captures declaration nodes under the fixed capture vocabulary (`class`,
//! `module`, `method`, `field`, `class_variable`, `enum`, `enum_item`,
//! `union`, `union_item`) that the capture processor dispatches on.

use vstd::prelude::*;
use crate::lang::Lang;

verus! {

/// The query source of each language, the mapping `query_text` realises.
pub open spec fn spec_query_text(lang: Lang) -> Seq<char> {
    match lang {
        Lang::Rust => "(struct_item) @class (enum_item) @enum (union_item) @union (enum_variant) @enum_item (union_item body: (field_declaration_list (field_declaration) @union_item))"@,
        Lang::Python => "(class_definition) @class (function_definition) @method"@,
        Lang::Php => "(class_declaration) @class (method_declaration) @method"@,
        Lang::Java => "(class_declaration) @class (interface_declaration) @class (enum_declaration) @enum (enum_constant) @enum_item (method_declaration) @method"@,
        Lang::JavaScript => "(class_declaration) @class (method_definition) @method"@,
        Lang::TypeScript => "(class_declaration) @class (interface_declaration) @class (enum_declaration) @enum (method_definition) @method"@,
        Lang::Go => "(function_declaration) @class (function_declaration name: (identifier)) @class (type_declaration (type_spec) @class)"@,
        Lang::C => "(struct_specifier name: (type_identifier)) @class (enum_specifier name: (type_identifier)) @enum (union_specifier name: (type_identifier)) @union (enumerator) @enum_item"@,
        Lang::Cpp => "(class_specifier name: (type_identifier)) @class (struct_specifier name: (type_identifier)) @class (function_definition) @method (field_declaration declarator: (field_identifier)) @field"@,
        Lang::Lua => "(function_declaration) @class"@,
        Lang::Ruby => "(class) @class (module) @module (method) @method"@,
        Lang::Zig => "(variable_declaration (struct_declaration) @class) (variable_declaration (enum_declaration) @enum) (variable_declaration (union_declaration) @union)"@,
        Lang::Scala => "(class_definition) @class (object_definition) @class (function_definition) @method (val_definition) @field"@,
        Lang::Swift => "(class_declaration) @class (function_declaration) @method (property_declaration) @field"@,
        Lang::Elixir => "((call target: (identifier) @keyword (arguments (alias))) @module (#eq? @keyword \"defmodule\"))"@,
        Lang::CSharp => "(class_declaration) @class (record_declaration) @class (method_declaration) @method (class_declaration (parameter_list) @method) (record_declaration (parameter_list) @method) (field_declaration) @class_variable (enum_declaration) @enum (enum_member_declaration) @enum_item"@,
    }
}

/// The structural query source for a language, in the parser's pattern
/// syntax.  Compiling it against the language's grammar is the registry's
/// job; a compilation failure is an embedded-asset defect reported once per
/// language.
pub fn query_text(lang: Lang) -> (r: &'static str)
    ensures
        r@ == spec_query_text(lang),
{
    match lang {
        Lang::Rust => "(struct_item) @class (enum_item) @enum (union_item) @union (enum_variant) @enum_item (union_item body: (field_declaration_list (field_declaration) @union_item))",
        Lang::Python => "(class_definition) @class (function_definition) @method",
        Lang::Php => "(class_declaration) @class (method_declaration) @method",
        Lang::Java => "(class_declaration) @class (interface_declaration) @class (enum_declaration) @enum (enum_constant) @enum_item (method_declaration) @method",
        Lang::JavaScript => "(class_declaration) @class (method_definition) @method",
        Lang::TypeScript => "(class_declaration) @class (interface_declaration) @class (enum_declaration) @enum (method_definition) @method",
        Lang::Go => "(function_declaration) @class (function_declaration name: (identifier)) @class (type_declaration (type_spec) @class)",
        Lang::C => "(struct_specifier name: (type_identifier)) @class (enum_specifier name: (type_identifier)) @enum (union_specifier name: (type_identifier)) @union (enumerator) @enum_item",
        Lang::Cpp => "(class_specifier name: (type_identifier)) @class (struct_specifier name: (type_identifier)) @class (function_definition) @method (field_declaration declarator: (field_identifier)) @field",
        Lang::Lua => "(function_declaration) @class",
        Lang::Ruby => "(class) @class (module) @module (method) @method",
        Lang::Zig => "(variable_declaration (struct_declaration) @class) (variable_declaration (enum_declaration) @enum) (variable_declaration (union_declaration) @union)",
        Lang::Scala => "(class_definition) @class (object_definition) @class (function_definition) @method (val_definition) @field",
        Lang::Swift => "(class_declaration) @class (function_declaration) @method (property_declaration) @field",
        Lang::Elixir => "((call target: (identifier) @keyword (arguments (alias))) @module (#eq? @keyword \"defmodule\"))",
        Lang::CSharp => "(class_declaration) @class (record_declaration) @class (method_declaration) @method (class_declaration (parameter_list) @method) (record_declaration (parameter_list) @method) (field_declaration) @class_variable (enum_declaration) @enum (enum_member_declaration) @enum_item",
    }
}

} // verus!
