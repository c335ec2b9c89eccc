//! Canonical symbol records extracted from source: functions, classes and
//! modules, enums, unions, variables, and their mathematical views.

use vstd::prelude::*;

verus! {

/// Represents a function or method definition.
pub struct Func {
    pub name: String,
    pub params: String,
    pub return_type: String,
    pub accessibility_modifier: Option<String>,
}

/// Represents a variable definition.
pub struct Variable {
    pub name: String,
    pub value_type: String,
}

/// Represents a class or module definition.
pub struct Class {
    pub type_word: String,
    pub name: String,
    pub methods: Vec<Func>,
    pub properties: Vec<Variable>,
    pub visibility_modifier: Option<String>,
}

/// Represents an enum definition.
pub struct Enum {
    pub name: String,
    pub items: Vec<Variable>,
}

/// Represents a union definition.
pub struct Union {
    pub name: String,
    pub items: Vec<Variable>,
}

/// Represents a top-level code definition (function, class, module, etc.).
pub enum Definition {
    Func(Func),
    Class(Class),
    Module(Class),
    Enum(Enum),
    Variable(Variable),
    Union(Union),
}

/// Mathematical view of a `Func`.
#[verifier::ext_equal]
pub struct FuncV {
    pub name: Seq<char>,
    pub params: Seq<char>,
    pub return_type: Seq<char>,
    pub accessibility_modifier: Option<Seq<char>>,
}

/// Mathematical view of a `Variable`.
#[verifier::ext_equal]
pub struct VariableV {
    pub name: Seq<char>,
    pub value_type: Seq<char>,
}

/// Mathematical view of a `Class`.
#[verifier::ext_equal]
pub struct ClassV {
    pub type_word: Seq<char>,
    pub name: Seq<char>,
    pub methods: Seq<FuncV>,
    pub properties: Seq<VariableV>,
    pub visibility_modifier: Option<Seq<char>>,
}

/// Mathematical view of an `Enum`.
#[verifier::ext_equal]
pub struct EnumV {
    pub name: Seq<char>,
    pub items: Seq<VariableV>,
}

/// Mathematical view of a `Union`.
#[verifier::ext_equal]
pub struct UnionV {
    pub name: Seq<char>,
    pub items: Seq<VariableV>,
}

/// Mathematical view of a `Definition`.
#[verifier::ext_equal]
pub enum DefinitionV {
    Func(FuncV),
    Class(ClassV),
    Module(ClassV),
    Enum(EnumV),
    Variable(VariableV),
    Union(UnionV),
}

pub open spec fn opt_string_view(o: Option<String>) -> Option<Seq<char>> {
    match o {
        Some(s) => Some(s@),
        None => None,
    }
}

impl View for Func {
    type V = FuncV;

    open spec fn view(&self) -> FuncV {
        FuncV {
            name: self.name@,
            params: self.params@,
            return_type: self.return_type@,
            accessibility_modifier: opt_string_view(self.accessibility_modifier),
        }
    }
}

impl View for Variable {
    type V = VariableV;

    open spec fn view(&self) -> VariableV {
        VariableV { name: self.name@, value_type: self.value_type@ }
    }
}

impl View for Class {
    type V = ClassV;

    open spec fn view(&self) -> ClassV {
        ClassV {
            type_word: self.type_word@,
            name: self.name@,
            methods: self.methods@.map_values(|f: Func| f@),
            properties: self.properties@.map_values(|v: Variable| v@),
            visibility_modifier: opt_string_view(self.visibility_modifier),
        }
    }
}

impl View for Enum {
    type V = EnumV;

    open spec fn view(&self) -> EnumV {
        EnumV { name: self.name@, items: self.items@.map_values(|v: Variable| v@) }
    }
}

impl View for Union {
    type V = UnionV;

    open spec fn view(&self) -> UnionV {
        UnionV { name: self.name@, items: self.items@.map_values(|v: Variable| v@) }
    }
}

impl View for Definition {
    type V = DefinitionV;

    open spec fn view(&self) -> DefinitionV {
        match self {
            Definition::Func(f) => DefinitionV::Func(f@),
            Definition::Class(c) => DefinitionV::Class(c@),
            Definition::Module(c) => DefinitionV::Module(c@),
            Definition::Enum(e) => DefinitionV::Enum(e@),
            Definition::Variable(v) => DefinitionV::Variable(v@),
            Definition::Union(u) => DefinitionV::Union(u@),
        }
    }
}

/// The view of a sequence of definitions.
pub open spec fn defs_view(s: Seq<Definition>) -> Seq<DefinitionV> {
    s.map_values(|d: Definition| d@)
}

/// The display name of an emitted definition.
pub open spec fn def_name(d: DefinitionV) -> Seq<char> {
    match d {
        DefinitionV::Func(f) => f.name,
        DefinitionV::Class(c) => c.name,
        DefinitionV::Module(c) => c.name,
        DefinitionV::Enum(e) => e.name,
        DefinitionV::Variable(v) => v.name,
        DefinitionV::Union(u) => u.name,
    }
}

} // verus!
