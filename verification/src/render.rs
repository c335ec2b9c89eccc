//! Serializer: renders a list of definitions into the compact textual
//! signature format.  Purely functional; each rendering rule is specified
//! exactly as a sequence-of-characters function.

use vstd::prelude::*;
use vstd::string::StringExecFns;
use crate::defs::{Class, ClassV, Definition, DefinitionV, Enum, EnumV, Func, FuncV, Union, UnionV, Variable, VariableV, defs_view};

verus! {

/// Rendering of one function: `["ACCESSMOD "] "func " NAME ["(" PARAMS ")" | "()"]
/// [" -> " RETTYPE] ";"`.
pub open spec fn spec_render_func(f: FuncV) -> Seq<char> {
    let base = "func "@ + f.name;
    let with_params = if f.params.len() == 0 {
        base + "()"@
    } else {
        base + f.params
    };
    let with_ret = if f.return_type.len() > 0 {
        with_params + " -> "@ + f.return_type
    } else {
        with_params
    };
    let full = match f.accessibility_modifier {
        Some(m) => m + " "@ + with_ret,
        None => with_ret,
    };
    full + ";"@
}

/// Rendering of one variable: `"var " NAME [":" TYPE] ";"`.
pub open spec fn spec_render_variable(v: VariableV) -> Seq<char> {
    let base = "var "@ + v.name;
    let with_type = if v.value_type.len() > 0 {
        base + ":"@ + v.value_type
    } else {
        base
    };
    with_type + ";"@
}

/// Rendering of one enum or union item: `NAME [":" TYPE] ";"`.
pub open spec fn spec_render_item(v: VariableV) -> Seq<char> {
    let base = if v.value_type.len() > 0 {
        v.name + ":"@ + v.value_type
    } else {
        v.name
    };
    base + ";"@
}

/// Concatenated rendering of a method list.
pub open spec fn spec_render_funcs(s: Seq<FuncV>) -> Seq<char>
    decreases s.len(),
{
    if s.len() == 0 {
        Seq::empty()
    } else {
        spec_render_funcs(s.drop_last()) + spec_render_func(s.last())
    }
}

/// Concatenated rendering of a property list.
pub open spec fn spec_render_variables(s: Seq<VariableV>) -> Seq<char>
    decreases s.len(),
{
    if s.len() == 0 {
        Seq::empty()
    } else {
        spec_render_variables(s.drop_last()) + spec_render_variable(s.last())
    }
}

/// Concatenated rendering of an item list.
pub open spec fn spec_render_items(s: Seq<VariableV>) -> Seq<char>
    decreases s.len(),
{
    if s.len() == 0 {
        Seq::empty()
    } else {
        spec_render_items(s.drop_last()) + spec_render_item(s.last())
    }
}

/// Rendering of a class or module: `TYPEWORD " " NAME "{" {func} {var} "}" ";"`.
pub open spec fn spec_render_class(c: ClassV) -> Seq<char> {
    c.type_word + " "@ + c.name + "{"@ + spec_render_funcs(c.methods) + spec_render_variables(
        c.properties,
    ) + "}"@ + ";"@
}

/// Rendering of an enum: `"enum " NAME "{" {enumitem} "}" ";"`.
pub open spec fn spec_render_enum(e: EnumV) -> Seq<char> {
    "enum "@ + e.name + "{"@ + spec_render_items(e.items) + "}"@ + ";"@
}

/// Rendering of a union: `"union " NAME "{" {unionitem} "}" ";"`.
pub open spec fn spec_render_union(u: UnionV) -> Seq<char> {
    "union "@ + u.name + "{"@ + spec_render_items(u.items) + "}"@ + ";"@
}

/// Rendering of one definition.
pub open spec fn spec_render_def(d: DefinitionV) -> Seq<char> {
    match d {
        DefinitionV::Func(f) => spec_render_func(f),
        DefinitionV::Class(c) => spec_render_class(c),
        DefinitionV::Module(c) => spec_render_class(c),
        DefinitionV::Enum(e) => spec_render_enum(e),
        DefinitionV::Variable(v) => spec_render_variable(v),
        DefinitionV::Union(u) => spec_render_union(u),
    }
}

/// Concatenated rendering of a definition list, in order, with no separators
/// besides the terminating `;` of each rule.
pub open spec fn spec_render_defs(s: Seq<DefinitionV>) -> Seq<char>
    decreases s.len(),
{
    if s.len() == 0 {
        Seq::empty()
    } else {
        spec_render_defs(s.drop_last()) + spec_render_def(s.last())
    }
}

/// Render a function or method signature.
pub fn stringify_function(func: &Func) -> (r: String)
    ensures
        r@ == spec_render_func(func@),
{
    let mut res = String::new();
    match &func.accessibility_modifier {
        Some(m) => {
            res.append(m.as_str());
            res.append(" ");
        },
        None => {},
    }
    res.append("func ");
    res.append(func.name.as_str());
    if func.params.as_str().is_empty() {
        res.append("()");
    } else {
        res.append(func.params.as_str());
    }
    if !func.return_type.as_str().is_empty() {
        res.append(" -> ");
        res.append(func.return_type.as_str());
    }
    res.append(";");
    proof {
        assert(res@ =~= spec_render_func(func@));
    }
    res
}

/// Render a variable.
pub fn stringify_variable(variable: &Variable) -> (r: String)
    ensures
        r@ == spec_render_variable(variable@),
{
    let mut res = String::new();
    res.append("var ");
    res.append(variable.name.as_str());
    if !variable.value_type.as_str().is_empty() {
        res.append(":");
        res.append(variable.value_type.as_str());
    }
    res.append(";");
    proof {
        assert(res@ =~= spec_render_variable(variable@));
    }
    res
}

/// Render an enum item.
pub fn stringify_enum_item(item: &Variable) -> (r: String)
    ensures
        r@ == spec_render_item(item@),
{
    let mut res = String::new();
    res.append(item.name.as_str());
    if !item.value_type.as_str().is_empty() {
        res.append(":");
        res.append(item.value_type.as_str());
    }
    res.append(";");
    proof {
        assert(res@ =~= spec_render_item(item@));
    }
    res
}

/// Render a union item.
pub fn stringify_union_item(item: &Variable) -> (r: String)
    ensures
        r@ == spec_render_item(item@),
{
    stringify_enum_item(item)
}

/// Render a class or module with its methods and properties.
pub fn stringify_class(class: &Class) -> (r: String)
    ensures
        r@ == spec_render_class(class@),
{
    let mut res = String::new();
    res.append(class.type_word.as_str());
    res.append(" ");
    res.append(class.name.as_str());
    res.append("{");
    let ghost head = class.type_word@ + " "@ + class.name@ + "{"@;
    proof {
        assert(res@ =~= head);
    }
    let mut i: usize = 0;
    while i < class.methods.len()
        invariant
            i <= class.methods.len(),
            res@ == head + spec_render_funcs(class@.methods.take(i as int)),
        decreases class.methods.len() - i,
    {
        let m = stringify_function(&class.methods[i]);
        res.append(m.as_str());
        proof {
            let fs = class@.methods;
            assert(fs.take(i + 1 as int).drop_last() =~= fs.take(i as int));
            assert(fs.take(i + 1 as int).last() == fs[i as int]);
            assert(res@ =~= head + spec_render_funcs(fs.take(i + 1 as int)));
        }
        i = i + 1;
    }
    proof {
        assert(class@.methods.take(class.methods@.len() as int) =~= class@.methods);
    }
    let mut j: usize = 0;
    let ghost mid = head + spec_render_funcs(class@.methods);
    while j < class.properties.len()
        invariant
            j <= class.properties.len(),
            res@ == mid + spec_render_variables(class@.properties.take(j as int)),
        decreases class.properties.len() - j,
    {
        let p = stringify_variable(&class.properties[j]);
        res.append(p.as_str());
        proof {
            let ps = class@.properties;
            assert(ps.take(j + 1 as int).drop_last() =~= ps.take(j as int));
            assert(ps.take(j + 1 as int).last() == ps[j as int]);
            assert(res@ =~= mid + spec_render_variables(ps.take(j + 1 as int)));
        }
        j = j + 1;
    }
    proof {
        assert(class@.properties.take(class.properties@.len() as int) =~= class@.properties);
    }
    res.append("}");
    res.append(";");
    proof {
        assert(res@ =~= spec_render_class(class@));
    }
    res
}

/// Render an enum with its items.
pub fn stringify_enum(enum_def: &Enum) -> (r: String)
    ensures
        r@ == spec_render_enum(enum_def@),
{
    let mut res = String::new();
    res.append("enum ");
    res.append(enum_def.name.as_str());
    res.append("{");
    let ghost head = "enum "@ + enum_def.name@ + "{"@;
    proof {
        assert(res@ =~= head);
    }
    let mut i: usize = 0;
    while i < enum_def.items.len()
        invariant
            i <= enum_def.items.len(),
            res@ == head + spec_render_items(enum_def@.items.take(i as int)),
        decreases enum_def.items.len() - i,
    {
        let s = stringify_enum_item(&enum_def.items[i]);
        res.append(s.as_str());
        proof {
            let its = enum_def@.items;
            assert(its.take(i + 1 as int).drop_last() =~= its.take(i as int));
            assert(its.take(i + 1 as int).last() == its[i as int]);
            assert(res@ =~= head + spec_render_items(its.take(i + 1 as int)));
        }
        i = i + 1;
    }
    proof {
        assert(enum_def@.items.take(enum_def.items@.len() as int) =~= enum_def@.items);
    }
    res.append("}");
    res.append(";");
    proof {
        assert(res@ =~= spec_render_enum(enum_def@));
    }
    res
}

/// Render a union with its items.
pub fn stringify_union(union_def: &Union) -> (r: String)
    ensures
        r@ == spec_render_union(union_def@),
{
    let mut res = String::new();
    res.append("union ");
    res.append(union_def.name.as_str());
    res.append("{");
    let ghost head = "union "@ + union_def.name@ + "{"@;
    proof {
        assert(res@ =~= head);
    }
    let mut i: usize = 0;
    while i < union_def.items.len()
        invariant
            i <= union_def.items.len(),
            res@ == head + spec_render_items(union_def@.items.take(i as int)),
        decreases union_def.items.len() - i,
    {
        let s = stringify_union_item(&union_def.items[i]);
        res.append(s.as_str());
        proof {
            let its = union_def@.items;
            assert(its.take(i + 1 as int).drop_last() =~= its.take(i as int));
            assert(its.take(i + 1 as int).last() == its[i as int]);
            assert(res@ =~= head + spec_render_items(its.take(i + 1 as int)));
        }
        i = i + 1;
    }
    proof {
        assert(union_def@.items.take(union_def.items@.len() as int) =~= union_def@.items);
    }
    res.append("}");
    res.append(";");
    proof {
        assert(res@ =~= spec_render_union(union_def@));
    }
    res
}

/// Render one definition.
pub fn stringify_definition(definition: &Definition) -> (r: String)
    ensures
        r@ == spec_render_def(definition@),
{
    match definition {
        Definition::Class(class) => stringify_class(class),
        Definition::Module(module) => stringify_class(module),
        Definition::Enum(enum_def) => stringify_enum(enum_def),
        Definition::Union(union_def) => stringify_union(union_def),
        Definition::Func(func) => stringify_function(func),
        Definition::Variable(variable) => stringify_variable(variable),
    }
}

/// Render a whole definition list, concatenated in order.
pub fn stringify_definitions(definitions: &Vec<Definition>) -> (r: String)
    ensures
        r@ == spec_render_defs(defs_view(definitions@)),
{
    let mut res = String::new();
    let mut i: usize = 0;
    proof {
        assert(res@ =~= spec_render_defs(defs_view(definitions@).take(0)));
    }
    while i < definitions.len()
        invariant
            i <= definitions.len(),
            res@ == spec_render_defs(defs_view(definitions@).take(i as int)),
        decreases definitions.len() - i,
    {
        let s = stringify_definition(&definitions[i]);
        res.append(s.as_str());
        proof {
            let ds = defs_view(definitions@);
            assert(ds.take(i + 1 as int).drop_last() =~= ds.take(i as int));
            assert(ds.take(i + 1 as int).last() == ds[i as int]);
            assert(ds[i as int] == definitions@[i as int]@);
            assert(res@ =~= spec_render_defs(ds.take(i + 1 as int)));
        }
        i = i + 1;
    }
    proof {
        assert(defs_view(definitions@).take(definitions@.len() as int) =~= defs_view(
            definitions@,
        ));
    }
    res
}

} // verus!
