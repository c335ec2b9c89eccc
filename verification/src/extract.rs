//! Capture processor and definition builder: resolves each query capture to a
//! display name through per-language rules, routes it to the right entity
//! kind, merges declarations that share a name, applies visibility filters,
//! and emits the entities in deterministic name order.  The whole pass is
//! specified exactly by `extract_model`.

use vstd::prelude::*;
use crate::defs::{
    Class, ClassV, Definition, DefinitionV, Enum, EnumV, Func, FuncV, Union, UnionV, Variable,
    VariableV, defs_view, opt_string_view,
};
use crate::lang::{
    Lang, spec_class_type_word, class_type_word, uses_case_visibility,
    uses_keyword_visibility, uses_textual_pub_visibility,
};
use crate::tree::{
    SynTree, SynNodeV, wf_tree, spec_child_by_field, spec_child_by_kind,
    spec_descendant_by_kind, spec_ancestor_by_kind, spec_closest_ancestor_name, opt_ix,
};
use crate::util::{
    is_upper_char, char_is_uppercase, str_eq, str_lt, str_contains, str_starts_with, lex_lt,
    contains_seq, starts_with,
};
use vstd::string::StringExecFns;

verus! {

// ---------------------------------------------------------------------------
// Views of raw captures
// ---------------------------------------------------------------------------

/// View of one raw capture: its tag and the arena position of its node.
pub open spec fn caps_view(s: Seq<(String, usize)>) -> Seq<(Seq<char>, int)> {
    s.map_values(|c: (String, usize)| (c.0@, c.1 as int))
}

// ---------------------------------------------------------------------------
// Per-language name resolution (specification)
// ---------------------------------------------------------------------------

/// Text of the name-field child, or the node's own text.
pub open spec fn spec_name_or_own(t: Seq<SynNodeV>, ix: int) -> Seq<char> {
    match spec_child_by_field(t, ix, "name"@) {
        Some(c) => if 0 <= c < t.len() {
            t[c].text
        } else {
            Seq::empty()
        },
        None => if 0 <= ix < t.len() {
            t[ix].text
        } else {
            Seq::empty()
        },
    }
}

/// Own text of a node, empty when out of range.
pub open spec fn spec_text_at(t: Seq<SynNodeV>, ix: int) -> Seq<char> {
    if 0 <= ix < t.len() {
        t[ix].text
    } else {
        Seq::empty()
    }
}

/// The method/operator/identifier descendant a C++ capture is named by.
pub open spec fn spec_cpp_ident(t: Seq<SynNodeV>, ix: int) -> Option<int> {
    match spec_descendant_by_kind(t, ix, "field_identifier"@) {
        Some(d) => Some(d),
        None => match spec_descendant_by_kind(t, ix, "operator_name"@) {
            Some(d) => Some(d),
            None => spec_descendant_by_kind(t, ix, "identifier"@),
        },
    }
}

/// The scope node of an out-of-class C++ declarator, if any.
pub open spec fn spec_cpp_scope(t: Seq<SynNodeV>, ix: int) -> Option<int> {
    match spec_child_by_field(t, ix, "declarator"@) {
        Some(d1) => match spec_child_by_field(t, d1, "declarator"@) {
            Some(d2) => spec_child_by_field(t, d2, "scope"@),
            None => None,
        },
        None => None,
    }
}

/// C++ name resolution: classes by name field; anything else by its
/// identifier descendant, prefixed with its scope when declared out of class.
pub open spec fn spec_cpp_name(t: Seq<SynNodeV>, ix: int, tag: Seq<char>) -> Seq<char> {
    if tag == "class"@ {
        spec_name_or_own(t, ix)
    } else {
        match spec_cpp_ident(t, ix) {
            Some(d) => if spec_text_at(t, d).len() > 0 {
                match spec_cpp_scope(t, ix) {
                    Some(s) => spec_text_at(t, s) + "::"@ + spec_text_at(t, d),
                    None => spec_text_at(t, d),
                }
            } else {
                spec_text_at(t, ix)
            },
            None => spec_text_at(t, ix),
        }
    }
}

/// Scala name resolution: the name field, or the bound pattern, or the text.
pub open spec fn spec_scala_name(t: Seq<SynNodeV>, ix: int) -> Seq<char> {
    match spec_child_by_field(t, ix, "name"@) {
        Some(c) => spec_text_at(t, c),
        None => match spec_child_by_field(t, ix, "pattern"@) {
            Some(c) => spec_text_at(t, c),
            None => spec_text_at(t, ix),
        },
    }
}

/// Whether a C# node is a primary constructor: a parameter list directly
/// under a class or record declaration.
pub open spec fn spec_csharp_primary_ctor(t: Seq<SynNodeV>, ix: int) -> bool {
    0 <= ix < t.len() && t[ix].kind == "parameter_list"@ && match t[ix].parent {
        Some(p) => 0 <= p < t.len() && (t[p].kind == "class_declaration"@ || t[p].kind
            == "record_declaration"@),
        None => false,
    }
}

/// C# name resolution: primary constructors are named by their owning
/// declaration; class variables by their declarator.
pub open spec fn spec_csharp_name(t: Seq<SynNodeV>, ix: int, tag: Seq<char>) -> Seq<char> {
    let base = if tag == "method"@ && spec_csharp_primary_ctor(t, ix) {
        match t[ix].parent {
            Some(p) => p,
            None => ix,
        }
    } else if tag == "class_variable"@ {
        match spec_descendant_by_kind(t, ix, "variable_declarator"@) {
            Some(d) => d,
            None => ix,
        }
    } else {
        ix
    };
    spec_name_or_own(t, base)
}

/// The name parts of all enclosing Ruby modules and classes, root first,
/// the node itself included; parts with an empty name are left out.
pub open spec fn spec_ruby_parts(t: Seq<SynNodeV>, j: int) -> Seq<Seq<char>>
    decreases j,
{
    if j < 0 || j >= t.len() {
        Seq::empty()
    } else {
        let own: Seq<Seq<char>> = if (t[j].kind == "module"@ || t[j].kind == "class"@)
            && spec_child_by_field(t, j, "name"@) is Some && spec_text_at(
            t,
            spec_child_by_field(t, j, "name"@)->Some_0,
        ).len() > 0 {
            seq![spec_text_at(t, spec_child_by_field(t, j, "name"@)->Some_0)]
        } else {
            Seq::empty()
        };
        match t[j].parent {
            Some(p) => if 0 <= p < j {
                spec_ruby_parts(t, p) + own
            } else {
                own
            },
            None => own,
        }
    }
}

/// Join name parts with the namespace separator.
pub open spec fn spec_join_path(parts: Seq<Seq<char>>) -> Seq<char>
    decreases parts.len(),
{
    if parts.len() == 0 {
        Seq::empty()
    } else if parts.len() == 1 {
        parts[0]
    } else {
        spec_join_path(parts.drop_last()) + "::"@ + parts.last()
    }
}

/// Ruby name resolution: classes and modules carry their fully qualified
/// module path when any enclosing part has a name.
pub open spec fn spec_ruby_name(t: Seq<SynNodeV>, ix: int, tag: Seq<char>) -> Seq<char> {
    let base = spec_name_or_own(t, ix);
    if tag == "class"@ || tag == "module"@ {
        let parts = spec_ruby_parts(t, ix);
        if parts.len() == 0 {
            base
        } else {
            spec_join_path(parts)
        }
    } else {
        base
    }
}

/// Elixir name resolution: a module is named by the argument of its
/// `defmodule` call.
pub open spec fn spec_elixir_name(t: Seq<SynNodeV>, ix: int, tag: Seq<char>) -> Seq<char> {
    if tag == "module"@ {
        match spec_child_by_kind(t, ix, "arguments"@) {
            Some(c) => spec_text_at(t, c),
            None => spec_name_or_own(t, ix),
        }
    } else {
        spec_name_or_own(t, ix)
    }
}

/// Zig name resolution: a container is named by the identifier of the
/// variable declaration that binds it.
pub open spec fn spec_zig_name(t: Seq<SynNodeV>, ix: int) -> Seq<char> {
    match spec_ancestor_by_kind(t, ix, "variable_declaration"@) {
        Some(v) => match spec_child_by_kind(t, v, "identifier"@) {
            Some(c) => spec_text_at(t, c),
            None => spec_name_or_own(t, ix),
        },
        None => spec_name_or_own(t, ix),
    }
}

/// The display name a capture resolves to.
pub open spec fn spec_resolve_name(lang: Lang, t: Seq<SynNodeV>, ix: int, tag: Seq<char>) -> Seq<
    char,
> {
    match lang {
        Lang::Cpp => spec_cpp_name(t, ix, tag),
        Lang::Scala => spec_scala_name(t, ix),
        Lang::CSharp => spec_csharp_name(t, ix, tag),
        Lang::Ruby => spec_ruby_name(t, ix, tag),
        Lang::Elixir => spec_elixir_name(t, ix, tag),
        Lang::Zig => spec_zig_name(t, ix),
        _ => spec_name_or_own(t, ix),
    }
}

// ---------------------------------------------------------------------------
// Capture attributes (specification)
// ---------------------------------------------------------------------------

pub open spec fn spec_opt_nonempty(s: Seq<char>) -> Option<Seq<char>> {
    if s.len() > 0 {
        Some(s)
    } else {
        None
    }
}

/// The visibility modifier child of a captured declaration, if present.
pub open spec fn spec_visibility(t: Seq<SynNodeV>, ix: int) -> Option<Seq<char>> {
    match spec_child_by_kind(t, ix, "visibility_modifier"@) {
        Some(c) => spec_opt_nonempty(spec_text_at(t, c)),
        None => None,
    }
}

/// The value type of a variable-like capture: a predefined-type descendant,
/// or the type field.
pub open spec fn spec_node_type(t: Seq<SynNodeV>, ix: int) -> Seq<char> {
    match spec_descendant_by_kind(t, ix, "predefined_type"@) {
        Some(c) => spec_text_at(t, c),
        None => match spec_child_by_field(t, ix, "type"@) {
            Some(c) => spec_text_at(t, c),
            None => Seq::empty(),
        },
    }
}

/// The return-type field of a method capture, under whichever field name the
/// grammar uses.
pub open spec fn spec_return_type(t: Seq<SynNodeV>, ix: int) -> Seq<char> {
    match spec_child_by_field(t, ix, "return_type"@) {
        Some(c) => spec_text_at(t, c),
        None => match spec_child_by_field(t, ix, "result"@) {
            Some(c) => spec_text_at(t, c),
            None => match spec_child_by_field(t, ix, "returns"@) {
                Some(c) => spec_text_at(t, c),
                None => match spec_child_by_field(t, ix, "type"@) {
                    Some(c) => spec_text_at(t, c),
                    None => Seq::empty(),
                },
            },
        },
    }
}

/// The accessibility modifier of a method capture, if present.
pub open spec fn spec_accessibility(t: Seq<SynNodeV>, ix: int) -> Option<Seq<char>> {
    match spec_child_by_kind(t, ix, "visibility_modifier"@) {
        Some(c) => spec_opt_nonempty(spec_text_at(t, c)),
        None => match spec_child_by_kind(t, ix, "modifiers"@) {
            Some(c) => spec_opt_nonempty(spec_text_at(t, c)),
            None => None,
        },
    }
}

/// The function record a method capture builds.
pub open spec fn spec_build_func(t: Seq<SynNodeV>, ix: int, name: Seq<char>) -> FuncV {
    FuncV {
        name: name,
        params: match spec_child_by_field(t, ix, "parameters"@) {
            Some(c) => spec_text_at(t, c),
            None => Seq::empty(),
        },
        return_type: spec_return_type(t, ix),
        accessibility_modifier: spec_accessibility(t, ix),
    }
}

/// The variable record a field or item capture builds.
pub open spec fn spec_build_variable(t: Seq<SynNodeV>, ix: int, name: Seq<char>) -> VariableV {
    VariableV { name: name, value_type: spec_node_type(t, ix) }
}

/// The case-as-visibility filter: for such languages a symbol passes only
/// when its first character is uppercase.
pub open spec fn spec_case_ok(lang: Lang, name: Seq<char>) -> bool {
    !uses_case_visibility(lang) || (name.len() > 0 && is_upper_char(name[0]))
}

/// The textual-keyword filter: for such languages a container passes only
/// when the variable declaration binding it starts with the public keyword.
pub open spec fn spec_textual_pub_ok(lang: Lang, t: Seq<SynNodeV>, ix: int) -> bool {
    !uses_textual_pub_visibility(lang) || match spec_ancestor_by_kind(
        t,
        ix,
        "variable_declaration"@,
    ) {
        Some(v) => starts_with(spec_text_at(t, v), "pub"@),
        None => false,
    }
}

// ---------------------------------------------------------------------------
// Builder state
// ---------------------------------------------------------------------------

/// Accumulated entities of one extraction pass.  The class, enum and union
/// lists are ordered maps: sorted by name, one entry per name.
pub struct Builder {
    pub classes: Vec<Class>,
    pub enums: Vec<Enum>,
    pub unions: Vec<Union>,
    pub top_funcs: Vec<Func>,
    pub top_vars: Vec<Variable>,
    pub seen: Vec<(String, Vec<usize>)>,
}

/// Mathematical view of the builder state.
#[verifier::ext_equal]
pub struct BuilderV {
    pub classes: Seq<ClassV>,
    pub enums: Seq<EnumV>,
    pub unions: Seq<UnionV>,
    pub top_funcs: Seq<FuncV>,
    pub top_vars: Seq<VariableV>,
    pub seen: Seq<(Seq<char>, Seq<int>)>,
}

impl View for Builder {
    type V = BuilderV;

    open spec fn view(&self) -> BuilderV {
        BuilderV {
            classes: self.classes@.map_values(|c: Class| c@),
            enums: self.enums@.map_values(|e: Enum| e@),
            unions: self.unions@.map_values(|u: Union| u@),
            top_funcs: self.top_funcs@.map_values(|f: Func| f@),
            top_vars: self.top_vars@.map_values(|v: Variable| v@),
            seen: self.seen@.map_values(|p: (String, Vec<usize>)| (p.0@, p.1@.map_values(|i: usize| i as int))),
        }
    }
}

pub open spec fn empty_builder() -> BuilderV {
    BuilderV {
        classes: Seq::empty(),
        enums: Seq::empty(),
        unions: Seq::empty(),
        top_funcs: Seq::empty(),
        top_vars: Seq::empty(),
        seen: Seq::empty(),
    }
}

// --- the seen map -----------------------------------------------------------

pub open spec fn scan_tag(s: Seq<(Seq<char>, Seq<int>)>, tag: Seq<char>, j: int) -> Option<int>
    decreases s.len() - j,
{
    if j < 0 || j >= s.len() {
        None
    } else if s[j].0 == tag {
        Some(j)
    } else {
        scan_tag(s, tag, j + 1)
    }
}

pub open spec fn spec_index_of_tag(s: Seq<(Seq<char>, Seq<int>)>, tag: Seq<char>) -> Option<int> {
    scan_tag(s, tag, 0)
}

/// Whether this tag has already counted this node position.
pub open spec fn seen_contains(s: Seq<(Seq<char>, Seq<int>)>, tag: Seq<char>, id: int) -> bool {
    match spec_index_of_tag(s, tag) {
        Some(j) => s[j].1.contains(id),
        None => false,
    }
}

/// Record that this tag counted this node position.
pub open spec fn mark_seen(s: Seq<(Seq<char>, Seq<int>)>, tag: Seq<char>, id: int) -> Seq<
    (Seq<char>, Seq<int>),
> {
    match spec_index_of_tag(s, tag) {
        Some(j) => s.update(j, (s[j].0, s[j].1.push(id))),
        None => s.push((tag, seq![id])),
    }
}

// --- ordered maps over names ------------------------------------------------

pub open spec fn scan_class_lb(s: Seq<ClassV>, name: Seq<char>, j: int) -> int
    decreases s.len() - j,
{
    if j < 0 || j >= s.len() {
        s.len() as int
    } else if lex_lt(s[j].name, name) {
        scan_class_lb(s, name, j + 1)
    } else {
        j
    }
}

pub open spec fn scan_class_eq(s: Seq<ClassV>, name: Seq<char>, j: int) -> Option<int>
    decreases s.len() - j,
{
    if j < 0 || j >= s.len() {
        None
    } else if s[j].name == name {
        Some(j)
    } else {
        scan_class_eq(s, name, j + 1)
    }
}

pub open spec fn new_class(name: Seq<char>, word: Seq<char>) -> ClassV {
    ClassV {
        type_word: word,
        name: name,
        methods: Seq::empty(),
        properties: Seq::empty(),
        visibility_modifier: None,
    }
}

/// Ensure a class entry exists for this name, inserting it in name order.
pub open spec fn ensure_class(s: Seq<ClassV>, name: Seq<char>, word: Seq<char>) -> Seq<ClassV> {
    if scan_class_eq(s, name, 0) is Some {
        s
    } else {
        s.insert(scan_class_lb(s, name, 0), new_class(name, word))
    }
}

/// Set the visibility of the class entry with this name (last writer wins).
pub open spec fn set_class_vis(s: Seq<ClassV>, name: Seq<char>, vis: Option<Seq<char>>) -> Seq<
    ClassV,
> {
    match scan_class_eq(s, name, 0) {
        Some(j) => s.update(
            j,
            ClassV {
                type_word: s[j].type_word,
                name: s[j].name,
                methods: s[j].methods,
                properties: s[j].properties,
                visibility_modifier: vis,
            },
        ),
        None => s,
    }
}

/// Append a method to the class entry with this name.
pub open spec fn add_class_method(s: Seq<ClassV>, name: Seq<char>, f: FuncV) -> Seq<ClassV> {
    match scan_class_eq(s, name, 0) {
        Some(j) => s.update(
            j,
            ClassV {
                type_word: s[j].type_word,
                name: s[j].name,
                methods: s[j].methods.push(f),
                properties: s[j].properties,
                visibility_modifier: s[j].visibility_modifier,
            },
        ),
        None => s,
    }
}

/// Append a property to the class entry with this name.
pub open spec fn add_class_property(s: Seq<ClassV>, name: Seq<char>, v: VariableV) -> Seq<ClassV> {
    match scan_class_eq(s, name, 0) {
        Some(j) => s.update(
            j,
            ClassV {
                type_word: s[j].type_word,
                name: s[j].name,
                methods: s[j].methods,
                properties: s[j].properties.push(v),
                visibility_modifier: s[j].visibility_modifier,
            },
        ),
        None => s,
    }
}

pub open spec fn scan_enum_lb(s: Seq<EnumV>, name: Seq<char>, j: int) -> int
    decreases s.len() - j,
{
    if j < 0 || j >= s.len() {
        s.len() as int
    } else if lex_lt(s[j].name, name) {
        scan_enum_lb(s, name, j + 1)
    } else {
        j
    }
}

pub open spec fn scan_enum_eq(s: Seq<EnumV>, name: Seq<char>, j: int) -> Option<int>
    decreases s.len() - j,
{
    if j < 0 || j >= s.len() {
        None
    } else if s[j].name == name {
        Some(j)
    } else {
        scan_enum_eq(s, name, j + 1)
    }
}

/// Ensure an enum entry exists for this name, inserting it in name order.
pub open spec fn ensure_enum(s: Seq<EnumV>, name: Seq<char>) -> Seq<EnumV> {
    if scan_enum_eq(s, name, 0) is Some {
        s
    } else {
        s.insert(scan_enum_lb(s, name, 0), EnumV { name: name, items: Seq::empty() })
    }
}

/// Append an item to the enum entry with this name.
pub open spec fn add_enum_item(s: Seq<EnumV>, name: Seq<char>, v: VariableV) -> Seq<EnumV> {
    match scan_enum_eq(s, name, 0) {
        Some(j) => s.update(j, EnumV { name: s[j].name, items: s[j].items.push(v) }),
        None => s,
    }
}

pub open spec fn scan_union_lb(s: Seq<UnionV>, name: Seq<char>, j: int) -> int
    decreases s.len() - j,
{
    if j < 0 || j >= s.len() {
        s.len() as int
    } else if lex_lt(s[j].name, name) {
        scan_union_lb(s, name, j + 1)
    } else {
        j
    }
}

pub open spec fn scan_union_eq(s: Seq<UnionV>, name: Seq<char>, j: int) -> Option<int>
    decreases s.len() - j,
{
    if j < 0 || j >= s.len() {
        None
    } else if s[j].name == name {
        Some(j)
    } else {
        scan_union_eq(s, name, j + 1)
    }
}

/// Ensure a union entry exists for this name, inserting it in name order.
pub open spec fn ensure_union(s: Seq<UnionV>, name: Seq<char>) -> Seq<UnionV> {
    if scan_union_eq(s, name, 0) is Some {
        s
    } else {
        s.insert(scan_union_lb(s, name, 0), UnionV { name: name, items: Seq::empty() })
    }
}

/// Append an item to the union entry with this name.
pub open spec fn add_union_item(s: Seq<UnionV>, name: Seq<char>, v: VariableV) -> Seq<UnionV> {
    match scan_union_eq(s, name, 0) {
        Some(j) => s.update(j, UnionV { name: s[j].name, items: s[j].items.push(v) }),
        None => s,
    }
}

// ---------------------------------------------------------------------------
// The processing step
// ---------------------------------------------------------------------------

/// What one capture does to the builder state, once its node is resolved:
/// dispatch on the capture tag, guarded by the language's capture-stage
/// visibility filters.
pub open spec fn spec_dispatch(lang: Lang, t: Seq<SynNodeV>, tag: Seq<char>, ix: int, st: BuilderV) -> BuilderV {
    let name = spec_resolve_name(lang, t, ix, tag);
    if tag == "class"@ {
        if name.len() > 0 && spec_case_ok(lang, name) && spec_textual_pub_ok(lang, t, ix) {
            let ensured = ensure_class(st.classes, name, spec_class_type_word(lang));
            BuilderV { classes: set_class_vis(ensured, name, spec_visibility(t, ix)), ..st }
        } else {
            st
        }
    } else if tag == "module"@ {
        if name.len() > 0 && spec_case_ok(lang, name) {
            BuilderV { classes: ensure_class(st.classes, name, "module"@), ..st }
        } else {
            st
        }
    } else if tag == "method"@ {
        let f = spec_build_func(t, ix, name);
        let owner = spec_closest_ancestor_name(t, ix);
        if owner.len() > 0 && spec_case_ok(lang, owner) {
            let ensured = ensure_class(st.classes, owner, spec_class_type_word(lang));
            BuilderV { classes: add_class_method(ensured, owner, f), ..st }
        } else {
            BuilderV { top_funcs: st.top_funcs.push(f), ..st }
        }
    } else if tag == "field"@ || tag == "class_variable"@ {
        let v = spec_build_variable(t, ix, name);
        let owner = spec_closest_ancestor_name(t, ix);
        if owner.len() > 0 && spec_case_ok(lang, owner) {
            let ensured = ensure_class(st.classes, owner, spec_class_type_word(lang));
            BuilderV { classes: add_class_property(ensured, owner, v), ..st }
        } else {
            BuilderV { top_vars: st.top_vars.push(v), ..st }
        }
    } else if tag == "enum"@ {
        if name.len() > 0 && spec_case_ok(lang, name) && spec_textual_pub_ok(lang, t, ix) {
            BuilderV { enums: ensure_enum(st.enums, name), ..st }
        } else {
            st
        }
    } else if tag == "union"@ {
        if name.len() > 0 && spec_case_ok(lang, name) && spec_textual_pub_ok(lang, t, ix) {
            BuilderV { unions: ensure_union(st.unions, name), ..st }
        } else {
            st
        }
    } else if tag == "enum_item"@ {
        let owner = spec_closest_ancestor_name(t, ix);
        if name.len() > 0 && spec_case_ok(lang, name) && owner.len() > 0 && spec_case_ok(
            lang,
            owner,
        ) {
            let ensured = ensure_enum(st.enums, owner);
            BuilderV { enums: add_enum_item(ensured, owner, spec_build_variable(t, ix, name)), ..st }
        } else {
            st
        }
    } else if tag == "union_item"@ {
        let owner = spec_closest_ancestor_name(t, ix);
        if name.len() > 0 && spec_case_ok(lang, name) && owner.len() > 0 && spec_case_ok(
            lang,
            owner,
        ) {
            let ensured = ensure_union(st.unions, owner);
            BuilderV {
                unions: add_union_item(ensured, owner, spec_build_variable(t, ix, name)),
                ..st
            }
        } else {
            st
        }
    } else if tag == "func"@ {
        BuilderV { top_funcs: st.top_funcs.push(spec_build_func(t, ix, name)), ..st }
    } else if tag == "variable"@ {
        BuilderV { top_vars: st.top_vars.push(spec_build_variable(t, ix, name)), ..st }
    } else {
        st
    }
}

/// One capture's effect: check its node position, count it at most once per
/// tag, then dispatch.
pub open spec fn spec_step(lang: Lang, t: Seq<SynNodeV>, cap: (Seq<char>, int), st: BuilderV) -> BuilderV {
    if 0 <= cap.1 < t.len() {
        if seen_contains(st.seen, cap.0, cap.1) {
            st
        } else {
            let marked = BuilderV { seen: mark_seen(st.seen, cap.0, cap.1), ..st };
            spec_dispatch(lang, t, cap.0, cap.1, marked)
        }
    } else {
        st
    }
}

/// The builder state after processing a capture sequence in order.
pub open spec fn spec_fold(lang: Lang, t: Seq<SynNodeV>, caps: Seq<(Seq<char>, int)>) -> BuilderV
    decreases caps.len(),
{
    if caps.len() == 0 {
        empty_builder()
    } else {
        spec_step(lang, t, caps.last(), spec_fold(lang, t, caps.drop_last()))
    }
}

// ---------------------------------------------------------------------------
// Emission
// ---------------------------------------------------------------------------

/// Whether a class entity passes the emission-stage visibility filter.
pub open spec fn spec_class_kept(lang: Lang, c: ClassV) -> bool {
    !uses_keyword_visibility(lang) || (c.visibility_modifier is Some && contains_seq(
        c.visibility_modifier->Some_0,
        "pub"@,
    ))
}

pub open spec fn emit_classes(lang: Lang, s: Seq<ClassV>) -> Seq<DefinitionV>
    decreases s.len(),
{
    if s.len() == 0 {
        Seq::empty()
    } else {
        emit_classes(lang, s.drop_last()) + (if spec_class_kept(lang, s.last()) {
            seq![DefinitionV::Class(s.last())]
        } else {
            Seq::empty()
        })
    }
}

pub open spec fn emit_enums(s: Seq<EnumV>) -> Seq<DefinitionV>
    decreases s.len(),
{
    if s.len() == 0 {
        Seq::empty()
    } else {
        emit_enums(s.drop_last()) + seq![DefinitionV::Enum(s.last())]
    }
}

pub open spec fn emit_unions(s: Seq<UnionV>) -> Seq<DefinitionV>
    decreases s.len(),
{
    if s.len() == 0 {
        Seq::empty()
    } else {
        emit_unions(s.drop_last()) + seq![DefinitionV::Union(s.last())]
    }
}

/// The emitted definitions of a state: classes first, then enums, then
/// unions, each block in its map's name order.
pub open spec fn spec_emit(lang: Lang, st: BuilderV) -> Seq<DefinitionV> {
    emit_classes(lang, st.classes) + emit_enums(st.enums) + emit_unions(st.unions)
}

/// The definitions extracted from a tree and a capture sequence: the exact
/// specification of the capture processor and definition builder.
pub open spec fn extract_model(lang: Lang, t: Seq<SynNodeV>, caps: Seq<(Seq<char>, int)>) -> Seq<
    DefinitionV,
> {
    spec_emit(lang, spec_fold(lang, t, caps))
}

// ---------------------------------------------------------------------------
// Executable name resolution
// ---------------------------------------------------------------------------

/// Text of the name-field child, or the node's own text.
fn name_or_own(t: &SynTree, ix: usize) -> (r: String)
    requires
        ix < t@.len(),
    ensures
        r@ == spec_name_or_own(t@, ix as int),
{
    match t.child_by_field(ix, "name") {
        Some(c) => t.text_of(c),
        None => t.text_of(ix),
    }
}

fn cpp_name(t: &SynTree, ix: usize, tag: &str) -> (r: String)
    requires
        wf_tree(t@),
        ix < t@.len(),
    ensures
        r@ == spec_cpp_name(t@, ix as int, tag@),
{
    if str_eq(tag, "class") {
        name_or_own(t, ix)
    } else {
        let ident = match t.descendant_by_kind(ix, "field_identifier") {
            Some(d) => Some(d),
            None => match t.descendant_by_kind(ix, "operator_name") {
                Some(d) => Some(d),
                None => t.descendant_by_kind(ix, "identifier"),
            },
        };
        match ident {
            Some(d) => {
                let dt = t.text_of(d);
                if dt.as_str().is_empty() {
                    t.text_of(ix)
                } else {
                    let scope = match t.child_by_field(ix, "declarator") {
                        Some(d1) => match t.child_by_field(d1, "declarator") {
                            Some(d2) => t.child_by_field(d2, "scope"),
                            None => None,
                        },
                        None => None,
                    };
                    match scope {
                        Some(sn) => {
                            let mut r = t.text_of(sn);
                            r.append("::");
                            r.append(dt.as_str());
                            proof {
                                assert(r@ =~= spec_cpp_name(t@, ix as int, tag@));
                            }
                            r
                        },
                        None => dt,
                    }
                }
            },
            None => t.text_of(ix),
        }
    }
}

fn scala_name(t: &SynTree, ix: usize) -> (r: String)
    requires
        ix < t@.len(),
    ensures
        r@ == spec_scala_name(t@, ix as int),
{
    match t.child_by_field(ix, "name") {
        Some(c) => t.text_of(c),
        None => match t.child_by_field(ix, "pattern") {
            Some(c) => t.text_of(c),
            None => t.text_of(ix),
        },
    }
}

fn csharp_is_primary_constructor(t: &SynTree, ix: usize) -> (r: bool)
    requires
        wf_tree(t@),
        ix < t@.len(),
    ensures
        r == spec_csharp_primary_ctor(t@, ix as int),
{
    if !str_eq(t.node(ix).kind.as_str(), "parameter_list") {
        return false;
    }
    match t.node(ix).parent {
        Some(p) => {
            let pk = &t.node(p).kind;
            str_eq(pk.as_str(), "class_declaration") || str_eq(pk.as_str(), "record_declaration")
        },
        None => false,
    }
}

fn csharp_name(t: &SynTree, ix: usize, tag: &str) -> (r: String)
    requires
        wf_tree(t@),
        ix < t@.len(),
    ensures
        r@ == spec_csharp_name(t@, ix as int, tag@),
{
    let base: usize = if str_eq(tag, "method") && csharp_is_primary_constructor(t, ix) {
        match t.node(ix).parent {
            Some(p) => p,
            None => ix,
        }
    } else if str_eq(tag, "class_variable") {
        match t.descendant_by_kind(ix, "variable_declarator") {
            Some(d) => d,
            None => ix,
        }
    } else {
        ix
    };
    name_or_own(t, base)
}

/// Collect the module path parts of all enclosing Ruby containers, root
/// first.
fn ruby_parts(t: &SynTree, ix: usize) -> (r: Vec<String>)
    requires
        wf_tree(t@),
        ix < t@.len(),
    ensures
        r@.map_values(|s: String| s@) == spec_ruby_parts(t@, ix as int),
{
    let mut acc: Vec<String> = Vec::new();
    let mut cur: usize = ix;
    loop
        invariant
            wf_tree(t@),
            cur < t@.len(),
            spec_ruby_parts(t@, ix as int) == spec_ruby_parts(t@, cur as int) + acc@.map_values(
                |s: String| s@,
            ),
        decreases cur,
    {
        let kind_ok = str_eq(t.node(cur).kind.as_str(), "module") || str_eq(
            t.node(cur).kind.as_str(),
            "class",
        );
        if kind_ok {
            match t.child_by_field(cur, "name") {
                Some(c) => {
                    let tx = t.text_of(c);
                    if !tx.as_str().is_empty() {
                        acc.insert(0, tx);
                        proof {
                            assert(acc@.map_values(|s: String| s@) =~= seq![
                                spec_text_at(
                                    t@,
                                    spec_child_by_field(t@, cur as int, "name"@)->Some_0,
                                ),
                            ] + old_map(acc@, 1));
                        }
                    }
                },
                None => {},
            }
        }
        match t.node(cur).parent {
            Some(p) => {
                cur = p;
            },
            None => {
                proof {
                    assert(spec_ruby_parts(t@, ix as int) =~= acc@.map_values(|s: String| s@));
                }
                return acc;
            },
        }
    }
}

/// The tail of a mapped sequence, used to relate an insertion at the front.
pub open spec fn old_map(s: Seq<String>, from: int) -> Seq<Seq<char>> {
    s.map_values(|x: String| x@).skip(from)
}

/// Join path parts with the namespace separator.
fn join_path(parts: &Vec<String>) -> (r: String)
    ensures
        r@ == spec_join_path(parts@.map_values(|s: String| s@)),
{
    let ghost pv = parts@.map_values(|s: String| s@);
    if parts.len() == 0 {
        let r = String::new();
        proof {
            assert(r@ =~= spec_join_path(pv));
        }
        return r;
    }
    let mut res = parts[0].clone();
    proof {
        assert(pv.take(1).len() == 1);
        assert(res@ =~= spec_join_path(pv.take(1)));
    }
    let mut i: usize = 1;
    while i < parts.len()
        invariant
            1 <= i <= parts.len(),
            pv == parts@.map_values(|s: String| s@),
            pv.len() == parts@.len(),
            res@ == spec_join_path(pv.take(i as int)),
        decreases parts.len() - i,
    {
        res.append("::");
        res.append(parts[i].as_str());
        proof {
            assert(pv.take(i + 1 as int).drop_last() =~= pv.take(i as int));
            assert(pv.take(i + 1 as int).last() == pv[i as int]);
            assert(pv.take(i + 1 as int).len() >= 2);
            assert(res@ =~= spec_join_path(pv.take(i + 1 as int)));
        }
        i = i + 1;
    }
    proof {
        assert(pv.take(pv.len() as int) =~= pv);
    }
    res
}

fn ruby_name(t: &SynTree, ix: usize, tag: &str) -> (r: String)
    requires
        wf_tree(t@),
        ix < t@.len(),
    ensures
        r@ == spec_ruby_name(t@, ix as int, tag@),
{
    let base = name_or_own(t, ix);
    if str_eq(tag, "class") || str_eq(tag, "module") {
        let parts = ruby_parts(t, ix);
        if parts.len() == 0 {
            base
        } else {
            join_path(&parts)
        }
    } else {
        base
    }
}

fn elixir_name(t: &SynTree, ix: usize, tag: &str) -> (r: String)
    requires
        ix < t@.len(),
    ensures
        r@ == spec_elixir_name(t@, ix as int, tag@),
{
    if str_eq(tag, "module") {
        match t.child_by_kind(ix, "arguments") {
            Some(c) => t.text_of(c),
            None => name_or_own(t, ix),
        }
    } else {
        name_or_own(t, ix)
    }
}

fn zig_name(t: &SynTree, ix: usize) -> (r: String)
    requires
        wf_tree(t@),
        ix < t@.len(),
    ensures
        r@ == spec_zig_name(t@, ix as int),
{
    match t.ancestor_by_kind(ix, "variable_declaration") {
        Some(v) => match t.child_by_kind(v, "identifier") {
            Some(c) => t.text_of(c),
            None => name_or_own(t, ix),
        },
        None => name_or_own(t, ix),
    }
}

/// Resolve the display name of a capture under the language's rules.
fn resolve_name(lang: Lang, t: &SynTree, ix: usize, tag: &str) -> (r: String)
    requires
        wf_tree(t@),
        ix < t@.len(),
    ensures
        r@ == spec_resolve_name(lang, t@, ix as int, tag@),
{
    match lang {
        Lang::Cpp => cpp_name(t, ix, tag),
        Lang::Scala => scala_name(t, ix),
        Lang::CSharp => csharp_name(t, ix, tag),
        Lang::Ruby => ruby_name(t, ix, tag),
        Lang::Elixir => elixir_name(t, ix, tag),
        Lang::Zig => zig_name(t, ix),
        _ => name_or_own(t, ix),
    }
}

// ---------------------------------------------------------------------------
// Executable capture attributes and filters
// ---------------------------------------------------------------------------

fn opt_nonempty(s: String) -> (r: Option<String>)
    ensures
        opt_string_view(r) == spec_opt_nonempty(s@),
{
    if s.as_str().is_empty() {
        None
    } else {
        Some(s)
    }
}

fn visibility_of(t: &SynTree, ix: usize) -> (r: Option<String>)
    requires
        ix < t@.len(),
    ensures
        opt_string_view(r) == spec_visibility(t@, ix as int),
{
    match t.child_by_kind(ix, "visibility_modifier") {
        Some(c) => opt_nonempty(t.text_of(c)),
        None => None,
    }
}

fn node_type_of(t: &SynTree, ix: usize) -> (r: String)
    requires
        wf_tree(t@),
        ix < t@.len(),
    ensures
        r@ == spec_node_type(t@, ix as int),
{
    match t.descendant_by_kind(ix, "predefined_type") {
        Some(c) => t.text_of(c),
        None => match t.child_by_field(ix, "type") {
            Some(c) => t.text_of(c),
            None => String::new(),
        },
    }
}

fn return_type_of(t: &SynTree, ix: usize) -> (r: String)
    requires
        ix < t@.len(),
    ensures
        r@ == spec_return_type(t@, ix as int),
{
    match t.child_by_field(ix, "return_type") {
        Some(c) => t.text_of(c),
        None => match t.child_by_field(ix, "result") {
            Some(c) => t.text_of(c),
            None => match t.child_by_field(ix, "returns") {
                Some(c) => t.text_of(c),
                None => match t.child_by_field(ix, "type") {
                    Some(c) => t.text_of(c),
                    None => String::new(),
                },
            },
        },
    }
}

fn accessibility_of(t: &SynTree, ix: usize) -> (r: Option<String>)
    requires
        ix < t@.len(),
    ensures
        opt_string_view(r) == spec_accessibility(t@, ix as int),
{
    match t.child_by_kind(ix, "visibility_modifier") {
        Some(c) => opt_nonempty(t.text_of(c)),
        None => match t.child_by_kind(ix, "modifiers") {
            Some(c) => opt_nonempty(t.text_of(c)),
            None => None,
        },
    }
}

fn build_func(t: &SynTree, ix: usize, name: String) -> (r: Func)
    requires
        ix < t@.len(),
    ensures
        r@ == spec_build_func(t@, ix as int, name@),
{
    let params = match t.child_by_field(ix, "parameters") {
        Some(c) => t.text_of(c),
        None => String::new(),
    };
    let return_type = return_type_of(t, ix);
    let accessibility_modifier = accessibility_of(t, ix);
    Func { name, params, return_type, accessibility_modifier }
}

fn build_variable(t: &SynTree, ix: usize, name: String) -> (r: Variable)
    requires
        wf_tree(t@),
        ix < t@.len(),
    ensures
        r@ == spec_build_variable(t@, ix as int, name@),
{
    let value_type = node_type_of(t, ix);
    Variable { name, value_type }
}

fn case_ok(lang: Lang, name: &str) -> (r: bool)
    ensures
        r == spec_case_ok(lang, name@),
{
    if !crate::lang::case_visibility(lang) {
        return true;
    }
    if name.unicode_len() == 0 {
        return false;
    }
    char_is_uppercase(name.get_char(0))
}

fn textual_pub_ok(lang: Lang, t: &SynTree, ix: usize) -> (r: bool)
    requires
        wf_tree(t@),
        ix < t@.len(),
    ensures
        r == spec_textual_pub_ok(lang, t@, ix as int),
{
    if !crate::lang::textual_pub_visibility(lang) {
        return true;
    }
    match t.ancestor_by_kind(ix, "variable_declaration") {
        Some(v) => {
            let tx = t.text_of(v);
            str_starts_with(tx.as_str(), "pub")
        },
        None => false,
    }
}

// ---------------------------------------------------------------------------
// Executable builder operations
// ---------------------------------------------------------------------------

impl Builder {
    /// A fresh builder with no entities and nothing counted.
    pub fn new() -> (r: Builder)
        ensures
            r@ == empty_builder(),
    {
        let r = Builder {
            classes: Vec::new(),
            enums: Vec::new(),
            unions: Vec::new(),
            top_funcs: Vec::new(),
            top_vars: Vec::new(),
            seen: Vec::new(),
        };
        proof {
            assert(r@ =~= empty_builder());
        }
        r
    }

    fn find_seen_tag(&self, tag: &str) -> (r: Option<usize>)
        ensures
            opt_ix(r) == spec_index_of_tag(self@.seen, tag@),
            r is Some ==> r->Some_0 < self.seen@.len(),
    {
        let n = self.seen.len();
        let mut j: usize = 0;
        while j < n
            invariant
                j <= n,
                n == self.seen@.len(),
                n == self@.seen.len(),
                scan_tag(self@.seen, tag@, 0) == scan_tag(self@.seen, tag@, j as int),
            decreases n - j,
        {
            if str_eq(self.seen[j].0.as_str(), tag) {
                return Some(j);
            }
            j = j + 1;
        }
        None
    }

    /// Whether this tag has already counted this node position.
    fn seen_has(&self, tag: &str, id: usize) -> (r: bool)
        ensures
            r == seen_contains(self@.seen, tag@, id as int),
    {
        let found = self.find_seen_tag(tag);
        proof {
            assert(opt_ix(found) == spec_index_of_tag(self@.seen, tag@));
        }
        match found {
            Some(j) => {
                let ids = &self.seen[j].1;
                let mut k: usize = 0;
                while k < ids.len()
                    invariant
                        k <= ids@.len(),
                        ids@ == self.seen@[j as int].1@,
                        j < self.seen@.len(),
                        spec_index_of_tag(self@.seen, tag@) == Some(j as int),
                        self@.seen[j as int].1 == ids@.map_values(|i: usize| i as int),
                        forall|m: int| 0 <= m < k ==> ids@[m] != id,
                    decreases ids@.len() - k,
                {
                    if ids[k] == id {
                        proof {
                            assert(self@.seen[j as int].1 == ids@.map_values(|i: usize| i as int));
                            assert(self@.seen[j as int].1[k as int] == id as int);
                            assert(self@.seen[j as int].1.contains(id as int));
                            assert(spec_index_of_tag(self@.seen, tag@) == Some(j as int));
                            assert(seen_contains(self@.seen, tag@, id as int));
                        }
                        return true;
                    }
                    k = k + 1;
                }
                proof {
                    if seen_contains(self@.seen, tag@, id as int) {
                        let w = choose|w: int|
                            0 <= w < self@.seen[j as int].1.len() && self@.seen[j as int].1[w]
                                == id as int;
                        assert(ids@[w] == id);
                    }
                }
                false
            },
            None => false,
        }
    }

    /// Count this node position under this tag.
    fn note_seen(&mut self, tag: &str, id: usize)
        ensures
            final(self)@.seen == mark_seen(old(self)@.seen, tag@, id as int),
            final(self)@.classes == old(self)@.classes,
            final(self)@.enums == old(self)@.enums,
            final(self)@.unions == old(self)@.unions,
            final(self)@.top_funcs == old(self)@.top_funcs,
            final(self)@.top_vars == old(self)@.top_vars,
    {
        match self.find_seen_tag(tag) {
            Some(j) => {
                let mut entry = self.seen.remove(j);
                entry.1.push(id);
                self.seen.insert(j, entry);
                proof {
                    assert(self@.seen =~~= mark_seen(old(self)@.seen, tag@, id as int));
                }
            },
            None => {
                let mut ids: Vec<usize> = Vec::new();
                ids.push(id);
                let tag_string: String = tag.to_owned();
                self.seen.push((tag_string, ids));
                proof {
                    assert(self@.seen =~~= mark_seen(old(self)@.seen, tag@, id as int));
                }
            },
        }
    }

    fn find_class_eq(&self, name: &str) -> (r: Option<usize>)
        ensures
            opt_ix(r) == scan_class_eq(self@.classes, name@, 0),
            r is Some ==> r->Some_0 < self.classes@.len(),
    {
        let n = self.classes.len();
        let mut j: usize = 0;
        while j < n
            invariant
                j <= n,
                n == self.classes@.len(),
                scan_class_eq(self@.classes, name@, 0) == scan_class_eq(
                    self@.classes,
                    name@,
                    j as int,
                ),
            decreases n - j,
        {
            if str_eq(self.classes[j].name.as_str(), name) {
                return Some(j);
            }
            j = j + 1;
        }
        None
    }

    fn find_class_lb(&self, name: &str) -> (r: usize)
        ensures
            r as int == scan_class_lb(self@.classes, name@, 0),
            r <= self.classes@.len(),
    {
        let n = self.classes.len();
        let mut j: usize = 0;
        while j < n
            invariant
                j <= n,
                n == self.classes@.len(),
                scan_class_lb(self@.classes, name@, 0) == scan_class_lb(
                    self@.classes,
                    name@,
                    j as int,
                ),
            decreases n - j,
        {
            if !str_lt(self.classes[j].name.as_str(), name) {
                return j;
            }
            j = j + 1;
        }
        n
    }

    /// Ensure a class entry exists under this name.
    fn ensure_class_entry(&mut self, name: &str, word: &str)
        ensures
            final(self)@.classes == ensure_class(old(self)@.classes, name@, word@),
            final(self)@.enums == old(self)@.enums,
            final(self)@.unions == old(self)@.unions,
            final(self)@.top_funcs == old(self)@.top_funcs,
            final(self)@.top_vars == old(self)@.top_vars,
            final(self)@.seen == old(self)@.seen,
    {
        match self.find_class_eq(name) {
            Some(_) => {},
            None => {
                let lb = self.find_class_lb(name);
                let c = Class {
                    type_word: word.to_owned(),
                    name: name.to_owned(),
                    methods: Vec::new(),
                    properties: Vec::new(),
                    visibility_modifier: None,
                };
                proof {
                    assert(c@ =~= new_class(name@, word@));
                }
                self.classes.insert(lb, c);
                proof {
                    assert(self@.classes =~~= ensure_class(old(self)@.classes, name@, word@));
                }
            },
        }
    }

    /// Set the visibility of the class entry under this name.
    fn set_class_visibility(&mut self, name: &str, vis: Option<String>)
        ensures
            final(self)@.classes == set_class_vis(
                old(self)@.classes,
                name@,
                opt_string_view(vis),
            ),
            final(self)@.enums == old(self)@.enums,
            final(self)@.unions == old(self)@.unions,
            final(self)@.top_funcs == old(self)@.top_funcs,
            final(self)@.top_vars == old(self)@.top_vars,
            final(self)@.seen == old(self)@.seen,
    {
        match self.find_class_eq(name) {
            Some(j) => {
                let mut c = self.classes.remove(j);
                c.visibility_modifier = vis;
                self.classes.insert(j, c);
                proof {
                    assert(self@.classes =~~= set_class_vis(
                        old(self)@.classes,
                        name@,
                        opt_string_view(vis),
                    ));
                }
            },
            None => {},
        }
    }

    /// Append a method to the class entry under this name.
    fn push_class_method(&mut self, name: &str, f: Func)
        ensures
            final(self)@.classes == add_class_method(old(self)@.classes, name@, f@),
            final(self)@.enums == old(self)@.enums,
            final(self)@.unions == old(self)@.unions,
            final(self)@.top_funcs == old(self)@.top_funcs,
            final(self)@.top_vars == old(self)@.top_vars,
            final(self)@.seen == old(self)@.seen,
    {
        match self.find_class_eq(name) {
            Some(j) => {
                let mut c = self.classes.remove(j);
                c.methods.push(f);
                self.classes.insert(j, c);
                proof {
                    assert(self@.classes =~~= add_class_method(old(self)@.classes, name@, f@));
                }
            },
            None => {},
        }
    }

    /// Append a property to the class entry under this name.
    fn push_class_property(&mut self, name: &str, v: Variable)
        ensures
            final(self)@.classes == add_class_property(old(self)@.classes, name@, v@),
            final(self)@.enums == old(self)@.enums,
            final(self)@.unions == old(self)@.unions,
            final(self)@.top_funcs == old(self)@.top_funcs,
            final(self)@.top_vars == old(self)@.top_vars,
            final(self)@.seen == old(self)@.seen,
    {
        match self.find_class_eq(name) {
            Some(j) => {
                let mut c = self.classes.remove(j);
                c.properties.push(v);
                self.classes.insert(j, c);
                proof {
                    assert(self@.classes =~~= add_class_property(old(self)@.classes, name@, v@));
                }
            },
            None => {},
        }
    }

    fn find_enum_eq(&self, name: &str) -> (r: Option<usize>)
        ensures
            opt_ix(r) == scan_enum_eq(self@.enums, name@, 0),
            r is Some ==> r->Some_0 < self.enums@.len(),
    {
        let n = self.enums.len();
        let mut j: usize = 0;
        while j < n
            invariant
                j <= n,
                n == self.enums@.len(),
                scan_enum_eq(self@.enums, name@, 0) == scan_enum_eq(self@.enums, name@, j as int),
            decreases n - j,
        {
            if str_eq(self.enums[j].name.as_str(), name) {
                return Some(j);
            }
            j = j + 1;
        }
        None
    }

    fn find_enum_lb(&self, name: &str) -> (r: usize)
        ensures
            r as int == scan_enum_lb(self@.enums, name@, 0),
            r <= self.enums@.len(),
    {
        let n = self.enums.len();
        let mut j: usize = 0;
        while j < n
            invariant
                j <= n,
                n == self.enums@.len(),
                scan_enum_lb(self@.enums, name@, 0) == scan_enum_lb(self@.enums, name@, j as int),
            decreases n - j,
        {
            if !str_lt(self.enums[j].name.as_str(), name) {
                return j;
            }
            j = j + 1;
        }
        n
    }

    /// Ensure an enum entry exists under this name.
    fn ensure_enum_entry(&mut self, name: &str)
        ensures
            final(self)@.enums == ensure_enum(old(self)@.enums, name@),
            final(self)@.classes == old(self)@.classes,
            final(self)@.unions == old(self)@.unions,
            final(self)@.top_funcs == old(self)@.top_funcs,
            final(self)@.top_vars == old(self)@.top_vars,
            final(self)@.seen == old(self)@.seen,
    {
        match self.find_enum_eq(name) {
            Some(_) => {},
            None => {
                let lb = self.find_enum_lb(name);
                let e = Enum { name: name.to_owned(), items: Vec::new() };
                proof {
                    assert(e@ =~= (EnumV { name: name@, items: Seq::empty() }));
                }
                self.enums.insert(lb, e);
                proof {
                    assert(self@.enums =~~= ensure_enum(old(self)@.enums, name@));
                }
            },
        }
    }

    /// Append an item to the enum entry under this name.
    fn push_enum_item(&mut self, name: &str, v: Variable)
        ensures
            final(self)@.enums == add_enum_item(old(self)@.enums, name@, v@),
            final(self)@.classes == old(self)@.classes,
            final(self)@.unions == old(self)@.unions,
            final(self)@.top_funcs == old(self)@.top_funcs,
            final(self)@.top_vars == old(self)@.top_vars,
            final(self)@.seen == old(self)@.seen,
    {
        match self.find_enum_eq(name) {
            Some(j) => {
                let mut e = self.enums.remove(j);
                e.items.push(v);
                self.enums.insert(j, e);
                proof {
                    assert(self@.enums =~~= add_enum_item(old(self)@.enums, name@, v@));
                }
            },
            None => {},
        }
    }

    fn find_union_eq(&self, name: &str) -> (r: Option<usize>)
        ensures
            opt_ix(r) == scan_union_eq(self@.unions, name@, 0),
            r is Some ==> r->Some_0 < self.unions@.len(),
    {
        let n = self.unions.len();
        let mut j: usize = 0;
        while j < n
            invariant
                j <= n,
                n == self.unions@.len(),
                scan_union_eq(self@.unions, name@, 0) == scan_union_eq(
                    self@.unions,
                    name@,
                    j as int,
                ),
            decreases n - j,
        {
            if str_eq(self.unions[j].name.as_str(), name) {
                return Some(j);
            }
            j = j + 1;
        }
        None
    }

    fn find_union_lb(&self, name: &str) -> (r: usize)
        ensures
            r as int == scan_union_lb(self@.unions, name@, 0),
            r <= self.unions@.len(),
    {
        let n = self.unions.len();
        let mut j: usize = 0;
        while j < n
            invariant
                j <= n,
                n == self.unions@.len(),
                scan_union_lb(self@.unions, name@, 0) == scan_union_lb(
                    self@.unions,
                    name@,
                    j as int,
                ),
            decreases n - j,
        {
            if !str_lt(self.unions[j].name.as_str(), name) {
                return j;
            }
            j = j + 1;
        }
        n
    }

    /// Ensure a union entry exists under this name.
    fn ensure_union_entry(&mut self, name: &str)
        ensures
            final(self)@.unions == ensure_union(old(self)@.unions, name@),
            final(self)@.classes == old(self)@.classes,
            final(self)@.enums == old(self)@.enums,
            final(self)@.top_funcs == old(self)@.top_funcs,
            final(self)@.top_vars == old(self)@.top_vars,
            final(self)@.seen == old(self)@.seen,
    {
        match self.find_union_eq(name) {
            Some(_) => {},
            None => {
                let lb = self.find_union_lb(name);
                let u = Union { name: name.to_owned(), items: Vec::new() };
                proof {
                    assert(u@ =~= (UnionV { name: name@, items: Seq::empty() }));
                }
                self.unions.insert(lb, u);
                proof {
                    assert(self@.unions =~~= ensure_union(old(self)@.unions, name@));
                }
            },
        }
    }

    /// Append an item to the union entry under this name.
    fn push_union_item(&mut self, name: &str, v: Variable)
        ensures
            final(self)@.unions == add_union_item(old(self)@.unions, name@, v@),
            final(self)@.classes == old(self)@.classes,
            final(self)@.enums == old(self)@.enums,
            final(self)@.top_funcs == old(self)@.top_funcs,
            final(self)@.top_vars == old(self)@.top_vars,
            final(self)@.seen == old(self)@.seen,
    {
        match self.find_union_eq(name) {
            Some(j) => {
                let mut u = self.unions.remove(j);
                u.items.push(v);
                self.unions.insert(j, u);
                proof {
                    assert(self@.unions =~~= add_union_item(old(self)@.unions, name@, v@));
                }
            },
            None => {},
        }
    }
}

impl Builder {
    /// Accumulate a top-level function (constructed, not emitted).
    fn push_top_func(&mut self, f: Func)
        ensures
            final(self)@.top_funcs == old(self)@.top_funcs.push(f@),
            final(self)@.classes == old(self)@.classes,
            final(self)@.enums == old(self)@.enums,
            final(self)@.unions == old(self)@.unions,
            final(self)@.top_vars == old(self)@.top_vars,
            final(self)@.seen == old(self)@.seen,
    {
        self.top_funcs.push(f);
        proof {
            assert(self@.top_funcs =~~= old(self)@.top_funcs.push(f@));
        }
    }

    /// Accumulate a top-level variable (constructed, not emitted).
    fn push_top_var(&mut self, v: Variable)
        ensures
            final(self)@.top_vars == old(self)@.top_vars.push(v@),
            final(self)@.classes == old(self)@.classes,
            final(self)@.enums == old(self)@.enums,
            final(self)@.unions == old(self)@.unions,
            final(self)@.top_funcs == old(self)@.top_funcs,
            final(self)@.seen == old(self)@.seen,
    {
        self.top_vars.push(v);
        proof {
            assert(self@.top_vars =~~= old(self)@.top_vars.push(v@));
        }
    }
}

/// Route one resolved capture to its entity-kind handler.
fn dispatch(lang: Lang, t: &SynTree, tag: &str, ix: usize, st: &mut Builder)
    requires
        wf_tree(t@),
        ix < t@.len(),
    ensures
        final(st)@ == spec_dispatch(lang, t@, tag@, ix as int, old(st)@),
{
    let name = resolve_name(lang, t, ix, tag);
    if str_eq(tag, "class") {
        if !name.as_str().is_empty() && case_ok(lang, name.as_str()) && textual_pub_ok(
            lang,
            t,
            ix,
        ) {
            let word = class_type_word(lang);
            st.ensure_class_entry(name.as_str(), word);
            let vis = visibility_of(t, ix);
            st.set_class_visibility(name.as_str(), vis);
            proof {
                assert(st@ =~~= spec_dispatch(lang, t@, tag@, ix as int, old(st)@));
            }
        } else {
            proof {
                assert(st@ =~~= spec_dispatch(lang, t@, tag@, ix as int, old(st)@));
            }
        }
    } else if str_eq(tag, "module") {
        if !name.as_str().is_empty() && case_ok(lang, name.as_str()) {
            st.ensure_class_entry(name.as_str(), "module");
        }
        proof {
            assert(st@ =~~= spec_dispatch(lang, t@, tag@, ix as int, old(st)@));
        }
    } else if str_eq(tag, "method") {
        let owner = t.closest_ancestor_name(ix);
        let f = build_func(t, ix, name);
        if !owner.as_str().is_empty() && case_ok(lang, owner.as_str()) {
            let word = class_type_word(lang);
            st.ensure_class_entry(owner.as_str(), word);
            st.push_class_method(owner.as_str(), f);
        } else {
            st.push_top_func(f);
        }
        proof {
            assert(st@ =~~= spec_dispatch(lang, t@, tag@, ix as int, old(st)@));
        }
    } else if str_eq(tag, "field") || str_eq(tag, "class_variable") {
        let owner = t.closest_ancestor_name(ix);
        let v = build_variable(t, ix, name);
        if !owner.as_str().is_empty() && case_ok(lang, owner.as_str()) {
            let word = class_type_word(lang);
            st.ensure_class_entry(owner.as_str(), word);
            st.push_class_property(owner.as_str(), v);
        } else {
            st.push_top_var(v);
        }
        proof {
            assert(st@ =~~= spec_dispatch(lang, t@, tag@, ix as int, old(st)@));
        }
    } else if str_eq(tag, "enum") {
        if !name.as_str().is_empty() && case_ok(lang, name.as_str()) && textual_pub_ok(
            lang,
            t,
            ix,
        ) {
            st.ensure_enum_entry(name.as_str());
        }
        proof {
            assert(st@ =~~= spec_dispatch(lang, t@, tag@, ix as int, old(st)@));
        }
    } else if str_eq(tag, "union") {
        if !name.as_str().is_empty() && case_ok(lang, name.as_str()) && textual_pub_ok(
            lang,
            t,
            ix,
        ) {
            st.ensure_union_entry(name.as_str());
        }
        proof {
            assert(st@ =~~= spec_dispatch(lang, t@, tag@, ix as int, old(st)@));
        }
    } else if str_eq(tag, "enum_item") {
        let owner = t.closest_ancestor_name(ix);
        if !name.as_str().is_empty() && case_ok(lang, name.as_str()) && !owner.as_str().is_empty()
            && case_ok(lang, owner.as_str()) {
            let v = build_variable(t, ix, name);
            st.ensure_enum_entry(owner.as_str());
            st.push_enum_item(owner.as_str(), v);
        }
        proof {
            assert(st@ =~~= spec_dispatch(lang, t@, tag@, ix as int, old(st)@));
        }
    } else if str_eq(tag, "union_item") {
        let owner = t.closest_ancestor_name(ix);
        if !name.as_str().is_empty() && case_ok(lang, name.as_str()) && !owner.as_str().is_empty()
            && case_ok(lang, owner.as_str()) {
            let v = build_variable(t, ix, name);
            st.ensure_union_entry(owner.as_str());
            st.push_union_item(owner.as_str(), v);
        }
        proof {
            assert(st@ =~~= spec_dispatch(lang, t@, tag@, ix as int, old(st)@));
        }
    } else if str_eq(tag, "func") {
        let f = build_func(t, ix, name);
        st.push_top_func(f);
        proof {
            assert(st@ =~~= spec_dispatch(lang, t@, tag@, ix as int, old(st)@));
        }
    } else if str_eq(tag, "variable") {
        let v = build_variable(t, ix, name);
        st.push_top_var(v);
        proof {
            assert(st@ =~~= spec_dispatch(lang, t@, tag@, ix as int, old(st)@));
        }
    } else {
        proof {
            assert(st@ =~~= spec_dispatch(lang, t@, tag@, ix as int, old(st)@));
        }
    }
}

/// Process one raw capture: check its node position, count it once per tag,
/// and dispatch it.
fn apply_capture(lang: Lang, t: &SynTree, tag: &str, ix: usize, st: &mut Builder)
    requires
        wf_tree(t@),
    ensures
        final(st)@ == spec_step(lang, t@, (tag@, ix as int), old(st)@),
{
    if ix < t.len() {
        if !st.seen_has(tag, ix) {
            st.note_seen(tag, ix);
            dispatch(lang, t, tag, ix, st);
            proof {
                assert(st@ =~~= spec_step(lang, t@, (tag@, ix as int), old(st)@));
            }
        }
    }
}

/// Whether a class passes the emission-stage visibility filter.
fn class_kept(lang: Lang, c: &Class) -> (r: bool)
    ensures
        r == spec_class_kept(lang, c@),
{
    if !crate::lang::keyword_visibility(lang) {
        return true;
    }
    match &c.visibility_modifier {
        Some(m) => str_contains(m.as_str(), "pub"),
        None => false,
    }
}

/// Emit the accumulated entities: classes first, then enums, then unions,
/// each block in name order.
fn emit_definitions(lang: Lang, st: Builder) -> (r: Vec<Definition>)
    ensures
        defs_view(r@) == spec_emit(lang, st@),
{
    let ghost cs = st@.classes;
    let ghost es = st@.enums;
    let ghost us = st@.unions;
    let mut classes = st.classes;
    let mut enums = st.enums;
    let mut unions = st.unions;
    let mut defs: Vec<Definition> = Vec::new();
    let mut k: usize = 0;
    let total_c = classes.len();
    proof {
        assert(defs_view(defs@) =~= emit_classes(lang, cs.take(0)));
    }
    while k < total_c
        invariant
            k <= total_c,
            total_c == cs.len(),
            classes@.len() == cs.len() - k,
            classes@.map_values(|c: Class| c@) =~= cs.skip(k as int),
            defs_view(defs@) == emit_classes(lang, cs.take(k as int)),
        decreases total_c - k,
    {
        proof {
            assert(classes@.map_values(|x: Class| x@)[0] == classes@[0]@);
        }
        let ghost prev = classes@;
        let c = classes.remove(0);
        proof {
            assert(c@ == cs.skip(k as int)[0]);
            assert(c@ == cs[k as int]);
            assert(classes@ =~= prev.skip(1));
            assert forall|m: int| 0 <= m < classes@.len() implies classes@.map_values(|x: Class| x@)[m] == #[trigger] cs.skip(k + 1 as int)[m] by {
                assert(classes@[m] == prev[m + 1]);
                assert(classes@.map_values(|x: Class| x@)[m] == classes@[m]@);
                assert(prev.map_values(|x: Class| x@)[m + 1] == prev[m + 1]@);
                assert(prev.map_values(|x: Class| x@)[m + 1] == cs.skip(k as int)[m + 1]);
                assert(cs.skip(k as int)[m + 1] == cs[k + 1 + m]);
                assert(cs.skip(k + 1 as int)[m] == cs[k + 1 + m]);
            };
            assert(classes@.map_values(|x: Class| x@) =~= cs.skip(k + 1 as int));
        }
        let keep = class_kept(lang, &c);
        if keep {
            defs.push(Definition::Class(c));
        }
        proof {
            assert(cs.take(k + 1 as int).drop_last() =~= cs.take(k as int));
            assert(cs.take(k + 1 as int).last() == cs[k as int]);
            assert(defs_view(defs@) =~= emit_classes(lang, cs.take(k + 1 as int)));
        }
        k = k + 1;
    }
    proof {
        assert(cs.take(total_c as int) =~= cs);
    }
    let mut k2: usize = 0;
    let total_e = enums.len();
    while k2 < total_e
        invariant
            k2 <= total_e,
            total_e == es.len(),
            enums@.len() == es.len() - k2,
            enums@.map_values(|e: Enum| e@) =~= es.skip(k2 as int),
            defs_view(defs@) == emit_classes(lang, cs) + emit_enums(es.take(k2 as int)),
        decreases total_e - k2,
    {
        proof {
            assert(enums@.map_values(|x: Enum| x@)[0] == enums@[0]@);
        }
        let ghost prev = enums@;
        let e = enums.remove(0);
        proof {
            assert(e@ == es.skip(k2 as int)[0]);
            assert(e@ == es[k2 as int]);
            assert(enums@ =~= prev.skip(1));
            assert forall|m: int| 0 <= m < enums@.len() implies enums@.map_values(|x: Enum| x@)[m] == #[trigger] es.skip(k2 + 1 as int)[m] by {
                assert(enums@[m] == prev[m + 1]);
                assert(enums@.map_values(|x: Enum| x@)[m] == enums@[m]@);
                assert(prev.map_values(|x: Enum| x@)[m + 1] == prev[m + 1]@);
                assert(prev.map_values(|x: Enum| x@)[m + 1] == es.skip(k2 as int)[m + 1]);
                assert(es.skip(k2 as int)[m + 1] == es[k2 + 1 + m]);
                assert(es.skip(k2 + 1 as int)[m] == es[k2 + 1 + m]);
            };
            assert(enums@.map_values(|x: Enum| x@) =~= es.skip(k2 + 1 as int));
        }
        let ghost dprev = defs@;
        defs.push(Definition::Enum(e));
        proof {
            assert(defs_view(defs@) =~= defs_view(dprev).push(DefinitionV::Enum(es[k2 as int])));
            assert(es.take(k2 + 1 as int).drop_last() =~= es.take(k2 as int));
            assert(es.take(k2 + 1 as int).last() == es[k2 as int]);
            assert(defs_view(defs@) =~= emit_classes(lang, cs) + emit_enums(
                es.take(k2 + 1 as int),
            ));
        }
        k2 = k2 + 1;
    }
    proof {
        assert(es.take(total_e as int) =~= es);
    }
    let mut k3: usize = 0;
    let total_u = unions.len();
    while k3 < total_u
        invariant
            k3 <= total_u,
            total_u == us.len(),
            unions@.len() == us.len() - k3,
            unions@.map_values(|u: Union| u@) =~= us.skip(k3 as int),
            defs_view(defs@) == emit_classes(lang, cs) + emit_enums(es) + emit_unions(
                us.take(k3 as int),
            ),
        decreases total_u - k3,
    {
        proof {
            assert(unions@.map_values(|x: Union| x@)[0] == unions@[0]@);
        }
        let ghost prev = unions@;
        let u = unions.remove(0);
        proof {
            assert(u@ == us.skip(k3 as int)[0]);
            assert(u@ == us[k3 as int]);
            assert(unions@ =~= prev.skip(1));
            assert forall|m: int| 0 <= m < unions@.len() implies unions@.map_values(|x: Union| x@)[m] == #[trigger] us.skip(k3 + 1 as int)[m] by {
                assert(unions@[m] == prev[m + 1]);
                assert(unions@.map_values(|x: Union| x@)[m] == unions@[m]@);
                assert(prev.map_values(|x: Union| x@)[m + 1] == prev[m + 1]@);
                assert(prev.map_values(|x: Union| x@)[m + 1] == us.skip(k3 as int)[m + 1]);
                assert(us.skip(k3 as int)[m + 1] == us[k3 + 1 + m]);
                assert(us.skip(k3 + 1 as int)[m] == us[k3 + 1 + m]);
            };
            assert(unions@.map_values(|x: Union| x@) =~= us.skip(k3 + 1 as int));
        }
        let ghost dprev = defs@;
        defs.push(Definition::Union(u));
        proof {
            assert(defs_view(defs@) =~= defs_view(dprev).push(DefinitionV::Union(us[k3 as int])));
            assert(us.take(k3 + 1 as int).drop_last() =~= us.take(k3 as int));
            assert(us.take(k3 + 1 as int).last() == us[k3 as int]);
            assert(defs_view(defs@) =~= emit_classes(lang, cs) + emit_enums(es) + emit_unions(
                us.take(k3 + 1 as int),
            ));
        }
        k3 = k3 + 1;
    }
    proof {
        assert(us.take(total_u as int) =~= us);
    }
    defs
}

/// Build definitions from a flattened tree and the captures of its query
/// run, given as capture tags and node positions.  This is the whole
/// capture-processing pass, specified exactly by `extract_model`.
pub fn extract_from_tree(lang: Lang, t: &SynTree, caps: &Vec<(String, usize)>) -> (r: Vec<
    Definition,
>)
    requires
        wf_tree(t@),
    ensures
        defs_view(r@) == extract_model(lang, t@, caps_view(caps@)),
{
    let mut st = Builder::new();
    let mut i: usize = 0;
    proof {
        assert(caps_view(caps@).take(0) =~= Seq::empty());
    }
    while i < caps.len()
        invariant
            wf_tree(t@),
            i <= caps@.len(),
            st@ == spec_fold(lang, t@, caps_view(caps@).take(i as int)),
        decreases caps@.len() - i,
    {
        let tag = caps[i].0.clone();
        let ix = caps[i].1;
        apply_capture(lang, t, tag.as_str(), ix, &mut st);
        proof {
            let cv = caps_view(caps@);
            assert(cv.take(i + 1 as int).drop_last() =~= cv.take(i as int));
            assert(cv.take(i + 1 as int).last() == cv[i as int]);
            assert(cv[i as int] == (caps@[i as int].0@, caps@[i as int].1 as int));
            assert(st@ =~~= spec_fold(lang, t@, cv.take(i + 1 as int)));
        }
        i = i + 1;
    }
    proof {
        assert(caps_view(caps@).take(caps@.len() as int) =~= caps_view(caps@));
    }
    emit_definitions(lang, st)
}

} // verus!
