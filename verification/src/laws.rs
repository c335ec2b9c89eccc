//! The library's laws: proved properties of the extraction model that hold
//! for every tree and every capture sequence, stated over the same
//! specification functions the executable contracts use.

use vstd::prelude::*;
use crate::defs::{ClassV, DefinitionV, EnumV, UnionV, def_name};
use crate::lang::{Lang, uses_case_visibility, uses_keyword_visibility};
use crate::tree::SynNodeV;
use crate::util::{is_upper_char, lex_lt, contains_seq, lemma_lex_lt_connected, lemma_lex_lt_trans};
use crate::extract::{
    BuilderV, extract_model, spec_fold, spec_step, spec_dispatch, spec_emit,
    emit_classes, emit_enums, emit_unions, spec_class_kept, ensure_class, set_class_vis,
    add_class_method, add_class_property, ensure_enum, add_enum_item, ensure_union, add_union_item,
    scan_class_eq, scan_class_lb, scan_enum_eq, scan_enum_lb, scan_union_eq, scan_union_lb,
    new_class, mark_seen, seen_contains, spec_index_of_tag, scan_tag,
};

verus! {

/// The placement rank of an emitted definition: classes and modules first,
/// then enums, then unions.
pub open spec fn def_rank(d: DefinitionV) -> int {
    match d {
        DefinitionV::Class(_) => 0,
        DefinitionV::Module(_) => 0,
        DefinitionV::Enum(_) => 1,
        DefinitionV::Union(_) => 2,
        DefinitionV::Func(_) => 3,
        DefinitionV::Variable(_) => 3,
    }
}

// ---------------------------------------------------------------------------
// Keyword-based visibility (classes pass only with the public keyword)
// ---------------------------------------------------------------------------

proof fn lemma_emit_classes_kept(lang: Lang, s: Seq<ClassV>)
    ensures
        forall|i: int|
            0 <= i < emit_classes(lang, s).len() ==> ((#[trigger] emit_classes(lang, s)[i]) matches
                DefinitionV::Class(c) && spec_class_kept(lang, c)),
    decreases s.len(),
{
    if s.len() > 0 {
        lemma_emit_classes_kept(lang, s.drop_last());
    }
}

proof fn lemma_emit_enums_shape(s: Seq<EnumV>)
    ensures
        forall|i: int|
            0 <= i < emit_enums(s).len() ==> ((#[trigger] emit_enums(s)[i]) matches
                DefinitionV::Enum(e) && s.contains(e)),
    decreases s.len(),
{
    if s.len() > 0 {
        lemma_emit_enums_shape(s.drop_last());
        assert forall|i: int| 0 <= i < emit_enums(s).len() implies ((#[trigger] emit_enums(s)[i])
            matches DefinitionV::Enum(e) && s.contains(e)) by {
            if i < emit_enums(s.drop_last()).len() {
                assert(emit_enums(s)[i] == emit_enums(s.drop_last())[i]);
                let e = emit_enums(s.drop_last())[i]->Enum_0;
                assert(s.drop_last().contains(e));
                let w = choose|w: int| 0 <= w < s.drop_last().len() && s.drop_last()[w] == e;
                assert(s[w] == e);
            } else {
                assert(emit_enums(s)[i] == DefinitionV::Enum(s.last()));
                assert(s[s.len() - 1] == s.last());
            }
        }
    }
}

proof fn lemma_emit_unions_shape(s: Seq<UnionV>)
    ensures
        forall|i: int|
            0 <= i < emit_unions(s).len() ==> ((#[trigger] emit_unions(s)[i]) matches
                DefinitionV::Union(u) && s.contains(u)),
    decreases s.len(),
{
    if s.len() > 0 {
        lemma_emit_unions_shape(s.drop_last());
        assert forall|i: int| 0 <= i < emit_unions(s).len() implies ((#[trigger] emit_unions(s)[i])
            matches DefinitionV::Union(u) && s.contains(u)) by {
            if i < emit_unions(s.drop_last()).len() {
                assert(emit_unions(s)[i] == emit_unions(s.drop_last())[i]);
                let u = emit_unions(s.drop_last())[i]->Union_0;
                assert(s.drop_last().contains(u));
                let w = choose|w: int| 0 <= w < s.drop_last().len() && s.drop_last()[w] == u;
                assert(s[w] == u);
            } else {
                assert(emit_unions(s)[i] == DefinitionV::Union(s.last()));
                assert(s[s.len() - 1] == s.last());
            }
        }
    }
}

/// Keyword-based visibility rule: for a language with an explicit
/// public-access keyword, every class entity the extractor emits carries a
/// visibility modifier holding that keyword; a class without it is omitted.
pub proof fn lemma_keyword_visibility_filter(
    lang: Lang,
    t: Seq<SynNodeV>,
    caps: Seq<(Seq<char>, int)>,
)
    requires
        uses_keyword_visibility(lang),
    ensures
        forall|i: int|
            0 <= i < extract_model(lang, t, caps).len() ==> ((#[trigger] extract_model(
                lang,
                t,
                caps,
            )[i]) matches DefinitionV::Class(c) ==> (c.visibility_modifier is Some && contains_seq(
                c.visibility_modifier->Some_0,
                "pub"@,
            ))),
{
    let st = spec_fold(lang, t, caps);
    lemma_emit_classes_kept(lang, st.classes);
    lemma_emit_enums_shape(st.enums);
    lemma_emit_unions_shape(st.unions);
    let out = extract_model(lang, t, caps);
    let nc = emit_classes(lang, st.classes).len();
    let ne = emit_enums(st.enums).len();
    assert forall|i: int| 0 <= i < out.len() implies ((#[trigger] out[i]) matches
        DefinitionV::Class(c) ==> (c.visibility_modifier is Some && contains_seq(
        c.visibility_modifier->Some_0,
        "pub"@,
    ))) by {
        if i < nc {
            assert(out[i] == emit_classes(lang, st.classes)[i]);
        } else if i < nc + ne {
            assert(out[i] == emit_enums(st.enums)[i - nc]);
        } else {
            assert(out[i] == emit_unions(st.unions)[i - nc - ne]);
        }
    }
}

// ---------------------------------------------------------------------------
// Deterministic order of the emitted entities
// ---------------------------------------------------------------------------

/// The class map is strictly sorted by name.
pub open spec fn classes_sorted(s: Seq<ClassV>) -> bool {
    forall|i: int, j: int|
        0 <= i < j < s.len() ==> lex_lt((#[trigger] s[i]).name, (#[trigger] s[j]).name)
}

/// The enum map is strictly sorted by name.
pub open spec fn enums_sorted(s: Seq<EnumV>) -> bool {
    forall|i: int, j: int|
        0 <= i < j < s.len() ==> lex_lt((#[trigger] s[i]).name, (#[trigger] s[j]).name)
}

/// The union map is strictly sorted by name.
pub open spec fn unions_sorted(s: Seq<UnionV>) -> bool {
    forall|i: int, j: int|
        0 <= i < j < s.len() ==> lex_lt((#[trigger] s[i]).name, (#[trigger] s[j]).name)
}

/// All three entity maps of a builder state are sorted.
pub open spec fn state_sorted(st: BuilderV) -> bool {
    classes_sorted(st.classes) && enums_sorted(st.enums) && unions_sorted(st.unions)
}

proof fn lemma_scan_class_eq_none(s: Seq<ClassV>, name: Seq<char>, j: int)
    requires
        0 <= j,
        scan_class_eq(s, name, j) is None,
    ensures
        forall|k: int| j <= k < s.len() ==> (#[trigger] s[k]).name != name,
    decreases s.len() - j,
{
    if 0 <= j < s.len() {
        lemma_scan_class_eq_none(s, name, j + 1);
    }
}

proof fn lemma_scan_class_lb_props(s: Seq<ClassV>, name: Seq<char>, j: int)
    requires
        0 <= j <= s.len(),
    ensures
        j <= scan_class_lb(s, name, j) <= s.len(),
        forall|k: int|
            j <= k < scan_class_lb(s, name, j) ==> lex_lt((#[trigger] s[k]).name, name),
        scan_class_lb(s, name, j) < s.len() ==> !lex_lt(
            s[scan_class_lb(s, name, j)].name,
            name,
        ),
    decreases s.len() - j,
{
    if j < s.len() {
        if lex_lt(s[j].name, name) {
            lemma_scan_class_lb_props(s, name, j + 1);
        }
    }
}

proof fn lemma_ensure_class_sorted(s: Seq<ClassV>, name: Seq<char>, word: Seq<char>)
    requires
        classes_sorted(s),
    ensures
        classes_sorted(ensure_class(s, name, word)),
{
    if scan_class_eq(s, name, 0) is None {
        lemma_scan_class_eq_none(s, name, 0);
        lemma_scan_class_lb_props(s, name, 0);
        let lb = scan_class_lb(s, name, 0);
        let r = s.insert(lb, new_class(name, word));
        assert forall|i: int, j: int| 0 <= i < j < r.len() implies lex_lt(
            (#[trigger] r[i]).name,
            (#[trigger] r[j]).name,
        ) by {
            if lb < s.len() {
                assert(!lex_lt(s[lb].name, name));
                assert(s[lb].name != name);
                lemma_lex_lt_connected(s[lb].name, name);
                assert(lex_lt(name, s[lb].name));
            }
            if i < lb && j == lb {
                assert(r[i] == s[i]);
                assert(r[j].name == name);
            } else if i == lb && j > lb {
                assert(r[j] == s[j - 1]);
                if j - 1 > lb {
                    lemma_lex_lt_trans(name, s[lb].name, s[j - 1].name);
                }
            } else if i < lb && j > lb {
                assert(r[i] == s[i]);
                assert(r[j] == s[j - 1]);
            } else if i < lb && j < lb {
                assert(r[i] == s[i]);
                assert(r[j] == s[j]);
            } else if i > lb && j > lb {
                assert(r[i] == s[i - 1]);
                assert(r[j] == s[j - 1]);
            }
        }
    }
}

proof fn lemma_scan_class_eq_some(s: Seq<ClassV>, name: Seq<char>, j: int)
    requires
        0 <= j,
        scan_class_eq(s, name, j) is Some,
    ensures
        j <= scan_class_eq(s, name, j)->Some_0 < s.len(),
        s[scan_class_eq(s, name, j)->Some_0].name == name,
    decreases s.len() - j,
{
    if j < s.len() && s[j].name != name {
        lemma_scan_class_eq_some(s, name, j + 1);
    }
}

proof fn lemma_class_update_sorted(s: Seq<ClassV>, r: Seq<ClassV>)
    requires
        r.len() == s.len(),
        forall|k: int| 0 <= k < s.len() ==> (#[trigger] r[k]).name == s[k].name,
        classes_sorted(s),
    ensures
        classes_sorted(r),
{
}

proof fn lemma_set_class_vis_sorted(s: Seq<ClassV>, name: Seq<char>, vis: Option<Seq<char>>)
    requires
        classes_sorted(s),
    ensures
        classes_sorted(set_class_vis(s, name, vis)),
{
    if scan_class_eq(s, name, 0) is Some {
        lemma_scan_class_eq_some(s, name, 0);
        lemma_class_update_sorted(s, set_class_vis(s, name, vis));
    }
}

proof fn lemma_add_class_method_sorted(s: Seq<ClassV>, name: Seq<char>, f: crate::defs::FuncV)
    requires
        classes_sorted(s),
    ensures
        classes_sorted(add_class_method(s, name, f)),
{
    if scan_class_eq(s, name, 0) is Some {
        lemma_scan_class_eq_some(s, name, 0);
        lemma_class_update_sorted(s, add_class_method(s, name, f));
    }
}

proof fn lemma_add_class_property_sorted(
    s: Seq<ClassV>,
    name: Seq<char>,
    v: crate::defs::VariableV,
)
    requires
        classes_sorted(s),
    ensures
        classes_sorted(add_class_property(s, name, v)),
{
    if scan_class_eq(s, name, 0) is Some {
        lemma_scan_class_eq_some(s, name, 0);
        lemma_class_update_sorted(s, add_class_property(s, name, v));
    }
}

proof fn lemma_scan_enum_eq_none(s: Seq<EnumV>, name: Seq<char>, j: int)
    requires
        0 <= j,
        scan_enum_eq(s, name, j) is None,
    ensures
        forall|k: int| j <= k < s.len() ==> (#[trigger] s[k]).name != name,
    decreases s.len() - j,
{
    if 0 <= j < s.len() {
        lemma_scan_enum_eq_none(s, name, j + 1);
    }
}

proof fn lemma_scan_enum_lb_props(s: Seq<EnumV>, name: Seq<char>, j: int)
    requires
        0 <= j <= s.len(),
    ensures
        j <= scan_enum_lb(s, name, j) <= s.len(),
        forall|k: int| j <= k < scan_enum_lb(s, name, j) ==> lex_lt((#[trigger] s[k]).name, name),
        scan_enum_lb(s, name, j) < s.len() ==> !lex_lt(s[scan_enum_lb(s, name, j)].name, name),
    decreases s.len() - j,
{
    if j < s.len() {
        if lex_lt(s[j].name, name) {
            lemma_scan_enum_lb_props(s, name, j + 1);
        }
    }
}

proof fn lemma_ensure_enum_sorted(s: Seq<EnumV>, name: Seq<char>)
    requires
        enums_sorted(s),
    ensures
        enums_sorted(ensure_enum(s, name)),
{
    if scan_enum_eq(s, name, 0) is None {
        lemma_scan_enum_eq_none(s, name, 0);
        lemma_scan_enum_lb_props(s, name, 0);
        let lb = scan_enum_lb(s, name, 0);
        let r = ensure_enum(s, name);
        assert forall|i: int, j: int| 0 <= i < j < r.len() implies lex_lt(
            (#[trigger] r[i]).name,
            (#[trigger] r[j]).name,
        ) by {
            if lb < s.len() {
                assert(!lex_lt(s[lb].name, name));
                assert(s[lb].name != name);
                lemma_lex_lt_connected(s[lb].name, name);
            }
            if i < lb && j == lb {
                assert(r[i] == s[i]);
            } else if i == lb && j > lb {
                assert(r[j] == s[j - 1]);
                if j - 1 > lb {
                    lemma_lex_lt_trans(name, s[lb].name, s[j - 1].name);
                }
            } else if i < lb && j > lb {
                assert(r[i] == s[i]);
                assert(r[j] == s[j - 1]);
            } else if i < lb && j < lb {
                assert(r[i] == s[i]);
                assert(r[j] == s[j]);
            } else if i > lb && j > lb {
                assert(r[i] == s[i - 1]);
                assert(r[j] == s[j - 1]);
            }
        }
    }
}

proof fn lemma_scan_enum_eq_some(s: Seq<EnumV>, name: Seq<char>, j: int)
    requires
        0 <= j,
        scan_enum_eq(s, name, j) is Some,
    ensures
        j <= scan_enum_eq(s, name, j)->Some_0 < s.len(),
        s[scan_enum_eq(s, name, j)->Some_0].name == name,
    decreases s.len() - j,
{
    if j < s.len() && s[j].name != name {
        lemma_scan_enum_eq_some(s, name, j + 1);
    }
}

proof fn lemma_add_enum_item_sorted(s: Seq<EnumV>, name: Seq<char>, v: crate::defs::VariableV)
    requires
        enums_sorted(s),
    ensures
        enums_sorted(add_enum_item(s, name, v)),
{
    if scan_enum_eq(s, name, 0) is Some {
        lemma_scan_enum_eq_some(s, name, 0);
        let r = add_enum_item(s, name, v);
        assert(forall|k: int| 0 <= k < s.len() ==> (#[trigger] r[k]).name == s[k].name);
    }
}

proof fn lemma_scan_union_eq_none(s: Seq<UnionV>, name: Seq<char>, j: int)
    requires
        0 <= j,
        scan_union_eq(s, name, j) is None,
    ensures
        forall|k: int| j <= k < s.len() ==> (#[trigger] s[k]).name != name,
    decreases s.len() - j,
{
    if 0 <= j < s.len() {
        lemma_scan_union_eq_none(s, name, j + 1);
    }
}

proof fn lemma_scan_union_lb_props(s: Seq<UnionV>, name: Seq<char>, j: int)
    requires
        0 <= j <= s.len(),
    ensures
        j <= scan_union_lb(s, name, j) <= s.len(),
        forall|k: int| j <= k < scan_union_lb(s, name, j) ==> lex_lt((#[trigger] s[k]).name, name),
        scan_union_lb(s, name, j) < s.len() ==> !lex_lt(s[scan_union_lb(s, name, j)].name, name),
    decreases s.len() - j,
{
    if j < s.len() {
        if lex_lt(s[j].name, name) {
            lemma_scan_union_lb_props(s, name, j + 1);
        }
    }
}

proof fn lemma_ensure_union_sorted(s: Seq<UnionV>, name: Seq<char>)
    requires
        unions_sorted(s),
    ensures
        unions_sorted(ensure_union(s, name)),
{
    if scan_union_eq(s, name, 0) is None {
        lemma_scan_union_eq_none(s, name, 0);
        lemma_scan_union_lb_props(s, name, 0);
        let lb = scan_union_lb(s, name, 0);
        let r = ensure_union(s, name);
        assert forall|i: int, j: int| 0 <= i < j < r.len() implies lex_lt(
            (#[trigger] r[i]).name,
            (#[trigger] r[j]).name,
        ) by {
            if lb < s.len() {
                assert(!lex_lt(s[lb].name, name));
                assert(s[lb].name != name);
                lemma_lex_lt_connected(s[lb].name, name);
            }
            if i < lb && j == lb {
                assert(r[i] == s[i]);
            } else if i == lb && j > lb {
                assert(r[j] == s[j - 1]);
                if j - 1 > lb {
                    lemma_lex_lt_trans(name, s[lb].name, s[j - 1].name);
                }
            } else if i < lb && j > lb {
                assert(r[i] == s[i]);
                assert(r[j] == s[j - 1]);
            } else if i < lb && j < lb {
                assert(r[i] == s[i]);
                assert(r[j] == s[j]);
            } else if i > lb && j > lb {
                assert(r[i] == s[i - 1]);
                assert(r[j] == s[j - 1]);
            }
        }
    }
}

proof fn lemma_scan_union_eq_some(s: Seq<UnionV>, name: Seq<char>, j: int)
    requires
        0 <= j,
        scan_union_eq(s, name, j) is Some,
    ensures
        j <= scan_union_eq(s, name, j)->Some_0 < s.len(),
        s[scan_union_eq(s, name, j)->Some_0].name == name,
    decreases s.len() - j,
{
    if j < s.len() && s[j].name != name {
        lemma_scan_union_eq_some(s, name, j + 1);
    }
}

proof fn lemma_add_union_item_sorted(s: Seq<UnionV>, name: Seq<char>, v: crate::defs::VariableV)
    requires
        unions_sorted(s),
    ensures
        unions_sorted(add_union_item(s, name, v)),
{
    if scan_union_eq(s, name, 0) is Some {
        lemma_scan_union_eq_some(s, name, 0);
        let r = add_union_item(s, name, v);
        assert(forall|k: int| 0 <= k < s.len() ==> (#[trigger] r[k]).name == s[k].name);
    }
}

/// One dispatch step keeps every entity map sorted.
proof fn lemma_dispatch_sorted(
    lang: Lang,
    t: Seq<SynNodeV>,
    tag: Seq<char>,
    ix: int,
    st: BuilderV,
)
    requires
        state_sorted(st),
    ensures
        state_sorted(spec_dispatch(lang, t, tag, ix, st)),
{
    let name = crate::extract::spec_resolve_name(lang, t, ix, tag);
    let owner = crate::tree::spec_closest_ancestor_name(t, ix);
    let word = crate::lang::spec_class_type_word(lang);
    lemma_ensure_class_sorted(st.classes, name, word);
    lemma_ensure_class_sorted(st.classes, owner, word);
    lemma_ensure_class_sorted(st.classes, name, "module"@);
    let ec1 = ensure_class(st.classes, name, word);
    let eco = ensure_class(st.classes, owner, word);
    let vis = crate::extract::spec_visibility(t, ix);
    lemma_set_class_vis_sorted(ec1, name, vis);
    let f = crate::extract::spec_build_func(t, ix, name);
    lemma_add_class_method_sorted(eco, owner, f);
    let v = crate::extract::spec_build_variable(t, ix, name);
    lemma_add_class_property_sorted(eco, owner, v);
    lemma_ensure_enum_sorted(st.enums, name);
    lemma_ensure_enum_sorted(st.enums, owner);
    lemma_add_enum_item_sorted(ensure_enum(st.enums, owner), owner, v);
    lemma_ensure_union_sorted(st.unions, name);
    lemma_ensure_union_sorted(st.unions, owner);
    lemma_add_union_item_sorted(ensure_union(st.unions, owner), owner, v);
}

/// Folding any capture sequence keeps every entity map sorted.
proof fn lemma_fold_sorted(lang: Lang, t: Seq<SynNodeV>, caps: Seq<(Seq<char>, int)>)
    ensures
        state_sorted(spec_fold(lang, t, caps)),
    decreases caps.len(),
{
    if caps.len() == 0 {
    } else {
        lemma_fold_sorted(lang, t, caps.drop_last());
        let st = spec_fold(lang, t, caps.drop_last());
        let cap = caps.last();
        if 0 <= cap.1 < t.len() && !seen_contains(st.seen, cap.0, cap.1) {
            let marked = BuilderV { seen: mark_seen(st.seen, cap.0, cap.1), ..st };
            lemma_dispatch_sorted(lang, t, cap.0, cap.1, marked);
        }
    }
}

proof fn lemma_emit_classes_sorted(lang: Lang, s: Seq<ClassV>)
    requires
        classes_sorted(s),
    ensures
        forall|i: int|
            0 <= i < emit_classes(lang, s).len() ==> exists|k: int|
                0 <= k < s.len() && (#[trigger] emit_classes(lang, s)[i]) == DefinitionV::Class(
                    s[k],
                ),
        forall|i: int, j: int|
            0 <= i < j < emit_classes(lang, s).len() ==> lex_lt(
                def_name(#[trigger] emit_classes(lang, s)[i]),
                def_name(#[trigger] emit_classes(lang, s)[j]),
            ),
    decreases s.len(),
{
    if s.len() > 0 {
        lemma_emit_classes_sorted(lang, s.drop_last());
        let e0 = emit_classes(lang, s.drop_last());
        let e = emit_classes(lang, s);
        assert forall|i: int| 0 <= i < e.len() implies exists|k: int|
            0 <= k < s.len() && (#[trigger] e[i]) == DefinitionV::Class(s[k]) by {
            if i < e0.len() {
                assert(e[i] == e0[i]);
                let k = choose|k: int|
                    0 <= k < s.drop_last().len() && e0[i] == DefinitionV::Class(
                        s.drop_last()[k],
                    );
                assert(s[k] == s.drop_last()[k]);
                assert(e[i] == DefinitionV::Class(s[k]));
            } else {
                assert(e[i] == DefinitionV::Class(s.last()));
                assert(s[s.len() - 1] == s.last());
            }
        }
        assert forall|i: int, j: int| 0 <= i < j < e.len() implies lex_lt(
            def_name(#[trigger] e[i]),
            def_name(#[trigger] e[j]),
        ) by {
            if j < e0.len() {
                assert(e[i] == e0[i]);
                assert(e[j] == e0[j]);
            } else {
                assert(e[j] == DefinitionV::Class(s.last()));
                assert(e[i] == e0[i]);
                let k = choose|k: int|
                    0 <= k < s.drop_last().len() && e0[i] == DefinitionV::Class(
                        s.drop_last()[k],
                    );
                assert(s[k] == s.drop_last()[k]);
                assert(lex_lt(s[k].name, s[s.len() - 1].name));
            }
        }
    }
}

proof fn lemma_emit_enums_pointwise(s: Seq<EnumV>)
    ensures
        emit_enums(s).len() == s.len(),
        forall|i: int|
            0 <= i < s.len() ==> (#[trigger] emit_enums(s)[i]) == DefinitionV::Enum(s[i]),
    decreases s.len(),
{
    if s.len() > 0 {
        lemma_emit_enums_pointwise(s.drop_last());
        assert forall|i: int| 0 <= i < s.len() implies (#[trigger] emit_enums(s)[i])
            == DefinitionV::Enum(s[i]) by {
            if i < s.len() - 1 {
                assert(emit_enums(s)[i] == emit_enums(s.drop_last())[i]);
                assert(s.drop_last()[i] == s[i]);
            } else {
                assert(emit_enums(s)[i] == DefinitionV::Enum(s.last()));
            }
        }
    }
}

proof fn lemma_emit_unions_pointwise(s: Seq<UnionV>)
    ensures
        emit_unions(s).len() == s.len(),
        forall|i: int|
            0 <= i < s.len() ==> (#[trigger] emit_unions(s)[i]) == DefinitionV::Union(s[i]),
    decreases s.len(),
{
    if s.len() > 0 {
        lemma_emit_unions_pointwise(s.drop_last());
        assert forall|i: int| 0 <= i < s.len() implies (#[trigger] emit_unions(s)[i])
            == DefinitionV::Union(s[i]) by {
            if i < s.len() - 1 {
                assert(emit_unions(s)[i] == emit_unions(s.drop_last())[i]);
                assert(s.drop_last()[i] == s[i]);
            } else {
                assert(emit_unions(s)[i] == DefinitionV::Union(s.last()));
            }
        }
    }
}

/// Determinism of the emitted order: whatever order the captures arrive in,
/// the emitted list holds classes, then enums, then unions, and within each
/// block the entities stand in strictly increasing name order.  Shuffling
/// unrelated declarations can therefore only change which entities exist,
/// never the relative order of the ones that do.
pub proof fn lemma_output_ordered(lang: Lang, t: Seq<SynNodeV>, caps: Seq<(Seq<char>, int)>)
    ensures
        forall|i: int|
            0 <= i < extract_model(lang, t, caps).len() ==> def_rank(
                #[trigger] extract_model(lang, t, caps)[i],
            ) <= 2,
        forall|i: int, j: int|
            0 <= i < j < extract_model(lang, t, caps).len() ==> def_rank(
                #[trigger] extract_model(lang, t, caps)[i],
            ) <= def_rank(#[trigger] extract_model(lang, t, caps)[j]),
        forall|i: int, j: int|
            0 <= i < j < extract_model(lang, t, caps).len() && def_rank(
                #[trigger] extract_model(lang, t, caps)[i],
            ) == def_rank(#[trigger] extract_model(lang, t, caps)[j]) ==> lex_lt(
                def_name(extract_model(lang, t, caps)[i]),
                def_name(extract_model(lang, t, caps)[j]),
            ),
{
    lemma_fold_sorted(lang, t, caps);
    let st = spec_fold(lang, t, caps);
    let out = extract_model(lang, t, caps);
    lemma_emit_classes_sorted(lang, st.classes);
    lemma_emit_enums_pointwise(st.enums);
    lemma_emit_unions_pointwise(st.unions);
    let ec = emit_classes(lang, st.classes);
    let ee = emit_enums(st.enums);
    let eu = emit_unions(st.unions);
    assert forall|i: int| 0 <= i < out.len() implies def_rank(#[trigger] out[i]) <= 2 by {
        if i < ec.len() {
            assert(out[i] == ec[i]);
            let k = choose|k: int|
                0 <= k < st.classes.len() && ec[i] == DefinitionV::Class(st.classes[k]);
        } else if i < ec.len() + ee.len() {
            assert(out[i] == ee[i - ec.len()]);
        } else {
            assert(out[i] == eu[i - ec.len() - ee.len()]);
        }
    }
    assert forall|i: int, j: int| 0 <= i < j < out.len() implies def_rank(#[trigger] out[i])
        <= def_rank(#[trigger] out[j]) by {
        lemma_block_facts(lang, st, i);
        lemma_block_facts(lang, st, j);
    }
    assert forall|i: int, j: int|
        0 <= i < j < out.len() && def_rank(#[trigger] out[i]) == def_rank(
            #[trigger] out[j],
        ) implies lex_lt(def_name(out[i]), def_name(out[j])) by {
        lemma_block_facts(lang, st, i);
        lemma_block_facts(lang, st, j);
        if i < ec.len() && j < ec.len() {
        } else if ec.len() <= i && i < ec.len() + ee.len() && ec.len() <= j && j < ec.len()
            + ee.len() {
            assert(out[i] == ee[i - ec.len()]);
            assert(out[j] == ee[j - ec.len()]);
            assert(out[i] == DefinitionV::Enum(st.enums[i - ec.len()]));
            assert(out[j] == DefinitionV::Enum(st.enums[j - ec.len()]));
        } else if ec.len() + ee.len() <= i && ec.len() + ee.len() <= j {
            assert(out[i] == DefinitionV::Union(st.unions[i - ec.len() - ee.len()]));
            assert(out[j] == DefinitionV::Union(st.unions[j - ec.len() - ee.len()]));
        }
    }
}

/// Which block an output position falls in, and its rank there.
proof fn lemma_block_facts(lang: Lang, st: BuilderV, i: int)
    requires
        classes_sorted(st.classes),
        0 <= i < spec_emit(lang, st).len(),
    ensures
        i < emit_classes(lang, st.classes).len() ==> def_rank(spec_emit(lang, st)[i]) == 0,
        emit_classes(lang, st.classes).len() <= i < emit_classes(lang, st.classes).len()
            + emit_enums(st.enums).len() ==> def_rank(spec_emit(lang, st)[i]) == 1,
        emit_classes(lang, st.classes).len() + emit_enums(st.enums).len() <= i ==> def_rank(
            spec_emit(lang, st)[i],
        ) == 2,
{
    lemma_emit_classes_sorted(lang, st.classes);
    lemma_emit_enums_pointwise(st.enums);
    lemma_emit_unions_pointwise(st.unions);
    let ec = emit_classes(lang, st.classes);
    let ee = emit_enums(st.enums);
    let eu = emit_unions(st.unions);
    let out = spec_emit(lang, st);
    if i < ec.len() {
        assert(out[i] == ec[i]);
        let k = choose|k: int|
            0 <= k < st.classes.len() && ec[i] == DefinitionV::Class(st.classes[k]);
    } else if i < ec.len() + ee.len() {
        assert(out[i] == ee[i - ec.len()]);
    } else {
        assert(out[i] == eu[i - ec.len() - ee.len()]);
    }
}

// ---------------------------------------------------------------------------
// Case-as-visibility filtering
// ---------------------------------------------------------------------------

/// Every class entry's name begins with an uppercase letter.
pub open spec fn classes_upper(s: Seq<ClassV>) -> bool {
    forall|k: int|
        0 <= k < s.len() ==> ((#[trigger] s[k]).name.len() > 0 && is_upper_char(s[k].name[0]))
}

pub open spec fn enums_upper(s: Seq<EnumV>) -> bool {
    forall|k: int|
        0 <= k < s.len() ==> ((#[trigger] s[k]).name.len() > 0 && is_upper_char(s[k].name[0]))
}

pub open spec fn unions_upper(s: Seq<UnionV>) -> bool {
    forall|k: int|
        0 <= k < s.len() ==> ((#[trigger] s[k]).name.len() > 0 && is_upper_char(s[k].name[0]))
}

pub open spec fn state_upper(st: BuilderV) -> bool {
    classes_upper(st.classes) && enums_upper(st.enums) && unions_upper(st.unions)
}

proof fn lemma_ensure_class_upper(s: Seq<ClassV>, name: Seq<char>, word: Seq<char>)
    requires
        classes_upper(s),
        name.len() > 0 && is_upper_char(name[0]),
    ensures
        classes_upper(ensure_class(s, name, word)),
{
    if scan_class_eq(s, name, 0) is None {
        lemma_scan_class_lb_props(s, name, 0);
        let lb = scan_class_lb(s, name, 0);
        let r = s.insert(lb, new_class(name, word));
        assert forall|k: int| 0 <= k < r.len() implies ((#[trigger] r[k]).name.len() > 0
            && is_upper_char(r[k].name[0])) by {
            if k < lb {
                assert(r[k] == s[k]);
            } else if k == lb {
                assert(r[k].name == name);
            } else {
                assert(r[k] == s[k - 1]);
            }
        }
    }
}

proof fn lemma_ensure_enum_upper(s: Seq<EnumV>, name: Seq<char>)
    requires
        enums_upper(s),
        name.len() > 0 && is_upper_char(name[0]),
    ensures
        enums_upper(ensure_enum(s, name)),
{
    if scan_enum_eq(s, name, 0) is None {
        lemma_scan_enum_lb_props(s, name, 0);
        let lb = scan_enum_lb(s, name, 0);
        let r = ensure_enum(s, name);
        assert forall|k: int| 0 <= k < r.len() implies ((#[trigger] r[k]).name.len() > 0
            && is_upper_char(r[k].name[0])) by {
            if k < lb {
                assert(r[k] == s[k]);
            } else if k == lb {
                assert(r[k].name == name);
            } else {
                assert(r[k] == s[k - 1]);
            }
        }
    }
}

proof fn lemma_ensure_union_upper(s: Seq<UnionV>, name: Seq<char>)
    requires
        unions_upper(s),
        name.len() > 0 && is_upper_char(name[0]),
    ensures
        unions_upper(ensure_union(s, name)),
{
    if scan_union_eq(s, name, 0) is None {
        lemma_scan_union_lb_props(s, name, 0);
        let lb = scan_union_lb(s, name, 0);
        let r = ensure_union(s, name);
        assert forall|k: int| 0 <= k < r.len() implies ((#[trigger] r[k]).name.len() > 0
            && is_upper_char(r[k].name[0])) by {
            if k < lb {
                assert(r[k] == s[k]);
            } else if k == lb {
                assert(r[k].name == name);
            } else {
                assert(r[k] == s[k - 1]);
            }
        }
    }
}

proof fn lemma_set_class_vis_upper(s: Seq<ClassV>, name: Seq<char>, vis: Option<Seq<char>>)
    requires
        classes_upper(s),
    ensures
        classes_upper(set_class_vis(s, name, vis)),
{
    if scan_class_eq(s, name, 0) is Some {
        lemma_scan_class_eq_some(s, name, 0);
    }
}

proof fn lemma_add_class_method_upper(s: Seq<ClassV>, name: Seq<char>, f: crate::defs::FuncV)
    requires
        classes_upper(s),
    ensures
        classes_upper(add_class_method(s, name, f)),
{
    if scan_class_eq(s, name, 0) is Some {
        lemma_scan_class_eq_some(s, name, 0);
    }
}

proof fn lemma_add_class_property_upper(s: Seq<ClassV>, name: Seq<char>, v: crate::defs::VariableV)
    requires
        classes_upper(s),
    ensures
        classes_upper(add_class_property(s, name, v)),
{
    if scan_class_eq(s, name, 0) is Some {
        lemma_scan_class_eq_some(s, name, 0);
    }
}

proof fn lemma_add_enum_item_upper(s: Seq<EnumV>, name: Seq<char>, v: crate::defs::VariableV)
    requires
        enums_upper(s),
    ensures
        enums_upper(add_enum_item(s, name, v)),
{
    if scan_enum_eq(s, name, 0) is Some {
        lemma_scan_enum_eq_some(s, name, 0);
    }
}

proof fn lemma_add_union_item_upper(s: Seq<UnionV>, name: Seq<char>, v: crate::defs::VariableV)
    requires
        unions_upper(s),
    ensures
        unions_upper(add_union_item(s, name, v)),
{
    if scan_union_eq(s, name, 0) is Some {
        lemma_scan_union_eq_some(s, name, 0);
    }
}

proof fn lemma_dispatch_upper(lang: Lang, t: Seq<SynNodeV>, tag: Seq<char>, ix: int, st: BuilderV)
    requires
        uses_case_visibility(lang),
        state_upper(st),
    ensures
        state_upper(spec_dispatch(lang, t, tag, ix, st)),
{
    let name = crate::extract::spec_resolve_name(lang, t, ix, tag);
    let owner = crate::tree::spec_closest_ancestor_name(t, ix);
    let word = crate::lang::spec_class_type_word(lang);
    if name.len() > 0 && is_upper_char(name[0]) {
        lemma_ensure_class_upper(st.classes, name, word);
        lemma_ensure_class_upper(st.classes, name, "module"@);
        lemma_set_class_vis_upper(
            ensure_class(st.classes, name, word),
            name,
            crate::extract::spec_visibility(t, ix),
        );
        lemma_ensure_enum_upper(st.enums, name);
        lemma_ensure_union_upper(st.unions, name);
    }
    if owner.len() > 0 && is_upper_char(owner[0]) {
        lemma_ensure_class_upper(st.classes, owner, word);
        lemma_add_class_method_upper(
            ensure_class(st.classes, owner, word),
            owner,
            crate::extract::spec_build_func(t, ix, name),
        );
        lemma_add_class_property_upper(
            ensure_class(st.classes, owner, word),
            owner,
            crate::extract::spec_build_variable(t, ix, name),
        );
        lemma_ensure_enum_upper(st.enums, owner);
        lemma_add_enum_item_upper(
            ensure_enum(st.enums, owner),
            owner,
            crate::extract::spec_build_variable(t, ix, name),
        );
        lemma_ensure_union_upper(st.unions, owner);
        lemma_add_union_item_upper(
            ensure_union(st.unions, owner),
            owner,
            crate::extract::spec_build_variable(t, ix, name),
        );
    }
}

proof fn lemma_fold_upper(lang: Lang, t: Seq<SynNodeV>, caps: Seq<(Seq<char>, int)>)
    requires
        uses_case_visibility(lang),
    ensures
        state_upper(spec_fold(lang, t, caps)),
    decreases caps.len(),
{
    if caps.len() > 0 {
        lemma_fold_upper(lang, t, caps.drop_last());
        let st = spec_fold(lang, t, caps.drop_last());
        let cap = caps.last();
        if 0 <= cap.1 < t.len() && !seen_contains(st.seen, cap.0, cap.1) {
            let marked = BuilderV { seen: mark_seen(st.seen, cap.0, cap.1), ..st };
            lemma_dispatch_upper(lang, t, cap.0, cap.1, marked);
        }
    }
}

/// Case-sensitive export rule: for a language whose visibility is the case
/// of the first letter, every emitted definition's name begins with an
/// uppercase letter; a lowercase-named symbol never appears.
pub proof fn lemma_case_visibility_filter(lang: Lang, t: Seq<SynNodeV>, caps: Seq<(Seq<char>, int)>)
    requires
        uses_case_visibility(lang),
    ensures
        forall|i: int|
            0 <= i < extract_model(lang, t, caps).len() ==> (def_name(
                #[trigger] extract_model(lang, t, caps)[i],
            ).len() > 0 && is_upper_char(def_name(extract_model(lang, t, caps)[i])[0])),
{
    lemma_fold_upper(lang, t, caps);
    let st = spec_fold(lang, t, caps);
    let out = extract_model(lang, t, caps);
    lemma_fold_sorted(lang, t, caps);
    lemma_emit_classes_sorted(lang, st.classes);
    lemma_emit_enums_pointwise(st.enums);
    lemma_emit_unions_pointwise(st.unions);
    let ec = emit_classes(lang, st.classes);
    let ee = emit_enums(st.enums);
    let eu = emit_unions(st.unions);
    assert forall|i: int| 0 <= i < out.len() implies (def_name(#[trigger] out[i]).len() > 0
        && is_upper_char(def_name(out[i])[0])) by {
        if i < ec.len() {
            assert(out[i] == ec[i]);
            let k = choose|k: int|
                0 <= k < st.classes.len() && ec[i] == DefinitionV::Class(st.classes[k]);
            assert(st.classes[k].name.len() > 0);
        } else if i < ec.len() + ee.len() {
            assert(out[i] == ee[i - ec.len()]);
            assert(out[i] == DefinitionV::Enum(st.enums[i - ec.len()]));
        } else {
            assert(out[i] == eu[i - ec.len() - ee.len()]);
            assert(out[i] == DefinitionV::Union(st.unions[i - ec.len() - ee.len()]));
        }
    }
}

// ---------------------------------------------------------------------------
// Empty source yields empty output
// ---------------------------------------------------------------------------

proof fn lemma_ruby_parts_empty(t: Seq<SynNodeV>, j: int)
    requires
        crate::tree::texts_bounded(t, 0),
    ensures
        crate::extract::spec_ruby_parts(t, j).len() == 0,
    decreases j,
{
    if 0 <= j < t.len() {
        match t[j].parent {
            Some(p) => {
                if 0 <= p < j {
                    lemma_ruby_parts_empty(t, p);
                }
            },
            None => {},
        }
    }
}

proof fn lemma_ancestor_name_empty(t: Seq<SynNodeV>, j: int)
    requires
        crate::tree::texts_bounded(t, 0),
    ensures
        crate::tree::spec_closest_ancestor_name(t, j).len() == 0,
    decreases j,
{
    if 0 <= j < t.len() {
        match t[j].parent {
            Some(p) => {
                if 0 <= p < j {
                    lemma_ancestor_name_empty(t, p);
                }
            },
            None => {},
        }
    }
}

proof fn lemma_resolve_name_empty(lang: Lang, t: Seq<SynNodeV>, ix: int, tag: Seq<char>)
    requires
        crate::tree::texts_bounded(t, 0),
    ensures
        crate::extract::spec_resolve_name(lang, t, ix, tag).len() == 0,
{
    lemma_ruby_parts_empty(t, ix);
}

/// One dispatch step adds no entity when every node text is empty: every
/// resolved name and owner is empty, so nothing passes the non-empty-name
/// guards.
proof fn lemma_dispatch_no_entities(
    lang: Lang,
    t: Seq<SynNodeV>,
    tag: Seq<char>,
    ix: int,
    st: BuilderV,
)
    requires
        crate::tree::texts_bounded(t, 0),
    ensures
        spec_dispatch(lang, t, tag, ix, st).classes == st.classes,
        spec_dispatch(lang, t, tag, ix, st).enums == st.enums,
        spec_dispatch(lang, t, tag, ix, st).unions == st.unions,
{
    lemma_resolve_name_empty(lang, t, ix, tag);
    lemma_ancestor_name_empty(t, ix);
}

proof fn lemma_fold_no_entities(lang: Lang, t: Seq<SynNodeV>, caps: Seq<(Seq<char>, int)>)
    requires
        crate::tree::texts_bounded(t, 0),
    ensures
        spec_fold(lang, t, caps).classes == Seq::<ClassV>::empty(),
        spec_fold(lang, t, caps).enums == Seq::<EnumV>::empty(),
        spec_fold(lang, t, caps).unions == Seq::<UnionV>::empty(),
    decreases caps.len(),
{
    if caps.len() > 0 {
        lemma_fold_no_entities(lang, t, caps.drop_last());
        let st = spec_fold(lang, t, caps.drop_last());
        let cap = caps.last();
        if 0 <= cap.1 < t.len() && !seen_contains(st.seen, cap.0, cap.1) {
            let marked = BuilderV { seen: mark_seen(st.seen, cap.0, cap.1), ..st };
            lemma_dispatch_no_entities(lang, t, cap.0, cap.1, marked);
        }
    }
}

/// Extracting from a tree whose node texts are all empty — as parsing an
/// empty source yields — produces no definitions, whatever the captures.
pub proof fn lemma_empty_source_empty_output(
    lang: Lang,
    t: Seq<SynNodeV>,
    caps: Seq<(Seq<char>, int)>,
)
    requires
        crate::tree::texts_bounded(t, 0),
    ensures
        extract_model(lang, t, caps).len() == 0,
{
    lemma_fold_no_entities(lang, t, caps);
}

// ---------------------------------------------------------------------------
// Duplicate-capture guard
// ---------------------------------------------------------------------------

proof fn lemma_scan_tag_update(
    s: Seq<(Seq<char>, Seq<int>)>,
    j: int,
    ids: Seq<int>,
    tag: Seq<char>,
    i: int,
)
    requires
        0 <= j < s.len(),
    ensures
        scan_tag(s.update(j, (s[j].0, ids)), tag, i) == scan_tag(s, tag, i),
    decreases s.len() - i,
{
    let r = s.update(j, (s[j].0, ids));
    if 0 <= i < s.len() {
        assert(r[i].0 == s[i].0);
        lemma_scan_tag_update(s, j, ids, tag, i + 1);
    }
}

proof fn lemma_scan_tag_push(
    s: Seq<(Seq<char>, Seq<int>)>,
    p: (Seq<char>, Seq<int>),
    tag: Seq<char>,
    i: int,
)
    requires
        0 <= i,
    ensures
        scan_tag(s, tag, i) is Some ==> scan_tag(s.push(p), tag, i) == scan_tag(s, tag, i),
        scan_tag(s, tag, i) is None && i <= s.len() && p.0 == tag ==> scan_tag(s.push(p), tag, i)
            == Some(s.len() as int),
        scan_tag(s, tag, i) is None && i <= s.len() && p.0 != tag ==> scan_tag(s.push(p), tag, i)
            is None,
    decreases s.len() + 1 - i,
{
    if i < s.len() {
        assert(s.push(p)[i] == s[i]);
        lemma_scan_tag_push(s, p, tag, i + 1);
    } else if i == s.len() {
        assert(s.push(p)[i] == p);
        assert(scan_tag(s.push(p), tag, i + 1) is None);
    }
}

/// Marking keeps everything that was already counted.
proof fn lemma_mark_preserves(
    s: Seq<(Seq<char>, Seq<int>)>,
    tag: Seq<char>,
    id: int,
    tg2: Seq<char>,
    id2: int,
)
    requires
        seen_contains(s, tg2, id2),
    ensures
        seen_contains(mark_seen(s, tag, id), tg2, id2),
{
    match spec_index_of_tag(s, tag) {
        Some(j) => {
            lemma_scan_tag_some_range(s, tag, 0);
            lemma_scan_tag_update(s, j, s[j].1.push(id), tg2, 0);
            let r = s.update(j, (s[j].0, s[j].1.push(id)));
            let j2 = spec_index_of_tag(s, tg2)->Some_0;
            lemma_scan_tag_some_range(s, tg2, 0);
            if j2 == j {
                let w = choose|w: int| 0 <= w < s[j].1.len() && s[j].1[w] == id2;
                assert(r[j].1[w] == id2);
                assert(r[j].1.contains(id2));
            } else {
                assert(r[j2] == s[j2]);
            }
        },
        None => {
            lemma_scan_tag_push(s, (tag, seq![id]), tg2, 0);
            let r = s.push((tag, seq![id]));
            let j2 = spec_index_of_tag(s, tg2)->Some_0;
            lemma_scan_tag_some_range(s, tg2, 0);
            assert(r[j2] == s[j2]);
        },
    }
}

proof fn lemma_scan_tag_some_range(s: Seq<(Seq<char>, Seq<int>)>, tag: Seq<char>, j: int)
    requires
        0 <= j,
        scan_tag(s, tag, j) is Some,
    ensures
        j <= scan_tag(s, tag, j)->Some_0 < s.len(),
        s[scan_tag(s, tag, j)->Some_0].0 == tag,
    decreases s.len() - j,
{
    if j < s.len() && s[j].0 != tag {
        lemma_scan_tag_some_range(s, tag, j + 1);
    }
}

/// Marking makes the pair counted.
proof fn lemma_mark_contains(s: Seq<(Seq<char>, Seq<int>)>, tag: Seq<char>, id: int)
    ensures
        seen_contains(mark_seen(s, tag, id), tag, id),
{
    match spec_index_of_tag(s, tag) {
        Some(j) => {
            lemma_scan_tag_some_range(s, tag, 0);
            lemma_scan_tag_update(s, j, s[j].1.push(id), tag, 0);
            let r = s.update(j, (s[j].0, s[j].1.push(id)));
            assert(r[j].1[r[j].1.len() - 1] == id);
            assert(r[j].1.contains(id));
        },
        None => {
            lemma_scan_tag_push(s, (tag, seq![id]), tag, 0);
            let r = s.push((tag, seq![id]));
            assert(r[s.len() as int].1[0] == id);
            assert(r[s.len() as int].1.contains(id));
        },
    }
}

/// A dispatch never changes what has been counted.
proof fn lemma_dispatch_seen(lang: Lang, t: Seq<SynNodeV>, tag: Seq<char>, ix: int, st: BuilderV)
    ensures
        spec_dispatch(lang, t, tag, ix, st).seen == st.seen,
{
}

/// One step keeps everything counted and counts its own capture.
proof fn lemma_step_seen(
    lang: Lang,
    t: Seq<SynNodeV>,
    cap: (Seq<char>, int),
    st: BuilderV,
    tg2: Seq<char>,
    id2: int,
)
    requires
        seen_contains(st.seen, tg2, id2),
    ensures
        seen_contains(spec_step(lang, t, cap, st).seen, tg2, id2),
{
    if 0 <= cap.1 < t.len() && !seen_contains(st.seen, cap.0, cap.1) {
        let marked = BuilderV { seen: mark_seen(st.seen, cap.0, cap.1), ..st };
        lemma_mark_preserves(st.seen, cap.0, cap.1, tg2, id2);
        lemma_dispatch_seen(lang, t, cap.0, cap.1, marked);
    }
}

proof fn lemma_step_marks(lang: Lang, t: Seq<SynNodeV>, cap: (Seq<char>, int), st: BuilderV)
    requires
        0 <= cap.1 < t.len(),
    ensures
        seen_contains(spec_step(lang, t, cap, st).seen, cap.0, cap.1),
{
    if !seen_contains(st.seen, cap.0, cap.1) {
        let marked = BuilderV { seen: mark_seen(st.seen, cap.0, cap.1), ..st };
        lemma_mark_contains(st.seen, cap.0, cap.1);
        lemma_dispatch_seen(lang, t, cap.0, cap.1, marked);
    }
}

proof fn lemma_fold_contains(lang: Lang, t: Seq<SynNodeV>, caps: Seq<(Seq<char>, int)>, k: int)
    requires
        0 <= k < caps.len(),
        0 <= caps[k].1 < t.len(),
    ensures
        seen_contains(spec_fold(lang, t, caps).seen, caps[k].0, caps[k].1),
    decreases caps.len(),
{
    let st = spec_fold(lang, t, caps.drop_last());
    if k == caps.len() - 1 {
        assert(caps.last() == caps[k]);
        lemma_step_marks(lang, t, caps[k], st);
    } else {
        assert(caps.drop_last()[k] == caps[k]);
        lemma_fold_contains(lang, t, caps.drop_last(), k);
        lemma_step_seen(lang, t, caps.last(), st, caps[k].0, caps[k].1);
    }
}

/// Duplicate-capture guard: appending a capture that already occurred in the
/// sequence leaves the extracted definitions unchanged — a node matched by
/// two overlapping query patterns under the same tag yields one entity, not
/// two.
pub proof fn lemma_duplicate_capture_ignored(
    lang: Lang,
    t: Seq<SynNodeV>,
    caps: Seq<(Seq<char>, int)>,
    k: int,
)
    requires
        0 <= k < caps.len(),
    ensures
        extract_model(lang, t, caps.push(caps[k])) == extract_model(lang, t, caps),
{
    let c = caps[k];
    let pushed = caps.push(c);
    assert(pushed.drop_last() =~= caps);
    assert(pushed.last() == c);
    let st = spec_fold(lang, t, caps);
    if 0 <= c.1 < t.len() {
        lemma_fold_contains(lang, t, caps, k);
        assert(spec_fold(lang, t, pushed) == st);
    } else {
        assert(spec_fold(lang, t, pushed) == st);
    }
}

// ---------------------------------------------------------------------------
// Bundled output predicates, used by the public pipeline contracts
// ---------------------------------------------------------------------------

/// The emitted list is deterministically ordered: classes, then enums, then
/// unions, each block strictly sorted by name.
pub open spec fn output_ordered(s: Seq<DefinitionV>) -> bool {
    &&& forall|i: int| 0 <= i < s.len() ==> def_rank(#[trigger] s[i]) <= 2
    &&& forall|i: int, j: int|
        0 <= i < j < s.len() ==> def_rank(#[trigger] s[i]) <= def_rank(#[trigger] s[j])
    &&& forall|i: int, j: int|
        0 <= i < j < s.len() && def_rank(#[trigger] s[i]) == def_rank(#[trigger] s[j])
            ==> lex_lt(def_name(s[i]), def_name(s[j]))
}

/// Every emitted name begins with an uppercase letter.
pub open spec fn output_upper_named(s: Seq<DefinitionV>) -> bool {
    forall|i: int|
        0 <= i < s.len() ==> (def_name(#[trigger] s[i]).len() > 0 && is_upper_char(
            def_name(s[i])[0],
        ))
}

/// Every emitted class carries the public keyword in its visibility.
pub open spec fn output_classes_public(s: Seq<DefinitionV>) -> bool {
    forall|i: int|
        0 <= i < s.len() ==> ((#[trigger] s[i]) matches DefinitionV::Class(c) ==> (
        c.visibility_modifier is Some && contains_seq(c.visibility_modifier->Some_0, "pub"@)))
}

/// The three bundled forms of the lemmas above, over one extraction.
pub proof fn lemma_output_properties(lang: Lang, t: Seq<SynNodeV>, caps: Seq<(Seq<char>, int)>)
    ensures
        output_ordered(extract_model(lang, t, caps)),
        uses_case_visibility(lang) ==> output_upper_named(extract_model(lang, t, caps)),
        uses_keyword_visibility(lang) ==> output_classes_public(extract_model(lang, t, caps)),
{
    lemma_output_ordered(lang, t, caps);
    if uses_case_visibility(lang) {
        lemma_case_visibility_filter(lang, t, caps);
    }
    if uses_keyword_visibility(lang) {
        lemma_keyword_visibility_filter(lang, t, caps);
    }
}

// ---------------------------------------------------------------------------
// The positive direction of the case rule: an uppercase-named class capture
// does surface.
// ---------------------------------------------------------------------------

/// A class entry under this name exists.
pub open spec fn has_class(s: Seq<ClassV>, name: Seq<char>) -> bool {
    exists|j: int| 0 <= j < s.len() && (#[trigger] s[j]).name == name
}

proof fn lemma_ensure_class_has(s: Seq<ClassV>, name: Seq<char>, word: Seq<char>)
    ensures
        has_class(ensure_class(s, name, word), name),
{
    match scan_class_eq(s, name, 0) {
        Some(j) => {
            lemma_scan_class_eq_some(s, name, 0);
            assert(s[j].name == name);
        },
        None => {
            lemma_scan_class_lb_props(s, name, 0);
            let lb = scan_class_lb(s, name, 0);
            let r = s.insert(lb, new_class(name, word));
            assert(r[lb].name == name);
        },
    }
}

proof fn lemma_ensure_class_keeps(s: Seq<ClassV>, name: Seq<char>, word: Seq<char>, n2: Seq<char>)
    requires
        has_class(s, n2),
    ensures
        has_class(ensure_class(s, name, word), n2),
{
    if scan_class_eq(s, name, 0) is None {
        lemma_scan_class_lb_props(s, name, 0);
        let lb = scan_class_lb(s, name, 0);
        let r = s.insert(lb, new_class(name, word));
        let j = choose|j: int| 0 <= j < s.len() && (#[trigger] s[j]).name == n2;
        if j < lb {
            assert(r[j].name == n2);
        } else {
            assert(r[j + 1] == s[j]);
            assert(r[j + 1].name == n2);
        }
    }
}

proof fn lemma_class_ops_keep(s: Seq<ClassV>, r: Seq<ClassV>, n2: Seq<char>)
    requires
        has_class(s, n2),
        r.len() == s.len(),
        forall|k: int| 0 <= k < s.len() ==> (#[trigger] r[k]).name == s[k].name,
    ensures
        has_class(r, n2),
{
    let j = choose|j: int| 0 <= j < s.len() && (#[trigger] s[j]).name == n2;
    assert(r[j].name == n2);
}

/// Whatever one dispatch does, an existing class entry stays.
proof fn lemma_dispatch_keeps_class(
    lang: Lang,
    t: Seq<SynNodeV>,
    tag: Seq<char>,
    ix: int,
    st: BuilderV,
    n2: Seq<char>,
)
    requires
        has_class(st.classes, n2),
    ensures
        has_class(spec_dispatch(lang, t, tag, ix, st).classes, n2),
{
    let name = crate::extract::spec_resolve_name(lang, t, ix, tag);
    let owner = crate::tree::spec_closest_ancestor_name(t, ix);
    let word = crate::lang::spec_class_type_word(lang);
    lemma_ensure_class_keeps(st.classes, name, word, n2);
    lemma_ensure_class_keeps(st.classes, owner, word, n2);
    lemma_ensure_class_keeps(st.classes, name, "module"@, n2);
    let ec1 = ensure_class(st.classes, name, word);
    let eco = ensure_class(st.classes, owner, word);
    let vis = crate::extract::spec_visibility(t, ix);
    let sv = set_class_vis(ec1, name, vis);
    if scan_class_eq(ec1, name, 0) is Some {
        lemma_scan_class_eq_some(ec1, name, 0);
    }
    lemma_class_ops_keep(ec1, sv, n2);
    let f = crate::extract::spec_build_func(t, ix, name);
    let am = add_class_method(eco, owner, f);
    if scan_class_eq(eco, owner, 0) is Some {
        lemma_scan_class_eq_some(eco, owner, 0);
    }
    lemma_class_ops_keep(eco, am, n2);
    let v = crate::extract::spec_build_variable(t, ix, name);
    let ap = add_class_property(eco, owner, v);
    lemma_class_ops_keep(eco, ap, n2);
}

/// The class-capture guard: the conditions under which a class capture at
/// node `ix` creates or keeps its entry.
pub open spec fn class_capture_admitted(lang: Lang, t: Seq<SynNodeV>, ix: int) -> bool {
    let name = crate::extract::spec_resolve_name(lang, t, ix, "class"@);
    name.len() > 0 && crate::extract::spec_case_ok(lang, name)
        && crate::extract::spec_textual_pub_ok(lang, t, ix)
}

/// Invariant: every class-tagged node position that has been counted and
/// passes the capture guards has its entry in the class map.
pub open spec fn seen_classes_present(lang: Lang, t: Seq<SynNodeV>, st: BuilderV) -> bool {
    forall|ix: int|
        #[trigger] seen_contains(st.seen, "class"@, ix) ==> (0 <= ix < t.len() ==> (
        class_capture_admitted(lang, t, ix) ==> has_class(
            st.classes,
            crate::extract::spec_resolve_name(lang, t, ix, "class"@),
        )))
}

proof fn lemma_seen_of_mark(s: Seq<(Seq<char>, Seq<int>)>, tag: Seq<char>, id: int, tg2: Seq<char>, id2: int)
    requires
        seen_contains(mark_seen(s, tag, id), tg2, id2),
        !(tg2 == tag && id2 == id),
    ensures
        seen_contains(s, tg2, id2),
{
    match spec_index_of_tag(s, tag) {
        Some(j) => {
            lemma_scan_tag_some_range(s, tag, 0);
            lemma_scan_tag_update(s, j, s[j].1.push(id), tg2, 0);
            let r = s.update(j, (s[j].0, s[j].1.push(id)));
            match spec_index_of_tag(s, tg2) {
                Some(j2) => {
                    lemma_scan_tag_some_range(r, tg2, 0);
                    if j2 == j {
                        let w = choose|w: int|
                            0 <= w < r[j].1.len() && r[j].1[w] == id2;
                        if w < s[j].1.len() {
                            assert(s[j].1[w] == id2);
                        } else {
                            assert(r[j].1[w] == id);
                            assert(tg2 == tag && id2 == id);
                        }
                    } else {
                        assert(r[j2] == s[j2]);
                    }
                },
                None => {},
            }
        },
        None => {
            lemma_scan_tag_push(s, (tag, seq![id]), tg2, 0);
            let r = s.push((tag, seq![id]));
            match spec_index_of_tag(s, tg2) {
                Some(j2) => {
                    lemma_scan_tag_some_range(s, tg2, 0);
                    assert(r[j2] == s[j2]);
                },
                None => {
                    if tg2 == tag {
                        let w = choose|w: int|
                            0 <= w < r[s.len() as int].1.len() && r[s.len() as int].1[w] == id2;
                        assert(r[s.len() as int].1 =~= seq![id]);
                        assert(id2 == id);
                    }
                },
            }
        },
    }
}

proof fn lemma_step_classes_present(lang: Lang, t: Seq<SynNodeV>, cap: (Seq<char>, int), st: BuilderV)
    requires
        seen_classes_present(lang, t, st),
    ensures
        seen_classes_present(lang, t, spec_step(lang, t, cap, st)),
{
    let st2 = spec_step(lang, t, cap, st);
    if 0 <= cap.1 < t.len() {
        if !seen_contains(st.seen, cap.0, cap.1) {
            let marked = BuilderV { seen: mark_seen(st.seen, cap.0, cap.1), ..st };
            lemma_dispatch_seen(lang, t, cap.0, cap.1, marked);
            assert forall|ix: int|
                #[trigger] seen_contains(st2.seen, "class"@, ix) implies (0 <= ix < t.len() ==> (
            class_capture_admitted(lang, t, ix) ==> has_class(
                st2.classes,
                crate::extract::spec_resolve_name(lang, t, ix, "class"@),
            ))) by {
                if seen_contains(st2.seen, "class"@, ix) && 0 <= ix < t.len() {
                    if class_capture_admitted(lang, t, ix) {
                        let nm = crate::extract::spec_resolve_name(lang, t, ix, "class"@);
                        if cap.0 == "class"@ && ix == cap.1 {
                            let word = crate::lang::spec_class_type_word(lang);
                            lemma_ensure_class_has(marked.classes, nm, word);
                            let ec1 = ensure_class(marked.classes, nm, word);
                            let vis = crate::extract::spec_visibility(t, ix);
                            if scan_class_eq(ec1, nm, 0) is Some {
                                lemma_scan_class_eq_some(ec1, nm, 0);
                            }
                            lemma_class_ops_keep(ec1, set_class_vis(ec1, nm, vis), nm);
                        } else {
                            lemma_seen_of_mark(st.seen, cap.0, cap.1, "class"@, ix);
                            assert(has_class(st.classes, nm));
                            lemma_dispatch_keeps_class(lang, t, cap.0, cap.1, marked, nm);
                        }
                    }
                }
            }
        }
    }
}

proof fn lemma_fold_classes_present(lang: Lang, t: Seq<SynNodeV>, caps: Seq<(Seq<char>, int)>)
    ensures
        seen_classes_present(lang, t, spec_fold(lang, t, caps)),
    decreases caps.len(),
{
    if caps.len() == 0 {
    } else {
        lemma_fold_classes_present(lang, t, caps.drop_last());
        lemma_step_classes_present(lang, t, caps.last(), spec_fold(lang, t, caps.drop_last()));
    }
}

/// The positive direction of the case-sensitive export rule: a class capture
/// whose resolved name begins with an uppercase letter (and passes the
/// capture guards) yields an emitted entity under that name, for a language
/// without the keyword emission filter.
pub proof fn lemma_admitted_class_is_emitted(
    lang: Lang,
    t: Seq<SynNodeV>,
    caps: Seq<(Seq<char>, int)>,
    k: int,
)
    requires
        !uses_keyword_visibility(lang),
        0 <= k < caps.len(),
        caps[k].0 == "class"@,
        0 <= caps[k].1 < t.len(),
        class_capture_admitted(lang, t, caps[k].1),
    ensures
        exists|i: int|
            0 <= i < extract_model(lang, t, caps).len() && def_name(
                #[trigger] extract_model(lang, t, caps)[i],
            ) == crate::extract::spec_resolve_name(lang, t, caps[k].1, "class"@),
{
    let ix = caps[k].1;
    let nm = crate::extract::spec_resolve_name(lang, t, ix, "class"@);
    lemma_fold_contains(lang, t, caps, k);
    lemma_fold_classes_present(lang, t, caps);
    let st = spec_fold(lang, t, caps);
    assert(seen_contains(st.seen, "class"@, caps[k].1));
    assert(has_class(st.classes, nm));
    let j = choose|j: int| 0 <= j < st.classes.len() && (#[trigger] st.classes[j]).name == nm;
    lemma_emit_classes_all(lang, st.classes);
    assert(spec_class_kept(lang, st.classes[j]));
    let ec = emit_classes(lang, st.classes);
    let w = choose|w: int|
        0 <= w < ec.len() && #[trigger] ec[w] == DefinitionV::Class(st.classes[j]);
    let out = extract_model(lang, t, caps);
    assert(out[w] == ec[w]);
    assert(def_name(out[w]) == nm);
}

/// Every class entry that passes the emission filter is emitted.
proof fn lemma_emit_classes_all(lang: Lang, s: Seq<ClassV>)
    ensures
        forall|j: int|
            0 <= j < s.len() && spec_class_kept(lang, #[trigger] s[j]) ==> exists|w: int|
                0 <= w < emit_classes(lang, s).len() && #[trigger] emit_classes(lang, s)[w]
                    == DefinitionV::Class(s[j]),
    decreases s.len(),
{
    if s.len() > 0 {
        lemma_emit_classes_all(lang, s.drop_last());
        let e0 = emit_classes(lang, s.drop_last());
        let e = emit_classes(lang, s);
        assert forall|j: int|
            0 <= j < s.len() && spec_class_kept(lang, #[trigger] s[j]) implies exists|w: int|
            0 <= w < e.len() && #[trigger] e[w] == DefinitionV::Class(s[j]) by {
            if j < s.len() - 1 {
                assert(s.drop_last()[j] == s[j]);
                assert(spec_class_kept(lang, s.drop_last()[j]));
                let w = choose|w: int|
                    0 <= w < e0.len() && #[trigger] e0[w] == DefinitionV::Class(s.drop_last()[j]);
                assert(e[w] == e0[w]);
            } else {
                assert(spec_class_kept(lang, s.last()));
                assert(e[e.len() - 1] == DefinitionV::Class(s.last()));
                assert(s[j] == s.last());
            }
        }
    }
}

// ---------------------------------------------------------------------------
// The positive direction of the keyword rule: a class whose captures all
// carry the public keyword does surface.
// ---------------------------------------------------------------------------

/// Every class entry under this name carries a visibility holding "pub".
pub open spec fn class_named_public(s: Seq<ClassV>, n: Seq<char>) -> bool {
    forall|j: int|
        0 <= j < s.len() && (#[trigger] s[j]).name == n ==> (s[j].visibility_modifier is Some
            && contains_seq(s[j].visibility_modifier->Some_0, "pub"@))
}

/// Every class capture in the sequence that resolves to this name carries a
/// visibility modifier holding "pub".
pub open spec fn all_class_captures_public(
    lang: Lang,
    t: Seq<SynNodeV>,
    caps: Seq<(Seq<char>, int)>,
    n: Seq<char>,
) -> bool {
    forall|k: int|
        0 <= k < caps.len() && (#[trigger] caps[k]).0 == "class"@ && 0 <= caps[k].1 < t.len()
            && crate::extract::spec_resolve_name(lang, t, caps[k].1, "class"@) == n ==> (
        crate::extract::spec_visibility(t, caps[k].1) is Some && contains_seq(
            crate::extract::spec_visibility(t, caps[k].1)->Some_0,
            "pub"@,
        ))
}

proof fn lemma_ensure_class_named_public(
    s: Seq<ClassV>,
    name: Seq<char>,
    word: Seq<char>,
    n: Seq<char>,
)
    requires
        class_named_public(s, n),
        name == n ==> has_class(s, n),
    ensures
        class_named_public(ensure_class(s, name, word), n),
{
    if scan_class_eq(s, name, 0) is None {
        lemma_scan_class_eq_none(s, name, 0);
        if name == n {
            let j = choose|j: int| 0 <= j < s.len() && (#[trigger] s[j]).name == n;
            assert(false);
        }
        lemma_scan_class_lb_props(s, name, 0);
        let lb = scan_class_lb(s, name, 0);
        let r = s.insert(lb, new_class(name, word));
        assert forall|j: int| 0 <= j < r.len() && (#[trigger] r[j]).name == n implies (
        r[j].visibility_modifier is Some && contains_seq(
            r[j].visibility_modifier->Some_0,
            "pub"@,
        )) by {
            if j < lb {
                assert(r[j] == s[j]);
            } else if j == lb {
                assert(r[j].name == name);
            } else {
                assert(r[j] == s[j - 1]);
            }
        }
    }
}

proof fn lemma_set_class_vis_named_public(
    s: Seq<ClassV>,
    name: Seq<char>,
    vis: Option<Seq<char>>,
    n: Seq<char>,
)
    requires
        class_named_public(s, n),
        name == n ==> (vis is Some && contains_seq(vis->Some_0, "pub"@)),
    ensures
        class_named_public(set_class_vis(s, name, vis), n),
{
    if scan_class_eq(s, name, 0) is Some {
        lemma_scan_class_eq_some(s, name, 0);
    }
}

proof fn lemma_class_ops_named_public(s: Seq<ClassV>, r: Seq<ClassV>, n: Seq<char>)
    requires
        class_named_public(s, n),
        r.len() == s.len(),
        forall|k: int|
            0 <= k < s.len() ==> ((#[trigger] r[k]).name == s[k].name
                && r[k].visibility_modifier == s[k].visibility_modifier),
    ensures
        class_named_public(r, n),
{
}

/// The invariant behind the positive keyword rule: once a class capture
/// resolving to `n` has been counted (and passed the capture guards), the
/// class map holds an entry named `n`, and every entry named `n` carries a
/// public visibility — provided every class capture for `n` carries one.
pub open spec fn seen_public_class(lang: Lang, t: Seq<SynNodeV>, st: BuilderV, n: Seq<char>) -> bool {
    (exists|ix: int|
        #[trigger] seen_contains(st.seen, "class"@, ix) && 0 <= ix < t.len()
            && crate::extract::spec_resolve_name(lang, t, ix, "class"@) == n
            && class_capture_admitted(lang, t, ix)) ==> (has_class(st.classes, n)
        && class_named_public(st.classes, n))
}

proof fn lemma_lex_irrefl(a: Seq<char>)
    ensures
        !lex_lt(a, a),
    decreases a.len(),
{
    if a.len() > 0 {
        lemma_lex_irrefl(a.skip(1));
    }
}

proof fn lemma_sorted_unique_name(s: Seq<ClassV>, n: Seq<char>, i: int, j: int)
    requires
        classes_sorted(s),
        0 <= i < s.len(),
        0 <= j < s.len(),
        s[i].name == n,
        s[j].name == n,
    ensures
        i == j,
{
    lemma_lex_irrefl(n);
    if i < j {
        assert(lex_lt(s[i].name, s[j].name));
    } else if j < i {
        assert(lex_lt(s[j].name, s[i].name));
    }
}

/// An existing entry named `n` survives a visibility update.
proof fn lemma_class_keeps_through_vis(
    s: Seq<ClassV>,
    name: Seq<char>,
    vis: Option<Seq<char>>,
    n: Seq<char>,
)
    requires
        has_class(s, n),
    ensures
        has_class(set_class_vis(s, name, vis), n),
{
    if scan_class_eq(s, name, 0) is Some {
        lemma_scan_class_eq_some(s, name, 0);
        let r = set_class_vis(s, name, vis);
        let j = choose|j: int| 0 <= j < s.len() && (#[trigger] s[j]).name == n;
        assert(r[j].name == n);
    }
}

proof fn lemma_dispatch_named_public(
    lang: Lang,
    t: Seq<SynNodeV>,
    tag: Seq<char>,
    ix: int,
    st: BuilderV,
    n: Seq<char>,
)
    requires
        0 <= ix < t.len(),
        classes_sorted(st.classes),
        (tag == "class"@ && crate::extract::spec_resolve_name(lang, t, ix, "class"@) == n
            && class_capture_admitted(lang, t, ix)) || class_named_public(st.classes, n),
        (tag == "class"@ && crate::extract::spec_resolve_name(
            lang,
            t,
            ix,
            "class"@,
        ) == n) ==> (crate::extract::spec_visibility(t, ix) is Some && contains_seq(
            crate::extract::spec_visibility(t, ix)->Some_0,
            "pub"@,
        )),
        (tag == "module"@ && crate::extract::spec_resolve_name(lang, t, ix, tag) == n)
            ==> has_class(st.classes, n),
        (tag != "class"@ && tag != "module"@ && crate::tree::spec_closest_ancestor_name(t, ix)
            == n) ==> has_class(st.classes, n),
    ensures
        class_named_public(spec_dispatch(lang, t, tag, ix, st).classes, n),
        has_class(st.classes, n) ==> has_class(spec_dispatch(lang, t, tag, ix, st).classes, n),
        (tag == "class"@ && 0 <= ix < t.len() && crate::extract::spec_resolve_name(
            lang,
            t,
            ix,
            "class"@,
        ) == n && class_capture_admitted(lang, t, ix)) ==> has_class(
            spec_dispatch(lang, t, tag, ix, st).classes,
            n,
        ),
{
    let name = crate::extract::spec_resolve_name(lang, t, ix, tag);
    let owner = crate::tree::spec_closest_ancestor_name(t, ix);
    let word = crate::lang::spec_class_type_word(lang);
    let vis = crate::extract::spec_visibility(t, ix);
    if has_class(st.classes, n) {
        lemma_ensure_class_keeps(st.classes, name, word, n);
        lemma_ensure_class_keeps(st.classes, owner, word, n);
        lemma_ensure_class_keeps(st.classes, name, "module"@, n);
    }
    if tag == "class"@ {
        let ec1 = ensure_class(st.classes, name, word);
        let sv = set_class_vis(ec1, name, vis);
        lemma_ensure_class_sorted(st.classes, name, word);
        if name == n {
            lemma_ensure_class_has(st.classes, name, word);
            lemma_class_keeps_through_vis(ec1, name, vis, n);
            if scan_class_eq(ec1, name, 0) is Some {
                lemma_scan_class_eq_some(ec1, name, 0);
                let u = scan_class_eq(ec1, name, 0)->Some_0;
                assert forall|j: int|
                    0 <= j < sv.len() && (#[trigger] sv[j]).name == n implies (
                sv[j].visibility_modifier is Some && contains_seq(
                    sv[j].visibility_modifier->Some_0,
                    "pub"@,
                )) by {
                    if j != u {
                        assert(sv[j] == ec1[j]);
                        lemma_sorted_unique_name(ec1, n, j, u);
                    } else {
                        assert(sv[j].visibility_modifier == vis);
                    }
                }
            } else {
                lemma_scan_class_eq_none(ec1, name, 0);
                let w = choose|w: int| 0 <= w < ec1.len() && (#[trigger] ec1[w]).name == n;
                assert(false);
            }
        } else {
            lemma_ensure_class_named_public(st.classes, name, word, n);
            lemma_set_class_vis_named_public(ec1, name, vis, n);
            if has_class(st.classes, n) {
                lemma_class_keeps_through_vis(ec1, name, vis, n);
            }
        }
    } else if tag == "module"@ {
        lemma_ensure_class_named_public(st.classes, name, "module"@, n);
    } else {
        let eco = ensure_class(st.classes, owner, word);
        lemma_ensure_class_named_public(st.classes, owner, word, n);
        let f = crate::extract::spec_build_func(t, ix, name);
        let am = add_class_method(eco, owner, f);
        if scan_class_eq(eco, owner, 0) is Some {
            lemma_scan_class_eq_some(eco, owner, 0);
        }
        lemma_class_ops_named_public(eco, am, n);
        let v = crate::extract::spec_build_variable(t, ix, name);
        let ap = add_class_property(eco, owner, v);
        lemma_class_ops_named_public(eco, ap, n);
        if has_class(st.classes, n) {
            lemma_class_ops_keep(eco, am, n);
            lemma_class_ops_keep(eco, ap, n);
        }
    }
}

proof fn lemma_step_named_public(
    lang: Lang,
    t: Seq<SynNodeV>,
    cap: (Seq<char>, int),
    st: BuilderV,
    n: Seq<char>,
)
    requires
        classes_sorted(st.classes),
        seen_public_class(lang, t, st, n),
        (cap.0 == "class"@ && 0 <= cap.1 < t.len() && crate::extract::spec_resolve_name(
            lang,
            t,
            cap.1,
            "class"@,
        ) == n) ==> (crate::extract::spec_visibility(t, cap.1) is Some && contains_seq(
            crate::extract::spec_visibility(t, cap.1)->Some_0,
            "pub"@,
        )),
    ensures
        seen_public_class(lang, t, spec_step(lang, t, cap, st), n),
{
    let st2 = spec_step(lang, t, cap, st);
    if 0 <= cap.1 < t.len() && !seen_contains(st.seen, cap.0, cap.1) {
        let marked = BuilderV { seen: mark_seen(st.seen, cap.0, cap.1), ..st };
        lemma_dispatch_seen(lang, t, cap.0, cap.1, marked);
        if exists|ix: int|
            #[trigger] seen_contains(st2.seen, "class"@, ix) && 0 <= ix < t.len()
                && crate::extract::spec_resolve_name(lang, t, ix, "class"@) == n
                && class_capture_admitted(lang, t, ix) {
            let w = choose|w: int|
                #[trigger] seen_contains(st2.seen, "class"@, w) && 0 <= w < t.len()
                    && crate::extract::spec_resolve_name(lang, t, w, "class"@) == n
                    && class_capture_admitted(lang, t, w);
            if seen_contains(st.seen, "class"@, w) {
                // the class entry was already owed before this step
                assert(has_class(st.classes, n) && class_named_public(st.classes, n));
                lemma_dispatch_named_public(lang, t, cap.0, cap.1, marked, n);
            } else {
                if !(cap.0 == "class"@ && w == cap.1) {
                    lemma_seen_of_mark(st.seen, cap.0, cap.1, "class"@, w);
                }
                assert(cap.0 == "class"@ && w == cap.1);
                broadcast use vstd::string::group_string_axioms;

                reveal_strlit("class");
                reveal_strlit("module");
                assert("class"@.len() == 5);
                assert("module"@.len() == 6);
                assert(cap.0 != "module"@);
                lemma_dispatch_named_public(lang, t, cap.0, cap.1, marked, n);
            }
        }
    }
}

proof fn lemma_fold_named_public(
    lang: Lang,
    t: Seq<SynNodeV>,
    caps: Seq<(Seq<char>, int)>,
    n: Seq<char>,
)
    requires
        all_class_captures_public(lang, t, caps, n),
    ensures
        seen_public_class(lang, t, spec_fold(lang, t, caps), n),
    decreases caps.len(),
{
    if caps.len() > 0 {
        assert(all_class_captures_public(lang, t, caps.drop_last(), n)) by {
            assert(forall|k: int|
                0 <= k < caps.drop_last().len() ==> #[trigger] caps.drop_last()[k] == caps[k]);
        }
        lemma_fold_named_public(lang, t, caps.drop_last(), n);
        lemma_fold_sorted(lang, t, caps.drop_last());
        assert(caps.last() == caps[caps.len() - 1]);
        lemma_step_named_public(lang, t, caps.last(), spec_fold(lang, t, caps.drop_last()), n);
    }
}

/// Keyword-based visibility, the admitting direction: for a language with
/// an explicit public-access keyword, a class capture whose resolved name's
/// captures all carry the keyword in their visibility modifier yields an
/// emitted class entity under that name.
pub proof fn lemma_public_class_is_emitted(
    lang: Lang,
    t: Seq<SynNodeV>,
    caps: Seq<(Seq<char>, int)>,
    k: int,
)
    requires
        uses_keyword_visibility(lang),
        0 <= k < caps.len(),
        caps[k].0 == "class"@,
        0 <= caps[k].1 < t.len(),
        class_capture_admitted(lang, t, caps[k].1),
        all_class_captures_public(
            lang,
            t,
            caps,
            crate::extract::spec_resolve_name(lang, t, caps[k].1, "class"@),
        ),
    ensures
        exists|i: int|
            0 <= i < extract_model(lang, t, caps).len() && def_name(
                #[trigger] extract_model(lang, t, caps)[i],
            ) == crate::extract::spec_resolve_name(lang, t, caps[k].1, "class"@),
{
    let ix = caps[k].1;
    let nm = crate::extract::spec_resolve_name(lang, t, ix, "class"@);
    lemma_fold_contains(lang, t, caps, k);
    lemma_fold_named_public(lang, t, caps, nm);
    let st = spec_fold(lang, t, caps);
    assert(seen_contains(st.seen, "class"@, ix));
    assert(has_class(st.classes, nm) && class_named_public(st.classes, nm));
    let j = choose|j: int| 0 <= j < st.classes.len() && (#[trigger] st.classes[j]).name == nm;
    lemma_emit_classes_all(lang, st.classes);
    assert(spec_class_kept(lang, st.classes[j]));
    let ec = emit_classes(lang, st.classes);
    let w = choose|w: int|
        0 <= w < ec.len() && #[trigger] ec[w] == DefinitionV::Class(st.classes[j]);
    let out = extract_model(lang, t, caps);
    assert(out[w] == ec[w]);
    assert(def_name(out[w]) == nm);
}

} // verus!
