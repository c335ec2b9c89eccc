//! The public extraction entry points: resolve the language, parse the
//! source, run the structural query, build the definitions, and render them.
//! Both results are fixed functions of the language identifier and the
//! source text, stated through [`spec_extract`].

use vstd::prelude::*;
use crate::defs::{Definition, DefinitionV, defs_view};
use crate::lang::{Lang, lang_of, lang_from_name, uses_case_visibility, uses_keyword_visibility};
use crate::ts::{parse_and_query, flat_tree_of, caps_of};
use crate::extract::{extract_from_tree, extract_model, caps_view};
use crate::render::{stringify_definitions, spec_render_defs};
use crate::laws::{
    output_ordered, output_upper_named, output_classes_public, lemma_output_properties,
    lemma_empty_source_empty_output,
};

verus! {

/// The definitions extracted for a language identifier and a source text:
/// empty for an unregistered identifier, and otherwise the extraction model
/// applied to the tree and the captures that the parser and the embedded
/// query yield for that language and source.
pub open spec fn spec_extract(lang_opt: Option<Lang>, source: Seq<char>) -> Seq<DefinitionV> {
    match lang_opt {
        None => Seq::empty(),
        Some(lang) => extract_model(lang, flat_tree_of(lang, source), caps_of(lang, source)),
    }
}

/// Extract the exported definitions of a source text in the given language.
///
/// An unregistered language identifier is not an error: it yields no
/// definitions.  The embedded grammars and queries are fixed assets the
/// parser accepts, so the call always succeeds; the `Result` shape is kept
/// for callers that treat an asset defect as an error.
pub fn extract_definitions(language: &str, source: &str) -> (r: Result<Vec<Definition>, String>)
    ensures
        r is Ok,
        defs_view(r->Ok_0@) == spec_extract(lang_of(language@), source@),
        lang_of(language@) is None ==> r->Ok_0@.len() == 0,
        source@.len() == 0 ==> r->Ok_0@.len() == 0,
        output_ordered(defs_view(r->Ok_0@)),
        lang_of(language@) is Some && uses_case_visibility(lang_of(language@)->Some_0)
            ==> output_upper_named(defs_view(r->Ok_0@)),
        lang_of(language@) is Some && uses_keyword_visibility(lang_of(language@)->Some_0)
            ==> output_classes_public(defs_view(r->Ok_0@)),
{
    match lang_from_name(language) {
        None => {
            let empty: Vec<Definition> = Vec::new();
            proof {
                assert(defs_view(empty@) =~= Seq::<DefinitionV>::empty());
            }
            Ok(empty)
        },
        Some(lang) => {
            let (tree, caps) = parse_and_query(lang, source);
            let defs = extract_from_tree(lang, &tree, &caps);
            proof {
                assert(caps_view(caps@) == caps_of(lang, source@));
                assert(defs_view(defs@) == spec_extract(lang_of(language@), source@));
                lemma_output_properties(lang, tree@, caps_view(caps@));
                if source@.len() == 0 {
                    lemma_empty_source_empty_output(lang, tree@, caps_view(caps@));
                }
            }
            Ok(defs)
        },
    }
}

/// Extract and render: the rendered signature text of a source file, a
/// fixed function of the language identifier and the source text.
pub fn get_definitions_string(language: &str, source: &str) -> (r: Result<String, String>)
    ensures
        r is Ok,
        r->Ok_0@ == spec_render_defs(spec_extract(lang_of(language@), source@)),
        lang_of(language@) is None ==> r->Ok_0@.len() == 0,
        source@.len() == 0 ==> r->Ok_0@.len() == 0,
{
    match extract_definitions(language, source) {
        Err(e) => Err(e),
        Ok(definitions) => {
            let stringified = stringify_definitions(&definitions);
            proof {
                let ds = defs_view(definitions@);
                if ds.len() == 0 {
                    assert(spec_render_defs(ds) =~= Seq::<char>::empty());
                }
                assert(stringified@ == spec_render_defs(ds));
            }
            Ok(stringified)
        },
    }
}

} // verus!
