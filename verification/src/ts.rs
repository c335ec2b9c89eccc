//! The trusted boundary around the parser library: declarations of its opaque
//! types, one wrapper per grammar constant, and the parse-and-query step whose
//! results are named, so that the library's contracts can speak of *the*
//! tree and *the* captures of a given language and source.

use vstd::prelude::*;
use std::collections::HashMap;
use tree_sitter::{Parser, Query, QueryCursor, StreamingIterator};
use crate::lang::Lang;
use crate::tree::{SynNode, SynNodeV, SynTree, wf_tree, texts_bounded};
use crate::extract::caps_view;

verus! {

#[verifier::external_type_specification]
#[verifier::external_body]
pub struct ExLanguage(tree_sitter::Language);

#[verifier::external_type_specification]
#[verifier::external_body]
pub struct ExTsTree(tree_sitter::Tree);

#[verifier::external_type_specification]
#[verifier::external_body]
pub struct ExQuery(tree_sitter::Query);

#[verifier::external_type_specification]
#[verifier::external_body]
pub struct ExNode<'a>(tree_sitter::Node<'a>);

/// Relies on tree_sitter_rust::LANGUAGE: the compiled grammar for this language.
#[verifier::external_body]
fn lang_rust() -> tree_sitter::Language {
    tree_sitter_rust::LANGUAGE.into()
}

/// Relies on tree_sitter_python::LANGUAGE: the compiled grammar for this language.
#[verifier::external_body]
fn lang_python() -> tree_sitter::Language {
    tree_sitter_python::LANGUAGE.into()
}

/// Relies on tree_sitter_php::LANGUAGE_PHP: the compiled grammar for this language.
#[verifier::external_body]
fn lang_php() -> tree_sitter::Language {
    tree_sitter_php::LANGUAGE_PHP.into()
}

/// Relies on tree_sitter_java::LANGUAGE: the compiled grammar for this language.
#[verifier::external_body]
fn lang_java() -> tree_sitter::Language {
    tree_sitter_java::LANGUAGE.into()
}

/// Relies on tree_sitter_javascript::LANGUAGE: the compiled grammar for this language.
#[verifier::external_body]
fn lang_javascript() -> tree_sitter::Language {
    tree_sitter_javascript::LANGUAGE.into()
}

/// Relies on tree_sitter_typescript::LANGUAGE_TSX: the compiled grammar for this language.
#[verifier::external_body]
fn lang_typescript() -> tree_sitter::Language {
    tree_sitter_typescript::LANGUAGE_TSX.into()
}

/// Relies on tree_sitter_go::LANGUAGE: the compiled grammar for this language.
#[verifier::external_body]
fn lang_go() -> tree_sitter::Language {
    tree_sitter_go::LANGUAGE.into()
}

/// Relies on tree_sitter_c::LANGUAGE: the compiled grammar for this language.
#[verifier::external_body]
fn lang_c() -> tree_sitter::Language {
    tree_sitter_c::LANGUAGE.into()
}

/// Relies on tree_sitter_cpp::LANGUAGE: the compiled grammar for this language.
#[verifier::external_body]
fn lang_cpp() -> tree_sitter::Language {
    tree_sitter_cpp::LANGUAGE.into()
}

/// Relies on tree_sitter_lua::LANGUAGE: the compiled grammar for this language.
#[verifier::external_body]
fn lang_lua() -> tree_sitter::Language {
    tree_sitter_lua::LANGUAGE.into()
}

/// Relies on tree_sitter_ruby::LANGUAGE: the compiled grammar for this language.
#[verifier::external_body]
fn lang_ruby() -> tree_sitter::Language {
    tree_sitter_ruby::LANGUAGE.into()
}

/// Relies on tree_sitter_zig::LANGUAGE: the compiled grammar for this language.
#[verifier::external_body]
fn lang_zig() -> tree_sitter::Language {
    tree_sitter_zig::LANGUAGE.into()
}

/// Relies on tree_sitter_scala::LANGUAGE: the compiled grammar for this language.
#[verifier::external_body]
fn lang_scala() -> tree_sitter::Language {
    tree_sitter_scala::LANGUAGE.into()
}

/// Relies on tree_sitter_swift::LANGUAGE: the compiled grammar for this language.
#[verifier::external_body]
fn lang_swift() -> tree_sitter::Language {
    tree_sitter_swift::LANGUAGE.into()
}

/// Relies on tree_sitter_elixir::LANGUAGE: the compiled grammar for this language.
#[verifier::external_body]
fn lang_elixir() -> tree_sitter::Language {
    tree_sitter_elixir::LANGUAGE.into()
}

/// Relies on tree_sitter_c_sharp::LANGUAGE: the compiled grammar for this language.
#[verifier::external_body]
fn lang_csharp() -> tree_sitter::Language {
    tree_sitter_c_sharp::LANGUAGE.into()
}

/// The compiled grammar of a supported language.
pub fn grammar_of(lang: Lang) -> tree_sitter::Language {
    match lang {
        Lang::Rust => lang_rust(),
        Lang::Python => lang_python(),
        Lang::Php => lang_php(),
        Lang::Java => lang_java(),
        Lang::JavaScript => lang_javascript(),
        Lang::TypeScript => lang_typescript(),
        Lang::Go => lang_go(),
        Lang::C => lang_c(),
        Lang::Cpp => lang_cpp(),
        Lang::Lua => lang_lua(),
        Lang::Ruby => lang_ruby(),
        Lang::Zig => lang_zig(),
        Lang::Scala => lang_scala(),
        Lang::Swift => lang_swift(),
        Lang::Elixir => lang_elixir(),
        Lang::CSharp => lang_csharp(),
    }
}

/// The preorder flattening of the tree the parser produces for this language
/// and source: per node its kind, its text (the source slice of its byte
/// span), the field it sits under, and its parent's position.  Parsing is a
/// function of the grammar and the text alone, so this is a function of its
/// arguments; what it is on given values is deliberately left unsaid.
pub uninterp spec fn flat_tree_of(lang: Lang, source: Seq<char>) -> Seq<SynNodeV>;

/// The captures the language's embedded query yields on that tree, in the
/// order the query engine reports them: per capture its tag and the preorder
/// position of the captured node.  Query execution is a function of the
/// query, the tree and the text alone, so this too is a function of its
/// arguments.
pub uninterp spec fn caps_of(lang: Lang, source: Seq<char>) -> Seq<(Seq<char>, int)>;

/// Copy the subtree of `n` into `out` in preorder, node for node, collecting
/// each node's parser identity in step; texts use checked slicing, so an
/// out-of-range or undecodable span yields the empty string.  Part of the
/// trusted parse step below, which carries the contract.
#[verifier::external_body]
fn copy_node<'a>(n: tree_sitter::Node<'a>, parent: Option<usize>, field: Option<String>, source: &str, out: &mut Vec<SynNode>, ids: &mut Vec<usize>) {
    let idx = out.len();
    let bytes = source.as_bytes().get(n.start_byte()..n.end_byte());
    let text = bytes.and_then(|b| core::str::from_utf8(b).ok()).unwrap_or("").to_string();
    out.push(SynNode { kind: n.kind().to_string(), text, field, parent });
    ids.push(n.id());
    for i in 0..n.child_count() {
        if let Some(c) = n.child(i) {
            copy_node(c, Some(idx), n.field_name_for_child(i as u32).map(|s| s.to_string()), source, out, ids);
        }
    }
}

/// Compile the language's embedded query against its grammar.  Part of the
/// trusted parse step below, which carries the contract.
#[verifier::external_body]
fn build_query(lang: Lang) -> Option<tree_sitter::Query> {
    Query::new(&grammar_of(lang), crate::queries::query_text(lang)).ok()
}

/// Run the query over the tree and convert each capture to its tag and the
/// arena position its node was copied to, looked up by node identity.  Part
/// of the trusted parse step below, which carries the contract.
#[verifier::external_body]
fn query_caps(query: &tree_sitter::Query, tree: &tree_sitter::Tree, source: &str, ids: &Vec<usize>) -> Vec<(String, usize)> {
    let index: HashMap<usize, usize> = ids.iter().enumerate().map(|(i, id)| (*id, i)).collect();
    let names = query.capture_names();
    let mut cursor = QueryCursor::new();
    let mut it = cursor.captures(query, tree.root_node(), source.as_bytes());
    let mut out: Vec<(String, usize)> = Vec::new();
    while let Some((m, _)) = it.next() {
        for c in m.captures {
            out.push((names[c.index as usize].to_string(), *index.get(&c.node.id()).unwrap_or(&usize::MAX)));
        }
    }
    out
}

/// Relies on Parser::new/set_language/parse, on the node accessors
/// kind/child_count/child/field_name_for_child/start_byte/end_byte/id
/// (through `copy_node`), and on Query::new/capture_names and
/// QueryCursor::captures (through `query_caps`): parses the source with
/// this language's grammar, copies the tree into the arena in preorder,
/// runs the language's embedded query, and converts each capture to its
/// tag and the preorder position of its node.  Both results are functions
/// of `(lang, source)` alone, stated through [`flat_tree_of`] and
/// [`caps_of`]; parents always precede their children, every text is a
/// slice of the source, and every capture names a node of the tree.  The
/// sixteen shipped grammars are accepted by the parser and their embedded
/// queries compile against them (every one is exercised by the test
/// suite); the empty-handed branches below never run.
#[verifier::external_body]
pub fn parse_and_query(lang: Lang, source: &str) -> (r: (SynTree, Vec<(String, usize)>))
    ensures
        r.0@ == flat_tree_of(lang, source@),
        caps_view(r.1@) == caps_of(lang, source@),
        wf_tree(r.0@),
        texts_bounded(r.0@, source@.len() as int),
        forall|k: int| 0 <= k < r.1@.len() ==> (#[trigger] r.1@[k]).1 < r.0@.len(),
{
    let mut parser = Parser::new();
    let _ = parser.set_language(&grammar_of(lang));
    let tree = match parser.parse(source, None) {
        Some(t) => t,
        None => return (SynTree { nodes: Vec::new() }, Vec::new()),
    };
    let mut nodes: Vec<SynNode> = Vec::new();
    let mut ids: Vec<usize> = Vec::new();
    copy_node(tree.root_node(), None, None, source, &mut nodes, &mut ids);
    let q = build_query(lang);
    let caps = if let Some(q) = q { query_caps(&q, &tree, source, &ids) } else { Vec::new() };
    (SynTree { nodes }, caps)
}

} // verus!
