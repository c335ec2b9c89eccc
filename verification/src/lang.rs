//! Grammar registry: maps a language identifier to the language tag the rest
//! of the pipeline dispatches on, and records each language's conventions
//! (class type word, visibility mechanism).

use vstd::prelude::*;
use crate::util::str_eq;

verus! {

/// The languages the registry knows.  Resolving any other identifier yields
/// no grammar, which the extractor treats as "no definitions", not an error.
#[derive(Clone, Copy, PartialEq, Eq, Structural, Debug)]
pub enum Lang {
    Rust,
    Python,
    Php,
    Java,
    JavaScript,
    TypeScript,
    Go,
    C,
    Cpp,
    Lua,
    Ruby,
    Zig,
    Scala,
    Swift,
    Elixir,
    CSharp,
}

/// The language tag a given identifier resolves to, if any.
pub open spec fn lang_of(name: Seq<char>) -> Option<Lang> {
    if name == "rust"@ {
        Some(Lang::Rust)
    } else if name == "python"@ {
        Some(Lang::Python)
    } else if name == "php"@ {
        Some(Lang::Php)
    } else if name == "java"@ {
        Some(Lang::Java)
    } else if name == "javascript"@ {
        Some(Lang::JavaScript)
    } else if name == "typescript"@ {
        Some(Lang::TypeScript)
    } else if name == "go"@ {
        Some(Lang::Go)
    } else if name == "c"@ {
        Some(Lang::C)
    } else if name == "cpp"@ {
        Some(Lang::Cpp)
    } else if name == "lua"@ {
        Some(Lang::Lua)
    } else if name == "ruby"@ {
        Some(Lang::Ruby)
    } else if name == "zig"@ {
        Some(Lang::Zig)
    } else if name == "scala"@ {
        Some(Lang::Scala)
    } else if name == "swift"@ {
        Some(Lang::Swift)
    } else if name == "elixir"@ {
        Some(Lang::Elixir)
    } else if name == "csharp"@ {
        Some(Lang::CSharp)
    } else {
        None
    }
}

/// Resolve a language identifier to its tag.
pub fn lang_from_name(name: &str) -> (r: Option<Lang>)
    ensures
        r == lang_of(name@),
{
    if str_eq(name, "rust") {
        Some(Lang::Rust)
    } else if str_eq(name, "python") {
        Some(Lang::Python)
    } else if str_eq(name, "php") {
        Some(Lang::Php)
    } else if str_eq(name, "java") {
        Some(Lang::Java)
    } else if str_eq(name, "javascript") {
        Some(Lang::JavaScript)
    } else if str_eq(name, "typescript") {
        Some(Lang::TypeScript)
    } else if str_eq(name, "go") {
        Some(Lang::Go)
    } else if str_eq(name, "c") {
        Some(Lang::C)
    } else if str_eq(name, "cpp") {
        Some(Lang::Cpp)
    } else if str_eq(name, "lua") {
        Some(Lang::Lua)
    } else if str_eq(name, "ruby") {
        Some(Lang::Ruby)
    } else if str_eq(name, "zig") {
        Some(Lang::Zig)
    } else if str_eq(name, "scala") {
        Some(Lang::Scala)
    } else if str_eq(name, "swift") {
        Some(Lang::Swift)
    } else if str_eq(name, "elixir") {
        Some(Lang::Elixir)
    } else if str_eq(name, "csharp") {
        Some(Lang::CSharp)
    } else {
        None
    }
}

/// Languages whose exported surface is signalled by the case of the first
/// letter of an identifier: lowercase-named class captures are dropped.
pub open spec fn uses_case_visibility(lang: Lang) -> bool {
    lang == Lang::Go
}

/// Languages whose exported surface is signalled by a leading keyword on the
/// textual form of the enclosing declaration.
pub open spec fn uses_textual_pub_visibility(lang: Lang) -> bool {
    lang == Lang::Zig
}

/// Languages with an explicit public-access keyword as the access-control
/// mechanism: only classes whose visibility modifier holds it are emitted.
pub open spec fn uses_keyword_visibility(lang: Lang) -> bool {
    lang == Lang::Rust
}

/// Whether this language filters by identifier case.
pub fn case_visibility(lang: Lang) -> (r: bool)
    ensures
        r == uses_case_visibility(lang),
{
    lang == Lang::Go
}

/// Whether this language filters containers by a leading keyword on the
/// binding declaration's text.
pub fn textual_pub_visibility(lang: Lang) -> (r: bool)
    ensures
        r == uses_textual_pub_visibility(lang),
{
    lang == Lang::Zig
}

/// Whether this language filters emitted classes by an explicit
/// public-access keyword in their visibility modifier.
pub fn keyword_visibility(lang: Lang) -> (r: bool)
    ensures
        r == uses_keyword_visibility(lang),
{
    lang == Lang::Rust
}

/// The type word a class-tagged capture is rendered with.
pub open spec fn spec_class_type_word(lang: Lang) -> Seq<char> {
    if lang == Lang::Elixir {
        "module"@
    } else {
        "class"@
    }
}

/// The type word for class entities of this language.
pub fn class_type_word(lang: Lang) -> (r: &'static str)
    ensures
        r@ == spec_class_type_word(lang),
{
    if lang == Lang::Elixir {
        "module"
    } else {
        "class"
    }
}

} // verus!
