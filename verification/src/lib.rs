//! Multi-language source-definition extractor ("repo map").
//!
//! Given a language identifier and a source text, the library parses the text
//! into a concrete syntax tree, runs a language-specific structural query over
//! it, resolves each match into a canonical symbol record, deduplicates and
//! merges partial declarations, and renders the result into a compact textual
//! signature.  Configuration handling and tokenizer front-ends live beside it.

pub mod config;
pub mod defs;
pub mod extract;
pub mod lang;
pub mod laws;
pub mod loader;
pub mod pipeline;
pub mod queries;
pub mod render;
pub mod tokenizer;
pub mod tree;
pub mod ts;
pub mod util;
pub mod validation;

pub use config::{Config, ConfigError};
pub use defs::{Class, Definition, Enum, Func, Union, Variable};
pub use loader::ConfigLoader;
pub use pipeline::{extract_definitions, get_definitions_string};
pub use render::stringify_definitions;
pub use tokenizer::{encode, from_pretrained, HuggingFaceTokenizer, State, Tiktoken, TokenizerError};
pub use validation::validate_config;
