//! Tokenizer front-ends: a byte-pair tokenizer for OpenAI-style models and a
//! wrapper around pretrained tokenizer files, behind one loading state.
//! Network and file loading belong to the host layer; this module holds the
//! routing and counting logic.

use vstd::prelude::*;
use crate::util::str_eq;

verus! {

/// Error type for tokenizer operations.
#[derive(Debug)]
pub enum TokenizerError {
    /// I/O operation failed.
    IoError(String),
    /// Tokenizer-specific error.
    TokenizerError(String),
    /// Invalid file or directory path.
    InvalidPath(String),
    /// Network-related error.
    NetworkError(String),
    /// URL parsing error.
    UrlError(String),
    /// Invalid URL.
    InvalidUrl(String),
    /// Failed to load a model.
    ModelLoadError(String),
    /// Insecure protocol (HTTPS required).
    InsecureProtocol(String),
    /// Download size exceeded the allowed limit.
    DownloadSizeExceeded { url: String, max_size: u64 },
}

#[verifier::external_type_specification]
#[verifier::external_body]
pub struct ExCoreBPE(tiktoken_rs::CoreBPE);

#[verifier::external_type_specification]
#[verifier::external_body]
pub struct ExTokenizer(tokenizers::Tokenizer);

/// Whether a model name has a built-in byte-pair table; a function of the
/// name alone, realised by the encoder lookup below.
pub uninterp spec fn known_model(m: Seq<char>) -> bool;

/// Relies on tiktoken_rs::bpe_for_model: the cached byte-pair encoder for a
/// known model name; it errs exactly when no tokenizer matches the name.
#[verifier::external_body]
fn bpe_for_model(model: &str) -> (r: Result<&'static tiktoken_rs::CoreBPE, String>)
    ensures
        r is Ok <==> known_model(model@),
{
    tiktoken_rs::bpe_for_model(model).map_err(|e| e.to_string())
}

/// Relies on CoreBPE::encode_with_special_tokens: the token ids of a text.
#[verifier::external_body]
fn bpe_encode(bpe: &tiktoken_rs::CoreBPE, text: &str) -> Vec<u32> {
    bpe.encode_with_special_tokens(text)
}

/// Relies on Tokenizer::encode and Encoding::get_ids: the token ids of a
/// text without added special tokens, or the encoder's error message.
#[verifier::external_body]
fn tokenizer_encode(t: &tokenizers::Tokenizer, text: &str) -> Result<Vec<u32>, String> {
    t.encode(text, false).map(|e| e.get_ids().to_vec()).map_err(|e| e.to_string())
}

/// What parsing a URL yields: its normalized scheme and whether it has a
/// host, or nothing when the text is no URL.  A function of the text alone,
/// realised by the parse below.
pub uninterp spec fn url_parse_of(s: Seq<char>) -> Option<(Seq<char>, bool)>;

/// Relies on url::Url::parse, Url::scheme and Url::host_str: the normalized
/// scheme of a parsed URL and whether it has a host, or the parse error's
/// message.
#[verifier::external_body]
fn url_scheme_host(s: &str) -> (r: Result<(String, bool), String>)
    ensures
        r is Ok <==> url_parse_of(s@) is Some,
        r is Ok ==> r->Ok_0.0@ == url_parse_of(s@)->Some_0.0 && r->Ok_0.1 == url_parse_of(
            s@,
        )->Some_0.1,
{
    url::Url::parse(s).map(|u| (u.scheme().to_string(), u.host_str().is_some())).map_err(
        |e| e.to_string(),
    )
}

/// Validate that a string is a URL with the secure scheme and a host:
/// exactly the parseable URLs whose scheme is "https" and which carry a
/// host pass, and each failure reports its own error, checked in that
/// order.
pub fn is_valid_url(url: &str) -> (r: Result<(), TokenizerError>)
    ensures
        r is Ok <==> (url_parse_of(url@) matches Some(p) && p.0 == "https"@ && p.1),
        url_parse_of(url@) is None ==> (r is Err && r->Err_0 matches TokenizerError::UrlError(
            _,
        )),
        (url_parse_of(url@) matches Some(p) && p.0 != "https"@) ==> (r is Err && (r->Err_0 matches
            TokenizerError::InsecureProtocol(m) && m@ == url@)),
        (url_parse_of(url@) matches Some(p) && p.0 == "https"@ && !p.1) ==> (r is Err
            && r->Err_0 matches TokenizerError::InvalidUrl(_)),
{
    match url_scheme_host(url) {
        Err(e) => Err(TokenizerError::UrlError(e)),
        Ok((scheme, has_host)) => {
            if !str_eq(scheme.as_str(), "https") {
                return Err(TokenizerError::InsecureProtocol(url.to_owned()));
            }
            if !has_host {
                return Err(TokenizerError::InvalidUrl("Missing host in URL".to_owned()));
            }
            Ok(())
        },
    }
}

/// Wrapper around the byte-pair tokenizer for OpenAI-style model names.
pub struct Tiktoken {
    bpe: &'static tiktoken_rs::CoreBPE,
}

impl Tiktoken {
    /// Create a tokenizer for the given model name; exactly the names with
    /// a built-in byte-pair table succeed, and an unknown name yields a
    /// model-load error.
    pub fn new(model: &str) -> (r: Result<Tiktoken, TokenizerError>)
        ensures
            r is Ok <==> known_model(model@),
            r is Err ==> r->Err_0 matches TokenizerError::ModelLoadError(_),
    {
        match bpe_for_model(model) {
            Ok(bpe) => Ok(Tiktoken { bpe }),
            Err(e) => Err(TokenizerError::ModelLoadError(e)),
        }
    }

    /// Encode text into token ids, with the token count and the character
    /// count of the input.
    pub fn encode(&self, text: &str) -> (r: (Vec<u32>, usize, usize))
        ensures
            r.1 == r.0@.len(),
            r.2 == text@.len(),
    {
        let tokens = bpe_encode(self.bpe, text);
        let num_tokens = tokens.len();
        let num_chars = text.unicode_len();
        (tokens, num_tokens, num_chars)
    }
}

/// Wrapper around a pretrained tokenizer loaded from a file; the host layer
/// reads or downloads the file and hands the loaded tokenizer in.
pub struct HuggingFaceTokenizer {
    tokenizer: tokenizers::Tokenizer,
}

impl HuggingFaceTokenizer {
    /// Wrap an already loaded tokenizer.
    pub fn from_tokenizer(tokenizer: tokenizers::Tokenizer) -> HuggingFaceTokenizer {
        HuggingFaceTokenizer { tokenizer }
    }

    /// Encode text into token ids, with the token count and the character
    /// count of the input.
    pub fn encode(&self, text: &str) -> (r: Result<
        (Vec<u32>, usize, usize),
        TokenizerError,
    >)
        ensures
            r is Ok ==> r->Ok_0.1 == r->Ok_0.0@.len() && r->Ok_0.2 == text@.len(),
            r is Err ==> r->Err_0 matches TokenizerError::TokenizerError(_),
    {
        match tokenizer_encode(&self.tokenizer, text) {
            Ok(tokens) => {
                let num_tokens = tokens.len();
                let num_chars = text.unicode_len();
                Ok((tokens, num_tokens, num_chars))
            },
            Err(e) => Err(TokenizerError::TokenizerError(e)),
        }
    }
}

/// The type of tokenizer being used.
pub enum TokenizerType {
    /// Byte-pair tokenizer for OpenAI-style models.
    Tiktoken(Tiktoken),
    /// Pretrained tokenizer loaded from a file.
    HuggingFace(Box<HuggingFaceTokenizer>),
}

/// The loading state: at most one tokenizer at a time.
pub struct State {
    /// The loaded tokenizer, if any.
    pub tokenizer: Option<TokenizerType>,
}

impl State {
    /// A state with no tokenizer loaded.
    pub fn new() -> (r: State)
        ensures
            r.tokenizer is None,
    {
        State { tokenizer: None }
    }

    /// Install a tokenizer that the host layer loaded from a file or URL.
    pub fn install(&mut self, t: TokenizerType)
        ensures
            final(self).tokenizer == Some(t),
    {
        self.tokenizer = Some(t);
    }
}

/// Load a pretrained tokenizer by model name.  Model names with a built-in
/// byte-pair table load directly; any other name needs a tokenizer file,
/// which only the host layer can read or download, so it is reported as a
/// model-load failure here.
pub fn from_pretrained(state: &mut State, model: &str) -> (r: Result<(), TokenizerError>)
    ensures
        r is Ok <==> known_model(model@),
        r is Ok ==> final(state).tokenizer is Some,
        r is Err ==> *final(state) == *old(state),
        r is Err ==> r->Err_0 matches TokenizerError::ModelLoadError(_),
{
    match Tiktoken::new(model) {
        Ok(tiktoken) => {
            state.tokenizer = Some(TokenizerType::Tiktoken(tiktoken));
            Ok(())
        },
        Err(e) => Err(e),
    }
}

/// Encode text with the loaded tokenizer; encoding with no tokenizer loaded
/// is an error.
pub fn encode(state: &State, text: &str) -> (r: Result<(Vec<u32>, usize, usize), TokenizerError>)
    ensures
        state.tokenizer is None ==> (r is Err && r->Err_0 matches TokenizerError::TokenizerError(
            _,
        )),
        r is Ok ==> r->Ok_0.1 == r->Ok_0.0@.len() && r->Ok_0.2 == text@.len(),
{
    match &state.tokenizer {
        Some(TokenizerType::Tiktoken(tokenizer)) => {
            let (tokens, num_tokens, num_chars) = tokenizer.encode(text);
            Ok((tokens, num_tokens, num_chars))
        },
        Some(TokenizerType::HuggingFace(tokenizer)) => tokenizer.encode(text),
        None => Err(TokenizerError::TokenizerError("Tokenizer not initialized".to_owned())),
    }
}

} // verus!
