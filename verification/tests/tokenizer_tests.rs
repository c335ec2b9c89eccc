//! Tests of the tokenizer front-ends and their loading state.

use neopilot::tokenizer::{State, Tiktoken, TokenizerError, from_pretrained, encode};

#[test]
fn test_tokenizer_initialization() {
    let mut state = State::new();

    // Test with valid model
    let result = from_pretrained(&mut state, "gpt-4o");
    assert!(result.is_ok(), "Failed to initialize tokenizer with valid model");

    // Test with invalid model
    let result = from_pretrained(&mut state, "invalid-model");
    assert!(result.is_err(), "Should fail with invalid model");
}

#[test]
fn test_tokenizer_encoding() {
    let mut state = State::new();

    from_pretrained(&mut state, "gpt-4o").unwrap();

    // Test encoding
    let (tokens, num_tokens, num_chars) = encode(&state, "Hello, world!").unwrap();
    assert!(!tokens.is_empty(), "No tokens generated");
    assert_eq!(num_chars, 13, "Incorrect character count");
    assert!(num_tokens > 0, "No tokens generated");
}

#[test]
fn test_tiktoken_initialization() {
    let tokenizer = Tiktoken::new("gpt-4");
    assert!(tokenizer.is_ok());
}

#[test]
fn test_tiktoken_encoding() {
    let tokenizer = Tiktoken::new("gpt-4").unwrap();
    let (tokens, num_tokens, num_chars) = tokenizer.encode("Hello, world!");
    assert!(!tokens.is_empty());
    assert!(num_tokens > 0);
    assert_eq!(num_chars, 13);
}

#[test]
fn test_invalid_model() {
    let tokenizer = Tiktoken::new("invalid-model");
    assert!(matches!(tokenizer, Err(TokenizerError::ModelLoadError(_))));
}

#[test]
fn test_uninitialized_tokenizer() {
    let state = State::new();
    let state_ref = &state;
    let result = encode(state_ref, "test");
    assert!(matches!(result, Err(TokenizerError::TokenizerError(_))));
}

#[test]
fn invalid_url_is_rejected() {
    let result = neopilot::tokenizer::is_valid_url("http://invalid-url");
    assert!(matches!(result, Err(TokenizerError::InsecureProtocol(_))));
    let result = neopilot::tokenizer::is_valid_url("not a url at all");
    assert!(matches!(result, Err(TokenizerError::UrlError(_))));
    assert!(neopilot::tokenizer::is_valid_url("https://huggingface.co/t.json").is_ok());
}

#[test]
fn token_count_matches_token_list() {
    let tokenizer = Tiktoken::new("gpt-4o").unwrap();
    let (tokens, num_tokens, num_chars) = tokenizer.encode("The quick brown fox");
    assert_eq!(num_tokens, tokens.len());
    assert_eq!(num_chars, "The quick brown fox".chars().count());
}
