use std::str::FromStr;
use ursix::config::TokenizerMode;
use ursix::context::InputContext;
use ursix::tokens::{
    check_token_limits, count_context_tokens, count_tokens, count_tokens_full, count_tokens_heuristic, token_count_from_encoding, TokenCheck,
    TokenCount, TokenLimits,
};

/// A small word-level tokenizer that needs no download.
fn word_tokenizer() -> tokenizers::Tokenizer {
    let json = r#"{
        "version": "1.0",
        "truncation": null,
        "padding": null,
        "added_tokens": [],
        "normalizer": null,
        "pre_tokenizer": {"type": "Whitespace"},
        "post_processor": null,
        "decoder": null,
        "model": {"type": "WordLevel", "vocab": {"[UNK]": 0, "hello": 1, "world": 2}, "unk_token": "[UNK]"}
    }"#;
    tokenizers::Tokenizer::from_str(json).unwrap()
}

#[test]
fn test_count_tokens_heuristic_empty() {
    let count = count_tokens_heuristic("");
    assert_eq!(count.count, 0);
}

#[test]
fn test_count_tokens_heuristic_simple() {
    let count = count_tokens_heuristic("hello world");
    assert!(count.count > 0);
    assert!(count.count < 10);
}

#[test]
fn test_count_tokens_heuristic_code() {
    let count = count_tokens_heuristic("fn main() { println!(\"Hello, world!\"); }");
    assert!(count.count > 0);
}

#[test]
fn test_count_tokens_heuristic_approximation() {
    let content = "a".repeat(100);
    let count = count_tokens_heuristic(&content);
    assert_eq!(count.count, 25);

    let content = "a".repeat(99);
    let count = count_tokens_heuristic(&content);
    assert_eq!(count.count, 25);

    let content = "a".repeat(101);
    let count = count_tokens_heuristic(&content);
    assert_eq!(count.count, 26);
}

#[test]
fn test_count_tokens_full_empty() {
    let tok = word_tokenizer();
    let count = count_tokens_full("", Ok(&tok)).unwrap();
    assert_eq!(count.count, 0);
}

#[test]
fn test_count_tokens_full_simple() {
    let tok = word_tokenizer();
    let count = count_tokens_full("hello world", Ok(&tok)).unwrap();
    assert!(count.count > 0);
    assert!(count.count < 10);
}

#[test]
fn test_count_tokens_full_code() {
    let tok = word_tokenizer();
    let count = count_tokens_full("fn main() { println!(\"Hello, world!\"); }", Ok(&tok)).unwrap();
    assert!(count.count > 0);
}

#[test]
fn test_count_tokens_with_mode() {
    let count = count_tokens("hello world", TokenizerMode::Heuristic, Err("unused".to_string())).unwrap();
    assert!(count.count > 0);

    let tok = word_tokenizer();
    let count = count_tokens("hello world", TokenizerMode::Full, Ok(&tok)).unwrap();
    assert!(count.count > 0);
}

#[test]
fn test_token_limits_default() {
    let limits = TokenLimits::default();
    assert_eq!(limits.warn_threshold, 8000);
    assert_eq!(limits.error_threshold, 16000);
}

#[test]
fn test_check_token_limits_ok() {
    let limits = TokenLimits::default();
    let count = TokenCount::new(1000);
    match check_token_limits(count, &limits) {
        TokenCheck::WithinLimits(c) => assert_eq!(c.count, 1000),
        _ => panic!("expected Ok"),
    }
}

#[test]
fn test_check_token_limits_warning() {
    let limits = TokenLimits::default();
    let count = TokenCount::new(10000);
    match check_token_limits(count, &limits) {
        TokenCheck::Warning { count: c, message } => {
            assert_eq!(c.count, 10000);
            assert!(message.contains("10000 tokens"));
            assert!(message.contains("--chunk"));
        }
        _ => panic!("expected Warning"),
    }
}

#[test]
fn test_check_token_limits_error() {
    let limits = TokenLimits::default();
    let count = TokenCount::new(20000);
    match check_token_limits(count, &limits) {
        TokenCheck::Error { count: c, message } => {
            assert_eq!(c.count, 20000);
            assert!(message.contains("20000 tokens"));
            assert!(message.contains("--chunk"));
        }
        _ => panic!("expected Error"),
    }
}

#[test]
fn test_count_context_tokens_empty() {
    let context = InputContext::default();
    let count = count_context_tokens(&context, TokenizerMode::Heuristic, Err("unused".to_string())).unwrap();
    assert_eq!(count.count, 0);
}

#[test]
fn test_count_context_tokens_with_content() {
    let context = InputContext::new("fn main() {}");
    let count = count_context_tokens(&context, TokenizerMode::Heuristic, Err("unused".to_string())).unwrap();
    assert!(count.count > 0);
}

#[test]
fn test_count_context_tokens_full_mode() {
    let tok = word_tokenizer();
    let context = InputContext::new("fn main() {}");
    let count = count_context_tokens(&context, TokenizerMode::Full, Ok(&tok)).unwrap();
    assert!(count.count > 0);
}

#[test]
fn test_check_token_limits_at_boundaries() {
    let limits = TokenLimits { warn_threshold: 100, error_threshold: 200 };

    let count = TokenCount::new(101);
    assert!(matches!(check_token_limits(count, &limits), TokenCheck::Warning { .. }));

    let count = TokenCount::new(201);
    assert!(matches!(check_token_limits(count, &limits), TokenCheck::Error { .. }));

    let count = TokenCount::new(100);
    assert!(matches!(check_token_limits(count, &limits), TokenCheck::WithinLimits(_)));

    let count = TokenCount::new(200);
    assert!(matches!(check_token_limits(count, &limits), TokenCheck::Warning { .. }));
}

#[test]
fn full_count_reports_missing_tokenizer() {
    let err = count_tokens_full("hello", Err("no network".to_string())).unwrap_err();
    assert_eq!(err, "failed to load tokenizer: no network");
}

#[test]
fn token_check_messages_exact() {
    let limits = TokenLimits::default();
    match check_token_limits(TokenCount::new(10000), &limits) {
        TokenCheck::Warning { message, .. } => assert_eq!(
            message,
            "input has 10000 tokens (>8000 threshold); quality may be affected. consider using --chunk for better results"
        ),
        _ => panic!("expected Warning"),
    }
}

#[test]
fn token_count_from_encoding_keeps_count_and_wraps_error() {
    assert_eq!(token_count_from_encoding(Ok(7)).unwrap().count, 7);
    assert_eq!(
        token_count_from_encoding(Err("bad input".to_string())).unwrap_err(),
        "tokenization failed: bad input"
    );
}
