use ursix::commands::derive::{
    build_user_request, derive_dry_run_plan, derive_token_decision, estimate_chunk_count, split_by_tokens,
    synthesis_input, DeriveType,
};
use ursix::tokens::{TokenCheck, TokenCount};

#[test]
fn test_derive_type_from_str() {
    assert_eq!(DeriveType::from_str("commit-msg").unwrap(), DeriveType::CommitMsg);
    assert_eq!(DeriveType::from_str("commit").unwrap(), DeriveType::CommitMsg);
    assert_eq!(DeriveType::from_str("explanation").unwrap(), DeriveType::Explanation);
    assert_eq!(DeriveType::from_str("explain").unwrap(), DeriveType::Explanation);
    assert_eq!(DeriveType::from_str("summary").unwrap(), DeriveType::Summary);
    assert!(DeriveType::from_str("invalid").is_err());
}

#[test]
fn test_derive_type_command_name() {
    assert_eq!(DeriveType::CommitMsg.command_name(), "derive:commit-msg");
    assert_eq!(DeriveType::Explanation.command_name(), "derive:explanation");
    assert_eq!(DeriveType::Summary.command_name(), "derive:summary");
}

#[test]
fn test_split_by_tokens_small_input() {
    let content = "small input";
    let chunks = split_by_tokens(content, 1000);
    assert_eq!(chunks.len(), 1);
    assert_eq!(chunks[0], "small input");
}

#[test]
fn test_split_by_tokens_empty() {
    let chunks = split_by_tokens("", 1000);
    assert_eq!(chunks.len(), 1);
    assert!(chunks[0].is_empty());
}

#[test]
fn test_split_by_tokens_large_input() {
    let content = "line\n".repeat(1000);
    let chunks = split_by_tokens(&content, 100);
    assert!(chunks.len() > 1);
}

#[test]
fn test_estimate_chunk_count() {
    assert_eq!(estimate_chunk_count(1000), 1);
    assert_eq!(estimate_chunk_count(4000), 1);
    assert_eq!(estimate_chunk_count(4001), 2);
    assert_eq!(estimate_chunk_count(8000), 2);
    assert_eq!(estimate_chunk_count(12000), 3);
}

#[test]
fn test_build_user_request() {
    let req = build_user_request(DeriveType::CommitMsg, None);
    assert!(req.contains("conventional"));

    let req = build_user_request(DeriveType::CommitMsg, Some("simple"));
    assert!(req.contains("simple"));

    let req = build_user_request(DeriveType::Explanation, None);
    assert!(req.contains("Explain"));

    let req = build_user_request(DeriveType::Summary, None);
    assert!(req.contains("Summarize"));
}

#[test]
fn split_chunks_keep_every_line() {
    let content = "line\n".repeat(1000);
    let chunks = split_by_tokens(&content, 100);
    let total: usize = chunks.iter().map(|c| c.matches("line").count()).sum();
    assert_eq!(total, 1000);
    for c in &chunks {
        assert!(c.len() <= 900);
        assert_eq!(c.trim(), c.as_str());
    }
}

#[test]
fn derive_dry_run_plan_estimates_chunks() {
    let plan = derive_dry_run_plan(true, 9000);
    assert!(plan.enabled);
    assert_eq!(plan.chunk_count, Some(3));
    assert!(plan.chunks.is_empty());
    let plan = derive_dry_run_plan(false, 9000);
    assert!(!plan.enabled);
    assert_eq!(plan.chunk_count, None);
}

#[test]
fn derive_token_decision_suggests_chunking() {
    let warn = TokenCheck::Warning { count: TokenCount::new(9000), message: "big".to_string() };
    assert_eq!(derive_token_decision(&warn, false), Ok(Some("big; consider using --chunk-recursive".to_string())));
    assert_eq!(derive_token_decision(&warn, true), Ok(None));
    let err = TokenCheck::Error { count: TokenCount::new(20000), message: "huge".to_string() };
    assert_eq!(derive_token_decision(&err, false), Err("huge; use --chunk-recursive to process large inputs".to_string()));
    assert_eq!(derive_token_decision(&err, true), Ok(None));
}

#[test]
fn synthesis_input_separates_chunks() {
    let parts = vec!["a".to_string(), "b".to_string()];
    assert_eq!(synthesis_input(&parts), "a\n\n---\n\nb");
}

#[test]
fn split_counts_characters_of_non_ascii_text() {
    let content = "é".repeat(500);
    let chunks = split_by_tokens(&content, 100);
    assert_eq!(chunks.len(), 2);
    assert_eq!(chunks[0].chars().count(), 400);
    assert_eq!(chunks[1].chars().count(), 100);
}
