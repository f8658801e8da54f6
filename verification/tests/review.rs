use ursix::commands::review::{review_chunk_precheck, validate_input, InputType};

#[test]
fn test_validate_input_diff_stdin() {
    let diff = "diff --git a/file.rs b/file.rs\n--- a/file.rs\n+++ b/file.rs\n";
    let result = validate_input(diff, None);
    assert!(matches!(result, Ok(InputType::Diff)));
}

#[test]
fn test_validate_input_diff_with_from() {
    let diff = "diff --git a/file.rs b/file.rs\n--- a/file.rs\n+++ b/file.rs\n";
    let from = "changes.diff".to_string();
    let result = validate_input(diff, Some(&from));
    assert!(matches!(result, Ok(InputType::Diff)));
}

#[test]
fn test_validate_input_single_file() {
    let code = "fn main() { println!(\"hello\"); }";
    let from = "src/main.rs".to_string();
    let result = validate_input(code, Some(&from));
    assert!(matches!(result, Ok(InputType::SingleFile(_))));
}

#[test]
fn test_validate_input_invalid_stdin() {
    let code = "fn main() { println!(\"hello\"); }";
    let result = validate_input(code, None);
    assert!(result.is_err());
    assert!(result.unwrap_err().contains("review expects diff input"));
}

#[test]
fn chunk_precheck_cases() {
    assert_eq!(review_chunk_precheck(false, &InputType::Diff, ""), Ok(None));
    assert_eq!(
        review_chunk_precheck(true, &InputType::SingleFile("a.rs".to_string()), "code"),
        Ok(Some("warning: chunking single files not supported; processing as single-pass".to_string()))
    );
    assert!(review_chunk_precheck(true, &InputType::Diff, "--- a\n+++ b\n").is_err());
    let diff = "diff --git a/f.rs b/f.rs\n--- a/f.rs\n+++ b/f.rs\n+x\n";
    assert_eq!(review_chunk_precheck(true, &InputType::Diff, diff), Ok(None));
}

use ursix::commands::review::{chunk_too_large_message, combine_chunk_results, review_dry_run_plan};
use ursix::output::review::{ReviewIssue, ReviewResult};

fn issue(severity: &str) -> ReviewIssue {
    ReviewIssue {
        severity: severity.to_string(),
        file: "a.rs".to_string(),
        line: 1,
        message: "m".to_string(),
        rule: "r".to_string(),
    }
}

fn review(issues: Vec<ReviewIssue>) -> ReviewResult {
    ReviewResult { summary: "s".to_string(), issues, passed: true, chunks_processed: None, chunk_failures: vec![] }
}

#[test]
fn combined_review_counts_files_and_errors() {
    let results = vec![
        ("a.rs".to_string(), Ok(review(vec![issue("warning")]))),
        ("b.rs".to_string(), Ok(review(vec![issue("error")]))),
    ];
    let r = combine_chunk_results(2, &results, false).unwrap();
    assert_eq!(r.summary, "Reviewed 2 file(s)");
    assert_eq!(r.issues.len(), 2);
    assert!(!r.passed);
    assert_eq!(r.chunks_processed, Some(2));
}

#[test]
fn combined_review_partial_failures() {
    let results = vec![
        ("a.rs".to_string(), Ok(review(vec![issue("warning")]))),
        ("b.rs".to_string(), Err("LLM call failed: x".to_string())),
    ];
    let r = combine_chunk_results(2, &results, true).unwrap();
    assert_eq!(r.summary, "Reviewed 2 file(s) (1 succeeded, 1 failed)");
    assert!(!r.passed);
    assert_eq!(r.chunk_failures.len(), 1);
    assert_eq!(r.chunk_failures[0].file_path, "b.rs");
    let err = combine_chunk_results(2, &results, false).unwrap_err();
    assert_eq!(err, "review failed for b.rs: LLM call failed: x");
    let all_failed = vec![("b.rs".to_string(), Err("boom".to_string()))];
    assert_eq!(combine_chunk_results(1, &all_failed, true).unwrap_err(), "all 1 chunk(s) failed; first error: boom");
}

#[test]
fn review_dry_run_plan_per_file() {
    let diff = "diff --git a/f.rs b/f.rs\n--- a/f.rs\n+++ b/f.rs\n+x\n";
    let plan = review_dry_run_plan(true, diff);
    assert!(plan.enabled);
    assert_eq!(plan.chunk_count, Some(1));
    assert_eq!(plan.chunks[0].id, "f.rs");
    assert!(!review_dry_run_plan(false, diff).enabled);
    assert_eq!(chunk_too_large_message("m"), "chunk too large: m");
}
