use ursix::output::review::{ChunkFailure, ReviewIssue, ReviewResult};
use ursix::output::status::{StatusCheck, StatusResult, VerboseInfo};
use ursix::output::{CommandOutput, ExitCode, ExitStatus};

fn issue(severity: &str, file: &str, line: usize, message: &str, rule: &str) -> ReviewIssue {
    ReviewIssue {
        severity: severity.to_string(),
        file: file.to_string(),
        line,
        message: message.to_string(),
        rule: rule.to_string(),
    }
}

#[test]
fn review_test_review_result_exit_status_passed() {
    let result = ReviewResult {
        summary: "All good".to_string(),
        issues: vec![],
        passed: true,
        chunks_processed: None,
        chunk_failures: vec![],
    };
    assert_eq!(result.exit_code(), ExitCode::Success);
}

#[test]
fn review_test_review_result_exit_status_failed() {
    let result = ReviewResult {
        summary: "Issues found".to_string(),
        issues: vec![issue("error", "test.rs", 10, "bug", "no-bugs")],
        passed: false,
        chunks_processed: None,
        chunk_failures: vec![],
    };
    assert_eq!(result.exit_code(), ExitCode::IssuesFound);
}

#[test]
fn test_review_result_render_human_no_issues() {
    let result = ReviewResult {
        summary: "Code looks great".to_string(),
        issues: vec![],
        passed: true,
        chunks_processed: None,
        chunk_failures: vec![],
    };
    let output = result.render_human();
    assert!(output.contains("Code looks great"));
    assert!(output.contains("No issues found."));
}

#[test]
fn test_review_result_render_human_with_file_and_line() {
    let result = ReviewResult {
        summary: "Found some issues".to_string(),
        issues: vec![issue("error", "src/main.rs", 42, "unused variable", "no-unused-vars")],
        passed: false,
        chunks_processed: None,
        chunk_failures: vec![],
    };
    let output = result.render_human();
    assert!(output.contains("Issues (1):"));
    assert!(output.contains("[error] src/main.rs:42 (no-unused-vars): unused variable"));
}

#[test]
fn test_review_result_render_human_multiple_issues() {
    let result = ReviewResult {
        summary: "Multiple problems found".to_string(),
        issues: vec![
            issue("error", "a.rs", 1, "first issue", "rule-a"),
            issue("warning", "b.rs", 2, "second issue", "rule-b"),
        ],
        passed: false,
        chunks_processed: None,
        chunk_failures: vec![],
    };
    let output = result.render_human();
    assert!(output.contains("Issues (2):"));
    assert!(output.contains("[error] a.rs:1 (rule-a): first issue"));
    assert!(output.contains("[warning] b.rs:2 (rule-b): second issue"));
}

#[test]
fn test_review_result_with_chunks() {
    let result = ReviewResult {
        summary: "Reviewed 3 files".to_string(),
        issues: vec![issue("warning", "src/lib.rs", 5, "unused import", "no-unused-imports")],
        passed: false,
        chunks_processed: Some(3),
        chunk_failures: vec![],
    };
    let output = result.render_human();
    assert!(output.contains("Processed 3 file(s)"));
    assert!(output.contains("Issues (1):"));
}

#[test]
fn test_review_result_with_chunk_failures() {
    let result = ReviewResult {
        summary: "Partial review".to_string(),
        issues: vec![],
        passed: true,
        chunks_processed: Some(3),
        chunk_failures: vec![ChunkFailure { file_path: "src/broken.rs".to_string(), error: "LLM timeout".to_string() }],
    };
    let output = result.render_human();
    assert!(output.contains("Processed 3 file(s)"));
    assert!(output.contains("1 failed, results are partial"));
    assert!(output.contains("Chunk failures (1):"));
    assert!(output.contains("src/broken.rs: LLM timeout"));
}

#[test]
fn test_status_check_pass() {
    let check = StatusCheck::pass("config", "loaded successfully");
    assert!(check.passed);
    assert_eq!(check.name, "config");
    assert_eq!(check.message, "loaded successfully");
    assert!(check.details.is_none());
}

#[test]
fn test_status_check_fail_with_details() {
    let check = StatusCheck::fail("api_key", "required for OpenAI").with_details("Set URSIX_API_KEY environment variable");
    assert!(!check.passed);
    assert_eq!(check.name, "api_key");
    assert!(check.details.is_some());
}

#[test]
fn test_status_result_ok_when_all_pass() {
    let mut result = StatusResult::new("ollama", "http://localhost:11434", "llama3.2", false);
    result.add_check(StatusCheck::pass("config", "ok"));
    result.add_check(StatusCheck::pass("connectivity", "ok"));
    assert!(result.ok);
}

#[test]
fn test_status_result_not_ok_when_check_fails() {
    let mut result = StatusResult::new("openai", "https://api.openai.com/v1", "gpt-4", false);
    result.add_check(StatusCheck::pass("config", "ok"));
    result.add_check(StatusCheck::fail("api_key", "required"));
    assert!(!result.ok);
}

#[test]
fn test_status_result_exit_code_success() {
    let mut result = StatusResult::new("ollama", "http://localhost:11434", "llama3.2", false);
    result.add_check(StatusCheck::pass("config", "ok"));
    assert_eq!(result.exit_code(), ExitCode::Success);
}

#[test]
fn test_status_result_exit_code_user_error_for_api_key() {
    let mut result = StatusResult::new("openai", "https://api.openai.com/v1", "gpt-4", false);
    result.add_check(StatusCheck::fail("api_key", "required"));
    assert_eq!(result.exit_code(), ExitCode::UserError);
}

#[test]
fn test_status_result_exit_code_transient_for_connectivity() {
    let mut result = StatusResult::new("ollama", "http://localhost:11434", "llama3.2", false);
    result.add_check(StatusCheck::pass("api_key", "not required"));
    result.add_check(StatusCheck::fail("connectivity", "connection refused"));
    assert_eq!(result.exit_code(), ExitCode::TransientError);
}

#[test]
fn test_status_result_human_output() {
    let mut result = StatusResult::new("ollama", "http://localhost:11434", "llama3.2", false);
    result.add_check(StatusCheck::pass("config", "configuration loaded successfully"));
    result.add_check(StatusCheck::pass("connectivity", "connected, model available"));

    let output = result.render_human();
    assert!(output.contains("Ursix Status: OK"));
    assert!(output.contains("Provider:  ollama"));
    assert!(output.contains("[ok] config"));
    assert!(output.contains("[ok] connectivity"));
}

#[test]
fn test_status_result_human_output_failed() {
    let mut result = StatusResult::new("openai", "https://api.openai.com/v1", "gpt-4", false);
    result.add_check(StatusCheck::pass("config", "ok"));
    result.add_check(
        StatusCheck::fail("api_key", "required for remote OpenAI endpoint").with_details("Set URSIX_API_KEY environment variable"),
    );

    let output = result.render_human();
    assert!(output.contains("Ursix Status: FAILED"));
    assert!(output.contains("[FAIL] api_key"));
    assert!(output.contains("Set URSIX_API_KEY"));
}

#[test]
fn test_status_result_with_verbose() {
    let mut result = StatusResult::new("ollama", "http://localhost:11434", "llama3.2", false);
    result.set_verbose(VerboseInfo {
        response_time_ms: Some(150),
        available_models: Some(vec!["llama3.2".to_string(), "codellama".to_string()]),
        model_available: Some(true),
    });

    let output = result.render_human();
    assert!(output.contains("Response time: 150ms"));
    assert!(output.contains("Model status: available"));
    assert!(output.contains("Available models:"));
}

#[test]
fn status_history_keeps_checks_and_stays_failed() {
    let mut status = StatusResult::new("ollama", "http://localhost:11434", "m", false);
    let checks = vec![
        StatusCheck::pass("config", "ok"),
        StatusCheck::fail("api_key", "missing"),
        StatusCheck::pass("connectivity", "ok"),
    ];
    let mut expected_ok = true;
    for c in &checks {
        status.add_check(c.clone());
        expected_ok = expected_ok && c.passed;
        assert_eq!(status.ok, expected_ok);
    }
    assert!(!status.ok);
    let names: Vec<&str> = status.checks.iter().map(|c| c.name.as_str()).collect();
    assert_eq!(names, vec!["config", "api_key", "connectivity"]);
}
