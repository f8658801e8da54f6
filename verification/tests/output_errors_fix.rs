use ursix::output::error::{ErrorResponse, TypedError};
use ursix::output::fix::{FixError, FixErrorCode, FixResult, IssueFailure, WholeFileFixResult};
use ursix::output::init::InitResult;
use ursix::output::partial::{ChunkFailureInfo, PartialFixResult, PartialReviewResult};
use ursix::output::{CommandOutput, ExitCode, ExitStatus};

#[test]
fn test_typed_error_exit_codes() {
    assert_eq!(TypedError::invalid_arguments("bad").exit_code(), ExitCode::UserError);
    assert_eq!(TypedError::config("bad config").exit_code(), ExitCode::UserError);
    assert_eq!(TypedError::input("missing file").exit_code(), ExitCode::UserError);
    assert_eq!(TypedError::git("not a repo").exit_code(), ExitCode::UserError);
    assert_eq!(TypedError::token_limit("too big").exit_code(), ExitCode::UserError);

    assert_eq!(TypedError::network("timeout").exit_code(), ExitCode::TransientError);
    assert_eq!(TypedError::api("rate limited", true).exit_code(), ExitCode::TransientError);

    assert_eq!(TypedError::api("invalid key", false).exit_code(), ExitCode::PermanentError);
    assert_eq!(TypedError::parse("invalid json").exit_code(), ExitCode::PermanentError);
    assert_eq!(TypedError::internal("bug").exit_code(), ExitCode::PermanentError);
}

#[test]
fn test_typed_error_is_retryable() {
    assert!(TypedError::network("timeout").is_retryable());
    assert!(TypedError::api("rate limited", true).is_retryable());

    assert!(!TypedError::api("invalid key", false).is_retryable());
    assert!(!TypedError::parse("bad json").is_retryable());
    assert!(!TypedError::config("missing").is_retryable());
}

#[test]
fn test_error_response_exit_code() {
    let response_network = ErrorResponse::new(TypedError::network("timeout"));
    assert_eq!(response_network.exit_code(), ExitCode::TransientError);

    let response_parse = ErrorResponse::new(TypedError::parse("bad json"));
    assert_eq!(response_parse.exit_code(), ExitCode::PermanentError);
}

#[test]
fn test_typed_error_display() {
    let error = TypedError::NetworkError {
        message: "connection refused".to_string(),
        url: Some("http://localhost:8080".to_string()),
        retryable: true,
    };

    assert_eq!(error.message(), "connection refused");
}

#[test]
fn test_fix_result_exit_code() {
    let result = FixResult {
        diff: "--- a/test.rs\n+++ b/test.rs".to_string(),
        file: "test.rs".to_string(),
        lines: (10, 12),
        lines_added: 1,
        lines_removed: 2,
        warnings: vec![],
    };
    assert_eq!(result.exit_code(), ExitCode::Success);
}

#[test]
fn test_fix_result_human_output() {
    let result = FixResult {
        diff: "--- a/test.rs\n+++ b/test.rs\n@@ -1 +1 @@\n-old\n+new".to_string(),
        file: "test.rs".to_string(),
        lines: (1, 1),
        lines_added: 1,
        lines_removed: 1,
        warnings: vec![],
    };
    let output = result.render_human();
    assert!(output.contains("Fixed test.rs (lines 1..1)"));
    assert!(output.contains("+1 -1 lines"));
    assert!(output.contains("--- a/test.rs"));
}

#[test]
fn test_fix_result_human_output_with_warnings() {
    let result = FixResult {
        diff: "diff".to_string(),
        file: "test.rs".to_string(),
        lines: (1, 1),
        lines_added: 0,
        lines_removed: 0,
        warnings: vec!["possible unbalanced delimiters".to_string()],
    };
    let output = result.render_human();
    assert!(output.contains("warning: possible unbalanced delimiters"));
}

#[test]
fn test_fix_error_input_validation() {
    let error = FixError::input_validation("invalid JSON");
    assert_eq!(error.code, FixErrorCode::InputValidation);
    assert_eq!(error.exit_code(), ExitCode::UserError);
}

#[test]
fn test_fix_error_llm_error() {
    let error = FixError::llm_error("network timeout");
    assert_eq!(error.code, FixErrorCode::LlmError);
    assert_eq!(error.exit_code(), ExitCode::TransientError);
}

#[test]
fn test_fix_error_output_validation() {
    let error = FixError::output_validation("replacement too long");
    assert_eq!(error.code, FixErrorCode::OutputValidation);
    assert_eq!(error.exit_code(), ExitCode::PermanentError);
}

#[test]
fn test_fix_error_with_raw_output() {
    let error = FixError::output_validation("bad response").with_raw_output("Here's the fix: let x = 1;");
    assert!(error.raw_output.is_some());
    let output = error.render_human();
    assert!(output.contains("raw output:"));
    assert!(output.contains("Here's the fix"));
}

#[test]
fn test_fix_error_with_warnings() {
    let error = FixError::output_validation("validation failed")
        .with_warnings(vec!["warning 1".to_string(), "warning 2".to_string()]);
    assert_eq!(error.warnings.len(), 2);
    let output = error.render_human();
    assert!(output.contains("warning: warning 1"));
    assert!(output.contains("warning: warning 2"));
}

#[test]
fn test_whole_file_fix_result_exit_code_success() {
    let result = WholeFileFixResult {
        diff: "diff".to_string(),
        file: "test.rs".to_string(),
        issues_fixed: 3,
        issues_failed: 0,
        lines_added: 5,
        lines_removed: 2,
        issue_failures: vec![],
    };
    assert_eq!(result.exit_code(), ExitCode::Success);
}

#[test]
fn test_whole_file_fix_result_exit_code_partial_success() {
    let result = WholeFileFixResult {
        diff: "diff".to_string(),
        file: "test.rs".to_string(),
        issues_fixed: 2,
        issues_failed: 1,
        lines_added: 3,
        lines_removed: 1,
        issue_failures: vec![IssueFailure {
            issue: "test".to_string(),
            lines: (10, 10),
            error: "validation failed".to_string(),
        }],
    };
    assert_eq!(result.exit_code(), ExitCode::Success);
}

#[test]
fn test_whole_file_fix_result_exit_code_all_failed() {
    let result = WholeFileFixResult {
        diff: String::new(),
        file: "test.rs".to_string(),
        issues_fixed: 0,
        issues_failed: 2,
        lines_added: 0,
        lines_removed: 0,
        issue_failures: vec![
            IssueFailure { issue: "issue 1".to_string(), lines: (10, 10), error: "failed".to_string() },
            IssueFailure { issue: "issue 2".to_string(), lines: (20, 20), error: "failed".to_string() },
        ],
    };
    assert_eq!(result.exit_code(), ExitCode::PermanentError);
}

#[test]
fn test_whole_file_fix_result_human_output() {
    let result = WholeFileFixResult {
        diff: "--- a/test.rs\n+++ b/test.rs".to_string(),
        file: "test.rs".to_string(),
        issues_fixed: 3,
        issues_failed: 0,
        lines_added: 5,
        lines_removed: 2,
        issue_failures: vec![],
    };
    let output = result.render_human();
    assert!(output.contains("Fixed 3/3 issues in test.rs"));
    assert!(output.contains("+5 -2 lines"));
    assert!(output.contains("--- a/test.rs"));
}

#[test]
fn test_whole_file_fix_result_human_output_with_failures() {
    let result = WholeFileFixResult {
        diff: "diff".to_string(),
        file: "test.rs".to_string(),
        issues_fixed: 2,
        issues_failed: 1,
        lines_added: 3,
        lines_removed: 1,
        issue_failures: vec![IssueFailure {
            issue: "complex fix".to_string(),
            lines: (50, 55),
            error: "replacement too long".to_string(),
        }],
    };
    let output = result.render_human();
    assert!(output.contains("Fixed 2/3 issues in test.rs"));
    assert!(output.contains("failed: lines 50..55: complex fix - replacement too long"));
}

#[test]
fn test_init_result_human_output_success() {
    let result = InitResult {
        success: true,
        files_created: vec![".ursix.toml".to_string(), ".ursix/rules.yml".to_string()],
        provider: "ollama".to_string(),
        model: "llama3.2".to_string(),
        connectivity_test: Some(true),
        warnings: vec![],
    };
    let output = result.render_human();
    assert!(output.contains("initialized successfully"));
    assert!(output.contains(".ursix.toml"));
    assert!(output.contains(".ursix/rules.yml"));
    assert!(output.contains("Provider: ollama"));
    assert!(output.contains("Model: llama3.2"));
    assert!(output.contains("Connectivity test: passed"));
}

#[test]
fn test_init_result_human_output_with_warnings() {
    let result = InitResult {
        success: true,
        files_created: vec![".ursix.toml".to_string()],
        provider: "openai".to_string(),
        model: "gpt-4o".to_string(),
        connectivity_test: None,
        warnings: vec!["URSIX_API_KEY not set".to_string()],
    };
    let output = result.render_human();
    assert!(output.contains("Warnings:"));
    assert!(output.contains("URSIX_API_KEY not set"));
}

#[test]
fn test_init_result_exit_status() {
    let success = InitResult {
        success: true,
        files_created: vec![],
        provider: "ollama".to_string(),
        model: "llama3.2".to_string(),
        connectivity_test: None,
        warnings: vec![],
    };
    assert_eq!(success.exit_code(), ExitCode::Success);

    let failure = InitResult {
        success: false,
        files_created: vec![],
        provider: "ollama".to_string(),
        model: "llama3.2".to_string(),
        connectivity_test: None,
        warnings: vec![],
    };
    assert_eq!(failure.exit_code(), ExitCode::UserError);
}

#[test]
fn test_partial_review_result_exit_code() {
    let result = PartialReviewResult {
        issues: vec![],
        chunks_processed: vec!["file1.rs".to_string()],
        chunks_failed: vec![ChunkFailureInfo { chunk_id: "file2.rs".to_string(), error: "network error".to_string() }],
        summary: "Partial review".to_string(),
    };
    assert_eq!(result.exit_code(), ExitCode::IssuesFound);
}

#[test]
fn test_partial_fix_result_exit_code() {
    let result = PartialFixResult {
        fixes: vec![],
        chunks_processed: vec!["file1.rs".to_string()],
        chunks_failed: vec![],
        diagnosis: "Partial fix".to_string(),
    };
    assert_eq!(result.exit_code(), ExitCode::IssuesFound);
}
