use ursix::output::basic::{
    AskResult, CommandOutput, CommitResult, ConfigEntry, ConfigResult, ExitCode, ExitStatus, ExplainResult, Fix,
    FixResult, ModelsResult, ReviewIssue, ReviewResult,
};

#[test]
fn output_test_ask_result_human_output() {
    let result = AskResult { response: "Hello, world!".to_string(), turns: 1 };
    assert_eq!(result.render_human(), "Hello, world!");
}

#[test]
fn output_test_config_result_human_output() {
    let result = ConfigResult {
        entries: vec![
            ConfigEntry { key: "model".to_string(), value: "llama3.2".to_string() },
            ConfigEntry { key: "max_turns".to_string(), value: "50".to_string() },
        ],
    };
    let output = result.render_human();
    assert!(output.contains("model = llama3.2"));
    assert!(output.contains("max_turns = 50"));
}

#[test]
fn test_models_result_human_output() {
    let result = ModelsResult { models: vec!["llama3.2".to_string(), "qwen2.5-coder".to_string()] };
    let output = result.render_human();
    assert_eq!(output, "llama3.2\nqwen2.5-coder");
}

#[test]
fn output_test_exit_code_values() {
    assert_eq!(u8::from(ExitCode::Success), 0);
    assert_eq!(u8::from(ExitCode::IssuesFound), 1);
    assert_eq!(u8::from(ExitCode::Error), 2);
}

#[test]
fn output_test_exit_code_to_i32() {
    assert_eq!(i32::from(ExitCode::Success), 0);
    assert_eq!(i32::from(ExitCode::IssuesFound), 1);
    assert_eq!(i32::from(ExitCode::Error), 2);
}

#[test]
fn output_test_ask_result_exit_status() {
    let result = AskResult { response: "test".to_string(), turns: 1 };
    assert_eq!(result.exit_code(), ExitCode::Success);
}

#[test]
fn output_test_config_result_exit_status() {
    let result = ConfigResult { entries: vec![] };
    assert_eq!(result.exit_code(), ExitCode::Success);
}

#[test]
fn test_models_result_exit_status() {
    let result = ModelsResult { models: vec![] };
    assert_eq!(result.exit_code(), ExitCode::Success);
}

#[test]
fn output_test_commit_result_exit_status() {
    let result = CommitResult { message: "test".to_string(), title: "test".to_string(), body: None };
    assert_eq!(result.exit_code(), ExitCode::Success);
}

#[test]
fn output_test_review_result_exit_status_passed() {
    let result = ReviewResult { summary: "All good".to_string(), issues: vec![], passed: true };
    assert_eq!(result.exit_code(), ExitCode::Success);
}

#[test]
fn output_test_review_result_exit_status_failed() {
    let result = ReviewResult {
        summary: "Issues found".to_string(),
        issues: vec![ReviewIssue {
            severity: "error".to_string(),
            file: Some("test.rs".to_string()),
            line: Some(10),
            message: "bug".to_string(),
        }],
        passed: false,
    };
    assert_eq!(result.exit_code(), ExitCode::IssuesFound);
}

#[test]
fn output_test_explain_result_exit_status() {
    let result = ExplainResult { explanation: "This is how it works".to_string() };
    assert_eq!(result.exit_code(), ExitCode::Success);
}

#[test]
fn output_test_explain_result_human_output() {
    let result = ExplainResult { explanation: "This is the explanation".to_string() };
    assert_eq!(result.render_human(), "This is the explanation");
}

#[test]
fn test_fix_result_exit_status_success() {
    let result = FixResult {
        diagnosis: "unused variable".to_string(),
        fixes: vec![Fix {
            file: "test.rs".to_string(),
            line: Some(10),
            original: "let x = 1;".to_string(),
            replacement: "let _x = 1;".to_string(),
            explanation: "prefix unused variable with underscore".to_string(),
        }],
        unfixable_count: 0,
    };
    assert_eq!(result.exit_code(), ExitCode::Success);
}

#[test]
fn test_fix_result_exit_status_with_remaining() {
    let result = FixResult { diagnosis: "multiple issues".to_string(), fixes: vec![], unfixable_count: 2 };
    assert_eq!(result.exit_code(), ExitCode::IssuesFound);
}

#[test]
fn test_fix_result_human_output_with_fixes() {
    let result = FixResult {
        diagnosis: "found linting issues".to_string(),
        fixes: vec![
            Fix {
                file: "src/main.rs".to_string(),
                line: Some(42),
                original: "let x = 1;".to_string(),
                replacement: "let _x = 1;".to_string(),
                explanation: "prefix unused variable".to_string(),
            },
            Fix {
                file: "src/lib.rs".to_string(),
                line: None,
                original: "unwrap()".to_string(),
                replacement: "?".to_string(),
                explanation: "use ? operator instead of unwrap".to_string(),
            },
        ],
        unfixable_count: 0,
    };
    let output = result.render_human();
    assert!(output.contains("Diagnosis: found linting issues"));
    assert!(output.contains("Suggested fixes (2):"));
    assert!(output.contains("src/main.rs:42"));
    assert!(output.contains("prefix unused variable"));
    assert!(output.contains("- let x = 1;"));
    assert!(output.contains("+ let _x = 1;"));
}

#[test]
fn test_fix_result_human_output_no_fixes() {
    let result = FixResult { diagnosis: "no issues found".to_string(), fixes: vec![], unfixable_count: 0 };
    let output = result.render_human();
    assert!(output.contains("No fixes suggested."));
}

#[test]
fn test_fix_result_human_output_with_unfixable() {
    let result = FixResult { diagnosis: "complex issues".to_string(), fixes: vec![], unfixable_count: 3 };
    let output = result.render_human();
    assert!(output.contains("3 issues could not be fixed automatically."));
}
