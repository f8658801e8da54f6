use ursix::output::ask::AskResult;
use ursix::output::commit::CommitResult;
use ursix::output::config::{ConfigEntry, ConfigResult};
use ursix::output::derive::DeriveResult;
use ursix::output::dry_run::{ChunkInfo, ChunkPlan, DryRunResult};
use ursix::output::explain::ExplainResult;
use ursix::output::{CommandOutput, ExitCode, ExitStatus, OutputMeta, SCHEMA_VERSION};

#[test]
fn ask_test_ask_result_human_output() {
    let result = AskResult { response: "Hello, world!".to_string(), turns: 1 };
    assert_eq!(result.render_human(), "Hello, world!");
}

#[test]
fn ask_test_ask_result_exit_status() {
    let result = AskResult { response: "test".to_string(), turns: 1 };
    assert_eq!(result.exit_code(), ExitCode::Success);
}

#[test]
fn commit_test_commit_result_exit_status() {
    let result = CommitResult { message: "test".to_string(), title: "test".to_string(), body: None };
    assert_eq!(result.exit_code(), ExitCode::Success);
}

#[test]
fn config_test_config_result_human_output() {
    let result = ConfigResult {
        entries: vec![
            ConfigEntry { key: "model".to_string(), value: "llama3.2".to_string() },
            ConfigEntry { key: "tokenizer_mode".to_string(), value: "heuristic".to_string() },
        ],
    };
    let output = result.render_human();
    assert!(output.contains("model = llama3.2"));
    assert!(output.contains("tokenizer_mode = heuristic"));
}

#[test]
fn config_test_config_result_exit_status() {
    let result = ConfigResult { entries: vec![] };
    assert_eq!(result.exit_code(), ExitCode::Success);
}

#[test]
fn explain_test_explain_result_exit_status() {
    let result = ExplainResult { explanation: "This is how it works".to_string() };
    assert_eq!(result.exit_code(), ExitCode::Success);
}

#[test]
fn explain_test_explain_result_human_output() {
    let result = ExplainResult { explanation: "This is the explanation".to_string() };
    assert_eq!(result.render_human(), "This is the explanation");
}

#[test]
fn mod_test_exit_code_values() {
    assert_eq!(u8::from(ExitCode::Success), 0);
    assert_eq!(u8::from(ExitCode::IssuesFound), 1);
    assert_eq!(u8::from(ExitCode::UserError), 2);
    assert_eq!(u8::from(ExitCode::TransientError), 3);
    assert_eq!(u8::from(ExitCode::PermanentError), 4);
}

#[test]
fn mod_test_exit_code_to_i32() {
    assert_eq!(i32::from(ExitCode::Success), 0);
    assert_eq!(i32::from(ExitCode::IssuesFound), 1);
    assert_eq!(i32::from(ExitCode::UserError), 2);
    assert_eq!(i32::from(ExitCode::TransientError), 3);
    assert_eq!(i32::from(ExitCode::PermanentError), 4);
}

#[test]
fn test_output_meta_minimal() {
    let meta = OutputMeta::minimal();
    assert_eq!(meta.schema_version, SCHEMA_VERSION);
    assert!(meta.model.is_none());
    assert!(meta.provider.is_none());
    assert!(meta.tokens_used.is_none());
    assert_eq!(meta.duration_ms, 0);
    assert_eq!(meta.chunks, 0);
}

#[test]
fn test_output_meta_new() {
    let meta = OutputMeta::new("gpt-4", "openai", 1500, 3);
    assert_eq!(meta.schema_version, SCHEMA_VERSION);
    assert_eq!(meta.model, Some("gpt-4".to_string()));
    assert_eq!(meta.provider, Some("openai".to_string()));
    assert_eq!(meta.duration_ms, 1500);
    assert_eq!(meta.chunks, 3);
}

#[test]
fn test_output_meta_with_tokens() {
    let meta = OutputMeta::new("model", "provider", 100, 1).with_tokens(500);
    assert_eq!(meta.tokens_used, Some(500));
}

#[test]
fn test_derive_result_commit_msg_exit_status() {
    let result = DeriveResult::CommitMsg {
        message: "feat: add feature".to_string(),
        title: "feat: add feature".to_string(),
        body: None,
    };
    assert_eq!(result.exit_code(), ExitCode::Success);
}

#[test]
fn test_derive_result_commit_msg_human_output() {
    let result = DeriveResult::CommitMsg {
        message: "feat: add feature\n\nThis adds a new feature.".to_string(),
        title: "feat: add feature".to_string(),
        body: Some("This adds a new feature.".to_string()),
    };
    assert_eq!(result.render_human(), "feat: add feature\n\nThis adds a new feature.");
}

#[test]
fn test_derive_result_explanation_exit_status() {
    let result = DeriveResult::Explanation { explanation: "This code does...".to_string() };
    assert_eq!(result.exit_code(), ExitCode::Success);
}

#[test]
fn test_derive_result_explanation_human_output() {
    let result = DeriveResult::Explanation { explanation: "This function calculates...".to_string() };
    assert_eq!(result.render_human(), "This function calculates...");
}

#[test]
fn test_derive_result_summary_exit_status() {
    let result = DeriveResult::Summary { summary: "A brief summary".to_string() };
    assert_eq!(result.exit_code(), ExitCode::Success);
}

#[test]
fn test_derive_result_summary_human_output() {
    let result = DeriveResult::Summary { summary: "This is a summary of the content.".to_string() };
    assert_eq!(result.render_human(), "This is a summary of the content.");
}

#[test]
fn test_dry_run_result_exit_code() {
    let result = DryRunResult::new("explain", 1000, "ollama", "llama3.2", 60);
    assert_eq!(result.exit_code(), ExitCode::Success);
}

#[test]
fn test_dry_run_result_exceeds_thresholds() {
    let result = DryRunResult::new("explain", 10000, "ollama", "llama3.2", 60);
    assert!(result.exceeds_warning);
    assert!(!result.exceeds_error);

    let result = DryRunResult::new("explain", 20000, "ollama", "llama3.2", 60);
    assert!(result.exceeds_warning);
    assert!(result.exceeds_error);
}

#[test]
fn test_dry_run_result_human_output() {
    let result = DryRunResult::new("explain", 5000, "ollama", "llama3.2", 60).with_files(vec!["src/main.rs".to_string()]);

    let output = result.render_human();
    assert!(output.contains("Dry run: explain"));
    assert!(output.contains("Provider: ollama"));
    assert!(output.contains("Model: llama3.2"));
    assert!(output.contains("Estimated tokens: 5000"));
    assert!(output.contains("src/main.rs"));
}

#[test]
fn test_dry_run_result_with_chunking() {
    let plan = ChunkPlan {
        enabled: true,
        chunk_count: Some(3),
        chunks: vec![
            ChunkInfo { id: "security".to_string(), tokens_estimated: 2000, files: vec!["src/auth.rs".to_string()] },
            ChunkInfo { id: "style".to_string(), tokens_estimated: 1500, files: vec!["src/main.rs".to_string()] },
        ],
    };

    let result = DryRunResult::new("review", 3500, "openai", "gpt-4", 120).with_chunking(plan);

    let output = result.render_human();
    assert!(output.contains("Chunking: 3 chunks"));
    assert!(output.contains("security: ~2000 tokens"));
}
