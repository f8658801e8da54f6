use ursix::cli::{
    apply_cli_overrides, is_local_url, openai_auth, output_mode, Cli, Command, FixMode, OpenAiAuth, RetryOptions,
};
use ursix::config::{Config, Provider};
use ursix::error::{
    extract_exit_code, to_typed_error, ChainError, CliError, PipelineError,
};
use ursix::llm::{LlmError, RetryConfig};
use ursix::output::error::TypedError;
use ursix::output::{ExitCode, OutputMode, ToExitCode};

#[test]
fn cli_test_cli_error_to_exit_code_config() {
    let err = CliError::Config("invalid config".to_string());
    assert_eq!(err.to_exit_code(), ExitCode::UserError);
}

#[test]
fn cli_test_cli_error_to_exit_code_input() {
    let err = CliError::Input("file not found".to_string());
    assert_eq!(err.to_exit_code(), ExitCode::UserError);
}

#[test]
fn cli_test_cli_error_to_exit_code_git() {
    let err = CliError::Git("not a git repo".to_string());
    assert_eq!(err.to_exit_code(), ExitCode::UserError);
}

#[test]
fn cli_test_cli_error_to_exit_code_parse() {
    let err = CliError::Parse("invalid json".to_string());
    assert_eq!(err.to_exit_code(), ExitCode::PermanentError);
}

#[test]
fn mod_test_cli_error_to_exit_code_config() {
    let err = CliError::Config("invalid config".to_string());
    assert_eq!(err.to_exit_code(), ExitCode::UserError);
}

#[test]
fn mod_test_cli_error_to_exit_code_input() {
    let err = CliError::Input("file not found".to_string());
    assert_eq!(err.to_exit_code(), ExitCode::UserError);
}

#[test]
fn mod_test_cli_error_to_exit_code_git() {
    let err = CliError::Git("not a git repo".to_string());
    assert_eq!(err.to_exit_code(), ExitCode::UserError);
}

#[test]
fn mod_test_cli_error_to_exit_code_parse() {
    let err = CliError::Parse("invalid json".to_string());
    assert_eq!(err.to_exit_code(), ExitCode::PermanentError);
}

#[test]
fn test_pipeline_error_to_exit_code_llm_parse() {
    let err = PipelineError::Llm(LlmError::Parse("bad json".to_string()));
    assert_eq!(err.to_exit_code(), ExitCode::PermanentError);
}

#[test]
fn test_pipeline_error_to_exit_code_llm_api() {
    let err = PipelineError::Llm(LlmError::Api("server error".to_string()));
    assert_eq!(err.to_exit_code(), ExitCode::PermanentError);
}

#[test]
fn test_pipeline_error_to_exit_code_token_limit() {
    let err = PipelineError::TokenLimit("too many tokens".to_string());
    assert_eq!(err.to_exit_code(), ExitCode::UserError);
}

#[test]
fn retry_options_to_config() {
    let config = RetryOptions::from_cli(5).to_config();
    assert_eq!(config.max_retries, 5);
    assert_eq!(config.initial_delay_ms, 500);
    assert_eq!(RetryOptions::from_cli(0).to_config(), RetryConfig::no_retry());
}

#[test]
fn fix_mode_default_is_atomic() {
    assert_eq!(FixMode::default(), FixMode::Atomic);
}

#[test]
fn output_mode_from_flag() {
    assert_eq!(output_mode(true), OutputMode::Human);
    assert_eq!(output_mode(false), OutputMode::Json);
}

#[test]
fn local_urls_and_openai_auth() {
    assert!(is_local_url("http://LOCALHOST:8080"));
    assert!(!is_local_url("https://api.openai.com/v1"));
    let config = Config::default();
    assert_eq!(openai_auth(&config, "http://127.0.0.1:1234").unwrap(), OpenAiAuth::NoKey);
    match openai_auth(&config, "https://api.openai.com/v1") {
        Err(CliError::Config(m)) => assert!(m.starts_with("API key required for remote OpenAI endpoints.")),
        _ => panic!("expected a configuration error"),
    }
    let keyed = Config { api_key: Some("sk".to_string()), ..Config::default() };
    assert_eq!(openai_auth(&keyed, "https://api.openai.com/v1").unwrap(), OpenAiAuth::ApiKey("sk".to_string()));
}

#[test]
fn typed_errors_of_chain() {
    let t = to_typed_error(&ChainError::Cli(CliError::Git("no repo".to_string())));
    assert!(matches!(t, TypedError::GitError { ref message, command: None } if message == "no repo"));
    let t = to_typed_error(&ChainError::Llm(LlmError::Timeout(30)));
    match t {
        TypedError::NetworkError { message, url, retryable } => {
            assert_eq!(message, "request timed out after 30 seconds");
            assert!(url.is_none());
            assert!(retryable);
        }
        _ => panic!("expected network error"),
    }
    let t = to_typed_error(&ChainError::Pipeline(PipelineError::TokenLimit("big".to_string())));
    assert!(matches!(t, TypedError::TokenLimitError { .. }));
    let t = to_typed_error(&ChainError::Other("boom: cause".to_string()));
    assert!(matches!(t, TypedError::InternalError { ref message } if message == "boom: cause"));
    let t = to_typed_error(&ChainError::Llm(LlmError::Api("429 rate limited".to_string())));
    assert!(matches!(t, TypedError::ApiError { retryable: true, .. }));
}

#[test]
fn exit_codes_of_chain() {
    assert_eq!(extract_exit_code(&ChainError::Other("x".to_string())), ExitCode::PermanentError);
    assert_eq!(extract_exit_code(&ChainError::Llm(LlmError::Timeout(1))), ExitCode::TransientError);
    assert_eq!(
        extract_exit_code(&ChainError::Cli(CliError::Pipeline(PipelineError::TokenLimit("t".to_string())))),
        ExitCode::UserError
    );
}

#[test]
fn pipeline_error_messages() {
    assert_eq!(PipelineError::TokenLimit("t".to_string()).message(), "token limit exceeded: t");
    assert_eq!(PipelineError::Llm(LlmError::Parse("p".to_string())).message(), "LLM error: Failed to parse response: p");
}

fn cli_with(provider: Vec<&str>, model: Option<&str>, retries: u32, timeout: Option<u64>) -> Cli {
    Cli {
        text: false,
        provider: provider.into_iter().map(str::to_string).collect(),
        model: model.map(str::to_string),
        retries,
        timeout,
        dry_run: false,
        command: Command::Config { key: None, list: true },
    }
}

#[test]
fn overrides_select_provider_url_and_key() {
    let mut config = Config::with_working_dir("/work".to_string());
    let cli = cli_with(vec!["OpenAI", "https://example.com/v1", "sk-test"], Some("gpt-4o"), 5, Some(30));
    assert!(apply_cli_overrides(&mut config, &cli).is_ok());
    assert_eq!(config.provider, Provider::OpenAi);
    assert_eq!(config.provider_url.as_deref(), Some("https://example.com/v1"));
    assert_eq!(config.api_key.as_deref(), Some("sk-test"));
    assert_eq!(config.model, "gpt-4o");
    assert_eq!(config.timeout_secs, 30);
    assert_eq!(config.retry_config.max_retries, 5);
    assert_eq!(config.retry_config.initial_delay_ms, RetryConfig::default().initial_delay_ms);
    assert_eq!(config.working_dir, "/work");
}

#[test]
fn overrides_without_flags_keep_settings_but_retries() {
    let mut config = Config::with_working_dir("/work".to_string());
    config.model = "custom".to_string();
    config.api_key = Some("k".to_string());
    let cli = cli_with(vec![], None, 0, None);
    assert!(apply_cli_overrides(&mut config, &cli).is_ok());
    assert_eq!(config.provider, Provider::Ollama);
    assert_eq!(config.model, "custom");
    assert_eq!(config.api_key.as_deref(), Some("k"));
    assert_eq!(config.provider_url, None);
    assert_eq!(config.timeout_secs, 60);
    assert_eq!(config.retry_config.max_retries, 0);
}

#[test]
fn overrides_provider_name_only_keeps_url_and_key() {
    let mut config = Config::with_working_dir("/work".to_string());
    config.provider_url = Some("http://localhost:1234".to_string());
    let cli = cli_with(vec!["gemini"], None, 3, None);
    assert!(apply_cli_overrides(&mut config, &cli).is_ok());
    assert_eq!(config.provider, Provider::Gemini);
    assert_eq!(config.provider_url.as_deref(), Some("http://localhost:1234"));
    assert_eq!(config.api_key, None);
}

#[test]
fn overrides_refuse_unknown_provider() {
    let mut config = Config::with_working_dir("/work".to_string());
    let cli = cli_with(vec!["anthropic", "https://x"], Some("m"), 1, Some(5));
    match apply_cli_overrides(&mut config, &cli) {
        Err(CliError::Config(m)) => {
            assert_eq!(m, "unknown provider: anthropic (expected 'ollama', 'openai', or 'gemini')")
        }
        other => panic!("unexpected {other:?}"),
    }
    assert_eq!(config.provider, Provider::Ollama);
    assert_eq!(config.provider_url, None);
    assert_eq!(config.model, "llama3.2");
    assert_eq!(config.timeout_secs, 60);
    assert_eq!(config.retry_config.max_retries, 3);
}
