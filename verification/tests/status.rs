use ursix::commands::status::{begin_status, check_api_key, connectivity_outcome, finish_status, format_connectivity_error};
use ursix::config::{Config, Provider};
use ursix::llm::{is_remote_url, LlmError};
use ursix::output::{ExitCode, ExitStatus};

#[test]
fn test_is_remote_url() {
    assert!(is_remote_url("https://api.openai.com/v1"));
    assert!(is_remote_url("http://192.168.1.1:8080"));
    assert!(!is_remote_url("http://localhost:11434"));
    assert!(!is_remote_url("http://127.0.0.1:8080"));
    assert!(!is_remote_url("http://[::1]:8080"));
}

#[test]
fn test_check_api_key_ollama() {
    let config = Config { provider: Provider::Ollama, api_key: None, ..Config::default() };
    let check = check_api_key(&config, "http://localhost:11434");
    assert!(check.passed);
    assert!(check.message.contains("not required"));
}

#[test]
fn test_check_api_key_openai_remote_without_key() {
    let config = Config { provider: Provider::OpenAi, api_key: None, ..Config::default() };
    let check = check_api_key(&config, "https://api.openai.com/v1");
    assert!(!check.passed);
    assert!(check.message.contains("required"));
}

#[test]
fn test_check_api_key_openai_remote_with_key() {
    let config = Config { provider: Provider::OpenAi, api_key: Some("sk-test".to_string()), ..Config::default() };
    let check = check_api_key(&config, "https://api.openai.com/v1");
    assert!(check.passed);
    assert!(check.message.contains("set"));
}

#[test]
fn test_check_api_key_openai_local_without_key() {
    let config = Config { provider: Provider::OpenAi, api_key: None, ..Config::default() };
    let check = check_api_key(&config, "http://localhost:8080/v1");
    assert!(check.passed);
    assert!(check.message.contains("optional"));
}

#[test]
fn test_check_api_key_gemini_without_key() {
    let config = Config { provider: Provider::Gemini, api_key: None, ..Config::default() };
    let check = check_api_key(&config, "https://generativelanguage.googleapis.com/v1beta");
    assert!(!check.passed);
    assert!(check.message.contains("required"));
}

#[test]
fn test_check_api_key_gemini_with_key() {
    let config = Config { provider: Provider::Gemini, api_key: Some("test-key".to_string()), ..Config::default() };
    let check = check_api_key(&config, "https://generativelanguage.googleapis.com/v1beta");
    assert!(check.passed);
    assert!(check.message.contains("set"));
}

#[test]
fn test_format_connectivity_error_timeout() {
    let error = LlmError::Timeout(10);
    let msg = format_connectivity_error(&error);
    assert!(msg.contains("timed out"));
    assert!(msg.contains("10"));
}

#[test]
fn test_format_connectivity_error_auth() {
    let error = LlmError::Api("401: Invalid API key".to_string());
    let msg = format_connectivity_error(&error);
    assert!(msg.contains("authentication failed"));
}

#[test]
fn connectivity_error_messages_exact() {
    assert_eq!(format_connectivity_error(&LlmError::Timeout(7)), "connection timed out after 7 seconds");
    let refused = LlmError::Request { message: "x".to_string(), url: None, is_connect: true };
    assert_eq!(format_connectivity_error(&refused), "connection refused (is the provider running?)");
    let other = LlmError::Request { message: "bad".to_string(), url: None, is_connect: false };
    assert_eq!(format_connectivity_error(&other), "request failed: bad");
    assert_eq!(
        format_connectivity_error(&LlmError::Api("403 Forbidden".to_string())),
        "access forbidden (check API key permissions)"
    );
    assert_eq!(format_connectivity_error(&LlmError::Api("500".to_string())), "API error: 500");
    assert_eq!(format_connectivity_error(&LlmError::Parse("junk".to_string())), "unexpected response: junk");
}

#[test]
fn gemini_key_hint_depends_on_url() {
    let config = Config { provider: Provider::Gemini, api_key: None, ..Config::default() };
    let official = check_api_key(&config, "https://generativelanguage.googleapis.com/v1beta");
    assert_eq!(official.details.as_deref(), Some("Set URSIX_API_KEY or GOOGLE_API_KEY environment variable"));
    let other = check_api_key(&config, "https://proxy.example.com");
    assert_eq!(other.details.as_deref(), Some("Set URSIX_API_KEY environment variable"));
}

#[test]
fn status_flow_with_connectivity() {
    let config = Config::default();
    let (mut result, test) = begin_status(&config);
    assert!(test);
    assert_eq!(result.checks.len(), 3);
    assert_eq!(result.checks[1].message, "ollama at http://localhost:11434");
    let outcome = connectivity_outcome("llama3.2", Ok(vec!["llama3.2".to_string(), "qwen".to_string()]), true, 12);
    assert_eq!(outcome.check.message, "connected, model 'llama3.2' available");
    finish_status(&mut result, outcome);
    assert!(result.ok);
    assert_eq!(result.exit_code(), ExitCode::Success);
    let verbose = result.verbose.unwrap();
    assert_eq!(verbose.response_time_ms, Some(12));
    assert_eq!(verbose.model_available, Some(true));
}

#[test]
fn status_flow_without_key() {
    let config = Config { provider: Provider::OpenAi, ..Config::default() };
    let (result, test) = begin_status(&config);
    assert!(!test);
    assert!(!result.ok);
    assert_eq!(result.checks.len(), 4);
    assert_eq!(result.checks[3].message, "cannot test connectivity without API key");
}

#[test]
fn connectivity_model_missing_still_passes() {
    let outcome = connectivity_outcome("m", Ok(vec!["a".to_string(), "b".to_string()]), false, 0);
    assert!(outcome.check.passed);
    assert_eq!(outcome.check.message, "connected, but model 'm' not found (2 models available)");
    assert!(outcome.verbose.is_none());
    let failed = connectivity_outcome("m", Err(LlmError::Timeout(10)), true, 0);
    assert!(!failed.check.passed);
    assert!(failed.verbose.is_none());
}
