use ursix::llm::{
    is_insecure_remote_url, ChatOptions, HttpClientConfig, LlmError, LlmResponse, Message, RetryConfig, RetryDecision,
    RetryState, Role, ToolCall, ToolDefinition,
};
use ursix::output::{ExitCode, ToExitCode};
use ursix::wire::{
    gemini_content, gemini_contents, gemini_function_declaration, gemini_generate_url, gemini_response, gemini_system_instruction,
    ollama_message, ollama_response, openai_message, openai_response, status_error, strip_models_prefix, GeminiPart,
    OllamaToolCall, OpenAiToolCall,
};

fn msg(role: Role, content: &str) -> Message {
    Message { role, content: content.to_string(), tool_calls: None, tool_call_id: None }
}

fn bash_call() -> ToolCall {
    ToolCall { id: "call_123".to_string(), name: "bash".to_string(), arguments: r#"{"command":"ls"}"#.to_string() }
}

#[test]
fn http_test_insecure_url_detection() {
    assert!(is_insecure_remote_url("http://api.example.com:11434"));
    assert!(is_insecure_remote_url("http://192.168.1.1:11434"));
    assert!(is_insecure_remote_url("http://10.0.0.1:8080"));

    assert!(!is_insecure_remote_url("http://localhost:11434"));
    assert!(!is_insecure_remote_url("http://127.0.0.1:11434"));
    assert!(!is_insecure_remote_url("http://[::1]:11434"));

    assert!(!is_insecure_remote_url("https://api.example.com"));
    assert!(!is_insecure_remote_url("https://192.168.1.1:8080"));
}

#[test]
fn openai_test_insecure_url_detection() {
    assert!(is_insecure_remote_url("http://api.example.com/v1"));
    assert!(is_insecure_remote_url("http://192.168.1.1:8000/v1"));
    assert!(!is_insecure_remote_url("http://localhost:8000/v1"));
    assert!(!is_insecure_remote_url("http://127.0.0.1:8000/v1"));
    assert!(!is_insecure_remote_url("https://api.openai.com/v1"));
}

#[test]
fn test_http_client_config_default() {
    let config = HttpClientConfig::default();
    assert_eq!(config.timeout_secs, 60);
    assert_eq!(config.pool_max_idle_per_host, 10);
    assert_eq!(config.http2_keep_alive_secs, 30);
}

#[test]
fn test_http_client_config_with_timeout() {
    let config = HttpClientConfig::with_timeout(120);
    assert_eq!(config.timeout_secs, 120);
    assert_eq!(config.pool_max_idle_per_host, 10);
    assert_eq!(config.http2_keep_alive_secs, 30);
}

#[test]
fn test_llm_error_to_exit_code_parse() {
    let err = LlmError::Parse("bad json".to_string());
    assert_eq!(err.to_exit_code(), ExitCode::PermanentError);
}

#[test]
fn test_llm_error_to_exit_code_api() {
    let err = LlmError::Api("auth failed".to_string());
    assert_eq!(err.to_exit_code(), ExitCode::PermanentError);
}

#[test]
fn test_llm_error_to_exit_code_request() {
    let err = LlmError::Api("connection refused".to_string());
    assert_eq!(err.to_exit_code(), ExitCode::PermanentError);
}

#[test]
fn test_llm_error_is_retryable() {
    let parse_err = LlmError::Parse("invalid json".to_string());
    assert!(!parse_err.is_retryable());

    let rate_err = LlmError::Api("rate limit exceeded".to_string());
    assert!(rate_err.is_retryable());

    let limit_err = LlmError::Api("Error 429: too many requests".to_string());
    assert!(limit_err.is_retryable());

    let auth_err = LlmError::Api("invalid api key".to_string());
    assert!(!auth_err.is_retryable());

    let timeout_err = LlmError::Timeout(60);
    assert!(timeout_err.is_retryable());
}

#[test]
fn test_llm_error_to_exit_code_timeout() {
    let err = LlmError::Timeout(60);
    assert_eq!(err.to_exit_code(), ExitCode::TransientError);
}

#[test]
fn test_llm_error_timeout_display() {
    let err = LlmError::Timeout(60);
    assert_eq!(err.message(), "request timed out after 60 seconds");
}

#[test]
fn test_retry_config_default() {
    let config = RetryConfig::default();
    assert_eq!(config.max_retries, 3);
    assert_eq!(config.initial_delay_ms, 500);
    assert_eq!(config.max_delay_ms, 30_000);
    assert_eq!(config.backoff_multiplier, 2);
}

#[test]
fn test_retry_config_no_retry() {
    let config = RetryConfig::no_retry();
    assert_eq!(config.max_retries, 0);
}

#[test]
fn retry_backoff_doubles_up_to_the_maximum() {
    let config = RetryConfig { max_retries: 10, initial_delay_ms: 10_000, max_delay_ms: 30_000, backoff_multiplier: 2 };
    let s = RetryState::start(&config);
    let (d, s) = s.after_failure(&config, true);
    assert_eq!(d, RetryDecision::Retry { attempt: 1, delay_ms: 10_000 });
    let (d, s) = s.after_failure(&config, true);
    assert_eq!(d, RetryDecision::Retry { attempt: 2, delay_ms: 20_000 });
    let (d, _) = s.after_failure(&config, true);
    assert_eq!(d, RetryDecision::Retry { attempt: 3, delay_ms: 30_000 });
    let (d, _) = RetryState::start(&config).after_failure(&config, false);
    assert_eq!(d, RetryDecision::GiveUp);
    let none = RetryConfig::no_retry();
    assert_eq!(RetryState::start(&none).after_failure(&none, true).0, RetryDecision::GiveUp);
}

#[test]
fn response_completeness() {
    assert!(LlmResponse::new("done".to_string(), vec![]).is_complete);
    assert!(!LlmResponse::new(String::new(), vec![]).is_complete);
    assert!(!LlmResponse::new("x".to_string(), vec![bash_call()]).is_complete);
    assert!(ChatOptions::json().json_mode);
    assert!(!ChatOptions::default().json_mode);
}

#[test]
fn gemini_test_message_conversion_user() {
    let content = gemini_content(&msg(Role::User, "Hello"));
    assert_eq!(content.role, "user");
    assert_eq!(content.parts.len(), 1);
    match content.parts.get(0) {
        Some(GeminiPart::Text(text)) => assert_eq!(text, "Hello"),
        _ => panic!("expected text part"),
    }
}

#[test]
fn test_message_conversion_assistant() {
    let content = gemini_content(&msg(Role::Assistant, "Response"));
    assert_eq!(content.role, "model");
}

#[test]
fn gemini_test_message_conversion_assistant_with_tool_calls() {
    let m = Message { role: Role::Assistant, content: String::new(), tool_calls: Some(vec![bash_call()]), tool_call_id: None };
    let content = gemini_content(&m);
    assert_eq!(content.role, "model");
    assert_eq!(content.parts.len(), 1);
    match content.parts.get(0) {
        Some(GeminiPart::FunctionCall { name, args }) => {
            assert_eq!(name, "bash");
            let v: serde_json::Value = serde_json::from_str(args).unwrap();
            assert_eq!(v["command"], "ls");
        }
        _ => panic!("expected function call part"),
    }
}

#[test]
fn gemini_test_message_conversion_tool() {
    let m = Message {
        role: Role::Tool,
        content: "result output".to_string(),
        tool_calls: None,
        tool_call_id: Some("bash".to_string()),
    };
    let content = gemini_content(&m);
    assert_eq!(content.role, "function");
    assert_eq!(content.parts.len(), 2);
}

#[test]
fn test_tool_definition_conversion() {
    let tool = ToolDefinition {
        name: "test_tool".to_string(),
        description: "A test tool".to_string(),
        parameters: r#"{"type":"object","properties":{"arg1":{"type":"string"}}}"#.to_string(),
    };
    let func = gemini_function_declaration(&tool);
    assert_eq!(func.name, "test_tool");
    assert_eq!(func.description, "A test tool");
}

#[test]
fn test_message_conversion() {
    let m = ollama_message(&msg(Role::User, "Hello"));
    assert_eq!(m.role, "user");
    assert_eq!(m.content, Some("Hello".to_string()));
}

#[test]
fn openai_test_message_conversion_user() {
    let m = openai_message(&msg(Role::User, "Hello"));
    assert_eq!(m.role, "user");
    assert_eq!(m.content, Some("Hello".to_string()));
    assert!(m.tool_calls.is_none());
}

#[test]
fn openai_test_message_conversion_assistant_with_tool_calls() {
    let m = Message { role: Role::Assistant, content: String::new(), tool_calls: Some(vec![bash_call()]), tool_call_id: None };
    let converted = openai_message(&m);
    assert_eq!(converted.role, "assistant");
    assert!(converted.content.is_none());
    let tool_calls = converted.tool_calls.unwrap();
    assert_eq!(tool_calls.len(), 1);
    assert_eq!(tool_calls[0].id, "call_123");
    assert_eq!(tool_calls[0].name, "bash");
    assert_eq!(tool_calls[0].arguments, r#"{"command":"ls"}"#);
}

#[test]
fn openai_test_message_conversion_tool() {
    let m = Message {
        role: Role::Tool,
        content: "result output".to_string(),
        tool_calls: None,
        tool_call_id: Some("call_123".to_string()),
    };
    let converted = openai_message(&m);
    assert_eq!(converted.role, "tool");
    assert_eq!(converted.content, Some("result output".to_string()));
    assert_eq!(converted.tool_call_id, Some("call_123".to_string()));
}

#[test]
fn gemini_reply_assembly() {
    let parts = vec![
        GeminiPart::Text("Hello".to_string()),
        GeminiPart::FunctionCall { name: "a".to_string(), args: "{}".to_string() },
        GeminiPart::Text("World".to_string()),
        GeminiPart::FunctionResponse { name: "x".to_string(), result: "r".to_string() },
        GeminiPart::FunctionCall { name: "b".to_string(), args: "[1]".to_string() },
    ];
    let r = gemini_response(parts);
    assert_eq!(r.content, "Hello\nWorld");
    assert_eq!(r.tool_calls.len(), 2);
    assert_eq!(r.tool_calls[0].id, "call_0");
    assert_eq!(r.tool_calls[1].id, "call_1");
    assert_eq!(r.tool_calls[1].name, "b");
    assert!(!r.is_complete);
}

#[test]
fn ollama_and_openai_replies() {
    let r = ollama_response(Some("hi".to_string()), vec![]);
    assert_eq!(r.content, "hi");
    assert!(r.is_complete);
    let r = ollama_response(None, vec![OllamaToolCall { name: "t".to_string(), arguments: "{}".to_string() }]);
    assert_eq!(r.tool_calls[0].id, "call_0");
    let r = openai_response(
        None,
        vec![
            OpenAiToolCall { id: "c1".to_string(), name: "t".to_string(), arguments: "not json".to_string() },
            OpenAiToolCall { id: "c2".to_string(), name: "t".to_string(), arguments: r#"{"a":1}"#.to_string() },
        ],
    );
    assert_eq!(r.content, "");
    assert_eq!(r.tool_calls[0].arguments, "{}");
    assert_eq!(r.tool_calls[1].arguments, r#"{"a":1}"#);
}

#[test]
fn gemini_request_pieces() {
    let messages = vec![msg(Role::System, "be brief"), msg(Role::User, "hi"), msg(Role::System, "be kind")];
    assert_eq!(gemini_system_instruction(&messages), Some("be brief\nbe kind".to_string()));
    assert_eq!(gemini_system_instruction(&vec![msg(Role::User, "hi")]), None);
    assert_eq!(
        gemini_generate_url("https://g/v1beta", "gemini-2.0-flash", "KEY"),
        "https://g/v1beta/models/gemini-2.0-flash:generateContent?key=KEY"
    );
    assert_eq!(strip_models_prefix("models/gemini-pro"), "gemini-pro");
    assert_eq!(strip_models_prefix("gemini-pro"), "gemini-pro");
}

#[test]
fn status_error_text() {
    match status_error("401 Unauthorized", Some("bad key".to_string()), "unknown error") {
        LlmError::Api(m) => assert_eq!(m, "401 Unauthorized: bad key"),
        _ => panic!("expected API error"),
    }
    match status_error("500 Internal Server Error", None, "unknown error") {
        LlmError::Api(m) => assert_eq!(m, "500 Internal Server Error: unknown error"),
        _ => panic!("expected API error"),
    }
}

#[test]
fn gemini_contents_leave_out_system_messages() {
    let messages = vec![msg(Role::System, "be brief"), msg(Role::User, "hi"), msg(Role::Assistant, "hello")];
    let contents = gemini_contents(&messages);
    assert_eq!(contents.len(), 2);
    assert_eq!(contents[0].role, "user");
    assert_eq!(contents[1].role, "model");
    assert!(matches!(&contents[0].parts[0], GeminiPart::Text(t) if t == "hi"));
}
