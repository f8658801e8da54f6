//! Language-model client decisions: error classification, retry policy and
//! request settings. The HTTP clients themselves run at the program's edge.

use vstd::prelude::*;
use crate::output::{ExitCode, ToExitCode};
use crate::text::{
    chars_of, contains, contains_str, decimal, lowercase, push_decimal, push_str, starts_with, starts_with_str,
    to_lowercase, to_owned_string,
};

verus! {

// ---------------------------------------------------------------------------
// Errors
// ---------------------------------------------------------------------------

/// Errors of a model call.
#[derive(Debug)]
pub enum LlmError {
    /// The HTTP request failed: the client's message, the URL it was sent
    /// to when known, and whether the connection itself failed
    Request { message: String, url: Option<String>, is_connect: bool },
    /// The response could not be parsed
    Parse(String),
    /// The API answered with an error
    Api(String),
    /// The request timed out after this many seconds
    Timeout(u64),
}

/// Whether an API error message names a transient condition: a rate limit,
/// overload or capacity problem, or HTTP 429, 502 or 503 (ignoring case).
pub open spec fn api_message_transient(message: Seq<char>) -> bool {
    let l = lowercase(message);
    contains(l, "rate"@) || contains(l, "limit"@) || contains(l, "overload"@) || contains(l, "capacity"@)
        || contains(l, "429"@) || contains(l, "503"@) || contains(l, "502"@)
}

/// Whether an error is worth retrying: network failures and timeouts are;
/// parse errors are not; API errors when their message is transient.
pub open spec fn retryable(e: LlmError) -> bool {
    match e {
        LlmError::Request { .. } | LlmError::Timeout(_) => true,
        LlmError::Parse(_) => false,
        LlmError::Api(m) => api_message_transient(m@),
    }
}

/// The message of an error, as its `Display` writes it.
pub open spec fn llm_error_message(e: LlmError) -> Seq<char> {
    match e {
        LlmError::Request { message, .. } => "HTTP request failed: "@ + message@,
        LlmError::Parse(m) => "Failed to parse response: "@ + m@,
        LlmError::Api(m) => "API error: "@ + m@,
        LlmError::Timeout(s) => "request timed out after "@ + decimal(s as nat) + " seconds"@,
    }
}

impl ToExitCode for LlmError {
    /// Network failures and timeouts are transient; parse and API errors
    /// permanent.
    fn to_exit_code(&self) -> (r: ExitCode)
        ensures
            r == match self {
                LlmError::Request { .. } | LlmError::Timeout(_) => ExitCode::TransientError,
                LlmError::Parse(_) | LlmError::Api(_) => ExitCode::PermanentError,
            },
    {
        match self {
            LlmError::Request { .. } | LlmError::Timeout(_) => ExitCode::TransientError,
            LlmError::Parse(_) | LlmError::Api(_) => ExitCode::PermanentError,
        }
    }
}

impl LlmError {
    /// Whether this error is likely to go away on a retry.
    pub fn is_retryable(&self) -> (r: bool)
        ensures
            r == retryable(*self),
    {
        match self {
            LlmError::Request { .. } | LlmError::Timeout(_) => true,
            LlmError::Parse(_) => false,
            LlmError::Api(msg) => {
                let lower = to_lowercase(msg.as_str());
                let l = chars_of(lower.as_str());
                contains_str(&l, "rate") || contains_str(&l, "limit") || contains_str(&l, "overload")
                    || contains_str(&l, "capacity") || contains_str(&l, "429") || contains_str(&l, "503")
                    || contains_str(&l, "502")
            },
        }
    }

    /// The error's message, as its `Display` writes it.
    pub fn message(&self) -> (r: String)
        ensures
            r@ == llm_error_message(*self),
    {
        match self {
            LlmError::Request { message, .. } => {
                let mut r = to_owned_string("HTTP request failed: ");
                push_str(&mut r, message.as_str());
                r
            },
            LlmError::Parse(m) => {
                let mut r = to_owned_string("Failed to parse response: ");
                push_str(&mut r, m.as_str());
                r
            },
            LlmError::Api(m) => {
                let mut r = to_owned_string("API error: ");
                push_str(&mut r, m.as_str());
                r
            },
            LlmError::Timeout(s) => {
                let mut r = to_owned_string("request timed out after ");
                push_decimal(&mut r, *s);
                push_str(&mut r, " seconds");
                r
            },
        }
    }

    /// The error for a failed request: a timeout when the client timed out,
    /// else the request failure.
    pub fn from_request_failure(
        timed_out: bool,
        message: String,
        url: Option<String>,
        is_connect: bool,
        timeout_secs: u64,
    ) -> (r: Self)
        ensures
            timed_out ==> r == LlmError::Timeout(timeout_secs),
            !timed_out ==> r == (LlmError::Request { message, url, is_connect }),
    {
        if timed_out {
            LlmError::Timeout(timeout_secs)
        } else {
            LlmError::Request { message, url, is_connect }
        }
    }
}

// ---------------------------------------------------------------------------
// Messages and responses
// ---------------------------------------------------------------------------

/// The role of a message in a conversation.
#[derive(Debug, Clone, Copy, PartialEq, Eq, Structural)]
pub enum Role {
    /// Instructions for the model
    System,
    /// The user's request
    User,
    /// The model's answer
    Assistant,
    /// A tool's result
    Tool,
}

/// A tool call requested by the model; its arguments are JSON text.
#[derive(Debug, Clone)]
pub struct ToolCall {
    /// Call identifier
    pub id: String,
    /// Tool name
    pub name: String,
    /// Arguments, as JSON text
    pub arguments: String,
}

/// A message of a conversation.
#[derive(Debug, Clone)]
pub struct Message {
    /// Who speaks
    pub role: Role,
    /// The text
    pub content: String,
    /// Tool calls of an assistant message
    pub tool_calls: Option<Vec<ToolCall>>,
    /// The call a tool message answers
    pub tool_call_id: Option<String>,
}

/// A tool offered to the model; its parameters are a JSON schema, as text.
#[derive(Debug, Clone)]
pub struct ToolDefinition {
    /// Tool name
    pub name: String,
    /// What the tool does
    pub description: String,
    /// JSON schema of the arguments, as text
    pub parameters: String,
}

/// Response from the model.
#[derive(Debug)]
pub struct LlmResponse {
    /// The assistant's text response (may be empty if only tool calls)
    pub content: String,
    /// Tool calls the assistant wants to make
    pub tool_calls: Vec<ToolCall>,
    /// Whether the response is complete: no tool calls, and some content
    pub is_complete: bool,
}

impl LlmResponse {
    /// A response; complete when it has content and no tool calls.
    pub fn new(content: String, tool_calls: Vec<ToolCall>) -> (r: Self)
        ensures
            r.content == content,
            r.tool_calls == tool_calls,
            r.is_complete == (tool_calls@.len() == 0 && content@.len() > 0),
    {
        let is_complete = tool_calls.len() == 0 && content.unicode_len() > 0;
        LlmResponse { content, tool_calls, is_complete }
    }
}

/// Options for chat requests.
#[derive(Debug, Clone, Copy)]
pub struct ChatOptions {
    /// Ask the API to enforce JSON output
    pub json_mode: bool,
}

impl Default for ChatOptions {
    fn default() -> (r: Self)
        ensures
            !r.json_mode,
    {
        ChatOptions { json_mode: false }
    }
}

impl ChatOptions {
    /// Options with JSON mode enabled.
    pub fn json() -> (r: Self)
        ensures
            r.json_mode,
    {
        ChatOptions { json_mode: true }
    }
}

// ---------------------------------------------------------------------------
// HTTP settings
// ---------------------------------------------------------------------------

/// Configuration of the HTTP client's connection pooling.
#[derive(Debug, Clone, Copy)]
pub struct HttpClientConfig {
    /// Request timeout in seconds
    pub timeout_secs: u64,
    /// Maximum idle connections per host (default: 10)
    pub pool_max_idle_per_host: usize,
    /// HTTP/2 keep-alive interval in seconds (default: 30)
    pub http2_keep_alive_secs: u64,
}

impl Default for HttpClientConfig {
    fn default() -> (r: Self)
        ensures
            r.timeout_secs == 60,
            r.pool_max_idle_per_host == 10,
            r.http2_keep_alive_secs == 30,
    {
        HttpClientConfig { timeout_secs: 60, pool_max_idle_per_host: 10, http2_keep_alive_secs: 30 }
    }
}

impl HttpClientConfig {
    /// The default settings with another timeout.
    pub fn with_timeout(timeout_secs: u64) -> (r: Self)
        ensures
            r.timeout_secs == timeout_secs,
            r.pool_max_idle_per_host == 10,
            r.http2_keep_alive_secs == 30,
    {
        HttpClientConfig { timeout_secs, ..HttpClientConfig::default() }
    }
}

/// Whether a (lower-cased) URL names the local machine.
pub open spec fn names_localhost(l: Seq<char>) -> bool {
    contains(l, "localhost"@) || contains(l, "127.0.0.1"@) || contains(l, "[::1]"@)
}

/// Whether a URL uses plain HTTP to a remote (non-local) server.
pub open spec fn insecure_remote(url: Seq<char>) -> bool {
    starts_with(lowercase(url), "http://"@) && !names_localhost(lowercase(url))
}

pub(crate) fn mentions_localhost(l: &Vec<char>) -> (r: bool)
    ensures
        r == names_localhost(l@),
{
    contains_str(l, "localhost") || contains_str(l, "127.0.0.1") || contains_str(l, "[::1]")
}

/// Check whether a URL uses unencrypted HTTP for a remote server.
pub fn is_insecure_remote_url(url: &str) -> (r: bool)
    ensures
        r == insecure_remote(url@),
{
    let lower = to_lowercase(url);
    let l = chars_of(lower.as_str());
    starts_with_str(&l, "http://") && !mentions_localhost(&l)
}

/// Whether a URL points to a remote (non-local) server.
pub open spec fn remote(url: Seq<char>) -> bool {
    !names_localhost(lowercase(url))
}

/// Check whether a URL points to a remote (non-localhost) server.
pub fn is_remote_url(url: &str) -> (r: bool)
    ensures
        r == remote(url@),
{
    let lower = to_lowercase(url);
    let l = chars_of(lower.as_str());
    !mentions_localhost(&l)
}

// ---------------------------------------------------------------------------
// Retry policy
// ---------------------------------------------------------------------------

/// Configuration for retry behavior (durations in milliseconds).
#[derive(Debug, Clone, Copy, PartialEq, Eq, Structural)]
pub struct RetryConfig {
    /// Maximum number of retry attempts (0 = no retries)
    pub max_retries: u32,
    /// Initial delay before first retry, in milliseconds
    pub initial_delay_ms: u64,
    /// Maximum delay between retries, in milliseconds
    pub max_delay_ms: u64,
    /// Factor by which the delay grows after each retry
    pub backoff_multiplier: u64,
}

impl RetryConfig {
    /// The default retry configuration: three retries, starting at 500 ms,
    /// doubling, at most 30 s apart.
    pub open spec fn default_spec() -> RetryConfig {
        RetryConfig { max_retries: 3, initial_delay_ms: 500, max_delay_ms: 30000, backoff_multiplier: 2 }
    }

    /// A config that disables retries.
    pub fn no_retry() -> (r: Self)
        ensures
            r == (RetryConfig { max_retries: 0, ..RetryConfig::default_spec() }),
    {
        RetryConfig { max_retries: 0, ..RetryConfig::default() }
    }
}

impl Default for RetryConfig {
    fn default() -> (r: Self)
        ensures
            r == RetryConfig::default_spec(),
    {
        RetryConfig { max_retries: 3, initial_delay_ms: 500, max_delay_ms: 30000, backoff_multiplier: 2 }
    }
}

/// Where a retrying caller stands: retries made, and the next delay.
#[derive(Debug, Clone, Copy, PartialEq, Eq, Structural)]
pub struct RetryState {
    /// Retries made so far
    pub attempts: u32,
    /// Delay before the next retry, in milliseconds (before jitter)
    pub delay_ms: u64,
}

/// What to do after a failed call.
#[derive(Debug, Clone, Copy, PartialEq, Eq, Structural)]
pub enum RetryDecision {
    /// Give up and report the error
    GiveUp,
    /// Wait about this long (jitter of up to a quarter either way is added
    /// by the caller), then make retry number `attempt`
    Retry { attempt: u32, delay_ms: u64 },
}

/// The delay after one more retry: grown by the multiplier (saturating),
/// at most the maximum.
pub open spec fn next_delay(delay: u64, config: RetryConfig) -> u64 {
    let grown = if delay * config.backoff_multiplier > u64::MAX { u64::MAX as int } else { delay * config.backoff_multiplier };
    if grown <= config.max_delay_ms { grown as u64 } else { config.max_delay_ms }
}

impl RetryState {
    /// The state before the first call.
    pub fn start(config: &RetryConfig) -> (r: Self)
        ensures
            r.attempts == 0,
            r.delay_ms == config.initial_delay_ms,
    {
        RetryState { attempts: 0, delay_ms: config.initial_delay_ms }
    }

    /// The decision after a failed call, and the state after it: errors that
    /// are not retryable, and errors once the retries are used up, end it;
    /// others retry after the current delay, which then grows.
    pub fn after_failure(&self, config: &RetryConfig, error_retryable: bool) -> (r: (RetryDecision, RetryState))
        ensures
            !error_retryable || self.attempts >= config.max_retries ==> r.0 == RetryDecision::GiveUp && r.1 == *self,
            error_retryable && self.attempts < config.max_retries ==> {
                &&& r.0 == (RetryDecision::Retry { attempt: (self.attempts + 1) as u32, delay_ms: self.delay_ms })
                &&& r.1 == (RetryState { attempts: (self.attempts + 1) as u32, delay_ms: next_delay(self.delay_ms, *config) })
            },
    {
        if !error_retryable || self.attempts >= config.max_retries {
            return (RetryDecision::GiveUp, *self);
        }
        let attempts = self.attempts + 1;
        let grown: u64 = match self.delay_ms.checked_mul(config.backoff_multiplier) {
            Some(g) => g,
            None => u64::MAX,
        };
        let delay = if grown <= config.max_delay_ms { grown } else { config.max_delay_ms };
        (RetryDecision::Retry { attempt: attempts, delay_ms: self.delay_ms }, RetryState { attempts, delay_ms: delay })
    }
}

/// A retrying caller makes at most `max_retries` retries, and after the
/// first retry never waits longer than the maximum delay.
pub proof fn lemma_retry_bounded(s: RetryState, config: RetryConfig, error_retryable: bool, d: RetryDecision, next: RetryState)
    requires
        s.attempts <= config.max_retries,
        (d, next) == (if !error_retryable || s.attempts >= config.max_retries {
            (RetryDecision::GiveUp, s)
        } else {
            (RetryDecision::Retry { attempt: (s.attempts + 1) as u32, delay_ms: s.delay_ms },
             RetryState { attempts: (s.attempts + 1) as u32, delay_ms: next_delay(s.delay_ms, config) })
        }),
    ensures
        next.attempts <= config.max_retries,
        d is Retry ==> next.attempts == s.attempts + 1 && next.delay_ms <= config.max_delay_ms,
        d is GiveUp ==> next == s,
{
}

/// API errors whose lower-cased message mentions HTTP 429, 502 or 503, a
/// rate limit, overload or capacity are retried, and no other API error is;
/// network failures and timeouts are always retried, parse errors never.
pub proof fn lemma_retry_classification(message: String, failure: LlmError, seconds: u64)
    ensures
        ({
            let l = lowercase(message@);
            (contains(l, "429"@) || contains(l, "502"@) || contains(l, "503"@) || contains(l, "rate"@)
                || contains(l, "limit"@) || contains(l, "overload"@) || contains(l, "capacity"@))
                == retryable(LlmError::Api(message))
        }),
        failure is Request ==> retryable(failure),
        retryable(LlmError::Timeout(seconds)),
        !retryable(LlmError::Parse(message)),
{
}

} // verus!
