//! Typed errors: each kind of failure, its data, and the exit code category
//! it maps to.

use vstd::prelude::*;
use super::{ExitCode, OutputMeta};
use crate::text::to_owned_string;

verus! {

/// Typed error variants.
#[derive(Debug, Clone)]
pub enum TypedError {
    /// Invalid command-line arguments
    InvalidArguments { message: String, argument: Option<String> },
    /// Configuration file or settings error
    ConfigError { message: String, path: Option<String> },
    /// Input file or stdin error
    InputError { message: String, path: Option<String> },
    /// Git operation failed
    GitError { message: String, command: Option<String> },
    /// Network request failed (`retryable` when likely transient)
    NetworkError { message: String, url: Option<String>, retryable: bool },
    /// Model API error (`retryable` for rate limits and overload)
    ApiError { message: String, provider: Option<String>, status_code: Option<u16>, retryable: bool },
    /// Failed to parse the model's response
    ParseError { message: String, context: Option<String> },
    /// Input exceeds the token limit
    TokenLimitError { message: String, tokens: Option<usize>, limit: Option<usize> },
    /// Internal or unexpected error
    InternalError { message: String },
}

/// The exit code category of a typed error: user-fixable errors, transient
/// (retryable network and API) errors, and permanent errors.
pub open spec fn typed_exit_code(e: TypedError) -> ExitCode {
    match e {
        TypedError::InvalidArguments { .. } | TypedError::ConfigError { .. } | TypedError::InputError { .. }
        | TypedError::GitError { .. } | TypedError::TokenLimitError { .. } => ExitCode::UserError,
        TypedError::NetworkError { retryable, .. } => if retryable { ExitCode::TransientError } else { ExitCode::PermanentError },
        TypedError::ApiError { retryable, .. } => if retryable { ExitCode::TransientError } else { ExitCode::PermanentError },
        TypedError::ParseError { .. } | TypedError::InternalError { .. } => ExitCode::PermanentError,
    }
}

/// The message of a typed error.
pub open spec fn typed_message(e: TypedError) -> Seq<char> {
    match e {
        TypedError::InvalidArguments { message, .. } => message@,
        TypedError::ConfigError { message, .. } => message@,
        TypedError::InputError { message, .. } => message@,
        TypedError::GitError { message, .. } => message@,
        TypedError::NetworkError { message, .. } => message@,
        TypedError::ApiError { message, .. } => message@,
        TypedError::ParseError { message, .. } => message@,
        TypedError::TokenLimitError { message, .. } => message@,
        TypedError::InternalError { message } => message@,
    }
}

impl TypedError {
    /// The exit code category for this error.
    pub fn exit_code(&self) -> (r: ExitCode)
        ensures
            r == typed_exit_code(*self),
    {
        match self {
            TypedError::InvalidArguments { .. } | TypedError::ConfigError { .. } | TypedError::InputError { .. }
            | TypedError::GitError { .. } | TypedError::TokenLimitError { .. } => ExitCode::UserError,
            TypedError::NetworkError { retryable, .. } => if *retryable { ExitCode::TransientError } else { ExitCode::PermanentError },
            TypedError::ApiError { retryable, .. } => if *retryable { ExitCode::TransientError } else { ExitCode::PermanentError },
            TypedError::ParseError { .. } | TypedError::InternalError { .. } => ExitCode::PermanentError,
        }
    }

    /// Whether this error is retryable: exactly the transient ones.
    pub fn is_retryable(&self) -> (r: bool)
        ensures
            r == (typed_exit_code(*self) == ExitCode::TransientError),
    {
        match self.exit_code() {
            ExitCode::TransientError => true,
            _ => false,
        }
    }

    /// The error's message, as its `Display` writes it.
    pub fn message(&self) -> (r: String)
        ensures
            r@ == typed_message(*self),
    {
        match self {
            TypedError::InvalidArguments { message, .. } => message.clone(),
            TypedError::ConfigError { message, .. } => message.clone(),
            TypedError::InputError { message, .. } => message.clone(),
            TypedError::GitError { message, .. } => message.clone(),
            TypedError::NetworkError { message, .. } => message.clone(),
            TypedError::ApiError { message, .. } => message.clone(),
            TypedError::ParseError { message, .. } => message.clone(),
            TypedError::TokenLimitError { message, .. } => message.clone(),
            TypedError::InternalError { message } => message.clone(),
        }
    }

    /// An invalid arguments error.
    pub fn invalid_arguments(message: &str) -> (r: Self)
        ensures
            r matches TypedError::InvalidArguments { message: m, argument: None } && m@ == message@,
    {
        TypedError::InvalidArguments { message: to_owned_string(message), argument: None }
    }

    /// A configuration error.
    pub fn config(message: &str) -> (r: Self)
        ensures
            r matches TypedError::ConfigError { message: m, path: None } && m@ == message@,
    {
        TypedError::ConfigError { message: to_owned_string(message), path: None }
    }

    /// An input error.
    pub fn input(message: &str) -> (r: Self)
        ensures
            r matches TypedError::InputError { message: m, path: None } && m@ == message@,
    {
        TypedError::InputError { message: to_owned_string(message), path: None }
    }

    /// A git error.
    pub fn git(message: &str) -> (r: Self)
        ensures
            r matches TypedError::GitError { message: m, command: None } && m@ == message@,
    {
        TypedError::GitError { message: to_owned_string(message), command: None }
    }

    /// A network error, retryable by default.
    pub fn network(message: &str) -> (r: Self)
        ensures
            r matches TypedError::NetworkError { message: m, url: None, retryable: true } && m@ == message@,
    {
        TypedError::NetworkError { message: to_owned_string(message), url: None, retryable: true }
    }

    /// An API error.
    pub fn api(message: &str, retryable: bool) -> (r: Self)
        ensures
            r matches TypedError::ApiError { message: m, provider: None, status_code: None, retryable: rt } && m@ == message@ && rt == retryable,
    {
        TypedError::ApiError { message: to_owned_string(message), provider: None, status_code: None, retryable }
    }

    /// A parse error.
    pub fn parse(message: &str) -> (r: Self)
        ensures
            r matches TypedError::ParseError { message: m, context: None } && m@ == message@,
    {
        TypedError::ParseError { message: to_owned_string(message), context: None }
    }

    /// A token limit error.
    pub fn token_limit(message: &str) -> (r: Self)
        ensures
            r matches TypedError::TokenLimitError { message: m, tokens: None, limit: None } && m@ == message@,
    {
        TypedError::TokenLimitError { message: to_owned_string(message), tokens: None, limit: None }
    }

    /// An internal error.
    pub fn internal(message: &str) -> (r: Self)
        ensures
            r matches TypedError::InternalError { message: m } && m@ == message@,
    {
        TypedError::InternalError { message: to_owned_string(message) }
    }
}

/// Structured error response: minimal metadata and the error.
#[derive(Debug, Clone)]
pub struct ErrorResponse {
    /// Metadata (minimal for errors)
    pub meta: OutputMeta,
    /// The error details
    pub error: TypedError,
}

impl ErrorResponse {
    /// An error response with minimal metadata.
    pub fn new(error: TypedError) -> (r: Self)
        ensures
            r.error == error,
            r.meta.model is None,
            r.meta.provider is None,
            r.meta.tokens_used is None,
            r.meta.duration_ms == 0,
            r.meta.chunks == 0,
    {
        ErrorResponse { meta: OutputMeta::minimal(), error }
    }

    /// An error response with full metadata.
    pub fn with_meta(error: TypedError, meta: OutputMeta) -> (r: Self)
        ensures
            r.error == error,
            r.meta == meta,
    {
        ErrorResponse { meta, error }
    }

    /// The exit code for this error.
    pub fn exit_code(&self) -> (r: ExitCode)
        ensures
            r == typed_exit_code(self.error),
    {
        self.error.exit_code()
    }
}

/// Retryable errors are exactly those whose exit code says a retry may help.
pub proof fn lemma_retryable_iff_transient(e: TypedError)
    ensures
        (typed_exit_code(e) == ExitCode::TransientError) <==> match e {
            TypedError::NetworkError { retryable, .. } => retryable,
            TypedError::ApiError { retryable, .. } => retryable,
            _ => false,
        },
{
}

} // verus!
