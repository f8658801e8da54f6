//! Errors of a run, their exit codes, and their typed form for the JSON
//! error report.
use vstd::prelude::*;

use crate::llm::{llm_error_message, retryable, LlmError};
use crate::output::error::{typed_exit_code, TypedError};
use crate::output::{ExitCode, ToExitCode};
use crate::text::{decimal, push_decimal, push_str, to_owned_string};

verus! {

/// Errors of pipeline execution.
#[derive(Debug)]
pub enum PipelineError {
    /// The model call failed
    Llm(LlmError),
    /// The input is over the token limit
    TokenLimit(String),
}

/// The message of a pipeline error, as its `Display` writes it.
pub open spec fn pipeline_error_message(e: PipelineError) -> Seq<char> {
    match e {
        PipelineError::Llm(l) => "LLM error: "@ + llm_error_message(l),
        PipelineError::TokenLimit(m) => "token limit exceeded: "@ + m@,
    }
}

/// The exit code of a pipeline error.
pub open spec fn pipeline_exit_code(e: PipelineError) -> ExitCode {
    match e {
        PipelineError::Llm(l) => llm_exit_code(l),
        PipelineError::TokenLimit(_) => ExitCode::UserError,
    }
}

/// The exit code of a model error: transient for network failures and
/// timeouts, permanent otherwise.
pub open spec fn llm_exit_code(e: LlmError) -> ExitCode {
    match e {
        LlmError::Request { .. } | LlmError::Timeout(_) => ExitCode::TransientError,
        LlmError::Parse(_) | LlmError::Api(_) => ExitCode::PermanentError,
    }
}

impl ToExitCode for PipelineError {
    fn to_exit_code(&self) -> (r: ExitCode)
        ensures
            r == pipeline_exit_code(*self),
    {
        match self {
            PipelineError::Llm(e) => e.to_exit_code(),
            PipelineError::TokenLimit(_) => ExitCode::UserError,
        }
    }
}

impl PipelineError {
    /// The error's message, as its `Display` writes it.
    pub fn message(&self) -> (r: String)
        ensures
            r@ == pipeline_error_message(*self),
    {
        match self {
            PipelineError::Llm(e) => {
                let mut r = to_owned_string("LLM error: ");
                push_str(&mut r, e.message().as_str());
                r
            },
            PipelineError::TokenLimit(m) => {
                let mut r = to_owned_string("token limit exceeded: ");
                push_str(&mut r, m.as_str());
                r
            },
        }
    }
}

/// Errors of the command line, each with the message of its cause.
#[derive(Debug)]
pub enum CliError {
    /// Configuration could not be loaded or is invalid
    Config(String),
    /// Input could not be read
    Input(String),
    /// A git operation failed
    Git(String),
    /// A response could not be parsed
    Parse(String),
    /// The pipeline failed
    Pipeline(PipelineError),
}

/// The exit code of a command-line error.
pub open spec fn cli_exit_code(e: CliError) -> ExitCode {
    match e {
        CliError::Config(_) | CliError::Input(_) | CliError::Git(_) => ExitCode::UserError,
        CliError::Parse(_) => ExitCode::PermanentError,
        CliError::Pipeline(p) => pipeline_exit_code(p),
    }
}

impl ToExitCode for CliError {
    fn to_exit_code(&self) -> (r: ExitCode)
        ensures
            r == cli_exit_code(*self),
    {
        match self {
            CliError::Config(_) | CliError::Input(_) | CliError::Git(_) => ExitCode::UserError,
            CliError::Parse(_) => ExitCode::PermanentError,
            CliError::Pipeline(e) => e.to_exit_code(),
        }
    }
}

/// The first error of a known kind in the chain of causes of a failed run,
/// or, when there is none, the text of the whole chain.
#[derive(Debug)]
pub enum ChainError {
    Cli(CliError),
    Pipeline(PipelineError),
    Llm(LlmError),
    Other(String),
}

/// Whether `t` is the typed form of a model error.
pub open spec fn llm_typed(e: LlmError, t: TypedError) -> bool {
    match e {
        LlmError::Request { message, url, .. } => t == (TypedError::NetworkError { message, url, retryable: true }),
        LlmError::Parse(m) => t == (TypedError::ParseError { message: m, context: None }),
        LlmError::Api(m) => t == (TypedError::ApiError {
            message: m,
            provider: None,
            status_code: None,
            retryable: retryable(e),
        }),
        LlmError::Timeout(s) => t matches TypedError::NetworkError { message, url, retryable } && message@
            == "request timed out after "@ + decimal(s as nat) + " seconds"@ && url is None && retryable,
    }
}

/// Whether `t` is the typed form of a pipeline error.
pub open spec fn pipeline_typed(e: PipelineError, t: TypedError) -> bool {
    match e {
        PipelineError::Llm(l) => llm_typed(l, t),
        PipelineError::TokenLimit(m) => t == (TypedError::TokenLimitError { message: m, tokens: None, limit: None }),
    }
}

/// Whether `t` is the typed form of a command-line error.
pub open spec fn cli_typed(e: CliError, t: TypedError) -> bool {
    match e {
        CliError::Config(m) => t == (TypedError::ConfigError { message: m, path: None }),
        CliError::Input(m) => t == (TypedError::InputError { message: m, path: None }),
        CliError::Git(m) => t == (TypedError::GitError { message: m, command: None }),
        CliError::Parse(m) => t == (TypedError::ParseError { message: m, context: None }),
        CliError::Pipeline(p) => pipeline_typed(p, t),
    }
}

/// Whether `t` is the typed form of the error found in a chain.
pub open spec fn chain_typed(e: ChainError, t: TypedError) -> bool {
    match e {
        ChainError::Cli(c) => cli_typed(c, t),
        ChainError::Pipeline(p) => pipeline_typed(p, t),
        ChainError::Llm(l) => llm_typed(l, t),
        ChainError::Other(m) => t == (TypedError::InternalError { message: m }),
    }
}

/// The exit code of a failed run: that of the error found, permanent when
/// none of a known kind was found.
pub open spec fn chain_exit_code(e: ChainError) -> ExitCode {
    match e {
        ChainError::Cli(c) => cli_exit_code(c),
        ChainError::Pipeline(p) => pipeline_exit_code(p),
        ChainError::Llm(l) => llm_exit_code(l),
        ChainError::Other(_) => ExitCode::PermanentError,
    }
}

/// The typed form of a model error.
pub fn llm_error_to_typed(e: &LlmError) -> (r: TypedError)
    ensures
        llm_typed(*e, r),
{
    match e {
        LlmError::Request { message, url, .. } => TypedError::NetworkError {
            message: message.clone(),
            url: url.clone(),
            retryable: true,
        },
        LlmError::Parse(m) => TypedError::ParseError { message: m.clone(), context: None },
        LlmError::Api(m) => {
            let retryable = e.is_retryable();
            TypedError::ApiError { message: m.clone(), provider: None, status_code: None, retryable }
        },
        LlmError::Timeout(secs) => {
            let mut message = to_owned_string("request timed out after ");
            push_decimal(&mut message, *secs);
            push_str(&mut message, " seconds");
            TypedError::NetworkError { message, url: None, retryable: true }
        },
    }
}

/// The typed form of a pipeline error.
pub fn pipeline_error_to_typed(e: &PipelineError) -> (r: TypedError)
    ensures
        pipeline_typed(*e, r),
{
    match e {
        PipelineError::Llm(l) => llm_error_to_typed(l),
        PipelineError::TokenLimit(m) => TypedError::TokenLimitError { message: m.clone(), tokens: None, limit: None },
    }
}

/// The typed form of a command-line error.
pub fn cli_error_to_typed(e: &CliError) -> (r: TypedError)
    ensures
        cli_typed(*e, r),
{
    match e {
        CliError::Config(m) => TypedError::ConfigError { message: m.clone(), path: None },
        CliError::Input(m) => TypedError::InputError { message: m.clone(), path: None },
        CliError::Git(m) => TypedError::GitError { message: m.clone(), command: None },
        CliError::Parse(m) => TypedError::ParseError { message: m.clone(), context: None },
        CliError::Pipeline(p) => pipeline_error_to_typed(p),
    }
}

/// The typed error reported for a failed run.
pub fn to_typed_error(e: &ChainError) -> (r: TypedError)
    ensures
        chain_typed(*e, r),
{
    match e {
        ChainError::Cli(c) => cli_error_to_typed(c),
        ChainError::Pipeline(p) => pipeline_error_to_typed(p),
        ChainError::Llm(l) => llm_error_to_typed(l),
        ChainError::Other(m) => TypedError::InternalError { message: m.clone() },
    }
}

/// The exit code of a failed run.
pub fn extract_exit_code(e: &ChainError) -> (r: ExitCode)
    ensures
        r == chain_exit_code(*e),
{
    match e {
        ChainError::Cli(c) => c.to_exit_code(),
        ChainError::Pipeline(p) => p.to_exit_code(),
        ChainError::Llm(l) => l.to_exit_code(),
        ChainError::Other(_) => ExitCode::PermanentError,
    }
}

/// The model error inside the error found, if any.
pub open spec fn inner_llm_error(e: ChainError) -> Option<LlmError> {
    match e {
        ChainError::Cli(CliError::Pipeline(PipelineError::Llm(l))) => Some(l),
        ChainError::Pipeline(PipelineError::Llm(l)) => Some(l),
        ChainError::Llm(l) => Some(l),
        _ => None,
    }
}

/// The exit code of a failed run is the one its typed error report names,
/// except for an API error whose message is transient: the report calls it
/// retryable, the exit code permanent.
pub proof fn lemma_exit_code_matches_report(e: ChainError, t: TypedError)
    requires
        chain_typed(e, t),
        !(inner_llm_error(e) matches Some(LlmError::Api(_)) && retryable(inner_llm_error(e)->0)),
    ensures
        typed_exit_code(t) == chain_exit_code(e),
{
}

} // verus!
