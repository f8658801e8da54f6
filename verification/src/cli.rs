//! The command line: its options, and the settings they select.
//!
//! Parsing the arguments themselves is the program's business; it fills a
//! [`Cli`], from which the rest is decided here.
use vstd::prelude::*;

use crate::config::{Config, Provider};
use crate::error::CliError;
use crate::llm::{names_localhost, RetryConfig};
use crate::output::OutputMode;
use crate::text::{chars_of, lowercase, to_lowercase, to_owned_string};

verus! {

/// Mode of the fix command.
#[derive(Debug, Clone, Copy, PartialEq, Eq, Structural)]
pub enum FixMode {
    /// Fix a single issue (the default)
    Atomic,
    /// Fix several issues in one file, from the bottom up
    WholeFile,
}

impl Default for FixMode {
    fn default() -> (r: Self)
        ensures
            r == FixMode::Atomic,
    {
        FixMode::Atomic
    }
}

/// The command-line arguments.
#[derive(Debug, Clone)]
pub struct Cli {
    /// Output plain text instead of JSON
    pub text: bool,
    /// LLM provider: NAME [URL] [API-KEY]
    pub provider: Vec<String>,
    /// Model to use (overrides the configuration)
    pub model: Option<String>,
    /// Maximum retries for transient failures (0 disables them)
    pub retries: u32,
    /// Timeout for model requests, in seconds
    pub timeout: Option<u64>,
    /// Show the plan without calling the model
    pub dry_run: bool,
    /// The subcommand
    pub command: Command,
}

/// The subcommands.
#[derive(Debug, Clone)]
pub enum Command {
    /// Derive content from input (commit-msg, explanation, summary)
    Derive { derive_type: String, file: Option<String>, chunk: bool, concurrency: usize },
    /// Review code changes
    Review { file: Option<String>, checks: Vec<String>, chunk: bool, concurrency: usize, partial: bool },
    /// Fix issues described by structured JSON input
    Fix { file: Option<String>, mode: FixMode, context: usize, retry: bool, partial: bool },
    /// Show configuration values
    Config { key: Option<String>, list: bool },
    /// Set up the configuration in the current directory
    Init { skip_test: bool, force: bool },
}

/// Options for retry behavior.
#[derive(Debug, Clone, Copy, PartialEq, Eq, Structural)]
pub struct RetryOptions {
    /// Maximum retry attempts (0 = disabled)
    pub max_retries: u32,
}

impl RetryOptions {
    /// Retry options from the `--retries` count.
    pub fn from_cli(retries: u32) -> (r: Self)
        ensures
            r.max_retries == retries,
    {
        RetryOptions { max_retries: retries }
    }

    /// The retry configuration: the default one with this many retries, or
    /// no retries at all for zero.
    pub fn to_config(&self) -> (r: RetryConfig)
        ensures
            r == (RetryConfig { max_retries: self.max_retries, ..RetryConfig::default_spec() }),
    {
        if self.max_retries > 0 {
            RetryConfig { max_retries: self.max_retries, ..RetryConfig::default() }
        } else {
            RetryConfig::no_retry()
        }
    }
}

/// The output mode: JSON unless plain text is asked for.
pub fn output_mode(text: bool) -> (r: OutputMode)
    ensures
        r == (if text { OutputMode::Human } else { OutputMode::Json }),
{
    if text {
        OutputMode::Human
    } else {
        OutputMode::Json
    }
}

/// Whether a URL points to this machine.
pub open spec fn local_url(url: Seq<char>) -> bool {
    names_localhost(lowercase(url))
}

/// Checks whether a URL points to localhost.
pub fn is_local_url(url: &str) -> (r: bool)
    ensures
        r == local_url(url@),
{
    let lower = to_lowercase(url);
    let l = chars_of(lower.as_str());
    crate::llm::mentions_localhost(&l)
}

/// How to authenticate to an OpenAI-compatible endpoint.
#[derive(Debug, Clone, PartialEq, Eq)]
pub enum OpenAiAuth {
    /// Send this API key
    ApiKey(String),
    /// A local server: no key needed
    NoKey,
}

/// The message when a remote OpenAI endpoint has no key.
pub open spec fn missing_key_message() -> Seq<char> {
    "API key required for remote OpenAI endpoints. Set URSIX_API_KEY environment variable or pass it via --provider NAME URL API-KEY."@
}

/// Chooses the authentication for an OpenAI client: the configured key if
/// there is one; none for a local server; otherwise a configuration error.
pub fn openai_auth(config: &Config, url: &str) -> (r: Result<OpenAiAuth, CliError>)
    ensures
        match config.api_key {
            Some(k) => r == Ok::<OpenAiAuth, CliError>(OpenAiAuth::ApiKey(k)),
            None => if local_url(url@) {
                r == Ok::<OpenAiAuth, CliError>(OpenAiAuth::NoKey)
            } else {
                r matches Err(CliError::Config(m)) && m@ == missing_key_message()
            },
        },
{
    match &config.api_key {
        Some(k) => Ok(OpenAiAuth::ApiKey(k.clone())),
        None => if is_local_url(url) {
            Ok(OpenAiAuth::NoKey)
        } else {
            Err(
                CliError::Config(
                    to_owned_string(
                        "API key required for remote OpenAI endpoints. Set URSIX_API_KEY environment variable or pass it via --provider NAME URL API-KEY.",
                    ),
                ),
            )
        },
    }
}

/// The message for a provider name that is not known.
pub open spec fn unknown_provider_message(name: Seq<char>) -> Seq<char> {
    "unknown provider: "@ + name + " (expected 'ollama', 'openai', or 'gemini')"@
}

/// Applies the command line's overrides to the loaded configuration.
/// `--provider NAME [URL] [API-KEY]` selects the provider and, when given,
/// its URL and key; `--model` and `--timeout` replace theirs; the retry
/// settings always come from `--retries`. An unknown provider name is a
/// configuration error and leaves the configuration as it was.
pub fn apply_cli_overrides(config: &mut Config, cli: &Cli) -> (r: Result<(), CliError>)
    ensures
        cli.provider@.len() > 0 && Provider::from_str_spec(cli.provider@[0]@) is None ==> {
            &&& r matches Err(CliError::Config(m)) && m@ == unknown_provider_message(cli.provider@[0]@)
            &&& *final(config) == *old(config)
        },
        !(cli.provider@.len() > 0 && Provider::from_str_spec(cli.provider@[0]@) is None) ==> {
            &&& r is Ok
            &&& final(config).provider == (if cli.provider@.len() > 0 {
                Provider::from_str_spec(cli.provider@[0]@)->Some_0
            } else {
                old(config).provider
            })
            &&& final(config).provider_url == (if cli.provider@.len() > 1 {
                Some(cli.provider@[1])
            } else {
                old(config).provider_url
            })
            &&& final(config).api_key == (if cli.provider@.len() > 2 {
                Some(cli.provider@[2])
            } else {
                old(config).api_key
            })
            &&& final(config).model == (match cli.model {
                Some(m) => m,
                None => old(config).model,
            })
            &&& final(config).timeout_secs == (match cli.timeout {
                Some(t) => t,
                None => old(config).timeout_secs,
            })
            &&& final(config).retry_config == (RetryConfig {
                max_retries: cli.retries,
                ..RetryConfig::default_spec()
            })
            &&& final(config).working_dir == old(config).working_dir
            &&& final(config).tokenizer_mode == old(config).tokenizer_mode
            &&& final(config).prompts == old(config).prompts
        },
{
    if cli.provider.len() > 0 {
        let provider = match Provider::from_str(cli.provider[0].as_str()) {
            Ok(p) => p,
            Err(e) => return Err(CliError::Config(e)),
        };
        config.provider = provider;
        if cli.provider.len() > 1 {
            config.provider_url = Some(cli.provider[1].clone());
        }
        if cli.provider.len() > 2 {
            config.api_key = Some(cli.provider[2].clone());
        }
    }
    match &cli.model {
        Some(m) => {
            config.model = m.clone();
        },
        None => {},
    }
    match cli.timeout {
        Some(t) => {
            config.timeout_secs = t;
        },
        None => {},
    }
    config.retry_config = RetryOptions::from_cli(cli.retries).to_config();
    Ok(())
}

} // verus!
