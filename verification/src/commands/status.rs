//! The `status` command: checks the configuration and whether the provider
//! answers.
//!
//! The program asks the provider for its model list (with
//! [`STATUS_TIMEOUT_SECS`] as the timeout) between [`begin_status`] and
//! [`finish_status`]; everything decided around that call is here.
use vstd::prelude::*;

use crate::config::{Config, Provider, DEFAULT_GEMINI_URL, DEFAULT_OPENAI_URL};
use crate::llm::{is_remote_url, remote, LlmError};
use crate::output::status::{StatusCheck, StatusResult, VerboseInfo};
use crate::text::{
    chars_of, contains, contains_str, decimal, push_decimal, push_str, starts_with, starts_with_str,
    to_owned_string,
};

verus! {

/// Timeout for the connectivity check, in seconds.
pub const STATUS_TIMEOUT_SECS: u64 = 10;

/// Options for the status command.
#[derive(Debug, Clone)]
pub struct StatusOptions {
    /// Show detailed status information
    pub verbose: bool,
}

/// A check as plain values: name, passed, message and details.
pub open spec fn check_view(c: StatusCheck) -> (Seq<char>, bool, Seq<char>, Option<Seq<char>>) {
    (c.name@, c.passed, c.message@, match c.details {
        Some(d) => Some(d@),
        None => None,
    })
}

/// The API-key check for a provider, whether a key is set, and the
/// provider's URL.
pub open spec fn api_key_check(provider: Provider, key_set: bool, url: Seq<char>) -> (Seq<char>, bool, Seq<char>, Option<Seq<char>>) {
    match provider {
        Provider::Ollama => ("api_key"@, true, "not required for Ollama"@, None),
        Provider::OpenAi => if key_set {
            ("api_key"@, true, "API key is set"@, None)
        } else if starts_with(url, DEFAULT_OPENAI_URL@) || remote(url) {
            ("api_key"@, false, "API key required for remote OpenAI endpoint"@,
             Some("Set URSIX_API_KEY or OPENAI_API_KEY environment variable"@))
        } else {
            ("api_key"@, true, "not set (optional for local OpenAI-compatible endpoint)"@, None)
        },
        Provider::Gemini => if key_set {
            ("api_key"@, true, "API key is set"@, None)
        } else if starts_with(url, DEFAULT_GEMINI_URL@) {
            ("api_key"@, false, "API key required for Gemini API"@,
             Some("Set URSIX_API_KEY or GOOGLE_API_KEY environment variable"@))
        } else {
            ("api_key"@, false, "API key required for Gemini API"@, Some("Set URSIX_API_KEY environment variable"@))
        },
    }
}

/// Whether the API key is configured as the provider needs it: Ollama needs
/// none, a local OpenAI-compatible server may go without, the official or any
/// remote OpenAI endpoint and Gemini need one.
pub fn check_api_key(config: &Config, provider_url: &str) -> (r: StatusCheck)
    ensures
        check_view(r) == api_key_check(config.provider, config.api_key is Some, provider_url@),
{
    match config.provider {
        Provider::Ollama => StatusCheck::pass("api_key", "not required for Ollama"),
        Provider::OpenAi => {
            let url = chars_of(provider_url);
            let is_remote = is_remote_url(provider_url);
            let is_official = starts_with_str(&url, DEFAULT_OPENAI_URL);
            if config.api_key.is_some() {
                StatusCheck::pass("api_key", "API key is set")
            } else if is_official || is_remote {
                StatusCheck::fail("api_key", "API key required for remote OpenAI endpoint").with_details(
                    "Set URSIX_API_KEY or OPENAI_API_KEY environment variable",
                )
            } else {
                StatusCheck::pass("api_key", "not set (optional for local OpenAI-compatible endpoint)")
            }
        },
        Provider::Gemini => {
            let url = chars_of(provider_url);
            let is_official = starts_with_str(&url, DEFAULT_GEMINI_URL);
            if config.api_key.is_some() {
                StatusCheck::pass("api_key", "API key is set")
            } else if is_official {
                StatusCheck::fail("api_key", "API key required for Gemini API").with_details(
                    "Set URSIX_API_KEY or GOOGLE_API_KEY environment variable",
                )
            } else {
                StatusCheck::fail("api_key", "API key required for Gemini API").with_details(
                    "Set URSIX_API_KEY environment variable",
                )
            }
        },
    }
}

/// How a failed connectivity check describes the error.
pub open spec fn connectivity_error_message(e: LlmError) -> Seq<char> {
    match e {
        LlmError::Timeout(s) => "connection timed out after "@ + decimal(s as nat) + " seconds"@,
        LlmError::Request { message, is_connect, .. } => if is_connect {
            "connection refused (is the provider running?)"@
        } else {
            "request failed: "@ + message@
        },
        LlmError::Api(m) => if contains(m@, "401"@) {
            "authentication failed (check API key)"@
        } else if contains(m@, "403"@) {
            "access forbidden (check API key permissions)"@
        } else {
            "API error: "@ + m@
        },
        LlmError::Parse(m) => "unexpected response: "@ + m@,
    }
}

/// Describes a connectivity error for people: timeouts, refused
/// connections and rejected keys get a plain explanation.
pub fn format_connectivity_error(error: &LlmError) -> (r: String)
    ensures
        r@ == connectivity_error_message(*error),
{
    match error {
        LlmError::Timeout(secs) => {
            let mut r = to_owned_string("connection timed out after ");
            push_decimal(&mut r, *secs);
            push_str(&mut r, " seconds");
            r
        },
        LlmError::Request { message, is_connect, .. } => {
            if *is_connect {
                to_owned_string("connection refused (is the provider running?)")
            } else {
                let mut r = to_owned_string("request failed: ");
                push_str(&mut r, message.as_str());
                r
            }
        },
        LlmError::Api(msg) => {
            let m = chars_of(msg.as_str());
            if contains_str(&m, "401") {
                to_owned_string("authentication failed (check API key)")
            } else if contains_str(&m, "403") {
                to_owned_string("access forbidden (check API key permissions)")
            } else {
                let mut r = to_owned_string("API error: ");
                push_str(&mut r, msg.as_str());
                r
            }
        },
        LlmError::Parse(msg) => {
            let mut r = to_owned_string("unexpected response: ");
            push_str(&mut r, msg.as_str());
            r
        },
    }
}

/// Outcome of the connectivity check.
pub struct ConnectivityResult {
    /// The check to report
    pub check: StatusCheck,
    /// Details for verbose mode, when asked for and the provider answered
    pub verbose: Option<VerboseInfo>,
}

/// Whether the model list names the model.
pub open spec fn lists_model(models: Seq<String>, model: Seq<char>) -> bool {
    exists|i: int| 0 <= i < models.len() && #[trigger] models[i]@ == model
}

/// The message of a connectivity check on which the provider listed its
/// models.
pub open spec fn connected_message(model: Seq<char>, count: nat, available: bool) -> Seq<char> {
    if available {
        "connected, model '"@ + model + "' available"@
    } else {
        "connected, but model '"@ + model + "' not found ("@ + decimal(count) + " models available)"@
    }
}

fn has_model(models: &Vec<String>, model: &str) -> (r: bool)
    ensures
        r == lists_model(models@, model@),
{
    let mut i: usize = 0;
    while i < models.len()
        invariant
            i <= models@.len(),
            forall|j: int| 0 <= j < i ==> #[trigger] models@[j]@ != model@,
        decreases models@.len() - i,
    {
        if crate::text::str_equal(models[i].as_str(), model) {
            return true;
        }
        i += 1;
    }
    false
}

/// Judges the answer to the model-list request: any answer passes (a
/// missing model is only mentioned), an error fails with its description.
/// In verbose mode an answer also yields the timing, the list and whether
/// the model is in it.
pub fn connectivity_outcome(
    model: &str,
    models_result: Result<Vec<String>, LlmError>,
    verbose: bool,
    elapsed_ms: u64,
) -> (r: ConnectivityResult)
    ensures
        match models_result {
            Ok(models) => {
                let available = lists_model(models@, model@);
                &&& check_view(r.check) == ("connectivity"@, true, connected_message(model@, models@.len(), available), None::<Seq<char>>)
                &&& verbose ==> r.verbose == Some(VerboseInfo {
                    response_time_ms: Some(elapsed_ms),
                    available_models: Some(models),
                    model_available: Some(available),
                })
                &&& !verbose ==> r.verbose is None
            },
            Err(e) => {
                &&& check_view(r.check) == ("connectivity"@, false, connectivity_error_message(e), None::<Seq<char>>)
                &&& r.verbose is None
            },
        },
{
    match models_result {
        Ok(models) => {
            let available = has_model(&models, model);
            let mut message = if available {
                to_owned_string("connected, model '")
            } else {
                to_owned_string("connected, but model '")
            };
            push_str(&mut message, model);
            if available {
                push_str(&mut message, "' available");
            } else {
                push_str(&mut message, "' not found (");
                push_decimal(&mut message, models.len() as u64);
                push_str(&mut message, " models available)");
            }
            let check = StatusCheck::pass("connectivity", message.as_str());
            let verbose_info = if verbose {
                Some(VerboseInfo {
                    response_time_ms: Some(elapsed_ms),
                    available_models: Some(models),
                    model_available: Some(available),
                })
            } else {
                None
            };
            ConnectivityResult { check, verbose: verbose_info }
        },
        Err(e) => {
            let message = format_connectivity_error(&e);
            ConnectivityResult { check: StatusCheck::fail("connectivity", message.as_str()), verbose: None }
        },
    }
}

/// The status up to the connectivity check, and whether to run that check
/// (only when the API-key check passed; otherwise a failed connectivity
/// check is already added).
pub fn begin_status(config: &Config) -> (r: (StatusResult, bool))
    ensures
        r.0.provider@ == config.provider.name_spec(),
        r.0.provider_url@ == config.provider_url_spec(),
        r.0.model@ == config.model@,
        r.0.api_key_set == (config.api_key is Some),
        r.0.verbose is None,
        r.0.warnings@.len() == 0,
        r.1 == api_key_check(config.provider, config.api_key is Some, config.provider_url_spec()).1,
        r.0.checks@.len() == (if r.1 { 3int } else { 4int }),
        check_view(r.0.checks@[0]) == ("config"@, true, "configuration loaded successfully"@, None::<Seq<char>>),
        check_view(r.0.checks@[1]) == ("provider"@, true, config.provider.name_spec() + " at "@
            + config.provider_url_spec(), None::<Seq<char>>),
        check_view(r.0.checks@[2]) == api_key_check(config.provider, config.api_key is Some, config.provider_url_spec()),
        !r.1 ==> check_view(r.0.checks@[3]) == ("connectivity"@, false,
            "cannot test connectivity without API key"@, None::<Seq<char>>),
        r.0.ok == r.1,
{
    let provider_url = config.effective_provider_url();
    let api_key_set = config.api_key.is_some();
    let mut result = StatusResult::new(config.provider.name(), provider_url, config.model.as_str(), api_key_set);
    result.add_check(StatusCheck::pass("config", "configuration loaded successfully"));
    let mut provider_message = to_owned_string(config.provider.name());
    push_str(&mut provider_message, " at ");
    push_str(&mut provider_message, provider_url);
    result.add_check(StatusCheck::pass("provider", provider_message.as_str()));
    let api_key = check_api_key(config, provider_url);
    let api_key_ok = api_key.passed;
    result.add_check(api_key);
    if !api_key_ok {
        result.add_check(StatusCheck::fail("connectivity", "cannot test connectivity without API key"));
    }
    (result, api_key_ok)
}

/// Adds the outcome of the connectivity check to the status.
pub fn finish_status(result: &mut StatusResult, connectivity: ConnectivityResult)
    ensures
        final(result).checks@ == old(result).checks@.push(connectivity.check),
        final(result).ok == (old(result).ok && connectivity.check.passed),
        final(result).verbose == (match connectivity.verbose {
            Some(v) => Some(v),
            None => old(result).verbose,
        }),
        final(result).warnings == old(result).warnings,
        final(result).provider == old(result).provider,
        final(result).provider_url == old(result).provider_url,
        final(result).model == old(result).model,
        final(result).api_key_set == old(result).api_key_set,
{
    result.add_check(connectivity.check);
    if let Some(v) = connectivity.verbose {
        result.set_verbose(v);
    }
}

} // verus!
