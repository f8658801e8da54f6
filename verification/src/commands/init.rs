//! The `init` command: the setup wizard's decisions.
//!
//! The program asks the questions, reads and writes the files and tests the
//! connection; what it asks, writes and reports is decided here.
use vstd::prelude::*;

use crate::config::{ConfigFile, Provider, DEFAULT_MODEL};
use crate::output::init::InitResult;
use crate::text::{lowercase, push_str, to_lowercase, to_owned_string};

verus! {

/// Options for the init command.
#[derive(Debug, Clone, Copy)]
pub struct InitOptions {
    /// Skip the connectivity test
    pub skip_test: bool,
    /// Overwrite existing configuration files
    pub force: bool,
}

/// Starter rules: issues a model can find beyond what linters catch.
pub const STARTER_RULES: &'static str = "# Ursix Review Rules
# These rules focus on issues that LLMs can detect beyond traditional linters.

categories:
  clarity:
    - name: vague-naming
      description: \"Flag variables/functions with unclear names (data, temp, result, handle) that don't convey purpose\"
      severity: warning
    - name: misleading-names
      description: \"Flag names that don't match behavior (e.g., getUser that also modifies state)\"
      severity: warning
    - name: redundant-comments
      description: \"Flag comments that just restate what the code already does - comments should add context, not narrate\"
      severity: info

  robustness:
    - name: error-message-quality
      description: \"Error messages should include context for debugging, not just 'failed' or 'invalid input'\"
      severity: warning
    - name: missing-edge-cases
      description: \"Flag obvious unhandled edge cases (empty input, null, boundary conditions)\"
      severity: warning

  maintainability:
    - name: magic-values
      description: \"Unexplained magic numbers or strings that should be named constants\"
      severity: warning
    - name: boolean-parameter-blindness
      description: \"Boolean parameters unclear at call site - consider named parameters, enum, or builder\"
      severity: info
";

/// Whether setup goes ahead: not when a configuration exists and
/// overwriting was not asked for.
pub fn may_write_config(config_exists: bool, options: &InitOptions) -> (r: bool)
    ensures
        r == (!config_exists || options.force),
{
    !config_exists || options.force
}

/// The report when an existing configuration is left alone.
pub fn init_refused() -> (r: InitResult)
    ensures
        !r.success,
        r.files_created@.len() == 0,
        r.provider@.len() == 0,
        r.model@.len() == 0,
        r.connectivity_test is None,
        r.warnings@.len() == 1,
        r.warnings@[0]@ == "existing configuration not overwritten"@,
{
    InitResult {
        success: false,
        files_created: Vec::new(),
        provider: String::new(),
        model: String::new(),
        connectivity_test: None,
        warnings: vec![to_owned_string("existing configuration not overwritten")],
    }
}

/// The choices offered for the provider, and the one selected at first:
/// Ollama when it answered on this machine, else OpenAI.
pub fn provider_choices(ollama_available: bool) -> (r: (Vec<&'static str>, usize))
    ensures
        r.0@.len() == 3,
        r.0@[0]@ == (if ollama_available {
            "ollama (local) - Recommended, detected on your system"@
        } else {
            "ollama (local) - Not detected, but you can configure it"@
        }),
        r.0@[1]@ == "openai (cloud) - Requires API key"@,
        r.0@[2]@ == "gemini (cloud) - Requires API key"@,
        r.1 == (if ollama_available { 0usize } else { 1usize }),
{
    let first = if ollama_available {
        "ollama (local) - Recommended, detected on your system"
    } else {
        "ollama (local) - Not detected, but you can configure it"
    };
    let default: usize = if ollama_available { 0 } else { 1 };
    (vec![first, "openai (cloud) - Requires API key", "gemini (cloud) - Requires API key"], default)
}

/// The provider of a selected choice.
pub fn provider_from_selection(selection: usize) -> (r: Provider)
    ensures
        r == (if selection == 0 { Provider::Ollama } else if selection == 1 { Provider::OpenAi } else { Provider::Gemini }),
{
    if selection == 0 {
        Provider::Ollama
    } else if selection == 1 {
        Provider::OpenAi
    } else {
        Provider::Gemini
    }
}

/// The model suggested for a provider.
pub open spec fn default_model_spec(provider: Provider) -> Seq<char> {
    match provider {
        Provider::Ollama => DEFAULT_MODEL@,
        Provider::OpenAi => "gpt-4o-mini"@,
        Provider::Gemini => "gemini-2.0-flash"@,
    }
}

/// The model suggested for a provider.
pub fn default_model_for(provider: Provider) -> (r: &'static str)
    ensures
        r@ == default_model_spec(provider),
{
    match provider {
        Provider::Ollama => DEFAULT_MODEL,
        Provider::OpenAi => "gpt-4o-mini",
        Provider::Gemini => "gemini-2.0-flash",
    }
}

/// For a cloud provider: its name, the environment variable that also holds
/// its key, and how its keys begin.
pub open spec fn key_setup_spec(provider: Provider) -> Option<(Seq<char>, Seq<char>, Seq<char>)> {
    match provider {
        Provider::Ollama => None,
        Provider::OpenAi => Some(("OpenAI"@, "OPENAI_API_KEY"@, "sk-..."@)),
        Provider::Gemini => Some(("Gemini"@, "GOOGLE_API_KEY"@, "AIza..."@)),
    }
}

/// For a cloud provider: its name, the environment variable that also holds
/// its key, and how its keys begin.
pub fn key_setup(provider: Provider) -> (r: Option<(&'static str, &'static str, &'static str)>)
    ensures
        match r {
            Some((n, e, p)) => key_setup_spec(provider) == Some((n@, e@, p@)),
            None => key_setup_spec(provider) is None,
        },
{
    match provider {
        Provider::Ollama => None,
        Provider::OpenAi => Some(("OpenAI", "OPENAI_API_KEY", "sk-...")),
        Provider::Gemini => Some(("Gemini", "GOOGLE_API_KEY", "AIza...")),
    }
}

/// The lines that explain how to set the API key of a cloud provider.
pub open spec fn key_guide_lines(name: Seq<char>, key_prefix: Seq<char>) -> Seq<Seq<char>> {
    seq![
        Seq::empty(),
        "For "@ + name + ", you need to set the URSIX_API_KEY environment variable."@,
        Seq::empty(),
        "Options:"@,
        "  1. Create a .env file in this directory with: URSIX_API_KEY="@ + key_prefix,
        "  2. Export in your shell: export URSIX_API_KEY="@ + key_prefix,
        "  3. Pass via CLI: --provider "@ + lowercase(name) + " URL "@ + key_prefix,
        Seq::empty(),
    ]
}

/// The lines that explain how to set the API key of a cloud provider.
pub fn api_key_guide(name: &str, key_prefix: &str) -> (r: Vec<String>)
    ensures
        crate::text::string_views(r@) == key_guide_lines(name@, key_prefix@),
{
    let mut l1 = to_owned_string("For ");
    push_str(&mut l1, name);
    push_str(&mut l1, ", you need to set the URSIX_API_KEY environment variable.");
    let mut l4 = to_owned_string("  1. Create a .env file in this directory with: URSIX_API_KEY=");
    push_str(&mut l4, key_prefix);
    let mut l5 = to_owned_string("  2. Export in your shell: export URSIX_API_KEY=");
    push_str(&mut l5, key_prefix);
    let mut l6 = to_owned_string("  3. Pass via CLI: --provider ");
    let lower = to_lowercase(name);
    push_str(&mut l6, lower.as_str());
    push_str(&mut l6, " URL ");
    push_str(&mut l6, key_prefix);
    let r = vec![String::new(), l1, String::new(), to_owned_string("Options:"), l4, l5, l6, String::new()];
    assert(crate::text::string_views(r@) =~= key_guide_lines(name@, key_prefix@));
    r
}

/// The warning when neither `URSIX_API_KEY` nor the provider's own variable
/// is set.
pub fn api_key_warning(ursix_key_set: bool, fallback_key_set: bool) -> (r: Option<String>)
    ensures
        (r is Some) == (!ursix_key_set && !fallback_key_set),
        r matches Some(w) ==> w@ == "URSIX_API_KEY not set; set it before running commands"@,
{
    if !ursix_key_set && !fallback_key_set {
        Some(to_owned_string("URSIX_API_KEY not set; set it before running commands"))
    } else {
        None
    }
}

/// The configuration file that setup writes: the provider and model only.
pub fn init_config_file(provider: Provider, model: &str) -> (r: ConfigFile)
    ensures
        r.provider == Some(provider),
        r.model matches Some(m) && m@ == model@,
        r.provider_url is None,
        r.tokenizer_mode is None,
        r.timeout_secs is None,
        r.prompts is None,
{
    ConfigFile {
        provider: Some(provider),
        model: Some(to_owned_string(model)),
        provider_url: None,
        tokenizer_mode: None,
        timeout_secs: None,
        prompts: None,
    }
}

/// Whether to write the starter rules: when there are none yet, or when
/// overwriting was asked for.
pub fn should_write_rules(rules_exist: bool, options: &InitOptions) -> (r: bool)
    ensures
        r == (!rules_exist || options.force),
{
    !rules_exist || options.force
}

/// Whether a cloud provider is ready without calling it: some key variable
/// is set. (Ollama is asked for its model list instead.)
pub fn cloud_key_present(provider: Provider, ursix_key_set: bool, openai_key_set: bool, google_key_set: bool) -> (r: bool)
    ensures
        r == match provider {
            Provider::Ollama => false,
            Provider::OpenAi => ursix_key_set || openai_key_set,
            Provider::Gemini => ursix_key_set || google_key_set,
        },
{
    match provider {
        Provider::Ollama => false,
        Provider::OpenAi => ursix_key_set || openai_key_set,
        Provider::Gemini => ursix_key_set || google_key_set,
    }
}

/// The report of a finished setup: a failed connectivity test adds a
/// warning naming the provider and model.
pub fn finish_init(
    files_created: Vec<String>,
    provider: Provider,
    model: String,
    connectivity_test: Option<bool>,
    warnings: Vec<String>,
) -> (r: InitResult)
    ensures
        r.success,
        r.files_created == files_created,
        r.provider@ == provider.name_spec(),
        r.model == model,
        r.connectivity_test == connectivity_test,
        connectivity_test == Some(false) ==> r.warnings@.len() == warnings@.len() + 1
            && r.warnings@.take(warnings@.len() as int) == warnings@
            && r.warnings@.last()@ == "connectivity test failed; verify "@ + provider.name_spec() + " is running and model '"@
                + model@ + "' is available"@,
        connectivity_test != Some(false) ==> r.warnings == warnings,
{
    let mut warnings = warnings;
    let ghost before = warnings@;
    if let Some(false) = connectivity_test {
        let mut w = to_owned_string("connectivity test failed; verify ");
        push_str(&mut w, provider.name());
        push_str(&mut w, " is running and model '");
        push_str(&mut w, model.as_str());
        push_str(&mut w, "' is available");
        warnings.push(w);
        assert(warnings@.take(before.len() as int) =~= before);
    }
    InitResult {
        success: true,
        files_created,
        provider: to_owned_string(provider.name()),
        model,
        connectivity_test,
        warnings,
    }
}

} // verus!
