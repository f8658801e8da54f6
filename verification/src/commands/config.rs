//! The `config` command: shows configuration values.
use vstd::prelude::*;

use crate::config::{Config, TokenizerMode};
use crate::output::config::{ConfigEntry, ConfigResult};
use crate::output::OutputMode;
use crate::text::{push_str, str_equal, to_owned_string};

verus! {

/// The name of a tokenizer mode.
pub open spec fn tokenizer_mode_name(m: TokenizerMode) -> Seq<char> {
    match m {
        TokenizerMode::Heuristic => "heuristic"@,
        TokenizerMode::Full => "full"@,
    }
}

/// The shown value of a configuration key; an unknown key gets a message.
pub open spec fn config_value_spec(config: Config, key: Seq<char>) -> Seq<char> {
    if key == "provider"@ {
        config.provider.name_spec()
    } else if key == "model"@ {
        config.model@
    } else if key == "provider_url"@ {
        match config.provider_url {
            Some(u) => u@,
            None => "[default for "@ + config.provider.name_spec() + "]"@,
        }
    } else if key == "api_key"@ {
        if config.api_key is Some { "[set]"@ } else { "[not set]"@ }
    } else if key == "tokenizer_mode"@ {
        tokenizer_mode_name(config.tokenizer_mode)
    } else if key == "working_dir"@ {
        config.working_dir@
    } else {
        "unknown config key: "@ + key
    }
}

/// The keys that `--list` shows, in order.
pub open spec fn listed_keys() -> Seq<Seq<char>> {
    seq!["provider"@, "model"@, "provider_url"@, "api_key"@, "tokenizer_mode"@, "working_dir"@]
}

/// The shown value of a key: the API key only as set or not, the provider
/// URL or which default applies.
pub fn config_value(config: &Config, key: &str) -> (r: String)
    ensures
        r@ == config_value_spec(*config, key@),
{
    if str_equal(key, "provider") {
        to_owned_string(config.provider.name())
    } else if str_equal(key, "model") {
        config.model.clone()
    } else if str_equal(key, "provider_url") {
        match &config.provider_url {
            Some(u) => u.clone(),
            None => {
                let mut r = to_owned_string("[default for ");
                push_str(&mut r, config.provider.name());
                push_str(&mut r, "]");
                r
            },
        }
    } else if str_equal(key, "api_key") {
        if config.api_key.is_some() {
            to_owned_string("[set]")
        } else {
            to_owned_string("[not set]")
        }
    } else if str_equal(key, "tokenizer_mode") {
        to_owned_string(config.tokenizer_mode.name())
    } else if str_equal(key, "working_dir") {
        config.working_dir.clone()
    } else {
        let mut r = to_owned_string("unknown config key: ");
        push_str(&mut r, key);
        r
    }
}

fn entry(config: &Config, key: &str) -> (r: ConfigEntry)
    ensures
        r.key@ == key@,
        r.value@ == config_value_spec(*config, key@),
{
    ConfigEntry { key: to_owned_string(key), value: config_value(config, key) }
}

/// What the config command shows.
pub enum ConfigOutput {
    /// These entries
    Entries(ConfigResult),
    /// The usage help, as text for the output mode
    Help(String),
}

/// The usage help of the config command.
pub open spec fn config_help(mode: OutputMode) -> Seq<char> {
    match mode {
        OutputMode::Human => "Usage: usx config <key> or usx config --list\nTo change settings, edit .ursix.toml directly."@,
        OutputMode::Json => "{\"help\": \"Usage: usx config <key> or usx config --list\\nTo change settings, edit .ursix.toml directly.\"}"@,
    }
}

/// Decides what `usx config` shows: every listed key with `--list`; the
/// one key asked for; or, with neither, the usage help.
pub fn cmd_config_output(config: &Config, key: Option<String>, list: bool, output_mode: OutputMode) -> (r: ConfigOutput)
    ensures
        list ==> (r matches ConfigOutput::Entries(res) && res.entries@.len() == 6 && forall|i: int| 0 <= i < 6 ==> {
            &&& (#[trigger] res.entries@[i]).key@ == listed_keys()[i]
            &&& res.entries@[i].value@ == config_value_spec(*config, listed_keys()[i])
        }),
        !list && key is Some ==> (r matches ConfigOutput::Entries(res) && res.entries@.len() == 1
            && res.entries@[0].key@ == key->0@ && res.entries@[0].value@ == config_value_spec(*config, key->0@)),
        !list && key is None ==> (r matches ConfigOutput::Help(h) && h@ == config_help(output_mode)),
{
    if list {
        let entries = vec![
            entry(config, "provider"),
            entry(config, "model"),
            entry(config, "provider_url"),
            entry(config, "api_key"),
            entry(config, "tokenizer_mode"),
            entry(config, "working_dir"),
        ];
        ConfigOutput::Entries(ConfigResult { entries })
    } else {
        match key {
            Some(k) => {
                let value = config_value(config, k.as_str());
                ConfigOutput::Entries(ConfigResult { entries: vec![ConfigEntry { key: k, value }] })
            },
            None => ConfigOutput::Help(match output_mode {
                OutputMode::Human => to_owned_string(
                    "Usage: usx config <key> or usx config --list\nTo change settings, edit .ursix.toml directly.",
                ),
                OutputMode::Json => to_owned_string(
                    "{\"help\": \"Usage: usx config <key> or usx config --list\\nTo change settings, edit .ursix.toml directly.\"}",
                ),
            }),
        }
    }
}

} // verus!
