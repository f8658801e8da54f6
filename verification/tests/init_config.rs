use ursix::commands::config::{cmd_config_output, config_value, ConfigOutput};
use ursix::commands::init::{
    api_key_guide, api_key_warning, cloud_key_present, default_model_for, finish_init, init_config_file, init_refused,
    key_setup, may_write_config, provider_choices, provider_from_selection, should_write_rules, InitOptions,
    STARTER_RULES,
};
use ursix::config::{Config, Provider};
use ursix::output::OutputMode;

#[test]
fn test_starter_rules_valid_yaml() {
    let parsed: serde_yaml::Value = serde_yaml::from_str(STARTER_RULES).unwrap();
    assert!(parsed.get("categories").is_some());
}

#[test]
fn test_starter_rules_has_expected_categories() {
    let parsed: serde_yaml::Value = serde_yaml::from_str(STARTER_RULES).unwrap();
    let categories = parsed.get("categories").unwrap();
    assert!(categories.get("clarity").is_some());
    assert!(categories.get("robustness").is_some());
    assert!(categories.get("maintainability").is_some());
}

#[test]
fn init_choices_and_defaults() {
    let (items, default) = provider_choices(true);
    assert_eq!(items.len(), 3);
    assert_eq!(default, 0);
    assert!(items[0].contains("Recommended"));
    let (_, default) = provider_choices(false);
    assert_eq!(default, 1);
    assert_eq!(provider_from_selection(2), Provider::Gemini);
    assert_eq!(default_model_for(Provider::OpenAi), "gpt-4o-mini");
    assert_eq!(default_model_for(Provider::Gemini), "gemini-2.0-flash");
    assert_eq!(key_setup(Provider::Ollama), None);
    assert_eq!(key_setup(Provider::OpenAi), Some(("OpenAI", "OPENAI_API_KEY", "sk-...")));
}

#[test]
fn init_key_guidance() {
    let lines = api_key_guide("OpenAI", "sk-...");
    assert_eq!(lines[1], "For OpenAI, you need to set the URSIX_API_KEY environment variable.");
    assert_eq!(lines[6], "  3. Pass via CLI: --provider openai URL sk-...");
    assert_eq!(api_key_warning(false, false), Some("URSIX_API_KEY not set; set it before running commands".to_string()));
    assert_eq!(api_key_warning(true, false), None);
    assert!(cloud_key_present(Provider::Gemini, false, false, true));
    assert!(!cloud_key_present(Provider::Gemini, false, true, false));
}

#[test]
fn init_files_and_report() {
    let opts = InitOptions { skip_test: false, force: false };
    assert!(!may_write_config(true, &opts));
    assert!(may_write_config(false, &opts));
    assert!(should_write_rules(false, &opts));
    assert!(!should_write_rules(true, &opts));
    let file = init_config_file(Provider::OpenAi, "gpt-4o-mini");
    assert_eq!(file.provider, Some(Provider::OpenAi));
    assert_eq!(file.model, Some("gpt-4o-mini".to_string()));
    let refused = init_refused();
    assert!(!refused.success);
    assert_eq!(refused.warnings, vec!["existing configuration not overwritten".to_string()]);
    let done = finish_init(vec![".ursix/config.toml".to_string()], Provider::Ollama, "llama3.2".to_string(), Some(false), vec![]);
    assert!(done.success);
    assert_eq!(done.provider, "ollama");
    assert_eq!(done.warnings, vec!["connectivity test failed; verify ollama is running and model 'llama3.2' is available".to_string()]);
}

#[test]
fn config_command_outputs() {
    let config = Config::default();
    match cmd_config_output(&config, None, true, OutputMode::Human) {
        ConfigOutput::Entries(r) => {
            assert_eq!(r.entries.len(), 6);
            assert_eq!(r.entries[0].value, "ollama");
            assert_eq!(r.entries[2].value, "[default for ollama]");
            assert_eq!(r.entries[3].value, "[not set]");
            assert_eq!(r.entries[5].value, ".");
        }
        ConfigOutput::Help(_) => panic!("expected entries"),
    }
    assert_eq!(config_value(&config, "colour"), "unknown config key: colour");
    match cmd_config_output(&config, None, false, OutputMode::Json) {
        ConfigOutput::Help(h) => {
            let v: serde_json::Value = serde_json::from_str(&h).unwrap();
            assert!(v["help"].as_str().unwrap().contains("\nTo change settings"));
        }
        ConfigOutput::Entries(_) => panic!("expected help"),
    }
}
