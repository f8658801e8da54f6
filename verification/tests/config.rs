use ursix::config::{
    Config, ConfigEnv, ConfigFile, PromptsConfig, Provider, TokenizerMode, DEFAULT_GEMINI_URL, DEFAULT_MODEL,
    DEFAULT_OLLAMA_URL, DEFAULT_OPENAI_URL, DEFAULT_TIMEOUT_SECS,
};

fn empty_file() -> ConfigFile {
    ConfigFile::default()
}

#[test]
fn config_test_provider_parse() {
    assert_eq!(Provider::from_str("ollama").unwrap(), Provider::Ollama);
    assert_eq!(Provider::from_str("openai").unwrap(), Provider::OpenAi);
    assert_eq!(Provider::from_str("OLLAMA").unwrap(), Provider::Ollama);
    assert_eq!(Provider::from_str("OpenAI").unwrap(), Provider::OpenAi);
    assert!(Provider::from_str("unknown").is_err());
}

#[test]
fn config_test_provider_display() {
    assert_eq!(Provider::Ollama.name(), "ollama");
    assert_eq!(Provider::OpenAi.name(), "openai");
}

#[test]
fn config_test_tokenizer_mode_default() {
    assert_eq!(TokenizerMode::default(), TokenizerMode::Heuristic);
}

#[test]
fn config_test_tokenizer_mode_parse() {
    assert_eq!(TokenizerMode::from_str("heuristic").unwrap(), TokenizerMode::Heuristic);
    assert_eq!(TokenizerMode::from_str("full").unwrap(), TokenizerMode::Full);
    assert_eq!(TokenizerMode::from_str("HEURISTIC").unwrap(), TokenizerMode::Heuristic);
    assert_eq!(TokenizerMode::from_str("Full").unwrap(), TokenizerMode::Full);
    assert!(TokenizerMode::from_str("unknown").is_err());
}

#[test]
fn config_test_tokenizer_mode_display() {
    assert_eq!(TokenizerMode::Heuristic.name(), "heuristic");
    assert_eq!(TokenizerMode::Full.name(), "full");
}

#[test]
fn config_test_config_default_includes_tokenizer_mode() {
    let config = Config::default();
    assert_eq!(config.tokenizer_mode, TokenizerMode::Heuristic);
}

#[test]
fn config_test_merge_file_with_tokenizer_mode() {
    let mut config = Config::default();
    assert_eq!(config.tokenizer_mode, TokenizerMode::Heuristic);

    let file = ConfigFile { tokenizer_mode: Some(TokenizerMode::Full), ..empty_file() };

    config.merge_file(&file);
    assert_eq!(config.tokenizer_mode, TokenizerMode::Full);
}

#[test]
fn types_test_provider_parse() {
    assert_eq!(Provider::from_str("ollama").unwrap(), Provider::Ollama);
    assert_eq!(Provider::from_str("openai").unwrap(), Provider::OpenAi);
    assert_eq!(Provider::from_str("gemini").unwrap(), Provider::Gemini);
    assert_eq!(Provider::from_str("OLLAMA").unwrap(), Provider::Ollama);
    assert_eq!(Provider::from_str("OpenAI").unwrap(), Provider::OpenAi);
    assert_eq!(Provider::from_str("GEMINI").unwrap(), Provider::Gemini);
    assert!(Provider::from_str("unknown").is_err());
}

#[test]
fn types_test_provider_display() {
    assert_eq!(Provider::Ollama.name(), "ollama");
    assert_eq!(Provider::OpenAi.name(), "openai");
    assert_eq!(Provider::Gemini.name(), "gemini");
}

#[test]
fn types_test_tokenizer_mode_default() {
    assert_eq!(TokenizerMode::default(), TokenizerMode::Heuristic);
}

#[test]
fn types_test_tokenizer_mode_parse() {
    assert_eq!(TokenizerMode::from_str("heuristic").unwrap(), TokenizerMode::Heuristic);
    assert_eq!(TokenizerMode::from_str("full").unwrap(), TokenizerMode::Full);
    assert_eq!(TokenizerMode::from_str("HEURISTIC").unwrap(), TokenizerMode::Heuristic);
    assert_eq!(TokenizerMode::from_str("Full").unwrap(), TokenizerMode::Full);
    assert!(TokenizerMode::from_str("unknown").is_err());
}

#[test]
fn types_test_tokenizer_mode_display() {
    assert_eq!(TokenizerMode::Heuristic.name(), "heuristic");
    assert_eq!(TokenizerMode::Full.name(), "full");
}

#[test]
fn test_prompts_config_default() {
    let config = PromptsConfig::default();
    assert!(config.review.is_none());
    assert!(config.commit_msg.is_none());
    assert!(config.explanation.is_none());
    assert!(config.summary.is_none());
    assert!(config.fix.is_none());
}

#[test]
fn test_prompts_config_merge() {
    let mut config = PromptsConfig {
        review: Some("original review".to_string()),
        commit_msg: None,
        explanation: None,
        summary: None,
        fix: None,
    };

    let other = PromptsConfig {
        review: None,
        commit_msg: Some("new commit".to_string()),
        explanation: Some("new explain".to_string()),
        summary: None,
        fix: None,
    };

    config.merge(&other);

    assert_eq!(config.review, Some("original review".to_string()));
    assert_eq!(config.commit_msg, Some("new commit".to_string()));
    assert_eq!(config.explanation, Some("new explain".to_string()));
    assert!(config.summary.is_none());
    assert!(config.fix.is_none());
}

#[test]
fn test_prompts_config_merge_overwrite() {
    let mut config = PromptsConfig { review: Some("original review".to_string()), ..Default::default() };
    let other = PromptsConfig { review: Some("new review".to_string()), ..Default::default() };

    config.merge(&other);

    assert_eq!(config.review, Some("new review".to_string()));
}

#[test]
fn mod_test_default_config() {
    let config = Config::default();
    assert_eq!(config.provider, Provider::Ollama);
    assert_eq!(config.model, DEFAULT_MODEL);
    assert!(config.provider_url.is_none());
    assert!(config.api_key.is_none());
    assert_eq!(config.timeout_secs, DEFAULT_TIMEOUT_SECS);
}

#[test]
fn test_effective_provider_url_default_ollama() {
    let config = Config::default();
    assert_eq!(config.effective_provider_url(), DEFAULT_OLLAMA_URL);
}

#[test]
fn test_effective_provider_url_default_openai() {
    let config = Config { provider: Provider::OpenAi, ..Config::default() };
    assert_eq!(config.effective_provider_url(), DEFAULT_OPENAI_URL);
}

#[test]
fn test_effective_provider_url_default_gemini() {
    let config = Config { provider: Provider::Gemini, ..Config::default() };
    assert_eq!(config.effective_provider_url(), DEFAULT_GEMINI_URL);
}

#[test]
fn test_effective_provider_url_with_override() {
    let config = Config { provider_url: Some("http://custom:8000/v1".to_string()), ..Config::default() };
    assert_eq!(config.effective_provider_url(), "http://custom:8000/v1");
}

#[test]
fn mod_test_merge_file() {
    let mut config = Config::default();

    let file = ConfigFile {
        provider: Some(Provider::OpenAi),
        model: Some("custom-model".to_string()),
        provider_url: Some("http://custom:8000/v1".to_string()),
        tokenizer_mode: None,
        timeout_secs: None,
        prompts: None,
    };

    config.merge_file(&file);

    assert_eq!(config.provider, Provider::OpenAi);
    assert_eq!(config.model, "custom-model");
    assert_eq!(config.provider_url, Some("http://custom:8000/v1".to_string()));
}

#[test]
fn test_merge_file_with_timeout() {
    let mut config = Config::default();
    assert_eq!(config.timeout_secs, DEFAULT_TIMEOUT_SECS);

    let file = ConfigFile { timeout_secs: Some(120), ..empty_file() };

    config.merge_file(&file);
    assert_eq!(config.timeout_secs, 120);
}

#[test]
fn mod_test_config_default_includes_tokenizer_mode() {
    let config = Config::default();
    assert_eq!(config.tokenizer_mode, TokenizerMode::Heuristic);
}

#[test]
fn mod_test_merge_file_with_tokenizer_mode() {
    let mut config = Config::default();
    assert_eq!(config.tokenizer_mode, TokenizerMode::Heuristic);

    let file = ConfigFile { tokenizer_mode: Some(TokenizerMode::Full), ..empty_file() };

    config.merge_file(&file);
    assert_eq!(config.tokenizer_mode, TokenizerMode::Full);
}

#[test]
fn environment_overrides_file_values() {
    let mut config = Config::default();
    config.merge_file(&ConfigFile { model: Some("file-model".to_string()), ..empty_file() });
    let env = ConfigEnv {
        provider: Some("gemini".to_string()),
        model: Some("env-model".to_string()),
        provider_url: None,
        api_key: None,
        openai_api_key: None,
        google_api_key: Some("g-key".to_string()),
        tokenizer_mode: Some("full".to_string()),
        timeout: Some("30".to_string()),
    };
    config.apply_env(&env);
    assert_eq!(config.provider, Provider::Gemini);
    assert_eq!(config.model, "env-model");
    assert_eq!(config.api_key, Some("g-key".to_string()));
    assert_eq!(config.tokenizer_mode, TokenizerMode::Full);
    assert_eq!(config.timeout_secs, 30);
}

#[test]
fn unknown_provider_message() {
    assert_eq!(
        Provider::from_str("foo").unwrap_err(),
        "unknown provider: foo (expected 'ollama', 'openai', or 'gemini')"
    );
}

fn env_with(model: Option<&str>, timeout: Option<&str>) -> ConfigEnv {
    ConfigEnv {
        provider: None,
        model: model.map(str::to_string),
        provider_url: None,
        api_key: None,
        openai_api_key: None,
        google_api_key: None,
        tokenizer_mode: None,
        timeout: timeout.map(str::to_string),
    }
}

#[test]
fn layers_take_precedence_in_order() {
    let mut global = empty_file();
    global.model = Some("global-model".to_string());
    global.provider = Some(Provider::OpenAi);
    global.timeout_secs = Some(10);
    global.provider_url = Some("https://global.example".to_string());
    let mut project = empty_file();
    project.model = Some("project-model".to_string());
    project.timeout_secs = Some(20);

    let config = Config::from_layers("/w".to_string(), Some(&global), Some(&project), &env_with(None, None));
    assert_eq!(config.model, "project-model");
    assert_eq!(config.provider, Provider::OpenAi);
    assert_eq!(config.timeout_secs, 20);
    assert_eq!(config.provider_url.as_deref(), Some("https://global.example"));
    assert_eq!(config.working_dir, "/w");

    let config = Config::from_layers("/w".to_string(), Some(&global), Some(&project), &env_with(Some("env-model"), Some("45")));
    assert_eq!(config.model, "env-model");
    assert_eq!(config.timeout_secs, 45);
}

#[test]
fn layers_fall_back_to_defaults() {
    let config = Config::from_layers("/w".to_string(), None, None, &env_with(None, Some("not a number")));
    assert_eq!(config.model, DEFAULT_MODEL);
    assert_eq!(config.provider, Provider::Ollama);
    assert_eq!(config.timeout_secs, DEFAULT_TIMEOUT_SECS);
    assert_eq!(config.tokenizer_mode, TokenizerMode::Heuristic);
    assert!(config.provider_url.is_none());
    assert!(config.api_key.is_none());
}

#[test]
fn layers_merge_prompts_of_both_files() {
    let mut global = empty_file();
    global.prompts = Some(PromptsConfig { review: Some("g-review".to_string()), fix: Some("g-fix".to_string()), ..PromptsConfig::default() });
    let mut project = empty_file();
    project.prompts = Some(PromptsConfig { review: Some("p-review".to_string()), ..PromptsConfig::default() });
    let config = Config::from_layers("/w".to_string(), Some(&global), Some(&project), &env_with(None, None));
    assert_eq!(config.prompts.review.as_deref(), Some("p-review"));
    assert_eq!(config.prompts.fix.as_deref(), Some("g-fix"));
    assert!(config.prompts.summary.is_none());
}
