use ursix::config::PromptsConfig;
use ursix::prompts::{
    build_category_review_prompt, build_review_prompt, capitalize_first, get_prompt, get_review_prompt,
    pipeline_prompt_for_command, ASK_PIPELINE_PROMPT, COMMIT_PIPELINE_PROMPT, DERIVE_SUMMARY_PROMPT,
    EXPLAIN_PIPELINE_PROMPT, FIX_PIPELINE_PROMPT, REVIEW_PIPELINE_PROMPT,
};

#[test]
fn test_pipeline_prompt_for_command() {
    assert_eq!(pipeline_prompt_for_command("explain"), EXPLAIN_PIPELINE_PROMPT);
    assert_eq!(pipeline_prompt_for_command("review"), REVIEW_PIPELINE_PROMPT);
    assert_eq!(pipeline_prompt_for_command("fix"), FIX_PIPELINE_PROMPT);
    assert_eq!(pipeline_prompt_for_command("commit"), COMMIT_PIPELINE_PROMPT);
    assert_eq!(pipeline_prompt_for_command("ask"), ASK_PIPELINE_PROMPT);
    assert_eq!(pipeline_prompt_for_command("unknown"), ASK_PIPELINE_PROMPT);
}

#[test]
fn test_pipeline_prompts_are_not_empty() {
    assert!(!ASK_PIPELINE_PROMPT.is_empty());
    assert!(!EXPLAIN_PIPELINE_PROMPT.is_empty());
    assert!(!REVIEW_PIPELINE_PROMPT.is_empty());
    assert!(!FIX_PIPELINE_PROMPT.is_empty());
    assert!(!COMMIT_PIPELINE_PROMPT.is_empty());
}

#[test]
fn test_pipeline_prompts_contain_json_instructions() {
    assert!(REVIEW_PIPELINE_PROMPT.contains("JSON"));
    assert!(COMMIT_PIPELINE_PROMPT.contains("JSON"));
    assert!(EXPLAIN_PIPELINE_PROMPT.contains("JSON"));
    assert!(!FIX_PIPELINE_PROMPT.contains("JSON"));
    assert!(FIX_PIPELINE_PROMPT.contains("Output ONLY the fixed code"));
}

#[test]
fn test_pipeline_prompts_do_not_mention_tools() {
    assert!(!REVIEW_PIPELINE_PROMPT.contains("Available tools"));
    assert!(!COMMIT_PIPELINE_PROMPT.contains("Available tools"));
    assert!(!EXPLAIN_PIPELINE_PROMPT.contains("Available tools"));
    assert!(!FIX_PIPELINE_PROMPT.contains("Available tools"));
    assert!(!ASK_PIPELINE_PROMPT.contains("Available tools"));
}

#[test]
fn test_build_review_prompt_empty_rules() {
    let prompt = build_review_prompt("");
    assert!(prompt.contains("code review expert"));
    assert!(prompt.contains("JSON"));
    assert!(!prompt.contains("## Review Rules"));
}

#[test]
fn test_build_review_prompt_with_rules() {
    let rules = "## Review Rules\n\n- **no-unwrap** [error]: Avoid unwrap";
    let prompt = build_review_prompt(rules);
    assert!(prompt.contains("code review expert"));
    assert!(prompt.contains("## Review Rules"));
    assert!(prompt.contains("no-unwrap"));
    assert!(prompt.contains("JSON"));
}

#[test]
fn test_build_review_prompt_includes_rule_field() {
    let prompt = build_review_prompt("");
    assert!(prompt.contains("\"rule\":"));
}

#[test]
fn test_build_category_review_prompt_empty_rules() {
    let prompt = build_category_review_prompt("security", "");
    assert!(prompt.contains("focused on security"));
    assert!(prompt.contains("security concerns only"));
    assert!(prompt.contains("JSON"));
    assert!(prompt.contains("ONLY report security issues"));
}

#[test]
fn test_build_category_review_prompt_with_rules() {
    let rules = "## Review Rules - Security\n\n- **no-unwrap** [error]: Avoid unwrap";
    let prompt = build_category_review_prompt("security", rules);
    assert!(prompt.contains("focused on security"));
    assert!(prompt.contains("## Review Rules - Security"));
    assert!(prompt.contains("no-unwrap"));
}

#[test]
fn test_build_category_review_prompt_different_categories() {
    let security_prompt = build_category_review_prompt("security", "");
    let style_prompt = build_category_review_prompt("style", "");

    assert!(security_prompt.contains("security issues"));
    assert!(!security_prompt.contains("style issues"));

    assert!(style_prompt.contains("style issues"));
    assert!(!style_prompt.contains("security issues"));
}

#[test]
fn test_capitalize_first() {
    assert_eq!(capitalize_first("hello"), "Hello");
    assert_eq!(capitalize_first("HELLO"), "HELLO");
    assert_eq!(capitalize_first(""), "");
    assert_eq!(capitalize_first("a"), "A");
    assert_eq!(capitalize_first("security"), "Security");
}

#[test]
fn test_get_prompt_defaults() {
    let config = PromptsConfig::default();
    assert_eq!(get_prompt("review", &config), REVIEW_PIPELINE_PROMPT);
    assert_eq!(get_prompt("commit-msg", &config), COMMIT_PIPELINE_PROMPT);
    assert_eq!(get_prompt("commit", &config), COMMIT_PIPELINE_PROMPT);
    assert_eq!(get_prompt("explanation", &config), EXPLAIN_PIPELINE_PROMPT);
    assert_eq!(get_prompt("explain", &config), EXPLAIN_PIPELINE_PROMPT);
    assert_eq!(get_prompt("summary", &config), DERIVE_SUMMARY_PROMPT);
    assert_eq!(get_prompt("fix", &config), FIX_PIPELINE_PROMPT);
    assert_eq!(get_prompt("unknown", &config), ASK_PIPELINE_PROMPT);
}

#[test]
fn test_get_prompt_custom() {
    let config = PromptsConfig {
        review: Some("Custom review prompt".to_string()),
        commit_msg: Some("Custom commit prompt".to_string()),
        explanation: Some("Custom explain prompt".to_string()),
        summary: Some("Custom summary prompt".to_string()),
        fix: Some("Custom fix prompt".to_string()),
    };
    assert_eq!(get_prompt("review", &config), "Custom review prompt");
    assert_eq!(get_prompt("commit-msg", &config), "Custom commit prompt");
    assert_eq!(get_prompt("explanation", &config), "Custom explain prompt");
    assert_eq!(get_prompt("summary", &config), "Custom summary prompt");
    assert_eq!(get_prompt("fix", &config), "Custom fix prompt");
}

#[test]
fn test_get_review_prompt_default() {
    let config = PromptsConfig::default();
    let prompt = get_review_prompt(&config, "");
    assert!(prompt.contains("code review expert"));
}

#[test]
fn test_get_review_prompt_custom_with_rules() {
    let config = PromptsConfig { review: Some("Custom review prompt text".to_string()), ..Default::default() };
    let prompt = get_review_prompt(&config, "## Rules\n- test rule");
    assert!(prompt.contains("Custom review prompt text"));
    assert!(prompt.contains("## Rules"));
}

#[test]
fn test_get_review_prompt_custom_no_rules() {
    let config = PromptsConfig { review: Some("Custom review prompt text".to_string()), ..Default::default() };
    let prompt = get_review_prompt(&config, "");
    assert_eq!(prompt, "Custom review prompt text");
}
