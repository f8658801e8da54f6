use ursix::json_repair::{repair_json, RepairError, RepairKind};

// === Extraction Tests ===

#[test]
fn test_valid_json_unchanged() {
    let input = r#"{"key": "value"}"#;
    let result = repair_json(input).unwrap();
    assert!(!result.was_repaired);
    assert_eq!(result.json, input);
    assert!(result.repairs_applied.is_empty());
}

#[test]
fn test_remove_code_fence() {
    let input = "```json\n{\"key\": \"value\"}\n```";
    let result = repair_json(input).unwrap();
    assert!(result.was_repaired);
    assert!(
        result
            .repairs_applied
            .contains(&RepairKind::RemovedCodeFence)
    );
    assert_eq!(result.json, r#"{"key": "value"}"#);
}

#[test]
fn test_remove_code_fence_no_lang() {
    let input = "```\n{\"key\": \"value\"}\n```";
    let result = repair_json(input).unwrap();
    assert!(result.was_repaired);
    assert_eq!(result.json, r#"{"key": "value"}"#);
}

#[test]
fn test_remove_preamble() {
    let input = "Sure, here is the JSON:\n{\"key\": \"value\"}";
    let result = repair_json(input).unwrap();
    assert!(result.was_repaired);
    assert!(
        result
            .repairs_applied
            .contains(&RepairKind::RemovedPreamble)
    );
    assert_eq!(result.json, r#"{"key": "value"}"#);
}

#[test]
fn test_remove_postamble() {
    let input = "{\"key\": \"value\"}\nThat's the result.";
    let result = repair_json(input).unwrap();
    assert!(result.was_repaired);
    assert!(
        result
            .repairs_applied
            .contains(&RepairKind::RemovedPostamble)
    );
    assert_eq!(result.json, r#"{"key": "value"}"#);
}

#[test]
fn test_remove_preamble_and_postamble() {
    let input = "Here's your JSON:\n{\"key\": \"value\"}\nHope this helps!";
    let result = repair_json(input).unwrap();
    assert!(result.was_repaired);
    assert!(
        result
            .repairs_applied
            .contains(&RepairKind::RemovedPreamble)
    );
    assert!(
        result
            .repairs_applied
            .contains(&RepairKind::RemovedPostamble)
    );
}

// === Value Normalization Tests ===

#[test]
fn test_python_booleans() {
    let input = r#"{"enabled": True, "disabled": False}"#;
    let result = repair_json(input).unwrap();
    assert!(result.was_repaired);
    assert!(
        result
            .repairs_applied
            .contains(&RepairKind::ReplacedPythonBooleans)
    );
    assert_eq!(result.json, r#"{"enabled": true, "disabled": false}"#);
}

#[test]
fn test_python_none() {
    let input = r#"{"value": None}"#;
    let result = repair_json(input).unwrap();
    assert!(result.was_repaired);
    assert!(
        result
            .repairs_applied
            .contains(&RepairKind::ReplacedPythonNone)
    );
    assert_eq!(result.json, r#"{"value": null}"#);
}

#[test]
fn test_python_values_not_in_strings() {
    let input = r#"{"text": "True and False and None"}"#;
    let result = repair_json(input).unwrap();
    // Should NOT be repaired - values are inside a string
    assert!(!result.was_repaired);
    assert_eq!(result.json, input);
}

// === Quote Fix Tests ===

#[test]
fn test_single_quotes() {
    let input = r"{'key': 'value'}";
    let result = repair_json(input).unwrap();
    assert!(result.was_repaired);
    assert!(
        result
            .repairs_applied
            .contains(&RepairKind::ReplacedSingleQuotes)
    );
    assert_eq!(result.json, r#"{"key": "value"}"#);
}

#[test]
fn test_unquoted_keys() {
    let input = r#"{key: "value", other: 123}"#;
    let result = repair_json(input).unwrap();
    assert!(result.was_repaired);
    assert!(result.repairs_applied.contains(&RepairKind::QuotedKeys));
    assert_eq!(result.json, r#"{"key": "value", "other": 123}"#);
}

#[test]
fn test_single_quotes_with_internal_double() {
    let input = r#"{'message': 'He said "hello"'}"#;
    let result = repair_json(input).unwrap();
    assert!(result.was_repaired);
    // The internal double quote should be escaped
    assert_eq!(result.json, r#"{"message": "He said \"hello\""}"#);
}

// === Structure Fix Tests ===

#[test]
fn test_trailing_comma_object() {
    let input = r#"{"key": "value",}"#;
    let result = repair_json(input).unwrap();
    assert!(result.was_repaired);
    assert!(
        result
            .repairs_applied
            .contains(&RepairKind::RemovedTrailingCommas)
    );
    assert_eq!(result.json, r#"{"key": "value"}"#);
}

#[test]
fn test_trailing_comma_array() {
    let input = r#"{"items": [1, 2, 3,]}"#;
    let result = repair_json(input).unwrap();
    assert!(result.was_repaired);
    assert_eq!(result.json, r#"{"items": [1, 2, 3]}"#);
}

#[test]
fn test_escape_newline_in_string() {
    let input = "{\"text\": \"line1\nline2\"}";
    let result = repair_json(input).unwrap();
    assert!(result.was_repaired);
    assert!(
        result
            .repairs_applied
            .contains(&RepairKind::EscapedControlChars)
    );
    assert_eq!(result.json, r#"{"text": "line1\nline2"}"#);
}

// === Missing Closers Tests ===

#[test]
fn test_missing_closing_brace() {
    let input = r#"{"key": "value""#;
    let result = repair_json(input).unwrap();
    assert!(result.was_repaired);
    assert!(
        result
            .repairs_applied
            .contains(&RepairKind::AddedMissingClosers)
    );
    assert_eq!(result.json, r#"{"key": "value"}"#);
}

#[test]
fn test_missing_nested_closers() {
    let input = r#"{"items": [1, 2, 3"#;
    let result = repair_json(input).unwrap();
    assert!(result.was_repaired);
    assert_eq!(result.json, r#"{"items": [1, 2, 3]}"#);
}

// === Combined Issues Tests ===

#[test]
fn test_code_fence_with_single_quotes_and_python_bool() {
    let input = "```json\n{'ok': True}\n```";
    let result = repair_json(input).unwrap();
    assert!(result.was_repaired);
    assert_eq!(result.json, r#"{"ok": true}"#);
}

#[test]
fn test_preamble_with_trailing_comma() {
    let input = "Here's the JSON:\n{\"a\": 1,}";
    let result = repair_json(input).unwrap();
    assert!(result.was_repaired);
    assert_eq!(result.json, r#"{"a": 1}"#);
}

#[test]
fn test_real_world_llm_response() {
    let input = r"Sure! Here's the commit message:

```json
{
'message': 'feat: add new feature\n\nThis adds a cool new feature.',
'title': 'feat: add new feature',
'body': None,
}
```

Let me know if you need anything else!";
    let result = repair_json(input).unwrap();
    assert!(result.was_repaired);
    // Should have all these repairs
    assert!(
        result
            .repairs_applied
            .contains(&RepairKind::RemovedCodeFence)
    );
    assert!(
        result
            .repairs_applied
            .contains(&RepairKind::RemovedPreamble)
    );
    assert!(
        result
            .repairs_applied
            .contains(&RepairKind::RemovedPostamble)
    );
    assert!(
        result
            .repairs_applied
            .contains(&RepairKind::ReplacedSingleQuotes)
    );
    assert!(
        result
            .repairs_applied
            .contains(&RepairKind::ReplacedPythonNone)
    );

    // Verify we can parse the result
    let parsed: serde_json::Value = serde_json::from_str(&result.json).unwrap();
    assert_eq!(parsed["title"], "feat: add new feature");
}

// === Error Cases ===

#[test]
fn test_no_json_found() {
    let input = "This is just plain text with no JSON at all.";
    let result = repair_json(input);
    assert!(matches!(result, Err(RepairError::NoJsonFound)));
}

#[test]
fn test_empty_input() {
    let input = "";
    let result = repair_json(input);
    assert!(matches!(result, Err(RepairError::NoJsonFound)));
}

#[test]
fn test_truncated_mid_string() {
    let input = r#"{"message": "This is a very long message that got cut"#;
    // This should either succeed with closers added, or fail with truncation
    let result = repair_json(input);
    // Our implementation should be able to close this
    assert!(result.is_ok());
}

#[test]
fn test_nested_objects() {
    let input = r"{'outer': {'inner': True, 'value': None}}";
    let result = repair_json(input).unwrap();
    assert!(result.was_repaired);
    let parsed: serde_json::Value = serde_json::from_str(&result.json).unwrap();
    assert_eq!(parsed["outer"]["inner"], true);
    assert!(parsed["outer"]["value"].is_null());
}

#[test]
fn test_array_of_objects() {
    let input = r"{'items': [{'a': True}, {'b': False}]}";
    let result = repair_json(input).unwrap();
    assert!(result.was_repaired);
    let parsed: serde_json::Value = serde_json::from_str(&result.json).unwrap();
    assert_eq!(parsed["items"][0]["a"], true);
    assert_eq!(parsed["items"][1]["b"], false);
}

#[test]
fn repair_error_messages() {
    assert_eq!(RepairError::NoJsonFound.message(), "no JSON object found in response");
    assert_eq!(RepairKind::RemovedCodeFence.description(), "removed code fence");
}

#[test]
fn non_ascii_preamble_extracts_the_block() {
    let result = repair_json(r#"Voilà: {"a": 1} ok"#).unwrap();
    assert_eq!(result.json, r#"{"a": 1}"#);
    assert!(result.repairs_applied.contains(&RepairKind::RemovedPreamble));
    assert!(result.repairs_applied.contains(&RepairKind::RemovedPostamble));
}

#[test]
fn non_ascii_block_without_postamble() {
    let result = repair_json(r#"Résumé: {"nom": "café"}"#).unwrap();
    assert_eq!(result.json, r#"{"nom": "café"}"#);
    assert!(result.repairs_applied.contains(&RepairKind::RemovedPreamble));
    assert!(!result.repairs_applied.contains(&RepairKind::RemovedPostamble));
}

#[test]
fn truncation_context_ends_with_the_text_tail() {
    match repair_json(r#"{"ключ": "значение", "a":"#) {
        Err(RepairError::Truncated { context }) => {
            assert!(context.starts_with("..."));
            assert!(context.ends_with(r#""a":"#));
        }
        other => panic!("unexpected {other:?}"),
    }
}
