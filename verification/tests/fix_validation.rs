use ursix::commands::fix::validation::{
    check_delimiter_balance, sanitize_replacement, validate_replacement, ValidationError,
};

#[test]
fn test_validate_replacement_success() {
    let original = "let x = 1;";
    let replacement = "let _x = 1;";
    let result = validate_replacement(original, replacement).unwrap();
    assert!(result.warnings.is_empty());
}

#[test]
fn test_validate_replacement_length_exceeded() {
    let original = "x";
    let replacement = "x".repeat(100);
    let result = validate_replacement(original, &replacement);
    assert!(matches!(result, Err(ValidationError::LengthExceeded { .. })));
}

#[test]
fn test_validate_replacement_moderate_expansion() {
    let original = "let x = 1;";
    let replacement = "let x = 1;\nlet y = 2;\nlet z = 3;\nlet w = 4;\nlet v = 5;";
    let result = validate_replacement(original, replacement).unwrap();
    assert!(result.warnings.is_empty());
}

#[test]
fn test_validate_replacement_with_code_fence() {
    let original = "let x = 1;";
    let replacement = "```rust\nlet _x = 1;\n```";
    let result = validate_replacement(original, replacement).unwrap();
    assert!(!result.warnings.is_empty());
    assert!(result.warnings[0].message.contains("code fences"));
}

#[test]
fn test_validate_replacement_with_explanation() {
    let original = "let x = 1;";
    let replacement = "Here's the fixed code:\nlet _x = 1;";
    let result = validate_replacement(original, replacement).unwrap();
    assert!(!result.warnings.is_empty());
    assert!(result.warnings[0].message.contains("explanation"));
}

#[test]
fn test_check_delimiter_balance_balanced() {
    assert!(check_delimiter_balance("fn foo() { bar([1, 2]) }").is_none());
    assert!(check_delimiter_balance("let x = \"}\";").is_none());
    assert!(check_delimiter_balance("").is_none());
}

#[test]
fn test_check_delimiter_balance_unclosed_brace() {
    let result = check_delimiter_balance("fn foo() {");
    assert!(result.is_some());
    assert!(result.as_ref().is_some_and(|s| s.contains("unclosed")));
}

#[test]
fn test_check_delimiter_balance_unexpected_close() {
    let result = check_delimiter_balance("fn foo() }");
    assert!(result.is_some());
    assert!(result.as_ref().is_some_and(|s| s.contains("unexpected")));
}

#[test]
fn test_check_delimiter_balance_in_string() {
    assert!(check_delimiter_balance(r#"let s = "({[";"#).is_none());
    assert!(check_delimiter_balance(r"let s = '(';").is_none());
}

#[test]
fn test_sanitize_replacement_clean() {
    let input = "let x = 1;";
    assert_eq!(sanitize_replacement(input), "let x = 1;");
}

#[test]
fn test_sanitize_replacement_with_fences() {
    let input = "```rust\nlet x = 1;\n```";
    assert_eq!(sanitize_replacement(input), "let x = 1;");
}

#[test]
fn test_sanitize_replacement_preserves_indentation() {
    let input = "    let x = 1;";
    assert_eq!(sanitize_replacement(input), "    let x = 1;");
}

#[test]
fn test_sanitize_replacement_removes_blank_lines() {
    let input = "\n\n    let x = 1;\n\n";
    assert_eq!(sanitize_replacement(input), "    let x = 1;");
}

#[test]
fn test_sanitize_replacement_fence_no_language() {
    let input = "```\nlet x = 1;\n```";
    assert_eq!(sanitize_replacement(input), "let x = 1;");
}

#[test]
fn test_sanitize_replacement_indented_with_fences() {
    let input = "```rust\n    let x = 1;\n```";
    assert_eq!(sanitize_replacement(input), "    let x = 1;");
}

#[test]
fn test_sanitize_replacement_multiline_indented() {
    let input = "    fn foo() {\n        bar();\n    }";
    assert_eq!(sanitize_replacement(input), "    fn foo() {\n        bar();\n    }");
}

#[test]
fn test_validate_empty_original_small_replacement() {
    let original = "";
    let replacement = "x";
    let result = validate_replacement(original, replacement).unwrap();
    assert!(result.warnings.is_empty());
}

#[test]
fn test_validate_empty_original_large_replacement() {
    let original = "";
    let replacement = "x".repeat(1000);
    let result = validate_replacement(original, &replacement);
    assert!(matches!(result, Err(ValidationError::LengthExceeded { .. })));
}

#[test]
fn length_exceeded_reports_byte_lengths() {
    match validate_replacement("ab", &"y".repeat(21)) {
        Err(ValidationError::LengthExceeded { replacement_len, original_len }) => {
            assert_eq!(replacement_len, 21);
            assert_eq!(original_len, 2);
        }
        _ => panic!("expected LengthExceeded"),
    }
    assert!(validate_replacement("ab", &"y".repeat(20)).is_ok());
}

#[test]
fn unbalanced_delimiters_give_a_warning() {
    let result = validate_replacement("fn foo() {}", "fn foo() {").unwrap();
    assert_eq!(result.warnings.len(), 1);
    assert!(result.warnings[0].message.starts_with("possible unbalanced delimiters: "));
}
