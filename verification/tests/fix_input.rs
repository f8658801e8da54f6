use ursix::commands::fix::input::{
    ranges_overlap, FileRead, FixInput, InputValidationError, IssueSpec, WholeFileInput,
};

fn read(content: &str) -> FileRead {
    FileRead::Content(content.to_string())
}

#[test]
fn test_validate_success() {
    let content = "fn main() {\n    let x = 1;\n    println!(\"{}\", x);\n}";
    let input = FixInput { issue: "unused variable".to_string(), file: "test.rs".to_string(), lines: (2, 2) };

    let validated = input.validate("/tmp/work/test.rs".to_string(), read(content)).unwrap();
    assert_eq!(validated.issue, "unused variable");
    assert_eq!(validated.lines, (2, 2));
    assert_eq!(validated.snippet, "    let x = 1;");
}

#[test]
fn test_validate_multiline_snippet() {
    let content = "fn main() {\n    let x = 1;\n    let y = 2;\n    println!(\"{}\", x + y);\n}";
    let input = FixInput { issue: "combine declarations".to_string(), file: "test.rs".to_string(), lines: (2, 3) };

    let validated = input.validate("/tmp/work/test.rs".to_string(), read(content)).unwrap();
    assert_eq!(validated.lines, (2, 3));
    assert_eq!(validated.snippet, "    let x = 1;\n    let y = 2;");
}

#[test]
fn test_validate_file_not_found() {
    let input = FixInput { issue: "test".to_string(), file: "nonexistent.rs".to_string(), lines: (1, 1) };

    let result = input.validate("/tmp/work/nonexistent.rs".to_string(), FileRead::NotFound);
    assert!(matches!(result, Err(InputValidationError::FileNotFound { .. })));
}

#[test]
fn test_validate_invalid_line_range() {
    let input = FixInput { issue: "test".to_string(), file: "test.rs".to_string(), lines: (5, 3) };

    let result = input.validate("test.rs".to_string(), read("line 1\nline 2"));
    assert!(matches!(result, Err(InputValidationError::InvalidLineRange { .. })));
}

#[test]
fn test_validate_zero_line_number() {
    let input = FixInput { issue: "test".to_string(), file: "test.rs".to_string(), lines: (0, 1) };

    let result = input.validate("test.rs".to_string(), read("line 1"));
    assert!(matches!(result, Err(InputValidationError::ZeroLineNumber { .. })));
}

#[test]
fn test_validate_line_range_out_of_bounds() {
    let input = FixInput { issue: "test".to_string(), file: "test.rs".to_string(), lines: (1, 10) };

    let result = input.validate("test.rs".to_string(), read("line 1\nline 2"));
    assert!(matches!(result, Err(InputValidationError::LineRangeOutOfBounds { .. })));
}

#[test]
fn test_validate_empty_issue() {
    let input = FixInput { issue: "   ".to_string(), file: "test.rs".to_string(), lines: (1, 1) };

    let result = input.validate("test.rs".to_string(), read("content"));
    assert!(matches!(result, Err(InputValidationError::EmptyIssue)));
}

#[test]
fn test_snippet_inferred_from_file() {
    let input = FixInput { issue: "test".to_string(), file: "test.rs".to_string(), lines: (1, 2) };

    let validated = input.validate("test.rs".to_string(), read("line 1\nline 2\nline 3")).unwrap();
    assert_eq!(validated.snippet, "line 1\nline 2");
}

#[test]
fn test_validate_whole_file_success() {
    let content = "line 1\nline 2\nline 3\nline 4\nline 5";
    let input = WholeFileInput {
        file: "test.rs".to_string(),
        issues: vec![
            IssueSpec { issue: "fix line 1".to_string(), lines: (1, 1) },
            IssueSpec { issue: "fix lines 4-5".to_string(), lines: (4, 5) },
        ],
    };

    let validated = input.validate("test.rs".to_string(), read(content)).unwrap();
    assert_eq!(validated.issues.len(), 2);
    assert_eq!(validated.issues.get(0).map(|i| i.lines), Some((4, 5)));
    assert_eq!(validated.issues.get(1).map(|i| i.lines), Some((1, 1)));
    assert_eq!(validated.issues.get(0).map(|i| &i.snippet), Some(&"line 4\nline 5".to_string()));
    assert_eq!(validated.issues.get(1).map(|i| &i.snippet), Some(&"line 1".to_string()));
}

#[test]
fn test_validate_whole_file_empty_issues() {
    let input = WholeFileInput { file: "test.rs".to_string(), issues: vec![] };

    let result = input.validate("test.rs".to_string(), read("content"));
    assert!(matches!(result, Err(InputValidationError::EmptyIssues)));
}

#[test]
fn test_validate_whole_file_overlapping_ranges() {
    let input = WholeFileInput {
        file: "test.rs".to_string(),
        issues: vec![
            IssueSpec { issue: "issue 1".to_string(), lines: (1, 3) },
            IssueSpec { issue: "issue 2".to_string(), lines: (2, 4) },
        ],
    };

    let result = input.validate("test.rs".to_string(), read("line 1\nline 2\nline 3\nline 4"));
    assert!(matches!(result, Err(InputValidationError::OverlappingRanges { .. })));
}

#[test]
fn test_validate_whole_file_adjacent_ranges_ok() {
    let input = WholeFileInput {
        file: "test.rs".to_string(),
        issues: vec![
            IssueSpec { issue: "issue 1".to_string(), lines: (1, 2) },
            IssueSpec { issue: "issue 2".to_string(), lines: (3, 4) },
        ],
    };

    let result = input.validate("test.rs".to_string(), read("line 1\nline 2\nline 3\nline 4"));
    assert!(result.is_ok());
}

#[test]
fn test_ranges_overlap_basic() {
    assert!(ranges_overlap((1, 3), (2, 4)));
    assert!(ranges_overlap((2, 4), (1, 3)));
    assert!(ranges_overlap((1, 5), (2, 3)));
    assert!(ranges_overlap((2, 3), (1, 5)));

    assert!(ranges_overlap((1, 3), (1, 3)));

    assert!(!ranges_overlap((1, 2), (3, 4)));
    assert!(!ranges_overlap((3, 4), (1, 2)));
    assert!(!ranges_overlap((1, 2), (4, 5)));
}

#[test]
fn test_ranges_overlap_single_line() {
    assert!(ranges_overlap((5, 5), (5, 5)));
    assert!(!ranges_overlap((5, 5), (6, 6)));
    assert!(ranges_overlap((5, 5), (4, 6)));
}

#[test]
fn input_error_messages() {
    let input = FixInput { issue: "x".to_string(), file: "f.rs".to_string(), lines: (1, 9) };
    let err = input.validate("f.rs".to_string(), read("a\nb")).unwrap_err();
    match &err {
        InputValidationError::LineRangeOutOfBounds { start, end, file_lines } => {
            assert_eq!((*start, *end, *file_lines), (1, 9, 2));
        }
        _ => panic!("expected LineRangeOutOfBounds"),
    }
    assert!(!err.message().is_empty());
    let unreadable = FixInput { issue: "x".to_string(), file: "f.rs".to_string(), lines: (1, 1) }
        .validate("f.rs".to_string(), FileRead::Unreadable("denied".to_string()))
        .unwrap_err();
    assert!(matches!(unreadable, InputValidationError::FileUnreadable { .. }));
}

#[test]
fn relative_path_strips_working_dir() {
    let input = FixInput { issue: "x".to_string(), file: "src/a.rs".to_string(), lines: (1, 1) };
    let v = input.validate("/work/src/a.rs".to_string(), read("a")).unwrap();
    assert_eq!(v.relative_path("/work"), "src/a.rs");
    assert_eq!(v.relative_path("/elsewhere"), "/work/src/a.rs");
}
