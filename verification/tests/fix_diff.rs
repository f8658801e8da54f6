use ursix::commands::fix::diff::{apply_replacement, generate_unified_diff};

#[test]
fn test_apply_replacement_single_line() {
    let content = "line 1\nline 2\nline 3";
    let replacement = "modified line 2";
    let result = apply_replacement(content, replacement, (2, 2));
    assert_eq!(result, "line 1\nmodified line 2\nline 3");
}

#[test]
fn test_apply_replacement_multiline() {
    let content = "line 1\nline 2\nline 3\nline 4";
    let replacement = "new line A\nnew line B";
    let result = apply_replacement(content, replacement, (2, 3));
    assert_eq!(result, "line 1\nnew line A\nnew line B\nline 4");
}

#[test]
fn test_apply_replacement_first_line() {
    let content = "line 1\nline 2";
    let replacement = "new first";
    let result = apply_replacement(content, replacement, (1, 1));
    assert_eq!(result, "new first\nline 2");
}

#[test]
fn test_apply_replacement_last_line() {
    let content = "line 1\nline 2";
    let replacement = "new last";
    let result = apply_replacement(content, replacement, (2, 2));
    assert_eq!(result, "line 1\nnew last");
}

#[test]
fn test_apply_replacement_with_trailing_newline() {
    let content = "line 1\nline 2\n";
    let replacement = "modified";
    let result = apply_replacement(content, replacement, (2, 2));
    assert_eq!(result, "line 1\nmodified\n");
}

#[test]
fn test_apply_replacement_entire_file() {
    let content = "line 1\nline 2";
    let replacement = "completely new";
    let result = apply_replacement(content, replacement, (1, 2));
    assert_eq!(result, "completely new");
}

#[test]
fn test_apply_replacement_empty_replacement() {
    let content = "line 1\nline 2\nline 3";
    let replacement = "";
    let result = apply_replacement(content, replacement, (2, 2));
    assert_eq!(result, "line 1\nline 3");
}

#[test]
fn test_generate_unified_diff_basic() {
    let original = "line 1\nline 2\nline 3";
    let modified = "line 1\nmodified line 2\nline 3";
    let result = generate_unified_diff("test.rs", original, modified, 3);

    assert!(result.diff.contains("--- a/test.rs"));
    assert!(result.diff.contains("+++ b/test.rs"));
    assert!(result.diff.contains("-line 2"));
    assert!(result.diff.contains("+modified line 2"));
    assert_eq!(result.lines_added, 1);
    assert_eq!(result.lines_removed, 1);
}

#[test]
fn test_generate_unified_diff_multiline_change() {
    let original = "fn main() {\n    let x = 1;\n    let y = 2;\n}";
    let modified = "fn main() {\n    let (x, y) = (1, 2);\n}";
    let result = generate_unified_diff("main.rs", original, modified, 3);

    assert!(result.diff.contains("--- a/main.rs"));
    assert!(result.diff.contains("+++ b/main.rs"));
    assert_eq!(result.lines_removed, 2);
    assert_eq!(result.lines_added, 1);
}

#[test]
fn test_generate_unified_diff_no_changes() {
    let content = "unchanged content";
    let result = generate_unified_diff("file.txt", content, content, 3);

    assert!(result.diff.is_empty() || !result.diff.contains("@@"));
    assert_eq!(result.lines_added, 0);
    assert_eq!(result.lines_removed, 0);
}

#[test]
fn test_generate_unified_diff_context_lines() {
    let original = "1\n2\n3\n4\n5\n6\n7\n8\n9\n10";
    let modified = "1\n2\n3\n4\nMODIFIED\n6\n7\n8\n9\n10";
    let result = generate_unified_diff("file.txt", original, modified, 2);

    assert!(result.diff.contains(" 3"));
    assert!(result.diff.contains(" 4"));
    assert!(result.diff.contains("-5"));
    assert!(result.diff.contains("+MODIFIED"));
    assert!(result.diff.contains(" 6"));
    assert!(result.diff.contains(" 7"));
}

#[test]
fn test_integration_apply_and_diff() {
    let original = "fn example() {\n    let x = 1;\n    x\n}";
    let replacement = "    let _x = 1;";
    let modified = apply_replacement(original, replacement, (2, 2));
    let diff_result = generate_unified_diff("example.rs", original, &modified, 3);

    assert!(diff_result.diff.contains("-    let x = 1;"));
    assert!(diff_result.diff.contains("+    let _x = 1;"));
    assert_eq!(diff_result.lines_added, 1);
    assert_eq!(diff_result.lines_removed, 1);
}

#[test]
fn diff_result_keeps_modified_content() {
    let result = generate_unified_diff("a.txt", "x\n", "y\n", 1);
    assert_eq!(result.modified_content, "y\n");
    assert!(result.diff.contains("-x"));
    assert!(result.diff.contains("+y"));
}
