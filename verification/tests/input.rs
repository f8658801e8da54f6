use ursix::input::{accept_input, is_diff_format};

#[test]
fn test_is_diff_format_git_diff() {
    let content = r#"diff --git a/src/main.rs b/src/main.rs
index 1234567..abcdefg 100644
--- a/src/main.rs
+++ b/src/main.rs
@@ -1,3 +1,4 @@
 fn main() {
+    println!("hello");
 }
"#;
    assert!(is_diff_format(content));
}

#[test]
fn test_is_diff_format_unified_diff() {
    let content = "--- a/file.txt
+++ b/file.txt
@@ -1,3 +1,4 @@
 line1
+new line
 line2
";
    assert!(is_diff_format(content));
}

#[test]
fn test_is_diff_format_dev_null() {
    let content = "diff --git a/new_file.rs b/new_file.rs
new file mode 100644
--- /dev/null
+++ b/new_file.rs
@@ -0,0 +1,3 @@
+fn new() {}
";
    assert!(is_diff_format(content));
}

#[test]
fn test_is_diff_format_not_diff_rust_code() {
    let content = r#"fn main() {
    println!("Hello, world!");
}
"#;
    assert!(!is_diff_format(content));
}

#[test]
fn test_is_diff_format_not_diff_text() {
    let content = "This is just some plain text content.";
    assert!(!is_diff_format(content));
}

#[test]
fn test_is_diff_format_partial_markers_only_minus() {
    let content = "--- a/file.txt\nsome content";
    assert!(!is_diff_format(content));
}

#[test]
fn test_is_diff_format_partial_markers_only_plus() {
    let content = "+++ b/file.txt\nsome content";
    assert!(!is_diff_format(content));
}

#[test]
fn test_read_input_empty_file() {
    let result = accept_input(String::new());
    assert!(result.is_err());
    assert!(result.unwrap_err().contains("input is empty"));
}

#[test]
fn test_read_input_whitespace_only() {
    let result = accept_input("   \n\t  ".to_string());
    assert!(result.is_err());
    assert!(result.unwrap_err().contains("input is empty"));
}

#[test]
fn accepted_input_is_unchanged() {
    assert_eq!(accept_input("test content".to_string()).unwrap(), "test content");
}
