use ursix::chunk::{chunk_diff_by_file, create_chunk, extract_file_path_from_diff_header, ChunkOptions};
use ursix::config::TokenizerMode;
use ursix::context::InputContext;

#[test]
fn test_chunk_options_default() {
    let options = ChunkOptions::default();
    assert_eq!(options.max_concurrency, 4);
    assert_eq!(options.token_limits.warn_threshold, 8000);
    assert_eq!(options.token_limits.error_threshold, 16000);
}

#[test]
fn test_create_chunk() {
    let context = InputContext::new("fn main() {}");
    let chunk = create_chunk(&context, TokenizerMode::Heuristic, Err("not loaded".to_string())).unwrap();

    assert_eq!(chunk.id, "input-0");
    assert_eq!(chunk.context.content(), "fn main() {}");
    assert!(chunk.token_count.count > 0);
}

#[test]
fn test_create_chunk_empty() {
    let context = InputContext::default();
    let chunk = create_chunk(&context, TokenizerMode::Heuristic, Err("not loaded".to_string())).unwrap();

    assert_eq!(chunk.token_count.count, 0);
}

#[test]
fn create_chunk_full_mode_reports_missing_tokenizer() {
    let context = InputContext::new("fn main() {}");
    let err = create_chunk(&context, TokenizerMode::Full, Err("offline".to_string())).unwrap_err();
    assert_eq!(err, "failed to load tokenizer: offline");
}

#[test]
fn test_chunk_diff_by_file_single_file() {
    let diff = r#"diff --git a/src/main.rs b/src/main.rs
index 1234567..abcdefg 100644
--- a/src/main.rs
+++ b/src/main.rs
@@ -1,3 +1,4 @@
 fn main() {
+    println!("hello");
 }
"#;
    let chunks = chunk_diff_by_file(diff);
    assert_eq!(chunks.len(), 1);
    assert_eq!(chunks.get(0).map(|c| &c.file_path), Some(&"src/main.rs".to_string()));
    assert!(chunks.get(0).map_or(false, |c| c.content.contains("diff --git")));
    assert!(chunks.get(0).map_or(false, |c| c.content.contains("println")));
}

#[test]
fn test_chunk_diff_by_file_multiple_files() {
    let diff = r#"diff --git a/src/main.rs b/src/main.rs
index 1234567..abcdefg 100644
--- a/src/main.rs
+++ b/src/main.rs
@@ -1,3 +1,4 @@
 fn main() {
+    println!("hello");
 }
diff --git a/src/lib.rs b/src/lib.rs
index 2222222..3333333 100644
--- a/src/lib.rs
+++ b/src/lib.rs
@@ -1 +1,2 @@
+pub mod utils;
 pub fn lib_fn() {}
"#;
    let chunks = chunk_diff_by_file(diff);
    assert_eq!(chunks.len(), 2);
    assert_eq!(chunks.get(0).map(|c| &c.file_path), Some(&"src/main.rs".to_string()));
    assert_eq!(chunks.get(1).map(|c| &c.file_path), Some(&"src/lib.rs".to_string()));
    assert!(chunks.get(0).map_or(false, |c| c.content.contains("println")));
    assert!(chunks.get(1).map_or(false, |c| c.content.contains("utils")));
}

#[test]
fn test_chunk_diff_by_file_empty_input() {
    let chunks = chunk_diff_by_file("");
    assert!(chunks.is_empty());
}

#[test]
fn test_chunk_diff_by_file_not_a_diff() {
    let content = "fn main() { println!(\"hello\"); }";
    let chunks = chunk_diff_by_file(content);
    assert!(chunks.is_empty());
}

#[test]
fn test_chunk_diff_by_file_new_file() {
    let diff = "diff --git a/new_file.rs b/new_file.rs
new file mode 100644
index 0000000..1234567
--- /dev/null
+++ b/new_file.rs
@@ -0,0 +1,3 @@
+fn new() {
+    todo!()
+}
";
    let chunks = chunk_diff_by_file(diff);
    assert_eq!(chunks.len(), 1);
    assert_eq!(chunks.get(0).map(|c| &c.file_path), Some(&"new_file.rs".to_string()));
}

#[test]
fn test_chunk_diff_by_file_deleted_file() {
    let diff = "diff --git a/old_file.rs b/old_file.rs
deleted file mode 100644
index 1234567..0000000
--- a/old_file.rs
+++ /dev/null
@@ -1,3 +0,0 @@
-fn old() {
-    todo!()
-}
";
    let chunks = chunk_diff_by_file(diff);
    assert_eq!(chunks.len(), 1);
    assert_eq!(chunks.get(0).map(|c| &c.file_path), Some(&"old_file.rs".to_string()));
}

#[test]
fn test_extract_file_path_from_diff_header() {
    assert_eq!(
        extract_file_path_from_diff_header("diff --git a/src/main.rs b/src/main.rs"),
        Some("src/main.rs".to_string())
    );
    assert_eq!(
        extract_file_path_from_diff_header("diff --git a/old.rs b/new.rs"),
        Some("new.rs".to_string())
    );
    assert_eq!(extract_file_path_from_diff_header("not a diff header"), None);
    assert_eq!(extract_file_path_from_diff_header("--- a/file.rs"), None);
    assert_eq!(extract_file_path_from_diff_header("diff --git a/file.rs file.rs"), None);
}
