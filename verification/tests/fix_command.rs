use ursix::cli::FixMode;
use ursix::commands::fix::input::{FileRead, FixInput, IssueSpec, WholeFileInput};
use ursix::commands::fix::validation::ValidationError;
use ursix::commands::fix::{
    build_fix_user_request, extract_surrounding_context, fix_dry_run_text, fix_step, language_from_path,
    retry_context, single_issue_result, whole_file_dry_run_text, FixOptions, FixStep, WholeFileProgress,
};
use ursix::output::fix::FixErrorCode;
use ursix::output::ExitCode;

#[test]
fn test_build_fix_user_request_includes_file_and_language() {
    let request = build_fix_user_request(
        "src/main.rs",
        "fn main() {\n    let x = 1;\n    println!(\"{}\", x);\n}",
        "    let x = 1;",
        "unused variable",
        (2, 2),
        None,
    );
    assert!(request.contains("File: src/main.rs"));
    assert!(request.contains("Issue: unused variable"));
    assert!(request.contains("```rust"));
    assert!(request.contains("let x = 1;"));
    assert!(request.contains("fn main()"));
}

#[test]
fn test_build_fix_user_request_with_retry_context() {
    let request = build_fix_user_request("test.rs", "code", "code", "test issue", (1, 1), Some("Previous attempt failed"));
    assert!(request.contains("Previous attempt failed"));
    assert!(request.contains("File: test.rs"));
}

#[test]
fn test_language_from_path() {
    assert_eq!(language_from_path("src/main.rs"), "rust");
    assert_eq!(language_from_path("app.py"), "python");
    assert_eq!(language_from_path("index.js"), "javascript");
    assert_eq!(language_from_path("config.toml"), "toml");
    assert_eq!(language_from_path("unknown.xyz"), "");
}

#[test]
fn test_extract_surrounding_context_includes_window() {
    let content = "line 1\nline 2\nline 3\nline 4\nline 5";
    let ctx = extract_surrounding_context(content, (3, 3), 1);
    assert!(ctx.contains("line 2"));
    assert!(ctx.contains("line 3"));
    assert!(ctx.contains("line 4"));
    assert!(ctx.contains("   2| "));
    assert!(ctx.contains("   3| "));
    assert!(ctx.contains("   4| "));
}

#[test]
fn test_extract_surrounding_context_clamps_to_bounds() {
    let content = "line 1\nline 2\nline 3";
    let ctx = extract_surrounding_context(content, (1, 1), 10);
    assert!(ctx.contains("line 1"));
    assert!(ctx.contains("line 2"));
    assert!(ctx.contains("line 3"));
}

fn options(retry: bool, partial: bool) -> FixOptions {
    FixOptions { mode: FixMode::Atomic, context_lines: 3, retry, partial, dry_run: false }
}

fn validated() -> ursix::commands::fix::input::ValidatedFixInput {
    FixInput { issue: "unused variable".to_string(), file: "a.rs".to_string(), lines: (2, 2) }
        .validate("/w/a.rs".to_string(), FileRead::Content("fn main() {\n    let x = 1;\n}\n".to_string()))
        .unwrap()
}

#[test]
fn fix_step_builds_diff() {
    let v = validated();
    match fix_step(&v, "a.rs", "```rust\n    let _x = 1;\n```", &options(false, false), false) {
        FixStep::Done(result) => {
            assert_eq!(result.file, "a.rs");
            assert_eq!(result.lines, (2, 2));
            assert_eq!(result.lines_added, 1);
            assert_eq!(result.lines_removed, 1);
            assert!(result.diff.contains("-    let x = 1;"));
            assert!(result.diff.contains("+    let _x = 1;"));
            assert!(result.warnings.is_empty());
        }
        FixStep::Refused { .. } => panic!("expected a fix"),
    }
}

#[test]
fn fix_step_refuses_long_answer_and_decides_retry() {
    let v = validated();
    let long = "x".repeat(500);
    match fix_step(&v, "a.rs", &long, &options(true, true), false) {
        FixStep::Refused { error, retry, raw_output } => {
            assert!(matches!(error, ValidationError::LengthExceeded { .. }));
            assert!(retry);
            assert!(raw_output.is_none());
        }
        FixStep::Done(_) => panic!("expected refusal"),
    }
    match fix_step(&v, "a.rs", &long, &options(true, true), true) {
        FixStep::Refused { retry, raw_output, .. } => {
            assert!(!retry);
            assert_eq!(raw_output, Some(long.clone()));
        }
        FixStep::Done(_) => panic!("expected refusal"),
    }
    match fix_step(&v, "a.rs", &long, &options(false, false), false) {
        FixStep::Refused { retry, raw_output, .. } => {
            assert!(!retry);
            assert!(raw_output.is_none());
        }
        FixStep::Done(_) => panic!("expected refusal"),
    }
}

#[test]
fn retry_context_text() {
    assert_eq!(retry_context("too long"), "Previous attempt failed: too long. Please fix the issue.");
}

#[test]
fn whole_file_flow() {
    let content = "a\nb\nc\nd\n";
    let input = WholeFileInput {
        file: "f.txt".to_string(),
        issues: vec![
            IssueSpec { issue: "fix a".to_string(), lines: (1, 1) },
            IssueSpec { issue: "fix c".to_string(), lines: (3, 3) },
        ],
    };
    let v = input.validate("f.txt".to_string(), FileRead::Content(content.to_string())).unwrap();
    let mut progress = WholeFileProgress::start(&v.file_content);
    let first = &v.issues[0];
    assert_eq!(first.lines, (3, 3));
    let out = single_issue_result(first, &progress.content, "C1\nC2").map_err(|_| "refused".to_string());
    assert!(progress.record(first, out, false).is_none());
    assert_eq!(progress.content, "a\nb\nC1\nC2\nd\n");
    assert_eq!(progress.lines_added, 1);
    let second = &v.issues[1];
    assert!(progress.record(second, Err("LLM call failed: down".to_string()), true).is_none());
    assert_eq!(progress.failures.len(), 1);
    let (result, code) = progress.finish(&v.file_content, "f.txt", 3);
    assert_eq!(result.issues_fixed, 1);
    assert_eq!(result.issues_failed, 1);
    assert_eq!(code, ExitCode::Success);
    assert!(result.diff.contains("+C1"));
}

#[test]
fn whole_file_fail_fast_names_lines() {
    let v = WholeFileInput { file: "f.txt".to_string(), issues: vec![IssueSpec { issue: "i".to_string(), lines: (2, 3) }] }
        .validate("f.txt".to_string(), FileRead::Content("a\nb\nc\n".to_string()))
        .unwrap();
    let mut progress = WholeFileProgress::start(&v.file_content);
    let err = progress.record(&v.issues[0], Err("validation failed: x".to_string()), false).unwrap();
    assert_eq!(err.code, FixErrorCode::OutputValidation);
    assert_eq!(err.message, "failed to fix issue at lines 2..3: validation failed: x");
    let (result, code) = progress.finish(&v.file_content, "f.txt", 3);
    assert_eq!(result.issues_fixed, 0);
    assert_eq!(code, ExitCode::Success);
}

#[test]
fn whole_file_all_failed_is_permanent_error() {
    let v = WholeFileInput { file: "f.txt".to_string(), issues: vec![IssueSpec { issue: "i".to_string(), lines: (1, 1) }] }
        .validate("f.txt".to_string(), FileRead::Content("a\n".to_string()))
        .unwrap();
    let mut progress = WholeFileProgress::start(&v.file_content);
    assert!(progress.record(&v.issues[0], Err("boom".to_string()), true).is_none());
    let (_, code) = progress.finish(&v.file_content, "f.txt", 3);
    assert_eq!(code, ExitCode::PermanentError);
}

#[test]
fn dry_run_texts() {
    let v = validated();
    assert_eq!(
        fix_dry_run_text(&v),
        vec![
            "Dry run: would fix a.rs at lines (2, 2)".to_string(),
            "Issue: unused variable".to_string(),
            "Snippet length: 14 chars".to_string(),
        ]
    );
    let w = WholeFileInput {
        file: "f.txt".to_string(),
        issues: vec![IssueSpec { issue: "one".to_string(), lines: (1, 1) }, IssueSpec { issue: "two".to_string(), lines: (2, 2) }],
    }
    .validate("dir/f.txt".to_string(), FileRead::Content("ab\ncde\n".to_string()))
    .unwrap();
    assert_eq!(
        whole_file_dry_run_text(&w),
        vec![
            "Dry run: would fix 2 issues in f.txt".to_string(),
            "  1. lines (2, 2): two (3 chars)".to_string(),
            "  2. lines (1, 1): one (2 chars)".to_string(),
        ]
    );
}
