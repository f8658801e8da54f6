use ursix::commands::commit::{
    check_staged_changes, commit_chunk_warning, commit_user_request, git_commit_outcome, CommitOptions, MessageFormat,
    PostAction,
};
use ursix::error::CliError;

#[test]
fn message_format_flags() {
    assert_eq!(MessageFormat::from_body_flag(true), MessageFormat::WithBody);
    assert_eq!(MessageFormat::from_body_flag(false), MessageFormat::SubjectOnly);
    assert!(MessageFormat::WithBody.includes_body());
    assert!(!MessageFormat::SubjectOnly.includes_body());
    assert_eq!(PostAction::from_execute_flag(true), PostAction::Execute);
    assert_eq!(PostAction::from_execute_flag(false), PostAction::PrintOnly);
}

#[test]
fn commit_request_text() {
    assert_eq!(
        commit_user_request("conventional", MessageFormat::WithBody),
        "Generate a conventional commit message with a detailed body explaining the changes."
    );
    assert_eq!(commit_user_request("simple", MessageFormat::SubjectOnly), "Generate a simple commit message.");
}

#[test]
fn staged_changes_required() {
    assert!(check_staged_changes(Some("diff --git a/x b/x")).is_ok());
    assert!(check_staged_changes(None).is_ok());
    match check_staged_changes(Some("  \n")) {
        Err(CliError::Git(m)) => assert_eq!(m, "no staged changes to commit"),
        _ => panic!("expected git error"),
    }
}

#[test]
fn git_commit_result() {
    assert_eq!(git_commit_outcome(true, "done".to_string(), "").unwrap(), "done");
    match git_commit_outcome(false, String::new(), "  nothing to commit \n") {
        Err(CliError::Git(m)) => assert_eq!(m, "git commit failed: nothing to commit"),
        _ => panic!("expected git error"),
    }
}

#[test]
fn chunk_warning() {
    let options = CommitOptions { format: MessageFormat::SubjectOnly, post_action: PostAction::PrintOnly, chunk_mode: true, dry_run: false };
    assert_eq!(
        commit_chunk_warning(&options),
        Some("warning: --chunk is not supported for commit (requires full context)".to_string())
    );
    let quiet = CommitOptions { chunk_mode: false, ..options };
    assert_eq!(commit_chunk_warning(&quiet), None);
}
