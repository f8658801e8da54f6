//! The `commit` command: a commit message for the staged changes, and
//! optionally the commit itself.
use vstd::prelude::*;

use crate::error::CliError;
use crate::text::{chars_of, push_str, string_from_chars, copy_range, trim, trim_bounds, to_owned_string};

verus! {

/// Commit message format.
#[derive(Debug, Clone, Copy, PartialEq, Eq, Structural)]
pub enum MessageFormat {
    /// Subject line only
    SubjectOnly,
    /// Subject with a detailed body
    WithBody,
}

impl MessageFormat {
    /// The format the `--body` flag selects.
    pub fn from_body_flag(body: bool) -> (r: Self)
        ensures
            r == (if body { MessageFormat::WithBody } else { MessageFormat::SubjectOnly }),
    {
        if body {
            MessageFormat::WithBody
        } else {
            MessageFormat::SubjectOnly
        }
    }

    /// Whether to include a detailed body.
    pub fn includes_body(self) -> (r: bool)
        ensures
            r == (self == MessageFormat::WithBody),
    {
        match self {
            MessageFormat::WithBody => true,
            MessageFormat::SubjectOnly => false,
        }
    }
}

/// What to do after generating the commit message.
#[derive(Debug, Clone, Copy, PartialEq, Eq, Structural)]
pub enum PostAction {
    /// Just print the message
    PrintOnly,
    /// Run `git commit` with the message
    Execute,
}

impl PostAction {
    /// The action the `--execute` flag selects.
    pub fn from_execute_flag(execute: bool) -> (r: Self)
        ensures
            r == (if execute { PostAction::Execute } else { PostAction::PrintOnly }),
    {
        if execute {
            PostAction::Execute
        } else {
            PostAction::PrintOnly
        }
    }
}

/// Options for the commit command.
#[derive(Debug, Clone, Copy)]
pub struct CommitOptions {
    /// Commit message format
    pub format: MessageFormat,
    /// Action after generating the message
    pub post_action: PostAction,
    /// Chunked processing was asked for (not supported: only a warning)
    pub chunk_mode: bool,
    /// Show the plan without calling the model
    pub dry_run: bool,
}

/// The warning for `--chunk`, when it was given.
pub open spec fn chunk_warning(chunk_mode: bool) -> Option<Seq<char>> {
    if chunk_mode {
        Some("warning: --chunk is not supported for commit (requires full context)"@)
    } else {
        None
    }
}

/// The warning to print for the options, if any: `--chunk` is not supported.
pub fn commit_chunk_warning(options: &CommitOptions) -> (r: Option<String>)
    ensures
        match r {
            Some(w) => chunk_warning(options.chunk_mode) == Some(w@),
            None => chunk_warning(options.chunk_mode) is None,
        },
{
    if options.chunk_mode {
        Some(to_owned_string("warning: --chunk is not supported for commit (requires full context)"))
    } else {
        None
    }
}

/// The request to the model for a commit message in a style.
pub open spec fn commit_request(style: Seq<char>, format: MessageFormat) -> Seq<char> {
    "Generate a "@ + style + " commit message"@ + (if format == MessageFormat::WithBody {
        " with a detailed body explaining the changes"@
    } else {
        Seq::empty()
    }) + "."@
}

/// Builds the request to the model.
pub fn commit_user_request(style: &str, format: MessageFormat) -> (r: String)
    ensures
        r@ == commit_request(style@, format),
{
    let mut r = to_owned_string("Generate a ");
    push_str(&mut r, style);
    push_str(&mut r, " commit message");
    let ghost before = r@;
    if format.includes_body() {
        push_str(&mut r, " with a detailed body explaining the changes");
    } else {
        assert(before + Seq::<char>::empty() =~= before);
    }
    push_str(&mut r, ".");
    r
}

/// Checks the gathered diff: a diff that is only white space means nothing
/// is staged. (No diff at all, or piped input, passes.)
pub fn check_staged_changes(git_diff: Option<&str>) -> (r: Result<(), CliError>)
    ensures
        match git_diff {
            Some(d) => if trim(d@).len() == 0 {
                r matches Err(CliError::Git(m)) && m@ == "no staged changes to commit"@
            } else {
                r is Ok
            },
            None => r is Ok,
        },
{
    match git_diff {
        Some(d) => {
            let v = chars_of(d);
            let (a, b) = trim_bounds(&v);
            if a == b {
                Err(CliError::Git(to_owned_string("no staged changes to commit")))
            } else {
                Ok(())
            }
        },
        None => Ok(()),
    }
}

/// What `git commit` left: its output on success, else an error with its
/// trimmed error output.
pub fn git_commit_outcome(success: bool, stdout: String, stderr: &str) -> (r: Result<String, CliError>)
    ensures
        success ==> r == Ok::<String, CliError>(stdout),
        !success ==> (r matches Err(CliError::Git(m)) && m@ == "git commit failed: "@ + trim(stderr@)),
{
    if success {
        Ok(stdout)
    } else {
        let v = chars_of(stderr);
        let (a, b) = trim_bounds(&v);
        let trimmed = string_from_chars(&copy_range(&v, a, b));
        let mut m = to_owned_string("git commit failed: ");
        push_str(&mut m, trimmed.as_str());
        Err(CliError::Git(m))
    }
}

} // verus!
