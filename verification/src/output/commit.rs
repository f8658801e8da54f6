//! Output of a generated commit message.

use vstd::prelude::*;
use super::{CommandOutput, ExitCode, ExitStatus};

verus! {

/// Result from commit message generation.
#[derive(Debug)]
pub struct CommitResult {
    /// The generated commit message
    pub message: String,
    /// Commit title (first line)
    pub title: String,
    /// Commit body (remaining lines)
    pub body: Option<String>,
}

impl CommandOutput for CommitResult {
    /// The whole message.
    fn render_human(&self) -> (r: String)
        ensures
            r@ == self.message@,
    {
        self.message.clone()
    }
}

impl ExitStatus for CommitResult {
    /// Always success.
    fn exit_code(&self) -> (r: ExitCode)
        ensures
            r == ExitCode::Success,
    {
        ExitCode::Success
    }
}

} // verus!
