//! Output of the derive command.

use vstd::prelude::*;
use super::{CommandOutput, ExitCode, ExitStatus};

verus! {

/// Result from the derive command, by derive type.
#[derive(Debug)]
pub enum DeriveResult {
    /// Result for commit-msg derive type
    CommitMsg {
        /// The full commit message (title + body)
        message: String,
        /// Commit title (first line, under 50 chars)
        title: String,
        /// Optional commit body
        body: Option<String>,
    },
    /// Result for explanation derive type
    Explanation {
        /// The explanation of the code
        explanation: String,
    },
    /// Result for summary derive type
    Summary {
        /// The summary of the content
        summary: String,
    },
}

/// The text a derive result shows: the message, explanation or summary.
pub open spec fn derive_text(r: DeriveResult) -> Seq<char> {
    match r {
        DeriveResult::CommitMsg { message, .. } => message@,
        DeriveResult::Explanation { explanation } => explanation@,
        DeriveResult::Summary { summary } => summary@,
    }
}

impl CommandOutput for DeriveResult {
    /// The message, explanation or summary.
    fn render_human(&self) -> (r: String)
        ensures
            r@ == derive_text(*self),
    {
        match self {
            DeriveResult::CommitMsg { message, .. } => message.clone(),
            DeriveResult::Explanation { explanation } => explanation.clone(),
            DeriveResult::Summary { summary } => summary.clone(),
        }
    }
}

impl ExitStatus for DeriveResult {
    /// Always success.
    fn exit_code(&self) -> (r: ExitCode)
        ensures
            r == ExitCode::Success,
    {
        ExitCode::Success
    }
}

} // verus!
