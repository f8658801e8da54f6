//! Output of an explanation.

use vstd::prelude::*;
use super::{CommandOutput, ExitCode, ExitStatus};

verus! {

/// Result from an explanation.
#[derive(Debug)]
pub struct ExplainResult {
    /// The explanation of the code or concept
    pub explanation: String,
}

impl CommandOutput for ExplainResult {
    /// The explanation itself.
    fn render_human(&self) -> (r: String)
        ensures
            r@ == self.explanation@,
    {
        self.explanation.clone()
    }
}

impl ExitStatus for ExplainResult {
    /// Always success.
    fn exit_code(&self) -> (r: ExitCode)
        ensures
            r == ExitCode::Success,
    {
        ExitCode::Success
    }
}

} // verus!
