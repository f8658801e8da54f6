//! Output of a plain text answer.

use vstd::prelude::*;
use super::{CommandOutput, ExitCode, ExitStatus};

verus! {

/// Result from a plain text response.
#[derive(Debug)]
pub struct AskResult {
    /// The model's response
    pub response: String,
    /// Number of model calls made
    pub turns: usize,
}

impl CommandOutput for AskResult {
    /// The response itself.
    fn render_human(&self) -> (r: String)
        ensures
            r@ == self.response@,
    {
        self.response.clone()
    }
}

impl ExitStatus for AskResult {
    /// Always success.
    fn exit_code(&self) -> (r: ExitCode)
        ensures
            r == ExitCode::Success,
    {
        ExitCode::Success
    }
}

} // verus!
