//! Output of the fix command: a diff, or a structured error. Atomic mode
//! fixes one issue; whole-file mode several in one file.

use vstd::prelude::*;
use super::{CommandOutput, ExitCode, ExitStatus};
use crate::text::{decimal, push_decimal, push_decimal_wide, push_str, string_views, to_owned_string};

verus! {

/// Successful result from the fix command.
#[derive(Debug)]
pub struct FixResult {
    /// Unified diff string
    pub diff: String,
    /// Path to the file being fixed
    pub file: String,
    /// Line range that was fixed (start, end)
    pub lines: (usize, usize),
    /// Number of lines added
    pub lines_added: usize,
    /// Number of lines removed
    pub lines_removed: usize,
    /// Warnings from validation (non-blocking)
    pub warnings: Vec<String>,
}

/// Error codes for the fix command.
#[derive(Debug, Clone, Copy, PartialEq, Eq, Structural)]
pub enum FixErrorCode {
    /// Input validation failed (bad JSON, missing fields, etc.)
    InputValidation,
    /// Model call failed (network, rate limit, etc.)
    LlmError,
    /// Output validation failed (bad model response)
    OutputValidation,
}

/// The exit code of a fix error code.
pub open spec fn fix_exit_code(c: FixErrorCode) -> ExitCode {
    match c {
        FixErrorCode::InputValidation => ExitCode::UserError,
        FixErrorCode::LlmError => ExitCode::TransientError,
        FixErrorCode::OutputValidation => ExitCode::PermanentError,
    }
}

impl FixErrorCode {
    /// The exit code for this error: the user's input, a transient model
    /// failure, or a permanent one.
    pub fn to_exit_code(self) -> (r: ExitCode)
        ensures
            r == fix_exit_code(self),
    {
        match self {
            FixErrorCode::InputValidation => ExitCode::UserError,
            FixErrorCode::LlmError => ExitCode::TransientError,
            FixErrorCode::OutputValidation => ExitCode::PermanentError,
        }
    }
}

/// Error result from the fix command.
#[derive(Debug)]
pub struct FixError {
    /// Human-readable error message
    pub message: String,
    /// Error code for programmatic handling
    pub code: FixErrorCode,
    /// Raw model output (only with --partial)
    pub raw_output: Option<String>,
    /// Validation warnings encountered
    pub warnings: Vec<String>,
}

impl FixError {
    /// An input validation error.
    pub fn input_validation(message: &str) -> (r: Self)
        ensures
            r.message@ == message@,
            r.code == FixErrorCode::InputValidation,
            r.raw_output is None,
            r.warnings@.len() == 0,
    {
        FixError { message: to_owned_string(message), code: FixErrorCode::InputValidation, raw_output: None, warnings: Vec::new() }
    }

    /// A model call error.
    pub fn llm_error(message: &str) -> (r: Self)
        ensures
            r.message@ == message@,
            r.code == FixErrorCode::LlmError,
            r.raw_output is None,
            r.warnings@.len() == 0,
    {
        FixError { message: to_owned_string(message), code: FixErrorCode::LlmError, raw_output: None, warnings: Vec::new() }
    }

    /// An output validation error.
    pub fn output_validation(message: &str) -> (r: Self)
        ensures
            r.message@ == message@,
            r.code == FixErrorCode::OutputValidation,
            r.raw_output is None,
            r.warnings@.len() == 0,
    {
        FixError { message: to_owned_string(message), code: FixErrorCode::OutputValidation, raw_output: None, warnings: Vec::new() }
    }

    /// Add the raw model output (for --partial).
    pub fn with_raw_output(self, output: &str) -> (r: Self)
        ensures
            r.raw_output matches Some(o) && o@ == output@,
            r.message == self.message,
            r.code == self.code,
            r.warnings == self.warnings,
    {
        let mut r = self;
        r.raw_output = Some(to_owned_string(output));
        r
    }

    /// Add validation warnings.
    pub fn with_warnings(self, warnings: Vec<String>) -> (r: Self)
        ensures
            r.warnings == warnings,
            r.message == self.message,
            r.code == self.code,
            r.raw_output == self.raw_output,
    {
        let mut r = self;
        r.warnings = warnings;
        r
    }
}

/// Lines `warning: {w}`, one per warning.
pub open spec fn warning_lines(ws: Seq<Seq<char>>) -> Seq<char>
    decreases ws.len(),
{
    if ws.len() == 0 { seq![] } else { warning_lines(ws.drop_last()) + "warning: "@ + ws.last() + "\n"@ }
}

fn push_warning_lines(o: &mut String, ws: &Vec<String>)
    ensures
        final(o)@ == old(o)@ + warning_lines(string_views(ws@)),
{
    let mut i: usize = 0;
    while i < ws.len()
        invariant
            i <= ws@.len(),
            o@ == old(o)@ + warning_lines(string_views(ws@).take(i as int)),
        decreases ws@.len() - i,
    {
        push_str(o, "warning: ");
        push_str(o, ws[i].as_str());
        push_str(o, "\n");
        assert(string_views(ws@).take(i + 1).drop_last() =~= string_views(ws@).take(i as int));
        i += 1;
    }
    assert(string_views(ws@).take(ws@.len() as int) =~= string_views(ws@));
}

/// The human-readable fix result: the file and lines, the counts, the
/// warnings, then the diff.
pub open spec fn fix_result_text(r: FixResult) -> Seq<char> {
    "Fixed "@ + r.file@ + " (lines "@ + decimal(r.lines.0 as nat) + ".."@ + decimal(r.lines.1 as nat) + ")\n+"@
        + decimal(r.lines_added as nat) + " -"@ + decimal(r.lines_removed as nat) + " lines\n\n"@
        + warning_lines(string_views(r.warnings@)) + (if r.warnings@.len() > 0 { "\n"@ } else { seq![] }) + r.diff@
}

impl CommandOutput for FixResult {
    /// File and lines, counts, warnings, diff.
    fn render_human(&self) -> (r: String)
        ensures
            r@ == fix_result_text(*self),
    {
        let mut o = to_owned_string("Fixed ");
        push_str(&mut o, self.file.as_str());
        push_str(&mut o, " (lines ");
        push_decimal(&mut o, self.lines.0 as u64);
        push_str(&mut o, "..");
        push_decimal(&mut o, self.lines.1 as u64);
        push_str(&mut o, ")\n+");
        push_decimal(&mut o, self.lines_added as u64);
        push_str(&mut o, " -");
        push_decimal(&mut o, self.lines_removed as u64);
        push_str(&mut o, " lines\n\n");
        push_warning_lines(&mut o, &self.warnings);
        if self.warnings.len() > 0 {
            push_str(&mut o, "\n");
        }
        push_str(&mut o, self.diff.as_str());
        assert(o@ =~= fix_result_text(*self));
        o
    }
}

impl ExitStatus for FixResult {
    /// Always success.
    fn exit_code(&self) -> (r: ExitCode)
        ensures
            r == ExitCode::Success,
    {
        ExitCode::Success
    }
}

/// The human-readable fix error: the message, the warnings, and the raw
/// output when there is one.
pub open spec fn fix_error_text(e: FixError) -> Seq<char> {
    "error: "@ + e.message@ + "\n"@ + warning_lines(string_views(e.warnings@)) + match e.raw_output {
        Some(raw) => "\nraw output:\n"@ + raw@ + "\n"@,
        None => seq![],
    }
}

impl CommandOutput for FixError {
    /// Message, warnings, raw output.
    fn render_human(&self) -> (r: String)
        ensures
            r@ == fix_error_text(*self),
    {
        let mut o = to_owned_string("error: ");
        push_str(&mut o, self.message.as_str());
        push_str(&mut o, "\n");
        push_warning_lines(&mut o, &self.warnings);
        if let Some(raw) = &self.raw_output {
            push_str(&mut o, "\nraw output:\n");
            push_str(&mut o, raw.as_str());
            push_str(&mut o, "\n");
        }
        assert(o@ =~= fix_error_text(*self));
        o
    }
}

impl ExitStatus for FixError {
    /// The exit code of the error code.
    fn exit_code(&self) -> (r: ExitCode)
        ensures
            r == fix_exit_code(self.code),
    {
        self.code.to_exit_code()
    }
}

/// A failed issue in whole-file mode.
#[derive(Debug)]
pub struct IssueFailure {
    /// The issue description that failed
    pub issue: String,
    /// Line range that was being fixed
    pub lines: (usize, usize),
    /// Error message
    pub error: String,
}

/// Result of whole-file fix mode.
#[derive(Debug)]
pub struct WholeFileFixResult {
    /// Combined unified diff for all fixes
    pub diff: String,
    /// Path to the file that was fixed
    pub file: String,
    /// Number of issues successfully fixed
    pub issues_fixed: usize,
    /// Number of issues that failed
    pub issues_failed: usize,
    /// Total lines added across all fixes
    pub lines_added: usize,
    /// Total lines removed across all fixes
    pub lines_removed: usize,
    /// Details of failed issues (only with --partial)
    pub issue_failures: Vec<IssueFailure>,
}

/// Lines describing failed issues.
pub open spec fn failure_lines(v: Seq<IssueFailure>) -> Seq<char>
    decreases v.len(),
{
    if v.len() == 0 {
        seq![]
    } else {
        let f = v.last();
        failure_lines(v.drop_last()) + "failed: lines "@ + decimal(f.lines.0 as nat) + ".."@ + decimal(f.lines.1 as nat) + ": "@
            + f.issue@ + " - "@ + f.error@ + "\n"@
    }
}

/// The human-readable whole-file result: fixed of all issues, the counts,
/// the failures, then the diff.
pub open spec fn whole_file_text(r: WholeFileFixResult) -> Seq<char> {
    "Fixed "@ + decimal(r.issues_fixed as nat) + "/"@ + decimal((r.issues_fixed + r.issues_failed) as nat) + " issues in "@
        + r.file@ + "\n+"@ + decimal(r.lines_added as nat) + " -"@ + decimal(r.lines_removed as nat) + " lines\n\n"@
        + failure_lines(r.issue_failures@) + (if r.issue_failures@.len() > 0 { "\n"@ } else { seq![] }) + r.diff@
}

impl CommandOutput for WholeFileFixResult {
    /// Fixed of all issues, counts, failures, diff.
    fn render_human(&self) -> (r: String)
        ensures
            r@ == whole_file_text(*self),
    {
        let mut o = to_owned_string("Fixed ");
        push_decimal(&mut o, self.issues_fixed as u64);
        push_str(&mut o, "/");
        push_decimal_wide(&mut o, self.issues_fixed as u128 + self.issues_failed as u128);
        push_str(&mut o, " issues in ");
        push_str(&mut o, self.file.as_str());
        push_str(&mut o, "\n+");
        push_decimal(&mut o, self.lines_added as u64);
        push_str(&mut o, " -");
        push_decimal(&mut o, self.lines_removed as u64);
        push_str(&mut o, " lines\n\n");
        let ghost start = o@;
        let mut i: usize = 0;
        while i < self.issue_failures.len()
            invariant
                i <= self.issue_failures@.len(),
                o@ == start + failure_lines(self.issue_failures@.take(i as int)),
            decreases self.issue_failures@.len() - i,
        {
            let f = &self.issue_failures[i];
            push_str(&mut o, "failed: lines ");
            push_decimal(&mut o, f.lines.0 as u64);
            push_str(&mut o, "..");
            push_decimal(&mut o, f.lines.1 as u64);
            push_str(&mut o, ": ");
            push_str(&mut o, f.issue.as_str());
            push_str(&mut o, " - ");
            push_str(&mut o, f.error.as_str());
            push_str(&mut o, "\n");
            assert(self.issue_failures@.take(i + 1).drop_last() =~= self.issue_failures@.take(i as int));
            i += 1;
        }
        assert(self.issue_failures@.take(self.issue_failures@.len() as int) =~= self.issue_failures@);
        if self.issue_failures.len() > 0 {
            push_str(&mut o, "\n");
        }
        push_str(&mut o, self.diff.as_str());
        assert(o@ =~= whole_file_text(*self));
        o
    }
}

impl ExitStatus for WholeFileFixResult {
    /// A permanent error when issues failed and none was fixed; else
    /// success.
    fn exit_code(&self) -> (r: ExitCode)
        ensures
            r == if self.issues_failed > 0 && self.issues_fixed == 0 { ExitCode::PermanentError } else { ExitCode::Success },
    {
        if self.issues_failed > 0 && self.issues_fixed == 0 {
            ExitCode::PermanentError
        } else {
            ExitCode::Success
        }
    }
}

} // verus!
