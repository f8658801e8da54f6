//! Plain result types of single-call commands, with a three-way exit code:
//! success, issues found, or error.

use vstd::prelude::*;
use crate::text::{decimal, join, push_decimal, push_str, string_views, to_owned_string, join_strings};

verus! {

/// Exit codes: 0 for success, 1 for issues found, 2 for errors.
#[derive(Debug, Clone, Copy, PartialEq, Eq, Structural)]
pub enum ExitCode {
    /// Command completed successfully with no issues
    Success,
    /// Command completed but found issues
    IssuesFound,
    /// Command failed due to an error
    Error,
}

/// Numeric value of an exit code.
pub open spec fn code_value(c: ExitCode) -> u8 {
    match c {
        ExitCode::Success => 0,
        ExitCode::IssuesFound => 1,
        ExitCode::Error => 2,
    }
}

impl From<ExitCode> for u8 {
    fn from(code: ExitCode) -> (r: u8) {
        match code {
            ExitCode::Success => 0,
            ExitCode::IssuesFound => 1,
            ExitCode::Error => 2,
        }
    }
}

impl vstd::std_specs::convert::FromSpecImpl<ExitCode> for u8 {
    open spec fn obeys_from_spec() -> bool {
        true
    }

    open spec fn from_spec(code: ExitCode) -> u8 {
        code_value(code)
    }
}

impl From<ExitCode> for i32 {
    fn from(code: ExitCode) -> (r: i32) {
        match code {
            ExitCode::Success => 0,
            ExitCode::IssuesFound => 1,
            ExitCode::Error => 2,
        }
    }
}

impl vstd::std_specs::convert::FromSpecImpl<ExitCode> for i32 {
    open spec fn obeys_from_spec() -> bool {
        true
    }

    open spec fn from_spec(code: ExitCode) -> i32 {
        code_value(code) as i32
    }
}

/// Types that report an exit status.
pub trait ExitStatus {
    /// Returns the exit code for this result.
    fn exit_code(&self) -> ExitCode;
}

/// Output mode for command results.
#[derive(Debug, Clone, Copy, PartialEq, Eq, Structural)]
pub enum OutputMode {
    /// Human-readable text output
    Human,
    /// JSON output for scripting
    Json,
}

/// Command outputs that render as human-readable text.
pub trait CommandOutput {
    /// Render as human-readable text.
    fn render_human(&self) -> String;
}

/// Result from the `ask` command.
#[derive(Debug)]
pub struct AskResult {
    /// The model's response
    pub response: String,
    /// Number of turns used
    pub turns: usize,
}

impl CommandOutput for AskResult {
    /// The response itself.
    fn render_human(&self) -> (r: String)
        ensures
            r@ == self.response@,
    {
        self.response.clone()
    }
}

impl ExitStatus for AskResult {
    /// Always success.
    fn exit_code(&self) -> (r: ExitCode)
        ensures
            r == ExitCode::Success,
    {
        ExitCode::Success
    }
}

/// Result from the `config` command.
#[derive(Debug)]
pub struct ConfigResult {
    /// Configuration entries
    pub entries: Vec<ConfigEntry>,
}

/// A single configuration entry.
#[derive(Debug)]
pub struct ConfigEntry {
    /// Configuration key
    pub key: String,
    /// Configuration value
    pub value: String,
}

/// The lines `key = value` of the entries.
pub open spec fn entry_lines(v: Seq<ConfigEntry>) -> Seq<Seq<char>> {
    v.map_values(|e: ConfigEntry| e.key@ + " = "@ + e.value@)
}

impl CommandOutput for ConfigResult {
    /// One `key = value` line per entry.
    fn render_human(&self) -> (r: String)
        ensures
            r@ == join(entry_lines(self.entries@), "\n"@),
    {
        let mut r = String::new();
        let mut i: usize = 0;
        while i < self.entries.len()
            invariant
                i <= self.entries@.len(),
                r@ == join(entry_lines(self.entries@).take(i as int), "\n"@),
            decreases self.entries@.len() - i,
        {
            let ghost before = r@;
            if i > 0 {
                push_str(&mut r, "\n");
            }
            push_str(&mut r, self.entries[i].key.as_str());
            push_str(&mut r, " = ");
            push_str(&mut r, self.entries[i].value.as_str());
            proof {
                let t = entry_lines(self.entries@).take(i + 1);
                assert(t.drop_last() =~= entry_lines(self.entries@).take(i as int));
                if i == 0 {
                    assert(r@ =~= t[0]);
                } else {
                    assert(r@ =~= before + "\n"@ + t.last());
                }
            }
            i += 1;
        }
        assert(entry_lines(self.entries@).take(self.entries@.len() as int) =~= entry_lines(self.entries@));
        r
    }
}

impl ExitStatus for ConfigResult {
    /// Always success.
    fn exit_code(&self) -> (r: ExitCode)
        ensures
            r == ExitCode::Success,
    {
        ExitCode::Success
    }
}

/// Result from the `models` command.
#[derive(Debug)]
pub struct ModelsResult {
    /// Available models
    pub models: Vec<String>,
}

impl CommandOutput for ModelsResult {
    /// One model per line.
    fn render_human(&self) -> (r: String)
        ensures
            r@ == join(string_views(self.models@), "\n"@),
    {
        join_strings(self.models.as_slice(), "\n")
    }
}

impl ExitStatus for ModelsResult {
    /// Always success.
    fn exit_code(&self) -> (r: ExitCode)
        ensures
            r == ExitCode::Success,
    {
        ExitCode::Success
    }
}

/// Result from the `commit` command.
#[derive(Debug)]
pub struct CommitResult {
    /// The generated commit message
    pub message: String,
    /// Commit title (first line)
    pub title: String,
    /// Commit body (remaining lines)
    pub body: Option<String>,
}

impl CommandOutput for CommitResult {
    /// The whole message.
    fn render_human(&self) -> (r: String)
        ensures
            r@ == self.message@,
    {
        self.message.clone()
    }
}

impl ExitStatus for CommitResult {
    /// Always success.
    fn exit_code(&self) -> (r: ExitCode)
        ensures
            r == ExitCode::Success,
    {
        ExitCode::Success
    }
}

/// Result from the `review` command.
#[derive(Debug)]
pub struct ReviewResult {
    /// The review summary
    pub summary: String,
    /// Identified issues
    pub issues: Vec<ReviewIssue>,
    /// Whether the review passed (no issues or only warnings)
    pub passed: bool,
}

/// An issue identified during code review.
#[derive(Debug, Clone)]
pub struct ReviewIssue {
    /// Issue severity (error, warning, info)
    pub severity: String,
    /// File path
    pub file: Option<String>,
    /// Line number
    pub line: Option<usize>,
    /// Issue description
    pub message: String,
}

impl CommandOutput for ReviewResult {
    /// The summary.
    fn render_human(&self) -> (r: String)
        ensures
            r@ == self.summary@,
    {
        self.summary.clone()
    }
}

impl ExitStatus for ReviewResult {
    /// Success when the review passed, else issues found.
    fn exit_code(&self) -> (r: ExitCode)
        ensures
            r == if self.passed { ExitCode::Success } else { ExitCode::IssuesFound },
    {
        if self.passed { ExitCode::Success } else { ExitCode::IssuesFound }
    }
}

/// Result from the `explain` command.
#[derive(Debug)]
pub struct ExplainResult {
    /// The explanation of the code or concept
    pub explanation: String,
}

impl CommandOutput for ExplainResult {
    /// The explanation itself.
    fn render_human(&self) -> (r: String)
        ensures
            r@ == self.explanation@,
    {
        self.explanation.clone()
    }
}

impl ExitStatus for ExplainResult {
    /// Always success.
    fn exit_code(&self) -> (r: ExitCode)
        ensures
            r == ExitCode::Success,
    {
        ExitCode::Success
    }
}

/// Result from the `fix` command: suggested fixes.
#[derive(Debug)]
pub struct FixResult {
    /// Brief description of the identified issue(s)
    pub diagnosis: String,
    /// Suggested fixes
    pub fixes: Vec<Fix>,
    /// Number of issues that could not be fixed
    pub unfixable_count: usize,
}

/// A suggested fix.
#[derive(Debug, Clone)]
pub struct Fix {
    /// Path to the file to change
    pub file: String,
    /// Line number (if known)
    pub line: Option<usize>,
    /// Original code to replace
    pub original: String,
    /// Replacement code
    pub replacement: String,
    /// Explanation of why this fixes the issue
    pub explanation: String,
}

/// Where a fix applies: `file`, or `file:line`.
pub open spec fn fix_location(f: Fix) -> Seq<char> {
    match f.line {
        Some(l) => f.file@ + ":"@ + decimal(l as nat),
        None => f.file@,
    }
}

/// The block of the fix numbered `n`.
pub open spec fn fix_block(n: nat, f: Fix) -> Seq<char> {
    "\n"@ + decimal(n) + ". "@ + fix_location(f) + " - "@ + f.explanation@ + "\n   - "@ + f.original@ + "\n   + "@ + f.replacement@ + "\n"@
}

/// The blocks of the fixes, numbered from one.
pub open spec fn fix_blocks(v: Seq<Fix>) -> Seq<char>
    decreases v.len(),
{
    if v.len() == 0 { seq![] } else { fix_blocks(v.drop_last()) + fix_block(v.len(), v.last()) }
}

/// The human-readable suggestion list: the diagnosis, the fixes (or that
/// there are none), and how many issues could not be fixed.
pub open spec fn fix_text(r: FixResult) -> Seq<char> {
    (if r.diagnosis@.len() > 0 { "Diagnosis: "@ + r.diagnosis@ + "\n\n"@ } else { seq![] }) + (if r.fixes@.len() == 0 {
        "No fixes suggested."@
    } else {
        "Suggested fixes ("@ + decimal(r.fixes@.len()) + "):\n"@ + fix_blocks(r.fixes@)
    }) + (if r.unfixable_count > 0 {
        "\n"@ + decimal(r.unfixable_count as nat) + " issues could not be fixed automatically."@
    } else {
        seq![]
    })
}

fn push_fix_block(o: &mut String, n: u64, f: &Fix)
    ensures
        final(o)@ == old(o)@ + fix_block(n as nat, *f),
{
    push_str(o, "\n");
    push_decimal(o, n);
    push_str(o, ". ");
    push_str(o, f.file.as_str());
    if let Some(l) = f.line {
        push_str(o, ":");
        push_decimal(o, l as u64);
    }
    push_str(o, " - ");
    push_str(o, f.explanation.as_str());
    push_str(o, "\n   - ");
    push_str(o, f.original.as_str());
    push_str(o, "\n   + ");
    push_str(o, f.replacement.as_str());
    push_str(o, "\n");
    assert(final(o)@ =~= old(o)@ + fix_block(n as nat, *f));
}

impl CommandOutput for FixResult {
    /// Diagnosis, fixes, unfixable count.
    fn render_human(&self) -> (r: String)
        ensures
            r@ == fix_text(*self),
    {
        let mut o = String::new();
        if self.diagnosis.unicode_len() > 0 {
            push_str(&mut o, "Diagnosis: ");
            push_str(&mut o, self.diagnosis.as_str());
            push_str(&mut o, "\n\n");
        }
        let ghost head = o@;
        if self.fixes.len() == 0 {
            push_str(&mut o, "No fixes suggested.");
        } else {
            push_str(&mut o, "Suggested fixes (");
            push_decimal(&mut o, self.fixes.len() as u64);
            push_str(&mut o, "):\n");
            let ghost start = o@;
            let mut i: usize = 0;
            while i < self.fixes.len()
                invariant
                    i <= self.fixes@.len(),
                    o@ == start + fix_blocks(self.fixes@.take(i as int)),
                decreases self.fixes@.len() - i,
            {
                push_fix_block(&mut o, (i + 1) as u64, &self.fixes[i]);
                proof {
                    let t = self.fixes@.take(i + 1);
                    assert(t.drop_last() =~= self.fixes@.take(i as int));
                    assert(t.len() == i + 1);
                }
                i += 1;
            }
            assert(self.fixes@.take(self.fixes@.len() as int) =~= self.fixes@);
        }
        if self.unfixable_count > 0 {
            push_str(&mut o, "\n");
            push_decimal(&mut o, self.unfixable_count as u64);
            push_str(&mut o, " issues could not be fixed automatically.");
        }
        assert(o@ =~= fix_text(*self));
        o
    }
}

impl ExitStatus for FixResult {
    /// Issues found when some could not be fixed, else success.
    fn exit_code(&self) -> (r: ExitCode)
        ensures
            r == if self.unfixable_count > 0 { ExitCode::IssuesFound } else { ExitCode::Success },
    {
        if self.unfixable_count > 0 { ExitCode::IssuesFound } else { ExitCode::Success }
    }
}

} // verus!
