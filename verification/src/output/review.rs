//! Output of the review command.

use vstd::prelude::*;
use super::{CommandOutput, ExitCode, ExitStatus};
use crate::text::{decimal, push_decimal, push_str};

verus! {

/// Result from the review command.
#[derive(Debug)]
pub struct ReviewResult {
    /// The review summary
    pub summary: String,
    /// Identified issues
    pub issues: Vec<ReviewIssue>,
    /// Whether the review passed (no issues or only warnings)
    pub passed: bool,
    /// Number of chunks processed (only present when chunking enabled)
    pub chunks_processed: Option<usize>,
    /// Chunks that failed (chunking with partial results)
    pub chunk_failures: Vec<ChunkFailure>,
}

/// A chunk that failed during chunked processing.
#[derive(Debug, Clone)]
pub struct ChunkFailure {
    /// The file path that failed
    pub file_path: String,
    /// Error message describing the failure
    pub error: String,
}

/// An issue identified during code review.
#[derive(Debug, Clone)]
pub struct ReviewIssue {
    /// Issue severity (error, warning, info)
    pub severity: String,
    /// File path
    pub file: String,
    /// Line number
    pub line: usize,
    /// Issue description
    pub message: String,
    /// Rule name that triggered this issue
    pub rule: String,
}

/// One issue's line: `  [severity] file:line (rule): message`.
pub open spec fn issue_line(i: ReviewIssue) -> Seq<char> {
    "  ["@ + i.severity@ + "] "@ + i.file@ + ":"@ + decimal(i.line as nat) + " ("@ + i.rule@ + "): "@ + i.message@ + "\n"@
}

/// The lines of the issues.
pub open spec fn issue_lines(v: Seq<ReviewIssue>) -> Seq<char>
    decreases v.len(),
{
    if v.len() == 0 { seq![] } else { issue_lines(v.drop_last()) + issue_line(v.last()) }
}

/// The lines of the chunk failures.
pub open spec fn failure_lines(v: Seq<ChunkFailure>) -> Seq<char>
    decreases v.len(),
{
    if v.len() == 0 { seq![] } else { failure_lines(v.drop_last()) + "  "@ + v.last().file_path@ + ": "@ + v.last().error@ + "\n"@ }
}

/// The human-readable review: chunks processed (and failed), the summary,
/// the issues (or that there are none), and the chunk failures.
pub open spec fn review_text(r: ReviewResult) -> Seq<char> {
    let chunks = match r.chunks_processed {
        Some(n) => "Processed "@ + decimal(n as nat) + " file(s)\n"@ + if r.chunk_failures@.len() == 0 {
            "\n"@
        } else {
            "  ("@ + decimal(r.chunk_failures@.len()) + " failed, results are partial)\n\n"@
        },
        None => seq![],
    };
    let summary = if r.summary@.len() > 0 { r.summary@ + "\n\n"@ } else { seq![] };
    let issues = if r.issues@.len() == 0 {
        "No issues found."@
    } else {
        "Issues ("@ + decimal(r.issues@.len()) + "):\n"@ + issue_lines(r.issues@)
    };
    let failures = if r.chunk_failures@.len() > 0 {
        "\nChunk failures ("@ + decimal(r.chunk_failures@.len()) + "):\n"@ + failure_lines(r.chunk_failures@)
    } else {
        seq![]
    };
    chunks + summary + issues + failures
}

impl ReviewResult {
    fn push_chunk_info(&self, o: &mut String)
        ensures
            final(o)@ == old(o)@ + match self.chunks_processed {
                Some(n) => "Processed "@ + decimal(n as nat) + " file(s)\n"@ + if self.chunk_failures@.len() == 0 {
                    "\n"@
                } else {
                    "  ("@ + decimal(self.chunk_failures@.len()) + " failed, results are partial)\n\n"@
                },
                None => seq![],
            },
    {
        if let Some(n) = self.chunks_processed {
            push_str(o, "Processed ");
            push_decimal(o, n as u64);
            push_str(o, " file(s)\n");
            if self.chunk_failures.len() == 0 {
                push_str(o, "\n");
            } else {
                push_str(o, "  (");
                push_decimal(o, self.chunk_failures.len() as u64);
                push_str(o, " failed, results are partial)\n\n");
            }
        } else {
            assert(final(o)@ =~= old(o)@ + Seq::<char>::empty());
        }
    }

    fn push_issues(&self, o: &mut String)
        ensures
            final(o)@ == old(o)@ + if self.issues@.len() == 0 {
                "No issues found."@
            } else {
                "Issues ("@ + decimal(self.issues@.len()) + "):\n"@ + issue_lines(self.issues@)
            },
    {
        if self.issues.len() == 0 {
            push_str(o, "No issues found.");
            return;
        }
        push_str(o, "Issues (");
        push_decimal(o, self.issues.len() as u64);
        push_str(o, "):\n");
        let ghost start = o@;
        let mut i: usize = 0;
        while i < self.issues.len()
            invariant
                i <= self.issues@.len(),
                o@ == start + issue_lines(self.issues@.take(i as int)),
            decreases self.issues@.len() - i,
        {
            let it = &self.issues[i];
            push_str(o, "  [");
            push_str(o, it.severity.as_str());
            push_str(o, "] ");
            push_str(o, it.file.as_str());
            push_str(o, ":");
            push_decimal(o, it.line as u64);
            push_str(o, " (");
            push_str(o, it.rule.as_str());
            push_str(o, "): ");
            push_str(o, it.message.as_str());
            push_str(o, "\n");
            proof {
                assert(self.issues@.take(i + 1).drop_last() =~= self.issues@.take(i as int));
            }
            i += 1;
        }
        assert(self.issues@.take(self.issues@.len() as int) =~= self.issues@);
    }

    fn push_failures(&self, o: &mut String)
        ensures
            final(o)@ == old(o)@ + if self.chunk_failures@.len() > 0 {
                "\nChunk failures ("@ + decimal(self.chunk_failures@.len()) + "):\n"@ + failure_lines(self.chunk_failures@)
            } else {
                seq![]
            },
    {
        if self.chunk_failures.len() == 0 {
            assert(final(o)@ =~= old(o)@ + Seq::<char>::empty());
            return;
        }
        push_str(o, "\nChunk failures (");
        push_decimal(o, self.chunk_failures.len() as u64);
        push_str(o, "):\n");
        let ghost start = o@;
        let mut i: usize = 0;
        while i < self.chunk_failures.len()
            invariant
                i <= self.chunk_failures@.len(),
                o@ == start + failure_lines(self.chunk_failures@.take(i as int)),
            decreases self.chunk_failures@.len() - i,
        {
            push_str(o, "  ");
            push_str(o, self.chunk_failures[i].file_path.as_str());
            push_str(o, ": ");
            push_str(o, self.chunk_failures[i].error.as_str());
            push_str(o, "\n");
            proof {
                assert(self.chunk_failures@.take(i + 1).drop_last() =~= self.chunk_failures@.take(i as int));
            }
            i += 1;
        }
        assert(self.chunk_failures@.take(self.chunk_failures@.len() as int) =~= self.chunk_failures@);
    }
}

impl CommandOutput for ReviewResult {
    /// Chunks processed, summary, issues and chunk failures.
    fn render_human(&self) -> (r: String)
        ensures
            r@ == review_text(*self),
    {
        let mut o = String::new();
        self.push_chunk_info(&mut o);
        if self.summary.unicode_len() > 0 {
            push_str(&mut o, self.summary.as_str());
            push_str(&mut o, "\n\n");
        }
        self.push_issues(&mut o);
        self.push_failures(&mut o);
        assert(o@ =~= review_text(*self));
        o
    }
}

impl ExitStatus for ReviewResult {
    /// Success when the review passed, else issues found.
    fn exit_code(&self) -> (r: ExitCode)
        ensures
            r == if self.passed { ExitCode::Success } else { ExitCode::IssuesFound },
    {
        if self.passed { ExitCode::Success } else { ExitCode::IssuesFound }
    }
}


/// An issue as plain values: severity, file, line, message, rule.
pub type IssueView = (Seq<char>, Seq<char>, usize, Seq<char>, Seq<char>);

impl View for ReviewIssue {
    type V = IssueView;

    open spec fn view(&self) -> IssueView {
        (self.severity@, self.file@, self.line, self.message@, self.rule@)
    }
}

/// The issues as plain values.
pub open spec fn issue_views(v: Seq<ReviewIssue>) -> Seq<IssueView> {
    v.map_values(|i: ReviewIssue| i@)
}

impl ReviewIssue {
    /// A copy of the issue.
    pub fn duplicate(&self) -> (r: ReviewIssue)
        ensures
            r@ == self@,
    {
        ReviewIssue {
            severity: self.severity.clone(),
            file: self.file.clone(),
            line: self.line,
            message: self.message.clone(),
            rule: self.rule.clone(),
        }
    }
}

} // verus!
