//! From a model's JSON answer to results.
//!
//! The answer is first repaired into parsing JSON text here; the program
//! decodes that text into the shapes below, and the results are built from
//! them here.
use vstd::prelude::*;

use crate::json_repair::{outcome_of, repair_json, repair_spec, RepairError, RepairOutcome};
use crate::output::derive::DeriveResult;
use crate::output::review::{ChunkFailure, ReviewIssue, ReviewResult};
use crate::text::{join, str_equal, string_views, to_owned_string};

verus! {

/// The JSON text of a repair outcome, or the message of its error.
pub open spec fn repaired_json_or_message(o: RepairOutcome) -> Result<Seq<char>, Seq<char>> {
    match o {
        RepairOutcome::Repaired(json, _, _) => Ok(json),
        RepairOutcome::NoJson => Err("no JSON object found in response"@),
        RepairOutcome::Truncated(context) => Err("JSON appears truncated: "@ + context),
        RepairOutcome::Unrecoverable(e, attempts) => Err(
            "failed to repair JSON: "@ + e + "; tried: "@ + join(attempts, ", "@),
        ),
    }
}

/// A result of texts as sequences.
pub open spec fn text_result(r: Result<String, String>) -> Result<Seq<char>, Seq<char>> {
    match r {
        Ok(s) => Ok(s@),
        Err(e) => Err(e@),
    }
}

fn json_or_message(r: Result<crate::json_repair::RepairResult, RepairError>) -> (out: Result<String, String>)
    ensures
        text_result(out) == repaired_json_or_message(outcome_of(r)),
{
    match r {
        Ok(ok) => Ok(ok.json),
        Err(e) => Err(e.message()),
    }
}

/// Repairs a model's answer into JSON text, or says why it could not.
pub fn extract_and_repair_json(response: &str) -> (r: Result<String, String>)
    ensures
        text_result(r) == repaired_json_or_message(repair_spec(response@)),
{
    json_or_message(repair_json(response))
}

/// An issue as the model reports it; `file`, `line` and `rule` may be left
/// out.
#[derive(Debug, Clone)]
pub struct ParsedIssue {
    pub severity: String,
    pub file: Option<String>,
    pub line: Option<usize>,
    pub message: String,
    pub rule: Option<String>,
}

/// A severity that fails a review.
pub open spec fn blocking_severity(s: Seq<char>) -> bool {
    s == "error"@ || s == "warning"@
}

/// A review passes when no issue is an error or a warning.
pub open spec fn review_passes(issues: Seq<ReviewIssue>) -> bool {
    forall|i: int| 0 <= i < issues.len() ==> !blocking_severity(#[trigger] issues[i].severity@)
}

/// Whether a review with these issues passes.
pub fn review_passed(issues: &Vec<ReviewIssue>) -> (r: bool)
    ensures
        r == review_passes(issues@),
{
    let mut i: usize = 0;
    while i < issues.len()
        invariant
            i <= issues@.len(),
            forall|j: int| 0 <= j < i ==> !blocking_severity(#[trigger] issues@[j].severity@),
        decreases issues@.len() - i,
    {
        let s = issues[i].severity.as_str();
        if str_equal(s, "error") || str_equal(s, "warning") {
            return false;
        }
        i += 1;
    }
    true
}

/// The issue of a parsed one: a missing file or rule is empty, a missing
/// line zero.
fn issue_from_parsed(p: &ParsedIssue) -> (r: ReviewIssue)
    ensures
        r.severity == p.severity,
        r.message == p.message,
        r.line == (match p.line {
            Some(l) => l,
            None => 0,
        }),
        r.file@ == (match p.file {
            Some(f) => f@,
            None => Seq::<char>::empty(),
        }),
        r.rule@ == (match p.rule {
            Some(x) => x@,
            None => Seq::<char>::empty(),
        }),
{
    ReviewIssue {
        severity: p.severity.clone(),
        file: match &p.file {
            Some(f) => f.clone(),
            None => String::new(),
        },
        line: match p.line {
            Some(l) => l,
            None => 0,
        },
        message: p.message.clone(),
        rule: match &p.rule {
            Some(x) => x.clone(),
            None => String::new(),
        },
    }
}

/// The review of a parsed answer: its summary and issues, passed when no
/// issue is an error or a warning, with no chunk information.
pub fn review_from_parsed(summary: String, parsed: Vec<ParsedIssue>) -> (r: ReviewResult)
    ensures
        r.summary == summary,
        r.issues@.len() == parsed@.len(),
        forall|i: int| 0 <= i < parsed@.len() ==> {
            &&& (#[trigger] r.issues@[i]).severity == parsed@[i].severity
            &&& r.issues@[i].message == parsed@[i].message
            &&& r.issues@[i].line == (match parsed@[i].line {
                Some(l) => l,
                None => 0,
            })
            &&& r.issues@[i].file@ == (match parsed@[i].file {
                Some(f) => f@,
                None => Seq::<char>::empty(),
            })
            &&& r.issues@[i].rule@ == (match parsed@[i].rule {
                Some(x) => x@,
                None => Seq::<char>::empty(),
            })
        },
        r.passed == review_passes(r.issues@),
        r.chunks_processed is None,
        r.chunk_failures@.len() == 0,
{
    let mut issues: Vec<ReviewIssue> = Vec::new();
    let mut i: usize = 0;
    while i < parsed.len()
        invariant
            i <= parsed@.len(),
            issues@.len() == i,
            forall|j: int| 0 <= j < i ==> {
                &&& (#[trigger] issues@[j]).severity == parsed@[j].severity
                &&& issues@[j].message == parsed@[j].message
                &&& issues@[j].line == (match parsed@[j].line {
                    Some(l) => l,
                    None => 0,
                })
                &&& issues@[j].file@ == (match parsed@[j].file {
                    Some(f) => f@,
                    None => Seq::<char>::empty(),
                })
                &&& issues@[j].rule@ == (match parsed@[j].rule {
                    Some(x) => x@,
                    None => Seq::<char>::empty(),
                })
            },
        decreases parsed@.len() - i,
    {
        issues.push(issue_from_parsed(&parsed[i]));
        i += 1;
    }
    let passed = review_passed(&issues);
    ReviewResult { summary, issues, passed, chunks_processed: None, chunk_failures: Vec::<ChunkFailure>::new() }
}

/// A commit message as the model reports it.
#[derive(Debug, Clone)]
pub struct ParsedCommit {
    pub message: String,
    pub title: String,
    pub body: Option<String>,
}

/// A derived text as the model reports it, by kind.
#[derive(Debug, Clone)]
pub enum ParsedDerive {
    Commit(ParsedCommit),
    Explanation(String),
    Summary(String),
}

/// The derive result of a parsed answer.
pub fn derive_result(parsed: ParsedDerive) -> (r: DeriveResult)
    ensures
        r == match parsed {
            ParsedDerive::Commit(c) => DeriveResult::CommitMsg { message: c.message, title: c.title, body: c.body },
            ParsedDerive::Explanation(e) => DeriveResult::Explanation { explanation: e },
            ParsedDerive::Summary(s) => DeriveResult::Summary { summary: s },
        },
{
    match parsed {
        ParsedDerive::Commit(c) => DeriveResult::CommitMsg { message: c.message, title: c.title, body: c.body },
        ParsedDerive::Explanation(e) => DeriveResult::Explanation { explanation: e },
        ParsedDerive::Summary(s) => DeriveResult::Summary { summary: s },
    }
}

/// A review fails as soon as one issue is an error or a warning, and passes
/// when every issue has another severity (or there is none).
pub proof fn lemma_review_pass_rule(issues: Seq<ReviewIssue>)
    ensures
        (exists|i: int| 0 <= i < issues.len()
            && ((#[trigger] issues[i]).severity@ == "error"@ || issues[i].severity@ == "warning"@))
            ==> !review_passes(issues),
        (forall|i: int| 0 <= i < issues.len()
            ==> (#[trigger] issues[i]).severity@ != "error"@ && issues[i].severity@ != "warning"@)
            ==> review_passes(issues),
{
}

} // verus!
