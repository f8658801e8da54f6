//! The `fix` command: apply model-suggested changes to code, safely.

pub mod validation;
pub mod diff;
pub mod input;

use vstd::prelude::*;
use crate::output::ExitCode;
use crate::text::{
    chars_of, decimal, join, lines, padded_decimal, push_char, push_decimal, push_padded_decimal, push_str,
    rfind, split_lines, views, copy_range, eq_str, string_from_chars, to_owned_string, push_chars,
};
use crate::commands::fix::diff::{applied, apply_replacement};
use crate::commands::fix::validation::{
    sanitize_replacement, sanitized, too_long, validate_replacement, validation_warnings, warning_views, ValidationError,
    ValidationWarning,
};
use crate::commands::fix::diff::{count_kind, generate_unified_diff, line_diff, unified_diff_text, LineChange};
use crate::commands::fix::input::{ValidatedFixInput, ValidatedIssue, ValidatedWholeFileInput};
use crate::cli::FixMode;
use crate::output::fix::{FixError, FixErrorCode, FixResult, IssueFailure, WholeFileFixResult};
use crate::rules::{file_name_of, path_file_name};
use crate::text::{byte_len, byte_length, push_decimal_wide, string_views};

verus! {

/// The text after the last `.` of a path, or the whole path without one
/// (`path.rsplit('.').next()`).
pub open spec fn extension_of(path: Seq<char>) -> Seq<char> {
    if exists|i: int| 0 <= i < path.len() && path[i] == '.' {
        let i = choose|i: int| 0 <= i < path.len() && path[i] == '.' && forall|j: int| i < j < path.len() ==> path[j] != '.';
        path.skip(i + 1)
    } else {
        path
    }
}

/// The fence language for a file extension (empty when unknown).
pub open spec fn language_for(ext: Seq<char>) -> Seq<char> {
    if ext == "rs"@ { "rust"@ }
    else if ext == "py"@ { "python"@ }
    else if ext == "js"@ { "javascript"@ }
    else if ext == "ts"@ { "typescript"@ }
    else if ext == "tsx"@ { "tsx"@ }
    else if ext == "jsx"@ { "jsx"@ }
    else if ext == "go"@ { "go"@ }
    else if ext == "java"@ { "java"@ }
    else if ext == "c"@ || ext == "h"@ { "c"@ }
    else if ext == "cpp"@ || ext == "cc"@ || ext == "cxx"@ || ext == "hpp"@ { "cpp"@ }
    else if ext == "rb"@ { "ruby"@ }
    else if ext == "sh"@ || ext == "bash"@ { "bash"@ }
    else if ext == "yml"@ || ext == "yaml"@ { "yaml"@ }
    else if ext == "json"@ { "json"@ }
    else if ext == "toml"@ { "toml"@ }
    else if ext == "md"@ { "markdown"@ }
    else { ""@ }
}

fn last_dot(v: &Vec<char>) -> (r: Option<usize>)
    ensures
        match r {
            Some(i) => i < v@.len() && v@[i as int] == '.' && forall|j: int| i < j < v@.len() ==> v@[j] != '.',
            None => forall|j: int| 0 <= j < v@.len() ==> v@[j] != '.',
        },
{
    let mut k = v.len();
    while k > 0
        invariant
            k <= v@.len(),
            forall|j: int| k <= j < v@.len() ==> v@[j] != '.',
        decreases k,
    {
        if v[k - 1] == '.' {
            return Some(k - 1);
        }
        k -= 1;
    }
    None
}

/// Guess the code-fence language from a file path's extension.
pub fn language_from_path(path: &str) -> (r: &'static str)
    ensures
        r@ == language_for(extension_of(path@)),
{
    let v = chars_of(path);
    let vlen = v.len();
    let ext = match last_dot(&v) {
        Some(i) => {
            let after = i + 1;
            proof {
                let c = choose|c: int| 0 <= c < path@.len() && path@[c] == '.' && forall|j: int| c < j < path@.len() ==> path@[j] != '.';
                if c < i {
                    assert(path@[i as int] != '.');
                } else if c > i {
                    assert(path@[c] != '.');
                }
            }
            copy_range(&v, after, vlen)
        },
        None => v,
    };
    assert(ext@ == extension_of(path@));
    if eq_str(&ext, "rs") { "rust" }
    else if eq_str(&ext, "py") { "python" }
    else if eq_str(&ext, "js") { "javascript" }
    else if eq_str(&ext, "ts") { "typescript" }
    else if eq_str(&ext, "tsx") { "tsx" }
    else if eq_str(&ext, "jsx") { "jsx" }
    else if eq_str(&ext, "go") { "go" }
    else if eq_str(&ext, "java") { "java" }
    else if eq_str(&ext, "c") || eq_str(&ext, "h") { "c" }
    else if eq_str(&ext, "cpp") || eq_str(&ext, "cc") || eq_str(&ext, "cxx") || eq_str(&ext, "hpp") { "cpp" }
    else if eq_str(&ext, "rb") { "ruby" }
    else if eq_str(&ext, "sh") || eq_str(&ext, "bash") { "bash" }
    else if eq_str(&ext, "yml") || eq_str(&ext, "yaml") { "yaml" }
    else if eq_str(&ext, "json") { "json" }
    else if eq_str(&ext, "toml") { "toml" }
    else if eq_str(&ext, "md") { "markdown" }
    else { "" }
}

/// Lines written with their 1-based numbers, right-aligned in four
/// columns: `"   7| text"`; the first has number `first`.
pub open spec fn numbered_lines(ls: Seq<Seq<char>>, first: nat) -> Seq<Seq<char>> {
    Seq::new(ls.len(), |i: int| padded_decimal((first + i) as nat, 4) + "| "@ + ls[i])
}

/// The lines around a range, numbered, joined with line feeds: `window`
/// lines before the range's first line and after its last, clipped to the
/// text.
pub open spec fn surrounding_context(content: Seq<char>, range: (usize, usize), window: usize) -> Seq<char> {
    let ls = lines(content);
    let s = if range.0 - 1 >= window { range.0 - 1 - window } else { 0 };
    let e = if range.1 + window <= ls.len() { range.1 + window } else { ls.len() as int };
    if s <= e {
        join(numbered_lines(ls.subrange(s, e), (s + 1) as nat), "\n"@)
    } else {
        seq![]
    }
}

/// The numbered lines around a range, for context in a request.
pub fn extract_surrounding_context(content: &str, lines: (usize, usize), window: usize) -> (r: String)
    requires
        lines.0 >= 1,
        lines.1 + window <= usize::MAX,
    ensures
        r@ == surrounding_context(content@, lines, window),
{
    let cv = chars_of(content);
    let all = split_lines(&cv);
    let ghost lv = views(all@);
    let ctx_start = if lines.0 - 1 >= window { lines.0 - 1 - window } else { 0 };
    let ctx_end = if lines.1 + window <= all.len() { lines.1 + window } else { all.len() };
    if ctx_start > ctx_end {
        return String::new();
    }
    let ghost target = numbered_lines(lv.subrange(ctx_start as int, ctx_end as int), (ctx_start + 1) as nat);
    let mut out = String::new();
    let mut i = ctx_start;
    while i < ctx_end
        invariant
            ctx_start <= i <= ctx_end <= all@.len(),
            lv == views(all@),
            ctx_start < usize::MAX,
            target == numbered_lines(lv.subrange(ctx_start as int, ctx_end as int), (ctx_start + 1) as nat),
            out@ == join(target.take(i - ctx_start), "\n"@),
        decreases ctx_end - i,
    {
        let ghost before = out@;
        if i > ctx_start {
            push_str(&mut out, "\n");
        }
        push_padded_decimal(&mut out, (i + 1) as u64, 4);
        push_str(&mut out, "| ");
        push_chars(&mut out, all[i].as_slice());
        proof {
            let t = target.take(i + 1 - ctx_start);
            assert(t.drop_last() =~= target.take(i - ctx_start));
            assert(t.last() == padded_decimal((i + 1) as nat, 4) + "| "@ + lv[i as int]);
            if i == ctx_start {
                assert(out@ =~= t[0]);
            } else {
                assert(out@ =~= before + "\n"@ + t.last());
            }
        }
        i += 1;
    }
    assert(target.take(ctx_end - ctx_start) =~= target);
    out
}

/// The user request for a fix: the file, the issue, the numbered context
/// (15 lines each way) and the code to fix, both fenced with the file's
/// language; and, on a retry, what went wrong before.
pub open spec fn fix_user_request(file_path: Seq<char>, file_content: Seq<char>, snippet: Seq<char>, issue: Seq<char>, range: (usize, usize), retry: Option<Seq<char>>) -> Seq<char> {
    let lang = language_for(extension_of(file_path));
    let base = "File: "@ + file_path + "\n\nIssue: "@ + issue + "\n\nSurrounding context (with line numbers):\n```"@ + lang + "\n"@
        + surrounding_context(file_content, range, 15) + "\n```\n\nCode to fix (lines "@ + decimal(range.0 as nat) + "-"@
        + decimal(range.1 as nat) + "):\n```"@ + lang + "\n"@ + snippet + "\n```"@;
    match retry {
        Some(c) => base + "\n\n"@ + c,
        None => base,
    }
}

/// Build the user request sent to the model for one fix.
pub fn build_fix_user_request(file_path: &str, file_content: &str, snippet: &str, issue: &str, lines: (usize, usize), retry_context: Option<&str>) -> (r: String)
    requires
        lines.0 >= 1,
        lines.1 + 15 <= usize::MAX,
    ensures
        r@ == fix_user_request(file_path@, file_content@, snippet@, issue@, lines, match retry_context { Some(c) => Some(c@), None => None }),
{
    let lang = language_from_path(file_path);
    let surrounding = extract_surrounding_context(file_content, lines, 15);
    let mut request = to_owned_string("File: ");
    push_str(&mut request, file_path);
    push_str(&mut request, "\n\nIssue: ");
    push_str(&mut request, issue);
    push_str(&mut request, "\n\nSurrounding context (with line numbers):\n```");
    push_str(&mut request, lang);
    push_str(&mut request, "\n");
    push_str(&mut request, surrounding.as_str());
    push_str(&mut request, "\n```\n\nCode to fix (lines ");
    push_decimal(&mut request, lines.0 as u64);
    push_str(&mut request, "-");
    push_decimal(&mut request, lines.1 as u64);
    push_str(&mut request, "):\n```");
    push_str(&mut request, lang);
    push_str(&mut request, "\n");
    push_str(&mut request, snippet);
    push_str(&mut request, "\n```");
    if let Some(ctx) = retry_context {
        push_str(&mut request, "\n\n");
        push_str(&mut request, ctx);
    }
    request
}


// ---------------------------------------------------------------------------
// Running a fix
// ---------------------------------------------------------------------------

/// Options for the fix command.
#[derive(Debug, Clone, Copy)]
pub struct FixOptions {
    /// Fix a single issue, or several in one file
    pub mode: FixMode,
    /// Number of context lines in the unified diff
    pub context_lines: usize,
    /// Retry once when the replacement is refused, telling the model why
    pub retry: bool,
    /// Include the raw model output when the replacement is refused
    pub partial: bool,
    /// Show the plan without calling the model
    pub dry_run: bool,
}

/// What one fix attempt comes to, once the model has answered.
pub enum FixStep {
    /// The fix, with its diff
    Done(FixResult),
    /// The replacement was refused: `retry` says whether to ask the model
    /// once more (with the error as context); otherwise the error is
    /// reported, with the raw answer when partial output was asked for.
    Refused { error: ValidationError, retry: bool, raw_output: Option<String> },
}

fn warning_messages(ws: &Vec<ValidationWarning>) -> (r: Vec<String>)
    ensures
        string_views(r@) == warning_views(ws@),
{
    let mut out: Vec<String> = Vec::new();
    let mut i: usize = 0;
    while i < ws.len()
        invariant
            i <= ws@.len(),
            out@.len() == i,
            forall|k: int| 0 <= k < i ==> (#[trigger] out@[k])@ == ws@[k].message@,
        decreases ws@.len() - i,
    {
        out.push(ws[i].message.clone());
        i += 1;
    }
    assert(string_views(out@) =~= warning_views(ws@));
    out
}

/// The answer of the model, sanitized, put in place of the snippet: a fix
/// with its diff (paths `a/FILE` and `b/FILE`), or the refusal of a
/// replacement that is too long.
pub fn fix_step(validated: &ValidatedFixInput, file_path: &str, llm_response: &str, options: &FixOptions, is_retry: bool) -> (r: FixStep)
    requires
        validated.lines.0 >= 1,
        options.context_lines <= usize::MAX / 2,
    ensures
        ({
            let replacement = sanitized(llm_response@);
            let content = validated.file_content@;
            let modified = applied(content, replacement, validated.lines.0 as int, validated.lines.1 as int);
            if too_long(byte_len(validated.snippet@), byte_len(replacement)) {
                r matches FixStep::Refused { error, retry, raw_output } && {
                    &&& error == (ValidationError::LengthExceeded {
                        replacement_len: byte_len(replacement) as usize,
                        original_len: byte_len(validated.snippet@) as usize,
                    })
                    &&& retry == (options.retry && !is_retry)
                    &&& (raw_output matches Some(o) ==> o@ == llm_response@)
                    &&& (raw_output is Some <==> (!retry && options.partial))
                }
            } else {
                r matches FixStep::Done(res) && {
                    &&& res.diff@ == unified_diff_text(content, modified, options.context_lines,
                        "a/"@ + file_path@, "b/"@ + file_path@)
                    &&& res.file@ == file_path@
                    &&& res.lines == validated.lines
                    &&& res.lines_added == count_kind(line_diff(content, modified), LineChange::Insert)
                    &&& res.lines_removed == count_kind(line_diff(content, modified), LineChange::Delete)
                    &&& string_views(res.warnings@) == validation_warnings(replacement)
                }
            }
        }),
{
    let replacement = sanitize_replacement(llm_response);
    match validate_replacement(validated.snippet.as_str(), replacement.as_str()) {
        Err(error) => {
            let retry = options.retry && !is_retry;
            let raw_output = if !retry && options.partial {
                Some(to_owned_string(llm_response))
            } else {
                None
            };
            FixStep::Refused { error, retry, raw_output }
        },
        Ok(validation) => {
            let warnings = warning_messages(&validation.warnings);
            let modified = apply_replacement(validated.file_content.as_str(), replacement.as_str(), validated.lines);
            let diff = generate_unified_diff(file_path, validated.file_content.as_str(), modified.as_str(), options.context_lines);
            FixStep::Done(FixResult {
                diff: diff.diff,
                file: to_owned_string(file_path),
                lines: validated.lines,
                lines_added: diff.lines_added,
                lines_removed: diff.lines_removed,
                warnings,
            })
        },
    }
}

/// The context given to the model on a retry, after the message of what
/// went wrong.
pub fn retry_context(error_message: &str) -> (r: String)
    ensures
        r@ == "Previous attempt failed: "@ + error_message@ + ". Please fix the issue."@,
{
    let mut r = to_owned_string("Previous attempt failed: ");
    push_str(&mut r, error_message);
    push_str(&mut r, ". Please fix the issue.");
    r
}

/// How many lines the file grew or shrank by: `(added, removed)`.
pub open spec fn line_delta(original: Seq<char>, modified: Seq<char>) -> (usize, usize) {
    let o = lines(original).len();
    let m = lines(modified).len();
    if m >= o {
        ((m - o) as usize, 0)
    } else {
        (0, (o - m) as usize)
    }
}

/// One issue of a whole-file fix: the model's answer, sanitized, put in
/// place of the issue's lines; the new content with how many lines it grew
/// or shrank by, or the refusal of a replacement that is too long.
pub fn single_issue_result(issue: &ValidatedIssue, file_content: &str, llm_response: &str) -> (r: Result<(String, usize, usize), ValidationError>)
    requires
        issue.lines.0 >= 1,
    ensures
        ({
            let replacement = sanitized(llm_response@);
            let modified = applied(file_content@, replacement, issue.lines.0 as int, issue.lines.1 as int);
            if too_long(byte_len(issue.snippet@), byte_len(replacement)) {
                r == Err::<(String, usize, usize), ValidationError>(ValidationError::LengthExceeded {
                    replacement_len: byte_len(replacement) as usize,
                    original_len: byte_len(issue.snippet@) as usize,
                })
            } else {
                r matches Ok((m, added, removed)) && m@ == modified && (added, removed) == line_delta(file_content@, modified)
            }
        }),
{
    let replacement = sanitize_replacement(llm_response);
    match validate_replacement(issue.snippet.as_str(), replacement.as_str()) {
        Err(e) => Err(e),
        Ok(_) => {
            let modified = apply_replacement(file_content, replacement.as_str(), issue.lines);
            let o = split_lines(&chars_of(file_content)).len();
            let m = split_lines(&chars_of(modified.as_str())).len();
            if m >= o {
                Ok((modified, m - o, 0))
            } else {
                Ok((modified, 0, o - m))
            }
        },
    }
}

/// Where a whole-file fix stands: the content so far, the issues fixed and
/// failed, and the line counts (saturating).
pub struct WholeFileProgress {
    pub content: String,
    pub issues_fixed: usize,
    pub failures: Vec<IssueFailure>,
    pub lines_added: usize,
    pub lines_removed: usize,
}

/// Adds two counts, stopping at the largest `usize`.
pub open spec fn sat_add(a: usize, b: usize) -> usize {
    if a + b > usize::MAX { usize::MAX } else { (a + b) as usize }
}

fn saturating_sum(a: usize, b: usize) -> (r: usize)
    ensures
        r == sat_add(a, b),
{
    if a > usize::MAX - b { usize::MAX } else { a + b }
}

impl WholeFileProgress {
    /// The start: the original content, nothing fixed or failed.
    pub fn start(file_content: &str) -> (r: Self)
        ensures
            r.content@ == file_content@,
            r.issues_fixed == 0,
            r.failures@.len() == 0,
            r.lines_added == 0,
            r.lines_removed == 0,
    {
        WholeFileProgress {
            content: to_owned_string(file_content),
            issues_fixed: 0,
            failures: Vec::new(),
            lines_added: 0,
            lines_removed: 0,
        }
    }

    /// Takes the outcome of one issue: a fix replaces the content and adds to
    /// the counts; a failure is recorded when partial results are asked for,
    /// else the whole fix stops with an output-validation error naming the
    /// issue's lines (returned).
    pub fn record(&mut self, issue: &ValidatedIssue, outcome: Result<(String, usize, usize), String>, partial: bool) -> (r: Option<FixError>)
        ensures
            match outcome {
                Ok((c, a, d)) => {
                    &&& r is None
                    &&& final(self).content == c
                    &&& final(self).issues_fixed == sat_add(old(self).issues_fixed, 1)
                    &&& final(self).lines_added == sat_add(old(self).lines_added, a)
                    &&& final(self).lines_removed == sat_add(old(self).lines_removed, d)
                    &&& final(self).failures == old(self).failures
                },
                Err(e) => if partial {
                    &&& r is None
                    &&& final(self).failures@ == old(self).failures@.push(IssueFailure { issue: issue.issue, lines: issue.lines, error: e })
                    &&& final(self).content == old(self).content
                    &&& final(self).issues_fixed == old(self).issues_fixed
                    &&& final(self).lines_added == old(self).lines_added
                    &&& final(self).lines_removed == old(self).lines_removed
                } else {
                    &&& r matches Some(fe) && fe.code == FixErrorCode::OutputValidation && fe.raw_output is None
                        && fe.message@ == "failed to fix issue at lines "@ + decimal(issue.lines.0 as nat) + ".."@
                            + decimal(issue.lines.1 as nat) + ": "@ + e@
                    &&& *final(self) == *old(self)
                },
            },
    {
        match outcome {
            Ok((c, a, d)) => {
                self.content = c;
                self.issues_fixed = saturating_sum(self.issues_fixed, 1);
                self.lines_added = saturating_sum(self.lines_added, a);
                self.lines_removed = saturating_sum(self.lines_removed, d);
                None
            },
            Err(e) => {
                if partial {
                    self.failures.push(IssueFailure { issue: issue.issue.clone(), lines: issue.lines, error: e });
                    None
                } else {
                    let mut m = to_owned_string("failed to fix issue at lines ");
                    push_decimal(&mut m, issue.lines.0 as u64);
                    push_str(&mut m, "..");
                    push_decimal(&mut m, issue.lines.1 as u64);
                    push_str(&mut m, ": ");
                    push_str(&mut m, e.as_str());
                    Some(FixError::output_validation(m.as_str()))
                }
            },
        }
    }

    /// The result of the whole-file fix: the combined diff of the original
    /// and the final content, and the exit code (a permanent error when
    /// issues failed and none was fixed).
    pub fn finish(self, original: &str, file_path: &str, context_lines: usize) -> (r: (WholeFileFixResult, ExitCode))
        requires
            context_lines <= usize::MAX / 2,
        ensures
            r.0.diff@ == unified_diff_text(original@, self.content@, context_lines, "a/"@ + file_path@, "b/"@ + file_path@),
            r.0.file@ == file_path@,
            r.0.issues_fixed == self.issues_fixed,
            r.0.issues_failed == self.failures@.len(),
            r.0.lines_added == self.lines_added,
            r.0.lines_removed == self.lines_removed,
            r.0.issue_failures == self.failures,
            r.1 == (if self.failures@.len() > 0 && self.issues_fixed == 0 { ExitCode::PermanentError } else { ExitCode::Success }),
    {
        let diff = generate_unified_diff(file_path, original, self.content.as_str(), context_lines);
        let failed = self.failures.len();
        let code = if failed > 0 && self.issues_fixed == 0 { ExitCode::PermanentError } else { ExitCode::Success };
        (WholeFileFixResult {
            diff: diff.diff,
            file: to_owned_string(file_path),
            issues_fixed: self.issues_fixed,
            issues_failed: failed,
            lines_added: self.lines_added,
            lines_removed: self.lines_removed,
            issue_failures: self.failures,
        }, code)
    }
}

/// The lines a dry run of a single fix prints: the file and lines, the
/// issue, and the snippet's length in bytes.
pub open spec fn fix_dry_run_lines(file: Seq<char>, range: (usize, usize), issue: Seq<char>, snippet_len: nat) -> Seq<Seq<char>> {
    seq![
        "Dry run: would fix "@ + file + " at lines ("@ + decimal(range.0 as nat) + ", "@ + decimal(range.1 as nat) + ")"@,
        "Issue: "@ + issue,
        "Snippet length: "@ + decimal(snippet_len) + " chars"@,
    ]
}

/// The name a dry run shows for a file: its file name, or the whole path
/// when it has none.
pub open spec fn shown_file_name(path: Seq<char>) -> Seq<char> {
    match path_file_name(path) {
        Some(n) => n,
        None => path,
    }
}

/// The file name a dry run shows.
pub fn dry_run_file_name(path: &str) -> (r: String)
    ensures
        r@ == shown_file_name(path@),
{
    match file_name_of(path) {
        Some(n) => n,
        None => to_owned_string(path),
    }
}

/// The text of a dry run of a single fix.
pub fn fix_dry_run_text(validated: &ValidatedFixInput) -> (r: Vec<String>)
    ensures
        string_views(r@) == fix_dry_run_lines(shown_file_name(validated.file_path@), validated.lines,
            validated.issue@, byte_len(validated.snippet@)),
{
    let file = dry_run_file_name(validated.file_path.as_str());
    let mut first = to_owned_string("Dry run: would fix ");
    push_str(&mut first, file.as_str());
    push_str(&mut first, " at lines (");
    push_decimal(&mut first, validated.lines.0 as u64);
    push_str(&mut first, ", ");
    push_decimal(&mut first, validated.lines.1 as u64);
    push_str(&mut first, ")");
    let mut second = to_owned_string("Issue: ");
    push_str(&mut second, validated.issue.as_str());
    let mut third = to_owned_string("Snippet length: ");
    let n = byte_length(&chars_of(validated.snippet.as_str()));
    push_decimal_wide(&mut third, n);
    push_str(&mut third, " chars");
    let r = vec![first, second, third];
    assert(string_views(r@) =~= fix_dry_run_lines(shown_file_name(validated.file_path@), validated.lines,
        validated.issue@, byte_len(validated.snippet@)));
    r
}

/// The line of one issue in a whole-file dry run (numbered from 1).
pub open spec fn issue_dry_run_line(number: nat, range: (usize, usize), issue: Seq<char>, snippet_len: nat) -> Seq<char> {
    "  "@ + decimal(number) + ". lines ("@ + decimal(range.0 as nat) + ", "@ + decimal(range.1 as nat) + "): "@ + issue
        + " ("@ + decimal(snippet_len) + " chars)"@
}

/// The text of a whole-file dry run: the count and file, then a line per
/// issue in the order they will be fixed.
pub fn whole_file_dry_run_text(validated: &ValidatedWholeFileInput) -> (r: Vec<String>)
    ensures
        r@.len() == validated.issues@.len() + 1,
        r@[0]@ == "Dry run: would fix "@ + decimal(validated.issues@.len()) + " issues in "@
            + shown_file_name(validated.file_path@),
        forall|i: int| 0 <= i < validated.issues@.len() ==> (#[trigger] r@[i + 1])@ == issue_dry_run_line(
            (i + 1) as nat, validated.issues@[i].lines, validated.issues@[i].issue@, byte_len(validated.issues@[i].snippet@)),
{
    let file = dry_run_file_name(validated.file_path.as_str());
    let mut head = to_owned_string("Dry run: would fix ");
    push_decimal(&mut head, validated.issues.len() as u64);
    push_str(&mut head, " issues in ");
    push_str(&mut head, file.as_str());
    let mut out: Vec<String> = vec![head];
    let mut i: usize = 0;
    while i < validated.issues.len()
        invariant
            i <= validated.issues@.len(),
            out@.len() == i + 1,
            out@[0]@ == "Dry run: would fix "@ + decimal(validated.issues@.len()) + " issues in "@
                + shown_file_name(validated.file_path@),
            forall|j: int| 0 <= j < i ==> (#[trigger] out@[j + 1])@ == issue_dry_run_line(
                (j + 1) as nat, validated.issues@[j].lines, validated.issues@[j].issue@, byte_len(validated.issues@[j].snippet@)),
        decreases validated.issues@.len() - i,
    {
        let issue = &validated.issues[i];
        let mut line = to_owned_string("  ");
        push_decimal(&mut line, (i + 1) as u64);
        push_str(&mut line, ". lines (");
        push_decimal(&mut line, issue.lines.0 as u64);
        push_str(&mut line, ", ");
        push_decimal(&mut line, issue.lines.1 as u64);
        push_str(&mut line, "): ");
        push_str(&mut line, issue.issue.as_str());
        push_str(&mut line, " (");
        let n = byte_length(&chars_of(issue.snippet.as_str()));
        push_decimal_wide(&mut line, n);
        push_str(&mut line, " chars)");
        let ghost before = out@;
        out.push(line);
        assert forall|j: int| 0 <= j < i + 1 implies (#[trigger] out@[j + 1])@ == issue_dry_run_line(
            (j + 1) as nat, validated.issues@[j].lines, validated.issues@[j].issue@, byte_len(validated.issues@[j].snippet@)) by {
            if j < i {
                assert(out@[j + 1] == before[j + 1]);
            }
        }
        i += 1;
    }
    out
}

} // verus!
