//! The fix command's input contract and its validation.
//!
//! Parsing the JSON and reading the file happen at the program's edge; the
//! checks, and what is taken from the file's content, are decided here.

use vstd::prelude::*;
use crate::text::{
    all_ws, chars_of, decimal, is_blank, join, join_char_vecs, lines, push_decimal, push_str, split_lines,
    to_owned_string, trim, views,
};

verus! {

/// Structured input for the fix command (atomic mode): the problem, the
/// file, and a 1-based inclusive line range. The snippet is taken from the
/// file.
#[derive(Debug)]
pub struct FixInput {
    /// Description of the problem to fix
    pub issue: String,
    /// Path to the file containing the code
    pub file: String,
    /// Line range [start, end] (1-indexed, inclusive)
    pub lines: (usize, usize),
}

/// Errors that can occur during input validation.
#[derive(Debug)]
pub enum InputValidationError {
    /// The input JSON could not be parsed (the parser's message)
    ParseError(String),
    /// The file does not exist
    FileNotFound { path: String },
    /// The file exists but cannot be read
    FileUnreadable { path: String, reason: String },
    /// The start line is after the end line
    InvalidLineRange { start: usize, end: usize },
    /// The range ends after the file's last line
    LineRangeOutOfBounds { start: usize, end: usize, file_lines: usize },
    /// Line numbers start at 1
    ZeroLineNumber { start: usize },
    /// The issue description is blank
    EmptyIssue,
    /// The issues list is empty
    EmptyIssues,
    /// Two issues' line ranges overlap
    OverlappingRanges { range1: String, range2: String },
}

/// The model of an input validation error.
pub enum InputErrorView {
    ParseError(Seq<char>),
    FileNotFound(Seq<char>),
    FileUnreadable(Seq<char>, Seq<char>),
    InvalidLineRange(usize, usize),
    LineRangeOutOfBounds(usize, usize, usize),
    ZeroLineNumber(usize),
    EmptyIssue,
    EmptyIssues,
    OverlappingRanges(Seq<char>, Seq<char>),
}

impl View for InputValidationError {
    type V = InputErrorView;

    open spec fn view(&self) -> InputErrorView {
        match self {
            InputValidationError::ParseError(m) => InputErrorView::ParseError(m@),
            InputValidationError::FileNotFound { path } => InputErrorView::FileNotFound(path@),
            InputValidationError::FileUnreadable { path, reason } => InputErrorView::FileUnreadable(path@, reason@),
            InputValidationError::InvalidLineRange { start, end } => InputErrorView::InvalidLineRange(*start, *end),
            InputValidationError::LineRangeOutOfBounds { start, end, file_lines } => InputErrorView::LineRangeOutOfBounds(*start, *end, *file_lines),
            InputValidationError::ZeroLineNumber { start } => InputErrorView::ZeroLineNumber(*start),
            InputValidationError::EmptyIssue => InputErrorView::EmptyIssue,
            InputValidationError::EmptyIssues => InputErrorView::EmptyIssues,
            InputValidationError::OverlappingRanges { range1, range2 } => InputErrorView::OverlappingRanges(range1@, range2@),
        }
    }
}

impl InputValidationError {
    /// The error's message, as its `Display` writes it.
    pub fn message(&self) -> (r: String)
        ensures
            r@ == input_error_message(self@),
    {
        let mut m = String::new();
        match self {
            InputValidationError::ParseError(e) => {
                push_str(&mut m, "failed to parse input JSON: ");
                push_str(&mut m, e.as_str());
            },
            InputValidationError::FileNotFound { path } => {
                push_str(&mut m, "file does not exist: ");
                push_str(&mut m, path.as_str());
            },
            InputValidationError::FileUnreadable { path, reason } => {
                push_str(&mut m, "cannot read file: ");
                push_str(&mut m, path.as_str());
                push_str(&mut m, ": ");
                push_str(&mut m, reason.as_str());
            },
            InputValidationError::InvalidLineRange { start, end } => {
                push_str(&mut m, "invalid line range: start (");
                push_decimal(&mut m, *start as u64);
                push_str(&mut m, ") must be <= end (");
                push_decimal(&mut m, *end as u64);
                push_str(&mut m, ")");
            },
            InputValidationError::LineRangeOutOfBounds { start, end, file_lines } => {
                push_str(&mut m, "line range ");
                push_decimal(&mut m, *start as u64);
                push_str(&mut m, "..");
                push_decimal(&mut m, *end as u64);
                push_str(&mut m, " exceeds file length (");
                push_decimal(&mut m, *file_lines as u64);
                push_str(&mut m, " lines)");
            },
            InputValidationError::ZeroLineNumber { start } => {
                push_str(&mut m, "line numbers must be 1-indexed (got start=");
                push_decimal(&mut m, *start as u64);
                push_str(&mut m, ")");
            },
            InputValidationError::EmptyIssue => {
                push_str(&mut m, "issue description is required");
            },
            InputValidationError::EmptyIssues => {
                push_str(&mut m, "issues list is empty");
            },
            InputValidationError::OverlappingRanges { range1, range2 } => {
                push_str(&mut m, "overlapping line ranges detected: ");
                push_str(&mut m, range1.as_str());
                push_str(&mut m, " and ");
                push_str(&mut m, range2.as_str());
            },
        }
        m
    }
}

/// The message of an input validation error.
pub open spec fn input_error_message(e: InputErrorView) -> Seq<char> {
    match e {
        InputErrorView::ParseError(m) => "failed to parse input JSON: "@ + m,
        InputErrorView::FileNotFound(p) => "file does not exist: "@ + p,
        InputErrorView::FileUnreadable(p, r) => "cannot read file: "@ + p + ": "@ + r,
        InputErrorView::InvalidLineRange(s, e) => "invalid line range: start ("@ + decimal(s as nat) + ") must be <= end ("@
            + decimal(e as nat) + ")"@,
        InputErrorView::LineRangeOutOfBounds(s, e, n) => "line range "@ + decimal(s as nat) + ".."@ + decimal(e as nat)
            + " exceeds file length ("@ + decimal(n as nat) + " lines)"@,
        InputErrorView::ZeroLineNumber(s) => "line numbers must be 1-indexed (got start="@ + decimal(s as nat) + ")"@,
        InputErrorView::EmptyIssue => "issue description is required"@,
        InputErrorView::EmptyIssues => "issues list is empty"@,
        InputErrorView::OverlappingRanges(a, b) => "overlapping line ranges detected: "@ + a + " and "@ + b,
    }
}

/// What reading the file gave: its content, or why there is none.
#[derive(Debug)]
pub enum FileRead {
    /// The file's content
    Content(String),
    /// The file does not exist
    NotFound,
    /// The file exists but reading it failed, with the reason
    Unreadable(String),
}

/// Check if two inclusive line ranges overlap.
pub fn ranges_overlap(a: (usize, usize), b: (usize, usize)) -> (r: bool)
    ensures
        r == (a.0 <= b.1 && b.0 <= a.1),
{
    a.0 <= b.1 && b.0 <= a.1
}

/// The lines `start..=end` (1-based) of a text, joined with line feeds.
pub open spec fn snippet_of(content: Seq<char>, start: int, end: int) -> Seq<char> {
    join(lines(content).subrange(start - 1, end), "\n"@)
}

/// The field checks of one issue, in order: blank description, zero start,
/// start after end.
pub open spec fn issue_fields_error(issue: Seq<char>, lines: (usize, usize)) -> Option<InputErrorView> {
    if is_blank(issue) {
        Some(InputErrorView::EmptyIssue)
    } else if lines.0 == 0 {
        Some(InputErrorView::ZeroLineNumber(lines.0))
    } else if lines.0 > lines.1 {
        Some(InputErrorView::InvalidLineRange(lines.0, lines.1))
    } else {
        None
    }
}

fn check_issue_fields(issue: &str, lines: (usize, usize)) -> (r: Result<(), InputValidationError>)
    ensures
        match issue_fields_error(issue@, lines) {
            Some(e) => r matches Err(x) && x@ == e,
            None => r is Ok,
        },
{
    let v = chars_of(issue);
    if all_ws(&v) {
        return Err(InputValidationError::EmptyIssue);
    }
    let (start, end) = lines;
    if start == 0 {
        return Err(InputValidationError::ZeroLineNumber { start });
    }
    if start > end {
        return Err(InputValidationError::InvalidLineRange { start, end });
    }
    Ok(())
}

/// The error of reading the file, if any.
pub open spec fn read_error(path: Seq<char>, read: FileRead) -> Option<InputErrorView> {
    match read {
        FileRead::NotFound => Some(InputErrorView::FileNotFound(path)),
        FileRead::Unreadable(r) => Some(InputErrorView::FileUnreadable(path, r@)),
        FileRead::Content(_) => None,
    }
}

/// The snippet of a text's lines `start..=end` (1-based, within bounds).
fn extract_snippet(ls: &Vec<Vec<char>>, start: usize, end: usize) -> (r: String)
    requires
        1 <= start <= end <= ls@.len(),
    ensures
        r@ == join(views(ls@).subrange(start - 1, end as int), "\n"@),
{
    let mut part: Vec<Vec<char>> = Vec::new();
    let mut i = start - 1;
    while i < end
        invariant
            1 <= start,
            start - 1 <= i <= end <= ls@.len(),
            views(part@) == views(ls@).subrange(start - 1, i as int),
        decreases end - i,
    {
        let line = crate::text::copy_range(&ls[i], 0, ls[i].len());
        let ghost before = part@;
        assert(line@ =~= ls@[i as int]@);
        part.push(line);
        assert(views(part@) =~= views(before).push(views(ls@)[i as int]));
        assert(views(ls@).subrange(start - 1, i + 1) =~= views(ls@).subrange(start - 1, i as int).push(views(ls@)[i as int]));
        i += 1;
    }
    join_char_vecs(&part, "\n")
}

/// Validated fix input with resolved file path and content.
#[derive(Debug)]
pub struct ValidatedFixInput {
    /// Description of the problem to fix
    pub issue: String,
    /// Exact code lines to transform
    pub snippet: String,
    /// Resolved path to the file
    pub file_path: String,
    /// Full content of the file
    pub file_content: String,
    /// Line range [start, end] (1-indexed, inclusive)
    pub lines: (usize, usize),
}

/// The error atomic-mode validation gives, if any: the field checks, then
/// the file, then the range against the file's lines.
pub open spec fn fix_input_error(issue: Seq<char>, file: Seq<char>, range: (usize, usize), read: FileRead) -> Option<InputErrorView> {
    match issue_fields_error(issue, range) {
        Some(e) => Some(e),
        None => match read_error(file, read) {
            Some(e) => Some(e),
            None => {
                let n = lines(read->Content_0@).len();
                if range.1 > n {
                    Some(InputErrorView::LineRangeOutOfBounds(range.0, range.1, n as usize))
                } else {
                    None
                }
            },
        },
    }
}

impl FixInput {
    /// Validate the input against the file: `file_path` is where the file
    /// was looked for, `read` what reading it gave.
    pub fn validate(&self, file_path: String, read: FileRead) -> (r: Result<ValidatedFixInput, InputValidationError>)
        ensures
            match fix_input_error(self.issue@, self.file@, self.lines, read) {
                Some(e) => r matches Err(x) && x@ == e,
                None => r matches Ok(v) && {
                    &&& v.issue@ == self.issue@
                    &&& v.snippet@ == snippet_of(read->Content_0@, self.lines.0 as int, self.lines.1 as int)
                    &&& v.file_path@ == file_path@
                    &&& v.file_content@ == read->Content_0@
                    &&& v.lines == self.lines
                },
            },
    {
        check_issue_fields(self.issue.as_str(), self.lines)?;
        let (start, end) = self.lines;
        let content = match read {
            FileRead::Content(c) => c,
            FileRead::NotFound => return Err(InputValidationError::FileNotFound { path: self.file.clone() }),
            FileRead::Unreadable(reason) => return Err(InputValidationError::FileUnreadable { path: self.file.clone(), reason }),
        };
        let cv = chars_of(content.as_str());
        let ls = split_lines(&cv);
        if end > ls.len() {
            return Err(InputValidationError::LineRangeOutOfBounds { start, end, file_lines: ls.len() });
        }
        let snippet = extract_snippet(&ls, start, end);
        Ok(ValidatedFixInput { issue: self.issue.clone(), snippet, file_path, file_content: content, lines: self.lines })
    }
}

// ---------------------------------------------------------------------------
// Relative paths (std `Path::strip_prefix`)
// ---------------------------------------------------------------------------

/// What `std::path::Path::strip_prefix` gives for a path and a base,
/// displayed as text: the rest after the base's components, if the base is
/// a prefix.
pub uninterp spec fn path_without_prefix(path: Seq<char>, base: Seq<char>) -> Option<Seq<char>>;

/// The path relative to a base directory (std `Path::strip_prefix`,
/// displayed); named by [`path_without_prefix`].
#[verifier::external_body]
fn strip_path_prefix(path: &str, base: &str) -> (r: Option<String>)
    ensures
        match r {
            Some(p) => path_without_prefix(path@, base@) == Some(p@),
            None => path_without_prefix(path@, base@) is None,
        },
{
    std::path::Path::new(path).strip_prefix(base).ok().map(|p| p.display().to_string())
}

/// A path relative to the working directory, or the whole path where the
/// directory is not a prefix of it.
pub open spec fn relative_to(path: Seq<char>, base: Seq<char>) -> Seq<char> {
    match path_without_prefix(path, base) {
        Some(p) => p,
        None => path,
    }
}

fn relative(path: &str, base: &str) -> (r: String)
    ensures
        r@ == relative_to(path@, base@),
{
    match strip_path_prefix(path, base) {
        Some(p) => p,
        None => to_owned_string(path),
    }
}

impl ValidatedFixInput {
    /// The file path relative to the working directory, for output.
    pub fn relative_path(&self, working_dir: &str) -> (r: String)
        ensures
            r@ == relative_to(self.file_path@, working_dir@),
    {
        relative(self.file_path.as_str(), working_dir)
    }
}


// ---------------------------------------------------------------------------
// Whole-file mode
// ---------------------------------------------------------------------------

/// Issue specification for whole-file mode.
#[derive(Debug)]
pub struct IssueSpec {
    /// Description of the problem to fix
    pub issue: String,
    /// Line range [start, end] (1-indexed, inclusive)
    pub lines: (usize, usize),
}

/// Structured input for the fix command (whole-file mode): a file and the
/// issues to fix in it, processed bottom to top.
#[derive(Debug)]
pub struct WholeFileInput {
    /// Path to the file containing the code
    pub file: String,
    /// List of issues to fix
    pub issues: Vec<IssueSpec>,
}

/// Validated issue with its snippet taken from the file.
#[derive(Debug)]
pub struct ValidatedIssue {
    /// Description of the problem to fix
    pub issue: String,
    /// Exact code lines to transform (extracted from file)
    pub snippet: String,
    /// Line range [start, end] (1-indexed, inclusive)
    pub lines: (usize, usize),
}

/// Validated whole-file input with resolved file path and content.
#[derive(Debug)]
pub struct ValidatedWholeFileInput {
    /// Resolved path to the file
    pub file_path: String,
    /// Full content of the file
    pub file_content: String,
    /// Validated issues sorted by start line descending (bottom to top)
    pub issues: Vec<ValidatedIssue>,
}

/// An issue as plain values: description and range.
pub type IssueView = (Seq<char>, (usize, usize));

/// A validated issue as plain values: description, snippet, range.
pub type ValidatedIssueView = (Seq<char>, Seq<char>, (usize, usize));

/// The issues as plain values.
pub open spec fn issue_views(v: Seq<IssueSpec>) -> Seq<IssueView> {
    v.map_values(|i: IssueSpec| (i.issue@, i.lines))
}

/// The validated issues as plain values.
pub open spec fn validated_views(v: Seq<ValidatedIssue>) -> Seq<ValidatedIssueView> {
    v.map_values(|i: ValidatedIssue| (i.issue@, i.snippet@, i.lines))
}

/// The first issue's field error, from index `k` on.
pub open spec fn first_fields_error(issues: Seq<IssueView>, k: int) -> Option<InputErrorView>
    decreases issues.len() - k,
{
    if k < 0 || k >= issues.len() {
        None
    } else {
        match issue_fields_error(issues[k].0, issues[k].1) {
            Some(e) => Some(e),
            None => first_fields_error(issues, k + 1),
        }
    }
}

/// Whether two inclusive ranges overlap.
pub open spec fn overlaps(a: (usize, usize), b: (usize, usize)) -> bool {
    a.0 <= b.1 && b.0 <= a.1
}

/// The first `j >= from` whose range overlaps issue `i`'s.
pub open spec fn first_overlap_with(issues: Seq<IssueView>, i: int, from: int) -> Option<int>
    decreases issues.len() - from,
{
    if from < 0 || from >= issues.len() {
        None
    } else if overlaps(issues[i].1, issues[from].1) {
        Some(from)
    } else {
        first_overlap_with(issues, i, from + 1)
    }
}

/// The first overlapping pair `(i, j)`, `i < j`, from `i = k` on, in order.
pub open spec fn first_overlap(issues: Seq<IssueView>, k: int) -> Option<(int, int)>
    decreases issues.len() - k,
{
    if k < 0 || k >= issues.len() {
        None
    } else {
        match first_overlap_with(issues, k, k + 1) {
            Some(j) => Some((k, j)),
            None => first_overlap(issues, k + 1),
        }
    }
}

/// A range written `start..end`.
pub open spec fn range_text(r: (usize, usize)) -> Seq<char> {
    decimal(r.0 as nat) + ".."@ + decimal(r.1 as nat)
}

/// The first issue whose range ends after the file's `n` lines.
pub open spec fn first_out_of_bounds(issues: Seq<IssueView>, n: nat, k: int) -> Option<int>
    decreases issues.len() - k,
{
    if k < 0 || k >= issues.len() {
        None
    } else if issues[k].1.1 > n {
        Some(k)
    } else {
        first_out_of_bounds(issues, n, k + 1)
    }
}

/// The error whole-file validation gives, if any: no issues; an issue's
/// fields; overlapping ranges; the file; a range past the file's end.
pub open spec fn whole_file_error(file: Seq<char>, issues: Seq<IssueView>, read: FileRead) -> Option<InputErrorView> {
    if issues.len() == 0 {
        Some(InputErrorView::EmptyIssues)
    } else {
        match first_fields_error(issues, 0) {
            Some(e) => Some(e),
            None => match first_overlap(issues, 0) {
                Some((i, j)) => Some(InputErrorView::OverlappingRanges(range_text(issues[i].1), range_text(issues[j].1))),
                None => match read_error(file, read) {
                    Some(e) => Some(e),
                    None => {
                        let n = lines(read->Content_0@).len();
                        match first_out_of_bounds(issues, n, 0) {
                            Some(k) => Some(InputErrorView::LineRangeOutOfBounds(issues[k].1.0, issues[k].1.1, n as usize)),
                            None => None,
                        }
                    },
                },
            },
        }
    }
}

/// `e` inserted after every issue that starts at or below it.
pub open spec fn insert_by_start_desc(s: Seq<ValidatedIssueView>, e: ValidatedIssueView) -> Seq<ValidatedIssueView>
    decreases s.len(),
{
    if s.len() == 0 {
        seq![e]
    } else if e.2.0 > s[0].2.0 {
        seq![e] + s
    } else {
        seq![s[0]] + insert_by_start_desc(s.drop_first(), e)
    }
}

/// Issues sorted by start line, descending; equal starts keep their order
/// (a stable sort of the input order).
pub open spec fn sort_by_start_desc(s: Seq<ValidatedIssueView>) -> Seq<ValidatedIssueView>
    decreases s.len(),
{
    if s.len() == 0 {
        s
    } else {
        insert_by_start_desc(sort_by_start_desc(s.drop_last()), s.last())
    }
}

/// The issues validated against a file's content, in input order.
pub open spec fn validated_in_order(issues: Seq<IssueView>, content: Seq<char>) -> Seq<ValidatedIssueView> {
    issues.map_values(|i: IssueView| (i.0, snippet_of(content, i.1.0 as int, i.1.1 as int), i.1))
}

proof fn lemma_insert_desc_at(s: Seq<ValidatedIssueView>, e: ValidatedIssueView, p: int)
    requires
        0 <= p <= s.len(),
        forall|j: int| 0 <= j < p ==> !(e.2.0 > (#[trigger] s[j]).2.0),
        p < s.len() ==> e.2.0 > s[p].2.0,
    ensures
        insert_by_start_desc(s, e) == s.take(p) + seq![e] + s.skip(p),
    decreases s.len(),
{
    if s.len() == 0 {
        assert(s.take(p) + seq![e] + s.skip(p) =~= seq![e]);
    } else if p == 0 {
        assert(s.take(p) + seq![e] + s.skip(p) =~= seq![e] + s);
    } else {
        let t = s.drop_first();
        assert forall|j: int| 0 <= j < p - 1 implies !(e.2.0 > (#[trigger] t[j]).2.0) by {
            assert(t[j] == s[j + 1]);
        }
        lemma_insert_desc_at(t, e, p - 1);
        assert(s.take(p) + seq![e] + s.skip(p) =~= seq![s[0]] + (t.take(p - 1) + seq![e] + t.skip(p - 1)));
    }
}

fn range_string(r: (usize, usize)) -> (s: String)
    ensures
        s@ == range_text(r),
{
    let mut s = String::new();
    push_decimal(&mut s, r.0 as u64);
    push_str(&mut s, "..");
    push_decimal(&mut s, r.1 as u64);
    s
}

impl WholeFileInput {
    /// Validate the input against the file: `file_path` is where the file
    /// was looked for, `read` what reading it gave. The issues come back
    /// with their snippets, sorted by start line descending.
    pub fn validate(&self, file_path: String, read: FileRead) -> (r: Result<ValidatedWholeFileInput, InputValidationError>)
        ensures
            match whole_file_error(self.file@, issue_views(self.issues@), read) {
                Some(e) => r matches Err(x) && x@ == e,
                None => r matches Ok(v) && {
                    &&& v.file_path@ == file_path@
                    &&& v.file_content@ == read->Content_0@
                    &&& validated_views(v.issues@) == sort_by_start_desc(validated_in_order(issue_views(self.issues@), read->Content_0@))
                },
            },
    {
        let ghost iv = issue_views(self.issues@);
        if self.issues.len() == 0 {
            return Err(InputValidationError::EmptyIssues);
        }
        let n = self.issues.len();
        let mut k: usize = 0;
        while k < n
            invariant
                n == self.issues@.len(),
                iv == issue_views(self.issues@),
                k <= n,
                first_fields_error(iv, 0) == first_fields_error(iv, k as int),
            decreases n - k,
        {
            check_issue_fields(self.issues[k].issue.as_str(), self.issues[k].lines)?;
            k += 1;
        }
        let mut i: usize = 0;
        while i < n
            invariant
                n == self.issues@.len(),
                n > 0,
                iv == issue_views(self.issues@),
                i <= n,
                first_fields_error(iv, 0) is None,
                first_overlap(iv, 0) == first_overlap(iv, i as int),
            decreases n - i,
        {
            let mut j: usize = i + 1;
            while j < n
                invariant
                    n == self.issues@.len(),
                    n > 0,
                    iv == issue_views(self.issues@),
                    i < n,
                    i + 1 <= j <= n,
                    first_fields_error(iv, 0) is None,
                    first_overlap(iv, 0) == first_overlap(iv, i as int),
                    first_overlap_with(iv, i as int, i + 1) == first_overlap_with(iv, i as int, j as int),
                decreases n - j,
            {
                if ranges_overlap(self.issues[i].lines, self.issues[j].lines) {
                    return Err(InputValidationError::OverlappingRanges {
                        range1: range_string(self.issues[i].lines),
                        range2: range_string(self.issues[j].lines),
                    });
                }
                j += 1;
            }
            i += 1;
        }
        let content = match read {
            FileRead::Content(c) => c,
            FileRead::NotFound => return Err(InputValidationError::FileNotFound { path: self.file.clone() }),
            FileRead::Unreadable(reason) => return Err(InputValidationError::FileUnreadable { path: self.file.clone(), reason }),
        };
        let cv = chars_of(content.as_str());
        let ls = split_lines(&cv);
        let ghost cs = content@;
        let mut m: usize = 0;
        while m < n
            invariant
                n == self.issues@.len(),
                n > 0,
                iv == issue_views(self.issues@),
                m <= n,
                views(ls@) == lines(cs),
                read is Content,
                cs == read->Content_0@,
                first_fields_error(iv, 0) is None,
                first_overlap(iv, 0) is None,
                first_out_of_bounds(iv, lines(cs).len(), 0) == first_out_of_bounds(iv, lines(cs).len(), m as int),
            decreases n - m,
        {
            let (start, end) = self.issues[m].lines;
            if end > ls.len() {
                return Err(InputValidationError::LineRangeOutOfBounds { start, end, file_lines: ls.len() });
            }
            m += 1;
        }
        let ghost in_order = validated_in_order(iv, cs);
        let mut out: Vec<ValidatedIssue> = Vec::new();
        let mut q: usize = 0;
        while q < n
            invariant
                n == self.issues@.len(),
                iv == issue_views(self.issues@),
                in_order == validated_in_order(iv, cs),
                q <= n,
                views(ls@) == lines(cs),
                first_fields_error(iv, 0) is None,
                first_out_of_bounds(iv, lines(cs).len(), 0) is None,
                validated_views(out@) == sort_by_start_desc(in_order.take(q as int)),
            decreases n - q,
        {
            proof {
                lemma_first_fields_none(iv, 0, q as int);
                lemma_first_out_none(iv, lines(cs).len(), 0, q as int);
            }
            let (start, end) = self.issues[q].lines;
            let snippet = extract_snippet(&ls, start, end);
            let e = ValidatedIssue { issue: self.issues[q].issue.clone(), snippet, lines: (start, end) };
            let ghost ev = (e.issue@, e.snippet@, e.lines);
            assert(ev == in_order[q as int]);
            let mut p: usize = 0;
            while p < out.len() && !(start > out[p].lines.0)
                invariant
                    ev.2.0 == start,
                    p <= out@.len(),
                    forall|j: int| 0 <= j < p ==> !(ev.2.0 > (#[trigger] validated_views(out@)[j]).2.0),
                decreases out@.len() - p,
            {
                assert(validated_views(out@)[p as int].2.0 == out@[p as int].lines.0);
                p += 1;
            }
            let ghost before = validated_views(out@);
            proof {
                lemma_insert_desc_at(before, ev, p as int);
                assert(in_order.take(q + 1).drop_last() =~= in_order.take(q as int));
            }
            out.insert(p, e);
            assert(validated_views(out@) =~= before.take(p as int) + seq![ev] + before.skip(p as int));
            q += 1;
        }
        assert(in_order.take(n as int) =~= in_order);
        Ok(ValidatedWholeFileInput { file_path, file_content: content, issues: out })
    }
}

proof fn lemma_first_fields_none(issues: Seq<IssueView>, k: int, q: int)
    requires
        0 <= k <= q < issues.len(),
        first_fields_error(issues, k) is None,
    ensures
        issue_fields_error(issues[q].0, issues[q].1) is None,
    decreases q - k,
{
    if k < q {
        lemma_first_fields_none(issues, k + 1, q);
    }
}

proof fn lemma_first_out_none(issues: Seq<IssueView>, n: nat, k: int, q: int)
    requires
        0 <= k <= q < issues.len(),
        first_out_of_bounds(issues, n, k) is None,
    ensures
        issues[q].1.1 <= n,
    decreases q - k,
{
    if k < q {
        lemma_first_out_none(issues, n, k + 1, q);
    }
}

impl ValidatedWholeFileInput {
    /// The file path relative to the working directory, for output.
    pub fn relative_path(&self, working_dir: &str) -> (r: String)
        ensures
            r@ == relative_to(self.file_path@, working_dir@),
    {
        relative(self.file_path.as_str(), working_dir)
    }
}

} // verus!
