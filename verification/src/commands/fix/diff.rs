//! Applying a replacement to a file's lines, and the unified diff of the
//! change (made by the `similar` crate).

use vstd::prelude::*;
use crate::text::{chars_of, lines, push_char, push_chars, push_str, split_lines, views, to_owned_string};

verus! {

/// Result of applying a replacement and generating a diff.
#[derive(Debug, Clone)]
pub struct DiffResult {
    /// The unified diff string
    pub diff: String,
    /// The modified file content
    pub modified_content: String,
    /// Number of lines added
    pub lines_added: usize,
    /// Number of lines removed
    pub lines_removed: usize,
}

/// Lines, each followed by a line feed.
pub open spec fn lines_with_newlines(ls: Seq<Seq<char>>) -> Seq<char>
    decreases ls.len(),
{
    if ls.len() == 0 {
        seq![]
    } else {
        lines_with_newlines(ls.drop_last()) + ls.last() + "\n"@
    }
}

/// The file content with lines `start..=end` (1-based) replaced: the lines
/// before, the replacement (given a final line feed if it lacks one and is
/// not empty), the lines after; a final line feed is dropped when the
/// original content had none.
pub open spec fn applied(content: Seq<char>, replacement: Seq<char>, start: int, end: int) -> Seq<char> {
    let ls = lines(content);
    let before = if start - 1 <= ls.len() { ls.take(start - 1) } else { ls };
    let after = if end <= ls.len() { ls.skip(end) } else { seq![] };
    let mid = if replacement.len() > 0 && replacement.last() != '\n' { replacement.push('\n') } else { replacement };
    let r = lines_with_newlines(before) + mid + lines_with_newlines(after);
    if !(content.len() > 0 && content.last() == '\n') && r.len() > 0 && r.last() == '\n' {
        r.drop_last()
    } else {
        r
    }
}

fn push_lines(out: &mut String, ls: &Vec<Vec<char>>, from: usize, to: usize)
    requires
        from <= to <= ls@.len(),
    ensures
        final(out)@ == old(out)@ + lines_with_newlines(views(ls@).subrange(from as int, to as int)),
{
    let mut i = from;
    while i < to
        invariant
            from <= i <= to <= ls@.len(),
            out@ == old(out)@ + lines_with_newlines(views(ls@).subrange(from as int, i as int)),
        decreases to - i,
    {
        push_chars(out, ls[i].as_slice());
        push_str(out, "\n");
        proof {
            let sub = views(ls@).subrange(from as int, i + 1);
            assert(sub.drop_last() =~= views(ls@).subrange(from as int, i as int));
            assert(sub.last() == ls@[i as int]@);
            assert(out@ =~= old(out)@ + lines_with_newlines(sub));
        }
        i += 1;
    }
}

/// Apply a replacement to file content at a 1-based inclusive line range.
pub fn apply_replacement(file_content: &str, replacement: &str, line_range: (usize, usize)) -> (r: String)
    requires
        line_range.0 >= 1,
    ensures
        r@ == applied(file_content@, replacement@, line_range.0 as int, line_range.1 as int),
{
    let (start, end) = line_range;
    let content = chars_of(file_content);
    let ls = split_lines(&content);
    let n = ls.len();
    let mut result = String::new();
    let before_end = if start - 1 <= n { start - 1 } else { n };
    push_lines(&mut result, &ls, 0, before_end);
    let ghost lv = views(ls@);
    assert(lv.subrange(0, before_end as int) =~= (if start - 1 <= n { lv.take(start - 1) } else { lv }));
    push_str(&mut result, replacement);
    let rv = chars_of(replacement);
    if !(rv.len() > 0 && rv[rv.len() - 1] == '\n') && rv.len() > 0 {
        push_char(&mut result, '\n');
    }
    let after_start = if end <= n { end } else { n };
    push_lines(&mut result, &ls, after_start, n);
    assert(lv.subrange(after_start as int, n as int) =~= (if end <= n { lv.skip(end as int) } else { seq![] }));
    let rc = chars_of(result.as_str());
    if !(content.len() > 0 && content[content.len() - 1] == '\n') && rc.len() > 0 && rc[rc.len() - 1] == '\n' {
        let trimmed = crate::text::copy_range(&rc, 0, rc.len() - 1);
        let out = crate::text::string_from_chars(&trimmed);
        assert(trimmed@ =~= rc@.drop_last());
        return out;
    }
    result
}

// ---------------------------------------------------------------------------
// Line diffs (the `similar` crate)
// ---------------------------------------------------------------------------

/// The kind of one line in a line diff.
#[derive(Debug, Clone, Copy, PartialEq, Eq, Structural)]
pub enum LineChange {
    /// The line is in both texts
    Equal,
    /// The line is only in the original
    Delete,
    /// The line is only in the modified text
    Insert,
}

/// The kinds of the changes, in order, that `similar::TextDiff::from_lines`
/// finds between two texts (default configuration, no deadline).
pub uninterp spec fn line_diff(original: Seq<char>, modified: Seq<char>) -> Seq<LineChange>;

/// The unified diff text that `similar` writes for two texts with a context
/// radius and `---` / `+++` header names.
pub uninterp spec fn unified_diff_text(original: Seq<char>, modified: Seq<char>, context: usize, old_name: Seq<char>, new_name: Seq<char>) -> Seq<char>;

/// The changes of a line diff (`TextDiff::from_lines`, then
/// `iter_all_changes`), each by its tag; named by [`line_diff`].
#[verifier::external_body]
fn line_changes(original: &str, modified: &str) -> (r: Vec<LineChange>)
    ensures
        r@ == line_diff(original@, modified@),
{
    similar::TextDiff::from_lines(original, modified)
        .iter_all_changes()
        .map(|c| match c.tag() {
            similar::ChangeTag::Equal => LineChange::Equal,
            similar::ChangeTag::Delete => LineChange::Delete,
            similar::ChangeTag::Insert => LineChange::Insert,
        })
        .collect()
}

/// The unified diff of two texts (`TextDiff::from_lines`, then
/// `unified_diff` with the context radius and header, written to a
/// `String`); named by [`unified_diff_text`]. The crate doubles the radius
/// when grouping changes, so the radius must leave room for that.
#[verifier::external_body]
fn unified_diff(original: &str, modified: &str, context: usize, old_name: &str, new_name: &str) -> (r: String)
    requires
        context <= usize::MAX / 2,
    ensures
        r@ == unified_diff_text(original@, modified@, context, old_name@, new_name@),
{
    similar::TextDiff::from_lines(original, modified)
        .unified_diff()
        .context_radius(context)
        .header(old_name, new_name)
        .to_string()
}

/// How many changes of a kind a diff holds.
pub open spec fn count_kind(changes: Seq<LineChange>, kind: LineChange) -> nat
    decreases changes.len(),
{
    if changes.len() == 0 {
        0
    } else {
        count_kind(changes.drop_last(), kind) + if changes.last() == kind { 1nat } else { 0nat }
    }
}

/// Counts inserted and deleted lines in a diff: `(added, removed)`.
pub fn count_changes(changes: &[LineChange]) -> (r: (usize, usize))
    ensures
        r.0 == count_kind(changes@, LineChange::Insert),
        r.1 == count_kind(changes@, LineChange::Delete),
{
    let mut added: usize = 0;
    let mut removed: usize = 0;
    let mut i: usize = 0;
    while i < changes.len()
        invariant
            i <= changes@.len(),
            added == count_kind(changes@.take(i as int), LineChange::Insert),
            removed == count_kind(changes@.take(i as int), LineChange::Delete),
            added + removed <= i,
        decreases changes@.len() - i,
    {
        proof {
            assert(changes@.take(i + 1).drop_last() =~= changes@.take(i as int));
        }
        match changes[i] {
            LineChange::Insert => added += 1,
            LineChange::Delete => removed += 1,
            LineChange::Equal => {},
        }
        i += 1;
    }
    assert(changes@.take(changes@.len() as int) =~= changes@);
    (added, removed)
}

/// Generate a unified diff between original and modified content, with
/// `a/` and `b/` before the path in the headers, and count its changes.
pub fn generate_unified_diff(file_path: &str, original: &str, modified: &str, context_lines: usize) -> (r: DiffResult)
    requires
        context_lines <= usize::MAX / 2,
    ensures
        r.diff@ == unified_diff_text(original@, modified@, context_lines, "a/"@ + file_path@, "b/"@ + file_path@),
        r.modified_content@ == modified@,
        r.lines_added == count_kind(line_diff(original@, modified@), LineChange::Insert),
        r.lines_removed == count_kind(line_diff(original@, modified@), LineChange::Delete),
{
    let changes = line_changes(original, modified);
    let (lines_added, lines_removed) = count_changes(&changes);
    let mut old_name = to_owned_string("a/");
    push_str(&mut old_name, file_path);
    let mut new_name = to_owned_string("b/");
    push_str(&mut new_name, file_path);
    let diff = unified_diff(original, modified, context_lines, old_name.as_str(), new_name.as_str());
    DiffResult { diff, modified_content: to_owned_string(modified), lines_added, lines_removed }
}

} // verus!
