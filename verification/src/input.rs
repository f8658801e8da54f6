//! Input handling: reading happens at the program's edge; what the input is
//! and whether it is usable is decided here.

use vstd::prelude::*;
use crate::text::{all_ws, chars_of, contains, contains_str, is_blank, starts_with, starts_with_str};

verus! {

/// Whether content looks like a diff: a `diff --git ` header, or both a
/// `---` and a `+++` marker (at a line start, or as `--- a/` and `+++ b/`).
pub open spec fn looks_like_diff(c: Seq<char>) -> bool {
    contains(c, "diff --git "@) || (
        (contains(c, "\n--- "@) || starts_with(c, "--- "@) || contains(c, "--- a/"@))
        && (contains(c, "\n+++ "@) || starts_with(c, "+++ "@) || contains(c, "+++ b/"@))
    )
}

/// Check if content appears to be in unified (git) diff format.
pub fn is_diff_format(content: &str) -> (b: bool)
    ensures
        b == looks_like_diff(content@),
{
    let v = chars_of(content);
    if contains_str(&v, "diff --git ") {
        return true;
    }
    let has_minus = contains_str(&v, "\n--- ") || starts_with_str(&v, "--- ") || contains_str(&v, "--- a/");
    let has_plus = contains_str(&v, "\n+++ ") || starts_with_str(&v, "+++ ") || contains_str(&v, "+++ b/");
    has_minus && has_plus
}

/// The message for input that is empty or only white space.
pub open spec fn empty_input_message() -> Seq<char> {
    "input is empty; provide content to process"@
}

/// Accept read input: blank input is refused.
pub fn accept_input(content: String) -> (r: Result<String, String>)
    ensures
        is_blank(content@) ==> (r matches Err(m) && m@ == empty_input_message()),
        !is_blank(content@) ==> (r matches Ok(c) && c@ == content@),
{
    let v = chars_of(content.as_str());
    if all_ws(&v) {
        return Err("input is empty; provide content to process".to_string());
    }
    Ok(content)
}

} // verus!
