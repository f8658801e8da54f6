//! The `derive` command: generate a commit message, an explanation or a
//! summary from input, splitting large inputs into chunks whose results are
//! then combined.

use vstd::prelude::*;
use crate::prompts::{
    DERIVE_COMMIT_CHUNK_PROMPT, DERIVE_COMMIT_SYNTHESIS_PROMPT, DERIVE_EXPLANATION_CHUNK_PROMPT,
    DERIVE_EXPLANATION_SYNTHESIS_PROMPT, DERIVE_SUMMARY_CHUNK_PROMPT, DERIVE_SUMMARY_SYNTHESIS_PROMPT,
};
use crate::text::{chars_of, eq_str, lowercase, push_str, to_lowercase, to_owned_string};

verus! {

/// The type of content to derive from the input.
#[derive(Debug, Clone, Copy, PartialEq, Eq, Structural)]
pub enum DeriveType {
    /// Generate a commit message from a diff
    CommitMsg,
    /// Generate an explanation of code
    Explanation,
    /// Generate a summary of the input
    Summary,
}

/// The derive type a name gives, ignoring case.
pub open spec fn derive_type_of(s: Seq<char>) -> Option<DeriveType> {
    let l = lowercase(s);
    if l == "commit-msg"@ || l == "commit"@ {
        Some(DeriveType::CommitMsg)
    } else if l == "explanation"@ || l == "explain"@ {
        Some(DeriveType::Explanation)
    } else if l == "summary"@ {
        Some(DeriveType::Summary)
    } else {
        None
    }
}

/// The command name of a derive type, for prompts and dry runs.
pub open spec fn derive_command_name(t: DeriveType) -> Seq<char> {
    match t {
        DeriveType::CommitMsg => "derive:commit-msg"@,
        DeriveType::Explanation => "derive:explanation"@,
        DeriveType::Summary => "derive:summary"@,
    }
}

impl DeriveType {
    /// Parse a derive type name, ignoring case.
    pub fn from_str(s: &str) -> (r: Result<Self, String>)
        ensures
            match derive_type_of(s@) {
                Some(t) => r == Ok::<Self, String>(t),
                None => r matches Err(e) && e@ == "unknown derive type '"@ + s@ + "'; valid types: commit-msg, explanation, summary"@,
            },
    {
        let lower = to_lowercase(s);
        let v = chars_of(lower.as_str());
        if eq_str(&v, "commit-msg") || eq_str(&v, "commit") {
            Ok(DeriveType::CommitMsg)
        } else if eq_str(&v, "explanation") || eq_str(&v, "explain") {
            Ok(DeriveType::Explanation)
        } else if eq_str(&v, "summary") {
            Ok(DeriveType::Summary)
        } else {
            let mut e = to_owned_string("unknown derive type '");
            push_str(&mut e, s);
            push_str(&mut e, "'; valid types: commit-msg, explanation, summary");
            Err(e)
        }
    }

    /// The command name for prompts and dry-run output.
    pub fn command_name(self) -> (r: &'static str)
        ensures
            r@ == derive_command_name(self),
    {
        match self {
            DeriveType::CommitMsg => "derive:commit-msg",
            DeriveType::Explanation => "derive:explanation",
            DeriveType::Summary => "derive:summary",
        }
    }
}

/// Options for the derive command.
#[derive(Debug)]
pub struct DeriveOptions {
    /// Type of content to derive
    pub derive_type: DeriveType,
    /// Commit style (only used for commit-msg type)
    pub style: Option<String>,
    /// Enable recursive chunking for large inputs
    pub chunk_recursive: bool,
    /// Maximum concurrent chunk executions
    pub max_concurrency: usize,
    /// Show dry-run information without model calls
    pub dry_run: bool,
}

/// Target tokens per chunk (about 4k, to leave room for prompts).
pub const TARGET_CHUNK_TOKENS: usize = 4000;

/// Estimated number of chunks for a token count: one up to the target, else
/// the count divided by the target, rounded up.
pub fn estimate_chunk_count(total_tokens: usize) -> (r: usize)
    ensures
        total_tokens <= TARGET_CHUNK_TOKENS ==> r == 1,
        total_tokens > TARGET_CHUNK_TOKENS ==> r == (total_tokens + TARGET_CHUNK_TOKENS - 1) / TARGET_CHUNK_TOKENS as int,
{
    if total_tokens <= TARGET_CHUNK_TOKENS {
        1
    } else {
        total_tokens / TARGET_CHUNK_TOKENS + if total_tokens % TARGET_CHUNK_TOKENS == 0 { 0 } else { 1 }
    }
}

/// The commit style named, or "conventional".
pub open spec fn style_name(style: Option<Seq<char>>) -> Seq<char> {
    match style {
        Some(s) => s,
        None => "conventional"@,
    }
}

/// The view of an optional text.
pub open spec fn opt_str(o: Option<&str>) -> Option<Seq<char>> {
    match o {
        Some(s) => Some(s@),
        None => None,
    }
}

fn style_or_default<'a>(style: Option<&'a str>) -> (r: &'a str)
    ensures
        r@ == style_name(opt_str(style)),
{
    match style {
        Some(s) => s,
        None => "conventional",
    }
}

/// The user request for a single-pass derive.
pub open spec fn user_request(t: DeriveType, style: Option<Seq<char>>) -> Seq<char> {
    match t {
        DeriveType::CommitMsg => "Generate a "@ + style_name(style) + " commit message for these changes."@,
        DeriveType::Explanation => "Explain this code."@,
        DeriveType::Summary => "Summarize this content."@,
    }
}

/// Build the user request for single-pass execution.
pub fn build_user_request(derive_type: DeriveType, style: Option<&str>) -> (r: String)
    ensures
        r@ == user_request(derive_type, opt_str(style)),
{
    match derive_type {
        DeriveType::CommitMsg => {
            let mut r = to_owned_string("Generate a ");
            push_str(&mut r, style_or_default(style));
            push_str(&mut r, " commit message for these changes.");
            r
        },
        DeriveType::Explanation => to_owned_string("Explain this code."),
        DeriveType::Summary => to_owned_string("Summarize this content."),
    }
}

/// The user request for one chunk.
pub open spec fn chunk_user_request(t: DeriveType, style: Option<Seq<char>>) -> Seq<char> {
    match t {
        DeriveType::CommitMsg => "Summarize the changes in this portion of the diff for a "@ + style_name(style)
            + " commit message."@,
        DeriveType::Explanation => "Explain this section of code."@,
        DeriveType::Summary => "Summarize this section."@,
    }
}

/// Build the user request for chunk processing.
pub fn build_chunk_user_request(derive_type: DeriveType, style: Option<&str>) -> (r: String)
    ensures
        r@ == chunk_user_request(derive_type, opt_str(style)),
{
    match derive_type {
        DeriveType::CommitMsg => {
            let mut r = to_owned_string("Summarize the changes in this portion of the diff for a ");
            push_str(&mut r, style_or_default(style));
            push_str(&mut r, " commit message.");
            r
        },
        DeriveType::Explanation => to_owned_string("Explain this section of code."),
        DeriveType::Summary => to_owned_string("Summarize this section."),
    }
}

/// The user request for combining chunk results.
pub open spec fn synthesis_request(t: DeriveType, style: Option<Seq<char>>) -> Seq<char> {
    match t {
        DeriveType::CommitMsg => "Combine these partial summaries into a single "@ + style_name(style) + " commit message."@,
        DeriveType::Explanation => "Combine these section explanations into a cohesive overall explanation."@,
        DeriveType::Summary => "Combine these partial summaries into a comprehensive overall summary."@,
    }
}

/// Build the user request for the synthesis step.
pub fn build_synthesis_request(derive_type: DeriveType, style: Option<&str>) -> (r: String)
    ensures
        r@ == synthesis_request(derive_type, opt_str(style)),
{
    match derive_type {
        DeriveType::CommitMsg => {
            let mut r = to_owned_string("Combine these partial summaries into a single ");
            push_str(&mut r, style_or_default(style));
            push_str(&mut r, " commit message.");
            r
        },
        DeriveType::Explanation => to_owned_string("Combine these section explanations into a cohesive overall explanation."),
        DeriveType::Summary => to_owned_string("Combine these partial summaries into a comprehensive overall summary."),
    }
}

/// The chunk prompt of a derive type.
pub open spec fn chunk_prompt(t: DeriveType) -> Seq<char> {
    match t {
        DeriveType::CommitMsg => DERIVE_COMMIT_CHUNK_PROMPT@,
        DeriveType::Explanation => DERIVE_EXPLANATION_CHUNK_PROMPT@,
        DeriveType::Summary => DERIVE_SUMMARY_CHUNK_PROMPT@,
    }
}

/// The synthesis prompt of a derive type.
pub open spec fn synthesis_prompt(t: DeriveType) -> Seq<char> {
    match t {
        DeriveType::CommitMsg => DERIVE_COMMIT_SYNTHESIS_PROMPT@,
        DeriveType::Explanation => DERIVE_EXPLANATION_SYNTHESIS_PROMPT@,
        DeriveType::Summary => DERIVE_SUMMARY_SYNTHESIS_PROMPT@,
    }
}

/// Get the chunk processing prompt for a derive type.
pub fn derive_chunk_prompt_for_type(derive_type: DeriveType) -> (r: &'static str)
    ensures
        r@ == chunk_prompt(derive_type),
{
    match derive_type {
        DeriveType::CommitMsg => DERIVE_COMMIT_CHUNK_PROMPT,
        DeriveType::Explanation => DERIVE_EXPLANATION_CHUNK_PROMPT,
        DeriveType::Summary => DERIVE_SUMMARY_CHUNK_PROMPT,
    }
}

/// Get the synthesis prompt for a derive type.
pub fn derive_synthesis_prompt_for_type(derive_type: DeriveType) -> (r: &'static str)
    ensures
        r@ == synthesis_prompt(derive_type),
{
    match derive_type {
        DeriveType::CommitMsg => DERIVE_COMMIT_SYNTHESIS_PROMPT,
        DeriveType::Explanation => DERIVE_EXPLANATION_SYNTHESIS_PROMPT,
        DeriveType::Summary => DERIVE_SUMMARY_SYNTHESIS_PROMPT,
    }
}

} // verus!

use crate::text::{
    copy_range, occurs_at, rfind, skip_ws_start, string_from_chars, string_views, trim, trim_bounds, trim_start,
};
use crate::output::dry_run::ChunkPlan;
use crate::tokens::TokenCheck;
use crate::text::{join, join_strings};

verus! {

/// The last place `p` occurs in `s`, if it does.
pub open spec fn last_occurrence(s: Seq<char>, p: Seq<char>) -> Option<int> {
    if exists|i: int| occurs_at(s, p, i) && forall|j: int| i < j ==> !occurs_at(s, p, j) {
        Some(choose|i: int| occurs_at(s, p, i) && forall|j: int| i < j ==> !occurs_at(s, p, j))
    } else {
        None
    }
}

/// Where to split a text near character `target`: within 500 characters
/// either side, after the last paragraph break, else after the last line
/// break, else at the target (or the end). `None` where the window is empty
/// because the target lies more than 500 characters past the end.
pub open spec fn split_point_spec(s: Seq<char>, target: int) -> Option<int> {
    let len = s.len() as int;
    let ss = if target >= 500 { target - 500 } else { 0 };
    let se = if target + 500 <= len { target + 500 } else { len };
    if ss > se {
        None
    } else {
        let r = s.subrange(ss, se);
        match last_occurrence(r, "\n\n"@) {
            Some(p) => Some(ss + p + 2),
            None => match last_occurrence(r, "\n"@) {
                Some(p) => Some(ss + p + 1),
                None => Some(if target <= len { target } else { len }),
            },
        }
    }
}

proof fn lemma_last_occurrence(s: Seq<char>, p: Seq<char>, i: int)
    requires
        occurs_at(s, p, i),
        forall|j: int| i < j ==> !occurs_at(s, p, j),
    ensures
        last_occurrence(s, p) == Some(i),
{
    let c = choose|c: int| occurs_at(s, p, c) && forall|j: int| c < j ==> !occurs_at(s, p, j);
    assert(occurs_at(s, p, c));
    if c < i {
        assert(!occurs_at(s, p, i));
    } else if c > i {
        assert(!occurs_at(s, p, c));
    }
}

fn last_of(r: &Vec<char>, pat: &str) -> (x: Option<usize>)
    ensures
        match x {
            Some(i) => last_occurrence(r@, pat@) == Some(i as int),
            None => last_occurrence(r@, pat@) is None,
        },
{
    let pv = chars_of(pat);
    let x = rfind(r, &pv);
    proof {
        match x {
            Some(i) => lemma_last_occurrence(r@, pat@, i as int),
            None => {},
        }
    }
    x
}

fn split_point(s: &Vec<char>, target: usize) -> (r: Option<usize>)
    ensures
        match r {
            Some(x) => split_point_spec(s@, target as int) == Some(x as int) && x <= s@.len(),
            None => split_point_spec(s@, target as int) is None,
        },
{
    let len = s.len();
    let ss: usize = if target >= 500 { target - 500 } else { 0 };
    let se: usize = if target <= len && len - target >= 500 { target + 500 } else { len };
    if ss > se {
        return None;
    }
    let r = copy_range(s, ss, se);
    proof {
        reveal_strlit("\n\n");
        reveal_strlit("\n");
    }
    if let Some(p) = last_of(&r, "\n\n") {
        return Some(ss + p + 2);
    }
    if let Some(p) = last_of(&r, "\n") {
        return Some(ss + p + 1);
    }
    Some(if target <= len { target } else { len })
}

/// Find a good split point near a character position: a paragraph break,
/// then a line break, within 500 characters either side; else the position
/// itself.
pub fn find_split_point(content: &str, target: usize) -> (r: usize)
    requires
        split_point_spec(content@, target as int) is Some,
    ensures
        split_point_spec(content@, target as int) == Some(r as int),
{
    let v = chars_of(content);
    let x = split_point(&v, target);
    x.unwrap()
}

/// The chunks of the rest of a text, after `acc`: while the rest is longer
/// than `tc` characters, split it at the split point, keep the part before
/// it trimmed, and go on with the part after it, trimmed at the start.
/// `None` where no progress is made (a target of zero).
pub open spec fn split_rest(rem: Seq<char>, tc: int, acc: Seq<Seq<char>>) -> Option<Seq<Seq<char>>>
    decreases rem.len(),
{
    if rem.len() == 0 {
        Some(acc)
    } else if rem.len() <= tc {
        Some(acc.push(rem))
    } else {
        match split_point_spec(rem, tc) {
            None => None,
            Some(k) => {
                let rest = trim_start(rem.skip(k));
                if rest.len() < rem.len() {
                    split_rest(rest, tc, acc.push(trim(rem.take(k))))
                } else {
                    None
                }
            },
        }
    }
}

/// The chunks of a text of about `target_tokens` tokens each (four
/// characters a token): the empty text gives one empty chunk, a short text
/// itself. `None` where four times the target does not fit in a `usize`, or
/// where it is zero for a non-empty text.
pub open spec fn split_spec(content: Seq<char>, target_tokens: int) -> Option<Seq<Seq<char>>> {
    if content.len() == 0 {
        Some(seq![seq![]])
    } else if target_tokens * 4 > usize::MAX {
        None
    } else if content.len() <= target_tokens * 4 {
        Some(seq![content])
    } else {
        split_rest(content, target_tokens * 4, seq![])
    }
}

/// Trimming the start never lengthens a text.
proof fn lemma_trim_start_len(s: Seq<char>)
    ensures
        trim_start(s).len() <= s.len(),
    decreases s.len(),
{
    if s.len() > 0 && crate::text::is_ws(s[0]) {
        lemma_trim_start_len(s.drop_first());
    }
}

/// A split point exists for any target no more than 500 characters past the
/// end of the text, and for a target of at least one in a non-empty text it
/// lies past the start.
pub proof fn lemma_split_point_some(s: Seq<char>, target: int)
    requires
        0 <= target <= s.len() + 500,
    ensures
        split_point_spec(s, target) is Some,
        target >= 1 && s.len() >= 1 ==> split_point_spec(s, target)->0 >= 1,
{
    let len = s.len() as int;
    let ss = if target >= 500 { target - 500 } else { 0 };
    let se = if target + 500 <= len { target + 500 } else { len };
    let r = s.subrange(ss, se);
    if last_occurrence(r, "\n\n"@) is Some {
        let p = last_occurrence(r, "\n\n"@)->0;
        assert(occurs_at(r, "\n\n"@, p) && forall|j: int| p < j ==> !occurs_at(r, "\n\n"@, j));
    } else if last_occurrence(r, "\n"@) is Some {
        let p = last_occurrence(r, "\n"@)->0;
        assert(occurs_at(r, "\n"@, p) && forall|j: int| p < j ==> !occurs_at(r, "\n"@, j));
    }
}

/// Splitting the rest of a text ends, for a positive chunk size.
proof fn lemma_split_rest_some(rem: Seq<char>, tc: int, acc: Seq<Seq<char>>)
    requires
        tc >= 1,
    ensures
        split_rest(rem, tc, acc) is Some,
    decreases rem.len(),
{
    if rem.len() > 0 && rem.len() > tc {
        lemma_split_point_some(rem, tc);
        let k = split_point_spec(rem, tc)->0;
        let rest = trim_start(rem.skip(k));
        assert(k <= rem.len()) by {
            lemma_split_point_bound(rem, tc);
        }
        lemma_trim_start_len(rem.skip(k));
        lemma_split_rest_some(rest, tc, acc.push(trim(rem.take(k))));
    }
}

/// A split point lies within the text.
proof fn lemma_split_point_bound(s: Seq<char>, target: int)
    requires
        0 <= target,
        split_point_spec(s, target) is Some,
    ensures
        split_point_spec(s, target)->0 <= s.len(),
{
    let len = s.len() as int;
    let ss = if target >= 500 { target - 500 } else { 0 };
    let se = if target + 500 <= len { target + 500 } else { len };
    let r = s.subrange(ss, se);
    if last_occurrence(r, "\n\n"@) is Some {
        let p = last_occurrence(r, "\n\n"@)->0;
        assert(occurs_at(r, "\n\n"@, p) && forall|j: int| p < j ==> !occurs_at(r, "\n\n"@, j));
        reveal_strlit("\n\n");
    } else if last_occurrence(r, "\n"@) is Some {
        let p = last_occurrence(r, "\n"@)->0;
        assert(occurs_at(r, "\n"@, p) && forall|j: int| p < j ==> !occurs_at(r, "\n"@, j));
        reveal_strlit("\n");
    }
}

/// Splitting ends, and gives chunks, whenever the target is at least one
/// token and four times it fits in a `usize`.
pub proof fn lemma_split_some(content: Seq<char>, target_tokens: int)
    requires
        target_tokens >= 1,
        target_tokens * 4 <= usize::MAX,
    ensures
        split_spec(content, target_tokens) is Some,
{
    if content.len() > 0 && content.len() > target_tokens * 4 {
        lemma_split_rest_some(content, target_tokens * 4, seq![]);
    }
}

/// Split content into chunks of about `target_tokens` tokens, at paragraph
/// or line breaks where possible; `None` where splitting would not end (a
/// zero target) or the size overflows.
pub fn try_split_by_tokens(content: &str, target_tokens: usize) -> (r: Option<Vec<String>>)
    ensures
        match split_spec(content@, target_tokens as int) {
            Some(cs) => r matches Some(v) && string_views(v@) == cs,
            None => r is None,
        },
{
    let v = chars_of(content);
    if v.len() == 0 {
        let r = vec![String::new()];
        assert(string_views(r@) =~= seq![Seq::<char>::empty()]);
        return Some(r);
    }
    if target_tokens > usize::MAX / 4 {
        return None;
    }
    let tc: usize = target_tokens * 4;
    if v.len() <= tc {
        let r = vec![to_owned_string(content)];
        assert(string_views(r@) =~= seq![content@]);
        return Some(r);
    }
    let mut chunks: Vec<String> = Vec::new();
    let mut rem = v;
    assert(string_views(chunks@) =~= Seq::<Seq<char>>::empty());
    loop
        invariant
            tc == target_tokens * 4,
            split_spec(content@, target_tokens as int) == split_rest(rem@, tc as int, string_views(chunks@)),
        decreases rem@.len(),
    {
        if rem.len() == 0 {
            return Some(chunks);
        }
        if rem.len() <= tc {
            let ghost before = chunks@;
            let last = string_from_chars(&rem);
            chunks.push(last);
            assert(string_views(chunks@) =~= string_views(before).push(rem@));
            return Some(chunks);
        }
        let k = match split_point(&rem, tc) {
            Some(x) => x,
            None => return None,
        };
        let head = copy_range(&rem, 0, k);
        let (a, b) = trim_bounds(&head);
        let chunk = copy_range(&head, a, b);
        let after = copy_range(&rem, k, rem.len());
        let st = skip_ws_start(&after);
        let rest = copy_range(&after, st, after.len());
        proof {
            assert(head@ =~= rem@.take(k as int));
            assert(after@ =~= rem@.skip(k as int));
            assert(rest@ =~= after@.skip(st as int));
        }
        if rest.len() >= rem.len() {
            return None;
        }
        let ghost before = chunks@;
        chunks.push(string_from_chars(&chunk));
        assert(string_views(chunks@) =~= string_views(before).push(trim(rem@.take(k as int))));
        rem = rest;
    }
}

/// Split content into chunks of about `target_tokens` tokens, at paragraph
/// or line breaks where possible.
pub fn split_by_tokens(content: &str, target_tokens: usize) -> (r: Vec<String>)
    requires
        split_spec(content@, target_tokens as int) is Some,
    ensures
        split_spec(content@, target_tokens as int) == Some(string_views(r@)),
{
    try_split_by_tokens(content, target_tokens).unwrap()
}


/// The chunk plan a derive dry run shows: with recursive chunking, the
/// estimated number of chunks (no details); otherwise none.
pub fn derive_dry_run_plan(chunk_recursive: bool, tokens: usize) -> (r: ChunkPlan)
    ensures
        r.enabled == chunk_recursive,
        r.chunk_count == (if chunk_recursive {
            Some(if tokens <= TARGET_CHUNK_TOKENS { 1 } else {
                ((tokens + TARGET_CHUNK_TOKENS - 1) / TARGET_CHUNK_TOKENS as int) as usize
            })
        } else {
            None
        }),
        r.chunks@.len() == 0,
{
    if chunk_recursive {
        ChunkPlan { enabled: true, chunk_count: Some(estimate_chunk_count(tokens)), chunks: Vec::new() }
    } else {
        ChunkPlan { enabled: false, chunk_count: None, chunks: Vec::new() }
    }
}

/// What the token check means for derive: without recursive chunking a
/// warning suggests it and an error refuses the input; with it, both pass
/// silently. `Ok` carries the warning to print, if any.
pub fn derive_token_decision(check: &TokenCheck, chunk_recursive: bool) -> (r: Result<Option<String>, String>)
    ensures
        match *check {
            TokenCheck::WithinLimits(_) => r == Ok::<Option<String>, String>(None),
            TokenCheck::Warning { message, .. } => if chunk_recursive {
                r == Ok::<Option<String>, String>(None)
            } else {
                r matches Ok(Some(w)) && w@ == message@ + "; consider using --chunk-recursive"@
            },
            TokenCheck::Error { message, .. } => if chunk_recursive {
                r == Ok::<Option<String>, String>(None)
            } else {
                r matches Err(e) && e@ == message@ + "; use --chunk-recursive to process large inputs"@
            },
        },
{
    match check {
        TokenCheck::WithinLimits(_) => Ok(None),
        TokenCheck::Warning { message, .. } => {
            if chunk_recursive {
                Ok(None)
            } else {
                let mut w = message.clone();
                push_str(&mut w, "; consider using --chunk-recursive");
                Ok(Some(w))
            }
        },
        TokenCheck::Error { message, .. } => {
            if chunk_recursive {
                Ok(None)
            } else {
                let mut e = message.clone();
                push_str(&mut e, "; use --chunk-recursive to process large inputs");
                Err(e)
            }
        },
    }
}

/// The input of the synthesis step: the chunks' answers, separated by
/// horizontal rules.
pub fn synthesis_input(chunk_results: &[String]) -> (r: String)
    ensures
        r@ == join(string_views(chunk_results@), "\n\n---\n\n"@),
{
    join_strings(chunk_results, "\n\n---\n\n")
}

} // verus!
