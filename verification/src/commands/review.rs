//! The review command's decisions: what input it accepts, the system
//! prompt, the dry-run plan, and how per-file results are combined.

use vstd::prelude::*;
use crate::chunk::{chunk_diff_by_file, diff_chunks, diff_chunk_views, DiffChunk};
use crate::input::{is_diff_format, looks_like_diff};
use crate::output::dry_run::{ChunkInfo, ChunkPlan};
use crate::output::review::{issue_views, ChunkFailure, IssueView, ReviewIssue, ReviewResult};
use crate::prompts::{build_category_review_prompt, build_review_prompt, category_review_prompt, review_prompt};
use crate::rules::{prompt_section, sort_resolved, concat_groups, filtered_spec, RulesConfig};
use crate::text::{
    chars_of, decimal, eq_str, join, join_strings, push_decimal, push_str, string_views, to_owned_string,
};
use crate::tokens::{count_tokens_heuristic, heuristic_tokens};

verus! {

/// Options for the review command.
#[derive(Debug)]
pub struct ReviewOptions {
    /// Enable chunked processing
    pub chunk: bool,
    /// Maximum concurrent chunk executions
    pub max_concurrency: usize,
    /// Return partial results when some chunks fail
    pub partial: bool,
    /// Show dry-run information without model calls
    pub dry_run: bool,
}

/// What kind of input a review gets.
#[derive(Debug)]
pub enum InputType {
    /// Input is a diff
    Diff,
    /// Input is one file, named with --from
    SingleFile(String),
}

/// The message for input that is neither a diff nor a named file.
pub open spec fn not_reviewable_message() -> Seq<char> {
    "review expects diff input or --from FILE; use 'usx derive explanation' for arbitrary text"@
}

/// Decide what the input is: a diff is always accepted; other text only
/// from a file given with --from.
pub fn validate_input(content: &str, from: Option<&str>) -> (r: Result<InputType, &'static str>)
    ensures
        looks_like_diff(content@) ==> r matches Ok(InputType::Diff),
        !looks_like_diff(content@) && from is Some ==> (r matches Ok(InputType::SingleFile(p)) && p@ == from->0@),
        !looks_like_diff(content@) && from is None ==> (r matches Err(m) && m@ == not_reviewable_message()),
{
    if is_diff_format(content) {
        return Ok(InputType::Diff);
    }
    match from {
        Some(p) => Ok(InputType::SingleFile(to_owned_string(p))),
        None => Err("review expects diff input or --from FILE; use 'usx derive explanation' for arbitrary text"),
    }
}

/// The system prompt of a review: with no checks, the general review
/// prompt; else one focused on the checks (joined with ", "). Either way
/// with the section of the rules the checks select.
pub open spec fn review_system_prompt_spec(rules: Seq<char>, checks: Seq<Seq<char>>) -> Seq<char> {
    if checks.len() == 0 {
        review_prompt(rules)
    } else {
        category_review_prompt(join(checks, ", "@), rules)
    }
}

/// Build the review system prompt from the rules configuration and checks.
pub fn review_system_prompt(rules_config: &RulesConfig, checks: &[String]) -> (r: String)
    ensures
        r@ == review_system_prompt_spec(
            prompt_section(sort_resolved(concat_groups(filtered_spec(rules_config.categories@, string_views(checks@), seq![])), false)),
            string_views(checks@),
        ),
{
    let no_files: Vec<String> = Vec::new();
    assert(string_views(no_files@) =~= Seq::<Seq<char>>::empty());
    let resolved = rules_config.resolve(checks, no_files.as_slice());
    let section = resolved.to_prompt_section();
    if checks.len() == 0 {
        build_review_prompt(section.as_str())
    } else {
        let categories = join_strings(checks, ", ");
        build_category_review_prompt(categories.as_str(), section.as_str())
    }
}

/// The plan of a review dry run: one chunk per file of a diff, with its
/// heuristic token estimate, when chunking a diff that has file sections;
/// else no chunking.
pub open spec fn review_chunk_plan(chunk_mode: bool, raw: Seq<char>) -> (bool, Option<usize>, Seq<(Seq<char>, nat, Seq<Seq<char>>)>) {
    let cs = diff_chunks(raw);
    if chunk_mode && looks_like_diff(raw) && cs.len() > 0 {
        (true, Some(cs.len() as usize), cs.map_values(|c: (Seq<char>, Seq<char>)| (c.0, heuristic_tokens(c.1.len()), seq![c.0])))
    } else {
        (false, None, seq![])
    }
}

/// A plan as plain values.
pub open spec fn plan_view(p: ChunkPlan) -> (bool, Option<usize>, Seq<(Seq<char>, nat, Seq<Seq<char>>)>) {
    (p.enabled, p.chunk_count, p.chunks@.map_values(|c: ChunkInfo| (c.id@, c.tokens_estimated as nat, string_views(c.files@))))
}

/// The chunking plan for a review dry run.
pub fn review_dry_run_plan(chunk_mode: bool, raw_input: &str) -> (r: ChunkPlan)
    ensures
        plan_view(r) == review_chunk_plan(chunk_mode, raw_input@),
{
    let none = ChunkPlan { enabled: false, chunk_count: None, chunks: Vec::new() };
    if !(chunk_mode && is_diff_format(raw_input)) {
        assert(plan_view(none) =~= review_chunk_plan(chunk_mode, raw_input@));
        return none;
    }
    let chunks = chunk_diff_by_file(raw_input);
    if chunks.len() == 0 {
        assert(plan_view(none) =~= review_chunk_plan(chunk_mode, raw_input@));
        return none;
    }
    let ghost cs = diff_chunks(raw_input@);
    let ghost target = cs.map_values(|c: (Seq<char>, Seq<char>)| (c.0, heuristic_tokens(c.1.len()), seq![c.0]));
    let mut infos: Vec<ChunkInfo> = Vec::new();
    let mut i: usize = 0;
    while i < chunks.len()
        invariant
            i <= chunks@.len(),
            diff_chunk_views(chunks@) == cs,
            target == cs.map_values(|c: (Seq<char>, Seq<char>)| (c.0, heuristic_tokens(c.1.len()), seq![c.0])),
            infos@.map_values(|c: ChunkInfo| (c.id@, c.tokens_estimated as nat, string_views(c.files@))) == target.take(i as int),
        decreases chunks@.len() - i,
    {
        let c = &chunks[i];
        let tokens = count_tokens_heuristic(c.content.as_str());
        let files = vec![c.file_path.clone()];
        let info = ChunkInfo { id: c.file_path.clone(), tokens_estimated: tokens.count, files };
        let ghost before = infos@;
        infos.push(info);
        proof {
            assert(string_views(files@) =~= seq![c.file_path@]);
            assert(cs[i as int] == (c.file_path@, c.content@));
            assert(infos@.map_values(|c: ChunkInfo| (c.id@, c.tokens_estimated as nat, string_views(c.files@)))
                =~= before.map_values(|c: ChunkInfo| (c.id@, c.tokens_estimated as nat, string_views(c.files@))).push(target[i as int]));
            assert(target.take(i + 1) =~= target.take(i as int).push(target[i as int]));
            assert(infos@.map_values(|c: ChunkInfo| (c.id@, c.tokens_estimated as nat, string_views(c.files@)))
                =~= target.take(i + 1));
        }
        i += 1;
    }
    let n = chunks.len();
    let r = ChunkPlan { enabled: true, chunk_count: Some(n), chunks: infos };
    assert(target.take(n as int) =~= target);
    assert(plan_view(r) =~= review_chunk_plan(chunk_mode, raw_input@));
    r
}

/// What a chunk's review gave: its issues, or the error.
pub type ChunkOutcome = (Seq<char>, Result<Seq<IssueView>, Seq<char>>);

/// The state of combining chunk outcomes: issues so far, failures so far,
/// successes so far; or the error that stopped it.
pub open spec fn combine_outcomes(v: Seq<ChunkOutcome>, partial: bool) -> Result<(Seq<IssueView>, Seq<(Seq<char>, Seq<char>)>, nat), Seq<char>>
    decreases v.len(),
{
    if v.len() == 0 {
        Ok((seq![], seq![], 0))
    } else {
        match combine_outcomes(v.drop_last(), partial) {
            Err(e) => Err(e),
            Ok((issues, failures, ok)) => match v.last().1 {
                Ok(is) => Ok((issues + is, failures, ok + 1)),
                Err(e) => if partial {
                    Ok((issues, failures.push((v.last().0, e)), ok))
                } else {
                    Err("review failed for "@ + v.last().0 + ": "@ + e)
                },
            },
        }
    }
}

/// Whether any issue has severity "error".
pub open spec fn has_error_issue(v: Seq<IssueView>) -> bool {
    exists|i: int| 0 <= i < v.len() && (#[trigger] v[i]).0 == "error"@
}

/// The combined result of a chunked review of `count` files: issues of all
/// chunks in order; failed chunks (kept with --partial); passed when no
/// issue is an error and no chunk failed; an error when every chunk failed.
pub open spec fn chunked_review_spec(count: usize, v: Seq<ChunkOutcome>, partial: bool) -> Result<(Seq<char>, Seq<IssueView>, bool, Seq<(Seq<char>, Seq<char>)>), Seq<char>> {
    match combine_outcomes(v, partial) {
        Err(e) => Err(e),
        Ok((issues, failures, ok)) => if ok == 0 && failures.len() > 0 {
            Err("all "@ + decimal(failures.len()) + " chunk(s) failed; first error: "@ + failures[0].1)
        } else {
            let summary = "Reviewed "@ + decimal(count as nat) + " file(s)"@ + if failures.len() == 0 {
                seq![]
            } else {
                " ("@ + decimal(ok) + " succeeded, "@ + decimal(failures.len()) + " failed)"@
            };
            Ok((summary, issues, !has_error_issue(issues) && failures.len() == 0, failures))
        },
    }
}

/// The outcomes as plain values.
pub open spec fn outcome_views(v: Seq<(String, Result<ReviewResult, String>)>) -> Seq<ChunkOutcome> {
    v.map_values(|o: (String, Result<ReviewResult, String>)| (o.0@, match o.1 {
        Ok(r) => Ok(issue_views(r.issues@)),
        Err(e) => Err(e@),
    }))
}

/// The failures as plain values.
pub open spec fn failure_views(v: Seq<ChunkFailure>) -> Seq<(Seq<char>, Seq<char>)> {
    v.map_values(|f: ChunkFailure| (f.file_path@, f.error@))
}

/// Combine the per-file results of a chunked review of `chunk_count`
/// files.
pub fn combine_chunk_results(chunk_count: usize, results: &Vec<(String, Result<ReviewResult, String>)>, partial: bool) -> (r: Result<ReviewResult, String>)
    ensures
        match chunked_review_spec(chunk_count, outcome_views(results@), partial) {
            Ok((summary, issues, passed, failures)) => r matches Ok(res) && {
                &&& res.summary@ == summary
                &&& issue_views(res.issues@) == issues
                &&& res.passed == passed
                &&& res.chunks_processed == Some(chunk_count)
                &&& failure_views(res.chunk_failures@) == failures
            },
            Err(e) => r matches Err(m) && m@ == e,
        },
{
    let ghost ov = outcome_views(results@);
    let mut issues: Vec<ReviewIssue> = Vec::new();
    let mut failures: Vec<ChunkFailure> = Vec::new();
    let mut ok: usize = 0;
    let mut i: usize = 0;
    assert(issue_views(issues@) =~= Seq::<IssueView>::empty());
    assert(failure_views(failures@) =~= Seq::<(Seq<char>, Seq<char>)>::empty());
    assert(ov.take(0) =~= Seq::<ChunkOutcome>::empty());
    while i < results.len()
        invariant
            i <= results@.len(),
            ov == outcome_views(results@),
            ok <= i,
            combine_outcomes(ov.take(i as int), partial) == Ok::<_, Seq<char>>((issue_views(issues@), failure_views(failures@), ok as nat)),
        decreases results@.len() - i,
    {
        proof {
            assert(ov.take(i + 1).drop_last() =~= ov.take(i as int));
        }
        match &results[i].1 {
            Ok(res) => {
                let ghost before = issues@;
                let mut j: usize = 0;
                while j < res.issues.len()
                    invariant
                        j <= res.issues@.len(),
                        issue_views(issues@) == issue_views(before) + issue_views(res.issues@).take(j as int),
                    decreases res.issues@.len() - j,
                {
                    let ghost b2 = issues@;
                    issues.push(res.issues[j].duplicate());
                    assert(issue_views(issues@) =~= issue_views(b2).push(res.issues@[j as int]@));
                    assert(issue_views(res.issues@).take(j + 1) =~= issue_views(res.issues@).take(j as int).push(res.issues@[j as int]@));
                    j += 1;
                }
                assert(issue_views(res.issues@).take(res.issues@.len() as int) =~= issue_views(res.issues@));
                ok += 1;
            },
            Err(e) => {
                if partial {
                    let ghost before = failures@;
                    failures.push(ChunkFailure { file_path: results[i].0.clone(), error: e.clone() });
                    assert(failure_views(failures@) =~= failure_views(before).push((results@[i as int].0@, e@)));
                } else {
                    let mut m = to_owned_string("review failed for ");
                    push_str(&mut m, results[i].0.as_str());
                    push_str(&mut m, ": ");
                    push_str(&mut m, e.as_str());
                    proof {
                        lemma_combine_err_stays(ov, partial, i + 1);
                    }
                    return Err(m);
                }
            },
        }
        i += 1;
    }
    assert(ov.take(results@.len() as int) =~= ov);
    if ok == 0 && failures.len() > 0 {
        let mut m = to_owned_string("all ");
        push_decimal(&mut m, failures.len() as u64);
        push_str(&mut m, " chunk(s) failed; first error: ");
        push_str(&mut m, failures[0].error.as_str());
        return Err(m);
    }
    let mut has_errors = false;
    let mut k: usize = 0;
    while k < issues.len()
        invariant
            k <= issues@.len(),
            has_errors == exists|j: int| 0 <= j < k && (#[trigger] issue_views(issues@)[j]).0 == "error"@,
        decreases issues@.len() - k,
    {
        let sv = chars_of(issues[k].severity.as_str());
        if eq_str(&sv, "error") {
            has_errors = true;
        }
        proof {
            if has_errors {
                if !(exists|j: int| 0 <= j < k && (#[trigger] issue_views(issues@)[j]).0 == "error"@) {
                    assert(issue_views(issues@)[k as int].0 == "error"@);
                }
            }
        }
        k += 1;
    }
    let passed = !has_errors && failures.len() == 0;
    let mut summary = to_owned_string("Reviewed ");
    push_decimal(&mut summary, chunk_count as u64);
    push_str(&mut summary, " file(s)");
    if failures.len() > 0 {
        push_str(&mut summary, " (");
        push_decimal(&mut summary, ok as u64);
        push_str(&mut summary, " succeeded, ");
        push_decimal(&mut summary, failures.len() as u64);
        push_str(&mut summary, " failed)");
    }
    assert(has_errors == has_error_issue(issue_views(issues@)));
    assert(failure_views(failures@).len() == failures@.len());
    Ok(ReviewResult { summary, issues, passed, chunks_processed: Some(chunk_count), chunk_failures: failures })
}

/// Once combining stops with an error, later outcomes do not change it.
proof fn lemma_combine_err_stays(v: Seq<ChunkOutcome>, partial: bool, k: int)
    requires
        0 < k <= v.len(),
        combine_outcomes(v.take(k), partial) is Err,
    ensures
        combine_outcomes(v, partial) == combine_outcomes(v.take(k), partial),
    decreases v.len() - k,
{
    if k < v.len() {
        assert(v.take(k + 1).drop_last() =~= v.take(k));
        lemma_combine_err_stays(v, partial, k + 1);
    } else {
        assert(v.take(k) =~= v);
    }
}

/// The error of a chunk whose tokens exceed the error limit.
pub fn chunk_too_large_message(message: &str) -> (r: String)
    ensures
        r@ == "chunk too large: "@ + message@,
{
    let mut r = to_owned_string("chunk too large: ");
    push_str(&mut r, message);
    r
}


/// What `--chunk` means for the input: a warning for a single file (it is
/// reviewed in one pass), an error for a diff with no file sections, and
/// nothing otherwise. `Ok` carries the warning to print, if any.
pub fn review_chunk_precheck(chunk_mode: bool, input_type: &InputType, input: &str) -> (r: Result<Option<String>, String>)
    ensures
        !chunk_mode ==> r == Ok::<Option<String>, String>(None),
        chunk_mode && input_type is SingleFile ==> (r matches Ok(Some(w))
            && w@ == "warning: chunking single files not supported; processing as single-pass"@),
        chunk_mode && input_type is Diff ==> (if diff_chunks(input@).len() == 0 {
            r matches Err(e) && e@
                == "--chunk requires diff input with file boundaries; input has no recognizable file sections"@
        } else {
            r == Ok::<Option<String>, String>(None)
        }),
{
    if !chunk_mode {
        return Ok(None);
    }
    match input_type {
        InputType::SingleFile(_) => Ok(Some(to_owned_string(
            "warning: chunking single files not supported; processing as single-pass",
        ))),
        InputType::Diff => {
            let chunks = chunk_diff_by_file(input);
            if chunks.len() == 0 {
                Err(to_owned_string(
                    "--chunk requires diff input with file boundaries; input has no recognizable file sections",
                ))
            } else {
                Ok(None)
            }
        },
    }
}

} // verus!
