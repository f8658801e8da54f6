//! The system prompts of each command, and how custom prompts from the
//! configuration replace them.

use vstd::prelude::*;
use crate::commands::derive::{derive_command_name, DeriveType};
use crate::config::{opt_view, PromptsConfig};
use crate::text::{capitalize_text, capitalized, chars_of, eq_str, push_str, to_owned_string};

verus! {

/// Prompt for the review command: one call, JSON out.
pub const REVIEW_PIPELINE_PROMPT: &'static str = r#"You are a thorough code review expert. Your task is to review the provided code changes and provide constructive feedback.

When reviewing code, analyze:
- Correctness and potential bugs
- Security vulnerabilities
- Performance concerns
- Code style and best practices
- Test coverage gaps

Be constructive and explain why something is an issue, not just that it is.
Categorize issues by severity: "error" for critical bugs, "warning" for potential problems, "info" for suggestions.

Return your review as JSON in this exact format:
{
  "summary": "Brief summary of the review findings",
  "issues": [
    {
      "severity": "error|warning|info",
      "file": "path/to/file.rs",
      "line": 42,
      "message": "Description of the issue"
    }
  ]
}

Notes:
- The "issues" array can be empty if no issues were found
- The "file" and "line" fields are optional if the issue is general
- Use "error" sparingly, only for critical bugs or security issues

Output ONLY the JSON, no other text."#;

/// Prompt for commit messages: one call, JSON out.
pub const COMMIT_PIPELINE_PROMPT: &'static str = r#"You are a commit message generator. Your task is to analyze the provided code changes and generate an appropriate commit message.

Generate a commit message following conventional commits format:
- Type: feat, fix, docs, style, refactor, test, chore
- Scope: optional, in parentheses
- Subject: imperative mood, lowercase, no period, under 50 chars
- Body: optional, explain why not what

Return your commit message as JSON in this exact format:
{
  "message": "The full commit message including title and body",
  "title": "feat(scope): subject line under 50 chars",
  "body": "Optional body explaining why the change was made"
}

Notes:
- The "body" field is optional and can be null if not needed
- The "message" field should contain the complete commit message (title + body with blank line separator)

Output ONLY the JSON, no other text."#;

/// Prompt for explanations: one call, JSON out.
pub const EXPLAIN_PIPELINE_PROMPT: &'static str = r#"You are a code explanation expert. Your task is to explain the provided code clearly and concisely.

When explaining code, cover:
1. A high-level overview of what the code does
2. Key functions, types, and patterns
3. Important relationships and dependencies
4. Any notable design decisions or potential issues

Return your explanation as JSON in this exact format:
{
  "explanation": "Your detailed explanation in markdown format"
}

Notes:
- Use markdown formatting for code snippets and structure
- Be thorough but concise

Output ONLY the JSON, no other text."#;

/// Prompt for the fix command: the model answers with the replacement code alone.
pub const FIX_PIPELINE_PROMPT: &'static str = r"You are a code transformation specialist. Your task is to fix the described issue in the provided code snippet.

IMPORTANT:
- Output ONLY the fixed code
- Do NOT include any explanation, comments, or metadata
- Do NOT wrap the code in markdown code fences
- Preserve the exact indentation and formatting style of the original
- Make the minimal change necessary to fix the issue
- If the issue cannot be fixed, output the original code unchanged

Your output will be used directly as a replacement for the original snippet, so it must be valid, complete code that can replace the original exactly.";

/// Prompt for general questions: a plain answer.
pub const ASK_PIPELINE_PROMPT: &'static str = r"You are a helpful coding assistant.

Answer the user's question directly and concisely. Focus on providing accurate, actionable information.

Since you cannot access the filesystem or run commands in this mode, base your response only on the information provided in the query and your training knowledge.

If the question requires file access or command execution that you cannot perform, explain what information would be needed and suggest how the user could gather it.";

/// Prompt for summaries: one call, JSON out.
pub const DERIVE_SUMMARY_PROMPT: &'static str = r#"You are a content summarization expert. Your task is to provide a clear, concise summary of the provided content.

When summarizing:
1. Identify the main purpose and key points
2. Highlight important details without unnecessary elaboration
3. Maintain the essential meaning while being concise
4. Use clear, straightforward language

Return your summary as JSON in this exact format:
{
  "summary": "Your concise summary of the content"
}

Notes:
- Focus on the most important information
- Be thorough but concise

Output ONLY the JSON, no other text."#;

/// Prompt for one chunk of a diff, toward a commit message.
pub const DERIVE_COMMIT_CHUNK_PROMPT: &'static str = r#"You are analyzing a portion of a code diff. Your task is to summarize what changes were made in this section.

Focus on:
- What files were modified
- What functionality was added, changed, or removed
- Key implementation details relevant to understanding the change

Return your summary as JSON in this exact format:
{
  "summary": "Brief summary of changes in this diff section"
}

Output ONLY the JSON, no other text."#;

/// Prompt for one chunk of code, toward an explanation.
pub const DERIVE_EXPLANATION_CHUNK_PROMPT: &'static str = r#"You are explaining a section of code. Your task is to explain what this section does.

Focus on:
- The purpose of the code in this section
- Key functions, types, and patterns
- How this section relates to the overall codebase (if apparent)

Return your explanation as JSON in this exact format:
{
  "explanation": "Explanation of this code section"
}

Output ONLY the JSON, no other text."#;

/// Prompt for one chunk of content, toward a summary.
pub const DERIVE_SUMMARY_CHUNK_PROMPT: &'static str = r#"You are summarizing a section of content. Your task is to capture the key points from this section.

Focus on:
- Main ideas and important details
- Key facts or findings
- Relevant context

Return your summary as JSON in this exact format:
{
  "summary": "Summary of this section"
}

Output ONLY the JSON, no other text."#;

/// Prompt that combines chunk summaries into one commit message.
pub const DERIVE_COMMIT_SYNTHESIS_PROMPT: &'static str = r#"You are combining summaries of different parts of a code diff into a single commit message.

The input contains summaries of different sections of the diff. Combine them into a cohesive commit message following conventional commits format:
- Type: feat, fix, docs, style, refactor, test, chore
- Scope: optional, in parentheses
- Subject: imperative mood, lowercase, no period, under 50 chars
- Body: optional, explain why not what

Return your commit message as JSON in this exact format:
{
  "message": "The full commit message including title and body",
  "title": "feat(scope): subject line under 50 chars",
  "body": "Optional body explaining why the change was made"
}

Notes:
- The "body" field is optional and can be null if not needed
- The "message" field should contain the complete commit message (title + body with blank line separator)
- Synthesize the partial summaries into a unified message that captures all the changes

Output ONLY the JSON, no other text."#;

/// Prompt that combines chunk explanations into one.
pub const DERIVE_EXPLANATION_SYNTHESIS_PROMPT: &'static str = r#"You are combining explanations of different code sections into a cohesive overall explanation.

The input contains explanations of different parts of the code. Combine them into a unified explanation that:
1. Provides a high-level overview of what the code does
2. Explains how the different sections work together
3. Highlights key functions, types, and patterns
4. Notes any important relationships and dependencies

Return your explanation as JSON in this exact format:
{
  "explanation": "Your detailed explanation in markdown format"
}

Notes:
- Use markdown formatting for code snippets and structure
- Be thorough but concise
- Ensure the explanation flows logically

Output ONLY the JSON, no other text."#;

/// Prompt that combines chunk summaries into one.
pub const DERIVE_SUMMARY_SYNTHESIS_PROMPT: &'static str = r#"You are combining partial summaries into a comprehensive overall summary.

The input contains summaries of different sections of the content. Combine them into a cohesive summary that:
1. Captures the main purpose and key points from all sections
2. Maintains logical flow and organization
3. Eliminates redundancy while preserving important details

Return your summary as JSON in this exact format:
{
  "summary": "Your comprehensive summary of the content"
}

Notes:
- Focus on the most important information across all sections
- Be thorough but concise

Output ONLY the JSON, no other text."#;

/// The review prompt before its rules.
pub const REVIEW_PROMPT_HEAD: &'static str = r"You are a thorough code review expert. Your task is to review the provided code changes and provide constructive feedback.

When reviewing code, analyze:
- Correctness and potential bugs
- Security vulnerabilities
- Performance concerns
- Code style and best practices
- Test coverage gaps
";

/// The review prompt after its rules.
pub const REVIEW_PROMPT_TAIL: &'static str = r#"Be constructive and explain why something is an issue, not just that it is.
Categorize issues by severity: "error" for critical bugs, "warning" for potential problems, "info" for suggestions.

Return your review as JSON in this exact format:
{
  "summary": "Brief summary of the review findings",
  "issues": [
    {
      "severity": "error|warning|info",
      "file": "path/to/file.rs",
      "line": 42,
      "message": "Description of the issue",
      "rule": "rule-name"
    }
  ]
}

Notes:
- The "issues" array can be empty if no issues were found
- The "file" and "line" fields are optional if the issue is general
- The "rule" field is optional - include it when the issue relates to a specific rule from above
- Use "error" sparingly, only for critical bugs or security issues

Output ONLY the JSON, no other text."#;

/// Part 0 of the category review prompt, around the category name and rules.
pub const CATEGORY_PROMPT_0: &'static str = "You are a code review expert focused on ";

/// Part 1 of the category review prompt, around the category name and rules.
pub const CATEGORY_PROMPT_1: &'static str = " issues. Your task is to review the provided code for ";

/// Part 2 of the category review prompt, around the category name and rules.
pub const CATEGORY_PROMPT_2: &'static str = " concerns only.\n\nFocus exclusively on ";

/// Part 3 of the category review prompt, around the category name and rules.
pub const CATEGORY_PROMPT_3: &'static str = " issues. Do not report issues outside this category.\n";

/// Part 4 of the category review prompt, around the category name and rules.
pub const CATEGORY_PROMPT_4: &'static str = "Be constructive and explain why something is an issue, not just that it is.\nCategorize issues by severity: \"error\" for critical bugs, \"warning\" for potential problems, \"info\" for suggestions.\n\nReturn your review as JSON in this exact format:\n{\n  \"summary\": \"Brief summary of ";

/// Part 5 of the category review prompt, around the category name and rules.
pub const CATEGORY_PROMPT_5: &'static str = " findings\",\n  \"issues\": [\n    {\n      \"severity\": \"error|warning|info\",\n      \"file\": \"path/to/file.rs\",\n      \"line\": 42,\n      \"message\": \"Description of the ";

/// Part 6 of the category review prompt, around the category name and rules.
pub const CATEGORY_PROMPT_6: &'static str = " issue\",\n      \"rule\": \"rule-name\"\n    }\n  ]\n}\n\nNotes:\n- The \"issues\" array can be empty if no ";

/// Part 7 of the category review prompt, around the category name and rules.
pub const CATEGORY_PROMPT_7: &'static str = " issues were found\n- The \"file\" and \"line\" fields are optional if the issue is general\n- The \"rule\" field is optional - include it when the issue relates to a specific rule from above\n- Use \"error\" sparingly, only for critical problems\n- ONLY report ";

/// Part 8 of the category review prompt, around the category name and rules.
pub const CATEGORY_PROMPT_8: &'static str = " issues - ignore issues that belong to other categories\n\nOutput ONLY the JSON, no other text.";

/// Whether a command name is one of the given literals.
fn is_one_of2(v: &Vec<char>, a: &str, b: &str) -> (r: bool)
    ensures
        r == (v@ == a@ || v@ == b@),
{
    eq_str(v, a) || eq_str(v, b)
}

/// The prompt a command gets: the configured custom prompt if there is
/// one, else the built-in default.
pub open spec fn prompt_for(command: Seq<char>, config: PromptsConfig) -> Seq<char> {
    if command == "review"@ {
        match opt_view(config.review) { Some(p) => p, None => REVIEW_PIPELINE_PROMPT@ }
    } else if command == "commit-msg"@ || command == "commit"@ {
        match opt_view(config.commit_msg) { Some(p) => p, None => COMMIT_PIPELINE_PROMPT@ }
    } else if command == "explanation"@ || command == "explain"@ {
        match opt_view(config.explanation) { Some(p) => p, None => EXPLAIN_PIPELINE_PROMPT@ }
    } else if command == "summary"@ {
        match opt_view(config.summary) { Some(p) => p, None => DERIVE_SUMMARY_PROMPT@ }
    } else if command == "fix"@ {
        match opt_view(config.fix) { Some(p) => p, None => FIX_PIPELINE_PROMPT@ }
    } else {
        ASK_PIPELINE_PROMPT@
    }
}

fn or_default<'a>(o: &'a Option<String>, d: &'a str) -> (r: &'a str)
    ensures
        r@ == match opt_view(*o) { Some(p) => p, None => d@ },
{
    match o {
        Some(s) => s.as_str(),
        None => d,
    }
}

/// Get the effective prompt for a command, preferring a configured one.
pub fn get_prompt<'a>(command: &str, config: &'a PromptsConfig) -> (r: &'a str)
    ensures
        r@ == prompt_for(command@, *config),
{
    let v = chars_of(command);
    if eq_str(&v, "review") {
        or_default(&config.review, REVIEW_PIPELINE_PROMPT)
    } else if is_one_of2(&v, "commit-msg", "commit") {
        or_default(&config.commit_msg, COMMIT_PIPELINE_PROMPT)
    } else if is_one_of2(&v, "explanation", "explain") {
        or_default(&config.explanation, EXPLAIN_PIPELINE_PROMPT)
    } else if eq_str(&v, "summary") {
        or_default(&config.summary, DERIVE_SUMMARY_PROMPT)
    } else if eq_str(&v, "fix") {
        or_default(&config.fix, FIX_PIPELINE_PROMPT)
    } else {
        ASK_PIPELINE_PROMPT
    }
}

/// The pipeline prompt of a command (no custom prompts).
pub open spec fn pipeline_prompt(command: Seq<char>) -> Seq<char> {
    if command == "explain"@ { EXPLAIN_PIPELINE_PROMPT@ }
    else if command == "review"@ { REVIEW_PIPELINE_PROMPT@ }
    else if command == "fix"@ { FIX_PIPELINE_PROMPT@ }
    else if command == "commit"@ { COMMIT_PIPELINE_PROMPT@ }
    else { ASK_PIPELINE_PROMPT@ }
}

/// The pipeline prompt for a command; "ask" and unknown commands get the
/// general one.
pub fn pipeline_prompt_for_command(command: &str) -> (r: &'static str)
    ensures
        r@ == pipeline_prompt(command@),
{
    let v = chars_of(command);
    if eq_str(&v, "explain") {
        EXPLAIN_PIPELINE_PROMPT
    } else if eq_str(&v, "review") {
        REVIEW_PIPELINE_PROMPT
    } else if eq_str(&v, "fix") {
        FIX_PIPELINE_PROMPT
    } else if eq_str(&v, "commit") {
        COMMIT_PIPELINE_PROMPT
    } else {
        ASK_PIPELINE_PROMPT
    }
}

/// The rules part of a prompt: nothing, or the rules and a line feed.
pub open spec fn rules_part(rules_section: Seq<char>) -> Seq<char> {
    if rules_section.len() == 0 { seq![] } else { rules_section + "\n"@ }
}

/// The review prompt with the rules section between the instructions and
/// the output format.
pub open spec fn review_prompt(rules_section: Seq<char>) -> Seq<char> {
    REVIEW_PROMPT_HEAD@ + rules_part(rules_section) + REVIEW_PROMPT_TAIL@
}

/// Build the review prompt with a rules section.
pub fn build_review_prompt(rules_section: &str) -> (r: String)
    ensures
        r@ == review_prompt(rules_section@),
{
    let mut p = to_owned_string(REVIEW_PROMPT_HEAD);
    if rules_section.unicode_len() > 0 {
        push_str(&mut p, rules_section);
        push_str(&mut p, "\n");
    }
    push_str(&mut p, REVIEW_PROMPT_TAIL);
    p
}

/// The review prompt for one category: the category is named throughout,
/// and the rules section stands between instructions and output format.
pub open spec fn category_review_prompt(c: Seq<char>, rules_section: Seq<char>) -> Seq<char> {
    CATEGORY_PROMPT_0@ + c + CATEGORY_PROMPT_1@ + c + CATEGORY_PROMPT_2@ + c + CATEGORY_PROMPT_3@ + rules_part(rules_section) + CATEGORY_PROMPT_4@ + c + CATEGORY_PROMPT_5@ + c + CATEGORY_PROMPT_6@ + c + CATEGORY_PROMPT_7@ + c + CATEGORY_PROMPT_8@
}

/// Build a review prompt focused on one category.
pub fn build_category_review_prompt(category: &str, rules_section: &str) -> (r: String)
    ensures
        r@ == category_review_prompt(category@, rules_section@),
{
    let mut p = String::new();
    push_str(&mut p, CATEGORY_PROMPT_0);
    push_str(&mut p, category);
    push_str(&mut p, CATEGORY_PROMPT_1);
    push_str(&mut p, category);
    push_str(&mut p, CATEGORY_PROMPT_2);
    push_str(&mut p, category);
    push_str(&mut p, CATEGORY_PROMPT_3);
    if rules_section.unicode_len() > 0 {
        push_str(&mut p, rules_section);
        push_str(&mut p, "\n");
    }
    push_str(&mut p, CATEGORY_PROMPT_4);
    push_str(&mut p, category);
    push_str(&mut p, CATEGORY_PROMPT_5);
    push_str(&mut p, category);
    push_str(&mut p, CATEGORY_PROMPT_6);
    push_str(&mut p, category);
    push_str(&mut p, CATEGORY_PROMPT_7);
    push_str(&mut p, category);
    push_str(&mut p, CATEGORY_PROMPT_8);
    p
}

/// The effective review prompt: a configured custom prompt (followed by a
/// blank line and the rules, when there are rules), else the built-in one
/// with the rules.
pub open spec fn effective_review_prompt(config: PromptsConfig, rules_section: Seq<char>) -> Seq<char> {
    match opt_view(config.review) {
        Some(custom) => if rules_section.len() == 0 { custom } else { custom + "\n\n"@ + rules_section },
        None => review_prompt(rules_section),
    }
}

/// Get the effective review prompt, with the rules injected either way.
pub fn get_review_prompt(config: &PromptsConfig, rules_section: &str) -> (r: String)
    ensures
        r@ == effective_review_prompt(*config, rules_section@),
{
    match &config.review {
        Some(custom) => {
            if rules_section.unicode_len() == 0 {
                custom.clone()
            } else {
                let mut p = custom.clone();
                push_str(&mut p, "\n\n");
                push_str(&mut p, rules_section);
                p
            }
        },
        None => build_review_prompt(rules_section),
    }
}

/// Capitalize the first letter of a string.
pub fn capitalize_first(s: &str) -> (r: String)
    ensures
        r@ == capitalized(s@),
{
    capitalize_text(s)
}

/// The prompt for a derive type.
pub open spec fn derive_prompt(t: DeriveType) -> Seq<char> {
    match t {
        DeriveType::CommitMsg => COMMIT_PIPELINE_PROMPT@,
        DeriveType::Explanation => EXPLAIN_PIPELINE_PROMPT@,
        DeriveType::Summary => DERIVE_SUMMARY_PROMPT@,
    }
}

/// Get the appropriate prompt for a derive type.
pub fn derive_prompt_for_type(derive_type: DeriveType) -> (r: &'static str)
    ensures
        r@ == derive_prompt(derive_type),
{
    match derive_type {
        DeriveType::CommitMsg => COMMIT_PIPELINE_PROMPT,
        DeriveType::Explanation => EXPLAIN_PIPELINE_PROMPT,
        DeriveType::Summary => DERIVE_SUMMARY_PROMPT,
    }
}

/// The review prompt puts the rules between the instructions and the
/// output format: with rules, the prompt without rules with the rules and a
/// line feed inserted where its instructions end.
pub proof fn lemma_review_prompt_places_rules(rules_section: Seq<char>)
    requires
        rules_section.len() > 0,
    ensures
        review_prompt(rules_section) == REVIEW_PROMPT_HEAD@ + rules_section + "\n"@ + REVIEW_PROMPT_TAIL@,
        review_prompt(Seq::<char>::empty()) == REVIEW_PROMPT_HEAD@ + REVIEW_PROMPT_TAIL@,
        review_prompt(rules_section) == review_prompt(Seq::<char>::empty()).take(REVIEW_PROMPT_HEAD@.len() as int)
            + rules_section + "\n"@ + review_prompt(Seq::<char>::empty()).skip(REVIEW_PROMPT_HEAD@.len() as int),
{
    let h = REVIEW_PROMPT_HEAD@;
    let t = REVIEW_PROMPT_TAIL@;
    assert(h + Seq::<char>::empty() + t =~= h + t);
    assert((h + t).take(h.len() as int) =~= h);
    assert((h + t).skip(h.len() as int) =~= t);
}

/// The prompts without configuration, as `get_prompt` sees them.
pub open spec fn no_custom_prompts() -> PromptsConfig {
    PromptsConfig { review: None, commit_msg: None, explanation: None, summary: None, fix: None }
}

/// A derive type's prompt is the one the prompt lookup gives, without custom
/// prompts, for the type's command name after `derive:`.
pub proof fn lemma_derive_prompt_matches_lookup(t: DeriveType)
    ensures
        derive_prompt(t) == prompt_for(derive_command_name(t).skip(7), no_custom_prompts()),
{
    reveal_strlit("derive:commit-msg");
    reveal_strlit("derive:explanation");
    reveal_strlit("derive:summary");
    reveal_strlit("review");
    reveal_strlit("commit-msg");
    reveal_strlit("commit");
    reveal_strlit("explanation");
    reveal_strlit("explain");
    reveal_strlit("summary");
    reveal_strlit("fix");
    match t {
        DeriveType::CommitMsg => {
            assert(derive_command_name(t).skip(7) =~= "commit-msg"@);
            assert("commit-msg"@ != "review"@);
        },
        DeriveType::Explanation => {
            assert(derive_command_name(t).skip(7) =~= "explanation"@);
            assert("explanation"@ != "review"@);
            assert("explanation"@ != "commit-msg"@);
            assert("explanation"@ != "commit"@);
        },
        DeriveType::Summary => {
            assert(derive_command_name(t).skip(7) =~= "summary"@);
            assert("summary"@ != "review"@);
            assert("summary"@ != "commit-msg"@);
            assert("summary"@ != "commit"@);
            assert("summary"@ != "explanation"@);
            assert("summary"@[0] != "explain"@[0]);
            assert("summary"@ != "explain"@);
        },
    }
}

} // verus!
