# ursix

`usx` treats language models as Unix text filters: it reviews diffs, derives
commit messages, explanations and summaries, and fixes described issues, with
JSON output and meaningful exit codes.

This crate is written in Verus. `src/` is the library, verified against its
contracts: configuration layering, rule selection and ordering, token limits,
diff chunking, JSON extraction and repair of model replies, the fix
validation and diffing, the wire formats of the providers, the retry policy,
error classification and exit codes, and the text of every result.

`app/` is the program around it: argument parsing, files, the environment,
HTTP calls to the providers, the terminal prompts of `usx init`, and printing.
It hands the library plain values and prints what the library decides.

Laws of the library are public proof functions, among them:

- `json_repair::lemma_repair_yields_valid_json`: a successful repair yields
  JSON that parses; `lemma_valid_json_unchanged`: valid JSON comes back
  trimmed, unrepaired.
- `rules::lemma_flatten_matches_resolve`: rules resolved per category and
  flattened are the rules resolved together; `RulesConfig::resolve_by_category`
  states it of every configuration.
- `error::lemma_exit_code_matches_report`: the exit code agrees with the
  reported error, but for an API error with a transient message.
- `llm::lemma_retry_bounded`: retries never exceed the configured maximum.
- `rules::lemma_grouped_sorted_nonempty`: each group of rules resolved by
  category has rules and is ordered by name.
- `commands::derive::lemma_split_some`: splitting into chunks ends for any
  target of at least one token.
- `agent::lemma_turns_bounded`: an agent run takes at most `max_turns` turns.
- `output::status::lemma_status_history`: a status holds the checks added to
  it and is ok exactly when all of them passed.
- `prompts::lemma_review_prompt_places_rules` and
  `prompts::lemma_derive_prompt_matches_lookup`: where the rules go in the
  review prompt, and that each derive type's prompt is the one looked up by
  its command name.
