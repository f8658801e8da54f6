use ursix::agent::{agent_start, agent_take_response, tool_result_message, AgentStep};
use ursix::commands::derive::DeriveType;
use ursix::context::InputContext;
use ursix::llm::{LlmResponse, Role, ToolCall};
use ursix::output::derive::DeriveResult;
use ursix::parsers::{
    derive_result, extract_and_repair_json, review_from_parsed, review_passed,
    ParsedCommit, ParsedDerive, ParsedIssue,
};
use ursix::pipeline::{chat_options, pipeline_messages};

#[test]
fn repaired_json_from_fenced_answer() {
    let input = "```json\n{\"message\": \"fix: typo\", \"title\": \"fix: typo\", \"body\": null}\n```";
    let json = extract_and_repair_json(input).unwrap();
    let v: serde_json::Value = serde_json::from_str(&json).unwrap();
    assert_eq!(v["title"], "fix: typo");
}

#[test]
fn repaired_json_errors() {
    assert_eq!(extract_and_repair_json("not json at all").unwrap_err(), "no JSON object found in response");
    assert_eq!(extract_and_repair_json("").unwrap_err(), "no JSON object found in response");
}

fn parsed(severity: &str) -> ParsedIssue {
    ParsedIssue {
        severity: severity.to_string(),
        file: Some("src/main.rs".to_string()),
        line: Some(10),
        message: "Unused variable".to_string(),
        rule: None,
    }
}

#[test]
fn review_passes_without_errors_or_warnings() {
    let r = review_from_parsed("Code looks good".to_string(), vec![parsed("warning")]);
    assert_eq!(r.summary, "Code looks good");
    assert_eq!(r.issues.len(), 1);
    assert!(!r.passed);
    assert_eq!(r.issues[0].file, "src/main.rs");
    assert_eq!(r.issues[0].rule, "");
    let r = review_from_parsed("Code looks perfect".to_string(), vec![]);
    assert!(r.passed);
    assert!(r.issues.is_empty());
    let r = review_from_parsed("fine".to_string(), vec![parsed("info")]);
    assert!(r.passed);
    assert!(review_passed(&r.issues));
}

#[test]
fn derive_results_of_parsed_answers() {
    let commit = ParsedCommit { message: "m".to_string(), title: "t".to_string(), body: None };
    assert!(matches!(derive_result(ParsedDerive::Commit(commit)), DeriveResult::CommitMsg { ref title, .. } if title == "t"));
    assert!(matches!(derive_result(ParsedDerive::Summary("s".to_string())), DeriveResult::Summary { .. }));
    assert_eq!(DeriveType::Summary.command_name(), "derive:summary");
}

#[test]
fn pipeline_message_layout() {
    let ctx = InputContext::new("code here");
    let msgs = pipeline_messages("system", &ctx, "Review this code.");
    assert_eq!(msgs.len(), 2);
    assert_eq!(msgs[0].role, Role::System);
    assert_eq!(msgs[1].content, "code here\n\nReview this code.");
    let msgs = pipeline_messages("system", &InputContext::new("  "), "Explain.");
    assert_eq!(msgs[1].content, "Explain.");
    assert!(chat_options(true).json_mode);
}

#[test]
fn agent_turns() {
    let mut messages = agent_start("sys", "hello");
    assert_eq!(messages.len(), 2);
    let call = ToolCall { id: "c1".to_string(), name: "bash".to_string(), arguments: "{}".to_string() };
    let step = agent_take_response(&mut messages, LlmResponse::new(String::new(), vec![call.clone()]));
    assert!(matches!(step, AgentStep::RunTools));
    assert_eq!(messages.len(), 3);
    assert_eq!(messages[2].role, Role::Assistant);
    assert_eq!(messages[2].tool_calls.as_ref().map(|c| c.len()), Some(1));
    let reply = tool_result_message(&call, false, String::new(), None);
    assert_eq!(reply.content, "Error: unknown error");
    assert_eq!(reply.tool_call_id, Some("c1".to_string()));
    messages.push(reply);
    let step = agent_take_response(&mut messages, LlmResponse::new("done".to_string(), vec![]));
    assert!(matches!(step, AgentStep::Done(ref s) if s == "done"));
}

#[test]
fn agent_turns_stop_at_the_maximum() {
    let mut turns = ursix::agent::AgentTurns::new(3);
    assert_eq!(turns.begin_turn().ok(), Some(0));
    assert_eq!(turns.begin_turn().ok(), Some(1));
    assert_eq!(turns.begin_turn().ok(), Some(2));
    assert!(matches!(turns.begin_turn(), Err(ursix::agent::AgentError::MaxTurnsExceeded(3))));
    assert_eq!(turns.taken, 3);
}
