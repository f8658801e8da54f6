//! The agent loop: a conversation in which the model may call tools.
//!
//! The program makes each model call and runs each tool; what the
//! conversation holds after each step, and when it ends, is decided here.
use vstd::prelude::*;

use crate::llm::{LlmError, LlmResponse, Message, Role, ToolCall};
use crate::text::{push_str, to_owned_string};

verus! {

/// Errors of the agent loop.
#[derive(Debug)]
pub enum AgentError {
    /// A model call failed
    Llm(LlmError),
    /// The model kept calling tools for this many turns
    MaxTurnsExceeded(usize),
}

/// The conversation at the start: the system prompt and the user's message.
pub fn agent_start(system_prompt: &str, user_message: &str) -> (r: Vec<Message>)
    ensures
        r@.len() == 2,
        r@[0].role == Role::System && r@[0].content@ == system_prompt@,
        r@[0].tool_calls is None && r@[0].tool_call_id is None,
        r@[1].role == Role::User && r@[1].content@ == user_message@,
        r@[1].tool_calls is None && r@[1].tool_call_id is None,
{
    vec![
        Message { role: Role::System, content: to_owned_string(system_prompt), tool_calls: None, tool_call_id: None },
        Message { role: Role::User, content: to_owned_string(user_message), tool_calls: None, tool_call_id: None },
    ]
}

/// What a turn comes to.
pub enum AgentStep {
    /// The model is done: its answer
    Done(String),
    /// The model asked for tools: those of the last message are to run
    RunTools,
}

/// Takes the model's response into the conversation (as an assistant
/// message, with its tool calls if any) and says what comes next: the
/// answer when the response is complete, else running the tools the new
/// message asks for.
pub fn agent_take_response(messages: &mut Vec<Message>, response: LlmResponse) -> (r: AgentStep)
    ensures
        final(messages)@.len() == old(messages)@.len() + 1,
        final(messages)@.drop_last() == old(messages)@,
        final(messages)@.last().role == Role::Assistant,
        final(messages)@.last().content == response.content,
        final(messages)@.last().tool_call_id is None,
        response.tool_calls@.len() == 0 ==> final(messages)@.last().tool_calls is None,
        response.tool_calls@.len() > 0 ==> final(messages)@.last().tool_calls == Some(response.tool_calls),
        response.is_complete ==> r == AgentStep::Done(response.content),
        !response.is_complete ==> r == AgentStep::RunTools,
{
    let done = response.is_complete;
    let content = response.content.clone();
    let calls = if response.tool_calls.len() == 0 { None } else { Some(response.tool_calls) };
    messages.push(Message { role: Role::Assistant, content: response.content, tool_calls: calls, tool_call_id: None });
    assert(messages@.drop_last() =~= old(messages)@);
    if done {
        AgentStep::Done(content)
    } else {
        AgentStep::RunTools
    }
}

/// The turns of an agent run: how many model calls were made, out of how
/// many the configuration allows.
#[derive(Debug, Clone, Copy)]
pub struct AgentTurns {
    pub taken: usize,
    pub max_turns: usize,
}

impl AgentTurns {
    /// No turn taken yet.
    pub fn new(max_turns: usize) -> (r: Self)
        ensures
            r.taken == 0,
            r.max_turns == max_turns,
    {
        AgentTurns { taken: 0, max_turns }
    }

    /// Starts the next turn, whose number is returned, or ends the run with
    /// `MaxTurnsExceeded` once `max_turns` turns were taken (the count then
    /// stays as it was). No more than `max_turns` turns ever start.
    pub fn begin_turn(&mut self) -> (r: Result<usize, AgentError>)
        ensures
            final(self).max_turns == old(self).max_turns,
            old(self).taken < old(self).max_turns ==> {
                &&& r == Ok::<usize, AgentError>(old(self).taken)
                &&& final(self).taken == old(self).taken + 1
            },
            old(self).taken >= old(self).max_turns ==> {
                &&& r matches Err(AgentError::MaxTurnsExceeded(n)) && n == old(self).max_turns
                &&& final(self).taken == old(self).taken
            },
            old(self).taken <= old(self).max_turns ==> final(self).taken <= final(self).max_turns,
    {
        if self.taken < self.max_turns {
            let turn = self.taken;
            self.taken = self.taken + 1;
            Ok(turn)
        } else {
            Err(AgentError::MaxTurnsExceeded(self.max_turns))
        }
    }
}

/// A run that starts with no turn taken and starts each turn with
/// `begin_turn` makes at most `max_turns` model calls: after any number of
/// calls of `begin_turn`, at most `max_turns` of them succeeded.
pub proof fn lemma_turns_bounded(history: Seq<AgentTurns>, max_turns: usize)
    requires
        history.len() > 0,
        history[0].taken == 0,
        history[0].max_turns == max_turns,
        forall|i: int| 0 <= i < history.len() - 1 ==> {
            &&& #[trigger] history[i + 1].max_turns == history[i].max_turns
            &&& (history[i].taken < history[i].max_turns ==> history[i + 1].taken == history[i].taken + 1)
            &&& (history[i].taken >= history[i].max_turns ==> history[i + 1].taken == history[i].taken)
        },
    ensures
        forall|i: int| 0 <= i < history.len() ==> (#[trigger] history[i]).taken <= max_turns && history[i].max_turns == max_turns,
    decreases history.len(),
{
    if history.len() > 1 {
        let p = history.drop_last();
        assert forall|i: int| 0 <= i < p.len() - 1 implies {
            &&& #[trigger] p[i + 1].max_turns == p[i].max_turns
            &&& (p[i].taken < p[i].max_turns ==> p[i + 1].taken == p[i].taken + 1)
            &&& (p[i].taken >= p[i].max_turns ==> p[i + 1].taken == p[i].taken)
        } by {
            assert(p[i + 1] == history[i + 1] && p[i] == history[i]);
            assert(history[i + 1].max_turns == history[i].max_turns);
        }
        lemma_turns_bounded(p, max_turns);
        let n = history.len() - 1;
        assert(history[n - 1] == p[n - 1]);
        assert(history[(n - 1) + 1].max_turns == history[n - 1].max_turns);
        assert forall|i: int| 0 <= i < history.len() implies (#[trigger] history[i]).taken <= max_turns && history[i].max_turns == max_turns by {
            if i < n {
                assert(history[i] == p[i]);
            }
        }
    }
}

/// The message that answers a tool call: the tool's output, or `Error: `
/// and its error (`unknown error` when it gave none).
pub fn tool_result_message(call: &ToolCall, success: bool, output: String, error: Option<String>) -> (r: Message)
    ensures
        r.role == Role::Tool,
        r.tool_calls is None,
        r.tool_call_id == Some(call.id),
        success ==> r.content == output,
        !success ==> r.content@ == "Error: "@ + (match error {
            Some(e) => e@,
            None => "unknown error"@,
        }),
{
    let content = if success {
        output
    } else {
        let mut c = to_owned_string("Error: ");
        match &error {
            Some(e) => push_str(&mut c, e.as_str()),
            None => push_str(&mut c, "unknown error"),
        }
        c
    };
    Message { role: Role::Tool, content, tool_calls: None, tool_call_id: Some(call.id.clone()) }
}

} // verus!
