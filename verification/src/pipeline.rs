//! The single-pass pipeline: the conversation sent for one model call.
//!
//! The program makes the call (with retries, see [`crate::llm::RetryState`])
//! and takes the response's content.
use vstd::prelude::*;

use crate::context::InputContext;
use crate::llm::{ChatOptions, Message, Role};
use crate::text::{is_blank, push_str, to_owned_string};

verus! {

/// The user message of a call: the request alone for a blank context, else
/// the context, a blank line and the request.
pub open spec fn user_content(context: Seq<char>, request: Seq<char>) -> Seq<char> {
    if is_blank(context) { request } else { context + "\n\n"@ + request }
}

/// The two messages of a call: the system prompt, then the user content.
pub fn pipeline_messages(system_prompt: &str, context: &InputContext, user_request: &str) -> (r: Vec<Message>)
    ensures
        r@.len() == 2,
        r@[0].role == Role::System,
        r@[0].content@ == system_prompt@,
        r@[0].tool_calls is None,
        r@[0].tool_call_id is None,
        r@[1].role == Role::User,
        r@[1].content@ == user_content(context@, user_request@),
        r@[1].tool_calls is None,
        r@[1].tool_call_id is None,
{
    let content = if context.is_empty() {
        to_owned_string(user_request)
    } else {
        let mut c = to_owned_string(context.content());
        push_str(&mut c, "\n\n");
        push_str(&mut c, user_request);
        c
    };
    vec![
        Message { role: Role::System, content: to_owned_string(system_prompt), tool_calls: None, tool_call_id: None },
        Message { role: Role::User, content, tool_calls: None, tool_call_id: None },
    ]
}

/// The chat options of a call.
pub fn chat_options(json_mode: bool) -> (r: ChatOptions)
    ensures
        r.json_mode == json_mode,
{
    if json_mode { ChatOptions::json() } else { ChatOptions::default() }
}

} // verus!
