//! What goes over the wire to each provider, and how replies become
//! responses.
//!
//! The program sends the requests and decodes the replies; the shapes here
//! are what it serializes and what it decoded, as plain values.
use vstd::prelude::*;

use crate::json_repair::{json_check, json_valid};
use crate::llm::{LlmError, LlmResponse, Message, Role, ToolCall, ToolDefinition};
use crate::text::{
    chars_of, decimal, join, push_decimal, push_str, starts_with, starts_with_str, string_from_chars, copy_range,
    to_owned_string,
};

verus! {

// ---------------------------------------------------------------------------
// Endpoints and request options
// ---------------------------------------------------------------------------

/// The chat endpoint of an OpenAI-compatible API.
pub fn openai_chat_url(base_url: &str) -> (r: String)
    ensures
        r@ == base_url@ + "/chat/completions"@,
{
    let mut r = to_owned_string(base_url);
    push_str(&mut r, "/chat/completions");
    r
}

/// The chat endpoint of Ollama.
pub fn ollama_chat_url(base_url: &str) -> (r: String)
    ensures
        r@ == base_url@ + "/api/chat"@,
{
    let mut r = to_owned_string(base_url);
    push_str(&mut r, "/api/chat");
    r
}

/// The model list endpoint of Ollama.
pub fn ollama_tags_url(base_url: &str) -> (r: String)
    ensures
        r@ == base_url@ + "/api/tags"@,
{
    let mut r = to_owned_string(base_url);
    push_str(&mut r, "/api/tags");
    r
}

/// The content generation endpoint of Gemini, with the key as a query.
pub fn gemini_generate_url(base_url: &str, model: &str, api_key: &str) -> (r: String)
    ensures
        r@ == base_url@ + "/models/"@ + model@ + ":generateContent?key="@ + api_key@,
{
    let mut r = to_owned_string(base_url);
    push_str(&mut r, "/models/");
    push_str(&mut r, model);
    push_str(&mut r, ":generateContent?key=");
    push_str(&mut r, api_key);
    r
}

/// The model list endpoint of Gemini, with the key as a query.
pub fn gemini_models_url(base_url: &str, api_key: &str) -> (r: String)
    ensures
        r@ == base_url@ + "/models?key="@ + api_key@,
{
    let mut r = to_owned_string(base_url);
    push_str(&mut r, "/models?key=");
    push_str(&mut r, api_key);
    r
}

/// Ollama's `format` for JSON mode.
pub fn ollama_format(json_mode: bool) -> (r: Option<&'static str>)
    ensures
        json_mode ==> (r matches Some(f) && f@ == "json"@),
        !json_mode ==> r is None,
{
    if json_mode { Some("json") } else { None }
}

/// OpenAI's response format type for JSON mode.
pub fn openai_response_format(json_mode: bool) -> (r: Option<&'static str>)
    ensures
        json_mode ==> (r matches Some(f) && f@ == "json_object"@),
        !json_mode ==> r is None,
{
    if json_mode { Some("json_object") } else { None }
}

/// Gemini's response MIME type for JSON mode.
pub fn gemini_response_mime_type(json_mode: bool) -> (r: Option<&'static str>)
    ensures
        json_mode ==> (r matches Some(f) && f@ == "application/json"@),
        !json_mode ==> r is None,
{
    if json_mode { Some("application/json") } else { None }
}

/// OpenAI's `tool_choice`: automatic when tools are offered.
pub fn openai_tool_choice(tool_count: usize) -> (r: Option<&'static str>)
    ensures
        tool_count > 0 ==> (r matches Some(c) && c@ == "auto"@),
        tool_count == 0 ==> r is None,
{
    if tool_count > 0 { Some("auto") } else { None }
}

// ---------------------------------------------------------------------------
// OpenAI-compatible and Ollama messages
// ---------------------------------------------------------------------------

/// The role name OpenAI and Ollama use.
pub open spec fn role_name(role: Role) -> Seq<char> {
    match role {
        Role::System => "system"@,
        Role::User => "user"@,
        Role::Assistant => "assistant"@,
        Role::Tool => "tool"@,
    }
}

/// The role name OpenAI and Ollama use.
pub fn role_name_of(role: Role) -> (r: &'static str)
    ensures
        r@ == role_name(role),
{
    match role {
        Role::System => "system",
        Role::User => "user",
        Role::Assistant => "assistant",
        Role::Tool => "tool",
    }
}

/// Content sent for a message: none when empty.
pub fn optional_content(content: &String) -> (r: Option<String>)
    ensures
        content@.len() == 0 ==> r is None,
        content@.len() > 0 ==> r == Some(*content),
{
    if content.unicode_len() == 0 { None } else { Some(content.clone()) }
}

/// A tool call as OpenAI carries it: its arguments as JSON text.
#[derive(Debug, Clone)]
pub struct OpenAiToolCall {
    pub id: String,
    pub name: String,
    pub arguments: String,
}

/// A message as OpenAI takes it.
#[derive(Debug, Clone)]
pub struct OpenAiMessage {
    pub role: String,
    pub content: Option<String>,
    pub tool_calls: Option<Vec<OpenAiToolCall>>,
    pub tool_call_id: Option<String>,
}

/// Whether `w` carries the calls `c`, one for one.
pub open spec fn openai_calls_match(w: Seq<OpenAiToolCall>, c: Seq<ToolCall>) -> bool {
    &&& w.len() == c.len()
    &&& forall|i: int| 0 <= i < c.len() ==> {
        &&& (#[trigger] w[i]).id == c[i].id
        &&& w[i].name == c[i].name
        &&& w[i].arguments == c[i].arguments
    }
}

fn openai_calls(calls: &Vec<ToolCall>) -> (r: Vec<OpenAiToolCall>)
    ensures
        openai_calls_match(r@, calls@),
{
    let mut out: Vec<OpenAiToolCall> = Vec::new();
    let mut i: usize = 0;
    while i < calls.len()
        invariant
            i <= calls@.len(),
            openai_calls_match(out@, calls@.take(i as int)),
        decreases calls@.len() - i,
    {
        let c = &calls[i];
        out.push(OpenAiToolCall { id: c.id.clone(), name: c.name.clone(), arguments: c.arguments.clone() });
        i += 1;
    }
    assert(calls@.take(calls@.len() as int) =~= calls@);
    out
}

/// A message for OpenAI: its role's name, its content unless empty, its
/// tool calls, and the call it answers.
pub fn openai_message(msg: &Message) -> (r: OpenAiMessage)
    ensures
        r.role@ == role_name(msg.role),
        msg.content@.len() == 0 ==> r.content is None,
        msg.content@.len() > 0 ==> r.content == Some(msg.content),
        match msg.tool_calls {
            Some(c) => r.tool_calls matches Some(w) && openai_calls_match(w@, c@),
            None => r.tool_calls is None,
        },
        r.tool_call_id == msg.tool_call_id,
{
    OpenAiMessage {
        role: to_owned_string(role_name_of(msg.role)),
        content: optional_content(&msg.content),
        tool_calls: match &msg.tool_calls {
            Some(c) => Some(openai_calls(c)),
            None => None,
        },
        tool_call_id: msg.tool_call_id.clone(),
    }
}

/// A tool call as Ollama carries it.
#[derive(Debug, Clone)]
pub struct OllamaToolCall {
    pub name: String,
    pub arguments: String,
}

/// A message as Ollama takes it.
#[derive(Debug, Clone)]
pub struct OllamaMessage {
    pub role: String,
    pub content: Option<String>,
    pub tool_calls: Option<Vec<OllamaToolCall>>,
}

/// Whether `w` carries the calls `c`, one for one, without their ids.
pub open spec fn ollama_calls_match(w: Seq<OllamaToolCall>, c: Seq<ToolCall>) -> bool {
    &&& w.len() == c.len()
    &&& forall|i: int| 0 <= i < c.len() ==> {
        &&& (#[trigger] w[i]).name == c[i].name
        &&& w[i].arguments == c[i].arguments
    }
}

fn ollama_calls(calls: &Vec<ToolCall>) -> (r: Vec<OllamaToolCall>)
    ensures
        ollama_calls_match(r@, calls@),
{
    let mut out: Vec<OllamaToolCall> = Vec::new();
    let mut i: usize = 0;
    while i < calls.len()
        invariant
            i <= calls@.len(),
            ollama_calls_match(out@, calls@.take(i as int)),
        decreases calls@.len() - i,
    {
        let c = &calls[i];
        out.push(OllamaToolCall { name: c.name.clone(), arguments: c.arguments.clone() });
        i += 1;
    }
    assert(calls@.take(calls@.len() as int) =~= calls@);
    out
}

/// A message for Ollama: its role's name, its content unless empty, and
/// its tool calls.
pub fn ollama_message(msg: &Message) -> (r: OllamaMessage)
    ensures
        r.role@ == role_name(msg.role),
        msg.content@.len() == 0 ==> r.content is None,
        msg.content@.len() > 0 ==> r.content == Some(msg.content),
        match msg.tool_calls {
            Some(c) => r.tool_calls matches Some(w) && ollama_calls_match(w@, c@),
            None => r.tool_calls is None,
        },
{
    OllamaMessage {
        role: to_owned_string(role_name_of(msg.role)),
        content: optional_content(&msg.content),
        tool_calls: match &msg.tool_calls {
            Some(c) => Some(ollama_calls(c)),
            None => None,
        },
    }
}

// ---------------------------------------------------------------------------
// Gemini messages
// ---------------------------------------------------------------------------

/// A part of a Gemini message.
#[derive(Debug, Clone)]
pub enum GeminiPart {
    /// Text
    Text(String),
    /// A call of a function, its arguments as JSON text
    FunctionCall { name: String, args: String },
    /// The result of a function (sent as `{"result": ...}`)
    FunctionResponse { name: String, result: String },
}

/// A message as Gemini takes it.
#[derive(Debug, Clone)]
pub struct GeminiContent {
    pub role: String,
    pub parts: Vec<GeminiPart>,
}

/// The role name Gemini uses: `model` for the assistant, `function` for a
/// tool, else `user`.
pub open spec fn gemini_role(role: Role) -> Seq<char> {
    match role {
        Role::Assistant => "model"@,
        Role::Tool => "function"@,
        Role::User | Role::System => "user"@,
    }
}

/// A function-call part for each tool call.
pub open spec fn gemini_call_parts(calls: Option<Vec<ToolCall>>) -> Seq<GeminiPart> {
    match calls {
        Some(c) => c@.map_values(|t: ToolCall| GeminiPart::FunctionCall { name: t.name, args: t.arguments }),
        None => seq![],
    }
}

/// The parts of a message for Gemini: its text unless empty, a call for
/// each tool call, and for a tool message with a call id the result.
pub open spec fn gemini_parts_spec(msg: Message) -> Seq<GeminiPart> {
    let text = if msg.content@.len() > 0 { seq![GeminiPart::Text(msg.content)] } else { seq![] };
    let calls = gemini_call_parts(msg.tool_calls);
    let response = match msg.tool_call_id {
        Some(id) => if msg.role == Role::Tool {
            seq![GeminiPart::FunctionResponse { name: id, result: msg.content }]
        } else {
            seq![]
        },
        None => seq![],
    };
    text + calls + response
}

/// A message for Gemini.
pub fn gemini_content(msg: &Message) -> (r: GeminiContent)
    ensures
        r.role@ == gemini_role(msg.role),
        r.parts@ == gemini_parts_spec(*msg),
{
    let role = match msg.role {
        Role::Assistant => "model",
        Role::Tool => "function",
        Role::User | Role::System => "user",
    };
    let mut parts: Vec<GeminiPart> = Vec::new();
    if msg.content.unicode_len() > 0 {
        parts.push(GeminiPart::Text(msg.content.clone()));
    }
    let ghost text_parts = parts@;
    if let Some(calls) = &msg.tool_calls {
        let mut i: usize = 0;
        while i < calls.len()
            invariant
                i <= calls@.len(),
                parts@ == text_parts + calls@.take(i as int).map_values(
                    |t: ToolCall| GeminiPart::FunctionCall { name: t.name, args: t.arguments },
                ),
            decreases calls@.len() - i,
        {
            let c = &calls[i];
            parts.push(GeminiPart::FunctionCall { name: c.name.clone(), args: c.arguments.clone() });
            proof {
                let f = |t: ToolCall| GeminiPart::FunctionCall { name: t.name, args: t.arguments };
                assert(calls@.take(i + 1).map_values(f) =~= calls@.take(i as int).map_values(f).push(f(calls@[i as int])));
            }
            i += 1;
        }
        assert(calls@.take(calls@.len() as int) =~= calls@);
    }
    let ghost with_calls = parts@;
    if msg.role == Role::Tool {
        if let Some(id) = &msg.tool_call_id {
            parts.push(GeminiPart::FunctionResponse { name: id.clone(), result: msg.content.clone() });
        }
    }
    proof {
        assert(with_calls =~= text_parts + gemini_call_parts(msg.tool_calls));
        assert(parts@ =~= gemini_parts_spec(*msg));
    }
    GeminiContent { role: to_owned_string(role), parts }
}

/// The system instruction for Gemini: the system messages' texts, one per
/// line; `None` when that is empty.
pub open spec fn system_texts(messages: Seq<Message>) -> Seq<Seq<char>> {
    messages.filter(|m: Message| m.role == Role::System).map_values(|m: Message| m.content@)
}

/// The system instruction for Gemini: the system messages' texts joined by
/// line breaks, or `None` when that is empty.
pub fn gemini_system_instruction(messages: &Vec<Message>) -> (r: Option<String>)
    ensures
        join(system_texts(messages@), "\n"@).len() == 0 ==> r is None,
        join(system_texts(messages@), "\n"@).len() > 0 ==> (r matches Some(s) && s@ == join(system_texts(messages@), "\n"@)),
{
    let mut texts: Vec<String> = Vec::new();
    let mut i: usize = 0;
    while i < messages.len()
        invariant
            i <= messages@.len(),
            crate::text::string_views(texts@) == system_texts(messages@.take(i as int)),
        decreases messages@.len() - i,
    {
        proof {
            let f = |m: Message| m.role == Role::System;
            assert(messages@.take(i + 1).drop_last() =~= messages@.take(i as int));
            messages@.take(i as int).lemma_filter_push(messages@[i as int], f);
            assert(messages@.take(i as int).push(messages@[i as int]) =~= messages@.take(i + 1));
        }
        if messages[i].role == Role::System {
            let ghost before = texts@;
            texts.push(messages[i].content.clone());
            proof {
                let f = |m: Message| m.role == Role::System;
                let g = |m: Message| m.content@;
                assert(messages@.take(i + 1).filter(f) =~= messages@.take(i as int).filter(f).push(messages@[i as int]));
                assert(crate::text::string_views(texts@) =~= crate::text::string_views(before).push(messages@[i as int].content@));
                assert(messages@.take(i + 1).filter(f).map_values(g) =~= messages@.take(i as int).filter(f).map_values(g).push(
                    messages@[i as int].content@,
                ));
            }
        } else {
            proof {
                let f = |m: Message| m.role == Role::System;
                assert(messages@.take(i + 1).filter(f) =~= messages@.take(i as int).filter(f));
            }
        }
        i += 1;
    }
    assert(messages@.take(messages@.len() as int) =~= messages@);
    let joined = crate::text::join_strings(texts.as_slice(), "\n");
    if joined.unicode_len() == 0 { None } else { Some(joined) }
}

/// The messages Gemini takes as contents: all but the system messages, in
/// order.
pub open spec fn non_system(messages: Seq<Message>) -> Seq<Message> {
    messages.filter(|m: Message| m.role != Role::System)
}

/// The contents of a Gemini request: each message but the system ones (those
/// go into the system instruction), converted, in order.
pub fn gemini_contents(messages: &Vec<Message>) -> (r: Vec<GeminiContent>)
    ensures
        r@.len() == non_system(messages@).len(),
        forall|k: int| 0 <= k < r@.len() ==> {
            &&& (#[trigger] r@[k]).role@ == gemini_role(non_system(messages@)[k].role)
            &&& r@[k].parts@ == gemini_parts_spec(non_system(messages@)[k])
        },
{
    let ghost f = |m: Message| m.role != Role::System;
    let mut out: Vec<GeminiContent> = Vec::new();
    let mut i: usize = 0;
    while i < messages.len()
        invariant
            i <= messages@.len(),
            f == (|m: Message| m.role != Role::System),
            out@.len() == messages@.take(i as int).filter(f).len(),
            forall|k: int| 0 <= k < out@.len() ==> {
                &&& (#[trigger] out@[k]).role@ == gemini_role(messages@.take(i as int).filter(f)[k].role)
                &&& out@[k].parts@ == gemini_parts_spec(messages@.take(i as int).filter(f)[k])
            },
        decreases messages@.len() - i,
    {
        proof {
            assert(messages@.take(i + 1).drop_last() =~= messages@.take(i as int));
            messages@.take(i as int).lemma_filter_push(messages@[i as int], f);
            assert(messages@.take(i as int).push(messages@[i as int]) =~= messages@.take(i + 1));
        }
        if messages[i].role != Role::System {
            let c = gemini_content(&messages[i]);
            out.push(c);
            proof {
                assert(messages@.take(i + 1).filter(f) =~= messages@.take(i as int).filter(f).push(messages@[i as int]));
            }
        } else {
            proof {
                assert(messages@.take(i + 1).filter(f) =~= messages@.take(i as int).filter(f));
            }
        }
        i += 1;
    }
    assert(messages@.take(messages@.len() as int) =~= messages@);
    out
}

/// A function offered to Gemini.
#[derive(Debug, Clone)]
pub struct GeminiFunctionDeclaration {
    pub name: String,
    pub description: String,
    pub parameters: String,
}

/// The declaration of a tool for Gemini.
pub fn gemini_function_declaration(tool: &ToolDefinition) -> (r: GeminiFunctionDeclaration)
    ensures
        r.name == tool.name,
        r.description == tool.description,
        r.parameters == tool.parameters,
{
    GeminiFunctionDeclaration {
        name: tool.name.clone(),
        description: tool.description.clone(),
        parameters: tool.parameters.clone(),
    }
}

// ---------------------------------------------------------------------------
// Replies
// ---------------------------------------------------------------------------

/// The id given to the `k`-th tool call of a reply without ids.
pub open spec fn call_id(k: nat) -> Seq<char> {
    "call_"@ + decimal(k)
}

fn call_id_of(k: usize) -> (r: String)
    ensures
        r@ == call_id(k as nat),
{
    let mut r = to_owned_string("call_");
    push_decimal(&mut r, k as u64);
    r
}

/// The text of a Gemini reply: its text parts, one per line.
pub open spec fn gemini_reply_text(parts: Seq<GeminiPart>) -> Seq<char>
    decreases parts.len(),
{
    if parts.len() == 0 {
        Seq::empty()
    } else {
        let before = gemini_reply_text(parts.drop_last());
        match parts.last() {
            GeminiPart::Text(t) => if before.len() > 0 { before + "\n"@ + t@ } else { before + t@ },
            _ => before,
        }
    }
}

/// The function calls of a Gemini reply, in order.
pub open spec fn gemini_reply_calls(parts: Seq<GeminiPart>) -> Seq<(Seq<char>, Seq<char>)>
    decreases parts.len(),
{
    if parts.len() == 0 {
        Seq::empty()
    } else {
        let before = gemini_reply_calls(parts.drop_last());
        match parts.last() {
            GeminiPart::FunctionCall { name, args } => before.push((name@, args@)),
            _ => before,
        }
    }
}

/// The response of a Gemini reply's parts: the text parts joined by line
/// breaks, each function call a tool call with id `call_K` (K counting the
/// calls from 0); function results are skipped.
pub fn gemini_response(parts: Vec<GeminiPart>) -> (r: LlmResponse)
    ensures
        r.content@ == gemini_reply_text(parts@),
        r.tool_calls@.len() == gemini_reply_calls(parts@).len(),
        forall|k: int| 0 <= k < r.tool_calls@.len() ==> {
            &&& (#[trigger] r.tool_calls@[k]).id@ == call_id(k as nat)
            &&& (r.tool_calls@[k].name@, r.tool_calls@[k].arguments@) == gemini_reply_calls(parts@)[k]
        },
        r.is_complete == (r.tool_calls@.len() == 0 && r.content@.len() > 0),
{
    let mut content = String::new();
    let mut calls: Vec<ToolCall> = Vec::new();
    let mut i: usize = 0;
    while i < parts.len()
        invariant
            i <= parts@.len(),
            content@ == gemini_reply_text(parts@.take(i as int)),
            calls@.len() == gemini_reply_calls(parts@.take(i as int)).len(),
            forall|k: int| 0 <= k < calls@.len() ==> {
                &&& (#[trigger] calls@[k]).id@ == call_id(k as nat)
                &&& (calls@[k].name@, calls@[k].arguments@) == gemini_reply_calls(parts@.take(i as int))[k]
            },
        decreases parts@.len() - i,
    {
        proof {
            assert(parts@.take(i + 1).drop_last() =~= parts@.take(i as int));
            assert(parts@.take(i + 1).last() == parts@[i as int]);
        }
        match &parts[i] {
            GeminiPart::Text(t) => {
                if content.unicode_len() > 0 {
                    push_str(&mut content, "\n");
                }
                push_str(&mut content, t.as_str());
            },
            GeminiPart::FunctionCall { name, args } => {
                let id = call_id_of(calls.len());
                calls.push(ToolCall { id, name: name.clone(), arguments: args.clone() });
            },
            GeminiPart::FunctionResponse { .. } => {},
        }
        i += 1;
    }
    assert(parts@.take(parts@.len() as int) =~= parts@);
    LlmResponse::new(content, calls)
}

/// The response of an Ollama reply: its content (empty when absent) and
/// its tool calls with ids `call_0`, `call_1`, ...
pub fn ollama_response(content: Option<String>, calls: Vec<OllamaToolCall>) -> (r: LlmResponse)
    ensures
        r.content@ == (match content {
            Some(c) => c@,
            None => Seq::empty(),
        }),
        r.tool_calls@.len() == calls@.len(),
        forall|k: int| 0 <= k < calls@.len() ==> {
            &&& (#[trigger] r.tool_calls@[k]).id@ == call_id(k as nat)
            &&& r.tool_calls@[k].name == calls@[k].name
            &&& r.tool_calls@[k].arguments == calls@[k].arguments
        },
        r.is_complete == (calls@.len() == 0 && r.content@.len() > 0),
{
    let text = match content {
        Some(c) => c,
        None => String::new(),
    };
    let mut out: Vec<ToolCall> = Vec::new();
    let mut i: usize = 0;
    while i < calls.len()
        invariant
            i <= calls@.len(),
            out@.len() == i,
            forall|k: int| 0 <= k < i ==> {
                &&& (#[trigger] out@[k]).id@ == call_id(k as nat)
                &&& out@[k].name == calls@[k].name
                &&& out@[k].arguments == calls@[k].arguments
            },
        decreases calls@.len() - i,
    {
        let id = call_id_of(i);
        out.push(ToolCall { id, name: calls[i].name.clone(), arguments: calls[i].arguments.clone() });
        i += 1;
    }
    LlmResponse::new(text, out)
}

/// The arguments kept from an OpenAI tool call: the text when it parses as
/// JSON, else an empty object.
pub open spec fn kept_arguments(arguments: Seq<char>) -> Seq<char> {
    if json_valid(arguments) { arguments } else { "{}"@ }
}

/// The response of an OpenAI reply: its content (empty when absent) and
/// its tool calls, whose arguments must parse as JSON or become `{}`.
pub fn openai_response(content: Option<String>, calls: Vec<OpenAiToolCall>) -> (r: LlmResponse)
    ensures
        r.content@ == (match content {
            Some(c) => c@,
            None => Seq::empty(),
        }),
        r.tool_calls@.len() == calls@.len(),
        forall|k: int| 0 <= k < calls@.len() ==> {
            &&& (#[trigger] r.tool_calls@[k]).id == calls@[k].id
            &&& r.tool_calls@[k].name == calls@[k].name
            &&& r.tool_calls@[k].arguments@ == kept_arguments(calls@[k].arguments@)
        },
        r.is_complete == (calls@.len() == 0 && r.content@.len() > 0),
{
    let text = match content {
        Some(c) => c,
        None => String::new(),
    };
    let mut out: Vec<ToolCall> = Vec::new();
    let mut i: usize = 0;
    while i < calls.len()
        invariant
            i <= calls@.len(),
            out@.len() == i,
            forall|k: int| 0 <= k < i ==> {
                &&& (#[trigger] out@[k]).id == calls@[k].id
                &&& out@[k].name == calls@[k].name
                &&& out@[k].arguments@ == kept_arguments(calls@[k].arguments@)
            },
        decreases calls@.len() - i,
    {
        let c = &calls[i];
        let arguments = match json_check(c.arguments.as_str()) {
            None => c.arguments.clone(),
            Some(_) => to_owned_string("{}"),
        };
        out.push(ToolCall { id: c.id.clone(), name: c.name.clone(), arguments });
        i += 1;
    }
    LlmResponse::new(text, out)
}

/// The error when an OpenAI reply has no choices.
pub fn no_choices_error() -> (r: LlmError)
    ensures
        r matches LlmError::Parse(m) && m@ == "response contained no choices"@,
{
    LlmError::Parse(to_owned_string("response contained no choices"))
}

/// The error when a Gemini reply has no candidates.
pub fn no_candidates_error() -> (r: LlmError)
    ensures
        r matches LlmError::Parse(m) && m@ == "Gemini API response contained no candidates"@,
{
    LlmError::Parse(to_owned_string("Gemini API response contained no candidates"))
}

/// The error for a failed status: the status, then the API's message, or
/// `fallback` when the body had none.
pub fn status_error(status: &str, api_message: Option<String>, fallback: &str) -> (r: LlmError)
    ensures
        r matches LlmError::Api(m) && m@ == status@ + ": "@ + (match api_message {
            Some(a) => a@,
            None => fallback@,
        }),
{
    let mut m = to_owned_string(status);
    push_str(&mut m, ": ");
    match api_message {
        Some(a) => push_str(&mut m, a.as_str()),
        None => push_str(&mut m, fallback),
    }
    LlmError::Api(m)
}

/// The error for a failed Ollama call: the API's message, or
/// `unknown error`.
pub fn ollama_status_error(api_message: Option<String>) -> (r: LlmError)
    ensures
        r matches LlmError::Api(m) && m@ == (match api_message {
            Some(a) => a@,
            None => "unknown error"@,
        }),
{
    match api_message {
        Some(a) => LlmError::Api(a),
        None => LlmError::Api(to_owned_string("unknown error")),
    }
}

/// A Gemini model name without its `models/` prefix.
pub open spec fn without_models_prefix(name: Seq<char>) -> Seq<char> {
    if starts_with(name, "models/"@) { name.skip(7) } else { name }
}

/// A Gemini model name without its `models/` prefix.
pub fn strip_models_prefix(name: &str) -> (r: String)
    ensures
        r@ == without_models_prefix(name@),
{
    let v = chars_of(name);
    if starts_with_str(&v, "models/") {
        proof {
            reveal_strlit("models/");
        }
        string_from_chars(&copy_range(&v, 7, v.len()))
    } else {
        to_owned_string(name)
    }
}

} // verus!
