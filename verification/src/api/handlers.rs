//! What the API handlers decide: which requests are refused, the conversation
//! sent to the model, what a tool call is recorded as, and the bodies of the
//! answers. Awaiting the runtime is the caller's.

use vstd::prelude::*;

use crate::api::types::{ApiError, RunRequest, RunResponse, SessionListResponse, SessionResponse, ToolCallRequest, ToolCallResponse};
use crate::json::{JsonValue, JsonView, json_seq_view, lemma_json_members_view_ext, lemma_json_seq_view_ext, opt_str_json, opt_string_value};
use crate::llm::types::ChatMessage;
use crate::runtime::agent::{llm_role, to_llm_role};
use crate::session::types::{Message, MessageRole, Session, ToolCall, ToolCallView, opt_str_view, tool_calls_view, copy_opt_string, messages_view};
use crate::text::{concat2, concat3, owned};
use crate::tools::types::{ToolError, ToolResult, tool_error_message};

verus! {

broadcast use vstd::string::group_string_axioms;

/// A run needs a message and an initialized runtime.
pub fn check_run_request(request: &RunRequest, initialized: bool) -> (r: Result<(), ApiError>)
    ensures
        request.message@.len() == 0 ==> (r matches Err(ApiError::BadRequest(m)) && m@ == "Message cannot be empty"@),
        request.message@.len() > 0 && !initialized ==> (r matches Err(ApiError::InternalServerError(m))
            && m@ == "AgentRuntime not initialized"@),
        request.message@.len() > 0 && initialized ==> r is Ok,
{
    if request.message.as_str().is_empty() {
        return Err(ApiError::BadRequest(owned("Message cannot be empty")));
    }
    if !initialized {
        return Err(ApiError::InternalServerError(owned("AgentRuntime not initialized")));
    }
    Ok(())
}

/// The session of a run: the one named, or a fresh id.
pub fn run_session_id(request: &RunRequest, fresh_id: String) -> (id: String)
    ensures
        request.session_id matches Some(s) ==> id@ == s@,
        request.session_id is None ==> id == fresh_id,
{
    match &request.session_id {
        Some(s) => s.clone(),
        None => fresh_id,
    }
}

/// The error of a runtime without an LLM connector.
pub fn llm_unavailable() -> (e: ApiError)
    ensures
        e matches ApiError::InternalServerError(m) && m@ == "LLM connector not available"@,
{
    ApiError::InternalServerError(owned("LLM connector not available"))
}

/// The error of a failed step, "Failed to <action>: <error>".
pub fn step_failure(action: &str, error: &str) -> (e: ApiError)
    ensures
        e matches ApiError::InternalServerError(m) && m@ == "Failed to "@ + action@ + ": "@ + error@,
{
    let mut m = concat3("Failed to ", action, ": ");
    m.append(error);
    ApiError::InternalServerError(m)
}

/// The error of a failed model call.
pub fn llm_failure(error: &str) -> (e: ApiError)
    ensures
        e matches ApiError::InternalServerError(m) && m@ == "LLM call failed: "@ + error@,
{
    ApiError::InternalServerError(concat2("LLM call failed: ", error))
}

/// The history as the model reads it: same roles, contents, names and tool
/// call ids; tool calls are not passed on.
pub fn history_for_llm(history: &Vec<Message>) -> (ms: Vec<ChatMessage>)
    ensures
        ms@.len() == history@.len(),
        forall|i: int| 0 <= i < ms@.len() ==> {
            let c = #[trigger] ms@[i];
            &&& c.role == llm_role(history@[i].role)
            &&& c.content@ == history@[i].content@
            &&& opt_str_view(c.name) == opt_str_view(history@[i].name)
            &&& c.tool_calls is None
            &&& opt_str_view(c.tool_call_id) == opt_str_view(history@[i].tool_call_id)
        },
{
    let mut ms: Vec<ChatMessage> = Vec::new();
    let mut i: usize = 0;
    while i < history.len()
        invariant
            i <= history@.len(),
            ms@.len() == i,
            forall|j: int| 0 <= j < i ==> {
                let c = #[trigger] ms@[j];
                &&& c.role == llm_role(history@[j].role)
                &&& c.content@ == history@[j].content@
                &&& opt_str_view(c.name) == opt_str_view(history@[j].name)
                &&& c.tool_calls is None
                &&& opt_str_view(c.tool_call_id) == opt_str_view(history@[j].tool_call_id)
            },
        decreases history.len() - i,
    {
        let m = &history[i];
        ms.push(ChatMessage {
            role: to_llm_role(m.role),
            content: m.content.clone(),
            name: copy_opt_string(&m.name),
            tool_calls: None,
            tool_call_id: copy_opt_string(&m.tool_call_id),
        });
        i = i + 1;
    }
    ms
}

/// The arguments of a tool call the model asked for: the parsed JSON, or an
/// empty object when the arguments text did not parse.
pub fn tool_call_arguments(parsed: Option<JsonValue>) -> (v: JsonValue)
    ensures
        parsed matches Some(p) ==> v == p,
        parsed is None ==> v@ == JsonView::Object(Seq::empty()),
{
    match parsed {
        Some(p) => p,
        None => {
            let v = JsonValue::Object(Vec::new());
            assert(crate::json::json_members_view(Seq::<(String, JsonValue)>::empty()) =~= Seq::empty());
            v
        },
    }
}

/// The record of an executed tool call: its id and tool, then the output, or
/// the error's message.
pub open spec fn tool_call_record_json(id: Seq<char>, tool: Seq<char>, outcome: Result<Seq<char>, Seq<char>>) -> JsonView {
    match outcome {
        Ok(out) => JsonView::Object(seq![
            ("tool_call_id"@, JsonView::Str(id)),
            ("tool_name"@, JsonView::Str(tool)),
            ("result"@, JsonView::Str(out)),
        ]),
        Err(e) => JsonView::Object(seq![
            ("tool_call_id"@, JsonView::Str(id)),
            ("tool_name"@, JsonView::Str(tool)),
            ("error"@, JsonView::Str(e)),
        ]),
    }
}

/// The value of a tool run's outcome: its output, or its error's message.
pub open spec fn run_outcome_view(outcome: Result<ToolResult, ToolError>) -> Result<Seq<char>, Seq<char>> {
    match outcome {
        Ok(r) => Ok(r.output@),
        Err(e) => Err(tool_error_message(e@)),
    }
}

/// The record of an executed tool call (see [`tool_call_record_json`]).
pub fn tool_call_record(id: &str, tool_name: &str, outcome: Result<ToolResult, ToolError>) -> (v: JsonValue)
    ensures
        v@ == tool_call_record_json(id@, tool_name@, run_outcome_view(outcome)),
{
    let mut ms: Vec<(String, JsonValue)> = Vec::new();
    ms.push((owned("tool_call_id"), JsonValue::Str(owned(id))));
    ms.push((owned("tool_name"), JsonValue::Str(owned(tool_name))));
    match outcome {
        Ok(r) => {
            let ghost out = r.output@;
            ms.push((owned("result"), JsonValue::Str(r.output)));
            proof {
                lemma_json_members_view_ext(ms@, seq![
                    ("tool_call_id"@, JsonView::Str(id@)),
                    ("tool_name"@, JsonView::Str(tool_name@)),
                    ("result"@, JsonView::Str(out)),
                ]);
            }
        },
        Err(e) => {
            let m = e.message();
            let ghost mv = m@;
            ms.push((owned("error"), JsonValue::Str(m)));
            proof {
                lemma_json_members_view_ext(ms@, seq![
                    ("tool_call_id"@, JsonView::Str(id@)),
                    ("tool_name"@, JsonView::Str(tool_name@)),
                    ("error"@, JsonView::Str(mv)),
                ]);
            }
        },
    }
    JsonValue::Object(ms)
}

/// The text of a run's answer: "No response from LLM" without a choice;
/// when the first choice asked for tools, "Tool calls executed: " and the
/// records written as JSON; otherwise the choice's content.
pub fn run_reply_text(first: Option<&ChatMessage>, records_json: &str) -> (t: String)
    ensures
        first is None ==> t@ == "No response from LLM"@,
        first matches Some(m) ==> (m.tool_calls is Some ==> t@ == "Tool calls executed: "@ + records_json@),
        first matches Some(m) ==> (m.tool_calls is None ==> t@ == m.content@),
{
    match first {
        None => owned("No response from LLM"),
        Some(m) => match &m.tool_calls {
            Some(_) => concat2("Tool calls executed: ", records_json),
            None => m.content.clone(),
        },
    }
}

/// The answer of a run; a finished run ends with reason "stop".
pub fn run_response(response: String, tool_calls: Vec<JsonValue>, session_id: String) -> (r: RunResponse)
    ensures
        r.response == response,
        r.tool_calls == tool_calls,
        r.session_id == session_id,
        r.finish_reason@ == "stop"@,
        r.skill_used is None,
{
    RunResponse { response, tool_calls, session_id, finish_reason: owned("stop"), skill_used: None }
}

/// A direct tool call needs a tool name.
pub fn check_tool_call_request(request: &ToolCallRequest) -> (r: Result<(), ApiError>)
    ensures
        request.tool_name@.len() == 0 ==> (r matches Err(ApiError::BadRequest(m)) && m@ == "Tool name cannot be empty"@),
        request.tool_name@.len() > 0 ==> r is Ok,
{
    if request.tool_name.as_str().is_empty() {
        return Err(ApiError::BadRequest(owned("Tool name cannot be empty")));
    }
    Ok(())
}

/// The answer to a direct tool call: on success the tool's output and no
/// error; on failure no output and the error's message.
pub fn tool_call_response(outcome: Result<ToolResult, ToolError>) -> (r: ToolCallResponse)
    ensures
        outcome matches Ok(t) ==> r.success && r.error is None
            && (r.output matches Some(o) && o@ == t.output@),
        outcome matches Err(e) ==> !r.success && r.output is None
            && (r.error matches Some(m) && m@ == tool_error_message(e@)),
{
    match outcome {
        Ok(t) => ToolCallResponse { success: true, output: Some(t.output), error: None },
        Err(e) => ToolCallResponse { success: false, output: None, error: Some(e.message()) },
    }
}

/// The list of sessions with its count.
pub fn session_list_response(sessions: Vec<String>) -> (r: SessionListResponse)
    ensures
        r.sessions == sessions,
        r.count == sessions@.len(),
{
    let count = sessions.len();
    SessionListResponse { sessions, count }
}

/// A session must be named.
pub fn check_session_id(session_id: &str) -> (r: Result<(), ApiError>)
    ensures
        session_id@.len() == 0 ==> (r matches Err(ApiError::BadRequest(m)) && m@ == "Session ID cannot be empty"@),
        session_id@.len() > 0 ==> r is Ok,
{
    if session_id.is_empty() {
        return Err(ApiError::BadRequest(owned("Session ID cannot be empty")));
    }
    Ok(())
}

/// The wire name of a conversation role.
pub open spec fn session_role_name(r: MessageRole) -> Seq<char> {
    match r {
        MessageRole::System => "system"@,
        MessageRole::User => "user"@,
        MessageRole::Assistant => "assistant"@,
        MessageRole::Tool => "tool"@,
    }
}

/// The JSON of a stored tool call.
pub open spec fn stored_call_json(c: ToolCallView) -> JsonView {
    JsonView::Object(seq![
        ("id"@, JsonView::Str(c.id)),
        ("type"@, JsonView::Str(c.call_type)),
        ("function"@, JsonView::Object(seq![
            ("name"@, JsonView::Str(c.name)),
            ("arguments"@, JsonView::Str(c.arguments)),
        ])),
    ])
}

/// The tool calls of a stored message as JSON, null when it has none.
pub open spec fn tool_calls_entry(m: Message) -> JsonView {
    match m.tool_calls {
        Some(tc) => JsonView::Array(tool_calls_view(tc@).map_values(|c: ToolCallView| stored_call_json(c))),
        None => JsonView::Null,
    }
}

/// The JSON of a stored message in a session's history: role, content, and
/// name, tool calls and tool call id (null when absent).
pub open spec fn history_entry_json(m: Message) -> JsonView {
    JsonView::Object(seq![
        ("role"@, JsonView::Str(session_role_name(m.role))),
        ("content"@, JsonView::Str(m.content@)),
        ("name"@, opt_str_json(opt_str_view(m.name))),
        ("tool_calls"@, tool_calls_entry(m)),
        ("tool_call_id"@, opt_str_json(opt_str_view(m.tool_call_id))),
    ])
}

/// The JSON of a stored tool call.
fn stored_call_value(c: &ToolCall) -> (v: JsonValue)
    ensures
        v@ == stored_call_json(c@),
{
    let mut f: Vec<(String, JsonValue)> = Vec::new();
    f.push((owned("name"), JsonValue::Str(c.function.name.clone())));
    f.push((owned("arguments"), JsonValue::Str(c.function.arguments.clone())));
    let mut ms: Vec<(String, JsonValue)> = Vec::new();
    ms.push((owned("id"), JsonValue::Str(c.id.clone())));
    ms.push((owned("type"), JsonValue::Str(c.call_type.clone())));
    ms.push((owned("function"), JsonValue::Object(f)));
    proof {
        lemma_json_members_view_ext(f@, seq![
            ("name"@, JsonView::Str(c@.name)),
            ("arguments"@, JsonView::Str(c@.arguments)),
        ]);
        lemma_json_members_view_ext(ms@, seq![
            ("id"@, JsonView::Str(c@.id)),
            ("type"@, JsonView::Str(c@.call_type)),
            ("function"@, JsonView::Object(seq![
                ("name"@, JsonView::Str(c@.name)),
                ("arguments"@, JsonView::Str(c@.arguments)),
            ])),
        ]);
    }
    JsonValue::Object(ms)
}

/// The JSON of a stored message (see [`history_entry_json`]).
pub fn history_entry(m: &Message) -> (v: JsonValue)
    ensures
        v@ == history_entry_json(*m),
{
    let role = match m.role {
        MessageRole::System => "system",
        MessageRole::User => "user",
        MessageRole::Assistant => "assistant",
        MessageRole::Tool => "tool",
    };
    let tool_calls = match &m.tool_calls {
        Some(tc) => {
            let mut items: Vec<JsonValue> = Vec::new();
            let mut i: usize = 0;
            while i < tc.len()
                invariant
                    i <= tc@.len(),
                    items@.len() == i,
                    forall|j: int| 0 <= j < i ==> (#[trigger] items@[j])@ == stored_call_json(tc@[j]@),
                decreases tc.len() - i,
            {
                items.push(stored_call_value(&tc[i]));
                i = i + 1;
            }
            proof {
                lemma_json_seq_view_ext(items@, tool_calls_view(tc@).map_values(|c: ToolCallView| stored_call_json(c)));
            }
            let v = JsonValue::Array(items);
            assert(v@ == tool_calls_entry(*m));
            v
        },
        None => JsonValue::Null,
    };
    assert(tool_calls@ == tool_calls_entry(*m));
    let ghost tcv = tool_calls@;
    let mut ms: Vec<(String, JsonValue)> = Vec::new();
    ms.push((owned("role"), JsonValue::Str(owned(role))));
    ms.push((owned("content"), JsonValue::Str(m.content.clone())));
    ms.push((owned("name"), opt_string_value(&m.name)));
    ms.push((owned("tool_calls"), tool_calls));
    ms.push((owned("tool_call_id"), opt_string_value(&m.tool_call_id)));
    proof {
        lemma_json_members_view_ext(ms@, seq![
            ("role"@, JsonView::Str(session_role_name(m.role))),
            ("content"@, JsonView::Str(m.content@)),
            ("name"@, opt_str_json(opt_str_view(m.name))),
            ("tool_calls"@, tool_calls_entry(*m)),
            ("tool_call_id"@, opt_str_json(opt_str_view(m.tool_call_id))),
        ]);
    }
    JsonValue::Object(ms)
}

/// A session's history as the API answers it, with empty metadata.
pub fn session_response(session_id: String, session: &Session) -> (r: SessionResponse)
    ensures
        r.session_id == session_id,
        r.history@.len() == session.messages@.len(),
        forall|i: int| 0 <= i < r.history@.len() ==> (#[trigger] r.history@[i])@ == history_entry_json(session.messages@[i]),
        r.metadata@ == JsonView::Object(Seq::empty()),
{
    let mut history: Vec<JsonValue> = Vec::new();
    let mut i: usize = 0;
    while i < session.messages.len()
        invariant
            i <= session.messages@.len(),
            history@.len() == i,
            forall|j: int| 0 <= j < i ==> (#[trigger] history@[j])@ == history_entry_json(session.messages@[j]),
        decreases session.messages.len() - i,
    {
        history.push(history_entry(&session.messages[i]));
        i = i + 1;
    }
    assert(crate::json::json_members_view(Seq::<(String, JsonValue)>::empty()) =~= Seq::empty());
    SessionResponse { session_id, history, metadata: JsonValue::Object(Vec::new()) }
}

/// The health answer: "healthy", the time given, and the library's version.
pub fn health_status(timestamp: String) -> (v: JsonValue)
    ensures
        v@ == JsonView::Object(seq![
            ("status"@, JsonView::Str("healthy"@)),
            ("timestamp"@, JsonView::Str(timestamp@)),
            ("version"@, JsonView::Str(crate::VERSION@)),
        ]),
{
    let ghost t = timestamp@;
    let mut ms: Vec<(String, JsonValue)> = Vec::new();
    ms.push((owned("status"), JsonValue::Str(owned("healthy"))));
    ms.push((owned("timestamp"), JsonValue::Str(timestamp)));
    ms.push((owned("version"), JsonValue::Str(owned(crate::VERSION))));
    proof {
        lemma_json_members_view_ext(ms@, seq![
            ("status"@, JsonView::Str("healthy"@)),
            ("timestamp"@, JsonView::Str(t)),
            ("version"@, JsonView::Str(crate::VERSION@)),
        ]);
    }
    JsonValue::Object(ms)
}

} // verus!
