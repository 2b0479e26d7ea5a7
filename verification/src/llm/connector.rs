//! The rules of a chat completion exchange: which settings are required,
//! where the request goes, and what an unsuccessful HTTP status becomes.

use vstd::prelude::*;

use crate::json::{JsonValue, JsonView, lemma_json_members_view, lemma_json_members_view_ext, lemma_json_seq_view_ext};
use crate::llm::client::{max_tokens_part, tool_call_json, tool_call_to_json, tool_definition_json, tool_definition_to_json};
use crate::llm::types::{ChatMessage, LLMError, LLMErrorView, MessageRole, ToolCall, ToolChoice, ToolDefinition, role_name};
use crate::text::{chars_of, concat2, concat3, owned, string_from_range};
use crate::tools::types::ToolMetadata;

verus! {

broadcast use vstd::string::group_string_axioms;

/// A connector needs an API key.
pub fn check_api_key(api_key: &str) -> (r: Result<(), LLMError>)
    ensures
        api_key@.len() == 0 ==> (r matches Err(e) && e@ == LLMErrorView::ConfigError("API key is required"@)),
        api_key@.len() > 0 ==> r is Ok,
{
    if api_key.is_empty() {
        return Err(LLMError::ConfigError(owned("API key is required")));
    }
    Ok(())
}

/// `s` without its trailing '/' characters.
pub open spec fn trim_trailing_slashes(s: Seq<char>) -> Seq<char>
    decreases s.len(),
{
    if s.len() > 0 && s[s.len() - 1] == '/' {
        trim_trailing_slashes(s.subrange(0, s.len() - 1))
    } else {
        s
    }
}

/// The chat completion endpoint under a base URL.
pub fn chat_completions_url(base_url: &str) -> (url: String)
    ensures
        url@ == trim_trailing_slashes(base_url@) + "/chat/completions"@,
{
    let v = chars_of(base_url);
    let mut end: usize = v.len();
    assert(v@.subrange(0, end as int) =~= v@);
    while end > 0 && v[end - 1] == '/'
        invariant
            end <= v@.len(),
            trim_trailing_slashes(v@) == trim_trailing_slashes(v@.subrange(0, end as int)),
        decreases end,
    {
        let ghost t = v@.subrange(0, end as int);
        assert(t.subrange(0, t.len() - 1) =~= v@.subrange(0, end - 1));
        end = end - 1;
    }
    let mut url = string_from_range(v.as_slice(), 0, end);
    url.append("/chat/completions");
    url
}

/// The value of the `Authorization` header.
pub fn authorization_value(api_key: &str) -> (v: String)
    ensures
        v@ == "Bearer "@ + api_key@,
{
    concat2("Bearer ", api_key)
}

/// The error for an unsuccessful HTTP status: 401 is an authentication
/// error, 429 a rate limit, anything else an API error naming the status
/// (as `status_text`, the status written out).
pub fn http_error(status: u16, status_text: &str, body: &str) -> (e: LLMError)
    ensures
        status == 401 ==> e@ == LLMErrorView::AuthError("Authentication failed: "@ + body@),
        status == 429 ==> e@ == LLMErrorView::RateLimitError("Rate limit exceeded: "@ + body@),
        status != 401 && status != 429 ==> e@ == LLMErrorView::ApiError("API error ("@ + status_text@ + "): "@ + body@),
{
    if status == 401 {
        LLMError::AuthError(concat2("Authentication failed: ", body))
    } else if status == 429 {
        LLMError::RateLimitError(concat2("Rate limit exceeded: ", body))
    } else {
        let mut m = concat3("API error (", status_text, "): ");
        m.append(body);
        LLMError::ApiError(m)
    }
}

/// The tool choice of a request: automatic when a temperature is set.
pub fn tool_choice_for(has_temperature: bool) -> (c: Option<ToolChoice>)
    ensures
        has_temperature ==> c == Some(ToolChoice::Auto),
        !has_temperature ==> c is None,
{
    if has_temperature {
        Some(ToolChoice::Auto)
    } else {
        None
    }
}

/// The definitions of a list of tools, in order.
pub fn tool_definitions(tools: &Vec<ToolMetadata>) -> (defs: Vec<ToolDefinition>)
    ensures
        defs@.len() == tools@.len(),
        forall|i: int| 0 <= i < defs@.len() ==> {
            let d = #[trigger] defs@[i];
            d.type_@ == "function"@ && d.function.name@ == tools@[i].name@
                && d.function.description@ == tools@[i].description@
                && d.function.parameters@ == crate::tools::types::parameters_schema(crate::tools::types::params_view(tools@[i].parameters@), false)
        },
{
    let mut defs: Vec<ToolDefinition> = Vec::new();
    let mut i: usize = 0;
    while i < tools.len()
        invariant
            i <= tools@.len(),
            defs@.len() == i,
            forall|j: int| 0 <= j < i ==> {
                let d = #[trigger] defs@[j];
                d.type_@ == "function"@ && d.function.name@ == tools@[j].name@
                    && d.function.description@ == tools@[j].description@
                    && d.function.parameters@ == crate::tools::types::parameters_schema(crate::tools::types::params_view(tools@[j].parameters@), false)
            },
        decreases tools.len() - i,
    {
        defs.push(ToolDefinition::from_metadata(&tools[i]));
        i = i + 1;
    }
    defs
}

/// The message a connection test sends.
pub fn connection_test_messages() -> (ms: Vec<ChatMessage>)
    ensures
        ms@.len() == 1,
        ms@[0].role == MessageRole::User,
        ms@[0].content@ == "Hello, please respond with 'Connection successful'"@,
        ms@[0].name is None && ms@[0].tool_calls is None && ms@[0].tool_call_id is None,
{
    let mut ms: Vec<ChatMessage> = Vec::new();
    ms.push(ChatMessage::new(MessageRole::User, owned("Hello, please respond with 'Connection successful'")));
    ms
}

/// The report of a successful connection test.
pub fn connection_report(model: &str, reply: &str) -> (m: String)
    ensures
        m@ == "Connection successful! Model: "@ + model@ + ", Response: "@ + reply@,
{
    let mut m = concat3("Connection successful! Model: ", model, ", Response: ");
    m.append(reply);
    m
}

/// Streaming answers are not offered.
pub fn streaming_unsupported() -> (e: LLMError)
    ensures
        e@ == LLMErrorView::ConfigError("Streaming not implemented"@),
{
    LLMError::ConfigError(owned("Streaming not implemented"))
}

/// A chat message as the connector sends it: every field, with null for an
/// absent name, tool calls or tool call id.
pub open spec fn wire_message_json(m: ChatMessage) -> JsonView {
    JsonView::Object(seq![
        ("role"@, JsonView::Str(role_name(m.role))),
        ("content"@, JsonView::Str(m.content@)),
        ("name"@, match m.name {
            Some(n) => JsonView::Str(n@),
            None => JsonView::Null,
        }),
        ("tool_calls"@, match m.tool_calls {
            Some(tc) => JsonView::Array(tc@.map_values(|c: ToolCall| tool_call_json(c))),
            None => JsonView::Null,
        }),
        ("tool_call_id"@, match m.tool_call_id {
            Some(i) => JsonView::Str(i@),
            None => JsonView::Null,
        }),
    ])
}

/// The members of the connector's request body that hold tools, when given.
pub open spec fn offered_tools_part(tools: Option<Seq<ToolDefinition>>) -> Seq<(Seq<char>, JsonView)> {
    match tools {
        Some(ts) => seq![("tools"@, JsonView::Array(ts.map_values(|d: ToolDefinition| tool_definition_json(d))))],
        None => Seq::empty(),
    }
}

/// The tool choice member of the connector's request body: "auto" when a
/// temperature is set.
pub open spec fn tool_choice_part(has_temperature: bool) -> Seq<(Seq<char>, JsonView)> {
    if has_temperature {
        seq![("tool_choice"@, JsonView::Str("auto"@))]
    } else {
        Seq::empty()
    }
}

/// The connector's request body without the temperature (a float, which the
/// caller adds after the messages when one is set): the model, the messages,
/// `max_tokens` when set, the tools when given, the tool choice when a
/// temperature is set, and `stream: false`.
pub open spec fn connector_body(
    model: Seq<char>,
    messages: Seq<ChatMessage>,
    max_tokens: Option<u32>,
    tools: Option<Seq<ToolDefinition>>,
    has_temperature: bool,
) -> JsonView {
    JsonView::Object(
        seq![
            ("model"@, JsonView::Str(model)),
            ("messages"@, JsonView::Array(messages.map_values(|m: ChatMessage| wire_message_json(m)))),
        ]
            + max_tokens_part(max_tokens)
            + offered_tools_part(tools)
            + tool_choice_part(has_temperature)
            + seq![("stream"@, JsonView::Bool(false))]
    )
}

/// A chat message as the connector sends it (see [`wire_message_json`]).
pub fn wire_message(m: &ChatMessage) -> (v: JsonValue)
    ensures
        v@ == wire_message_json(*m),
{
    let name = match &m.name {
        Some(n) => JsonValue::Str(n.clone()),
        None => JsonValue::Null,
    };
    let tool_calls = match &m.tool_calls {
        Some(tc) => {
            let mut items: Vec<JsonValue> = Vec::new();
            let mut i: usize = 0;
            while i < tc.len()
                invariant
                    i <= tc@.len(),
                    items@.len() == i,
                    forall|j: int| 0 <= j < i ==> (#[trigger] items@[j])@ == tool_call_json(tc@[j]),
                decreases tc.len() - i,
            {
                items.push(tool_call_to_json(&tc[i]));
                i = i + 1;
            }
            proof {
                lemma_json_seq_view_ext(items@, tc@.map_values(|c: ToolCall| tool_call_json(c)));
            }
            JsonValue::Array(items)
        },
        None => JsonValue::Null,
    };
    let id = match &m.tool_call_id {
        Some(i) => JsonValue::Str(i.clone()),
        None => JsonValue::Null,
    };
    let mut ms: Vec<(String, JsonValue)> = Vec::new();
    ms.push((owned("role"), JsonValue::Str(owned(m.role.wire_name()))));
    ms.push((owned("content"), JsonValue::Str(m.content.clone())));
    ms.push((owned("name"), name));
    ms.push((owned("tool_calls"), tool_calls));
    ms.push((owned("tool_call_id"), id));
    proof {
        if let JsonView::Object(expected) = wire_message_json(*m) {
            lemma_json_members_view_ext(ms@, expected);
        }
    }
    JsonValue::Object(ms)
}

/// The connector's request body (see [`connector_body`]).
pub fn connector_request_body(
    model: &str,
    messages: &Vec<ChatMessage>,
    max_tokens: Option<u32>,
    tools: Option<Vec<ToolDefinition>>,
    has_temperature: bool,
) -> (v: JsonValue)
    ensures
        v@ == connector_body(model@, messages@, max_tokens, crate::llm::client::opt_defs(tools), has_temperature),
{
    let ghost tv = crate::llm::client::opt_defs(tools);
    let mut items: Vec<JsonValue> = Vec::new();
    let mut i: usize = 0;
    while i < messages.len()
        invariant
            i <= messages@.len(),
            items@.len() == i,
            forall|j: int| 0 <= j < i ==> (#[trigger] items@[j])@ == wire_message_json(messages@[j]),
        decreases messages.len() - i,
    {
        items.push(wire_message(&messages[i]));
        i = i + 1;
    }
    proof {
        lemma_json_seq_view_ext(items@, messages@.map_values(|m: ChatMessage| wire_message_json(m)));
    }
    let ghost mv = messages@.map_values(|m: ChatMessage| wire_message_json(m));
    let mut ms: Vec<(String, JsonValue)> = Vec::new();
    ms.push((owned("model"), JsonValue::Str(owned(model))));
    ms.push((owned("messages"), JsonValue::Array(items)));
    let ghost base = seq![("model"@, JsonView::Str(model@)), ("messages"@, JsonView::Array(mv))];
    proof {
        lemma_json_members_view_ext(ms@, base);
    }
    let ghost p1 = base + max_tokens_part(max_tokens);
    match max_tokens {
        Some(t) => {
            let ghost before = ms@;
            ms.push((owned("max_tokens"), JsonValue::Number(t as i64)));
            proof {
                lemma_json_members_view(ms@);
                lemma_json_members_view(before);
                lemma_json_members_view_ext(ms@, p1);
            }
        },
        None => {
            assert(p1 =~= base);
        },
    }
    let ghost p2 = p1 + offered_tools_part(tv);
    match tools {
        Some(ts) => {
            let ghost tsv = ts@;
            let mut defs: Vec<JsonValue> = Vec::new();
            let mut rest = ts;
            let mut k: usize = 0;
            let n = rest.len();
            while rest.len() > 0
                invariant
                    n == tsv.len(),
                    k + rest@.len() == n,
                    rest@ == tsv.subrange(k as int, n as int),
                    defs@.len() == k,
                    forall|j: int| 0 <= j < k ==> (#[trigger] defs@[j])@ == tool_definition_json(tsv[j]),
                decreases rest.len(),
            {
                let d = rest.remove(0);
                assert(d == tsv[k as int]);
                defs.push(tool_definition_to_json(d));
                k = k + 1;
                assert(rest@ =~= tsv.subrange(k as int, n as int));
            }
            proof {
                lemma_json_seq_view_ext(defs@, tsv.map_values(|d: ToolDefinition| tool_definition_json(d)));
            }
            let ghost before = ms@;
            ms.push((owned("tools"), JsonValue::Array(defs)));
            proof {
                lemma_json_members_view(ms@);
                lemma_json_members_view(before);
                lemma_json_members_view_ext(ms@, p2);
            }
        },
        None => {
            assert(p2 =~= p1);
        },
    }
    let ghost p3 = p2 + tool_choice_part(has_temperature);
    if has_temperature {
        let ghost before = ms@;
        ms.push((owned("tool_choice"), JsonValue::Str(owned("auto"))));
        proof {
            lemma_json_members_view(ms@);
            lemma_json_members_view(before);
            lemma_json_members_view_ext(ms@, p3);
        }
    } else {
        assert(p3 =~= p2);
    }
    let ghost p4 = p3 + seq![("stream"@, JsonView::Bool(false))];
    let ghost before = ms@;
    ms.push((owned("stream"), JsonValue::Bool(false)));
    proof {
        lemma_json_members_view(ms@);
        lemma_json_members_view(before);
        lemma_json_members_view_ext(ms@, p4);
    }
    JsonValue::Object(ms)
}

} // verus!
