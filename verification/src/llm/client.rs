//! The JSON of a chat completion request.

use vstd::prelude::*;

use crate::json::{JsonValue, JsonView, json_members_view, json_seq_view, lemma_json_members_view, lemma_json_members_view_ext, lemma_json_seq_view, lemma_json_seq_view_ext};
use crate::llm::types::{ChatMessage, FunctionCall, ToolCall, ToolDefinition, role_name};
use crate::text::owned;

verus! {

broadcast use vstd::string::group_string_axioms;

/// The JSON of a tool call.
pub open spec fn tool_call_json(c: ToolCall) -> JsonView {
    JsonView::Object(seq![
        ("id"@, JsonView::Str(c.id@)),
        ("type"@, JsonView::Str(c.call_type@)),
        ("function"@, JsonView::Object(seq![
            ("name"@, JsonView::Str(c.function.name@)),
            ("arguments"@, JsonView::Str(c.function.arguments@)),
        ])),
    ])
}

/// The `name` member of a message's JSON, when it has a name.
pub open spec fn name_part(m: ChatMessage) -> Seq<(Seq<char>, JsonView)> {
    match m.name {
        Some(n) => seq![("name"@, JsonView::Str(n@))],
        None => Seq::empty(),
    }
}

/// The `tool_calls` member of a message's JSON, when it has tool calls.
pub open spec fn tool_calls_part(m: ChatMessage) -> Seq<(Seq<char>, JsonView)> {
    match m.tool_calls {
        Some(tc) => seq![("tool_calls"@, JsonView::Array(tc@.map_values(|c: ToolCall| tool_call_json(c))))],
        None => Seq::empty(),
    }
}

/// The `tool_call_id` member of a message's JSON, when it has one.
pub open spec fn tool_call_id_part(m: ChatMessage) -> Seq<(Seq<char>, JsonView)> {
    match m.tool_call_id {
        Some(i) => seq![("tool_call_id"@, JsonView::Str(i@))],
        None => Seq::empty(),
    }
}

/// The JSON of a chat message: role and content, then name, tool calls and
/// tool call id when present.
pub open spec fn message_json(m: ChatMessage) -> JsonView {
    JsonView::Object(
        seq![("role"@, JsonView::Str(role_name(m.role))), ("content"@, JsonView::Str(m.content@))]
            + name_part(m) + tool_calls_part(m) + tool_call_id_part(m)
    )
}

/// The JSON of a tool call.
pub fn tool_call_to_json(c: &ToolCall) -> (v: JsonValue)
    ensures
        v@ == tool_call_json(*c),
{
    let mut f: Vec<(String, JsonValue)> = Vec::new();
    f.push((owned("name"), JsonValue::Str(c.function.name.clone())));
    f.push((owned("arguments"), JsonValue::Str(c.function.arguments.clone())));
    let mut ms: Vec<(String, JsonValue)> = Vec::new();
    ms.push((owned("id"), JsonValue::Str(c.id.clone())));
    ms.push((owned("type"), JsonValue::Str(c.call_type.clone())));
    ms.push((owned("function"), JsonValue::Object(f)));
    proof {
        lemma_json_members_view_ext(f@, seq![
            ("name"@, JsonView::Str(c.function.name@)),
            ("arguments"@, JsonView::Str(c.function.arguments@)),
        ]);
        lemma_json_members_view_ext(ms@, seq![
            ("id"@, JsonView::Str(c.id@)),
            ("type"@, JsonView::Str(c.call_type@)),
            ("function"@, JsonView::Object(seq![
                ("name"@, JsonView::Str(c.function.name@)),
                ("arguments"@, JsonView::Str(c.function.arguments@)),
            ])),
        ]);
    }
    JsonValue::Object(ms)
}

/// The JSON of a chat message (see [`message_json`]).
pub fn message_to_json(m: &ChatMessage) -> (v: JsonValue)
    ensures
        v@ == message_json(*m),
{
    let mut ms: Vec<(String, JsonValue)> = Vec::new();
    ms.push((owned("role"), JsonValue::Str(owned(m.role.wire_name()))));
    ms.push((owned("content"), JsonValue::Str(m.content.clone())));
    let ghost base = seq![("role"@, JsonView::Str(role_name(m.role))), ("content"@, JsonView::Str(m.content@))];
    proof {
        lemma_json_members_view_ext(ms@, base);
    }
    let ghost p1 = base + name_part(*m);
    match &m.name {
        Some(n) => {
            let ghost before = ms@;
            ms.push((owned("name"), JsonValue::Str(n.clone())));
            proof {
                lemma_json_members_view(ms@);
                lemma_json_members_view(before);
                lemma_json_members_view_ext(ms@, p1);
            }
        },
        None => {
            assert(p1 =~= base);
        },
    }
    let ghost p2 = p1 + tool_calls_part(*m);
    match &m.tool_calls {
        Some(tc) => {
            let mut items: Vec<JsonValue> = Vec::new();
            let mut i: usize = 0;
            while i < tc.len()
                invariant
                    i <= tc@.len(),
                    items@.len() == i,
                    forall|j: int| 0 <= j < i ==> (#[trigger] items@[j])@ == tool_call_json(tc@[j]),
                decreases tc.len() - i,
            {
                items.push(tool_call_to_json(&tc[i]));
                i = i + 1;
            }
            proof {
                lemma_json_seq_view_ext(items@, tc@.map_values(|c: ToolCall| tool_call_json(c)));
            }
            let ghost before = ms@;
            ms.push((owned("tool_calls"), JsonValue::Array(items)));
            proof {
                lemma_json_members_view(ms@);
                lemma_json_members_view(before);
                lemma_json_members_view_ext(ms@, p2);
            }
        },
        None => {
            assert(p2 =~= p1);
        },
    }
    let ghost p3 = p2 + tool_call_id_part(*m);
    match &m.tool_call_id {
        Some(id) => {
            let ghost before = ms@;
            ms.push((owned("tool_call_id"), JsonValue::Str(id.clone())));
            proof {
                lemma_json_members_view(ms@);
                lemma_json_members_view(before);
                lemma_json_members_view_ext(ms@, p3);
            }
        },
        None => {
            assert(p3 =~= p2);
        },
    }
    JsonValue::Object(ms)
}

/// The JSON of a tool definition.
pub open spec fn tool_definition_json(d: ToolDefinition) -> JsonView {
    JsonView::Object(seq![
        ("type"@, JsonView::Str(d.type_@)),
        ("function"@, JsonView::Object(seq![
            ("name"@, JsonView::Str(d.function.name@)),
            ("description"@, JsonView::Str(d.function.description@)),
            ("parameters"@, d.function.parameters@),
        ])),
    ])
}

/// The JSON of a tool definition.
pub fn tool_definition_to_json(d: ToolDefinition) -> (v: JsonValue)
    ensures
        v@ == tool_definition_json(d),
{
    let ghost dv = tool_definition_json(d);
    let ghost pv = d.function.parameters@;
    let mut f: Vec<(String, JsonValue)> = Vec::new();
    f.push((owned("name"), JsonValue::Str(d.function.name)));
    f.push((owned("description"), JsonValue::Str(d.function.description)));
    f.push((owned("parameters"), d.function.parameters));
    let mut ms: Vec<(String, JsonValue)> = Vec::new();
    ms.push((owned("type"), JsonValue::Str(d.type_)));
    ms.push((owned("function"), JsonValue::Object(f)));
    proof {
        lemma_json_members_view_ext(f@, seq![
            ("name"@, JsonView::Str(d.function.name@)),
            ("description"@, JsonView::Str(d.function.description@)),
            ("parameters"@, pv),
        ]);
        lemma_json_members_view_ext(ms@, seq![
            ("type"@, JsonView::Str(d.type_@)),
            ("function"@, JsonView::Object(seq![
                ("name"@, JsonView::Str(d.function.name@)),
                ("description"@, JsonView::Str(d.function.description@)),
                ("parameters"@, pv),
            ])),
        ]);
    }
    JsonValue::Object(ms)
}

/// The definitions of an optional list, as a sequence.
pub open spec fn opt_defs(tools: Option<Vec<ToolDefinition>>) -> Option<Seq<ToolDefinition>> {
    match tools {
        Some(t) => Some(t@),
        None => None,
    }
}

/// The tool members of a request body, when tools are given.
pub open spec fn tools_part(tools: Option<Seq<ToolDefinition>>) -> Seq<(Seq<char>, JsonView)> {
    match tools {
        Some(ts) => seq![
            ("tools"@, JsonView::Array(ts.map_values(|d: ToolDefinition| tool_definition_json(d)))),
            ("tool_choice"@, JsonView::Str("auto"@)),
        ],
        None => Seq::empty(),
    }
}

/// The `max_tokens` member of a request body, when set.
pub open spec fn max_tokens_part(max_tokens: Option<u32>) -> Seq<(Seq<char>, JsonView)> {
    match max_tokens {
        Some(t) => seq![("max_tokens"@, JsonView::Number(t as int))],
        None => Seq::empty(),
    }
}

/// The JSON body of a chat completion request, without the temperature (a
/// float, added by the caller): model, messages and `stream: false`, then
/// `max_tokens` when set, then the tools with `tool_choice: "auto"` when given.
pub open spec fn request_body(model: Seq<char>, messages: Seq<ChatMessage>, max_tokens: Option<u32>, tools: Option<Seq<ToolDefinition>>) -> JsonView {
    JsonView::Object(
        seq![
            ("model"@, JsonView::Str(model)),
            ("messages"@, JsonView::Array(messages.map_values(|m: ChatMessage| message_json(m)))),
            ("stream"@, JsonView::Bool(false)),
        ]
        + max_tokens_part(max_tokens) + tools_part(tools)
    )
}

/// The JSON body of a chat completion request (see [`request_body`]).
pub fn request_body_json(model: &str, messages: &Vec<ChatMessage>, max_tokens: Option<u32>, tools: Option<Vec<ToolDefinition>>) -> (v: JsonValue)
    ensures
        v@ == request_body(model@, messages@, max_tokens, opt_defs(tools)),
{
    let ghost tv = opt_defs(tools);
    let mut items: Vec<JsonValue> = Vec::new();
    let mut i: usize = 0;
    while i < messages.len()
        invariant
            i <= messages@.len(),
            items@.len() == i,
            forall|j: int| 0 <= j < i ==> (#[trigger] items@[j])@ == message_json(messages@[j]),
        decreases messages.len() - i,
    {
        items.push(message_to_json(&messages[i]));
        i = i + 1;
    }
    proof {
        lemma_json_seq_view_ext(items@, messages@.map_values(|m: ChatMessage| message_json(m)));
    }
    let ghost mv = messages@.map_values(|m: ChatMessage| message_json(m));
    let mut ms: Vec<(String, JsonValue)> = Vec::new();
    ms.push((owned("model"), JsonValue::Str(owned(model))));
    ms.push((owned("messages"), JsonValue::Array(items)));
    ms.push((owned("stream"), JsonValue::Bool(false)));
    let ghost base = seq![
        ("model"@, JsonView::Str(model@)),
        ("messages"@, JsonView::Array(mv)),
        ("stream"@, JsonView::Bool(false)),
    ];
    proof {
        lemma_json_members_view_ext(ms@, base);
    }
    let ghost p1 = base + max_tokens_part(max_tokens);
    match max_tokens {
        Some(t) => {
            let ghost before = ms@;
            ms.push((owned("max_tokens"), JsonValue::Number(t as i64)));
            proof {
                lemma_json_members_view(ms@);
                lemma_json_members_view(before);
                lemma_json_members_view_ext(ms@, p1);
            }
        },
        None => {
            assert(p1 =~= base);
        },
    }
    let ghost p2 = p1 + tools_part(tv);
    match tools {
        Some(ts) => {
            let ghost tsv = ts@;
            let mut defs: Vec<JsonValue> = Vec::new();
            let mut rest = ts;
            let mut i: usize = 0;
            let n = rest.len();
            while rest.len() > 0
                invariant
                    n == tsv.len(),
                    i + rest@.len() == n,
                    rest@ == tsv.subrange(i as int, n as int),
                    defs@.len() == i,
                    forall|j: int| 0 <= j < i ==> (#[trigger] defs@[j])@ == tool_definition_json(tsv[j]),
                decreases rest.len(),
            {
                let d = rest.remove(0);
                assert(d == tsv[i as int]);
                defs.push(tool_definition_to_json(d));
                i = i + 1;
                assert(rest@ =~= tsv.subrange(i as int, n as int));
            }
            proof {
                lemma_json_seq_view_ext(defs@, tsv.map_values(|d: ToolDefinition| tool_definition_json(d)));
            }
            let ghost before = ms@;
            ms.push((owned("tools"), JsonValue::Array(defs)));
            ms.push((owned("tool_choice"), JsonValue::Str(owned("auto"))));
            proof {
                lemma_json_members_view(ms@);
                lemma_json_members_view(before);
                lemma_json_members_view_ext(ms@, p2);
            }
        },
        None => {
            assert(p2 =~= p1);
        },
    }
    JsonValue::Object(ms)
}

} // verus!
