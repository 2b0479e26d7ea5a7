use vstd::prelude::*;

use crate::json::{JsonValue, JsonView, json_members_view, json_seq_view, lemma_json_members_view_ext, lemma_json_seq_view_ext};
use crate::text::{concat2, owned};

verus! {

broadcast use vstd::string::group_string_axioms;

/// Parameter type of a tool parameter.
#[derive(Debug, Clone, Copy, PartialEq, Eq, Structural)]
pub enum ParameterType {
    String,
    Number,
    Boolean,
    Array,
    Object,
}

/// The JSON Schema type name of a parameter type.
pub open spec fn schema_type(t: ParameterType) -> Seq<char> {
    match t {
        ParameterType::String => "string"@,
        ParameterType::Number => "number"@,
        ParameterType::Boolean => "boolean"@,
        ParameterType::Array => "array"@,
        ParameterType::Object => "object"@,
    }
}

impl ParameterType {
    /// The JSON Schema type name: "string", "number", "boolean", "array" or "object".
    pub fn schema_type(&self) -> (s: &'static str)
        ensures
            s@ == schema_type(*self),
    {
        match self {
            ParameterType::String => "string",
            ParameterType::Number => "number",
            ParameterType::Boolean => "boolean",
            ParameterType::Array => "array",
            ParameterType::Object => "object",
        }
    }
}

/// A parameter of a tool.
#[derive(Debug, Clone)]
pub struct ToolParameter {
    pub name: String,
    pub description: String,
    pub required: bool,
    pub parameter_type: ParameterType,
}

/// Mathematical value of a tool parameter.
pub struct ToolParameterView {
    pub name: Seq<char>,
    pub description: Seq<char>,
    pub required: bool,
    pub parameter_type: ParameterType,
}

impl View for ToolParameter {
    type V = ToolParameterView;

    open spec fn view(&self) -> ToolParameterView {
        ToolParameterView {
            name: self.name@,
            description: self.description@,
            required: self.required,
            parameter_type: self.parameter_type,
        }
    }
}

impl ToolParameter {
    /// A parameter with the given parts.
    pub fn new(name: &str, description: &str, required: bool, parameter_type: ParameterType) -> (p: ToolParameter)
        ensures
            p@ == (ToolParameterView { name: name@, description: description@, required, parameter_type }),
    {
        ToolParameter { name: owned(name), description: owned(description), required, parameter_type }
    }

    /// A copy with the same value.
    pub fn duplicate(&self) -> (r: ToolParameter)
        ensures
            r@ == self@,
    {
        ToolParameter {
            name: self.name.clone(),
            description: self.description.clone(),
            required: self.required,
            parameter_type: self.parameter_type,
        }
    }
}

/// A tool's name, description and parameters.
#[derive(Debug, Clone)]
pub struct ToolMetadata {
    pub name: String,
    pub description: String,
    pub parameters: Vec<ToolParameter>,
}

/// Mathematical value of tool metadata.
pub struct ToolMetadataView {
    pub name: Seq<char>,
    pub description: Seq<char>,
    pub parameters: Seq<ToolParameterView>,
}

/// The values of a list of parameters.
pub open spec fn params_view(v: Seq<ToolParameter>) -> Seq<ToolParameterView> {
    v.map_values(|p: ToolParameter| p@)
}

impl View for ToolMetadata {
    type V = ToolMetadataView;

    open spec fn view(&self) -> ToolMetadataView {
        ToolMetadataView {
            name: self.name@,
            description: self.description@,
            parameters: params_view(self.parameters@),
        }
    }
}

impl ToolMetadata {
    /// A copy with the same value.
    pub fn duplicate(&self) -> (r: ToolMetadata)
        ensures
            r@ == self@,
    {
        let mut ps: Vec<ToolParameter> = Vec::new();
        let mut i: usize = 0;
        while i < self.parameters.len()
            invariant
                i <= self.parameters@.len(),
                ps@.len() == i,
                forall|j: int| 0 <= j < i ==> #[trigger] ps@[j]@ == self.parameters@[j]@,
            decreases self.parameters.len() - i,
        {
            ps.push(self.parameters[i].duplicate());
            i = i + 1;
        }
        assert(params_view(ps@) =~= params_view(self.parameters@));
        ToolMetadata { name: self.name.clone(), description: self.description.clone(), parameters: ps }
    }
}

/// A request to run a tool.
#[derive(Debug)]
pub struct ToolCall {
    pub tool_name: String,
    pub parameters: JsonValue,
}

/// Outcome of a tool run.
#[derive(Debug, Clone)]
pub struct ToolResult {
    pub success: bool,
    pub output: String,
    pub error: Option<String>,
}

/// Mathematical value of a tool result.
pub struct ToolResultView {
    pub success: bool,
    pub output: Seq<char>,
    pub error: Option<Seq<char>>,
}

impl View for ToolResult {
    type V = ToolResultView;

    open spec fn view(&self) -> ToolResultView {
        ToolResultView { success: self.success, output: self.output@, error: crate::session::types::opt_str_view(self.error) }
    }
}

/// A successful result with the given output.
pub open spec fn succeeded(output: Seq<char>) -> ToolResultView {
    ToolResultView { success: true, output, error: None }
}

/// A failed result with empty output and the given error message.
pub open spec fn failed(error: Seq<char>) -> ToolResultView {
    ToolResultView { success: false, output: Seq::empty(), error: Some(error) }
}

impl ToolResult {
    /// A successful result with the given output.
    pub fn succeeded(output: String) -> (r: ToolResult)
        ensures
            r@ == succeeded(output@),
    {
        ToolResult { success: true, output, error: None }
    }

    /// A failed result with empty output and the given error message.
    pub fn failed(error: String) -> (r: ToolResult)
        ensures
            r@ == failed(error@),
    {
        ToolResult { success: false, output: String::new(), error: Some(error) }
    }
}

/// Why a tool could not run.
#[derive(Debug)]
pub enum ToolError {
    NotFound(String),
    InvalidParameters(String),
    ExecutionError(String),
    IoError(String),
    ParseError(String),
}

/// Mathematical value of a tool error.
pub enum ToolErrorView {
    NotFound(Seq<char>),
    InvalidParameters(Seq<char>),
    ExecutionError(Seq<char>),
    IoError(Seq<char>),
    ParseError(Seq<char>),
}

impl View for ToolError {
    type V = ToolErrorView;

    open spec fn view(&self) -> ToolErrorView {
        match self {
            ToolError::NotFound(s) => ToolErrorView::NotFound(s@),
            ToolError::InvalidParameters(s) => ToolErrorView::InvalidParameters(s@),
            ToolError::ExecutionError(s) => ToolErrorView::ExecutionError(s@),
            ToolError::IoError(s) => ToolErrorView::IoError(s@),
            ToolError::ParseError(s) => ToolErrorView::ParseError(s@),
        }
    }
}

/// The message of a tool error.
pub open spec fn tool_error_message(e: ToolErrorView) -> Seq<char> {
    match e {
        ToolErrorView::NotFound(s) => "Tool not found: "@ + s,
        ToolErrorView::InvalidParameters(s) => "Invalid parameters: "@ + s,
        ToolErrorView::ExecutionError(s) => "Execution error: "@ + s,
        ToolErrorView::IoError(s) => "IO error: "@ + s,
        ToolErrorView::ParseError(s) => "Parse error: "@ + s,
    }
}

impl ToolError {
    /// The error message, e.g. "Tool not found: <name>".
    pub fn message(&self) -> (m: String)
        ensures
            m@ == tool_error_message(self@),
    {
        match self {
            ToolError::NotFound(s) => concat2("Tool not found: ", s.as_str()),
            ToolError::InvalidParameters(s) => concat2("Invalid parameters: ", s.as_str()),
            ToolError::ExecutionError(s) => concat2("Execution error: ", s.as_str()),
            ToolError::IoError(s) => concat2("IO error: ", s.as_str()),
            ToolError::ParseError(s) => concat2("Parse error: ", s.as_str()),
        }
    }
}

/// A JSON string value.
pub open spec fn jstr(s: Seq<char>) -> JsonView {
    JsonView::Str(s)
}

/// The JSON Schema of one parameter; an array parameter also gets an empty
/// `items` schema when `with_items` holds.
pub open spec fn param_schema(p: ToolParameterView, with_items: bool) -> JsonView {
    if with_items && p.parameter_type == ParameterType::Array {
        JsonView::Object(seq![
            ("type"@, jstr(schema_type(p.parameter_type))),
            ("description"@, jstr(p.description)),
            ("items"@, JsonView::Object(Seq::empty())),
        ])
    } else {
        JsonView::Object(seq![
            ("type"@, jstr(schema_type(p.parameter_type))),
            ("description"@, jstr(p.description)),
        ])
    }
}

/// The `properties` members: each parameter name with its schema.
pub open spec fn param_properties(ps: Seq<ToolParameterView>, with_items: bool) -> Seq<(Seq<char>, JsonView)> {
    Seq::new(ps.len(), |i: int| (ps[i].name, param_schema(ps[i], with_items)))
}

/// The names of the required parameters, in order.
pub open spec fn required_names(ps: Seq<ToolParameterView>) -> Seq<JsonView>
    decreases ps.len(),
{
    if ps.len() == 0 {
        Seq::empty()
    } else {
        let rest = required_names(ps.subrange(0, ps.len() - 1));
        if ps[ps.len() - 1].required {
            rest.push(jstr(ps[ps.len() - 1].name))
        } else {
            rest
        }
    }
}

/// The JSON Schema object of a tool's parameters.
pub open spec fn parameters_schema(ps: Seq<ToolParameterView>, with_items: bool) -> JsonView {
    JsonView::Object(seq![
        ("type"@, jstr("object"@)),
        ("properties"@, JsonView::Object(param_properties(ps, with_items))),
        ("required"@, JsonView::Array(required_names(ps))),
    ])
}

/// A tool in the OpenAI function-calling format.
pub open spec fn openai_tool(m: ToolMetadataView) -> JsonView {
    JsonView::Object(seq![
        ("type"@, jstr("function"@)),
        ("function"@, JsonView::Object(seq![
            ("name"@, jstr(m.name)),
            ("description"@, jstr(m.description)),
            ("parameters"@, parameters_schema(m.parameters, true)),
        ])),
    ])
}

/// A JSON string value holding `s`.
pub fn json_string(s: &str) -> (v: JsonValue)
    ensures
        v@ == jstr(s@),
{
    JsonValue::Str(owned(s))
}

/// An object with the given members (given as a list built in order).
pub fn json_object(members: Vec<(String, JsonValue)>) -> (v: JsonValue)
    ensures
        v@ == JsonView::Object(json_members_view(members@)),
{
    JsonValue::Object(members)
}

/// The JSON Schema of one parameter.
pub fn param_schema_json(p: &ToolParameter, with_items: bool) -> (v: JsonValue)
    ensures
        v@ == param_schema(p@, with_items),
{
    let mut members: Vec<(String, JsonValue)> = Vec::new();
    members.push((owned("type"), json_string(p.parameter_type.schema_type())));
    members.push((owned("description"), json_string(p.description.as_str())));
    let arr = match p.parameter_type {
        ParameterType::Array => true,
        _ => false,
    };
    if with_items && arr {
        members.push((owned("items"), JsonValue::Object(Vec::new())));
        proof {
            assert(json_members_view(Seq::<(String, JsonValue)>::empty()) =~= Seq::empty());
            lemma_json_members_view_ext(members@, seq![
                ("type"@, jstr(schema_type(p.parameter_type))),
                ("description"@, jstr(p.description@)),
                ("items"@, JsonView::Object(Seq::empty())),
            ]);
        }
    } else {
        proof {
            lemma_json_members_view_ext(members@, seq![
                ("type"@, jstr(schema_type(p.parameter_type))),
                ("description"@, jstr(p.description@)),
            ]);
        }
    }
    JsonValue::Object(members)
}

/// The JSON Schema object of a list of parameters.
pub fn parameters_schema_json(ps: &Vec<ToolParameter>, with_items: bool) -> (v: JsonValue)
    ensures
        v@ == parameters_schema(params_view(ps@), with_items),
{
    let ghost pv = params_view(ps@);
    let mut props: Vec<(String, JsonValue)> = Vec::new();
    let mut req: Vec<JsonValue> = Vec::new();
    let mut i: usize = 0;
    while i < ps.len()
        invariant
            i <= ps@.len(),
            pv == params_view(ps@),
            props@.len() == i,
            forall|j: int| 0 <= j < i ==> (#[trigger] props@[j]).0@ == pv[j].name
                && crate::json::json_view(props@[j].1) == param_schema(pv[j], with_items),
            json_seq_view(req@) == required_names(pv.subrange(0, i as int)),
        decreases ps.len() - i,
    {
        props.push((ps[i].name.clone(), param_schema_json(&ps[i], with_items)));
        let ghost before = req@;
        if ps[i].required {
            req.push(json_string(ps[i].name.as_str()));
            proof {
                crate::json::lemma_json_seq_view(before);
                crate::json::lemma_json_seq_view(req@);
                assert(req@.subrange(0, req@.len() - 1) =~= before);
            }
        }
        proof {
            assert(pv.subrange(0, i + 1).subrange(0, i as int) =~= pv.subrange(0, i as int));
        }
        i = i + 1;
    }
    proof {
        assert(pv.subrange(0, pv.len() as int) =~= pv);
        lemma_json_members_view_ext(props@, param_properties(pv, with_items));
    }
    let mut members: Vec<(String, JsonValue)> = Vec::new();
    members.push((owned("type"), json_string("object")));
    members.push((owned("properties"), JsonValue::Object(props)));
    members.push((owned("required"), JsonValue::Array(req)));
    proof {
        lemma_json_members_view_ext(members@, seq![
            ("type"@, jstr("object"@)),
            ("properties"@, JsonView::Object(param_properties(pv, with_items))),
            ("required"@, JsonView::Array(required_names(pv))),
        ]);
    }
    JsonValue::Object(members)
}

impl ToolMetadata {
    /// The tool in the OpenAI function-calling format:
    /// `{"type": "function", "function": {"name", "description", "parameters"}}`.
    pub fn to_openai_json(&self) -> (v: JsonValue)
        ensures
            v@ == openai_tool(self@),
    {
        let schema = parameters_schema_json(&self.parameters, true);
        let mut f: Vec<(String, JsonValue)> = Vec::new();
        f.push((owned("name"), json_string(self.name.as_str())));
        f.push((owned("description"), json_string(self.description.as_str())));
        f.push((owned("parameters"), schema));
        let ghost fv = seq![
            ("name"@, jstr(self.name@)),
            ("description"@, jstr(self.description@)),
            ("parameters"@, parameters_schema(params_view(self.parameters@), true)),
        ];
        proof {
            lemma_json_members_view_ext(f@, fv);
        }
        let mut top: Vec<(String, JsonValue)> = Vec::new();
        top.push((owned("type"), json_string("function")));
        top.push((owned("function"), JsonValue::Object(f)));
        proof {
            lemma_json_members_view_ext(top@, seq![("type"@, jstr("function"@)), ("function"@, JsonView::Object(fv))]);
        }
        JsonValue::Object(top)
    }
}

} // verus!
