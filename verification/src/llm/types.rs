//! Chat messages, tool definitions and errors of the LLM API.

use vstd::prelude::*;

use crate::json::{JsonValue, JsonView};
use crate::session::types::opt_str_view;
use crate::text::{concat2, owned};
use crate::llm::client::tool_definition_json;
use crate::tools::types::{ToolMetadata, ToolMetadataView, jstr, parameters_schema, parameters_schema_json, params_view};

verus! {

broadcast use vstd::string::group_string_axioms;

/// Who a chat message is from.
#[derive(Debug, Clone, Copy, PartialEq, Eq, Structural)]
pub enum MessageRole {
    System,
    User,
    Assistant,
    Tool,
}

/// The wire name of a role.
pub open spec fn role_name(r: MessageRole) -> Seq<char> {
    match r {
        MessageRole::System => "system"@,
        MessageRole::User => "user"@,
        MessageRole::Assistant => "assistant"@,
        MessageRole::Tool => "tool"@,
    }
}

impl MessageRole {
    /// The wire name: "system", "user", "assistant" or "tool".
    pub fn wire_name(&self) -> (s: &'static str)
        ensures
            s@ == role_name(*self),
    {
        match self {
            MessageRole::System => "system",
            MessageRole::User => "user",
            MessageRole::Assistant => "assistant",
            MessageRole::Tool => "tool",
        }
    }
}

/// A function called by the model: its name and JSON arguments text.
#[derive(Debug, Clone)]
pub struct FunctionCall {
    pub name: String,
    pub arguments: String,
}

/// A tool call made by the model.
#[derive(Debug, Clone)]
pub struct ToolCall {
    pub id: String,
    pub call_type: String,
    pub function: FunctionCall,
}

/// A chat message.
#[derive(Debug, Clone)]
pub struct ChatMessage {
    pub role: MessageRole,
    pub content: String,
    pub name: Option<String>,
    pub tool_calls: Option<Vec<ToolCall>>,
    pub tool_call_id: Option<String>,
}

impl ChatMessage {
    /// A message with only a role and content.
    pub fn new(role: MessageRole, content: String) -> (m: ChatMessage)
        ensures
            m.role == role,
            m.content == content,
            m.name is None,
            m.tool_calls is None,
            m.tool_call_id is None,
    {
        ChatMessage { role, content, name: None, tool_calls: None, tool_call_id: None }
    }
}

/// A function the model may call.
#[derive(Debug)]
pub struct FunctionDefinition {
    pub name: String,
    pub description: String,
    pub parameters: JsonValue,
}

/// A tool the model may call.
#[derive(Debug)]
pub struct ToolDefinition {
    pub type_: String,
    pub function: FunctionDefinition,
}

/// The JSON of the definition of a tool: a "function" with the tool's name
/// and description and the JSON Schema of its parameters, without `items`.
pub open spec fn definition_json(m: ToolMetadataView) -> JsonView {
    JsonView::Object(seq![
        ("type"@, jstr("function"@)),
        ("function"@, JsonView::Object(seq![
            ("name"@, jstr(m.name)),
            ("description"@, jstr(m.description)),
            ("parameters"@, parameters_schema(m.parameters, false)),
        ])),
    ])
}

impl ToolDefinition {
    /// The definition of a tool: a "function" with the tool's name and
    /// description and the JSON Schema of its parameters.
    pub fn from_metadata(metadata: &ToolMetadata) -> (d: ToolDefinition)
        ensures
            d.type_@ == "function"@,
            d.function.name@ == metadata.name@,
            d.function.description@ == metadata.description@,
            d.function.parameters@ == parameters_schema(params_view(metadata.parameters@), false),
            tool_definition_json(d) == definition_json(metadata@),
    {
        ToolDefinition {
            type_: owned("function"),
            function: FunctionDefinition {
                name: metadata.name.clone(),
                description: metadata.description.clone(),
                parameters: parameters_schema_json(&metadata.parameters, false),
            },
        }
    }
}

/// How the model may choose tools.
#[derive(Debug, Clone, Copy, PartialEq, Eq, Structural)]
pub enum ToolChoice {
    Auto,
    Off,
    Required,
}

impl ToolChoice {
    /// The wire name: "auto", "none" or "required".
    pub fn wire_name(&self) -> (s: &'static str)
        ensures
            *self == ToolChoice::Auto ==> s@ == "auto"@,
            *self == ToolChoice::Off ==> s@ == "none"@,
            *self == ToolChoice::Required ==> s@ == "required"@,
    {
        match self {
            ToolChoice::Auto => "auto",
            ToolChoice::Off => "none",
            ToolChoice::Required => "required",
        }
    }
}

/// Token counts of a completion.
#[derive(Debug, Clone, Copy)]
pub struct TokenUsage {
    pub prompt_tokens: u32,
    pub completion_tokens: u32,
    pub total_tokens: u32,
}

/// One completion choice.
#[derive(Debug, Clone)]
pub struct Choice {
    pub index: u32,
    pub message: ChatMessage,
    pub finish_reason: Option<String>,
}

/// The answer of the chat completion API.
#[derive(Debug, Clone)]
pub struct ChatCompletionResponse {
    pub id: String,
    pub choices: Vec<Choice>,
    pub usage: Option<TokenUsage>,
    pub created: u64,
    pub model: String,
}

/// Why an LLM request failed.
#[derive(Debug)]
pub enum LLMError {
    ConfigError(String),
    ApiError(String),
    NetworkError(String),
    SerializationError(String),
    AuthError(String),
    RateLimitError(String),
    InvalidRequest(String),
}

/// Mathematical value of an LLM error.
pub enum LLMErrorView {
    ConfigError(Seq<char>),
    ApiError(Seq<char>),
    NetworkError(Seq<char>),
    SerializationError(Seq<char>),
    AuthError(Seq<char>),
    RateLimitError(Seq<char>),
    InvalidRequest(Seq<char>),
}

impl View for LLMError {
    type V = LLMErrorView;

    open spec fn view(&self) -> LLMErrorView {
        match self {
            LLMError::ConfigError(s) => LLMErrorView::ConfigError(s@),
            LLMError::ApiError(s) => LLMErrorView::ApiError(s@),
            LLMError::NetworkError(s) => LLMErrorView::NetworkError(s@),
            LLMError::SerializationError(s) => LLMErrorView::SerializationError(s@),
            LLMError::AuthError(s) => LLMErrorView::AuthError(s@),
            LLMError::RateLimitError(s) => LLMErrorView::RateLimitError(s@),
            LLMError::InvalidRequest(s) => LLMErrorView::InvalidRequest(s@),
        }
    }
}

/// The message of an LLM error.
pub open spec fn llm_error_message(e: LLMErrorView) -> Seq<char> {
    match e {
        LLMErrorView::ConfigError(s) => "Configuration error: "@ + s,
        LLMErrorView::ApiError(s) => "API error: "@ + s,
        LLMErrorView::NetworkError(s) => "Network error: "@ + s,
        LLMErrorView::SerializationError(s) => "Serialization error: "@ + s,
        LLMErrorView::AuthError(s) => "Authentication error: "@ + s,
        LLMErrorView::RateLimitError(s) => "Rate limit error: "@ + s,
        LLMErrorView::InvalidRequest(s) => "Invalid request: "@ + s,
    }
}

impl LLMError {
    /// The error message, e.g. "API error: <detail>".
    pub fn message(&self) -> (m: String)
        ensures
            m@ == llm_error_message(self@),
    {
        match self {
            LLMError::ConfigError(s) => concat2("Configuration error: ", s.as_str()),
            LLMError::ApiError(s) => concat2("API error: ", s.as_str()),
            LLMError::NetworkError(s) => concat2("Network error: ", s.as_str()),
            LLMError::SerializationError(s) => concat2("Serialization error: ", s.as_str()),
            LLMError::AuthError(s) => concat2("Authentication error: ", s.as_str()),
            LLMError::RateLimitError(s) => concat2("Rate limit error: ", s.as_str()),
            LLMError::InvalidRequest(s) => concat2("Invalid request: ", s.as_str()),
        }
    }
}

} // verus!
