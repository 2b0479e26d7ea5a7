//! JSON-RPC 2.0 messages and the MCP payloads they carry.

use vstd::prelude::*;

use crate::json::{JsonValue, JsonView};
use crate::text::{concat2, format_i64, owned, signed_decimal};

verus! {

broadcast use vstd::string::group_string_axioms;

/// Errors of the MCP protocol.
#[derive(Debug)]
pub enum MCPError {
    JsonRpc { code: i64, message: String, data: Option<JsonValue> },
    Io(String),
    Serialization(String),
    Connection(String),
    Timeout(String),
    InvalidMessage(String),
    ToolNotFound(String),
    ToolExecution(String),
    Server(String),
}

/// The message of an MCP error.
pub open spec fn mcp_error_message(e: MCPError) -> Seq<char> {
    match e {
        MCPError::JsonRpc { code, message, .. } => "JSON-RPC error: "@ + signed_decimal(code as int) + " - "@ + message@,
        MCPError::Io(s) => "IO error: "@ + s@,
        MCPError::Serialization(s) => "Serialization error: "@ + s@,
        MCPError::Connection(s) => "Connection error: "@ + s@,
        MCPError::Timeout(s) => "Timeout error: "@ + s@,
        MCPError::InvalidMessage(s) => "Invalid message format: "@ + s@,
        MCPError::ToolNotFound(s) => "Tool not found: "@ + s@,
        MCPError::ToolExecution(s) => "Tool execution error: "@ + s@,
        MCPError::Server(s) => "Server error: "@ + s@,
    }
}

impl MCPError {
    /// The error message, e.g. "Connection error: Not initialized".
    pub fn message(&self) -> (m: String)
        ensures
            m@ == mcp_error_message(*self),
    {
        match self {
            MCPError::JsonRpc { code, message, .. } => {
                let mut m = concat2("JSON-RPC error: ", format_i64(*code).as_str());
                m.append(" - ");
                m.append(message.as_str());
                m
            },
            MCPError::Io(s) => concat2("IO error: ", s.as_str()),
            MCPError::Serialization(s) => concat2("Serialization error: ", s.as_str()),
            MCPError::Connection(s) => concat2("Connection error: ", s.as_str()),
            MCPError::Timeout(s) => concat2("Timeout error: ", s.as_str()),
            MCPError::InvalidMessage(s) => concat2("Invalid message format: ", s.as_str()),
            MCPError::ToolNotFound(s) => concat2("Tool not found: ", s.as_str()),
            MCPError::ToolExecution(s) => concat2("Tool execution error: ", s.as_str()),
            MCPError::Server(s) => concat2("Server error: ", s.as_str()),
        }
    }
}

/// The id of a JSON-RPC request.
#[derive(Debug)]
pub enum RequestId {
    String(String),
    Number(i64),
    Null,
}

/// The text a response id is matched by: the string itself, or the number in
/// decimal; a null id matches nothing.
pub open spec fn request_key(id: RequestId) -> Option<Seq<char>> {
    match id {
        RequestId::String(s) => Some(s@),
        RequestId::Number(n) => Some(signed_decimal(n as int)),
        RequestId::Null => None,
    }
}

impl RequestId {
    /// An id holding the text form of a UUID.
    pub fn from_uuid_text(uuid: String) -> (id: RequestId)
        ensures
            id matches RequestId::String(s) && s@ == uuid@,
    {
        RequestId::String(uuid)
    }

    /// The text the id is matched by (see [`request_key`]).
    pub fn key(&self) -> (k: Option<String>)
        ensures
            match k {
                Some(s) => request_key(*self) == Some(s@),
                None => request_key(*self) is None,
            },
    {
        match self {
            RequestId::String(s) => Some(s.clone()),
            RequestId::Number(n) => Some(format_i64(*n)),
            RequestId::Null => None,
        }
    }
}

/// A JSON-RPC 2.0 request.
#[derive(Debug)]
pub struct MCPRequest {
    pub jsonrpc: String,
    pub id: RequestId,
    pub method: String,
    pub params: Option<JsonValue>,
}

/// A JSON-RPC 2.0 response.
#[derive(Debug)]
pub struct MCPResponse {
    pub jsonrpc: String,
    pub id: RequestId,
    pub payload: ResponsePayload,
}

/// What a response carries: a result or an error.
#[derive(Debug)]
pub enum ResponsePayload {
    Result { result: JsonValue },
    Error { error: JsonRpcError },
}

/// A JSON-RPC error object.
#[derive(Debug)]
pub struct JsonRpcError {
    pub code: i64,
    pub message: String,
    pub data: Option<JsonValue>,
}

/// A JSON-RPC 2.0 notification (no id, no response).
#[derive(Debug)]
pub struct MCPNotification {
    pub jsonrpc: String,
    pub method: String,
    pub params: Option<JsonValue>,
}

/// A tool offered by an MCP server.
#[derive(Debug)]
pub struct MCPTool {
    pub name: String,
    pub description: Option<String>,
    pub input_schema: Option<JsonValue>,
}

/// A call of an MCP tool.
#[derive(Debug)]
pub struct MCPToolCall {
    pub name: String,
    pub arguments: JsonValue,
}

/// The result of an MCP tool call.
#[derive(Debug)]
pub struct MCPToolResult {
    pub content: Vec<MCPContent>,
    pub is_error: Option<bool>,
}

/// One piece of content of a tool result.
#[derive(Debug, Clone)]
pub struct MCPContent {
    pub content_type: String,
    pub text: Option<String>,
    pub data: Option<String>,
    pub mime_type: Option<String>,
}

impl MCPContent {
    /// Text content.
    pub fn text(text: &str) -> (c: MCPContent)
        ensures
            c.content_type@ == "text"@,
            c.text matches Some(t) && t@ == text@,
            c.data is None,
            c.mime_type is None,
    {
        MCPContent { content_type: owned("text"), text: Some(owned(text)), data: None, mime_type: None }
    }

    /// Image content: base64 data and its MIME type.
    pub fn image(data: &str, mime_type: &str) -> (c: MCPContent)
        ensures
            c.content_type@ == "image"@,
            c.text is None,
            c.data matches Some(d) && d@ == data@,
            c.mime_type matches Some(m) && m@ == mime_type@,
    {
        MCPContent { content_type: owned("image"), text: None, data: Some(owned(data)), mime_type: Some(owned(mime_type)) }
    }
}

/// The parameters of an `initialize` request.
#[derive(Debug)]
pub struct MCPInitializeParams {
    pub protocol_version: String,
    pub capabilities: JsonValue,
    pub client_info: MCPClientInfo,
}

/// Who the client is.
#[derive(Debug, Clone)]
pub struct MCPClientInfo {
    pub name: String,
    pub version: String,
}

/// What a server offers.
#[derive(Debug)]
pub struct MCPServerCapabilities {
    pub tools: Option<JsonValue>,
    pub resources: Option<JsonValue>,
    pub prompts: Option<JsonValue>,
}

/// Who the server is.
#[derive(Debug, Clone)]
pub struct MCPServerInfo {
    pub name: String,
    pub version: String,
}

/// The answer to `initialize`.
#[derive(Debug)]
pub struct MCPInitializeResult {
    pub protocol_version: Option<String>,
    pub capabilities: Option<MCPServerCapabilities>,
    pub server_info: Option<MCPServerInfo>,
}

/// A JSON-RPC 2.0 request with the given id, method and parameters.
pub fn create_request(id: RequestId, method: &str, params: Option<JsonValue>) -> (r: MCPRequest)
    ensures
        r.jsonrpc@ == "2.0"@,
        r.id == id,
        r.method@ == method@,
        r.params == params,
{
    MCPRequest { jsonrpc: owned("2.0"), id, method: owned(method), params }
}

/// A JSON-RPC 2.0 notification with the given method and parameters.
pub fn create_notification(method: &str, params: Option<JsonValue>) -> (n: MCPNotification)
    ensures
        n.jsonrpc@ == "2.0"@,
        n.method@ == method@,
        n.params == params,
{
    MCPNotification { jsonrpc: owned("2.0"), method: owned(method), params }
}

/// A JSON-RPC 2.0 response carrying a result.
pub fn create_success_response(id: RequestId, result: JsonValue) -> (r: MCPResponse)
    ensures
        r.jsonrpc@ == "2.0"@,
        r.id == id,
        r.payload == (ResponsePayload::Result { result }),
{
    MCPResponse { jsonrpc: owned("2.0"), id, payload: ResponsePayload::Result { result } }
}

/// A JSON-RPC 2.0 response carrying an error.
pub fn create_error_response(id: RequestId, code: i64, message: &str, data: Option<JsonValue>) -> (r: MCPResponse)
    ensures
        r.jsonrpc@ == "2.0"@,
        r.id == id,
        r.payload matches ResponsePayload::Error { error } && error.code == code && error.message@ == message@
            && error.data == data,
{
    MCPResponse {
        jsonrpc: owned("2.0"),
        id,
        payload: ResponsePayload::Error { error: JsonRpcError { code, message: owned(message), data } },
    }
}

/// What a response comes to: its result, or a JSON-RPC error with the
/// response's code, message and data.
pub fn response_outcome(response: MCPResponse) -> (r: Result<JsonValue, MCPError>)
    ensures
        response.payload matches ResponsePayload::Result { result } ==> r == Ok::<JsonValue, MCPError>(result),
        response.payload matches ResponsePayload::Error { error } ==> r == Err::<JsonValue, MCPError>(
            MCPError::JsonRpc { code: error.code, message: error.message, data: error.data }),
{
    match response.payload {
        ResponsePayload::Result { result } => Ok(result),
        ResponsePayload::Error { error } => Err(MCPError::JsonRpc { code: error.code, message: error.message, data: error.data }),
    }
}

} // verus!
