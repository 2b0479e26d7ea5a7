use vstd::prelude::*;

use crate::json::JsonValue;

verus! {

/// Skills configuration.
#[derive(Debug, Clone)]
pub struct SkillsConfig {
    pub skills_folder: Option<String>,
    pub auto_load_skills: Option<bool>,
    pub lazy_load_references: Option<bool>,
    pub lazy_load_scripts: Option<bool>,
    pub builtin_skills: Option<Vec<String>>,
}

/// Tools configuration inside the agent configuration.
#[derive(Debug, Clone)]
pub struct ToolsConfigAgent {
    pub sandbox_dir: Option<String>,
    pub auto_execute_tools: Option<bool>,
    pub builtin_tools: Option<Vec<String>>,
}

/// LLM provider.
#[derive(Debug, Clone, Copy, PartialEq, Eq, Structural)]
pub enum LLMProvider {
    OpenAI,
    OpenAICompatible,
}

/// Session section of the agent configuration.
#[derive(Debug, Clone)]
pub struct SessionConfig {
    pub max_history_length: usize,
    pub session_ttl: Option<u64>,
    pub persistence: Option<SessionPersistenceConfig>,
}

/// Session persistence configuration.
#[derive(Debug, Clone)]
pub struct SessionPersistenceConfig {
    pub enabled: bool,
    pub storage_path: String,
    /// Seconds between automatic saves.
    pub auto_save_interval: u64,
    /// "jsonl" or "json".
    pub format: String,
}

/// Logging configuration.
#[derive(Debug, Clone)]
pub struct LoggingConfig {
    pub level: LogLevel,
    pub file: Option<String>,
}

/// Log level.
#[derive(Debug, Clone, Copy, PartialEq, Eq, Structural)]
pub enum LogLevel {
    Error,
    Warn,
    Info,
    Debug,
}

/// Tools configuration: MCP servers and builtin tools.
#[derive(Debug)]
pub struct ToolsConfig {
    pub mcp_servers: MCPServers,
    pub builtin_tools: Vec<BuiltinToolConfig>,
    pub auto_execute_tools: Option<bool>,
    /// Tool definitions per MCP server name.
    pub mcp_tool_definitions: Option<Vec<(String, Vec<JsonValue>)>>,
}

/// MCP servers, either as a map from server name to command (current format)
/// or as a list of named URLs (older format).
#[derive(Debug, Clone)]
pub enum MCPServers {
    New(Vec<(String, MCPServerConfigNew)>),
    Old(Vec<MCPServerConfigOld>),
}

/// An MCP server started as a command.
#[derive(Debug, Clone)]
pub struct MCPServerConfigNew {
    pub command: String,
    pub args: Vec<String>,
    pub env: Option<Vec<(String, String)>>,
    pub disabled: Option<bool>,
    pub description: Option<String>,
}

/// An MCP server reached by URL (older format).
#[derive(Debug, Clone)]
pub struct MCPServerConfigOld {
    pub name: String,
    pub url: String,
    pub description: Option<String>,
}

/// A builtin tool declared in the tools configuration.
#[derive(Debug, Clone)]
pub struct BuiltinToolConfig {
    pub name: String,
    pub description: String,
    pub parameters: Vec<ToolParameter>,
}

/// A parameter of a declared tool.
#[derive(Debug, Clone)]
pub struct ToolParameter {
    pub name: String,
    pub param_type: ParameterType,
    pub required: bool,
    pub description: Option<String>,
}

/// Parameter type.
#[derive(Debug, Clone, Copy, PartialEq, Eq, Structural)]
pub enum ParameterType {
    String,
    Number,
    Boolean,
    Object,
    Array,
}

/// Prompt configuration.
#[derive(Debug, Clone)]
pub struct PromptConfig {
    pub system_prompt: String,
    pub templates: Option<Vec<PromptTemplate>>,
}

/// A named prompt template.
#[derive(Debug, Clone)]
pub struct PromptTemplate {
    pub name: String,
    pub template: String,
    pub variables: Option<Vec<String>>,
}

/// A message in a stored conversation (older storage format).
#[derive(Debug, Clone)]
pub struct Message {
    pub role: MessageRole,
    pub content: String,
    pub name: Option<String>,
    pub tool_calls: Option<Vec<ToolCall>>,
    pub tool_call_id: Option<String>,
}

/// Message role.
#[derive(Debug, Clone, Copy, PartialEq, Eq, Structural)]
pub enum MessageRole {
    System,
    User,
    Assistant,
    Tool,
}

/// A tool call (type is always "function").
#[derive(Debug, Clone)]
pub struct ToolCall {
    pub id: String,
    pub call_type: String,
    pub function: FunctionCall,
}

/// Function part of a tool call; `arguments` is JSON text.
#[derive(Debug, Clone)]
pub struct FunctionCall {
    pub name: String,
    pub arguments: String,
}

/// A stored conversation with timestamps in seconds (older storage format).
#[derive(Debug, Clone)]
pub struct Session {
    pub id: String,
    pub messages: Vec<Message>,
    pub created_at: u64,
    pub updated_at: u64,
}

/// Chat response from the LLM.
#[derive(Debug, Clone)]
pub struct ChatResponse {
    pub content: String,
    pub tool_calls: Option<Vec<ToolCall>>,
    pub usage: Option<TokenUsage>,
}

/// Token usage information.
#[derive(Debug, Clone, Copy)]
pub struct TokenUsage {
    pub prompt_tokens: u32,
    pub completion_tokens: u32,
    pub total_tokens: u32,
}

/// MCP tool request (JSON-RPC 2.0).
#[derive(Debug)]
pub struct MCPToolRequest {
    pub jsonrpc: String,
    pub method: String,
    pub params: MCPToolRequestParams,
    pub id: MCPRequestId,
}

/// Parameters of an MCP tool request.
#[derive(Debug)]
pub struct MCPToolRequestParams {
    pub name: String,
    pub arguments: Vec<(String, JsonValue)>,
}

/// MCP request id: a string or a number.
#[derive(Debug, Clone)]
pub enum MCPRequestId {
    String(String),
    Number(u64),
}

/// MCP tool response (JSON-RPC 2.0).
#[derive(Debug)]
pub struct MCPToolResponse {
    pub jsonrpc: String,
    pub result: Option<JsonValue>,
    pub error: Option<MCPError>,
    pub id: MCPRequestId,
}

/// MCP error object.
#[derive(Debug)]
pub struct MCPError {
    pub code: i32,
    pub message: String,
    pub data: Option<JsonValue>,
}

/// Outcome of a tool execution.
#[derive(Debug)]
pub struct ToolExecutionResult {
    pub success: bool,
    pub result: Option<JsonValue>,
    pub error: Option<String>,
}

} // verus!
