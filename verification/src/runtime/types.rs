//! Runtime errors, agent replies and the logging interface.

use vstd::prelude::*;

use crate::json::JsonValue;
use crate::llm::types::{LLMError, LLMErrorView, llm_error_message};
use crate::text::{concat2, decimal, format_u64};
use crate::tools::types::{ToolError, tool_error_message};

verus! {

broadcast use vstd::string::group_string_axioms;

/// Why the runtime failed.
#[derive(Debug)]
pub enum RuntimeError {
    InitializationError(String),
    RuntimeError(String),
    LLMError(String),
    ToolError(String),
    SessionError(String),
    ConfigError(String),
    SkillError(String),
    MCPError(String),
    MaxIterationsError(usize),
    IoError(String),
    SerializationError(String),
}

/// The message of a runtime error.
pub open spec fn runtime_error_message(e: RuntimeError) -> Seq<char> {
    match e {
        RuntimeError::InitializationError(s) => "Initialization error: "@ + s@,
        RuntimeError::RuntimeError(s) => "Runtime error: "@ + s@,
        RuntimeError::LLMError(s) => "LLM error: "@ + s@,
        RuntimeError::ToolError(s) => "Tool error: "@ + s@,
        RuntimeError::SessionError(s) => "Session error: "@ + s@,
        RuntimeError::ConfigError(s) => "Configuration error: "@ + s@,
        RuntimeError::SkillError(s) => "Skill error: "@ + s@,
        RuntimeError::MCPError(s) => "MCP error: "@ + s@,
        RuntimeError::MaxIterationsError(n) => "Max tool call iterations reached: "@ + decimal(n as nat),
        RuntimeError::IoError(s) => "IO error: "@ + s@,
        RuntimeError::SerializationError(s) => "Serialization error: "@ + s@,
    }
}

impl RuntimeError {
    /// The error message, e.g. "LLM error: <detail>".
    pub fn message(&self) -> (m: String)
        ensures
            m@ == runtime_error_message(*self),
    {
        match self {
            RuntimeError::InitializationError(s) => concat2("Initialization error: ", s.as_str()),
            RuntimeError::RuntimeError(s) => concat2("Runtime error: ", s.as_str()),
            RuntimeError::LLMError(s) => concat2("LLM error: ", s.as_str()),
            RuntimeError::ToolError(s) => concat2("Tool error: ", s.as_str()),
            RuntimeError::SessionError(s) => concat2("Session error: ", s.as_str()),
            RuntimeError::ConfigError(s) => concat2("Configuration error: ", s.as_str()),
            RuntimeError::SkillError(s) => concat2("Skill error: ", s.as_str()),
            RuntimeError::MCPError(s) => concat2("MCP error: ", s.as_str()),
            RuntimeError::MaxIterationsError(n) => concat2("Max tool call iterations reached: ", format_u64(*n as u64).as_str()),
            RuntimeError::IoError(s) => concat2("IO error: ", s.as_str()),
            RuntimeError::SerializationError(s) => concat2("Serialization error: ", s.as_str()),
        }
    }

    /// An LLM failure as a runtime error carrying the LLM error's message.
    pub fn from_llm_error(e: &LLMError) -> (r: RuntimeError)
        ensures
            r matches RuntimeError::LLMError(m) && m@ == llm_error_message(e@),
    {
        RuntimeError::LLMError(e.message())
    }

    /// A tool failure as a runtime error carrying the tool error's message.
    pub fn from_tool_error(e: &ToolError) -> (r: RuntimeError)
        ensures
            r matches RuntimeError::ToolError(m) && m@ == tool_error_message(e@),
    {
        RuntimeError::ToolError(e.message())
    }
}

/// A reply of the agent.
#[derive(Debug)]
pub struct ChatResponse {
    pub content: String,
    pub tool_calls: Vec<JsonValue>,
    pub finish_reason: Option<String>,
    pub usage: Option<JsonValue>,
}

impl ChatResponse {
    /// A reply with content only.
    pub fn new(content: String) -> (r: ChatResponse)
        ensures
            r.content == content,
            r.tool_calls@.len() == 0,
            r.finish_reason is None,
            r.usage is None,
    {
        ChatResponse { content, tool_calls: Vec::new(), finish_reason: None, usage: None }
    }

    /// The reply with these tool calls.
    pub fn with_tool_calls(self, tool_calls: Vec<JsonValue>) -> (r: ChatResponse)
        ensures
            r.tool_calls == tool_calls,
            r.content == self.content,
            r.finish_reason == self.finish_reason,
            r.usage == self.usage,
    {
        ChatResponse { content: self.content, tool_calls, finish_reason: self.finish_reason, usage: self.usage }
    }

    /// The reply with this finish reason.
    pub fn with_finish_reason(self, finish_reason: String) -> (r: ChatResponse)
        ensures
            r.finish_reason == Some(finish_reason),
            r.content == self.content,
            r.tool_calls == self.tool_calls,
            r.usage == self.usage,
    {
        ChatResponse { content: self.content, tool_calls: self.tool_calls, finish_reason: Some(finish_reason), usage: self.usage }
    }

    /// The reply with this token usage.
    pub fn with_usage(self, usage: JsonValue) -> (r: ChatResponse)
        ensures
            r.usage == Some(usage),
            r.content == self.content,
            r.tool_calls == self.tool_calls,
            r.finish_reason == self.finish_reason,
    {
        ChatResponse { content: self.content, tool_calls: self.tool_calls, finish_reason: self.finish_reason, usage: Some(usage) }
    }
}

/// Where the runtime writes its log lines.
pub trait Logger {
    fn info(&self, message: &str);

    fn warn(&self, message: &str);

    fn error(&self, message: &str);

    fn debug(&self, message: &str);
}

/// A logger that writes nothing.
#[derive(Debug, Default)]
pub struct NoOpLogger;

impl Logger for NoOpLogger {
    fn info(&self, message: &str) {
    }

    fn warn(&self, message: &str) {
    }

    fn error(&self, message: &str) {
    }

    fn debug(&self, message: &str) {
    }
}

} // verus!
