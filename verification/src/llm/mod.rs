//! Talking to an OpenAI-compatible chat completion API: the message and tool
//! shapes, the request body, and how an HTTP answer becomes a result. The
//! HTTP exchange itself is the caller's.

pub mod types;
pub mod connector;
pub mod client;
pub mod laws;

pub use types::{
    ChatCompletionResponse, ChatMessage, Choice, FunctionCall, FunctionDefinition, LLMError,
    MessageRole, TokenUsage, ToolCall, ToolChoice, ToolDefinition,
};
