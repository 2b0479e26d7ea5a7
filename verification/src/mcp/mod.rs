//! The Model Context Protocol: JSON-RPC 2.0 messages, the rules a client
//! follows, and the server configuration. The transport itself (a child
//! process spoken to over stdio) is run by the caller.

pub mod types;
pub mod client;
pub mod config;
pub mod stdio_client;
pub mod laws;

pub use types::{
    JsonRpcError, MCPClientInfo, MCPContent, MCPError, MCPInitializeParams, MCPInitializeResult,
    MCPNotification, MCPRequest, MCPResponse, MCPServerCapabilities, MCPServerInfo, MCPTool,
    MCPToolCall, MCPToolResult, RequestId, ResponsePayload, create_error_response,
    create_notification, create_request, create_success_response,
};
pub use client::{default_client_capabilities, default_client_info, validate_tool_call};
pub use config::{
    MCPServerConfig, MCPServerTransport, create_stdio_clients, default_enabled,
    load_mcp_servers_from_config, validate_mcp_config,
};
pub use stdio_client::MCPStdioClient;
