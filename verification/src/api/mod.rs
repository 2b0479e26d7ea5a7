//! The HTTP API: its payloads, the routes it serves, and what each handler
//! decides. The server and the awaiting of the runtime are the caller's.

pub mod types;
pub mod handlers;
pub mod routes;
pub mod skill_handlers;
pub mod turn;
pub mod tool_records;

pub use types::{
    ApiError, ErrorResponse, RunRequest, RunResponse, SessionListResponse, SessionRequest,
    SessionResponse, ToolCallRequest, ToolCallResponse,
};
