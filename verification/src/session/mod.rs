//! Session management: conversation history per session id, with history
//! limits, time-to-live expiry and the persistence actions they imply.

pub mod types;
pub mod manager;
pub mod persistence;
pub mod store;

pub use types::{Message, MessageRole, Session, SessionConfig, ToolCall, ToolCallFunction};
pub use manager::SessionManager;
pub use store::InMemorySessionStore;
pub mod laws;
