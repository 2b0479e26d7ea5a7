//! The agent runtime: its errors and replies, and the decisions it takes when
//! it starts and when it answers a message. The runtime object itself, which
//! awaits the LLM and the tools, is run by the caller.

pub mod types;
pub mod agent;
pub mod chat;
pub mod laws;

pub use types::{ChatResponse, Logger, NoOpLogger, RuntimeError};
