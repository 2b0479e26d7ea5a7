//! Agent runtime: sessions, tools, skills, configuration and the MCP protocol
//! types of an LLM agent, with their rules stated and proved.

pub mod text;
pub mod clock;
pub mod session;
pub mod json;
pub mod config;
pub mod keyed;
pub mod tools;
pub mod error;
pub mod skill;
pub mod skills;
pub mod patterns;
pub mod mcp;
pub mod llm;
pub mod runtime;
pub mod api;
pub mod utils;

use vstd::prelude::*;

verus! {

/// The version of this library.
pub const VERSION: &'static str = "0.1.0";

/// The name of this library.
pub const NAME: &'static str = "agent-runtime-rs";

/// What this library is.
pub const DESCRIPTION: &'static str = "Agent runtime with LLM integration, tool management, skills and MCP support";

} // verus!
