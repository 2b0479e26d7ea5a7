//! The MCP method names.

use vstd::prelude::*;

verus! {

pub const INITIALIZE: &'static str = "initialize";
pub const SHUTDOWN: &'static str = "shutdown";
pub const NOTIFICATIONS_INITIALIZED: &'static str = "notifications/initialized";
pub const TOOLS_LIST: &'static str = "tools/list";
pub const TOOLS_CALL: &'static str = "tools/call";
pub const RESOURCES_LIST: &'static str = "resources/list";
pub const RESOURCES_READ: &'static str = "resources/read";
pub const PROMPTS_LIST: &'static str = "prompts/list";
pub const PROMPTS_GET: &'static str = "prompts/get";

} // verus!
