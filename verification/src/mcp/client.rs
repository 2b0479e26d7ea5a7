//! What every MCP client does alike: checking a call's arguments, and what
//! the client says of itself when it connects.

pub mod methods;

use vstd::prelude::*;

use crate::json::{JsonValue, JsonView};
use crate::mcp::types::{MCPClientInfo, MCPError, MCPTool};
use crate::text::owned;

verus! {

broadcast use vstd::string::group_string_axioms;

/// Accepts tool arguments that are a JSON object; anything else is an
/// invalid message. The tool's schema is not consulted.
pub fn validate_tool_call(tool: &MCPTool, arguments: &JsonValue) -> (r: Result<(), MCPError>)
    ensures
        arguments@ is Object ==> r is Ok,
        !(arguments@ is Object) ==> (r matches Err(MCPError::InvalidMessage(m))
            && m@ == "Tool arguments must be a JSON object"@),
{
    if !arguments.is_object() {
        return Err(MCPError::InvalidMessage(owned("Tool arguments must be a JSON object")));
    }
    Ok(())
}

/// The client's name and version: "agent-runtime-rs" and the crate's version.
pub fn default_client_info() -> (i: MCPClientInfo)
    ensures
        i.name@ == "agent-runtime-rs"@,
        i.version@ == crate::VERSION@,
{
    MCPClientInfo { name: owned("agent-runtime-rs"), version: owned(crate::VERSION) }
}

/// The client's capabilities: empty `tools`, `resources` and `prompts` objects.
pub open spec fn client_capabilities() -> JsonView {
    JsonView::Object(seq![
        ("tools"@, JsonView::Object(Seq::empty())),
        ("resources"@, JsonView::Object(Seq::empty())),
        ("prompts"@, JsonView::Object(Seq::empty())),
    ])
}

/// The client's capabilities (see [`client_capabilities`]).
pub fn default_client_capabilities() -> (v: JsonValue)
    ensures
        v@ == client_capabilities(),
{
    let mut members: Vec<(String, JsonValue)> = Vec::new();
    members.push((owned("tools"), JsonValue::Object(Vec::new())));
    members.push((owned("resources"), JsonValue::Object(Vec::new())));
    members.push((owned("prompts"), JsonValue::Object(Vec::new())));
    proof {
        assert(crate::json::json_members_view(Seq::<(String, JsonValue)>::empty()) =~= Seq::empty());
        crate::json::lemma_json_members_view_ext(members@, seq![
            ("tools"@, JsonView::Object(Seq::empty())),
            ("resources"@, JsonView::Object(Seq::empty())),
            ("prompts"@, JsonView::Object(Seq::empty())),
        ]);
    }
    JsonValue::Object(members)
}

} // verus!
