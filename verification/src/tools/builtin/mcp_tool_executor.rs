//! A tool served by an MCP server: its metadata, the arguments it forwards,
//! and how the server's answer becomes a tool result. The call itself goes
//! through the caller's client.

use vstd::prelude::*;

use crate::json::{JsonValue, JsonView, json_get};
use crate::mcp::types::{MCPContent, MCPError, MCPTool, MCPToolResult, mcp_error_message};
use crate::text::{concat2, owned, str_equal};
use crate::tools::types::{ParameterType, ToolError, ToolErrorView, ToolMetadata, ToolMetadataView, ToolParameter, ToolParameterView, ToolResult, ToolResultView};

verus! {

broadcast use vstd::string::group_string_axioms;

/// A tool served by an MCP server.
#[derive(Debug, Clone)]
pub struct MCPToolExecutor {
    metadata: ToolMetadata,
}

/// The metadata of an MCP tool: its name and description (empty when it has
/// none) and one required object parameter `arguments`.
pub open spec fn mcp_tool_metadata(tool: MCPTool) -> ToolMetadataView {
    ToolMetadataView {
        name: tool.name@,
        description: match tool.description { Some(d) => d@, None => Seq::empty() },
        parameters: seq![ToolParameterView {
            name: "arguments"@,
            description: "Tool arguments (JSON object)"@,
            required: true,
            parameter_type: ParameterType::Object,
        }],
    }
}

/// The output of an MCP tool result: the text of the first content when it is
/// text (empty when it carries none), the contents written as JSON
/// (`serialized`) when the first content is of another type, empty without content.
pub open spec fn mcp_output(content: Seq<MCPContent>, serialized: Seq<char>) -> Seq<char> {
    if content.len() == 0 {
        Seq::empty()
    } else if content[0].content_type@ == "text"@ {
        match content[0].text { Some(t) => t@, None => Seq::empty() }
    } else {
        serialized
    }
}

impl MCPToolExecutor {
    /// The tool's metadata.
    pub closed spec fn meta(&self) -> ToolMetadata {
        self.metadata
    }

    /// The executor for a tool the server offers.
    pub fn new(mcp_tool: MCPTool) -> (e: MCPToolExecutor)
        ensures
            e.meta()@ == mcp_tool_metadata(mcp_tool),
    {
        let ghost t = mcp_tool;
        let mut parameters: Vec<ToolParameter> = Vec::new();
        parameters.push(ToolParameter::new("arguments", "Tool arguments (JSON object)", true, ParameterType::Object));
        let description = match mcp_tool.description {
            Some(d) => d,
            None => String::new(),
        };
        let metadata = ToolMetadata { name: mcp_tool.name, description, parameters };
        assert(metadata@.parameters =~= mcp_tool_metadata(t).parameters);
        MCPToolExecutor { metadata }
    }

    /// The tool's metadata.
    pub fn metadata(&self) -> (m: &ToolMetadata)
        ensures
            *m == self.meta(),
    {
        &self.metadata
    }

    /// The tool's name, under which the server is called.
    pub fn tool_name(&self) -> (n: &str)
        ensures
            n@ == self.meta().name@,
    {
        self.metadata.name.as_str()
    }

    /// The arguments forwarded to the server: `parameters["arguments"]`, or
    /// an empty object when there is none.
    pub fn call_arguments(parameters: &JsonValue) -> (a: JsonValue)
        ensures
            json_get(parameters@, "arguments"@) matches Some(v) ==> a@ == v,
            json_get(parameters@, "arguments"@) is None ==> a@ == JsonView::Object(Seq::empty()),
    {
        match parameters.get("arguments") {
            Some(v) => v.duplicate(),
            None => {
                assert(crate::json::json_members_view(Seq::<(String, JsonValue)>::empty()) =~= Seq::empty());
                JsonValue::Object(Vec::new())
            },
        }
    }

    /// The tool result for the server's answer: its output (see
    /// [`mcp_output`]), failed with the output as error when the server flags
    /// an error; a failed call is an execution error.
    pub fn call_result(outcome: Result<MCPToolResult, MCPError>, serialized: &str) -> (r: Result<ToolResult, ToolError>)
        ensures
            outcome matches Ok(res) ==> (r matches Ok(t) && ({
                let out = mcp_output(res.content@, serialized@);
                let flagged = res.is_error == Some(true);
                t@ == (ToolResultView { success: !flagged, output: out, error: if flagged { Some(out) } else { None } })
            })),
            outcome matches Err(e) ==> (r matches Err(x)
                && x@ == ToolErrorView::ExecutionError("MCP tool execution failed: "@ + mcp_error_message(e))),
    {
        match outcome {
            Ok(res) => {
                let output = if res.content.len() == 0 {
                    String::new()
                } else if str_equal(res.content[0].content_type.as_str(), "text") {
                    match &res.content[0].text {
                        Some(t) => t.clone(),
                        None => String::new(),
                    }
                } else {
                    owned(serialized)
                };
                let flagged = match res.is_error {
                    Some(b) => b,
                    None => false,
                };
                let error = if flagged { Some(output.clone()) } else { None };
                Ok(ToolResult { success: !flagged, output, error })
            },
            Err(e) => Err(ToolError::ExecutionError(concat2("MCP tool execution failed: ", e.message().as_str()))),
        }
    }
}

} // verus!
