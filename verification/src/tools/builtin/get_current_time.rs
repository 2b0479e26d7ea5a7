use vstd::prelude::*;

use crate::json::JsonValue;
use crate::text::{owned};
use crate::clock::current_time_rfc3339;
use crate::tools::types::{
    ParameterType, ToolError, ToolErrorView, ToolMetadata, ToolMetadataView, ToolParameter,
    ToolParameterView, ToolResult, failed, succeeded,
};

verus! {

broadcast use vstd::string::group_string_axioms;

/// The metadata of the `get_current_time` tool.
pub open spec fn get_current_time_metadata() -> ToolMetadataView {
    ToolMetadataView {
        name: "get_current_time"@,
        description: "Get the current date and time in UTC"@,
        parameters: seq![
        ],
    }
}

/// The `get_current_time` tool.
#[derive(Debug, Clone)]
pub struct DatetimeTool {
    metadata: ToolMetadata,
}

impl DatetimeTool {
    /// The tool with its fixed metadata.
    pub fn new() -> (t: DatetimeTool)
        ensures
            t.meta()@ == get_current_time_metadata(),
    {
        let mut parameters: Vec<ToolParameter> = Vec::new();
        let metadata = ToolMetadata {
            name: owned("get_current_time"),
            description: owned("Get the current date and time in UTC"),
            parameters,
        };
        assert(metadata@.parameters =~= get_current_time_metadata().parameters);
        DatetimeTool { metadata }
    }

    /// The tool's metadata.
    pub closed spec fn meta(&self) -> ToolMetadata {
        self.metadata
    }

    /// The tool's metadata.
    pub fn metadata(&self) -> (m: &ToolMetadata)
        ensures
            *m == self.meta(),
    {
        &self.metadata
    }
}

impl DatetimeTool {
    /// The current UTC time in RFC 3339 form, as a successful result. The
    /// parameters are not read.
    pub fn execute(&self, parameters: &JsonValue) -> (r: Result<ToolResult, ToolError>)
        ensures
            r matches Ok(t) && t@.success && t@.error is None,
    {
        Ok(ToolResult::succeeded(current_time_rfc3339()))
    }
}

} // verus!
