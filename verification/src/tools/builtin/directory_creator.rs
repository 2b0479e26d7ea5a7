use vstd::prelude::*;

use crate::json::{JsonValue, json_field_bool, json_field_str};
use crate::text::{concat2, owned};
use crate::tools::builtin::required_str;
use crate::tools::types::{
    ParameterType, ToolError, ToolErrorView, ToolMetadata, ToolMetadataView, ToolParameter,
    ToolParameterView, ToolResult, failed, succeeded,
};

verus! {

broadcast use vstd::string::group_string_axioms;

/// The metadata of the `directory_creator` tool.
pub open spec fn directory_creator_metadata() -> ToolMetadataView {
    ToolMetadataView {
        name: "directory_creator"@,
        description: "Create a new directory. Can create nested directories if they don't exist."@,
        parameters: seq![
            ToolParameterView {
                name: "path"@,
                description: "Path of the directory to create"@,
                required: true,
                parameter_type: ParameterType::String,
            },
            ToolParameterView {
                name: "recursive"@,
                description: "Whether to create parent directories if they don't exist (default: true)"@,
                required: false,
                parameter_type: ParameterType::Boolean,
            },
        ],
    }
}

/// The `directory_creator` tool.
#[derive(Debug, Clone)]
pub struct DirectoryCreatorTool {
    metadata: ToolMetadata,
}

impl DirectoryCreatorTool {
    /// The tool with its fixed metadata.
    pub fn new() -> (t: DirectoryCreatorTool)
        ensures
            t.meta()@ == directory_creator_metadata(),
    {
        let mut parameters: Vec<ToolParameter> = Vec::new();
        parameters.push(ToolParameter::new("path", "Path of the directory to create", true, ParameterType::String));
        parameters.push(ToolParameter::new("recursive", "Whether to create parent directories if they don't exist (default: true)", false, ParameterType::Boolean));
        let metadata = ToolMetadata {
            name: owned("directory_creator"),
            description: owned("Create a new directory. Can create nested directories if they don't exist."),
            parameters,
        };
        assert(metadata@.parameters =~= directory_creator_metadata().parameters);
        DirectoryCreatorTool { metadata }
    }

    /// The tool's metadata.
    pub closed spec fn meta(&self) -> ToolMetadata {
        self.metadata
    }

    /// The tool's metadata.
    pub fn metadata(&self) -> (m: &ToolMetadata)
        ensures
            *m == self.meta(),
    {
        &self.metadata
    }
}

/// A checked request to create a directory.
pub struct CreateRequest {
    pub path: String,
    pub recursive: bool,
}

impl DirectoryCreatorTool {
    /// The request in `parameters`: `path` is a required string; `recursive`
    /// (create missing parents too) defaults to true.
    pub fn create_request(&self, parameters: &JsonValue) -> (r: Result<CreateRequest, ToolError>)
        ensures
            json_field_str(parameters@, "path"@) is None ==> (r matches Err(e)
                && e@ == ToolErrorView::InvalidParameters("Missing 'path' parameter"@)),
            json_field_str(parameters@, "path"@) matches Some(p) ==> (r matches Ok(q) && q.path@ == p
                && q.recursive == (json_field_bool(parameters@, "recursive"@) != Some(false))),
    {
        let path = match required_str(parameters, "path", "Missing 'path' parameter") {
            Ok(p) => p,
            Err(e) => return Err(e),
        };
        let recursive = match parameters.field_bool("recursive") {
            Some(b) => b,
            None => true,
        };
        Ok(CreateRequest { path, recursive })
    }

    /// The result of the creation: success names the path, a failure gives
    /// the system's message.
    pub fn create_result(request: &CreateRequest, outcome: Result<(), String>) -> (r: ToolResult)
        ensures
            outcome is Ok ==> r@ == succeeded("Successfully created directory: "@ + request.path@),
            outcome matches Err(e) ==> r@ == failed("Failed to create directory: "@ + e@),
    {
        match outcome {
            Ok(()) => ToolResult::succeeded(concat2("Successfully created directory: ", request.path.as_str())),
            Err(e) => ToolResult::failed(concat2("Failed to create directory: ", e.as_str())),
        }
    }
}

} // verus!
