use vstd::prelude::*;

use crate::json::{JsonValue, json_field_bool, json_field_str};
use crate::text::{concat2, owned};
use crate::tools::builtin::required_str;
use crate::tools::types::{
    ParameterType, ToolError, ToolErrorView, ToolMetadata, ToolMetadataView, ToolParameter,
    ToolParameterView, ToolResult, failed, succeeded,
};

verus! {

broadcast use vstd::string::group_string_axioms;

/// The metadata of the `file_deleter` tool.
pub open spec fn file_deleter_metadata() -> ToolMetadataView {
    ToolMetadataView {
        name: "file_deleter"@,
        description: "Delete a file or directory. Use with caution!"@,
        parameters: seq![
            ToolParameterView {
                name: "path"@,
                description: "Path to the file or directory to delete"@,
                required: true,
                parameter_type: ParameterType::String,
            },
            ToolParameterView {
                name: "recursive"@,
                description: "Whether to recursively delete directories (default: false)"@,
                required: false,
                parameter_type: ParameterType::Boolean,
            },
        ],
    }
}

/// The `file_deleter` tool.
#[derive(Debug, Clone)]
pub struct FileDeleterTool {
    metadata: ToolMetadata,
}

impl FileDeleterTool {
    /// The tool with its fixed metadata.
    pub fn new() -> (t: FileDeleterTool)
        ensures
            t.meta()@ == file_deleter_metadata(),
    {
        let mut parameters: Vec<ToolParameter> = Vec::new();
        parameters.push(ToolParameter::new("path", "Path to the file or directory to delete", true, ParameterType::String));
        parameters.push(ToolParameter::new("recursive", "Whether to recursively delete directories (default: false)", false, ParameterType::Boolean));
        let metadata = ToolMetadata {
            name: owned("file_deleter"),
            description: owned("Delete a file or directory. Use with caution!"),
            parameters,
        };
        assert(metadata@.parameters =~= file_deleter_metadata().parameters);
        FileDeleterTool { metadata }
    }

    /// The tool's metadata.
    pub closed spec fn meta(&self) -> ToolMetadata {
        self.metadata
    }

    /// The tool's metadata.
    pub fn metadata(&self) -> (m: &ToolMetadata)
        ensures
            *m == self.meta(),
    {
        &self.metadata
    }
}

/// A checked delete request.
pub struct DeleteRequest {
    pub path: String,
    pub recursive: bool,
}

/// How a path is removed.
#[derive(Debug, Clone, Copy, PartialEq, Eq, Structural)]
pub enum DeleteAction {
    /// A directory with everything in it.
    RemoveDirAll,
    /// An empty directory.
    RemoveDir,
    /// A file.
    RemoveFile,
}

impl FileDeleterTool {
    /// The delete request in `parameters`: `path` is a required string;
    /// `recursive` defaults to false.
    pub fn delete_request(&self, parameters: &JsonValue) -> (r: Result<DeleteRequest, ToolError>)
        ensures
            json_field_str(parameters@, "path"@) is None ==> (r matches Err(e)
                && e@ == ToolErrorView::InvalidParameters("Missing 'path' parameter"@)),
            json_field_str(parameters@, "path"@) matches Some(p) ==> (r matches Ok(q) && q.path@ == p
                && q.recursive == (json_field_bool(parameters@, "recursive"@) == Some(true))),
    {
        let path = match required_str(parameters, "path", "Missing 'path' parameter") {
            Ok(p) => p,
            Err(e) => return Err(e),
        };
        let recursive = match parameters.field_bool("recursive") {
            Some(b) => b,
            None => false,
        };
        Ok(DeleteRequest { path, recursive })
    }

    /// How to remove the path, or the failed result when it does not exist.
    pub fn delete_plan(request: &DeleteRequest, exists: bool, is_dir: bool) -> (r: Result<DeleteAction, ToolResult>)
        ensures
            !exists ==> (r matches Err(t) && t@ == failed("Path does not exist: "@ + request.path@)),
            exists && is_dir && request.recursive ==> r == Ok::<DeleteAction, ToolResult>(DeleteAction::RemoveDirAll),
            exists && is_dir && !request.recursive ==> r == Ok::<DeleteAction, ToolResult>(DeleteAction::RemoveDir),
            exists && !is_dir ==> r == Ok::<DeleteAction, ToolResult>(DeleteAction::RemoveFile),
    {
        if !exists {
            Err(ToolResult::failed(concat2("Path does not exist: ", request.path.as_str())))
        } else if is_dir {
            if request.recursive {
                Ok(DeleteAction::RemoveDirAll)
            } else {
                Ok(DeleteAction::RemoveDir)
            }
        } else {
            Ok(DeleteAction::RemoveFile)
        }
    }

    /// The result of the removal: success names the path, a failure gives the
    /// system's message.
    pub fn delete_result(request: &DeleteRequest, outcome: Result<(), String>) -> (r: ToolResult)
        ensures
            outcome is Ok ==> r@ == succeeded("Successfully deleted: "@ + request.path@),
            outcome matches Err(e) ==> r@ == failed("Failed to delete: "@ + e@),
    {
        match outcome {
            Ok(()) => ToolResult::succeeded(concat2("Successfully deleted: ", request.path.as_str())),
            Err(e) => ToolResult::failed(concat2("Failed to delete: ", e.as_str())),
        }
    }
}

} // verus!
