use vstd::prelude::*;

use crate::json::{JsonValue, json_field_str};
use crate::text::{concat2, owned};
use crate::tools::builtin::required_str;
use crate::tools::types::{
    ParameterType, ToolError, ToolErrorView, ToolMetadata, ToolMetadataView, ToolParameter,
    ToolParameterView, ToolResult, failed, succeeded,
};

verus! {

broadcast use vstd::string::group_string_axioms;

/// The metadata of the `file_reader` tool.
pub open spec fn file_reader_metadata() -> ToolMetadataView {
    ToolMetadataView {
        name: "file_reader"@,
        description: "Read the contents of a file. Returns the file content as a string."@,
        parameters: seq![
            ToolParameterView {
                name: "path"@,
                description: "Path to the file to read"@,
                required: true,
                parameter_type: ParameterType::String,
            },
            ToolParameterView {
                name: "encoding"@,
                description: "File encoding (default: 'utf-8')"@,
                required: false,
                parameter_type: ParameterType::String,
            },
        ],
    }
}

/// The `file_reader` tool.
#[derive(Debug, Clone)]
pub struct FileReaderTool {
    metadata: ToolMetadata,
}

impl FileReaderTool {
    /// The tool with its fixed metadata.
    pub fn new() -> (t: FileReaderTool)
        ensures
            t.meta()@ == file_reader_metadata(),
    {
        let mut parameters: Vec<ToolParameter> = Vec::new();
        parameters.push(ToolParameter::new("path", "Path to the file to read", true, ParameterType::String));
        parameters.push(ToolParameter::new("encoding", "File encoding (default: 'utf-8')", false, ParameterType::String));
        let metadata = ToolMetadata {
            name: owned("file_reader"),
            description: owned("Read the contents of a file. Returns the file content as a string."),
            parameters,
        };
        assert(metadata@.parameters =~= file_reader_metadata().parameters);
        FileReaderTool { metadata }
    }

    /// The tool's metadata.
    pub closed spec fn meta(&self) -> ToolMetadata {
        self.metadata
    }

    /// The tool's metadata.
    pub fn metadata(&self) -> (m: &ToolMetadata)
        ensures
            *m == self.meta(),
    {
        &self.metadata
    }
}

/// What the file system reported for a read: the path names a directory, the
/// file's text, or the error message of a failed read.
pub enum ReadOutcome {
    Directory,
    Content(String),
    Failed(String),
}

impl FileReaderTool {
    /// The path to read, `parameters["path"]`; a missing or non-string path is
    /// an invalid-parameters error.
    pub fn read_request(&self, parameters: &JsonValue) -> (r: Result<String, ToolError>)
        ensures
            json_field_str(parameters@, "path"@) matches Some(p) ==> (r matches Ok(v) && v@ == p),
            json_field_str(parameters@, "path"@) is None ==> (r matches Err(e)
                && e@ == ToolErrorView::InvalidParameters("Missing 'path' parameter"@)),
    {
        required_str(parameters, "path", "Missing 'path' parameter")
    }

    /// The tool result for what the read gave: the content on success, else a
    /// failed result that says why.
    pub fn read_result(outcome: ReadOutcome) -> (r: ToolResult)
        ensures
            outcome is Directory ==> r@ == failed("Path is a directory, not a file"@),
            outcome matches ReadOutcome::Content(c) ==> r@ == succeeded(c@),
            outcome matches ReadOutcome::Failed(e) ==> r@ == failed("Failed to read file: "@ + e@),
    {
        match outcome {
            ReadOutcome::Directory => ToolResult::failed(owned("Path is a directory, not a file")),
            ReadOutcome::Content(c) => ToolResult::succeeded(c),
            ReadOutcome::Failed(e) => ToolResult::failed(concat2("Failed to read file: ", e.as_str())),
        }
    }
}

} // verus!
