use vstd::prelude::*;

use crate::json::{JsonValue, json_field_str};
use vstd::utf8::encode_utf8;
use crate::text::{concat2, decimal, format_u64, owned, str_equal};
use crate::tools::builtin::required_str;
use crate::tools::types::{
    ParameterType, ToolError, ToolErrorView, ToolMetadata, ToolMetadataView, ToolParameter,
    ToolParameterView, ToolResult, failed, succeeded,
};

verus! {

broadcast use vstd::string::group_string_axioms;

/// The metadata of the `file_writer` tool.
pub open spec fn file_writer_metadata() -> ToolMetadataView {
    ToolMetadataView {
        name: "file_writer"@,
        description: "Write content to a file. Creates the file if it doesn't exist, overwrites if it does."@,
        parameters: seq![
            ToolParameterView {
                name: "path"@,
                description: "Path to the file to write"@,
                required: true,
                parameter_type: ParameterType::String,
            },
            ToolParameterView {
                name: "content"@,
                description: "Content to write to the file"@,
                required: true,
                parameter_type: ParameterType::String,
            },
            ToolParameterView {
                name: "mode"@,
                description: "Write mode: 'overwrite' (default) or 'append'"@,
                required: false,
                parameter_type: ParameterType::String,
            },
        ],
    }
}

/// The `file_writer` tool.
#[derive(Debug, Clone)]
pub struct FileWriterTool {
    metadata: ToolMetadata,
}

impl FileWriterTool {
    /// The tool with its fixed metadata.
    pub fn new() -> (t: FileWriterTool)
        ensures
            t.meta()@ == file_writer_metadata(),
    {
        let mut parameters: Vec<ToolParameter> = Vec::new();
        parameters.push(ToolParameter::new("path", "Path to the file to write", true, ParameterType::String));
        parameters.push(ToolParameter::new("content", "Content to write to the file", true, ParameterType::String));
        parameters.push(ToolParameter::new("mode", "Write mode: 'overwrite' (default) or 'append'", false, ParameterType::String));
        let metadata = ToolMetadata {
            name: owned("file_writer"),
            description: owned("Write content to a file. Creates the file if it doesn't exist, overwrites if it does."),
            parameters,
        };
        assert(metadata@.parameters =~= file_writer_metadata().parameters);
        FileWriterTool { metadata }
    }

    /// The tool's metadata.
    pub closed spec fn meta(&self) -> ToolMetadata {
        self.metadata
    }

    /// The tool's metadata.
    pub fn metadata(&self) -> (m: &ToolMetadata)
        ensures
            *m == self.meta(),
    {
        &self.metadata
    }
}

/// A checked write request: where, what, and whether to append.
pub struct WriteRequest {
    pub path: String,
    pub content: String,
    pub append: bool,
}

/// The length in bytes of the UTF-8 encoding of `s`, as `str::len` reports it.
pub open spec fn byte_len(s: Seq<char>) -> nat {
    (encode_utf8(s).len() as usize) as nat
}

/// The message of a successful write.
pub open spec fn wrote_message(path: Seq<char>, content: Seq<char>) -> Seq<char> {
    "Successfully wrote "@ + decimal(byte_len(content)) + " bytes to "@ + path
}

impl FileWriterTool {
    /// The write request in `parameters`: `path` and `content` are required
    /// strings; `mode` is "append" to append, anything else (or nothing)
    /// overwrites.
    pub fn write_request(&self, parameters: &JsonValue) -> (r: Result<WriteRequest, ToolError>)
        ensures
            json_field_str(parameters@, "path"@) is None ==> (r matches Err(e)
                && e@ == ToolErrorView::InvalidParameters("Missing 'path' parameter"@)),
            json_field_str(parameters@, "path"@) is Some && json_field_str(parameters@, "content"@) is None
                ==> (r matches Err(e) && e@ == ToolErrorView::InvalidParameters("Missing 'content' parameter"@)),
            json_field_str(parameters@, "path"@) matches Some(p) ==> (json_field_str(parameters@, "content"@) matches Some(c)
                ==> (r matches Ok(w) && w.path@ == p && w.content@ == c
                    && w.append == (json_field_str(parameters@, "mode"@) == Some("append"@)))),
    {
        let path = match required_str(parameters, "path", "Missing 'path' parameter") {
            Ok(p) => p,
            Err(e) => return Err(e),
        };
        let content = match required_str(parameters, "content", "Missing 'content' parameter") {
            Ok(c) => c,
            Err(e) => return Err(e),
        };
        let append = match parameters.field_str("mode") {
            Some(m) => str_equal(m.as_str(), "append"),
            None => false,
        };
        Ok(WriteRequest { path, content, append })
    }

    /// The answer to a write: on success the number of bytes written and the
    /// path; a failed write (creating the parent directory or the file) is an
    /// I/O error with the system's message.
    pub fn write_result(request: &WriteRequest, outcome: Result<(), String>) -> (r: Result<ToolResult, ToolError>)
        ensures
            outcome is Ok ==> (r matches Ok(t) && t@ == succeeded(wrote_message(request.path@, request.content@))),
            outcome matches Err(e) ==> (r matches Err(x) && x@ == ToolErrorView::IoError(e@)),
    {
        match outcome {
            Ok(()) => {
                let n: usize = request.content.as_str().len();
                let mut out = concat2("Successfully wrote ", format_u64(n as u64).as_str());
                out.append(" bytes to ");
                out.append(request.path.as_str());
                Ok(ToolResult::succeeded(out))
            },
            Err(e) => Err(ToolError::IoError(e)),
        }
    }
}

} // verus!
