use vstd::prelude::*;

use crate::json::{JsonValue, JsonView, json_field_bool, json_field_str, lemma_json_members_view_ext};
use crate::text::{chars_of, concat2, owned};
use crate::tools::builtin::required_str;
use crate::tools::types::{
    ParameterType, ToolError, ToolErrorView, ToolMetadata, ToolMetadataView, ToolParameter,
    ToolParameterView, ToolResult, failed, succeeded,
};

verus! {

broadcast use vstd::string::group_string_axioms;

/// The metadata of the `file_lister` tool.
pub open spec fn file_lister_metadata() -> ToolMetadataView {
    ToolMetadataView {
        name: "file_lister"@,
        description: "List the contents of a directory. Returns file and directory names with their types."@,
        parameters: seq![
            ToolParameterView {
                name: "path"@,
                description: "Path to the directory to list"@,
                required: true,
                parameter_type: ParameterType::String,
            },
            ToolParameterView {
                name: "recursive"@,
                description: "Whether to list recursively (default: false)"@,
                required: false,
                parameter_type: ParameterType::Boolean,
            },
            ToolParameterView {
                name: "show_hidden"@,
                description: "Whether to show hidden files (default: false)"@,
                required: false,
                parameter_type: ParameterType::Boolean,
            },
        ],
    }
}

/// The `file_lister` tool.
#[derive(Debug, Clone)]
pub struct FileListerTool {
    metadata: ToolMetadata,
}

impl FileListerTool {
    /// The tool with its fixed metadata.
    pub fn new() -> (t: FileListerTool)
        ensures
            t.meta()@ == file_lister_metadata(),
    {
        let mut parameters: Vec<ToolParameter> = Vec::new();
        parameters.push(ToolParameter::new("path", "Path to the directory to list", true, ParameterType::String));
        parameters.push(ToolParameter::new("recursive", "Whether to list recursively (default: false)", false, ParameterType::Boolean));
        parameters.push(ToolParameter::new("show_hidden", "Whether to show hidden files (default: false)", false, ParameterType::Boolean));
        let metadata = ToolMetadata {
            name: owned("file_lister"),
            description: owned("List the contents of a directory. Returns file and directory names with their types."),
            parameters,
        };
        assert(metadata@.parameters =~= file_lister_metadata().parameters);
        FileListerTool { metadata }
    }

    /// The tool's metadata.
    pub closed spec fn meta(&self) -> ToolMetadata {
        self.metadata
    }

    /// The tool's metadata.
    pub fn metadata(&self) -> (m: &ToolMetadata)
        ensures
            *m == self.meta(),
    {
        &self.metadata
    }
}

/// A checked listing request.
pub struct ListRequest {
    pub path: String,
    pub recursive: bool,
    pub show_hidden: bool,
}

/// What a directory entry is.
#[derive(Debug, Clone, Copy, PartialEq, Eq, Structural)]
pub enum EntryKind {
    Directory,
    File,
    Other,
}

/// The name of an entry kind in a listing.
pub open spec fn entry_kind_name(k: EntryKind) -> Seq<char> {
    match k {
        EntryKind::Directory => "directory"@,
        EntryKind::File => "file"@,
        EntryKind::Other => "other"@,
    }
}

/// A hidden name starts with '.'.
pub open spec fn is_hidden_name(name: Seq<char>) -> bool {
    name.len() > 0 && name[0] == '.'
}

/// The listing record of an entry: its name, kind and path.
pub open spec fn entry_record(name: Seq<char>, kind: EntryKind, path: Seq<char>) -> JsonView {
    JsonView::Object(seq![
        ("name"@, JsonView::Str(name)),
        ("type"@, JsonView::Str(entry_kind_name(kind))),
        ("path"@, JsonView::Str(path)),
    ])
}

impl FileListerTool {
    /// The listing request in `parameters`: `path` is a required string;
    /// `recursive` and `show_hidden` default to false.
    pub fn list_request(&self, parameters: &JsonValue) -> (r: Result<ListRequest, ToolError>)
        ensures
            json_field_str(parameters@, "path"@) is None ==> (r matches Err(e)
                && e@ == ToolErrorView::InvalidParameters("Missing 'path' parameter"@)),
            json_field_str(parameters@, "path"@) matches Some(p) ==> (r matches Ok(q) && q.path@ == p
                && q.recursive == (json_field_bool(parameters@, "recursive"@) == Some(true))
                && q.show_hidden == (json_field_bool(parameters@, "show_hidden"@) == Some(true))),
    {
        let path = match required_str(parameters, "path", "Missing 'path' parameter") {
            Ok(p) => p,
            Err(e) => return Err(e),
        };
        let recursive = match parameters.field_bool("recursive") {
            Some(b) => b,
            None => false,
        };
        let show_hidden = match parameters.field_bool("show_hidden") {
            Some(b) => b,
            None => false,
        };
        Ok(ListRequest { path, recursive, show_hidden })
    }

    /// The failed result for a path that is missing or not a directory;
    /// `None` when the path is a directory and the listing goes on.
    pub fn precheck(request: &ListRequest, exists: bool, is_dir: bool) -> (r: Option<ToolResult>)
        ensures
            !exists ==> (r matches Some(t) && t@ == failed("Path does not exist: "@ + request.path@)),
            exists && !is_dir ==> (r matches Some(t) && t@ == failed("Path is not a directory: "@ + request.path@)),
            exists && is_dir ==> r is None,
    {
        if !exists {
            Some(ToolResult::failed(concat2("Path does not exist: ", request.path.as_str())))
        } else if !is_dir {
            Some(ToolResult::failed(concat2("Path is not a directory: ", request.path.as_str())))
        } else {
            None
        }
    }

    /// Whether an entry with this name is listed: hidden names only when asked for.
    pub fn entry_shown(request: &ListRequest, name: &str) -> (b: bool)
        ensures
            b == (request.show_hidden || !is_hidden_name(name@)),
    {
        if request.show_hidden {
            return true;
        }
        let cs = chars_of(name);
        !(cs.len() > 0 && cs[0] == '.')
    }

    /// The listing record of an entry.
    pub fn entry_json(name: &str, kind: EntryKind, path: &str) -> (v: JsonValue)
        ensures
            v@ == entry_record(name@, kind, path@),
    {
        let kind_name = match kind {
            EntryKind::Directory => "directory",
            EntryKind::File => "file",
            EntryKind::Other => "other",
        };
        let mut members: Vec<(String, JsonValue)> = Vec::new();
        members.push((owned("name"), JsonValue::Str(owned(name))));
        members.push((owned("type"), JsonValue::Str(owned(kind_name))));
        members.push((owned("path"), JsonValue::Str(owned(path))));
        proof {
            lemma_json_members_view_ext(members@, seq![
                ("name"@, JsonView::Str(name@)),
                ("type"@, JsonView::Str(entry_kind_name(kind))),
                ("path"@, JsonView::Str(path@)),
            ]);
        }
        JsonValue::Object(members)
    }

    /// Whether the listing goes down into a listed entry: for directories of a
    /// recursive listing.
    pub fn descends(request: &ListRequest, kind: EntryKind) -> (b: bool)
        ensures
            b == (request.recursive && kind == EntryKind::Directory),
    {
        request.recursive && kind == EntryKind::Directory
    }

    /// The answer for the serialised listing: its text on success; a failed
    /// serialisation is a parse error.
    pub fn listing_result(serialized: Result<String, String>) -> (r: Result<ToolResult, ToolError>)
        ensures
            serialized matches Ok(s) ==> (r matches Ok(t) && t@ == succeeded(s@)),
            serialized matches Err(e) ==> (r matches Err(x)
                && x@ == ToolErrorView::ParseError("Failed to serialize output: "@ + e@)),
    {
        match serialized {
            Ok(s) => Ok(ToolResult::succeeded(s)),
            Err(e) => Err(ToolError::ParseError(concat2("Failed to serialize output: ", e.as_str()))),
        }
    }
}

} // verus!
