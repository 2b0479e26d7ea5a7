use vstd::prelude::*;

use crate::json::{JsonValue, json_field_bool, json_field_str};
use crate::text::{chars_of, concat2, owned, replace_all_chars, replace_all_spec, replace_first_chars, replace_first_spec, string_from_chars};
use crate::patterns::{regex_compile_error, regex_replace_all, regex_replace_all_text, regex_replace_first, regex_replace_first_text};
use crate::tools::builtin::required_str;
use crate::tools::types::{
    ParameterType, ToolError, ToolErrorView, ToolMetadata, ToolMetadataView, ToolParameter,
    ToolParameterView, ToolResult, failed, succeeded,
};

verus! {

broadcast use vstd::string::group_string_axioms;

/// The metadata of the `file_editor` tool.
pub open spec fn file_editor_metadata() -> ToolMetadataView {
    ToolMetadataView {
        name: "file_editor"@,
        description: "Edit a file by finding and replacing text using regex patterns. Can replace all occurrences or just the first."@,
        parameters: seq![
            ToolParameterView {
                name: "path"@,
                description: "Path to the file to edit"@,
                required: true,
                parameter_type: ParameterType::String,
            },
            ToolParameterView {
                name: "find"@,
                description: "Text or regex pattern to find"@,
                required: true,
                parameter_type: ParameterType::String,
            },
            ToolParameterView {
                name: "replace"@,
                description: "Text to replace with"@,
                required: true,
                parameter_type: ParameterType::String,
            },
            ToolParameterView {
                name: "use_regex"@,
                description: "Whether to treat 'find' as a regex pattern (default: false)"@,
                required: false,
                parameter_type: ParameterType::Boolean,
            },
            ToolParameterView {
                name: "replace_all"@,
                description: "Whether to replace all occurrences (default: true)"@,
                required: false,
                parameter_type: ParameterType::Boolean,
            },
        ],
    }
}

/// The `file_editor` tool.
#[derive(Debug, Clone)]
pub struct FileEditorTool {
    metadata: ToolMetadata,
}

impl FileEditorTool {
    /// The tool with its fixed metadata.
    pub fn new() -> (t: FileEditorTool)
        ensures
            t.meta()@ == file_editor_metadata(),
    {
        let mut parameters: Vec<ToolParameter> = Vec::new();
        parameters.push(ToolParameter::new("path", "Path to the file to edit", true, ParameterType::String));
        parameters.push(ToolParameter::new("find", "Text or regex pattern to find", true, ParameterType::String));
        parameters.push(ToolParameter::new("replace", "Text to replace with", true, ParameterType::String));
        parameters.push(ToolParameter::new("use_regex", "Whether to treat 'find' as a regex pattern (default: false)", false, ParameterType::Boolean));
        parameters.push(ToolParameter::new("replace_all", "Whether to replace all occurrences (default: true)", false, ParameterType::Boolean));
        let metadata = ToolMetadata {
            name: owned("file_editor"),
            description: owned("Edit a file by finding and replacing text using regex patterns. Can replace all occurrences or just the first."),
            parameters,
        };
        assert(metadata@.parameters =~= file_editor_metadata().parameters);
        FileEditorTool { metadata }
    }

    /// The tool's metadata.
    pub closed spec fn meta(&self) -> ToolMetadata {
        self.metadata
    }

    /// The tool's metadata.
    pub fn metadata(&self) -> (m: &ToolMetadata)
        ensures
            *m == self.meta(),
    {
        &self.metadata
    }
}

/// A checked edit request.
pub struct EditRequest {
    pub path: String,
    pub find: String,
    pub replace: String,
    pub use_regex: bool,
    pub replace_all: bool,
}

/// The new text of an edit of `content`, or the error that stops it.
pub open spec fn edited_text(find: Seq<char>, replace: Seq<char>, use_regex: bool, replace_all: bool, content: Seq<char>)
    -> Result<Seq<char>, ToolErrorView>
{
    if use_regex {
        match regex_compile_error(find) {
            Some(m) => Err(ToolErrorView::InvalidParameters("Invalid regex: "@ + m)),
            None => Ok(if replace_all {
                regex_replace_all_text(find, content, replace)
            } else {
                regex_replace_first_text(find, content, replace)
            }),
        }
    } else {
        Ok(if replace_all { replace_all_spec(content, find, replace) } else { replace_first_spec(content, find, replace) })
    }
}

/// The view of an edit outcome.
pub open spec fn edit_outcome_view(r: Result<String, ToolError>) -> Result<Seq<char>, ToolErrorView> {
    match r {
        Ok(t) => Ok(t@),
        Err(e) => Err(e@),
    }
}

/// The edit for what a regex replacement gave: the new text, or an
/// invalid-parameters error "Invalid regex: <message>".
pub fn regex_edit_result(outcome: Result<String, String>) -> (r: Result<String, ToolError>)
    ensures
        outcome matches Ok(t) ==> (r matches Ok(x) && x@ == t@),
        outcome matches Err(m) ==> (r matches Err(e) && e@ == ToolErrorView::InvalidParameters("Invalid regex: "@ + m@)),
{
    match outcome {
        Ok(t) => Ok(t),
        Err(m) => Err(ToolError::InvalidParameters(concat2("Invalid regex: ", m.as_str()))),
    }
}

/// `content` with `find` replaced by `replace`, everywhere or the first time only.
pub fn replace_text(content: &str, find: &str, replace: &str, replace_all: bool) -> (t: String)
    ensures
        replace_all ==> t@ == replace_all_spec(content@, find@, replace@),
        !replace_all ==> t@ == replace_first_spec(content@, find@, replace@),
{
    let v = chars_of(content);
    let p = chars_of(find);
    let r = chars_of(replace);
    let out = if replace_all {
        replace_all_chars(v.as_slice(), p.as_slice(), r.as_slice())
    } else {
        replace_first_chars(v.as_slice(), p.as_slice(), r.as_slice())
    };
    string_from_chars(out.as_slice())
}

impl FileEditorTool {
    /// The edit request in `parameters`: `path`, `find` and `replace` are
    /// required strings; `use_regex` defaults to false, `replace_all` to true.
    pub fn edit_request(&self, parameters: &JsonValue) -> (r: Result<EditRequest, ToolError>)
        ensures
            json_field_str(parameters@, "path"@) is None ==> (r matches Err(e)
                && e@ == ToolErrorView::InvalidParameters("Missing 'path' parameter"@)),
            json_field_str(parameters@, "path"@) is Some && json_field_str(parameters@, "find"@) is None
                ==> (r matches Err(e) && e@ == ToolErrorView::InvalidParameters("Missing 'find' parameter"@)),
            json_field_str(parameters@, "path"@) is Some && json_field_str(parameters@, "find"@) is Some
                && json_field_str(parameters@, "replace"@) is None
                ==> (r matches Err(e) && e@ == ToolErrorView::InvalidParameters("Missing 'replace' parameter"@)),
            json_field_str(parameters@, "path"@) matches Some(p) ==> (json_field_str(parameters@, "find"@) matches Some(f)
                ==> (json_field_str(parameters@, "replace"@) matches Some(x) ==> (r matches Ok(q)
                    && q.path@ == p && q.find@ == f && q.replace@ == x
                    && q.use_regex == (json_field_bool(parameters@, "use_regex"@) == Some(true))
                    && q.replace_all == (json_field_bool(parameters@, "replace_all"@) != Some(false))))),
    {
        let path = match required_str(parameters, "path", "Missing 'path' parameter") {
            Ok(p) => p,
            Err(e) => return Err(e),
        };
        let find = match required_str(parameters, "find", "Missing 'find' parameter") {
            Ok(f) => f,
            Err(e) => return Err(e),
        };
        let replace = match required_str(parameters, "replace", "Missing 'replace' parameter") {
            Ok(x) => x,
            Err(e) => return Err(e),
        };
        let use_regex = match parameters.field_bool("use_regex") {
            Some(b) => b,
            None => false,
        };
        let replace_all = match parameters.field_bool("replace_all") {
            Some(b) => b,
            None => true,
        };
        Ok(EditRequest { path, find, replace, use_regex, replace_all })
    }

    /// The new file text for what the read gave: a failed read is an I/O
    /// error; otherwise the replacement, which for a regex that does not
    /// compile is an invalid-parameters error.
    pub fn edit_content(request: &EditRequest, read: Result<String, String>) -> (r: Result<String, ToolError>)
        ensures
            read matches Err(e) ==> (r matches Err(x) && x@ == ToolErrorView::IoError(e@)),
            read matches Ok(c) ==> edit_outcome_view(r) == edited_text(request.find@, request.replace@,
                request.use_regex, request.replace_all, c@),
    {
        let content = match read {
            Ok(c) => c,
            Err(e) => return Err(ToolError::IoError(e)),
        };
        if request.use_regex {
            let outcome = if request.replace_all {
                regex_replace_all(request.find.as_str(), content.as_str(), request.replace.as_str())
            } else {
                regex_replace_first(request.find.as_str(), content.as_str(), request.replace.as_str())
            };
            regex_edit_result(outcome)
        } else {
            Ok(replace_text(content.as_str(), request.find.as_str(), request.replace.as_str(), request.replace_all))
        }
    }

    /// The answer once the new text was written back: success names the path;
    /// a failed write is an I/O error.
    pub fn edit_result(request: &EditRequest, write: Result<(), String>) -> (r: Result<ToolResult, ToolError>)
        ensures
            write is Ok ==> (r matches Ok(t) && t@ == succeeded("Successfully edited file: "@ + request.path@)),
            write matches Err(e) ==> (r matches Err(x) && x@ == ToolErrorView::IoError(e@)),
    {
        match write {
            Ok(()) => Ok(ToolResult::succeeded(concat2("Successfully edited file: ", request.path.as_str()))),
            Err(e) => Err(ToolError::IoError(e)),
        }
    }
}

} // verus!
