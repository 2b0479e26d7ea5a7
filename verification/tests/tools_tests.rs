use agent_runtime_rs::json::JsonValue;
use agent_runtime_rs::tools::builtin::file_deleter::DeleteAction;
use agent_runtime_rs::tools::builtin::file_lister::EntryKind;
use agent_runtime_rs::tools::builtin::file_reader::ReadOutcome;
use agent_runtime_rs::tools::builtin::{
    register_builtin_tools, BuiltinTool, CalculatorTool, DatetimeTool, DirectoryCreatorTool, FileDeleterTool,
    FileEditorTool, FileListerTool, FileReaderTool, FileWriterTool,
};
use agent_runtime_rs::tools::manager::ToolManager;
use agent_runtime_rs::tools::types::{ParameterType, ToolError, ToolMetadata, ToolParameter, ToolResult};

fn obj(members: Vec<(&str, JsonValue)>) -> JsonValue {
    JsonValue::Object(members.into_iter().map(|(k, v)| (k.to_string(), v)).collect())
}

fn s(v: &str) -> JsonValue {
    JsonValue::Str(v.to_string())
}

fn field<'a>(v: &'a JsonValue, key: &str) -> &'a JsonValue {
    v.get(key).unwrap()
}

fn mock_metadata() -> ToolMetadata {
    ToolMetadata {
        name: "mock_tool".to_string(),
        description: "A mock tool".to_string(),
        parameters: vec![ToolParameter {
            name: "input".to_string(),
            description: "Input value".to_string(),
            required: true,
            parameter_type: ParameterType::String,
        }],
    }
}

#[test]
fn test_tool_metadata_creation() {
    let metadata = ToolMetadata {
        name: "test_tool".to_string(),
        description: "A test tool".to_string(),
        parameters: vec![
            ToolParameter {
                name: "param1".to_string(),
                description: "First parameter".to_string(),
                required: true,
                parameter_type: ParameterType::String,
            },
            ToolParameter {
                name: "param2".to_string(),
                description: "Second parameter".to_string(),
                required: false,
                parameter_type: ParameterType::Number,
            },
        ],
    };
    assert_eq!(metadata.name, "test_tool");
    assert_eq!(metadata.parameters.len(), 2);
    assert!(metadata.parameters[0].required);
    assert!(!metadata.parameters[1].required);
}

#[test]
fn test_tool_metadata_to_openai_format() {
    let metadata = ToolMetadata {
        name: "calculator".to_string(),
        description: "Perform mathematical calculations".to_string(),
        parameters: vec![ToolParameter {
            name: "expression".to_string(),
            description: "Mathematical expression to evaluate".to_string(),
            required: true,
            parameter_type: ParameterType::String,
        }],
    };
    let openai_format = metadata.to_openai_json();
    assert_eq!(field(&openai_format, "type").as_str(), Some("function"));
    assert_eq!(field(field(&openai_format, "function"), "name").as_str(), Some("calculator"));
    let params = field(field(&openai_format, "function"), "parameters");
    assert_eq!(field(params, "type").as_str(), Some("object"));
    assert!(field(params, "properties").is_object());
    assert!(matches!(field(params, "required"), JsonValue::Array(_)));
}

#[test]
fn test_tool_result_success() {
    let result = ToolResult { success: true, output: "42".to_string(), error: None };
    assert!(result.success);
    assert_eq!(result.output, "42");
    assert!(result.error.is_none());
}

#[test]
fn test_tool_result_error() {
    let result = ToolResult { success: false, output: String::new(), error: Some("Division by zero".to_string()) };
    assert!(!result.success);
    assert_eq!(result.error.unwrap(), "Division by zero");
}

#[test]
fn test_get_tool_definitions() {
    let mut manager: ToolManager<u8> = ToolManager::new();
    manager.register_tool(mock_metadata(), 0);
    let definitions = manager.get_tool_definitions();
    assert_eq!(definitions.len(), 1);
    assert_eq!(field(field(&definitions[0], "function"), "name").as_str(), Some("mock_tool"));
}

#[test]
fn test_get_tool_metadata() {
    let mut manager: ToolManager<u8> = ToolManager::new();
    manager.register_tool(mock_metadata(), 0);
    let metadata = manager.get_tool_metadata("mock_tool");
    assert!(metadata.is_some());
    assert_eq!(metadata.unwrap().name, "mock_tool");
    let nonexistent = manager.get_tool_metadata("nonexistent");
    assert!(nonexistent.is_none());
}

#[test]
fn test_register_all_builtin_tools() {
    let mut manager: ToolManager<BuiltinTool> = ToolManager::new();
    register_builtin_tools(&mut manager);
    let tool_names = manager.get_tool_names();
    assert_eq!(tool_names.len(), 8);
    for name in [
        "calculator",
        "file_reader",
        "file_writer",
        "file_editor",
        "file_lister",
        "file_deleter",
        "directory_creator",
        "get_current_time",
    ] {
        assert!(tool_names.contains(&name.to_string()));
    }
}

#[test]
fn registered_tool_is_found_and_unknown_is_not() {
    let mut manager: ToolManager<u8> = ToolManager::new();
    manager.register_tool(mock_metadata(), 7);
    assert!(manager.has_tool("mock_tool"));
    assert_eq!(manager.get_tool_names(), vec!["mock_tool".to_string()]);
    assert_eq!(*manager.find_tool("mock_tool").unwrap(), 7);
    match manager.find_tool("nonexistent") {
        Err(ToolError::NotFound(name)) => assert_eq!(name, "nonexistent"),
        _ => panic!("expected NotFound"),
    }
}

#[test]
fn registering_again_replaces() {
    let mut manager: ToolManager<u8> = ToolManager::new();
    manager.register_tool(mock_metadata(), 1);
    manager.register_tool(mock_metadata(), 2);
    assert_eq!(manager.tool_count(), 1);
    assert_eq!(*manager.find_tool("mock_tool").unwrap(), 2);
}

#[test]
fn calculator_evaluates_and_reports_errors() {
    let tool = CalculatorTool::new();
    assert_eq!(tool.metadata().name, "calculator");
    let ok = tool.execute(&obj(vec![("expression", s("2 + 2"))])).unwrap();
    assert!(ok.success);
    assert_eq!(ok.output, "4");
    let complex = tool.execute(&obj(vec![("expression", s("(1 + 2) * 3"))])).unwrap();
    assert_eq!(complex.output, "9");
    let bad = tool.execute(&obj(vec![("expression", s("2 +"))])).unwrap();
    assert!(!bad.success);
    assert!(bad.error.unwrap().starts_with("Failed to evaluate expression: "));
    match tool.execute(&obj(vec![])) {
        Err(ToolError::InvalidParameters(m)) => assert_eq!(m, "Missing 'expression' parameter"),
        _ => panic!("expected invalid parameters"),
    }
}

#[test]
fn file_reader_rules() {
    let tool = FileReaderTool::new();
    assert_eq!(tool.read_request(&obj(vec![("path", s("a.txt"))])).unwrap(), "a.txt");
    assert!(tool.read_request(&obj(vec![])).is_err());
    let dir = FileReaderTool::read_result(ReadOutcome::Directory);
    assert!(!dir.success);
    assert!(dir.error.unwrap().contains("directory"));
    let ok = FileReaderTool::read_result(ReadOutcome::Content("Hello, World!\n".to_string()));
    assert!(ok.success && ok.output.contains("Hello, World!"));
    let failed = FileReaderTool::read_result(ReadOutcome::Failed("No such file".to_string()));
    assert_eq!(failed.error.unwrap(), "Failed to read file: No such file");
}

#[test]
fn file_writer_rules() {
    let tool = FileWriterTool::new();
    let req = tool.write_request(&obj(vec![("path", s("out.txt")), ("content", s("Hello, World!"))])).unwrap();
    assert!(!req.append);
    let append = tool
        .write_request(&obj(vec![("path", s("out.txt")), ("content", s(", World!")), ("mode", s("append"))]))
        .unwrap();
    assert!(append.append);
    assert!(tool.write_request(&obj(vec![("path", s("test.txt"))])).is_err());
    assert!(tool.write_request(&obj(vec![("content", s("test"))])).is_err());
    let done = FileWriterTool::write_result(&req, Ok(())).unwrap();
    assert_eq!(done.output, "Successfully wrote 13 bytes to out.txt");
    let wide = tool.write_request(&obj(vec![("path", s("u.txt")), ("content", s("héllo"))])).unwrap();
    assert_eq!(FileWriterTool::write_result(&wide, Ok(())).unwrap().output, "Successfully wrote 6 bytes to u.txt");
    match FileWriterTool::write_result(&req, Err("denied".to_string())) {
        Err(ToolError::IoError(m)) => assert_eq!(m, "denied"),
        _ => panic!("expected an I/O error"),
    }
}

#[test]
fn file_editor_plain_and_regex() {
    let tool = FileEditorTool::new();
    let all = tool.edit_request(&obj(vec![("path", s("f")), ("find", s("Hello")), ("replace", s("Hi"))])).unwrap();
    assert!(all.replace_all && !all.use_regex);
    let edited = FileEditorTool::edit_content(&all, Ok("Hello World\nHello Universe".to_string())).unwrap();
    assert_eq!(edited, "Hi World\nHi Universe");
    let first = tool
        .edit_request(&obj(vec![
            ("path", s("f")),
            ("find", s("Hello")),
            ("replace", s("Hi")),
            ("replace_all", JsonValue::Bool(false)),
        ]))
        .unwrap();
    let edited = FileEditorTool::edit_content(&first, Ok("Hello World\nHello Universe".to_string())).unwrap();
    assert_eq!(edited, "Hi World\nHello Universe");
    let regex = tool
        .edit_request(&obj(vec![
            ("path", s("f")),
            ("find", s("\\d+")),
            ("replace", s("NUM")),
            ("use_regex", JsonValue::Bool(true)),
        ]))
        .unwrap();
    let edited = FileEditorTool::edit_content(&regex, Ok("test123\nabc456\ndef789".to_string())).unwrap();
    assert_eq!(edited, "testNUM\nabcNUM\ndefNUM");
    let invalid = tool
        .edit_request(&obj(vec![
            ("path", s("f")),
            ("find", s("[invalid")),
            ("replace", s("test")),
            ("use_regex", JsonValue::Bool(true)),
        ]))
        .unwrap();
    match FileEditorTool::edit_content(&invalid, Ok("test content".to_string())) {
        Err(ToolError::InvalidParameters(m)) => assert!(m.starts_with("Invalid regex: ")),
        _ => panic!("expected an invalid regex"),
    }
    match FileEditorTool::edit_content(&all, Err("not found".to_string())) {
        Err(ToolError::IoError(m)) => assert_eq!(m, "not found"),
        _ => panic!("expected an I/O error"),
    }
    let done = FileEditorTool::edit_result(&all, Ok(())).unwrap();
    assert_eq!(done.output, "Successfully edited file: f");
}

#[test]
fn empty_pattern_is_inserted_everywhere() {
    let tool = FileEditorTool::new();
    let req = tool.edit_request(&obj(vec![("path", s("f")), ("find", s("")), ("replace", s("-"))])).unwrap();
    assert_eq!(FileEditorTool::edit_content(&req, Ok("abc".to_string())).unwrap(), "-a-b-c-");
}

#[test]
fn file_lister_rules() {
    let tool = FileListerTool::new();
    let req = tool.list_request(&obj(vec![("path", s("dir"))])).unwrap();
    assert!(!req.recursive && !req.show_hidden);
    assert_eq!(FileListerTool::precheck(&req, false, false).unwrap().error.unwrap(), "Path does not exist: dir");
    assert_eq!(FileListerTool::precheck(&req, true, false).unwrap().error.unwrap(), "Path is not a directory: dir");
    assert!(FileListerTool::precheck(&req, true, true).is_none());
    assert!(!FileListerTool::entry_shown(&req, ".git"));
    assert!(FileListerTool::entry_shown(&req, "src"));
    assert!(!FileListerTool::descends(&req, EntryKind::Directory));
    let entry = FileListerTool::entry_json("a.txt", EntryKind::File, "dir/a.txt");
    assert_eq!(field(&entry, "type").as_str(), Some("file"));
    assert_eq!(field(&entry, "path").as_str(), Some("dir/a.txt"));
}

#[test]
fn file_deleter_rules() {
    let tool = FileDeleterTool::new();
    let req = tool.delete_request(&obj(vec![("path", s("x"))])).unwrap();
    assert!(!req.recursive);
    assert_eq!(FileDeleterTool::delete_plan(&req, false, false).unwrap_err().error.unwrap(), "Path does not exist: x");
    assert_eq!(FileDeleterTool::delete_plan(&req, true, true).unwrap(), DeleteAction::RemoveDir);
    assert_eq!(FileDeleterTool::delete_plan(&req, true, false).unwrap(), DeleteAction::RemoveFile);
    assert_eq!(FileDeleterTool::delete_result(&req, Ok(())).output, "Successfully deleted: x");
    assert_eq!(FileDeleterTool::delete_result(&req, Err("busy".to_string())).error.unwrap(), "Failed to delete: busy");
}

#[test]
fn directory_creator_rules() {
    let tool = DirectoryCreatorTool::new();
    let req = tool.create_request(&obj(vec![("path", s("a/b"))])).unwrap();
    assert!(req.recursive);
    assert!(tool.create_request(&obj(vec![])).is_err());
    assert_eq!(DirectoryCreatorTool::create_result(&req, Ok(())).output, "Successfully created directory: a/b");
}

#[test]
fn datetime_tool_answers_rfc3339() {
    let tool = DatetimeTool::new();
    let result = tool.execute(&obj(vec![])).unwrap();
    assert!(result.success);
    assert!(result.output.contains("T"));
    assert!(result.output.contains("Z") || result.output.contains("+"));
}

fn echo_input(parameters: &JsonValue) -> ToolResult {
    ToolResult::succeeded(parameters.field_str("input").unwrap_or_default())
}

#[test]
fn test_register_and_execute_tool() {
    let mut manager: ToolManager<fn(&JsonValue) -> ToolResult> = ToolManager::new();
    manager.register_tool(mock_metadata(), echo_input);
    assert!(manager.has_tool("mock_tool"));
    assert_eq!(manager.get_tool_names(), vec!["mock_tool"]);
    let tool = manager.find_tool("mock_tool");
    assert!(tool.is_ok());
    let tool_result = (tool.unwrap())(&obj(vec![("input", s("test_value"))]));
    assert!(tool_result.success);
    assert_eq!(tool_result.output, "test_value");
}

#[test]
fn test_execute_nonexistent_tool() {
    let manager: ToolManager<fn(&JsonValue) -> ToolResult> = ToolManager::new();
    match manager.find_tool("nonexistent") {
        Err(ToolError::NotFound(name)) => assert_eq!(name, "nonexistent"),
        _ => panic!("Expected NotFound error"),
    }
}
