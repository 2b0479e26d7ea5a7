use agent_runtime_rs::config::types::{MCPServerConfigNew, MCPServerConfigOld, MCPServers, ToolsConfig};
use agent_runtime_rs::json::JsonValue;
use agent_runtime_rs::mcp::client::methods;
use agent_runtime_rs::mcp::stdio_client::{answer_for, find_tool, initialize_request_params, tool_call_outcome, tool_call_request_params};
use agent_runtime_rs::mcp::types::response_outcome;
use agent_runtime_rs::mcp::{
    create_error_response, create_notification, create_request, create_stdio_clients, create_success_response,
    default_client_capabilities, default_client_info, load_mcp_servers_from_config, validate_mcp_config,
    validate_tool_call, MCPContent, MCPError, MCPServerTransport, MCPStdioClient, MCPTool, MCPToolResult, RequestId,
    ResponsePayload,
};

fn obj(members: Vec<(&str, JsonValue)>) -> JsonValue {
    JsonValue::Object(members.into_iter().map(|(k, v)| (k.to_string(), v)).collect())
}

fn tool(name: &str) -> MCPTool {
    MCPTool {
        name: name.to_string(),
        description: None,
        input_schema: Some(obj(vec![("type", JsonValue::Str("object".to_string()))])),
    }
}

fn config_new_format() -> ToolsConfig {
    ToolsConfig {
        mcp_servers: MCPServers::New(vec![(
            "test-server".to_string(),
            MCPServerConfigNew {
                command: "node".to_string(),
                args: vec!["server.js".to_string()],
                env: None,
                disabled: None,
                description: None,
            },
        )]),
        builtin_tools: vec![],
        auto_execute_tools: None,
        mcp_tool_definitions: None,
    }
}

#[test]
fn test_validate_tool_call_valid() {
    let args = obj(vec![("param1", JsonValue::Str("value1".to_string()))]);
    assert!(validate_tool_call(&tool("test_tool"), &args).is_ok());
}

#[test]
fn test_validate_tool_call_invalid_not_object() {
    let result = validate_tool_call(&tool("test_tool"), &JsonValue::Str("not an object".to_string()));
    match result {
        Err(MCPError::InvalidMessage(msg)) => assert!(msg.contains("must be a JSON object")),
        _ => panic!("Expected InvalidMessage error"),
    }
}

#[test]
fn test_validate_tool_call_invalid_array() {
    let args = JsonValue::Array(vec![JsonValue::Number(1), JsonValue::Number(2), JsonValue::Number(3)]);
    assert!(validate_tool_call(&tool("test_tool"), &args).is_err());
}

#[test]
fn test_default_client_info() {
    let info = default_client_info();
    assert_eq!(info.name, "agent-runtime-rs");
    assert!(!info.version.is_empty());
}

#[test]
fn test_default_client_capabilities() {
    let caps = default_client_capabilities();
    assert!(caps.is_object());
    assert!(caps.get("tools").is_some());
    assert!(caps.get("resources").is_some());
    assert!(caps.get("prompts").is_some());
}

#[test]
fn test_methods_constants() {
    assert_eq!(methods::INITIALIZE, "initialize");
    assert_eq!(methods::TOOLS_LIST, "tools/list");
    assert_eq!(methods::TOOLS_CALL, "tools/call");
    assert_eq!(methods::SHUTDOWN, "shutdown");
}

#[test]
fn test_mcp_content_text() {
    let content = MCPContent::text("Hello, world!");
    assert_eq!(content.content_type, "text");
    assert_eq!(content.text, Some("Hello, world!".to_string()));
}

#[test]
fn test_mcp_content_image() {
    let content = MCPContent::image("base64data", "image/png");
    assert_eq!(content.content_type, "image");
    assert_eq!(content.data, Some("base64data".to_string()));
    assert_eq!(content.mime_type, Some("image/png".to_string()));
}

#[test]
fn test_request_id_from_uuid() {
    let uuid = uuid::Uuid::new_v4();
    let id = RequestId::from_uuid_text(uuid.to_string());
    match id {
        RequestId::String(s) => assert_eq!(s, uuid.to_string()),
        _ => panic!("Expected String variant"),
    }
}

#[test]
fn test_create_request() {
    let id = RequestId::String("test-id".to_string());
    let params = obj(vec![("key", JsonValue::Str("value".to_string()))]);
    let request = create_request(id, "test_method", Some(params));
    assert_eq!(request.jsonrpc, "2.0");
    assert_eq!(request.method, "test_method");
    assert!(request.params.is_some());
}

#[test]
fn test_create_notification() {
    let params = obj(vec![("key", JsonValue::Str("value".to_string()))]);
    let notification = create_notification("test_notification", Some(params));
    assert_eq!(notification.jsonrpc, "2.0");
    assert_eq!(notification.method, "test_notification");
}

#[test]
fn test_create_success_response() {
    let result = obj(vec![("success", JsonValue::Bool(true))]);
    let response = create_success_response(RequestId::Number(1), result);
    assert_eq!(response.jsonrpc, "2.0");
    match response.payload {
        ResponsePayload::Result { result } => assert!(matches!(result.get("success"), Some(JsonValue::Bool(true)))),
        _ => panic!("Expected Result payload"),
    }
}

#[test]
fn test_create_error_response() {
    let response = create_error_response(RequestId::String("error-id".to_string()), -32600, "Invalid Request", None);
    assert_eq!(response.jsonrpc, "2.0");
    match response.payload {
        ResponsePayload::Error { error } => {
            assert_eq!(error.code, -32600);
            assert_eq!(error.message, "Invalid Request");
        }
        _ => panic!("Expected Error payload"),
    }
}

#[test]
fn test_mcp_tool_creation() {
    let t = MCPTool {
        name: "test_tool".to_string(),
        description: Some("A test tool".to_string()),
        input_schema: Some(obj(vec![("type", JsonValue::Str("object".to_string()))])),
    };
    assert_eq!(t.name, "test_tool");
    assert!(t.description.is_some());
}

#[test]
fn response_outcomes() {
    let ok = response_outcome(create_success_response(RequestId::Number(1), JsonValue::Number(5))).unwrap();
    assert!(matches!(ok, JsonValue::Number(5)));
    match response_outcome(create_error_response(RequestId::Null, -32601, "Method not found", None)) {
        Err(e) => assert_eq!(e.message(), "JSON-RPC error: -32601 - Method not found"),
        _ => panic!("expected an error"),
    }
    assert_eq!(RequestId::Number(42).key(), Some("42".to_string()));
    assert_eq!(RequestId::Null.key(), None);
}

#[test]
fn test_load_mcp_servers_from_config_new_format() {
    let servers = load_mcp_servers_from_config(&config_new_format());
    assert_eq!(servers.len(), 1);
    assert!(servers.contains("test-server"));
    let server = servers.get("test-server").unwrap();
    assert_eq!(server.name, "test-server");
    assert!(server.enabled);
    match &server.transport {
        MCPServerTransport::Stdio { command, args, .. } => {
            assert_eq!(command, "node");
            assert_eq!(args.len(), 1);
            assert_eq!(args[0], "server.js");
        }
        _ => panic!("Expected Stdio transport"),
    }
}

#[test]
fn test_load_mcp_servers_empty_config() {
    let config = ToolsConfig {
        mcp_servers: MCPServers::New(vec![]),
        builtin_tools: vec![],
        auto_execute_tools: None,
        mcp_tool_definitions: None,
    };
    assert_eq!(load_mcp_servers_from_config(&config).len(), 0);
}

#[test]
fn older_format_servers_use_http() {
    let config = ToolsConfig {
        mcp_servers: MCPServers::Old(vec![MCPServerConfigOld {
            name: "web".to_string(),
            url: "http://localhost:1".to_string(),
            description: None,
        }]),
        builtin_tools: vec![],
        auto_execute_tools: None,
        mcp_tool_definitions: None,
    };
    let servers = load_mcp_servers_from_config(&config);
    assert!(matches!(servers.get("web").unwrap().transport, MCPServerTransport::Http { .. }));
    assert_eq!(create_stdio_clients(&config).len(), 0);
}

#[test]
fn test_create_stdio_clients() {
    let clients = create_stdio_clients(&config_new_format());
    assert_eq!(clients.len(), 1);
    assert_eq!(clients[0].0, "test-server");
}

#[test]
fn disabled_servers_get_no_client() {
    let config = ToolsConfig {
        mcp_servers: MCPServers::New(vec![(
            "off".to_string(),
            MCPServerConfigNew {
                command: "node".to_string(),
                args: vec![],
                env: None,
                disabled: Some(true),
                description: None,
            },
        )]),
        builtin_tools: vec![],
        auto_execute_tools: None,
        mcp_tool_definitions: None,
    };
    assert_eq!(create_stdio_clients(&config).len(), 0);
}

#[test]
fn test_validate_mcp_config_valid() {
    let result = validate_mcp_config(&config_new_format());
    assert!(result.is_ok());
    assert_eq!(result.unwrap().len(), 0);
}

#[test]
fn test_validate_mcp_config_empty_command() {
    let config = ToolsConfig {
        mcp_servers: MCPServers::New(vec![(
            "bad-server".to_string(),
            MCPServerConfigNew { command: "".to_string(), args: vec![], env: None, disabled: None, description: None },
        )]),
        builtin_tools: vec![],
        auto_execute_tools: None,
        mcp_tool_definitions: None,
    };
    let errors = validate_mcp_config(&config).unwrap();
    assert_eq!(errors.len(), 1);
    assert!(errors[0].contains("empty command"));
}

#[test]
fn test_list_tools_fails_when_not_initialized() {
    let client = MCPStdioClient::new("test-server", "echo", vec![], vec![]);
    match client.require_initialized() {
        Err(MCPError::Connection(m)) => assert_eq!(m, "Not initialized"),
        _ => panic!("expected a connection error"),
    }
}

#[test]
fn stdio_client_handshake_states() {
    let mut client = MCPStdioClient::new("srv", "node", vec!["s.js".to_string()], vec![]);
    assert!(!client.is_initialized());
    assert!(client.begin_initialize().is_ok());
    client.mark_initialized();
    assert!(client.require_initialized().is_ok());
    match client.begin_initialize() {
        Err(MCPError::Connection(m)) => assert_eq!(m, "Already initialized"),
        _ => panic!("expected a refusal"),
    }
    assert!(client.needs_shutdown());
    client.mark_shut_down();
    assert!(!client.is_initialized());
    assert_eq!(
        client.start_failure("no such file").message(),
        "Connection error: Failed to start server 'srv': no such file"
    );
    let params = initialize_request_params();
    assert_eq!(params.get("protocolVersion").unwrap().as_str(), Some("2024-11-05"));
}

#[test]
fn tool_calls_through_the_client() {
    let tools = vec![tool("echo"), tool("sum")];
    assert_eq!(find_tool(&tools, "sum").unwrap().name, "sum");
    assert!(matches!(find_tool(&tools, "nope"), Err(MCPError::ToolNotFound(_))));
    let params = tool_call_request_params("echo", obj(vec![]));
    assert_eq!(params.get("name").unwrap().as_str(), Some("echo"));
    let flagged = MCPToolResult {
        content: vec![MCPContent::text("first"), MCPContent::image("d", "m"), MCPContent::text("second")],
        is_error: Some(true),
    };
    match tool_call_outcome(flagged) {
        Err(MCPError::ToolExecution(m)) => assert_eq!(m, "first\nsecond"),
        _ => panic!("expected a tool execution error"),
    }
    let fine = MCPToolResult { content: vec![MCPContent::text("ok")], is_error: None };
    assert!(tool_call_outcome(fine).is_ok());
}

#[test]
fn test_validate_tool_call_with_mock_tool() {
    let tool = MCPTool {
        name: "test_tool".to_string(),
        description: Some("Test".to_string()),
        input_schema: Some(obj(vec![
            ("type", JsonValue::Str("object".to_string())),
            ("properties", obj(vec![])),
        ])),
    };
    let args = obj(vec![]);
    let result = validate_tool_call(&tool, &args);
    assert!(result.is_ok());
}

#[test]
fn test_validate_tool_call_invalid_args() {
    let tool = MCPTool {
        name: "test_tool".to_string(),
        description: None,
        input_schema: Some(obj(vec![
            ("type", JsonValue::Str("object".to_string())),
            ("properties", obj(vec![])),
        ])),
    };
    let args = JsonValue::Str("invalid".to_string());
    let result = validate_tool_call(&tool, &args);
    assert!(result.is_err());
}

#[test]
fn answers_are_matched_to_their_request() {
    let mine = create_success_response(RequestId::String("abc".to_string()), JsonValue::Bool(true));
    assert!(matches!(answer_for(mine, "abc"), Some(Ok(JsonValue::Bool(true)))));
    let other = create_success_response(RequestId::String("xyz".to_string()), JsonValue::Bool(true));
    assert!(answer_for(other, "abc").is_none());
    let numbered = create_error_response(RequestId::Number(7), -32601, "Method not found", None);
    match answer_for(numbered, "7") {
        Some(Err(MCPError::JsonRpc { code, message, .. })) => {
            assert_eq!(code, -32601);
            assert_eq!(message, "Method not found");
        }
        _ => panic!("expected the error"),
    }
    let anonymous = create_success_response(RequestId::Null, JsonValue::Null);
    assert!(answer_for(anonymous, "").is_none());
}
