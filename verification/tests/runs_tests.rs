use agent_runtime_rs::api::types::{ApiError, RunRequest};
use agent_runtime_rs::json::JsonValue;
use agent_runtime_rs::llm::connector::check_api_key;
use agent_runtime_rs::llm::LLMError;
use agent_runtime_rs::mcp::stdio_client::MCPStdioClient;
use agent_runtime_rs::mcp::types::{MCPError, MCPTool};
use agent_runtime_rs::runtime::agent::AgentRuntime;
use agent_runtime_rs::skills::types::SkillMetadata;
use agent_runtime_rs::skills::{Skill, SkillReferenceTool};
use agent_runtime_rs::tools::builtin::calculator::CalculatorTool;
use agent_runtime_rs::tools::builtin::get_current_time::DatetimeTool;

fn expression(e: &str) -> JsonValue {
    JsonValue::Object(vec![("expression".to_string(), JsonValue::Str(e.to_string()))])
}

#[test]
fn test_calculator_basic_arithmetic() {
    let tool = CalculatorTool::new();
    let result = tool.execute(&expression("2 + 2")).unwrap();
    assert!(result.success);
    assert_eq!(result.output, "4");
}

#[test]
fn test_calculator_complex_expression() {
    let tool = CalculatorTool::new();
    let result = tool.execute(&expression("(1 + 2) * 3")).unwrap();
    assert!(result.success);
    assert_eq!(result.output, "9");
}

#[test]
fn test_calculator_invalid_expression() {
    let tool = CalculatorTool::new();
    let result = tool.execute(&expression("2 + + +")).unwrap();
    assert!(!result.success);
    assert!(result.error.is_some());
}

#[test]
fn test_calculator_missing_parameter() {
    let tool = CalculatorTool::new();
    let result = tool.execute(&JsonValue::Object(Vec::new()));
    assert!(result.is_err());
}

#[test]
fn test_datetime_tool() {
    let tool = DatetimeTool::new();
    let result = tool.execute(&JsonValue::Object(Vec::new())).unwrap();
    assert!(result.success);
    assert!(!result.output.is_empty());
    assert!(result.output.contains("T"));
    assert!(result.output.contains("Z") || result.output.contains("+"));
}

#[test]
fn test_skill_reference_tool_execute() {
    let skill = Skill {
        slug: "test-skill".to_string(),
        metadata: JsonValue::Object(vec![("name".to_string(), JsonValue::Str("test".to_string()))]),
        skill_metadata: SkillMetadata {
            name: "Test Skill".to_string(),
            description: "A test skill".to_string(),
            metadata: None,
        },
        content: "# Test Content".to_string(),
        full_content: "---\nname: Test Skill\n---\n\n# Test Content".to_string(),
    };
    let tool = SkillReferenceTool::new(&skill);
    let result = tool.execute(&JsonValue::Object(Vec::new()));
    assert!(result.is_ok());
    let tool_result = result.unwrap();
    assert!(tool_result.success);
    assert_eq!(tool_result.output, "# Test Content");
    assert!(tool_result.error.is_none());
}

#[test]
fn test_llm_connector_creation() {
    assert!(check_api_key("test-api-key").is_ok());
}

#[test]
fn test_llm_connector_creation_with_empty_api_key() {
    match check_api_key("") {
        Err(LLMError::ConfigError(msg)) => assert_eq!(msg, "API key is required"),
        _ => panic!("Expected ConfigError"),
    }
}

#[test]
fn test_stdio_client_creation() {
    let client = MCPStdioClient::new("test-server", "echo", vec!["{}".to_string()], Vec::new());
    assert_eq!(client.server_name(), "test-server");
    assert!(!client.is_initialized());
    assert!(client.capabilities().is_none());
    assert!(client.server_info().is_none());
}

#[test]
fn test_call_tool_fails_when_not_initialized() {
    let client = MCPStdioClient::new("test-server", "echo", Vec::new(), Vec::new());
    match client.require_initialized() {
        Err(MCPError::Connection(msg)) => assert!(msg.contains("Not initialized")),
        _ => panic!("Expected Connection error"),
    }
}

#[test]
fn test_shutdown_when_not_initialized() {
    let client = MCPStdioClient::new("test-server", "echo", Vec::new(), Vec::new());
    assert!(!client.needs_shutdown());
}

#[test]
fn test_agent_runtime_creation() {
    let runtime = AgentRuntime::new();
    assert!(!runtime.is_initialized());
}

#[test]
fn a_new_runtime_holds_nothing() {
    let runtime = AgentRuntime::new();
    assert_eq!(runtime.get_tool_manager().tool_count(), 0);
    assert_eq!(runtime.get_session_manager().session_count(), 0);
    assert!(runtime.get_skill_manager().is_none());
    assert!(runtime.get_agent_config_content().is_none());
    assert!(runtime.all_tool_metadata().is_empty());
}

#[test]
fn builtin_then_server_tools_are_offered() {
    let mut runtime = AgentRuntime::new();
    runtime.register_builtin_tools();
    runtime.register_server_tool(0, MCPTool { name: "search".to_string(), description: None, input_schema: None });
    let all = runtime.all_tool_metadata();
    assert_eq!(all.len(), 9);
    assert_eq!(all[0].name, "calculator");
    assert_eq!(all[8].name, "search");
    assert_eq!(runtime.get_server_tools().find_tool("search").ok().map(|t| t.server), Some(0));
}

#[test]
fn the_summary_threshold_comes_from_the_configuration() {
    let mut runtime = AgentRuntime::new();
    runtime.load_agent_config_files(&vec![("agent-config/SOUL.md".to_string(), Some("x".repeat(40)))]);
    runtime.connect_llm();
    assert!(runtime.summary_request().is_none());
    let config = JsonValue::Object(vec![("configSummaryThreshold".to_string(), JsonValue::Number(10))]);
    runtime.set_summary_threshold(Some(&config));
    let request = runtime.summary_request().unwrap();
    assert_eq!(request.len(), 1);
    assert!(request[0].content.starts_with("Please summarize the following agent configuration"));
    assert!(request[0].content.ends_with(&"x".repeat(40)));
    runtime.apply_summary(Some("short".to_string()));
    assert_eq!(runtime.get_agent_config_content(), Some("short"));
    runtime.apply_summary(None);
    assert_eq!(runtime.get_agent_config_content(), Some("short"));
}

#[test]
fn a_zero_threshold_never_summarises() {
    let mut runtime = AgentRuntime::new();
    runtime.load_agent_config_files(&vec![("agent-config/SOUL.md".to_string(), Some("long text".to_string()))]);
    runtime.connect_llm();
    let config = JsonValue::Object(vec![("configSummaryThreshold".to_string(), JsonValue::Number(0))]);
    runtime.set_summary_threshold(Some(&config));
    assert!(runtime.summary_request().is_none());
}

#[test]
fn runs_wait_for_start_up() {
    let mut runtime = AgentRuntime::new();
    let request = RunRequest { session_id: None, message: "hi".to_string() };
    match runtime.start_run_at(&request, "fresh".to_string(), 1_000) {
        Err(ApiError::InternalServerError(m)) => assert_eq!(m, "AgentRuntime not initialized"),
        _ => panic!("expected a refusal"),
    }
    runtime.mark_initialized();
    match runtime.start_run_at(&request, "fresh".to_string(), 1_000) {
        Err(ApiError::InternalServerError(m)) => assert_eq!(m, "LLM connector not available"),
        _ => panic!("expected a refusal"),
    }
    runtime.connect_llm();
    let (id, shown) = runtime.start_run_at(&request, "fresh".to_string(), 1_000).unwrap();
    assert_eq!(id, "fresh");
    assert_eq!(shown.len(), 1);
    let response = runtime.finish_run_at(id, "hello".to_string(), Vec::new(), 2_000).unwrap();
    assert_eq!(response.response, "hello");
    assert_eq!(runtime.get_session_manager().session_count(), 1);
}
