use agent_runtime_rs::api::handlers::{check_run_request, check_session_id, health_status, history_for_llm, run_reply_text, session_list_response, tool_call_record, tool_call_response};
use agent_runtime_rs::api::routes::{api_routes, health_routes, run_routes, session_routes, skill_routes, tool_routes, Handler, HttpMethod};
use agent_runtime_rs::api::skill_handlers::{check_skill_name, list_skills_json, skill_details};
use agent_runtime_rs::api::types::{ApiError, RunRequest};
use agent_runtime_rs::llm::{ChatMessage, MessageRole as LlmRole};
use agent_runtime_rs::session::{Message, MessageRole};
use agent_runtime_rs::skill::{Skill, SkillManager, SkillMetadata};
use agent_runtime_rs::tools::types::{ToolError, ToolResult};

#[test]
fn test_api_error_status_codes() {
    assert_eq!(ApiError::BadRequest("test".to_string()).status_code(), 400);
    assert_eq!(ApiError::NotFound("test".to_string()).status_code(), 404);
    assert_eq!(ApiError::InternalServerError("test".to_string()).status_code(), 500);
}

#[test]
fn test_api_module_structure() {
    let routes = api_routes();
    assert_eq!(routes.len(), 6);
    assert_eq!(routes[0].handler, Handler::Run);
    assert_eq!(routes[5].handler, Handler::Health);
}

#[test]
fn test_create_router_with_middleware() {
    let err = ApiError::NotFound("x".to_string()).error_response();
    assert_eq!(err.error, "Not found: x");
    assert_eq!(err.code, 404);
    assert!(err.details.is_none());
}

#[test]
fn test_run_routes() {
    let routes = run_routes();
    assert_eq!(routes.len(), 1);
    assert_eq!(routes[0].method, HttpMethod::Post);
    assert_eq!(routes[0].path, "/api/run");
}

#[test]
fn test_tool_routes() {
    let routes = tool_routes();
    assert_eq!(routes[0].path, "/api/tool-call");
    assert_eq!(routes[0].handler, Handler::ToolCall);
}

#[test]
fn test_session_routes() {
    let routes = session_routes();
    assert_eq!(routes.len(), 3);
    assert_eq!(routes[1].path, "/api/sessions/:session_id");
    assert_eq!(routes[2].method, HttpMethod::Delete);
}

#[test]
fn test_health_routes() {
    let routes = health_routes();
    assert_eq!(routes[0].method, HttpMethod::Get);
    assert_eq!(routes[0].path, "/api/health");
}

#[test]
fn test_skill_handlers_compile() {
    let routes = skill_routes();
    assert_eq!(routes.len(), 3);
    assert_eq!(check_skill_name("").unwrap_err().message(), "Bad request: Skill name cannot be empty");
}

#[test]
fn run_requests_are_checked() {
    let empty = RunRequest { session_id: None, message: String::new() };
    assert_eq!(check_run_request(&empty, true).unwrap_err().message(), "Bad request: Message cannot be empty");
    let ok = RunRequest { session_id: Some("s".to_string()), message: "hi".to_string() };
    assert_eq!(
        check_run_request(&ok, false).unwrap_err().message(),
        "Internal server error: AgentRuntime not initialized"
    );
    assert!(check_run_request(&ok, true).is_ok());
    assert!(check_session_id("").is_err());
}

#[test]
fn run_answers() {
    let history = vec![Message::new(MessageRole::User, "hi".to_string())];
    let chat = history_for_llm(&history);
    assert_eq!(chat[0].role, LlmRole::User);
    assert_eq!(chat[0].content, "hi");
    assert_eq!(run_reply_text(None, "[]"), "No response from LLM");
    let reply = ChatMessage::new(LlmRole::Assistant, "4".to_string());
    assert_eq!(run_reply_text(Some(&reply), "[]"), "4");
    let ok = tool_call_record("c1", "calculator", Ok(ToolResult { success: true, output: "4".to_string(), error: None }));
    assert_eq!(ok.get("result").unwrap().as_str(), Some("4"));
    let err = tool_call_record("c1", "x", Err(ToolError::NotFound("x".to_string())));
    assert_eq!(err.get("error").unwrap().as_str(), Some("Tool not found: x"));
    let response = tool_call_response(Err(ToolError::InvalidParameters("p".to_string())));
    assert!(!response.success);
    assert_eq!(response.error, Some("Invalid parameters: p".to_string()));
    let list = session_list_response(vec!["a".to_string(), "b".to_string()]);
    assert_eq!(list.count, 2);
    let health = health_status("2024-01-01T00:00:00+00:00".to_string());
    assert_eq!(health.get("status").unwrap().as_str(), Some("healthy"));
}

#[test]
fn skill_endpoints() {
    let mut manager = SkillManager::new("./skills", true);
    let mut m = SkillMetadata::default();
    m.name = "greet".to_string();
    manager.store_skill(Skill::new(m, "Say hi".to_string()));
    let list = list_skills_json(&manager);
    assert!(matches!(list.get("count"), Some(agent_runtime_rs::json::JsonValue::Number(1))));
    let details = skill_details(&manager, "greet").unwrap();
    assert_eq!(details.get("content").unwrap().as_str(), Some("Say hi"));
    assert_eq!(skill_details(&manager, "nope").unwrap_err().message(), "Not found: Skill 'nope' not found");
}

#[test]
fn test_health_handler() {
    let body = health_status(chrono::Utc::now().to_rfc3339());
    assert!(body.get("status").is_some());
    assert_eq!(body.get("status").unwrap().as_str(), Some("healthy"));
}
