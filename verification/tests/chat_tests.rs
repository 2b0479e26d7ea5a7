use agent_runtime_rs::json::JsonValue;
use agent_runtime_rs::runtime::agent::summary_threshold;
use agent_runtime_rs::config::types::SkillsConfig;
use agent_runtime_rs::runtime::agent::required_base_url;
use agent_runtime_rs::runtime::RuntimeError;
use agent_runtime_rs::api::handlers::{session_list_response, tool_call_response};
use agent_runtime_rs::api::types::{ApiError, RunRequest};
use agent_runtime_rs::config::types::SessionConfig as AgentSessionConfig;
use agent_runtime_rs::llm::MessageRole as LlmRole;
use agent_runtime_rs::runtime::agent::AgentRuntime;
use agent_runtime_rs::runtime::chat::skill_note_text;
use agent_runtime_rs::skill::{Skill, SkillManager, SkillMetadata};
use agent_runtime_rs::tools::types::{ToolError, ToolResult};

fn request(session: Option<&str>, message: &str) -> RunRequest {
    RunRequest { session_id: session.map(|s| s.to_string()), message: message.to_string() }
}

fn configured() -> AgentRuntime {
    let mut runtime = AgentRuntime::new();
    runtime.load_agent_config_files(&vec![("agent-config/SOUL.md".to_string(), Some("Be kind.".to_string()))]);
    runtime
}

#[test]
fn chat_before_start_up_is_refused_and_opens_no_session() {
    let mut runtime = configured();
    match runtime.start_chat_at(&request(Some("my-session"), "Hello, agent!"), "fresh".to_string(), 1_000) {
        Err(ApiError::InternalServerError(m)) => assert_eq!(m, "AgentRuntime not initialized. Call initialize() first."),
        _ => panic!("expected a refusal"),
    }
    assert_eq!(runtime.get_session_manager().session_count(), 0);
}

#[test]
fn chat_opens_with_the_agent_configuration() {
    let mut runtime = configured();
    runtime.mark_initialized();
    runtime.connect_llm();
    let (id, ms) = runtime.start_chat_at(&request(None, "Hello"), "fresh".to_string(), 1_000).unwrap();
    assert_eq!(id, "fresh");
    assert_eq!(ms.len(), 2);
    assert_eq!(ms[0].role, LlmRole::System);
    assert_eq!(Some(ms[0].content.as_str()), runtime.get_agent_config_content());
    assert_eq!(ms[1].role, LlmRole::User);
    assert_eq!(ms[1].content, "Hello");
    let response = runtime.finish_chat_at(id, "Hi!".to_string(), 2_000).unwrap();
    assert_eq!(response.response, "Hi!");
    assert_eq!(response.finish_reason, "stop");
    assert!(response.tool_calls.is_empty());
    assert_eq!(runtime.get_session_manager_mut().get_history("fresh").unwrap().len(), 2);
}

#[test]
fn chat_adds_the_note_of_a_triggered_skill() {
    let mut runtime = configured();
    let mut manager = SkillManager::new("./skills", true);
    let mut m = SkillMetadata::default();
    m.name = "weather".to_string();
    m.triggers = vec!["rain".to_string()];
    let skill = Skill::new(m, "Check the sky.".to_string());
    assert_eq!(skill_note_text(&skill), "\n\n[Skill: weather]\nCheck the sky.\n");
    manager.store_skill(skill);
    runtime.set_skill_manager(manager);
    runtime.mark_initialized();
    runtime.connect_llm();
    let (_, ms) = runtime.start_chat_at(&request(Some("s"), "will it rain"), "x".to_string(), 1_000).unwrap();
    assert_eq!(ms.len(), 3);
    assert_eq!(ms[1].role, LlmRole::System);
    assert_eq!(ms[1].content, "\n\n[Skill: weather]\nCheck the sky.\n");
    assert_eq!(ms[2].content, "will it rain");
}

#[test]
fn chat_without_a_model_fails_after_keeping_the_message() {
    let mut runtime = configured();
    runtime.mark_initialized();
    match runtime.start_chat_at(&request(Some("s"), "hi"), "x".to_string(), 1_000) {
        Err(ApiError::InternalServerError(m)) => assert_eq!(m, "LLM connector not initialized"),
        _ => panic!("expected a refusal"),
    }
    assert_eq!(runtime.get_session_manager_mut().get_history("s").unwrap().len(), 1);
}

#[test]
fn chat_offers_tools_only_when_some_are_registered() {
    let mut runtime = AgentRuntime::new();
    assert!(runtime.chat_tools().is_none());
    runtime.register_builtin_tools();
    assert_eq!(runtime.chat_tools().unwrap().len(), 8);
}

#[test]
fn runs_open_with_the_agent_configuration() {
    let mut runtime = configured();
    runtime.mark_initialized();
    runtime.connect_llm();
    let (_, ms) = runtime.start_run_at(&request(None, "Hello"), "fresh".to_string(), 1_000).unwrap();
    assert_eq!(ms.len(), 2);
    assert_eq!(ms[0].role, LlmRole::System);
    assert_eq!(ms[1].content, "Hello");
    let response = runtime.finish_run_at("fresh".to_string(), "ok".to_string(), Vec::new(), 2_000).unwrap();
    assert_eq!(response.finish_reason, "stop");
}

#[test]
fn configured_session_limits_apply() {
    let mut runtime = AgentRuntime::new();
    runtime.configure_sessions(&AgentSessionConfig { max_history_length: 2, session_ttl: Some(60), persistence: None });
    runtime.mark_initialized();
    runtime.connect_llm();
    for (i, word) in ["a", "b", "c"].iter().enumerate() {
        let t = 1_000 + i as i64;
        let (id, _) = runtime.start_run_at(&request(Some("s"), word), "x".to_string(), t).unwrap();
        assert_eq!(id, "s");
    }
    assert_eq!(runtime.get_session_manager_mut().get_history_at("s", 1_002).unwrap().len(), 2);
    let sessions = runtime.get_session_manager_mut();
    assert!(sessions.get_session_at("s", 1_000 + 70_000).is_err());
}

#[test]
fn api_answers_have_the_documented_shape() {
    let ok = tool_call_response(Ok(ToolResult { success: true, output: "5".to_string(), error: None }));
    assert!(ok.success);
    assert_eq!(ok.output, Some("5".to_string()));
    assert_eq!(ok.error, None);
    let err = tool_call_response(Err(ToolError::NotFound("x".to_string())));
    assert!(!err.success);
    assert_eq!(err.output, None);
    assert_eq!(err.error, Some("Tool not found: x".to_string()));
    let list = session_list_response(vec!["session-1".to_string(), "session-2".to_string()]);
    assert_eq!(list.count, 2);
}

#[test]
fn start_up_needs_a_base_url() {
    assert_eq!(required_base_url(Some("https://x/v1".to_string())).unwrap(), "https://x/v1");
    match required_base_url(None) {
        Err(RuntimeError::ConfigError(m)) => assert_eq!(m, "base_url is required in LLM config"),
        _ => panic!("expected a configuration error"),
    }
}

#[test]
fn chats_keep_the_conversation_in_order() {
    let mut runtime = AgentRuntime::new();
    runtime.mark_initialized();
    runtime.connect_llm();
    let (id, _) = runtime.start_chat_at(&request(Some("c"), "one"), "x".to_string(), 1_000).unwrap();
    runtime.finish_chat_at(id, "first".to_string(), 1_500).unwrap();
    let (id, ms) = runtime.start_chat_at(&request(Some("c"), "two"), "x".to_string(), 2_000).unwrap();
    assert_eq!(ms.len(), 3);
    runtime.finish_chat_at(id, "second".to_string(), 2_500).unwrap();
    let h = runtime.get_session_manager_mut().get_history_at("c", 3_000).unwrap();
    let texts: Vec<&str> = h.iter().map(|m| m.content.as_str()).collect();
    assert_eq!(texts, vec!["one", "first", "two", "second"]);
    match runtime.finish_chat_at("gone".to_string(), "x".to_string(), 3_000) {
        Err(ApiError::InternalServerError(m)) => assert_eq!(m, "Session not found: gone"),
        _ => panic!("expected a session error"),
    }
}

#[test]
fn large_unsigned_thresholds_are_read() {
    let config = |v: JsonValue| JsonValue::Object(vec![("configSummaryThreshold".to_string(), v)]);
    assert_eq!(summary_threshold(&config(JsonValue::Number(800))), Some(800));
    assert_eq!(summary_threshold(&config(JsonValue::Number(-1))), None);
    assert_eq!(summary_threshold(&config(JsonValue::Decimal("18446744073709551615".to_string()))), Some(u64::MAX));
    assert_eq!(summary_threshold(&config(JsonValue::Decimal("18446744073709551616".to_string()))), None);
    assert_eq!(summary_threshold(&config(JsonValue::Decimal("1000.0".to_string()))), None);
}

#[test]
fn skills_settings_default_to_the_skills_folder() {
    let none = SkillsConfig { skills_folder: None, auto_load_skills: None, lazy_load_references: None, lazy_load_scripts: None, builtin_skills: None };
    let m = SkillManager::from_config(&none);
    assert_eq!(m.skills_folder(), "./skills");
    assert!(m.auto_load());
    let set = SkillsConfig { skills_folder: Some("./mine".to_string()), auto_load_skills: Some(false), lazy_load_references: None, lazy_load_scripts: None, builtin_skills: None };
    let m = SkillManager::from_config(&set);
    assert_eq!(m.skills_folder(), "./mine");
    assert!(!m.auto_load());
}

#[test]
fn histories_stay_within_the_limit_over_many_messages() {
    let mut runtime = AgentRuntime::new();
    runtime.configure_sessions(&AgentSessionConfig { max_history_length: 3, session_ttl: None, persistence: None });
    runtime.mark_initialized();
    runtime.connect_llm();
    for i in 0..10i64 {
        let (id, _) = runtime.start_chat_at(&request(Some("s"), "q"), "x".to_string(), 1_000 + i).unwrap();
        runtime.finish_chat_at(id, "a".to_string(), 1_000 + i).unwrap();
        assert!(runtime.get_session_manager_mut().get_history_at("s", 1_000 + i).unwrap().len() <= 3);
    }
}
