use agent_runtime_rs::api::turn::{finish_turn_at, start_turn_at};
use agent_runtime_rs::api::types::{ApiError, RunRequest};
use agent_runtime_rs::json::JsonValue;
use agent_runtime_rs::llm::MessageRole as LlmRole;
use agent_runtime_rs::session::{MessageRole, SessionConfig, SessionManager};

fn manager(max: usize, ttl: Option<i64>) -> SessionManager {
    SessionManager::new(SessionConfig { max_history_length: max, session_ttl: ttl })
}

fn request(session: Option<&str>, message: &str) -> RunRequest {
    RunRequest { session_id: session.map(|s| s.to_string()), message: message.to_string() }
}

fn internal(e: ApiError) -> String {
    match e {
        ApiError::InternalServerError(m) => m,
        other => panic!("expected an internal error, got {:?}", other),
    }
}

#[test]
fn a_turn_refuses_an_empty_message() {
    let mut sessions = manager(10, None);
    match start_turn_at(&mut sessions, &request(None, ""), None, "fresh".to_string(), true, true, 1_000) {
        Err(ApiError::BadRequest(m)) => assert_eq!(m, "Message cannot be empty"),
        _ => panic!("expected a bad request"),
    }
    assert_eq!(sessions.session_count(), 0);
}

#[test]
fn a_turn_refuses_an_uninitialized_runtime() {
    let mut sessions = manager(10, None);
    let e = start_turn_at(&mut sessions, &request(None, "hi"), None, "fresh".to_string(), false, true, 1_000).unwrap_err();
    assert_eq!(internal(e), "AgentRuntime not initialized");
    assert_eq!(sessions.session_count(), 0);
}

#[test]
fn a_turn_refuses_without_a_model() {
    let mut sessions = manager(10, None);
    let e = start_turn_at(&mut sessions, &request(Some("s"), "hi"), None, "fresh".to_string(), true, false, 1_000).unwrap_err();
    assert_eq!(internal(e), "LLM connector not available");
    assert_eq!(sessions.session_count(), 0);
}

#[test]
fn a_turn_opens_a_fresh_session() {
    let mut sessions = manager(10, None);
    let (id, shown) = start_turn_at(&mut sessions, &request(None, "hi"), None, "fresh".to_string(), true, true, 1_000).unwrap();
    assert_eq!(id, "fresh");
    assert_eq!(shown.len(), 1);
    assert_eq!(shown[0].role, LlmRole::User);
    assert_eq!(shown[0].content, "hi");
    assert!(shown[0].tool_calls.is_none());
    let session = sessions.get_session_at("fresh", 1_000).unwrap();
    assert_eq!(session.messages.len(), 1);
    assert_eq!(session.created_at, 1_000);
}

#[test]
fn turns_keep_the_conversation() {
    let mut sessions = manager(10, None);
    let (id, _) = start_turn_at(&mut sessions, &request(Some("chat"), "first"), None, "unused".to_string(), true, true, 1_000).unwrap();
    let response = finish_turn_at(&mut sessions, id, "one".to_string(), Vec::new(), 2_000).unwrap();
    assert_eq!(response.response, "one");
    assert_eq!(response.session_id, "chat");
    assert!(response.tool_calls.is_empty());
    assert!(response.skill_used.is_none());
    let (id, shown) = start_turn_at(&mut sessions, &request(Some("chat"), "second"), None, "unused".to_string(), true, true, 3_000).unwrap();
    assert_eq!(shown.len(), 3);
    assert_eq!(shown[1].role, LlmRole::Assistant);
    assert_eq!(shown[1].content, "one");
    let records = vec![JsonValue::Str("record".to_string())];
    let response = finish_turn_at(&mut sessions, id, "two".to_string(), records, 4_000).unwrap();
    assert_eq!(response.tool_calls.len(), 1);
    let history = sessions.get_history_at("chat", 4_000).unwrap();
    let contents: Vec<&str> = history.iter().map(|m| m.content.as_str()).collect();
    assert_eq!(contents, vec!["first", "one", "second", "two"]);
    assert_eq!(history[2].role, MessageRole::User);
    assert_eq!(history[3].role, MessageRole::Assistant);
}

#[test]
fn turns_keep_the_newest_messages() {
    let mut sessions = manager(3, None);
    for (i, word) in ["a", "b"].iter().enumerate() {
        let t = 1_000 * (i as i64 + 1);
        let (id, _) = start_turn_at(&mut sessions, &request(Some("s"), word), None, "x".to_string(), true, true, t).unwrap();
        finish_turn_at(&mut sessions, id, format!("re-{}", word), Vec::new(), t).unwrap();
    }
    let history = sessions.get_history_at("s", 2_000).unwrap();
    let contents: Vec<&str> = history.iter().map(|m| m.content.as_str()).collect();
    assert_eq!(contents, vec!["re-a", "b", "re-b"]);
}

#[test]
fn an_expired_session_is_replaced_by_a_fresh_one() {
    let mut sessions = manager(10, Some(60));
    let (id, _) = start_turn_at(&mut sessions, &request(Some("s"), "old"), None, "x".to_string(), true, true, 0).unwrap();
    finish_turn_at(&mut sessions, id, "old answer".to_string(), Vec::new(), 0).unwrap();
    let (_, shown) = start_turn_at(&mut sessions, &request(Some("s"), "new"), None, "x".to_string(), true, true, 61_000).unwrap();
    assert_eq!(shown.len(), 1);
    assert_eq!(shown[0].content, "new");
}

#[test]
fn a_negative_time_to_live_loses_the_message() {
    let mut sessions = manager(10, Some(-1));
    let e = start_turn_at(&mut sessions, &request(Some("s"), "hi"), None, "x".to_string(), true, true, 5_000).unwrap_err();
    assert_eq!(internal(e), "Failed to add message: Session expired: s");
    assert_eq!(sessions.session_count(), 0);
}

#[test]
fn finishing_a_missing_session_fails() {
    let mut sessions = manager(10, None);
    let e = finish_turn_at(&mut sessions, "nope".to_string(), "answer".to_string(), Vec::new(), 1_000).unwrap_err();
    assert_eq!(internal(e), "Failed to add assistant message: Session not found: nope");
}

#[test]
fn finishing_an_expired_session_fails_and_drops_it() {
    let mut sessions = manager(10, Some(1));
    let (id, _) = start_turn_at(&mut sessions, &request(Some("s"), "hi"), None, "x".to_string(), true, true, 0).unwrap();
    let e = finish_turn_at(&mut sessions, id, "late".to_string(), Vec::new(), 5_000).unwrap_err();
    assert_eq!(internal(e), "Failed to add assistant message: Session expired: s");
    assert_eq!(sessions.session_count(), 0);
}
