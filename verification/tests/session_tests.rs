use agent_runtime_rs::config::types::SessionPersistenceConfig;
use agent_runtime_rs::session::manager::SessionError;
use agent_runtime_rs::session::persistence::{SessionPersistenceManager, last_nonempty_line, session_file_content, session_id_from_file_name};
use agent_runtime_rs::session::{InMemorySessionStore, Message, MessageRole, Session, SessionConfig, SessionManager, ToolCall, ToolCallFunction};

fn create_test_config() -> SessionConfig {
    SessionConfig { max_history_length: 100, session_ttl: None }
}

#[test]
fn test_create_session() {
    let mut manager = SessionManager::new(create_test_config());
    let session = manager.create_session().unwrap();
    assert!(!session.id.is_empty());
    assert_eq!(session.messages.len(), 0);
}

#[test]
fn test_get_session() {
    let mut manager = SessionManager::new(create_test_config());
    let session = manager.create_session().unwrap();
    let retrieved = manager.get_session(&session.id).unwrap();
    assert_eq!(retrieved.id, session.id);
}

#[test]
fn test_add_message() {
    let mut manager = SessionManager::new(create_test_config());
    let session = manager.create_session().unwrap();
    let message = Message::new(MessageRole::User, "Hello".to_string());
    manager.add_message(&session.id, message).unwrap();
    let history = manager.get_history(&session.id).unwrap();
    assert_eq!(history.len(), 1);
    assert_eq!(history[0].content, "Hello");
}

#[test]
fn test_get_history() {
    let mut manager = SessionManager::new(create_test_config());
    let session = manager.create_session().unwrap();
    let msg1 = Message::new(MessageRole::User, "Message 1".to_string());
    let msg2 = Message::new(MessageRole::Assistant, "Message 2".to_string());
    manager.add_message(&session.id, msg1).unwrap();
    manager.add_message(&session.id, msg2).unwrap();
    let history = manager.get_history(&session.id).unwrap();
    assert_eq!(history.len(), 2);
}

#[test]
fn test_clear_session() {
    let mut manager = SessionManager::new(create_test_config());
    let session = manager.create_session().unwrap();
    let message = Message::new(MessageRole::User, "Hello".to_string());
    manager.add_message(&session.id, message).unwrap();
    manager.clear_session(&session.id).unwrap();
    let history = manager.get_history(&session.id).unwrap();
    assert_eq!(history.len(), 0);
}

#[test]
fn test_delete_session() {
    let mut manager = SessionManager::new(create_test_config());
    let session = manager.create_session().unwrap();
    let session_id = session.id.clone();
    manager.delete_session(&session_id).unwrap();
    assert!(manager.get_session(&session_id).is_err());
}

#[test]
fn test_list_sessions() {
    let mut manager = SessionManager::new(create_test_config());
    let _session1 = manager.create_session().unwrap();
    let _session2 = manager.create_session().unwrap();
    let sessions = manager.list_sessions();
    assert_eq!(sessions.len(), 2);
}

#[test]
fn test_session_count() {
    let mut manager = SessionManager::new(create_test_config());
    let _session1 = manager.create_session().unwrap();
    let _session2 = manager.create_session().unwrap();
    assert_eq!(manager.session_count(), 2);
}

#[test]
fn test_session_not_found() {
    let mut manager = SessionManager::new(create_test_config());
    let result = manager.get_session("non-existent");
    assert!(result.is_err());
}

#[test]
fn test_message_with_tool_calls() {
    let mut manager = SessionManager::new(create_test_config());
    let session = manager.create_session().unwrap();
    let tool_call = ToolCall {
        id: "call_123".to_string(),
        call_type: "function".to_string(),
        function: ToolCallFunction { name: "test_tool".to_string(), arguments: "{}".to_string() },
    };
    let message = Message::new(MessageRole::Assistant, "Thinking".to_string()).with_tool_calls(vec![tool_call]);
    manager.add_message(&session.id, message).unwrap();
    let history = manager.get_history(&session.id).unwrap();
    assert!(history[0].tool_calls.is_some());
}

#[test]
fn test_message_with_tool_call_id() {
    let mut manager = SessionManager::new(create_test_config());
    let session = manager.create_session().unwrap();
    let message = Message::new(MessageRole::Tool, "Result".to_string()).with_tool_call_id("call_123".to_string());
    manager.add_message(&session.id, message).unwrap();
    let history = manager.get_history(&session.id).unwrap();
    assert_eq!(history[0].tool_call_id, Some("call_123".to_string()));
}

#[test]
fn test_history_limit() {
    let config = SessionConfig { max_history_length: 5, session_ttl: None };
    let mut manager = SessionManager::new(config);
    let session = manager.create_session().unwrap();
    for i in 0..10 {
        let message = Message::new(MessageRole::User, format!("Message {}", i));
        manager.add_message(&session.id, message).unwrap();
    }
    let history = manager.get_history(&session.id).unwrap();
    assert_eq!(history.len(), 5);
}

#[test]
fn test_persistence_config() {
    let config = SessionPersistenceConfig {
        enabled: true,
        storage_path: "./data/sessions".to_string(),
        auto_save_interval: 300,
        format: "jsonl".to_string(),
    };
    assert_eq!(config.enabled, true);
    assert_eq!(config.storage_path, "./data/sessions");
    assert_eq!(config.auto_save_interval, 300);
    assert_eq!(config.format, "jsonl");
}

#[test]
fn test_module_structure() {
    let config = SessionConfig::default();
    assert_eq!(config.max_history_length, 100);
    assert!(config.session_ttl.is_none());
}

#[test]
fn history_keeps_the_newest_messages() {
    let mut manager = SessionManager::new(SessionConfig { max_history_length: 3, session_ttl: None });
    manager.create_session_with_id("s".to_string()).unwrap();
    for i in 0..6 {
        manager.add_message("s", Message::new(MessageRole::User, format!("m{}", i))).unwrap();
    }
    let history = manager.get_history("s").unwrap();
    let contents: Vec<String> = history.iter().map(|m| m.content.clone()).collect();
    assert_eq!(contents, vec!["m3".to_string(), "m4".to_string(), "m5".to_string()]);
}

#[test]
fn expired_sessions_are_refused_and_cleaned_up() {
    let mut manager = SessionManager::new(SessionConfig { max_history_length: 10, session_ttl: Some(60) });
    manager.create_session_with_id_at("old".to_string(), 1_000).unwrap();
    manager.create_session_with_id_at("new".to_string(), 100_000).unwrap();
    let removed = manager.cleanup_expired_sessions_at(150_000);
    assert_eq!(removed, 1);
    assert_eq!(manager.session_count(), 1);
    assert!(manager.get_session_at("new", 150_000).is_ok());
    match manager.get_session_at("new", 400_000) {
        Err(SessionError::Expired(id)) => assert_eq!(id, "new"),
        _ => panic!("expected an expired session"),
    }
}

#[test]
fn creating_an_existing_session_replaces_it() {
    let mut manager = SessionManager::new(create_test_config());
    manager.create_session_with_id("dup".to_string()).unwrap();
    manager.add_message("dup", Message::new(MessageRole::User, "hello".to_string())).unwrap();
    let again = manager.create_session_with_id("dup".to_string()).unwrap();
    assert_eq!(again.messages.len(), 0);
    assert_eq!(manager.session_count(), 1);
    assert_eq!(manager.get_session("dup").unwrap().messages.len(), 0);
}

#[test]
fn session_errors_have_messages() {
    assert_eq!(SessionError::NotFound("x".to_string()).message(), "Session not found: x");
    assert_eq!(SessionError::Expired("x".to_string()).message(), "Session expired: x");
}

#[test]
fn session_file_names_round_trip() {
    let config = SessionPersistenceConfig {
        enabled: true,
        storage_path: "./data/sessions".to_string(),
        auto_save_interval: 300,
        format: "jsonl".to_string(),
    };
    let pm = SessionPersistenceManager::new(&config);
    assert!(pm.is_enabled());
    assert_eq!(pm.get_storage_path(), "./data/sessions");
    assert_eq!(pm.get_session_file_path("abc"), "./data/sessions/abc.jsonl");
    assert_eq!(session_id_from_file_name("abc.jsonl"), Some("abc".to_string()));
    assert_eq!(session_id_from_file_name("abc.json"), None);
}

#[test]
fn last_line_of_a_session_file() {
    assert_eq!(last_nonempty_line("a\nb\n\n"), Some("b".to_string()));
    assert_eq!(last_nonempty_line("\n  \n"), None);
}

#[test]
fn store_gives_back_what_was_saved() {
    let mut store = InMemorySessionStore::new();
    let mut s = Session::new("id-1".to_string());
    s.add_message(Message::new(MessageRole::User, "hi".to_string()));
    store.save(&s);
    let loaded = store.load("id-1").unwrap();
    assert_eq!(loaded.id, "id-1");
    assert_eq!(loaded.messages.len(), 1);
    assert_eq!(store.list_ids(), vec!["id-1".to_string()]);
    store.delete("id-1");
    assert!(store.load("id-1").is_none());
}

#[test]
fn test_with_store() {
    let mut manager = SessionManager::new(create_test_config());
    let session = manager.create_session().unwrap();
    assert!(!session.id.is_empty());
}

#[test]
fn fresh_session_ids_are_hyphenated_uuids() {
    let mut manager = SessionManager::new(create_test_config());
    let a = manager.create_session().unwrap();
    let b = manager.create_session().unwrap();
    assert_eq!(a.id.len(), 36);
    assert_eq!(a.id.matches('-').count(), 4);
    assert_ne!(a.id, b.id);
    assert_eq!(manager.session_count(), 2);
}

#[test]
fn saved_session_state_reads_back() {
    let line = r#"{"id":"s1","messages":[],"note":"a\nb"}"#;
    let content = session_file_content(line);
    assert_eq!(content, format!("{}\n", line));
    assert_eq!(last_nonempty_line(&content), Some(line.to_string()));
}
