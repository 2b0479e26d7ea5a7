use agent_runtime_rs::json::JsonValue;
use agent_runtime_rs::runtime::agent::{agent_config_files, combine_agent_config, conversation, needs_summary, summary_threshold};
use agent_runtime_rs::runtime::{ChatResponse, Logger, NoOpLogger, RuntimeError};
use agent_runtime_rs::session::{Message, MessageRole};
use agent_runtime_rs::utils::logger::parse_log_level;
use agent_runtime_rs::config::types::LogLevel;
use agent_runtime_rs::{DESCRIPTION, NAME, VERSION};

#[test]
fn test_version() {
    assert!(!VERSION.is_empty());
    assert!(!NAME.is_empty());
    assert!(!DESCRIPTION.is_empty());
}

#[test]
fn test_runtime_module_structure() {
    let response = ChatResponse::new("hi".to_string())
        .with_finish_reason("stop".to_string())
        .with_tool_calls(vec![JsonValue::Null]);
    assert_eq!(response.content, "hi");
    assert_eq!(response.finish_reason, Some("stop".to_string()));
    assert_eq!(response.tool_calls.len(), 1);
    let logger = NoOpLogger;
    logger.info("quiet");
}

#[test]
fn runtime_error_messages() {
    assert_eq!(RuntimeError::MaxIterationsError(5).message(), "Max tool call iterations reached: 5");
    assert_eq!(RuntimeError::ConfigError("x".to_string()).message(), "Configuration error: x");
}

#[test]
fn agent_config_combination() {
    assert_eq!(agent_config_files().len(), 7);
    let combined = combine_agent_config(&vec![
        ("agent-config/SOUL.md".to_string(), Some("calm".to_string())),
        ("agent-config/IDENTITY.md".to_string(), None),
    ]);
    assert_eq!(combined, "# Agent Configuration\n\n\n---\n\n## agent-config/SOUL.md\n\ncalm");
    assert!(needs_summary(6000, 5000));
    assert!(!needs_summary(6000, 0));
    assert!(!needs_summary(100, 5000));
    let config = JsonValue::Object(vec![("configSummaryThreshold".to_string(), JsonValue::Number(800))]);
    assert_eq!(summary_threshold(&config), Some(800));
    assert_eq!(summary_threshold(&JsonValue::Object(vec![])), None);
}

#[test]
fn conversation_starts_with_the_configuration() {
    let history = vec![
        Message::new(MessageRole::User, "hi".to_string()),
        Message::new(MessageRole::Assistant, "hello".to_string()),
    ];
    let ms = conversation(Some("config"), &history);
    assert_eq!(ms.len(), 3);
    assert_eq!(ms[0].content, "config");
    assert_eq!(ms[2].content, "hello");
    assert_eq!(conversation(None, &history).len(), 2);
}

#[test]
fn log_levels_by_name() {
    assert_eq!(parse_log_level("DEBUG"), LogLevel::Debug);
    assert_eq!(parse_log_level("warn"), LogLevel::Warn);
    assert_eq!(parse_log_level("verbose"), LogLevel::Info);
}
