use agent_runtime_rs::config::loader::{substitute_env_variables, substitute_string_env_vars, ConfigLoader};
use agent_runtime_rs::config::types::{BuiltinToolConfig, MCPServerConfigNew, MCPServers, PromptConfig, ToolsConfig};
use agent_runtime_rs::error::ConfigError;
use agent_runtime_rs::json::JsonValue;

fn env() -> Vec<(String, String)> {
    vec![("TEST_VAR".to_string(), "test_value".to_string()), ("HOME".to_string(), "/root".to_string())]
}

#[test]
fn test_env_variable_substitution() {
    let mut value = JsonValue::Str("${ENV:TEST_VAR}".to_string());
    let result = substitute_env_variables(&mut value, &env());
    assert!(result.is_ok());
    assert!(matches!(value, JsonValue::Str(ref s) if s == "test_value"));
}

#[test]
fn substitution_inside_text_and_objects() {
    assert_eq!(substitute_string_env_vars("a ${ENV:HOME}/x", &env()).unwrap(), "a /root/x");
    assert_eq!(substitute_string_env_vars("${OTHER} $5 ${E", &env()).unwrap(), "${OTHER} $5 ${E");
    match substitute_string_env_vars("key=${ENV:MISSING}", &env()) {
        Err(ConfigError::EnvVariableNotFound(n)) => assert_eq!(n, "MISSING"),
        _ => panic!("expected a missing variable"),
    }
    let mut value = JsonValue::Object(vec![
        ("apiKey".to_string(), JsonValue::Str("${ENV:TEST_VAR}".to_string())),
        ("list".to_string(), JsonValue::Array(vec![JsonValue::Str("${ENV:HOME}".to_string()), JsonValue::Number(3)])),
    ]);
    substitute_env_variables(&mut value, &env()).unwrap();
    assert_eq!(value.get("apiKey").unwrap().as_str(), Some("test_value"));
}

#[test]
fn test_load_prompt_config() {
    let loaded = Ok(PromptConfig { system_prompt: "You are a helpful assistant.".to_string(), templates: None });
    let config = ConfigLoader::load_prompt_config(loaded).unwrap();
    assert_eq!(config.system_prompt, "You are a helpful assistant.");
}

#[test]
fn empty_system_prompt_is_refused() {
    let loaded = Ok(PromptConfig { system_prompt: String::new(), templates: None });
    match ConfigLoader::load_prompt_config(loaded) {
        Err(ConfigError::ValidationError(m)) => assert_eq!(m, "system_prompt is required"),
        _ => panic!("expected a validation error"),
    }
}

#[test]
fn test_load_tools_config() {
    let config = ToolsConfig {
        mcp_servers: MCPServers::New(vec![(
            "test-server".to_string(),
            MCPServerConfigNew {
                command: "node".to_string(),
                args: vec!["server.js".to_string()],
                env: None,
                disabled: None,
                description: None,
            },
        )]),
        builtin_tools: vec![],
        auto_execute_tools: None,
        mcp_tool_definitions: None,
    };
    assert!(ConfigLoader::load_tools_config(Ok(config)).is_ok());
}

#[test]
fn tools_config_problems() {
    let config = ToolsConfig {
        mcp_servers: MCPServers::New(vec![(
            "bad".to_string(),
            MCPServerConfigNew { command: String::new(), args: vec![], env: None, disabled: None, description: None },
        )]),
        builtin_tools: vec![],
        auto_execute_tools: None,
        mcp_tool_definitions: None,
    };
    match ConfigLoader::validate_tools_config(&config) {
        Err(ConfigError::ValidationError(m)) => assert_eq!(m, "MCP server 'bad' must have a 'command' field"),
        _ => panic!("expected a validation error"),
    }
    let config = ToolsConfig {
        mcp_servers: MCPServers::New(vec![]),
        builtin_tools: vec![BuiltinToolConfig { name: String::new(), description: "d".to_string(), parameters: vec![] }],
        auto_execute_tools: None,
        mcp_tool_definitions: None,
    };
    match ConfigLoader::validate_tools_config(&config) {
        Err(ConfigError::ValidationError(m)) => assert_eq!(m, "Each builtin tool must have name and description"),
        _ => panic!("expected a validation error"),
    }
}

#[test]
fn test_file_not_found() {
    let result = ConfigLoader::config_text("nonexistent.json", false, Err("unused".to_string()));
    assert!(matches!(result, Err(ConfigError::FileNotFound(_))));
}

#[test]
fn agent_limits_in_order() {
    assert!(ConfigLoader::validate_agent_limits(true, Some(2000), 10).is_ok());
    match ConfigLoader::validate_agent_limits(false, Some(0), 0) {
        Err(e) => assert_eq!(e.message(), "Validation error: LLM temperature must be between 0 and 2"),
        _ => panic!(),
    }
    match ConfigLoader::validate_agent_limits(true, Some(0), 0) {
        Err(e) => assert_eq!(e.message(), "Validation error: LLM max_tokens must be at least 1"),
        _ => panic!(),
    }
    match ConfigLoader::validate_agent_limits(true, None, 0) {
        Err(e) => assert_eq!(e.message(), "Validation error: session.max_history_length must be at least 1"),
        _ => panic!(),
    }
}

#[test]
fn substitution_stops_at_the_first_missing_variable() {
    let mut value = JsonValue::Array(vec![
        JsonValue::Str("${ENV:TEST_VAR}".to_string()),
        JsonValue::Str("${ENV:MISSING} here".to_string()),
        JsonValue::Str("${ENV:HOME}".to_string()),
    ]);
    match substitute_env_variables(&mut value, &env()) {
        Err(ConfigError::EnvVariableNotFound(n)) => assert_eq!(n, "MISSING"),
        _ => panic!("expected a missing variable"),
    }
    match value {
        JsonValue::Array(items) => {
            assert_eq!(items[0].as_str(), Some("test_value"));
            assert_eq!(items[1].as_str(), Some("${ENV:MISSING} here"));
            assert_eq!(items[2].as_str(), Some("${ENV:HOME}"));
        }
        _ => panic!("expected an array"),
    }
}

#[test]
fn plain_configuration_is_left_as_it_is() {
    let mut value = JsonValue::Object(vec![
        ("model".to_string(), JsonValue::Str("qwen-plus".to_string())),
        ("price".to_string(), JsonValue::Str("$5 {x}".to_string())),
        ("limits".to_string(), JsonValue::Array(vec![JsonValue::Number(100), JsonValue::Bool(true), JsonValue::Null])),
    ]);
    assert!(substitute_env_variables(&mut value, &Vec::new()).is_ok());
    assert_eq!(value.get("model").unwrap().as_str(), Some("qwen-plus"));
    assert_eq!(value.get("price").unwrap().as_str(), Some("$5 {x}"));
    match value.get("limits") {
        Some(JsonValue::Array(items)) => {
            assert_eq!(items.len(), 3);
            assert!(matches!(items[0], JsonValue::Number(100)));
            assert!(matches!(items[1], JsonValue::Bool(true)));
            assert!(matches!(items[2], JsonValue::Null));
        }
        _ => panic!("expected the limits"),
    }
}

#[test]
fn fractional_numbers_are_kept() {
    let mut value = JsonValue::Object(vec![("temperature".to_string(), JsonValue::Decimal("0.7".to_string()))]);
    assert!(substitute_env_variables(&mut value, &Vec::new()).is_ok());
    match value.get("temperature") {
        Some(JsonValue::Decimal(d)) => assert_eq!(d, "0.7"),
        _ => panic!("expected the number"),
    }
}
