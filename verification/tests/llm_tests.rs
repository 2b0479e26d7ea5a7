use agent_runtime_rs::llm::client::tool_definition_to_json;
use agent_runtime_rs::tools::builtin::calculator::CalculatorTool;
use agent_runtime_rs::json::JsonValue;
use agent_runtime_rs::llm::client::{message_to_json, request_body_json};
use agent_runtime_rs::llm::connector::{authorization_value, chat_completions_url, check_api_key, http_error, tool_choice_for, tool_definitions};
use agent_runtime_rs::llm::types::LLMError;
use agent_runtime_rs::llm::{ChatMessage, FunctionCall, MessageRole, TokenUsage, ToolCall, ToolChoice, ToolDefinition};
use agent_runtime_rs::tools::types::{ParameterType, ToolMetadata, ToolParameter};

fn calculator_metadata() -> ToolMetadata {
    ToolMetadata {
        name: "calculator".to_string(),
        description: "Perform mathematical calculations".to_string(),
        parameters: vec![ToolParameter {
            name: "expression".to_string(),
            description: "Mathematical expression to evaluate".to_string(),
            required: true,
            parameter_type: ParameterType::String,
        }],
    }
}

fn field<'a>(v: &'a JsonValue, key: &str) -> &'a JsonValue {
    v.get(key).unwrap()
}

#[test]
fn test_llm_module_structure() {
    assert_eq!(MessageRole::User.wire_name(), "user");
}

#[test]
fn test_chat_message_creation() {
    let message = ChatMessage::new(MessageRole::User, "Hello".to_string());
    assert_eq!(message.role, MessageRole::User);
    assert_eq!(message.content, "Hello");
}

#[test]
fn test_tool_definition_from_tool_metadata() {
    let mut metadata = calculator_metadata();
    metadata.description = "Perform calculations".to_string();
    let tool_def = ToolDefinition::from_metadata(&metadata);
    assert_eq!(tool_def.type_, "function");
    assert_eq!(tool_def.function.name, "calculator");
    assert_eq!(tool_def.function.description, "Perform calculations");
    assert!(tool_def.function.parameters.is_object());
    assert!(tool_def.function.parameters.get("properties").is_some());
    assert!(tool_def.function.parameters.get("required").is_some());
}

#[test]
fn test_tool_definition_conversion() {
    let tool_def = ToolDefinition::from_metadata(&calculator_metadata());
    assert_eq!(tool_def.type_, "function");
    assert_eq!(tool_def.function.name, "calculator");
    assert_eq!(tool_def.function.description, "Perform mathematical calculations");
    let params = &tool_def.function.parameters;
    let properties = field(params, "properties");
    assert!(properties.get("expression").is_some());
    assert_eq!(field(field(properties, "expression"), "type").as_str(), Some("string"));
    assert_eq!(
        field(field(properties, "expression"), "description").as_str(),
        Some("Mathematical expression to evaluate")
    );
    match field(params, "required") {
        JsonValue::Array(items) => {
            assert_eq!(items.len(), 1);
            assert_eq!(items[0].as_str(), Some("expression"));
        }
        _ => panic!("required must be an array"),
    }
}

#[test]
fn test_tool_choice_serialization() {
    assert_eq!(ToolChoice::Auto.wire_name(), "auto");
    assert_eq!(ToolChoice::Off.wire_name(), "none");
    assert_eq!(ToolChoice::Required.wire_name(), "required");
}

#[test]
fn test_message_role_serialization() {
    assert_eq!(MessageRole::System.wire_name(), "system");
    assert_eq!(MessageRole::User.wire_name(), "user");
    assert_eq!(MessageRole::Assistant.wire_name(), "assistant");
    assert_eq!(MessageRole::Tool.wire_name(), "tool");
}

#[test]
fn test_chat_message_with_tool_calls() {
    let mut message = ChatMessage::new(MessageRole::Assistant, "I'll help you with that.".to_string());
    message.tool_calls = Some(vec![ToolCall {
        id: "call_123".to_string(),
        call_type: "function".to_string(),
        function: FunctionCall { name: "calculator".to_string(), arguments: "{\"expression\": \"2+2\"}".to_string() },
    }]);
    let json = message_to_json(&message);
    match field(&json, "tool_calls") {
        JsonValue::Array(calls) => {
            assert_eq!(calls.len(), 1);
            assert_eq!(field(&calls[0], "id").as_str(), Some("call_123"));
            assert_eq!(field(field(&calls[0], "function"), "name").as_str(), Some("calculator"));
        }
        _ => panic!("tool_calls must be an array"),
    }
}

#[test]
fn test_token_usage_calculation() {
    let usage = TokenUsage { prompt_tokens: 10, completion_tokens: 20, total_tokens: 30 };
    assert_eq!(usage.total_tokens, usage.prompt_tokens + usage.completion_tokens);
}

#[test]
fn test_http_client_creation() {
    assert!(check_api_key("test-key").is_ok());
}

#[test]
fn test_http_client_creation_empty_key() {
    match check_api_key("") {
        Err(LLMError::ConfigError(msg)) => assert_eq!(msg, "API key is required"),
        _ => panic!("Expected ConfigError"),
    }
}

#[test]
fn endpoint_and_headers() {
    assert_eq!(
        chat_completions_url("https://dashscope.aliyuncs.com/compatible-mode/v1/"),
        "https://dashscope.aliyuncs.com/compatible-mode/v1/chat/completions"
    );
    assert_eq!(chat_completions_url("http://x//"), "http://x/chat/completions");
    assert_eq!(authorization_value("k"), "Bearer k");
    assert_eq!(tool_choice_for(true), Some(ToolChoice::Auto));
    assert_eq!(tool_choice_for(false), None);
}

#[test]
fn http_errors_by_status() {
    assert_eq!(http_error(401, "401 Unauthorized", "bad key").message(), "Authentication error: Authentication failed: bad key");
    assert_eq!(http_error(429, "429 Too Many Requests", "slow").message(), "Rate limit error: Rate limit exceeded: slow");
    assert_eq!(
        http_error(500, "500 Internal Server Error", "boom").message(),
        "API error: API error (500 Internal Server Error): boom"
    );
}

#[test]
fn test_chat_completion_request_with_tools() {
    let messages = vec![ChatMessage::new(MessageRole::User, "What is 2+2?".to_string())];
    let tools = tool_definitions(&vec![calculator_metadata()]);
    let body = request_body_json("qwen-turbo", &messages, Some(2000), Some(tools));
    match field(&body, "tools") {
        JsonValue::Array(items) => assert_eq!(items.len(), 1),
        _ => panic!("tools must be an array"),
    }
    assert_eq!(field(&body, "tool_choice").as_str(), Some("auto"));
    assert!(matches!(field(&body, "stream"), JsonValue::Bool(false)));
    assert!(matches!(field(&body, "max_tokens"), JsonValue::Number(2000)));
}

#[test]
fn test_message_conversion_to_openai_format() {
    let messages = vec![
        ChatMessage::new(MessageRole::System, "You are a helpful assistant.".to_string()),
        ChatMessage::new(MessageRole::User, "Hello!".to_string()),
        ChatMessage::new(MessageRole::Assistant, "Hi there!".to_string()),
    ];
    let body = request_body_json("m", &messages, None, None);
    match field(&body, "messages") {
        JsonValue::Array(items) => {
            assert_eq!(items.len(), 3);
            assert_eq!(field(&items[0], "role").as_str(), Some("system"));
            assert_eq!(field(&items[1], "role").as_str(), Some("user"));
            assert_eq!(field(&items[2], "role").as_str(), Some("assistant"));
        }
        _ => panic!("messages must be an array"),
    }
    assert!(body.get("tools").is_none());
}

#[test]
fn connector_test_tool_choice_serialization() {
    assert_eq!(ToolChoice::Auto.wire_name(), "auto");
    assert_eq!(ToolChoice::Off.wire_name(), "none");
    assert_eq!(ToolChoice::Required.wire_name(), "required");
}

#[test]
fn types_test_tool_choice_serialization() {
    assert_eq!(ToolChoice::Auto.wire_name(), "auto");
    assert_eq!(ToolChoice::Off.wire_name(), "none");
    assert_eq!(ToolChoice::Required.wire_name(), "required");
}

#[test]
fn test_tool_choice_enum() {
    assert_eq!(ToolChoice::Auto.wire_name(), "auto");
    assert_eq!(ToolChoice::Off.wire_name(), "none");
    assert_eq!(ToolChoice::Required.wire_name(), "required");
}

#[test]
fn connector_test_message_role_serialization() {
    assert_eq!(MessageRole::System.wire_name(), "system");
    assert_eq!(MessageRole::User.wire_name(), "user");
    assert_eq!(MessageRole::Assistant.wire_name(), "assistant");
    assert_eq!(MessageRole::Tool.wire_name(), "tool");
}

#[test]
fn types_test_message_role_serialization() {
    assert_eq!(MessageRole::System.wire_name(), "system");
    assert_eq!(MessageRole::User.wire_name(), "user");
    assert_eq!(MessageRole::Assistant.wire_name(), "assistant");
    assert_eq!(MessageRole::Tool.wire_name(), "tool");
}

#[test]
fn test_message_role_enum() {
    assert_eq!(MessageRole::System.wire_name(), "system");
    assert_eq!(MessageRole::User.wire_name(), "user");
    assert_eq!(MessageRole::Assistant.wire_name(), "assistant");
    assert_eq!(MessageRole::Tool.wire_name(), "tool");
}

#[test]
fn test_tool_definition_serialization() {
    let obj = |members: Vec<(&str, JsonValue)>| {
        JsonValue::Object(members.into_iter().map(|(k, v)| (k.to_string(), v)).collect())
    };
    let tool = ToolDefinition {
        type_: "function".to_string(),
        function: agent_runtime_rs::llm::FunctionDefinition {
            name: "calculator".to_string(),
            description: "Perform calculations".to_string(),
            parameters: obj(vec![
                ("type", JsonValue::Str("object".to_string())),
                (
                    "properties",
                    obj(vec![(
                        "expression",
                        obj(vec![
                            ("type", JsonValue::Str("string".to_string())),
                            ("description", JsonValue::Str("Math expression".to_string())),
                        ]),
                    )]),
                ),
                ("required", JsonValue::Array(vec![JsonValue::Str("expression".to_string())])),
            ]),
        },
    };
    let json = agent_runtime_rs::llm::client::tool_definition_to_json(tool);
    assert_eq!(json.get("type").unwrap().as_str(), Some("function"));
    let function = json.get("function").unwrap();
    assert_eq!(function.get("name").unwrap().as_str(), Some("calculator"));
    assert_eq!(function.get("description").unwrap().as_str(), Some("Perform calculations"));
    assert!(function.get("parameters").unwrap().is_object());
}

#[test]
fn connector_body_lists_every_message_field() {
    let messages = vec![ChatMessage::new(MessageRole::User, "Hello".to_string())];
    let body = agent_runtime_rs::llm::connector::connector_request_body("qwen-turbo", &messages, Some(2000), None, true);
    assert_eq!(body.get("model").unwrap().as_str(), Some("qwen-turbo"));
    assert!(matches!(body.get("max_tokens"), Some(JsonValue::Number(2000))));
    assert_eq!(body.get("tool_choice").unwrap().as_str(), Some("auto"));
    assert!(matches!(body.get("stream"), Some(JsonValue::Bool(false))));
    assert!(body.get("tools").is_none());
    match body.get("messages") {
        Some(JsonValue::Array(items)) => {
            assert_eq!(items.len(), 1);
            assert_eq!(items[0].get("role").unwrap().as_str(), Some("user"));
            assert!(matches!(items[0].get("name"), Some(JsonValue::Null)));
            assert!(matches!(items[0].get("tool_calls"), Some(JsonValue::Null)));
        }
        _ => panic!("expected the messages"),
    }
    let quiet = agent_runtime_rs::llm::connector::connector_request_body("m", &messages, None, Some(Vec::new()), false);
    assert!(quiet.get("tool_choice").is_none());
    assert!(quiet.get("max_tokens").is_none());
    assert!(matches!(quiet.get("tools"), Some(JsonValue::Array(v)) if v.is_empty()));
}

#[test]
fn tool_definitions_agree_with_the_openai_form_without_arrays() {
    let meta = CalculatorTool::new().metadata().clone();
    let a = tool_definition_to_json(ToolDefinition::from_metadata(&meta));
    let b = meta.to_openai_json();
    assert_eq!(format!("{:?}", a), format!("{:?}", b));
}
