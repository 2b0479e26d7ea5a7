use agent_runtime_rs::api::tool_records::run_reply;
use agent_runtime_rs::llm::{ChatMessage, FunctionCall, MessageRole, ToolCall};
use agent_runtime_rs::tools::builtin::calculator::CalculatorTool;
use agent_runtime_rs::json::JsonValue;
use agent_runtime_rs::tools::types::{ToolError, ToolResult};

fn call(id: &str, name: &str) -> ToolCall {
    ToolCall {
        id: id.to_string(),
        call_type: "function".to_string(),
        function: FunctionCall { name: name.to_string(), arguments: "{}".to_string() },
    }
}

fn record(id: &str, name: &str, key: &str, text: &str) -> serde_json::Value {
    let mut m = serde_json::Map::new();
    m.insert("tool_call_id".to_string(), serde_json::Value::String(id.to_string()));
    m.insert("tool_name".to_string(), serde_json::Value::String(name.to_string()));
    m.insert(key.to_string(), serde_json::Value::String(text.to_string()));
    serde_json::Value::Object(m)
}

#[test]
fn tool_call_records_follow_the_calls_and_read_as_json() {
    let mut reply = ChatMessage::new(MessageRole::Assistant, String::new());
    reply.tool_calls = Some(vec![call("c1", "calculator"), call("c\"2", "read_file")]);
    let output = "line\none \"quoted\" \\ tab\t bell\u{7} é".to_string();
    let outcomes = vec![
        Ok(ToolResult { success: true, output: output.clone(), error: None }),
        Err(ToolError::NotFound("read_file".to_string())),
    ];
    let (text, records) = run_reply(Some(&reply), outcomes);
    assert_eq!(records.len(), 2);
    assert_eq!(records[0].get("result").unwrap().as_str(), Some(output.as_str()));
    assert_eq!(records[1].get("error").unwrap().as_str(), Some("Tool not found: read_file"));
    let expected = serde_json::to_string(&serde_json::Value::Array(vec![
        record("c1", "calculator", "result", &output),
        record("c\"2", "read_file", "error", "Tool not found: read_file"),
    ]))
    .unwrap();
    assert_eq!(text, format!("Tool calls executed: {}", expected));
}

#[test]
fn replies_without_tool_calls_are_their_content() {
    let reply = ChatMessage::new(MessageRole::Assistant, "4".to_string());
    let (text, records) = run_reply(Some(&reply), Vec::new());
    assert_eq!(text, "4");
    assert!(records.is_empty());
    let (text, _) = run_reply(None, Vec::new());
    assert_eq!(text, "No response from LLM");
}

#[test]
fn a_blank_expression_fails_like_an_empty_one() {
    let tool = CalculatorTool::new();
    let blank = JsonValue::Object(vec![("expression".to_string(), JsonValue::Str(" \t\n".to_string()))]);
    let r = tool.execute(&blank).unwrap();
    assert!(!r.success);
    assert_eq!(r.error, Some("Failed to evaluate expression: Parse error: Missing argument at the end of expression.".to_string()));
    let empty = JsonValue::Object(vec![("expression".to_string(), JsonValue::Str(String::new()))]);
    let e = tool.execute(&empty).unwrap();
    assert_eq!(e.error, r.error);
}
