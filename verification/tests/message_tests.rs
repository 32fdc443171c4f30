use duckpilot::json::{get_in, str_in, Json, JsonNumber};
use duckpilot::message::{json_str, messages_to_api, AssistantResponse, Message, StreamingToolCall, ToolCall};

fn obj(fields: Vec<(&str, Json)>) -> Json {
    Json::Object(fields.into_iter().map(|(k, v)| (k.to_string(), v)).collect())
}

fn s(text: &str) -> Json {
    Json::Str(text.to_string())
}

#[test]
fn reads_fields_of_documents() {
    let doc = obj(vec![
        ("name", s("orders")),
        ("limit", Json::Number(JsonNumber::PosInt(5))),
        ("items", Json::Array(vec![Json::Bool(true), Json::Null])),
        ("name", s("shadowed")),
    ]);
    assert_eq!(doc.get("name").and_then(|v| v.as_str()), Some("orders"));
    assert_eq!(doc.get("limit").and_then(|v| v.as_u64()), Some(5));
    assert!(doc.get("missing").is_none());
    let items = doc.get("items").and_then(|v| v.as_array()).unwrap();
    assert_eq!(items.len(), 2);
    assert!(matches!(doc.get("items").and_then(|v| v.at(1)), Some(Json::Null)));
    assert!(doc.get("items").and_then(|v| v.at(2)).is_none());
    assert_eq!(str_in(get_in(Some(&doc), "name")), Some("orders"));
    assert_eq!(str_in(get_in(None, "name")), None);
    assert!(Json::Number(JsonNumber::NegInt(-3)).as_u64().is_none());
    assert!(s("x").as_u64().is_none());
}

#[test]
fn copies_documents() {
    let doc = obj(vec![("a", Json::Array(vec![s("x"), Json::Number(JsonNumber::Decimal("1.5".to_string()))]))]);
    let c = doc.copy();
    match c {
        Json::Object(fields) => {
            assert_eq!(fields.len(), 1);
            assert_eq!(fields[0].0, "a");
            match &fields[0].1 {
                Json::Array(items) => {
                    assert!(matches!(&items[0], Json::Str(t) if t == "x"));
                    assert!(matches!(&items[1], Json::Number(JsonNumber::Decimal(t)) if t == "1.5"));
                }
                _ => panic!("not an array"),
            }
        }
        _ => panic!("not an object"),
    }
}

#[test]
fn parses_tool_arguments() {
    let tc = StreamingToolCall { id: "c1".to_string(), name: "sample_data".to_string(), arguments: "{\"table_name\":\"t\",\"limit\":3}".to_string() };
    let args = tc.parse_arguments();
    assert_eq!(args.get("table_name").and_then(|v| v.as_str()), Some("t"));
    assert_eq!(args.get("limit").and_then(|v| v.as_u64()), Some(3));
    let bad = StreamingToolCall { id: "c2".to_string(), name: "x".to_string(), arguments: "{not json".to_string() };
    assert!(matches!(bad.parse_arguments(), Json::Null));
    let empty = StreamingToolCall { id: "c3".to_string(), name: "x".to_string(), arguments: String::new() };
    assert!(matches!(empty.parse_arguments(), Json::Null));
}

#[test]
fn turns_replies_into_messages() {
    let plain = AssistantResponse { content: Some("done".to_string()), tool_calls: Vec::new() };
    assert!(!plain.has_tool_calls());
    match plain.into_message() {
        Message::Assistant { content, tool_calls } => {
            assert_eq!(content.as_deref(), Some("done"));
            assert!(tool_calls.is_none());
        }
        _ => panic!("not an assistant message"),
    }
    let with_call = AssistantResponse {
        content: None,
        tool_calls: vec![StreamingToolCall { id: "id1".to_string(), name: "list_tables".to_string(), arguments: "{}".to_string() }],
    };
    assert!(with_call.has_tool_calls());
    match with_call.into_message() {
        Message::Assistant { content, tool_calls: Some(calls) } => {
            assert!(content.is_none());
            assert_eq!(calls.len(), 1);
            assert_eq!(calls[0].id, "id1");
            assert_eq!(calls[0].name, "list_tables");
            assert!(matches!(&calls[0].arguments, Json::Object(f) if f.is_empty()));
        }
        _ => panic!("tool calls missing"),
    }
}

#[test]
fn writes_messages_for_the_api() {
    let messages = vec![
        Message::System { content: "sys".to_string() },
        Message::User { content: "q".to_string() },
        Message::Assistant {
            content: None,
            tool_calls: Some(vec![ToolCall { id: "c1".to_string(), name: "describe_table".to_string(), arguments: obj(vec![("table_name", s("t"))]) }]),
        },
        Message::ToolResult { tool_call_id: "c1".to_string(), name: "describe_table".to_string(), content: "boom".to_string(), is_error: true },
        Message::ToolResult { tool_call_id: "c2".to_string(), name: "list_tables".to_string(), content: "ok".to_string(), is_error: false },
    ];
    let api = messages_to_api(&messages);
    assert_eq!(api.len(), 5);
    assert_eq!(api[0].get("role").and_then(|v| v.as_str()), Some("system"));
    assert_eq!(api[0].get("content").and_then(|v| v.as_str()), Some("sys"));
    assert_eq!(api[1].get("role").and_then(|v| v.as_str()), Some("user"));
    assert_eq!(api[2].get("role").and_then(|v| v.as_str()), Some("assistant"));
    assert!(matches!(api[2].get("content"), Some(Json::Null)));
    let call = api[2].get("tool_calls").and_then(|v| v.at(0)).unwrap();
    assert_eq!(call.get("id").and_then(|v| v.as_str()), Some("c1"));
    assert_eq!(call.get("type").and_then(|v| v.as_str()), Some("function"));
    let function = call.get("function").unwrap();
    assert_eq!(function.get("name").and_then(|v| v.as_str()), Some("describe_table"));
    assert_eq!(function.get("arguments").and_then(|v| v.as_str()), Some("{\"table_name\":\"t\"}"));
    assert_eq!(api[3].get("role").and_then(|v| v.as_str()), Some("tool"));
    assert_eq!(api[3].get("tool_call_id").and_then(|v| v.as_str()), Some("c1"));
    assert!(matches!(api[3].get("is_error"), Some(Json::Bool(true))));
    assert!(api[4].get("is_error").is_none());
    assert!(matches!(json_str("x"), Json::Str(t) if t == "x"));
}
