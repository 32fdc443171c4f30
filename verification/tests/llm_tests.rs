use duckpilot::json::Json;
use duckpilot::llm::{LlmClient, StreamEvent, StreamParser};
use duckpilot::message::Message;

fn describe(events: &[StreamEvent]) -> Vec<String> {
    events
        .iter()
        .map(|e| match e {
            StreamEvent::Reasoning(t) => format!("R:{}", t),
            StreamEvent::Text(t) => format!("T:{}", t),
            StreamEvent::ToolCallStarted { id, name, args } => format!("C:{}:{}:{}", id, name, args),
        })
        .collect()
}

const ANSWER: &str = "data: {\"choices\":[{\"delta\":{\"reasoning_content\":\"想一想\"}}]}\n\n: keep-alive\ndata: {\"choices\":[{\"delta\":{\"content\":\"Hel\"}}]}\ndata: {\"choices\":[{\"delta\":{\"content\":\"lo\"}}]}\r\ndata: {\"choices\":[{\"delta\":{\"tool_calls\":[{\"index\":0,\"id\":\"call_1\",\"function\":{\"name\":\"list_tables\",\"arguments\":\"{\\\"a\\\"\"}}]}}]}\ndata: {\"choices\":[{\"delta\":{\"tool_calls\":[{\"index\":0,\"function\":{\"arguments\":\":1}\"}}]}}]}\ndata: {\"choices\":[{\"delta\":{},\"finish_reason\":\"tool_calls\"}]}\ndata: [DONE]\n";

#[test]
fn builds_requests() {
    let client = LlmClient::new("gpt-4o".to_string(), "SECRET-REDACTED".to_string(), "https://api.example.com/v1///".to_string());
    assert_eq!(client.chat_url(), "https://api.example.com/v1/chat/completions");
    assert_eq!(client.auth_header(), "Bearer SECRET-REDACTED");
    let body = client.request_body(&[Message::User { content: "hi".to_string() }], &[]);
    assert_eq!(body.get("model").and_then(|v| v.as_str()), Some("gpt-4o"));
    assert!(matches!(body.get("stream"), Some(Json::Bool(true))));
    assert!(body.get("tools").is_none());
    let msgs = body.get("messages").and_then(|v| v.as_array()).unwrap();
    assert_eq!(msgs.len(), 1);
    assert_eq!(msgs[0].get("content").and_then(|v| v.as_str()), Some("hi"));
    let with_tools = client.request_body(&[], &[Json::Null]);
    assert_eq!(with_tools.get("tool_choice").and_then(|v| v.as_str()), Some("auto"));
    assert_eq!(with_tools.get("tools").and_then(|v| v.as_array()).map(|v| v.len()), Some(1));
}

#[test]
fn reads_a_streamed_answer() {
    let mut parser = StreamParser::new();
    let events = parser.push_text(ANSWER);
    assert_eq!(
        describe(&events),
        vec!["R:想一想".to_string(), "T:Hel".to_string(), "T:lo".to_string(), "C:call_1:list_tables:{\"a\":1}".to_string()]
    );
    let reply = parser.finish();
    assert_eq!(reply.content.as_deref(), Some("Hello"));
    assert_eq!(reply.tool_calls.len(), 1);
    assert_eq!(reply.tool_calls[0].id, "call_1");
    assert_eq!(reply.tool_calls[0].name, "list_tables");
    assert_eq!(reply.tool_calls[0].arguments, "{\"a\":1}");
}

#[test]
fn keeps_incomplete_lines_for_later() {
    let mut parser = StreamParser::new();
    let first = parser.push_text("data: {\"choices\":[{\"delta\":{\"content\":\"a\"}}]");
    assert!(first.is_empty());
    let second = parser.push_text("}\n");
    assert_eq!(describe(&second), vec!["T:a".to_string()]);
}

#[test]
fn splitting_the_stream_changes_nothing() {
    let whole = {
        let mut p = StreamParser::new();
        let ev = describe(&p.push_text(ANSWER));
        (ev, p.finish())
    };
    let chars: Vec<char> = ANSWER.chars().collect();
    for cut in [1usize, 7, 40, 61, 100, 150, chars.len() - 3] {
        let a: String = chars[..cut].iter().collect();
        let b: String = chars[cut..].iter().collect();
        let mut p = StreamParser::new();
        let mut ev = describe(&p.push_text(&a));
        ev.extend(describe(&p.push_text(&b)));
        let reply = p.finish();
        assert_eq!(ev, whole.0, "cut at {}", cut);
        assert_eq!(reply.content, whole.1.content);
        assert_eq!(reply.tool_calls.len(), whole.1.tool_calls.len());
        assert_eq!(reply.tool_calls[0].arguments, whole.1.tool_calls[0].arguments);
    }
}

#[test]
fn decodes_bytes_with_replacement() {
    let mut parser = StreamParser::new();
    let mut bytes = b"data: {\"choices\":[{\"delta\":{\"content\":\"".to_vec();
    bytes.extend_from_slice(&[0xff]);
    bytes.extend_from_slice("好\"}}]}\n".as_bytes());
    let events = parser.push_bytes(&bytes);
    assert_eq!(describe(&events), vec!["T:\u{fffd}好".to_string()]);
}

#[test]
fn cuts_long_tool_arguments_in_previews() {
    let long = "x".repeat(250);
    let text = format!(
        "data: {{\"choices\":[{{\"delta\":{{\"tool_calls\":[{{\"index\":1,\"id\":\"k\",\"function\":{{\"name\":\"n\",\"arguments\":\"{}\"}}}}]}},\"finish_reason\":\"stop\"}}]}}\n",
        long
    );
    let mut parser = StreamParser::new();
    let events = parser.push_text(&text);
    assert_eq!(events.len(), 2);
    match &events[0] {
        StreamEvent::ToolCallStarted { id, name, args } => {
            assert_eq!(id, "");
            assert_eq!(name, "");
            assert_eq!(args, "");
        }
        other => panic!("unexpected {:?}", other),
    }
    match &events[1] {
        StreamEvent::ToolCallStarted { args, .. } => assert_eq!(args, &format!("{}...", "x".repeat(200))),
        other => panic!("unexpected {:?}", other),
    }
}

#[test]
fn takes_sql_out_of_answers() {
    assert_eq!(LlmClient::extract_sql("说明：\n```sql\nSELECT 1;\n```\n以上"), "SELECT 1;");
    assert_eq!(LlmClient::extract_sql("```sql\nSELECT a FROM t"), "SELECT a FROM t");
    assert_eq!(LlmClient::extract_sql("  SELECT 2  \n"), "SELECT 2");
    assert_eq!(LlmClient::extract_sql("```sql\nA\n```\n```sql\nB\n```"), "A");
    assert_eq!(LlmClient::extract_sql(""), "");
    assert!(LlmClient::is_runnable_sql("SELECT 1"));
    assert!(!LlmClient::is_runnable_sql(""));
    assert!(!LlmClient::is_runnable_sql("-- 无法转换"));
}
