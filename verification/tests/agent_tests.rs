use duckpilot::agent::{build_system_prompt, AgentEvent, AgentLoop, AgentPhase, ToolStep, MAX_STEPS, NUDGE_STEP};
use duckpilot::message::{AssistantResponse, Message, StreamingToolCall};
use duckpilot::tool::{build_registry, AgentTool};

fn call(id: &str, name: &str, args: &str) -> StreamingToolCall {
    StreamingToolCall { id: id.to_string(), name: name.to_string(), arguments: args.to_string() }
}

fn reply_with(calls: Vec<StreamingToolCall>) -> AssistantResponse {
    AssistantResponse { content: None, tool_calls: calls }
}

fn system_texts(messages: &[Message]) -> Vec<String> {
    messages
        .iter()
        .filter_map(|m| match m {
            Message::System { content } => Some(content.clone()),
            _ => None,
        })
        .collect()
}

#[test]
fn starts_with_instructions_and_question() {
    let agent = AgentLoop::new("有哪些表？".to_string());
    assert_eq!(agent.phase(), AgentPhase::Ready);
    assert!(!agent.is_finished());
    let msgs = agent.messages();
    assert_eq!(msgs.len(), 2);
    assert!(matches!(&msgs[0], Message::System { content } if *content == build_system_prompt()));
    assert!(matches!(&msgs[1], Message::User { content } if content == "有哪些表？"));
    assert!(build_system_prompt().starts_with("你是一个专业的数据分析助手。"));
}

#[test]
fn runs_tools_and_records_results_in_order() {
    let registry = build_registry();
    let mut agent = AgentLoop::new("q".to_string());
    assert!(agent.begin_step().is_none());
    assert_eq!(agent.phase(), AgentPhase::Asking);
    let events = agent.on_reply(Ok(reply_with(vec![
        call("a", "list_tables", "{}"),
        call("b", "no_such_tool", "{}"),
        call("c", "sample_data", "{\"table_name\":\"t\"}"),
    ])));
    assert!(matches!(events.as_slice(), [AgentEvent::LlmDone]));
    assert_eq!(agent.phase(), AgentPhase::RunningTools);

    match agent.next_tool(&registry) {
        ToolStep::Run { tool, .. } => assert!(matches!(tool, AgentTool::ListTables(_))),
        other => panic!("unexpected {:?}", other),
    }
    assert_eq!(agent.phase(), AgentPhase::AwaitingTool);
    match agent.tool_finished(Ok("可用表列表：\n".to_string())) {
        AgentEvent::ToolCallResult { id, name, is_error, .. } => {
            assert_eq!(id, "a");
            assert_eq!(name, "list_tables");
            assert!(!is_error);
        }
        other => panic!("unexpected {:?}", other),
    }
    match agent.next_tool(&registry) {
        ToolStep::Recorded(AgentEvent::ToolCallResult { id, result, is_error, .. }) => {
            assert_eq!(id, "b");
            assert_eq!(result, "未知工具: no_such_tool");
            assert!(is_error);
        }
        other => panic!("unexpected {:?}", other),
    }
    match agent.next_tool(&registry) {
        ToolStep::Run { tool, arguments } => {
            assert!(matches!(tool, AgentTool::SampleData(_)));
            assert_eq!(arguments.get("table_name").and_then(|v| v.as_str()), Some("t"));
        }
        other => panic!("unexpected {:?}", other),
    }
    match agent.tool_finished(Err("boom".to_string())) {
        AgentEvent::ToolCallResult { result, is_error, .. } => {
            assert_eq!(result, "工具执行失败: boom");
            assert!(is_error);
        }
        other => panic!("unexpected {:?}", other),
    }
    assert!(matches!(agent.next_tool(&registry), ToolStep::AllDone(AgentEvent::LlmStreamStart)));
    assert_eq!(agent.phase(), AgentPhase::Ready);

    let msgs = agent.messages();
    let ids: Vec<&str> = msgs
        .iter()
        .filter_map(|m| match m {
            Message::ToolResult { tool_call_id, .. } => Some(tool_call_id.as_str()),
            _ => None,
        })
        .collect();
    assert_eq!(ids, vec!["a", "b", "c"]);
    assert!(matches!(msgs.last(), Some(Message::ToolResult { tool_call_id, .. }) if tool_call_id == "c"));

    assert!(agent.begin_step().is_none());
    let done = agent.on_reply(Ok(AssistantResponse { content: Some("答案".to_string()), tool_calls: Vec::new() }));
    assert!(matches!(done.as_slice(), [AgentEvent::LlmDone]));
    assert!(agent.is_finished());
    assert!(matches!(agent.messages().last(), Some(Message::Assistant { content: Some(c), tool_calls: None }) if c == "答案"));
}

#[test]
fn reports_model_errors_and_stops() {
    let mut agent = AgentLoop::new("q".to_string());
    agent.begin_step();
    let events = agent.on_reply(Err("API error 500".to_string()));
    assert!(matches!(events.as_slice(), [AgentEvent::LlmError(e)] if e == "API error 500"));
    assert!(agent.is_finished());
    assert_eq!(agent.messages().len(), 2);
}

#[test]
fn warns_on_repeated_calls_and_nudges_late() {
    let registry = build_registry();
    let mut agent = AgentLoop::new("q".to_string());
    for step in 1..=MAX_STEPS {
        assert!(agent.begin_step().is_none(), "step {}", step);
        agent.on_reply(Ok(reply_with(vec![call("x", "list_tables", "{}")])));
        match agent.next_tool(&registry) {
            ToolStep::Run { .. } => {
                agent.tool_finished(Ok("ok".to_string()));
            }
            other => panic!("unexpected {:?}", other),
        }
        assert!(matches!(agent.next_tool(&registry), ToolStep::AllDone(_)));
    }
    let texts = system_texts(agent.messages());
    let warnings = texts.iter().filter(|t| t.starts_with("系统提示：你正在重复相同的工具调用")).count();
    assert_eq!(warnings as u32, MAX_STEPS - 1);
    let nudges: Vec<&String> = texts.iter().filter(|t| t.starts_with("系统提示：已执行 ")).collect();
    assert_eq!(nudges.len() as u32, MAX_STEPS - NUDGE_STEP + 1);
    assert_eq!(nudges[0], "系统提示：已执行 6 步操作。请综合已有结果，直接给出最终回答。");

    match agent.begin_step() {
        Some(AgentEvent::LlmError(e)) => assert_eq!(e, "达到最大步数限制 (15)，请简化问题或分步提问"),
        other => panic!("unexpected {:?}", other),
    }
    assert!(agent.is_finished());
}

#[test]
fn a_run_asks_at_most_the_step_limit_and_only_grows() {
    let registry = build_registry();
    let mut agent = AgentLoop::new("q".to_string());
    let mut requests = 0u32;
    let mut last_len = agent.messages().len();
    let mut last_event = None;
    while !agent.is_finished() {
        match agent.begin_step() {
            Some(e) => {
                last_event = Some(e);
                break;
            }
            None => requests += 1,
        }
        let events = agent.on_reply(Ok(reply_with(vec![call("x", "list_tables", "{}")])));
        assert!(agent.messages().len() >= last_len);
        last_len = agent.messages().len();
        last_event = events.into_iter().last();
        loop {
            match agent.next_tool(&registry) {
                ToolStep::Run { .. } => {
                    agent.tool_finished(Ok("ok".to_string()));
                }
                ToolStep::Recorded(_) => {}
                ToolStep::AllDone(_) => break,
            }
            assert!(agent.messages().len() >= last_len);
            last_len = agent.messages().len();
        }
    }
    assert_eq!(requests, MAX_STEPS);
    assert!(matches!(last_event, Some(AgentEvent::LlmError(_))));
}
