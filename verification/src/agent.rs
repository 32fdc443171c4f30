use vstd::prelude::*;

use crate::json::{json_text, json_text_of, Json, JsonModel};
use crate::message::{
    copy_tool_calls, reply_message, tool_calls_model, AssistantResponse, Message, MessageModel, ToolCall,
    ToolCallModel,
};
use crate::text::{cat2, cat3, decimal, decimal_text, join, joined, texts};
use crate::tool::{AgentTool, ToolRegistry};

verus! {

broadcast use vstd::string::group_string_axioms;

/// The most times one question may go to the model.
pub const MAX_STEPS: u32 = 15;

/// The step from which the agent reminds the model to answer.
pub const NUDGE_STEP: u32 = 6;

pub open spec fn system_prompt_text() -> Seq<char> {
    "你是一个专业的数据分析助手。你可以使用工具来查询和分析 DuckDB 数据库中的数据。\n\n工作方式：\n1. 先用 list_tables 了解有哪些数据\n2. 用 describe_table 查看感兴趣的表结构\n3. 用 sample_data 查看样本数据\n4. 用 execute_query 执行 SQL 查询进行分析\n\n回答规则：\n- 先思考需要做什么，再选择合适的工具\n- SQL 查询结果可能很大，优先用聚合和统计\n- 用中文回答用户的问题\n- 如果用户的问题不需要查询数据，直接回答即可\n\n重要：当你已经收集到足够的信息来回答用户问题时，必须停止调用工具，直接给出最终回答。不要重复查询相同的数据。"@
}

/// The instructions that open every conversation.
pub fn build_system_prompt() -> (r: String)
    ensures
        r@ == system_prompt_text(),
{
    "你是一个专业的数据分析助手。你可以使用工具来查询和分析 DuckDB 数据库中的数据。\n\n工作方式：\n1. 先用 list_tables 了解有哪些数据\n2. 用 describe_table 查看感兴趣的表结构\n3. 用 sample_data 查看样本数据\n4. 用 execute_query 执行 SQL 查询进行分析\n\n回答规则：\n- 先思考需要做什么，再选择合适的工具\n- SQL 查询结果可能很大，优先用聚合和统计\n- 用中文回答用户的问题\n- 如果用户的问题不需要查询数据，直接回答即可\n\n重要：当你已经收集到足够的信息来回答用户问题时，必须停止调用工具，直接给出最终回答。不要重复查询相同的数据。".to_string()
}

pub open spec fn step_limit_error() -> Seq<char> {
    "达到最大步数限制 (15)，请简化问题或分步提问"@
}

pub open spec fn repeat_warning() -> Seq<char> {
    "系统提示：你正在重复相同的工具调用。请根据已有数据直接给出最终回答，不要再调用工具。"@
}

pub open spec fn nudge_text(step: nat) -> Seq<char> {
    "系统提示：已执行 "@ + decimal(step) + " 步操作。请综合已有结果，直接给出最终回答。"@
}

pub open spec fn unknown_tool_text(name: Seq<char>) -> Seq<char> {
    "未知工具: "@ + name
}

pub open spec fn tool_failed_text(err: Seq<char>) -> Seq<char> {
    "工具执行失败: "@ + err
}

/// The fingerprint of a batch of tool calls: `name:arguments` of each, joined by `|`.
pub open spec fn call_signature(calls: Seq<ToolCallModel>) -> Seq<char> {
    joined(calls.map_values(|tc: ToolCallModel| tc.name + ":"@ + json_text_of(tc.arguments)), "|"@)
}

/// The finished tool calls of a reply.
pub open spec fn reply_calls(r: crate::message::AssistantResponseModel) -> Seq<ToolCallModel> {
    r.tool_calls.map_values(|tc: crate::message::StreamingToolCallModel| crate::message::finished_call(tc))
}

/// The fingerprint of a batch of tool calls.
fn signature(calls: &Vec<ToolCall>) -> (r: String)
    ensures
        r@ == call_signature(tool_calls_model(calls@)),
{
    let mut parts: Vec<String> = Vec::new();
    let mut i: usize = 0;
    while i < calls.len()
        invariant
            i <= calls.len(),
            parts.len() == i,
            forall|j: int| 0 <= j < i ==> (#[trigger] parts@[j])@ == calls@[j].name@ + ":"@ + json_text_of(calls@[j].arguments.model()),
        decreases calls.len() - i,
    {
        let text = json_text(&calls[i].arguments);
        parts.push(cat3(calls[i].name.as_str(), ":", text.as_str()));
        i = i + 1;
    }
    let r = join(&parts, "|");
    proof {
        assert(texts(parts@) =~= tool_calls_model(calls@).map_values(|tc: ToolCallModel| tc.name + ":"@ + json_text_of(tc.arguments)));
    }
    r
}

/// What the agent reports to the user interface.
#[derive(Debug)]
pub enum AgentEvent {
    LlmDone,
    LlmError(String),
    LlmStreamStart,
    ToolCallResult { id: String, name: String, result: String, is_error: bool },
}

pub enum AgentEventModel {
    LlmDone,
    LlmError(Seq<char>),
    LlmStreamStart,
    ToolCallResult { id: Seq<char>, name: Seq<char>, result: Seq<char>, is_error: bool },
}

impl View for AgentEvent {
    type V = AgentEventModel;

    open spec fn view(&self) -> AgentEventModel {
        match self {
            AgentEvent::LlmDone => AgentEventModel::LlmDone,
            AgentEvent::LlmError(e) => AgentEventModel::LlmError(e@),
            AgentEvent::LlmStreamStart => AgentEventModel::LlmStreamStart,
            AgentEvent::ToolCallResult { id, name, result, is_error } => AgentEventModel::ToolCallResult {
                id: id@,
                name: name@,
                result: result@,
                is_error: *is_error,
            },
        }
    }
}

/// Where the agent stands in answering one question.
#[derive(Debug, Clone, Copy, PartialEq, Eq, Structural)]
pub enum AgentPhase {
    /// About to ask the model.
    Ready,
    /// Waiting for the model's reply to the current conversation.
    Asking,
    /// Working through the tool calls of the last reply.
    RunningTools,
    /// A registered tool was handed out and its outcome is awaited.
    AwaitingTool,
    /// The question is answered, or given up.
    Finished,
}

/// What to do next with the tool calls of the last reply.
#[derive(Debug)]
pub enum ToolStep {
    /// Run this registered tool on these arguments, then report with `tool_finished`.
    Run { tool: AgentTool, arguments: Json },
    /// The call named no registered tool; its error result is already recorded.
    Recorded(AgentEvent),
    /// Every call is answered; the model may be asked again.
    AllDone(AgentEvent),
}

/// The decisions of the tool-using agent for one question: when to ask the model,
/// which tool calls to run, and what goes into the conversation.
pub struct AgentLoop {
    messages: Vec<Message>,
    step: u32,
    last_tool_signature: Option<String>,
    pending: Vec<ToolCall>,
    next_call: usize,
    phase: AgentPhase,
    results_start: Ghost<nat>,
}

pub struct AgentModel {
    pub messages: Seq<MessageModel>,
    pub step: nat,
    pub last_signature: Option<Seq<char>>,
    pub pending: Seq<ToolCallModel>,
    pub next_call: nat,
    pub phase: AgentPhase,
}

impl View for AgentLoop {
    type V = AgentModel;

    closed spec fn view(&self) -> AgentModel {
        AgentModel {
            messages: self.messages@.map_values(|m: Message| m@),
            step: self.step as nat,
            last_signature: crate::message::opt_text(self.last_tool_signature),
            pending: tool_calls_model(self.pending@),
            next_call: self.next_call as nat,
            phase: self.phase,
        }
    }
}

/// The message that records the answer to a tool call.
pub open spec fn result_message(tc: ToolCallModel, content: Seq<char>, is_error: bool) -> MessageModel {
    MessageModel::ToolResult { tool_call_id: tc.id, name: tc.name, content, is_error }
}

/// The event that reports the answer to a tool call.
pub open spec fn result_event(tc: ToolCallModel, content: Seq<char>, is_error: bool) -> AgentEventModel {
    AgentEventModel::ToolCallResult { id: tc.id, name: tc.name, result: content, is_error }
}

/// `m` answers tool call `tc`.
pub open spec fn answers(m: MessageModel, tc: ToolCallModel) -> bool {
    m matches MessageModel::ToolResult { tool_call_id, name, .. } && tool_call_id == tc.id && name == tc.name
}

impl AgentLoop {
    /// The internal consistency of the agent's state.
    pub closed spec fn wf(&self) -> bool {
        &&& self.phase != AgentPhase::Finished ==> self.step <= MAX_STEPS
        &&& (self.phase == AgentPhase::Asking || self.phase == AgentPhase::RunningTools || self.phase == AgentPhase::AwaitingTool) ==> self.step >= 1
        &&& self.next_call <= self.pending@.len()
        &&& self.phase == AgentPhase::AwaitingTool ==> self.next_call < self.pending@.len()
        &&& (self.phase == AgentPhase::RunningTools || self.phase == AgentPhase::AwaitingTool) ==> {
            &&& self.results_start@ + self.next_call == self.messages@.len()
            &&& forall|i: int| 0 <= i < self.next_call ==> answers(#[trigger] self.messages@[self.results_start@ + i]@, self.pending@[i]@)
        }
    }

    /// The states that the agent's operations can produce: the step count stays
    /// within the limit until the question is finished, and the next tool call
    /// lies within the pending calls.
    pub open spec fn bounded(m: AgentModel) -> bool {
        &&& m.phase != AgentPhase::Finished ==> m.step <= MAX_STEPS as nat
        &&& m.next_call <= m.pending.len()
        &&& m.phase == AgentPhase::AwaitingTool ==> m.next_call < m.pending.len()
    }

    /// Starts on a question: the conversation holds the instructions and the question.
    pub fn new(question: String) -> (r: AgentLoop)
        ensures
            r.wf(),
            r@.messages == seq![MessageModel::System { content: system_prompt_text() }, MessageModel::User { content: question@ }],
            r@.step == 0,
            r@.last_signature is None,
            r@.pending.len() == 0,
            r@.next_call == 0,
            r@.phase == AgentPhase::Ready,
    {
        let messages = vec![Message::System { content: build_system_prompt() }, Message::User { content: question }];
        let r = AgentLoop {
            messages,
            step: 0,
            last_tool_signature: None,
            pending: Vec::new(),
            next_call: 0,
            phase: AgentPhase::Ready,
            results_start: Ghost(0),
        };
        proof {
            assert(r@.messages =~= seq![MessageModel::System { content: system_prompt_text() }, MessageModel::User { content: question@ }]);
            assert(r@.pending =~= Seq::<ToolCallModel>::empty());
        }
        r
    }

    /// The conversation so far, to send to the model.
    pub fn messages(&self) -> (r: &Vec<Message>)
        ensures
            r@.map_values(|m: Message| m@) == self@.messages,
    {
        &self.messages
    }

    pub fn phase(&self) -> (r: AgentPhase)
        ensures
            r == self@.phase,
    {
        self.phase
    }

    pub fn is_finished(&self) -> (r: bool)
        ensures
            r == (self@.phase == AgentPhase::Finished),
    {
        self.phase == AgentPhase::Finished
    }

    /// Counts one more request to the model. Past the limit the agent gives up with
    /// an error instead, and the model is not asked again.
    pub fn begin_step(&mut self) -> (r: Option<AgentEvent>)
        requires
            old(self).wf(),
            old(self)@.phase == AgentPhase::Ready,
        ensures
            final(self).wf(),
            final(self)@.messages == old(self)@.messages,
            final(self)@.last_signature == old(self)@.last_signature,
            old(self)@.step + 1 > MAX_STEPS ==> {
                &&& r matches Some(e) && e@ == AgentEventModel::LlmError(step_limit_error())
                &&& final(self)@.phase == AgentPhase::Finished
            },
            old(self)@.step + 1 <= MAX_STEPS ==> {
                &&& r is None
                &&& final(self)@.step == old(self)@.step + 1
                &&& final(self)@.phase == AgentPhase::Asking
            },
            Self::bounded(final(self)@),
            agent_move(old(self)@, final(self)@),
            final(self)@.phase == AgentPhase::Finished ==> (r matches Some(e) && ends_run(seq![e@])),
    {
        if self.step + 1 > MAX_STEPS {
            self.phase = AgentPhase::Finished;
            proof {
                reveal_strlit("达到最大步数限制 (15)，请简化问题或分步提问");
            }
            return Some(AgentEvent::LlmError("达到最大步数限制 (15)，请简化问题或分步提问".to_string()));
        }
        self.step = self.step + 1;
        self.phase = AgentPhase::Asking;
        None
    }

    /// Takes the model's reply. An error, or a reply without tool calls, ends the
    /// question. Otherwise the reply's tool calls become the pending work; a batch
    /// identical to the previous one draws a warning, and from step 6 on the model is
    /// reminded to answer.
    pub fn on_reply(&mut self, reply: Result<AssistantResponse, String>) -> (events: Vec<AgentEvent>)
        requires
            old(self).wf(),
            old(self)@.phase == AgentPhase::Asking,
        ensures
            final(self).wf(),
            final(self)@.step == old(self)@.step,
            Self::bounded(final(self)@),
            agent_move(old(self)@, final(self)@),
            final(self)@.phase == AgentPhase::Finished ==> ends_run(events@.map_values(|v: AgentEvent| v@)),
            match reply {
                Err(e) => {
                    &&& events@.map_values(|v: AgentEvent| v@) == seq![AgentEventModel::LlmError(e@)]
                    &&& final(self)@.messages == old(self)@.messages
                    &&& final(self)@.phase == AgentPhase::Finished
                },
                Ok(resp) => {
                    let msg = reply_message(resp@);
                    &&& events@.map_values(|v: AgentEvent| v@) == seq![AgentEventModel::LlmDone]
                    &&& resp@.tool_calls.len() == 0 ==> {
                        &&& final(self)@.messages == old(self)@.messages.push(msg)
                        &&& final(self)@.phase == AgentPhase::Finished
                    }
                    &&& resp@.tool_calls.len() > 0 ==> {
                        let calls = reply_calls(resp@);
                        let sig = call_signature(calls);
                        let warned = if old(self)@.last_signature == Some(sig) {
                            seq![MessageModel::System { content: repeat_warning() }]
                        } else {
                            Seq::empty()
                        };
                        let nudged = if old(self)@.step >= NUDGE_STEP {
                            seq![MessageModel::System { content: nudge_text(old(self)@.step) }]
                        } else {
                            Seq::empty()
                        };
                        &&& final(self)@.messages == old(self)@.messages.push(msg) + warned + nudged
                        &&& final(self)@.last_signature == Some(sig)
                        &&& final(self)@.pending == calls
                        &&& final(self)@.next_call == 0
                        &&& final(self)@.phase == AgentPhase::RunningTools
                    }
                },
            },
    {
        match reply {
            Err(e) => {
                self.phase = AgentPhase::Finished;
                let events = vec![AgentEvent::LlmError(e)];
                proof {
                    assert(events@.map_values(|v: AgentEvent| v@) =~= seq![AgentEventModel::LlmError(e@)]);
                }
                events
            },
            Ok(resp) => {
                let ghost rm = resp@;
                let has_tool_calls = resp.has_tool_calls();
                let msg = resp.into_message();
                let events = vec![AgentEvent::LlmDone];
                proof {
                    assert(events@.map_values(|v: AgentEvent| v@) =~= seq![AgentEventModel::LlmDone]);
                }
                if !has_tool_calls {
                    self.messages.push(msg);
                    self.phase = AgentPhase::Finished;
                    proof {
                        assert(self@.messages =~= old(self)@.messages.push(reply_message(rm)));
                    }
                    return events;
                }
                let calls = match &msg {
                    Message::Assistant { tool_calls: Some(tcs), .. } => copy_tool_calls(tcs),
                    _ => Vec::new(),
                };
                assert(tool_calls_model(calls@) == reply_calls(rm));
                self.messages.push(msg);
                let ghost after_reply = self@.messages;
                proof {
                    assert(after_reply =~= old(self)@.messages.push(reply_message(rm)));
                }
                let sig = signature(&calls);
                let repeated = match &self.last_tool_signature {
                    Some(last) => *last == sig,
                    None => false,
                };
                if repeated {
                    proof {
                        reveal_strlit("系统提示：你正在重复相同的工具调用。请根据已有数据直接给出最终回答，不要再调用工具。");
                    }
                    self.messages.push(Message::System {
                        content: "系统提示：你正在重复相同的工具调用。请根据已有数据直接给出最终回答，不要再调用工具。".to_string(),
                    });
                }
                let ghost after_warning = self@.messages;
                proof {
                    if repeated {
                        assert(after_warning =~= after_reply + seq![MessageModel::System { content: repeat_warning() }]);
                    } else {
                        assert(after_warning =~= after_reply + Seq::<MessageModel>::empty());
                    }
                }
                self.last_tool_signature = Some(sig);
                if self.step >= NUDGE_STEP {
                    let mut text = cat2("系统提示：已执行 ", decimal_text(self.step as u64).as_str());
                    text.append(" 步操作。请综合已有结果，直接给出最终回答。");
                    proof {
                        assert(text@ =~= nudge_text(self.step as nat));
                    }
                    self.messages.push(Message::System { content: text });
                }
                proof {
                    if self.step >= NUDGE_STEP {
                        assert(self@.messages =~= after_warning + seq![MessageModel::System { content: nudge_text(old(self)@.step) }]);
                    } else {
                        assert(self@.messages =~= after_warning + Seq::<MessageModel>::empty());
                    }
                }
                self.results_start = Ghost(self.messages@.len() as nat);
                self.pending = calls;
                self.next_call = 0;
                self.phase = AgentPhase::RunningTools;
                events
            },
        }
    }

    /// Moves to the next pending tool call. A registered tool is handed out to be
    /// run; a call of an unknown tool is answered with an error at once; when every
    /// call is answered, the model may be asked again. At that point the last
    /// messages answer the calls one by one, in order.
    pub fn next_tool(&mut self, registry: &ToolRegistry) -> (r: ToolStep)
        requires
            old(self).wf(),
            old(self)@.phase == AgentPhase::RunningTools,
        ensures
            final(self).wf(),
            Self::bounded(final(self)@),
            agent_move(old(self)@, final(self)@),
            final(self)@.phase != AgentPhase::Finished,
            final(self)@.step == old(self)@.step,
            final(self)@.last_signature == old(self)@.last_signature,
            final(self)@.pending == old(self)@.pending,
            old(self)@.next_call < old(self)@.pending.len() ==> {
                let tc = old(self)@.pending[old(self)@.next_call as int];
                &&& registry@.contains_key(tc.name) ==> {
                    &&& r matches ToolStep::Run { tool, arguments } && tool == registry@[tc.name] && arguments.model() == tc.arguments
                    &&& final(self)@.messages == old(self)@.messages
                    &&& final(self)@.next_call == old(self)@.next_call
                    &&& final(self)@.phase == AgentPhase::AwaitingTool
                }
                &&& !registry@.contains_key(tc.name) ==> {
                    &&& r matches ToolStep::Recorded(e) && e@ == result_event(tc, unknown_tool_text(tc.name), true)
                    &&& final(self)@.messages == old(self)@.messages.push(result_message(tc, unknown_tool_text(tc.name), true))
                    &&& final(self)@.next_call == old(self)@.next_call + 1
                    &&& final(self)@.phase == AgentPhase::RunningTools
                }
            },
            old(self)@.next_call == old(self)@.pending.len() ==> {
                let n = old(self)@.pending.len();
                let msgs = final(self)@.messages;
                &&& r matches ToolStep::AllDone(e) && e@ == AgentEventModel::LlmStreamStart
                &&& msgs == old(self)@.messages
                &&& final(self)@.phase == AgentPhase::Ready
                &&& n <= msgs.len()
                &&& forall|i: int| 0 <= i < n ==> answers(#[trigger] msgs[msgs.len() - n + i], old(self)@.pending[i])
            },
    {
        if self.next_call < self.pending.len() {
            let i = self.next_call;
            match registry.get(self.pending[i].name.as_str()) {
                Some(tool) => {
                    let arguments = self.pending[i].arguments.copy();
                    self.phase = AgentPhase::AwaitingTool;
                    ToolStep::Run { tool: *tool, arguments }
                },
                None => {
                    let name = self.pending[i].name.clone();
                    let content = cat2("未知工具: ", name.as_str());
                    let event = AgentEvent::ToolCallResult {
                        id: self.pending[i].id.clone(),
                        name: self.pending[i].name.clone(),
                        result: content.clone(),
                        is_error: true,
                    };
                    self.messages.push(Message::ToolResult {
                        tool_call_id: self.pending[i].id.clone(),
                        name,
                        content,
                        is_error: true,
                    });
                    self.next_call = i + 1;
                    proof {
                        assert(self@.messages =~= old(self)@.messages.push(result_message(old(self)@.pending[i as int], unknown_tool_text(old(self)@.pending[i as int].name), true)));
                        assert forall|j: int| 0 <= j < self.next_call implies answers(#[trigger] self.messages@[self.results_start@ + j]@, self.pending@[j]@) by {
                            if j < i {
                                assert(self.messages@[self.results_start@ + j] == old(self).messages@[self.results_start@ + j]);
                            }
                        }
                    }
                    ToolStep::Recorded(event)
                },
            }
        } else {
            self.phase = AgentPhase::Ready;
            proof {
                let n = self@.pending.len();
                let msgs = self@.messages;
                assert forall|j: int| 0 <= j < n implies answers(#[trigger] msgs[msgs.len() - n + j], self@.pending[j]) by {
                    assert(self.messages@[old(self).results_start@ + j]@ == msgs[msgs.len() - n + j]);
                }
            }
            ToolStep::AllDone(AgentEvent::LlmStreamStart)
        }
    }

    /// Records the outcome of the tool that `next_tool` handed out: its output, or
    /// its error prefixed by `工具执行失败: `.
    pub fn tool_finished(&mut self, outcome: Result<String, String>) -> (r: AgentEvent)
        requires
            old(self).wf(),
            old(self)@.phase == AgentPhase::AwaitingTool,
        ensures
            final(self).wf(),
            Self::bounded(final(self)@),
            agent_move(old(self)@, final(self)@),
            final(self)@.step == old(self)@.step,
            final(self)@.last_signature == old(self)@.last_signature,
            final(self)@.pending == old(self)@.pending,
            final(self)@.next_call == old(self)@.next_call + 1,
            final(self)@.phase == AgentPhase::RunningTools,
            ({
                let tc = old(self)@.pending[old(self)@.next_call as int];
                let (content, is_error) = match outcome {
                    Ok(o) => (o@, false),
                    Err(e) => (tool_failed_text(e@), true),
                };
                &&& r@ == result_event(tc, content, is_error)
                &&& final(self)@.messages == old(self)@.messages.push(result_message(tc, content, is_error))
            }),
    {
        let i = self.next_call;
        let n = self.pending.len();
        assert(i < n);
        let (content, is_error) = match outcome {
            Ok(o) => (o, false),
            Err(e) => (cat2("工具执行失败: ", e.as_str()), true),
        };
        let event = AgentEvent::ToolCallResult {
            id: self.pending[i].id.clone(),
            name: self.pending[i].name.clone(),
            result: content.clone(),
            is_error,
        };
        self.messages.push(Message::ToolResult {
            tool_call_id: self.pending[i].id.clone(),
            name: self.pending[i].name.clone(),
            content,
            is_error,
        });
        self.next_call = i + 1;
        self.phase = AgentPhase::RunningTools;
        proof {
            assert forall|j: int| 0 <= j < self.next_call implies answers(#[trigger] self.messages@[self.results_start@ + j]@, self.pending@[j]@) by {
                if j < i {
                    assert(self.messages@[self.results_start@ + j] == old(self).messages@[self.results_start@ + j]);
                }
            }
        }
        event
    }
}

/// Whether the events that end a run end it with the answer or with an error.
pub open spec fn ends_run(events: Seq<AgentEventModel>) -> bool {
    events.len() > 0 && (events.last() is LlmDone || events.last() is LlmError)
}

/// One move of the agent from `a` to `b`, as each of its operations makes it: nothing
/// moves once the question is finished; the conversation only grows; a request to the
/// model (a move into `Asking`) comes from `Ready` and counts one more step, and no
/// other move changes the count; the count stays within the limit.
pub open spec fn agent_move(a: AgentModel, b: AgentModel) -> bool {
    &&& a.phase != AgentPhase::Finished
    &&& a.messages.is_prefix_of(b.messages)
    &&& b.phase == AgentPhase::Asking ==> a.phase == AgentPhase::Ready && b.step == a.step + 1
    &&& b.phase != AgentPhase::Asking ==> b.step == a.step
    &&& b.step <= MAX_STEPS
}

/// The number of requests to the model along a run: the moves into `Asking`.
pub open spec fn requests(run: Seq<AgentModel>) -> nat
    decreases run.len(),
{
    if run.len() <= 1 {
        0
    } else {
        requests(run.drop_last()) + if run.last().phase == AgentPhase::Asking { 1nat } else { 0nat }
    }
}

/// Over a run of the agent on a new question, each state's conversation extends that of
/// every earlier state, and the model is asked as many times as the step count says,
/// never more than `MAX_STEPS` times.
pub proof fn lemma_agent_run(run: Seq<AgentModel>)
    requires
        run.len() > 0,
        run[0].step == 0,
        run[0].phase == AgentPhase::Ready,
        forall|i: int| 0 <= i < run.len() - 1 ==> agent_move(#[trigger] run[i], run[i + 1]),
    ensures
        forall|i: int, j: int| 0 <= i <= j < run.len() ==> run[i].messages.is_prefix_of(run[j].messages),
        requests(run) == run.last().step,
        requests(run) <= MAX_STEPS,
    decreases run.len(),
{
    if run.len() > 1 {
        let prefix = run.drop_last();
        assert forall|i: int| 0 <= i < prefix.len() - 1 implies agent_move(#[trigger] prefix[i], prefix[i + 1]) by {
            assert(prefix[i] == run[i] && prefix[i + 1] == run[i + 1]);
            assert(agent_move(run[i], run[i + 1]));
        }
        lemma_agent_run(prefix);
        let n = run.len() - 1;
        assert(agent_move(run[n - 1], run[n]));
        assert forall|i: int, j: int| 0 <= i <= j < run.len() implies run[i].messages.is_prefix_of(run[j].messages) by {
            if j < n {
                assert(prefix[i] == run[i] && prefix[j] == run[j]);
            } else if i < n {
                assert(prefix[i] == run[i] && prefix[n - 1] == run[n - 1]);
                assert(run[i].messages.is_prefix_of(run[n - 1].messages));
                assert(run[i].messages =~= run[j].messages.subrange(0, run[i].messages.len() as int));
            }
        }
    }
}

/// The signature of a single tool call is its name, a colon and the text of its
/// arguments; a longer batch adds each further call after a `|`.
pub proof fn lemma_signature_of_calls(calls: Seq<ToolCallModel>, tc: ToolCallModel)
    ensures
        call_signature(seq![tc]) == tc.name + ":"@ + json_text_of(tc.arguments),
        calls.len() > 0 ==> call_signature(calls.push(tc)) == call_signature(calls) + "|"@ + (tc.name + ":"@ + json_text_of(tc.arguments)),
{
    let f = |c: ToolCallModel| c.name + ":"@ + json_text_of(c.arguments);
    assert(seq![tc].map_values(f) =~= seq![f(tc)]);
    if calls.len() > 0 {
        assert(calls.push(tc).map_values(f).drop_last() =~= calls.map_values(f));
        assert(calls.push(tc).map_values(f).last() == f(tc));
    }
}

/// Two calls of the same tool whose arguments read differently have different
/// signatures, so asking the same tool a new thing is no repeat.
pub proof fn lemma_signature_tells_arguments_apart(a: ToolCallModel, b: ToolCallModel)
    requires
        a.name == b.name,
        json_text_of(a.arguments) != json_text_of(b.arguments),
    ensures
        call_signature(seq![a]) != call_signature(seq![b]),
{
    lemma_signature_of_calls(Seq::empty(), a);
    lemma_signature_of_calls(Seq::empty(), b);
    let pa = a.name + ":"@;
    let pb = b.name + ":"@;
    assert(call_signature(seq![a]).subrange(pa.len() as int, call_signature(seq![a]).len() as int) =~= json_text_of(a.arguments));
    assert(call_signature(seq![b]).subrange(pb.len() as int, call_signature(seq![b]).len() as int) =~= json_text_of(b.arguments));
}

} // verus!
