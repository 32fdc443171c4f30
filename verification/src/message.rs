use vstd::prelude::*;

use crate::json::{fields_model, items_model, json_text, json_text_of, lemma_fields_model, lemma_items_model, parse_json, parsed_json, Json, JsonModel};

verus! {

/// One call of a tool that the model asked for.
#[derive(Debug)]
pub struct ToolCall {
    pub id: String,
    pub name: String,
    pub arguments: Json,
}

/// A structured message of an agent conversation.
#[derive(Debug)]
#[allow(inconsistent_fields)]
pub enum Message {
    System { content: String },
    User { content: String },
    Assistant { content: Option<String>, tool_calls: Option<Vec<ToolCall>> },
    ToolResult { tool_call_id: String, name: String, content: String, is_error: bool },
}

/// The assistant reply gathered from a streamed answer.
#[derive(Debug)]
pub struct AssistantResponse {
    pub content: Option<String>,
    pub tool_calls: Vec<StreamingToolCall>,
}

/// A tool call being received piece by piece; `arguments` is the text gathered so far.
#[derive(Debug)]
pub struct StreamingToolCall {
    pub id: String,
    pub name: String,
    pub arguments: String,
}

pub struct ToolCallModel {
    pub id: Seq<char>,
    pub name: Seq<char>,
    pub arguments: JsonModel,
}

#[allow(inconsistent_fields)]
pub enum MessageModel {
    System { content: Seq<char> },
    User { content: Seq<char> },
    Assistant { content: Option<Seq<char>>, tool_calls: Option<Seq<ToolCallModel>> },
    ToolResult { tool_call_id: Seq<char>, name: Seq<char>, content: Seq<char>, is_error: bool },
}

pub struct StreamingToolCallModel {
    pub id: Seq<char>,
    pub name: Seq<char>,
    pub arguments: Seq<char>,
}

pub struct AssistantResponseModel {
    pub content: Option<Seq<char>>,
    pub tool_calls: Seq<StreamingToolCallModel>,
}

impl View for ToolCall {
    type V = ToolCallModel;

    open spec fn view(&self) -> ToolCallModel {
        ToolCallModel { id: self.id@, name: self.name@, arguments: self.arguments.model() }
    }
}

pub open spec fn opt_text(s: Option<String>) -> Option<Seq<char>> {
    match s {
        Some(t) => Some(t@),
        None => None,
    }
}

pub open spec fn tool_calls_model(tcs: Seq<ToolCall>) -> Seq<ToolCallModel> {
    tcs.map_values(|tc: ToolCall| tc@)
}

impl View for Message {
    type V = MessageModel;

    open spec fn view(&self) -> MessageModel {
        match self {
            Message::System { content } => MessageModel::System { content: content@ },
            Message::User { content } => MessageModel::User { content: content@ },
            Message::Assistant { content, tool_calls } => MessageModel::Assistant {
                content: opt_text(*content),
                tool_calls: match tool_calls {
                    Some(v) => Some(tool_calls_model(v@)),
                    None => None,
                },
            },
            Message::ToolResult { tool_call_id, name, content, is_error } => MessageModel::ToolResult {
                tool_call_id: tool_call_id@,
                name: name@,
                content: content@,
                is_error: *is_error,
            },
        }
    }
}

impl View for StreamingToolCall {
    type V = StreamingToolCallModel;

    open spec fn view(&self) -> StreamingToolCallModel {
        StreamingToolCallModel { id: self.id@, name: self.name@, arguments: self.arguments@ }
    }
}

impl View for AssistantResponse {
    type V = AssistantResponseModel;

    open spec fn view(&self) -> AssistantResponseModel {
        AssistantResponseModel {
            content: opt_text(self.content),
            tool_calls: self.tool_calls@.map_values(|tc: StreamingToolCall| tc@),
        }
    }
}

/// The arguments of a tool call read as JSON; `null` when the text is not JSON.
pub open spec fn arguments_value(text: Seq<char>) -> JsonModel {
    match parsed_json(text) {
        Some(doc) => doc,
        None => JsonModel::Null,
    }
}

/// The finished tool call that a streamed one becomes.
pub open spec fn finished_call(tc: StreamingToolCallModel) -> ToolCallModel {
    ToolCallModel { id: tc.id, name: tc.name, arguments: arguments_value(tc.arguments) }
}

/// The conversation message that an assistant reply becomes: its text, and its tool
/// calls unless there are none.
pub open spec fn reply_message(r: AssistantResponseModel) -> MessageModel {
    MessageModel::Assistant {
        content: r.content,
        tool_calls: if r.tool_calls.len() == 0 {
            None
        } else {
            Some(r.tool_calls.map_values(|tc: StreamingToolCallModel| finished_call(tc)))
        },
    }
}

impl StreamingToolCall {
    /// The gathered arguments read as JSON, or `null` when they are not JSON.
    pub fn parse_arguments(&self) -> (r: Json)
        ensures
            r.model() == arguments_value(self.arguments@),
    {
        match parse_json(self.arguments.as_str()) {
            Some(doc) => doc,
            None => Json::Null,
        }
    }
}

impl AssistantResponse {
    pub fn has_tool_calls(&self) -> (r: bool)
        ensures
            r == (self.tool_calls.len() > 0),
    {
        self.tool_calls.len() > 0
    }

    /// The message to append to the conversation for this reply.
    pub fn into_message(self) -> (m: Message)
        ensures
            m@ == reply_message(self@),
    {
        let ghost old_self = self@;
        let AssistantResponse { content, tool_calls } = self;
        if tool_calls.len() == 0 {
            Message::Assistant { content, tool_calls: None }
        } else {
            let mut out: Vec<ToolCall> = Vec::new();
            let mut i: usize = 0;
            while i < tool_calls.len()
                invariant
                    i <= tool_calls.len(),
                    out.len() == i,
                    forall|j: int| 0 <= j < i ==> (#[trigger] out@[j])@ == finished_call(tool_calls@[j]@),
                decreases tool_calls.len() - i,
            {
                let tc = &tool_calls[i];
                let arguments = tc.parse_arguments();
                out.push(ToolCall { id: tc.id.clone(), name: tc.name.clone(), arguments });
                i = i + 1;
            }
            let m = Message::Assistant { content, tool_calls: Some(out) };
            assert(tool_calls_model(out@) =~= old_self.tool_calls.map_values(|tc: StreamingToolCallModel| finished_call(tc)));
            m
        }
    }
}

} // verus!

verus! {

/// A JSON string.
pub open spec fn jstr(s: Seq<char>) -> JsonModel {
    JsonModel::Str(s)
}

/// How one tool call is written in an API request.
pub open spec fn tool_call_api(tc: ToolCallModel) -> JsonModel {
    JsonModel::Object(
        seq![
            ("id"@, jstr(tc.id)),
            ("type"@, jstr("function"@)),
            (
                "function"@,
                JsonModel::Object(
                    seq![("name"@, jstr(tc.name)), ("arguments"@, jstr(json_text_of(tc.arguments)))],
                ),
            ),
        ],
    )
}

/// How one conversation message is written in an OpenAI-style chat request.
pub open spec fn message_api(m: MessageModel) -> JsonModel {
    match m {
        MessageModel::System { content } => JsonModel::Object(seq![("role"@, jstr("system"@)), ("content"@, jstr(content))]),
        MessageModel::User { content } => JsonModel::Object(seq![("role"@, jstr("user"@)), ("content"@, jstr(content))]),
        MessageModel::Assistant { content, tool_calls } => {
            let base = seq![
                ("role"@, jstr("assistant"@)),
                ("content"@, match content { Some(c) => jstr(c), None => JsonModel::Null }),
            ];
            JsonModel::Object(
                match tool_calls {
                    Some(tcs) => base.push(("tool_calls"@, JsonModel::Array(tcs.map_values(|tc: ToolCallModel| tool_call_api(tc))))),
                    None => base,
                },
            )
        },
        MessageModel::ToolResult { tool_call_id, name, content, is_error } => {
            let base = seq![("role"@, jstr("tool"@)), ("tool_call_id"@, jstr(tool_call_id)), ("content"@, jstr(content))];
            JsonModel::Object(if is_error { base.push(("is_error"@, JsonModel::Bool(true))) } else { base })
        },
    }
}

/// A JSON string holding a copy of `s`.
pub fn json_str(s: &str) -> (r: Json)
    ensures
        r.model() == jstr(s@),
{
    Json::Str(s.to_string())
}

fn key(k: &str, v: Json) -> (r: (String, Json))
    ensures
        r.0@ == k@,
        r.1 == v,
{
    (k.to_string(), v)
}

fn tool_call_to_api(tc: &ToolCall) -> (r: Json)
    ensures
        r.model() == tool_call_api(tc@),
{
    let function = vec![key("name", json_str(tc.name.as_str())), key("arguments", Json::Str(json_text(&tc.arguments)))];
    let fields = vec![key("id", json_str(tc.id.as_str())), key("type", json_str("function")), key("function", Json::Object(function))];
    let r = Json::Object(fields);
    proof {
        lemma_fields_model(function@);
        lemma_fields_model(fields@);
        assert(fields_model(function@) =~= seq![("name"@, jstr(tc.name@)), ("arguments"@, jstr(json_text_of(tc.arguments.model())))]);
        assert(fields_model(fields@) =~= tool_call_api(tc@)->Object_0);
    }
    r
}

fn message_to_api(m: &Message) -> (r: Json)
    ensures
        r.model() == message_api(m@),
{
    match m {
        Message::System { content } => {
            let fields = vec![key("role", json_str("system")), key("content", json_str(content.as_str()))];
            proof {
                lemma_fields_model(fields@);
                assert(fields_model(fields@) =~= message_api(m@)->Object_0);
            }
            Json::Object(fields)
        },
        Message::User { content } => {
            let fields = vec![key("role", json_str("user")), key("content", json_str(content.as_str()))];
            proof {
                lemma_fields_model(fields@);
                assert(fields_model(fields@) =~= message_api(m@)->Object_0);
            }
            Json::Object(fields)
        },
        Message::Assistant { content, tool_calls } => {
            let c = match content {
                Some(c) => json_str(c.as_str()),
                None => Json::Null,
            };
            let mut fields = vec![key("role", json_str("assistant")), key("content", c)];
            match tool_calls {
                Some(tcs) => {
                    let mut items: Vec<Json> = Vec::new();
                    let mut i: usize = 0;
                    while i < tcs.len()
                        invariant
                            i <= tcs.len(),
                            items.len() == i,
                            forall|j: int| 0 <= j < i ==> (#[trigger] items@[j]).model() == tool_call_api(tcs@[j]@),
                        decreases tcs.len() - i,
                    {
                        items.push(tool_call_to_api(&tcs[i]));
                        i = i + 1;
                    }
                    proof {
                        lemma_items_model(items@);
                        assert(items_model(items@) =~= tool_calls_model(tcs@).map_values(|tc: ToolCallModel| tool_call_api(tc)));
                    }
                    fields.push(key("tool_calls", Json::Array(items)));
                },
                None => {},
            }
            proof {
                lemma_fields_model(fields@);
                assert(fields_model(fields@) =~= message_api(m@)->Object_0);
            }
            Json::Object(fields)
        },
        Message::ToolResult { tool_call_id, name: _, content, is_error } => {
            let mut fields = vec![
                key("role", json_str("tool")),
                key("tool_call_id", json_str(tool_call_id.as_str())),
                key("content", json_str(content.as_str())),
            ];
            if *is_error {
                fields.push(key("is_error", Json::Bool(true)));
            }
            proof {
                lemma_fields_model(fields@);
                assert(fields_model(fields@) =~= message_api(m@)->Object_0);
            }
            Json::Object(fields)
        },
    }
}

/// The conversation written as the `messages` array of an OpenAI-style chat request.
pub fn messages_to_api(messages: &[Message]) -> (r: Vec<Json>)
    ensures
        r.len() == messages@.len(),
        forall|i: int| 0 <= i < messages@.len() ==> (#[trigger] r@[i]).model() == message_api(messages@[i]@),
{
    let mut out: Vec<Json> = Vec::new();
    let mut i: usize = 0;
    while i < messages.len()
        invariant
            i <= messages@.len(),
            out.len() == i,
            forall|j: int| 0 <= j < i ==> (#[trigger] out@[j]).model() == message_api(messages@[j]@),
        decreases messages@.len() - i,
    {
        out.push(message_to_api(&messages[i]));
        i = i + 1;
    }
    out
}

} // verus!

verus! {

impl ToolCall {
    /// A copy of the tool call.
    pub fn copy(&self) -> (r: ToolCall)
        ensures
            r@ == self@,
    {
        ToolCall { id: self.id.clone(), name: self.name.clone(), arguments: self.arguments.copy() }
    }
}

/// Copies of a list of tool calls.
pub fn copy_tool_calls(tcs: &Vec<ToolCall>) -> (r: Vec<ToolCall>)
    ensures
        tool_calls_model(r@) == tool_calls_model(tcs@),
{
    let mut out: Vec<ToolCall> = Vec::new();
    let mut i: usize = 0;
    while i < tcs.len()
        invariant
            i <= tcs.len(),
            out.len() == i,
            forall|j: int| 0 <= j < i ==> (#[trigger] out@[j])@ == tcs@[j]@,
        decreases tcs.len() - i,
    {
        out.push(tcs[i].copy());
        i = i + 1;
    }
    assert(tool_calls_model(out@) =~= tool_calls_model(tcs@));
    out
}

} // verus!
