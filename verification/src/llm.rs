use vstd::prelude::*;

use crate::json::{fields_model, items_model, lemma_fields_model, lemma_items_model, Json, JsonModel};
use crate::message::{jstr, json_str, message_api, messages_to_api, Message};
use crate::text::{cat2, trim_end_char, trim_end_matches};

verus! {

broadcast use vstd::string::group_string_axioms;

/// Talks to an OpenAI-compatible chat completion service.
pub struct LlmClient {
    model: String,
    api_key: String,
    api_base: String,
}

/// The body of a streamed chat request: the model, the conversation, and the tools
/// with automatic tool choice when there are any.
pub open spec fn request_body_model(model: Seq<char>, messages: Seq<Message>, tools: Seq<JsonModel>) -> JsonModel {
    let base = seq![
        ("model"@, jstr(model)),
        ("messages"@, JsonModel::Array(messages.map_values(|m: Message| message_api(m@)))),
        ("stream"@, JsonModel::Bool(true)),
    ];
    JsonModel::Object(
        if tools.len() > 0 {
            base + seq![("tools"@, JsonModel::Array(tools)), ("tool_choice"@, jstr("auto"@))]
        } else {
            base
        },
    )
}

/// The SQL of a model's answer, as `extract_sql` takes it.
pub open spec fn extract_sql_of(s: Seq<char>) -> Seq<char> {
    match crate::text::first_match(s, "```sql"@) {
        Some(i) => {
            let rest = s.skip(i + "```sql"@.len());
            match crate::text::first_match(rest, "```"@) {
                Some(j) => crate::text::trim_of(rest.take(j)),
                None => crate::text::trim_of(rest),
            }
        },
        None => crate::text::trim_of(s),
    }
}

/// Whether extracted SQL is worth running: not empty, and not a `--` comment that
/// explains why no SQL was written.
pub open spec fn runnable_sql(q: Seq<char>) -> bool {
    q.len() > 0 && !"--"@.is_prefix_of(q)
}

impl LlmClient {
    pub closed spec fn spec_model(&self) -> Seq<char> {
        self.model@
    }

    pub closed spec fn spec_api_key(&self) -> Seq<char> {
        self.api_key@
    }

    pub closed spec fn spec_api_base(&self) -> Seq<char> {
        self.api_base@
    }

    /// A client for `model` at `api_base`, authenticated with `api_key`.
    pub fn new(model: String, api_key: String, api_base: String) -> (r: LlmClient)
        ensures
            r.spec_model() == model@,
            r.spec_api_key() == api_key@,
            r.spec_api_base() == api_base@,
    {
        LlmClient { model, api_key, api_base }
    }

    /// The address of the chat completion endpoint: the base without trailing `/`,
    /// then `/chat/completions`.
    pub fn chat_url(&self) -> (r: String)
        ensures
            r@ == trim_end_char(self.spec_api_base(), '/') + "/chat/completions"@,
    {
        cat2(trim_end_matches(self.api_base.as_str(), '/'), "/chat/completions")
    }

    /// The SQL of a model's answer: the text of its first ```` ```sql ```` block (up to the
    /// closing fence, or to the end when there is none), trimmed; an answer without such
    /// a block is taken whole, trimmed.
    pub fn extract_sql(content: &str) -> (r: String)
        ensures
            r@ == extract_sql_of(content@),
    {
        match crate::text::find_text(content, "```sql") {
            Some(i) => {
                proof {
                    reveal_strlit("```sql");
                }
                let n = content.unicode_len();
                let rest = content.substring_char(i + 6, n);
                match crate::text::find_text(rest, "```") {
                    Some(j) => crate::text::owned(crate::text::trim(rest.substring_char(0, j))),
                    None => crate::text::owned(crate::text::trim(rest)),
                }
            },
            None => crate::text::owned(crate::text::trim(content)),
        }
    }

    /// Whether extracted SQL is worth running.
    pub fn is_runnable_sql(q: &str) -> (r: bool)
        ensures
            r == runnable_sql(q@),
    {
        q.unicode_len() > 0 && !crate::text::starts_with(q, "--")
    }

    /// The value of the `Authorization` header.
    pub fn auth_header(&self) -> (r: String)
        ensures
            r@ == "Bearer "@ + self.spec_api_key(),
    {
        cat2("Bearer ", self.api_key.as_str())
    }

    /// The JSON body of a streamed request for the conversation and tools.
    pub fn request_body(&self, messages: &[Message], tools: &[Json]) -> (r: Json)
        ensures
            r.model() == request_body_model(self.spec_model(), messages@, tools@.map_values(|t: Json| t.model())),
    {
        let api = messages_to_api(messages);
        let mut tool_items: Vec<Json> = Vec::new();
        let mut i: usize = 0;
        while i < tools.len()
            invariant
                i <= tools@.len(),
                tool_items.len() == i,
                forall|j: int| 0 <= j < i ==> (#[trigger] tool_items@[j]).model() == tools@[j].model(),
            decreases tools@.len() - i,
        {
            tool_items.push(tools[i].copy());
            i = i + 1;
        }
        let has_tools = tools.len() > 0;
        let ghost api_view = api@;
        let mut fields = vec![
            ("model".to_string(), json_str(self.model.as_str())),
            ("messages".to_string(), Json::Array(api)),
            ("stream".to_string(), Json::Bool(true)),
        ];
        let ghost tool_view = tool_items@;
        if has_tools {
            fields.push(("tools".to_string(), Json::Array(tool_items)));
            fields.push(("tool_choice".to_string(), json_str("auto")));
        }
        proof {
            lemma_items_model(api_view);
            lemma_items_model(tool_view);
            assert(items_model(api_view) =~= messages@.map_values(|m: Message| message_api(m@)));
            assert(items_model(tool_view) =~= tools@.map_values(|t: Json| t.model()));
            lemma_fields_model(fields@);
            assert(fields_model(fields@) =~= request_body_model(self.spec_model(), messages@, tools@.map_values(|t: Json| t.model()))->Object_0);
        }
        Json::Object(fields)
    }
}

} // verus!

verus! {

/// The payloads of the complete `data: ` lines at the front of `buf`, and what
/// remains of `buf` afterwards. Each line is taken up to its `\n` with its trailing
/// white space removed; empty lines and other lines are passed over; a
/// `data: [DONE]` line stops the reading, and what follows it stays.
pub open spec fn frame(buf: Seq<char>) -> (Seq<Seq<char>>, Seq<char>)
    decreases buf.len(),
{
    let pos = crate::text::index_of(buf, '\n');
    if 0 <= pos < buf.len() {
        let line = crate::text::trim_end_of(buf.take(pos));
        let rest = buf.skip(pos + 1);
        if line.len() == 0 {
            frame(rest)
        } else if "data: "@.is_prefix_of(line) {
            let data = line.skip(6);
            if data == "[DONE]"@ {
                (Seq::empty(), rest)
            } else {
                let (p, r) = frame(rest);
                (seq![data] + p, r)
            }
        } else {
            frame(rest)
        }
    } else {
        (Seq::empty(), buf)
    }
}

/// The text that `String::from_utf8_lossy` makes of some bytes.
pub uninterp spec fn lossy_text(bytes: Seq<u8>) -> Seq<char>;

/// `String::from_utf8_lossy`: decodes UTF-8, putting U+FFFD for what is not UTF-8.
/// Beyond naming the result, the contract states what std's documentation gives for
/// ASCII bytes, which are valid UTF-8: each byte becomes the character it encodes.
#[verifier::external_body]
pub(crate) fn utf8_lossy(bytes: &[u8]) -> (r: String)
    ensures
        r@ == lossy_text(bytes@),
        (forall|i: int| 0 <= i < bytes@.len() ==> #[trigger] bytes@[i] < 0x80) ==> {
            &&& r@.len() == bytes@.len()
            &&& forall|i: int| 0 <= i < bytes@.len() ==> (#[trigger] r@[i] as u32) == bytes@[i] as u32
        },
{
    String::from_utf8_lossy(bytes).into_owned()
}

} // verus!

verus! {

use crate::json::{model_at, model_get, opt_get, opt_str, opt_u64, opt_model, get_in, str_in, parse_json, parsed_json};
use crate::message::{AssistantResponse, AssistantResponseModel, StreamingToolCall, StreamingToolCallModel};

/// What a streamed answer asks the user interface to show, in order.
#[derive(Debug)]
pub enum StreamEvent {
    /// A piece of the model's reasoning.
    Reasoning(String),
    /// A piece of the answer text.
    Text(String),
    /// A tool call, announced when the model finishes; `args` is cut to 200 characters.
    ToolCallStarted { id: String, name: String, args: String },
}

pub enum StreamEventModel {
    Reasoning(Seq<char>),
    Text(Seq<char>),
    ToolCallStarted { id: Seq<char>, name: Seq<char>, args: Seq<char> },
}

impl View for StreamEvent {
    type V = StreamEventModel;

    open spec fn view(&self) -> StreamEventModel {
        match self {
            StreamEvent::Reasoning(t) => StreamEventModel::Reasoning(t@),
            StreamEvent::Text(t) => StreamEventModel::Text(t@),
            StreamEvent::ToolCallStarted { id, name, args } => StreamEventModel::ToolCallStarted { id: id@, name: name@, args: args@ },
        }
    }
}

pub open spec fn calls_model(v: Seq<StreamingToolCall>) -> Seq<StreamingToolCallModel> {
    v.map_values(|tc: StreamingToolCall| tc@)
}

pub open spec fn events_model(v: Seq<StreamEvent>) -> Seq<StreamEventModel> {
    v.map_values(|e: StreamEvent| e@)
}

pub open spec fn empty_call() -> StreamingToolCallModel {
    StreamingToolCallModel { id: Seq::empty(), name: Seq::empty(), arguments: Seq::empty() }
}

/// `calls` padded with empty calls to at least `n` of them.
pub open spec fn grow(calls: Seq<StreamingToolCallModel>, n: nat) -> Seq<StreamingToolCallModel> {
    if calls.len() >= n {
        calls
    } else {
        calls + Seq::new((n - calls.len()) as nat, |i: int| empty_call())
    }
}

/// The slot that a tool-call delta is for: its `index`, 0 when it has none.
pub open spec fn delta_index(d: JsonModel) -> nat {
    match opt_u64(model_get(d, "index"@)) {
        Some(u) => (u as usize) as nat,
        None => 0,
    }
}

/// A tool call after one delta: a given id or name replaces the old one, given
/// argument text is appended.
pub open spec fn merge_delta(tc: StreamingToolCallModel, d: JsonModel) -> StreamingToolCallModel {
    let f = model_get(d, "function"@);
    StreamingToolCallModel {
        id: match opt_str(model_get(d, "id"@)) {
            Some(s) => s,
            None => tc.id,
        },
        name: match opt_str(opt_get(f, "name"@)) {
            Some(s) => s,
            None => tc.name,
        },
        arguments: match opt_str(opt_get(f, "arguments"@)) {
            Some(s) => tc.arguments + s,
            None => tc.arguments,
        },
    }
}

pub open spec fn apply_tool_delta(calls: Seq<StreamingToolCallModel>, d: JsonModel) -> Seq<StreamingToolCallModel> {
    let i = delta_index(d);
    let g = grow(calls, i + 1);
    g.update(i as int, merge_delta(g[i as int], d))
}

pub open spec fn apply_tool_deltas(calls: Seq<StreamingToolCallModel>, ds: Seq<JsonModel>) -> Seq<StreamingToolCallModel>
    decreases ds.len(),
{
    if ds.len() == 0 {
        calls
    } else {
        apply_tool_delta(apply_tool_deltas(calls, ds.drop_last()), ds.last())
    }
}

/// At most 200 characters of the arguments, with `...` when some were cut.
pub open spec fn preview(args: Seq<char>) -> Seq<char> {
    if args.len() > 200 { args.take(200) + "..."@ } else { args }
}

pub open spec fn started_event(tc: StreamingToolCallModel) -> StreamEventModel {
    StreamEventModel::ToolCallStarted { id: tc.id, name: tc.name, args: preview(tc.arguments) }
}

/// `choices[0]` of a streamed chunk.
pub open spec fn first_choice(doc: JsonModel) -> Option<JsonModel> {
    match model_get(doc, "choices"@) {
        Some(c) => model_at(c, 0),
        None => None,
    }
}

pub open spec fn nonempty_text(t: Option<Seq<char>>) -> Option<Seq<char>> {
    match t {
        Some(s) => if s.len() > 0 { Some(s) } else { None },
        None => None,
    }
}

/// What one `delta` adds: reasoning and text are reported, text is appended to the
/// content, tool-call deltas are merged.
pub open spec fn apply_delta(resp: AssistantResponseModel, d: JsonModel) -> (AssistantResponseModel, Seq<StreamEventModel>) {
    let reasoning = nonempty_text(opt_str(model_get(d, "reasoning_content"@)));
    let text = nonempty_text(opt_str(model_get(d, "content"@)));
    let ev_r = match reasoning {
        Some(t) => seq![StreamEventModel::Reasoning(t)],
        None => Seq::empty(),
    };
    let ev_c = match text {
        Some(t) => seq![StreamEventModel::Text(t)],
        None => Seq::empty(),
    };
    let content = match text {
        Some(t) => Some(
            match resp.content {
                Some(c) => c,
                None => Seq::empty(),
            } + t,
        ),
        None => resp.content,
    };
    let calls = match model_get(d, "tool_calls"@) {
        Some(JsonModel::Array(items)) => apply_tool_deltas(resp.tool_calls, items),
        _ => resp.tool_calls,
    };
    (AssistantResponseModel { content, tool_calls: calls }, ev_r + ev_c)
}

/// What one `data: ` payload does: nothing unless it is JSON with a first choice;
/// then its delta is applied, and a `tool_calls` or `stop` finish reason announces
/// every tool call gathered so far.
pub open spec fn apply_payload(resp: AssistantResponseModel, data: Seq<char>) -> (AssistantResponseModel, Seq<StreamEventModel>) {
    match parsed_json(data) {
        None => (resp, Seq::empty()),
        Some(doc) => match first_choice(doc) {
            None => (resp, Seq::empty()),
            Some(choice) => {
                let (r1, ev1) = match model_get(choice, "delta"@) {
                    Some(d) => apply_delta(resp, d),
                    None => (resp, Seq::empty()),
                };
                let finish = opt_str(model_get(choice, "finish_reason"@));
                let ev2 = if finish == Some("tool_calls"@) || finish == Some("stop"@) {
                    r1.tool_calls.map_values(|tc: StreamingToolCallModel| started_event(tc))
                } else {
                    Seq::empty()
                };
                (r1, ev1 + ev2)
            },
        },
    }
}

pub open spec fn apply_payloads(resp: AssistantResponseModel, ps: Seq<Seq<char>>) -> (AssistantResponseModel, Seq<StreamEventModel>)
    decreases ps.len(),
{
    if ps.len() == 0 {
        (resp, Seq::empty())
    } else {
        let (r, e) = apply_payloads(resp, ps.drop_last());
        let (r2, e2) = apply_payload(r, ps.last());
        (r2, e + e2)
    }
}

fn empty_streaming_call() -> (r: StreamingToolCall)
    ensures
        r@ == empty_call(),
{
    StreamingToolCall { id: String::new(), name: String::new(), arguments: String::new() }
}

fn merge_tool_delta(calls: &mut Vec<StreamingToolCall>, d: &Json)
    ensures
        calls_model(final(calls)@) == apply_tool_delta(calls_model(old(calls)@), d.model()),
{
    let ghost start = calls_model(calls@);
    let index: usize = match d.get("index") {
        Some(v) => match v.as_u64() {
            Some(u) => u as usize,
            None => 0,
        },
        None => 0,
    };
    assert(index as nat == delta_index(d.model()));
    let n0 = calls.len();
    while calls.len() <= index
        invariant
            calls.len() >= n0,
            n0 == start.len(),
            forall|j: int| 0 <= j < n0 ==> (#[trigger] calls@[j])@ == start[j],
            forall|j: int| n0 <= j < calls.len() ==> (#[trigger] calls@[j])@ == empty_call(),
            calls.len() <= index + 1 || calls.len() == n0,
        decreases index + 1 - calls.len(),
    {
        calls.push(empty_streaming_call());
    }
    proof {
        assert(calls_model(calls@) =~= grow(start, index as nat + 1));
    }
    let f = d.get("function");
    let id = match str_in(d.get("id")) {
        Some(s) => s.to_string(),
        None => calls[index].id.clone(),
    };
    let name = match str_in(get_in(f, "name")) {
        Some(s) => s.to_string(),
        None => calls[index].name.clone(),
    };
    let mut arguments = calls[index].arguments.clone();
    match str_in(get_in(f, "arguments")) {
        Some(s) => arguments.append(s),
        None => {},
    }
    let ghost grown = calls_model(calls@);
    calls.set(index, StreamingToolCall { id, name, arguments });
    proof {
        assert(calls_model(calls@) =~= grown.update(index as int, merge_delta(grown[index as int], d.model())));
    }
}

fn announce_calls(calls: &Vec<StreamingToolCall>, events: &mut Vec<StreamEvent>)
    ensures
        events_model(final(events)@) == events_model(old(events)@) + calls_model(calls@).map_values(|tc: StreamingToolCallModel| started_event(tc)),
{
    let ghost start = events_model(events@);
    let mut i: usize = 0;
    while i < calls.len()
        invariant
            i <= calls.len(),
            events_model(events@) == start + calls_model(calls@).take(i as int).map_values(|tc: StreamingToolCallModel| started_event(tc)),
        decreases calls.len() - i,
    {
        let tc = &calls[i];
        let count = tc.arguments.as_str().unicode_len();
        let args = if count > 200 {
            let mut p = crate::text::prefix_chars(tc.arguments.as_str(), 200);
            p.append("...");
            p
        } else {
            tc.arguments.clone()
        };
        proof {
            assert(args@ =~= preview(tc.arguments@));
        }
        let ghost before = events_model(events@);
        events.push(StreamEvent::ToolCallStarted { id: tc.id.clone(), name: tc.name.clone(), args });
        proof {
            assert(calls_model(calls@).take(i as int + 1).map_values(|tc: StreamingToolCallModel| started_event(tc))
                =~= calls_model(calls@).take(i as int).map_values(|tc: StreamingToolCallModel| started_event(tc)).push(started_event(calls@[i as int]@)));
            assert(events_model(events@) =~= before.push(started_event(calls@[i as int]@)));
        }
        i = i + 1;
    }
    proof {
        assert(calls_model(calls@).take(calls@.len() as int) =~= calls_model(calls@));
    }
}

} // verus!

verus! {

fn merge_tool_deltas(calls: &mut Vec<StreamingToolCall>, items: &Vec<Json>)
    ensures
        calls_model(final(calls)@) == apply_tool_deltas(calls_model(old(calls)@), crate::json::items_model(items@)),
{
    proof {
        lemma_items_model(items@);
    }
    let ghost ds = items_model(items@);
    let ghost start = calls_model(calls@);
    let mut i: usize = 0;
    while i < items.len()
        invariant
            i <= items.len(),
            ds == items_model(items@),
            ds.len() == items@.len(),
            forall|j: int| 0 <= j < items@.len() ==> #[trigger] ds[j] == items@[j].model(),
            calls_model(calls@) == apply_tool_deltas(start, ds.take(i as int)),
        decreases items.len() - i,
    {
        merge_tool_delta(calls, &items[i]);
        proof {
            assert(ds.take(i as int + 1).drop_last() =~= ds.take(i as int));
        }
        i = i + 1;
    }
    proof {
        assert(ds.take(items@.len() as int) =~= ds);
    }
}

fn apply_delta_exec(resp: &mut AssistantResponse, d: &Json, events: &mut Vec<StreamEvent>)
    ensures
        ({
            let (r, e) = apply_delta(old(resp)@, d.model());
            &&& final(resp)@ == r
            &&& events_model(final(events)@) == events_model(old(events)@) + e
        }),
{
    let ghost before = events_model(events@);
    match str_in(d.get("reasoning_content")) {
        Some(r) => {
            if r.unicode_len() > 0 {
                events.push(StreamEvent::Reasoning(r.to_string()));
            }
        },
        None => {},
    }
    let ghost after_r = events_model(events@);
    match str_in(d.get("content")) {
        Some(c) => {
            if c.unicode_len() > 0 {
                let mut content = match &resp.content {
                    Some(old_c) => old_c.clone(),
                    None => String::new(),
                };
                content.append(c);
                resp.content = Some(content);
                events.push(StreamEvent::Text(c.to_string()));
            }
        },
        None => {},
    }
    match d.get("tool_calls") {
        Some(tcd) => match tcd.as_array() {
            Some(items) => merge_tool_deltas(&mut resp.tool_calls, items),
            None => {},
        },
        None => {},
    }
    proof {
        let (r, e) = apply_delta(old(resp)@, d.model());
        assert(events_model(events@) =~= before + e);
        assert(resp@ == r);
    }
}

fn apply_payload_exec(resp: &mut AssistantResponse, data: &str, events: &mut Vec<StreamEvent>)
    ensures
        ({
            let (r, e) = apply_payload(old(resp)@, data@);
            &&& final(resp)@ == r
            &&& events_model(final(events)@) == events_model(old(events)@) + e
        }),
{
    let ghost before = events_model(events@);
    match parse_json(data) {
        None => {
            assert(events_model(events@) =~= before + Seq::<StreamEventModel>::empty());
        },
        Some(doc) => {
            let choice = match doc.get("choices") {
                Some(c) => c.at(0),
                None => None,
            };
            match choice {
                None => {
                    assert(events_model(events@) =~= before + Seq::<StreamEventModel>::empty());
                },
                Some(choice) => {
                    match choice.get("delta") {
                        Some(d) => apply_delta_exec(resp, d, events),
                        None => {},
                    }
                    let ghost mid = events_model(events@);
                    let finish = str_in(choice.get("finish_reason"));
                    let announce = match finish {
                        Some(f) => crate::text::str_eq(f, "tool_calls") || crate::text::str_eq(f, "stop"),
                        None => false,
                    };
                    if announce {
                        announce_calls(&resp.tool_calls, events);
                    }
                    proof {
                        let (r, e) = apply_payload(old(resp)@, data@);
                        if announce {
                            assert(events_model(events@) =~= before + e);
                        } else {
                            assert(events_model(events@) =~= before + e);
                        }
                    }
                },
            }
        },
    }
}

/// Reads a streamed (server-sent events) chat answer as its pieces arrive.
pub struct StreamParser {
    buffer: String,
    response: AssistantResponse,
}

impl StreamParser {
    /// The text received but not yet read as complete lines.
    pub closed spec fn pending_text(&self) -> Seq<char> {
        self.buffer@
    }

    /// The reply gathered so far.
    pub closed spec fn gathered(&self) -> AssistantResponseModel {
        self.response@
    }

    pub fn new() -> (r: StreamParser)
        ensures
            r.pending_text() == Seq::<char>::empty(),
            r.gathered() == (AssistantResponseModel { content: None, tool_calls: Seq::empty() }),
    {
        let r = StreamParser { buffer: String::new(), response: AssistantResponse { content: None, tool_calls: Vec::new() } };
        assert(r.gathered().tool_calls =~= Seq::<StreamingToolCallModel>::empty());
        r
    }

    /// Takes the next piece of text of the answer: reads every complete line that it
    /// completes (up to a `data: [DONE]` line) and returns, in order, what the user
    /// interface is to show.
    pub fn push_text(&mut self, chunk: &str) -> (events: Vec<StreamEvent>)
        ensures
            ({
                let (payloads, rest) = frame(old(self).pending_text() + chunk@);
                let (resp, evs) = apply_payloads(old(self).gathered(), payloads);
                &&& final(self).pending_text() == rest
                &&& final(self).gathered() == resp
                &&& events_model(events@) == evs
            }),
    {
        let ghost start = self.buffer@ + chunk@;
        let ghost resp0 = self.response@;
        self.buffer.append(chunk);
        let mut payloads: Vec<String> = Vec::new();
        assert(texts_of(payloads@) + frame(self.buffer@).0 =~= frame(start).0);
        loop
            invariant_except_break
                frame(start).0 == texts_of(payloads@) + frame(self.buffer@).0,
                frame(start).1 == frame(self.buffer@).1,
            invariant
                self.response@ == resp0,
            ensures
                frame(start).0 == texts_of(payloads@),
                frame(start).1 == self.buffer@,
            decreases self.buffer@.len(),
        {
            let ghost cur = self.buffer@;
            match crate::text::find_char(self.buffer.as_str(), '\n') {
                None => {
                    assert(frame(cur) == (Seq::<Seq<char>>::empty(), cur));
                    assert(texts_of(payloads@) + Seq::<Seq<char>>::empty() =~= texts_of(payloads@));
                    break;
                },
                Some(pos) => {
                    let total = self.buffer.as_str().unicode_len();
                    let line = crate::text::trim_end(self.buffer.as_str().substring_char(0, pos)).to_string();
                    let rest = self.buffer.as_str().substring_char(pos + 1, total).to_string();
                    self.buffer = rest;
                    proof {
                        assert(cur.take(pos as int) =~= cur.subrange(0, pos as int));
                        assert(cur.skip(pos as int + 1) =~= cur.subrange(pos as int + 1, cur.len() as int));
                    }
                    if line.as_str().unicode_len() == 0 {
                        assert(frame(cur) == frame(self.buffer@));
                        continue;
                    }
                    match crate::text::strip_prefix(line.as_str(), "data: ") {
                        Some(data) => {
                            proof {
                                reveal_strlit("data: ");
                                assert(data@ =~= line@.skip(6));
                            }
                            if crate::text::str_eq(data, "[DONE]") {
                                assert(frame(cur) == (Seq::<Seq<char>>::empty(), self.buffer@));
                                assert(texts_of(payloads@) + Seq::<Seq<char>>::empty() =~= texts_of(payloads@));
                                break;
                            }
                            let ghost before = texts_of(payloads@);
                            payloads.push(data.to_string());
                            proof {
                                assert(texts_of(payloads@) =~= before.push(data@));
                                assert(seq![data@] + frame(self.buffer@).0 =~= frame(cur).0);
                                assert(before + frame(cur).0 =~= texts_of(payloads@) + frame(self.buffer@).0);
                            }
                        },
                        None => {
                            assert(frame(cur) == frame(self.buffer@));
                        },
                    }
                },
            }
        }
        let mut events: Vec<StreamEvent> = Vec::new();
        assert(texts_of(payloads@).take(0) =~= Seq::<Seq<char>>::empty());
        assert(events_model(events@) =~= Seq::<StreamEventModel>::empty());
        let mut i: usize = 0;
        while i < payloads.len()
            invariant
                i <= payloads.len(),
                self.buffer@ == frame(start).1,
                frame(start).0 == texts_of(payloads@),
                apply_payloads(resp0, texts_of(payloads@).take(i as int)) == (self.response@, events_model(events@)),
            decreases payloads.len() - i,
        {
            apply_payload_exec(&mut self.response, payloads[i].as_str(), &mut events);
            proof {
                assert(texts_of(payloads@).take(i as int + 1).drop_last() =~= texts_of(payloads@).take(i as int));
            }
            i = i + 1;
        }
        proof {
            assert(texts_of(payloads@).take(payloads@.len() as int) =~= texts_of(payloads@));
        }
        events
    }

    /// Takes the next bytes of the answer, decoded as UTF-8 with replacement characters.
    pub fn push_bytes(&mut self, bytes: &[u8]) -> (events: Vec<StreamEvent>)
        ensures
            ({
                let (payloads, rest) = frame(old(self).pending_text() + lossy_text(bytes@));
                let (resp, evs) = apply_payloads(old(self).gathered(), payloads);
                &&& final(self).pending_text() == rest
                &&& final(self).gathered() == resp
                &&& events_model(events@) == evs
            }),
    {
        let text = utf8_lossy(bytes);
        self.push_text(text.as_str())
    }

    /// The reply gathered from the whole answer.
    pub fn finish(self) -> (r: AssistantResponse)
        ensures
            r@ == self.gathered(),
    {
        self.response
    }
}

pub open spec fn texts_of(v: Seq<String>) -> Seq<Seq<char>> {
    crate::text::texts(v)
}

/// Whether reading `buf` as `frame` does stops at a `data: [DONE]` line.
pub open spec fn stops_at_done(buf: Seq<char>) -> bool
    decreases buf.len(),
{
    let pos = crate::text::index_of(buf, '\n');
    if 0 <= pos < buf.len() {
        let line = crate::text::trim_end_of(buf.take(pos));
        let rest = buf.skip(pos + 1);
        if line.len() > 0 && "data: "@.is_prefix_of(line) && line.skip(6) == "[DONE]"@ {
            true
        } else {
            stops_at_done(rest)
        }
    } else {
        false
    }
}

proof fn lemma_index_of_prefix(x: Seq<char>, y: Seq<char>, c: char)
    requires
        0 <= crate::text::index_of(x, c) < x.len(),
    ensures
        crate::text::index_of(x + y, c) == crate::text::index_of(x, c),
{
    let i = crate::text::index_of(x, c);
    crate::text::lemma_index_of(x, c);
    crate::text::lemma_index_of(x + y, c);
    assert((x + y)[i] == c);
    let k = crate::text::index_of(x + y, c);
    if k < i {
        assert((x + y)[k] == x[k]);
    } else if k > i {
        assert((x + y)[i] != c);
    }
}

proof fn lemma_frame_append(x: Seq<char>, y: Seq<char>)
    requires
        !stops_at_done(x),
    ensures
        frame(x + y) == (frame(x).0 + frame(frame(x).1 + y).0, frame(frame(x).1 + y).1),
    decreases x.len(),
{
    let pos = crate::text::index_of(x, '\n');
    if 0 <= pos < x.len() {
        lemma_index_of_prefix(x, y, '\n');
        assert((x + y).take(pos) =~= x.take(pos));
        assert((x + y).skip(pos + 1) =~= x.skip(pos + 1) + y);
        let rest = x.skip(pos + 1);
        lemma_frame_append(rest, y);
        let line = crate::text::trim_end_of(x.take(pos));
        if line.len() > 0 && "data: "@.is_prefix_of(line) {
            let data = line.skip(6);
            assert(data != "[DONE]"@);
            let (p, r) = frame(rest);
            assert(seq![data] + (p + frame(r + y).0) =~= (seq![data] + p) + frame(r + y).0);
        }
    } else {
        crate::text::lemma_index_of(x, '\n');
        if x.len() > 0 {
            assert(pos < 0);
        }
        assert(Seq::<Seq<char>>::empty() + frame(x + y).0 =~= frame(x + y).0);
    }
}

proof fn lemma_apply_payloads_append(resp: AssistantResponseModel, p1: Seq<Seq<char>>, p2: Seq<Seq<char>>)
    ensures
        apply_payloads(resp, p1 + p2) == ({
            let (r1, e1) = apply_payloads(resp, p1);
            let (r2, e2) = apply_payloads(r1, p2);
            (r2, e1 + e2)
        }),
    decreases p2.len(),
{
    if p2.len() == 0 {
        assert(p1 + p2 =~= p1);
        let (r1, e1) = apply_payloads(resp, p1);
        assert(e1 + Seq::<StreamEventModel>::empty() =~= e1);
    } else {
        lemma_apply_payloads_append(resp, p1, p2.drop_last());
        assert((p1 + p2).drop_last() =~= p1 + p2.drop_last());
        assert((p1 + p2).last() == p2.last());
        let (r1, e1) = apply_payloads(resp, p1);
        let (ra, ea) = apply_payloads(r1, p2.drop_last());
        let (rb, eb) = apply_payload(ra, p2.last());
        assert(e1 + ea + eb =~= e1 + (ea + eb));
    }
}

/// How the answer is cut into pieces does not change what is read: pushing two pieces
/// one after the other leaves the same pending text and the same reply, and yields the
/// same events in the same order, as pushing both at once, as long as the first push
/// completes no `data: [DONE]` line.
pub proof fn lemma_stream_split_invariant(pending: Seq<char>, resp: AssistantResponseModel, a: Seq<char>, c: Seq<char>)
    requires
        !stops_at_done(pending + a),
    ensures
        ({
            let (p1, rest1) = frame(pending + a);
            let (resp1, ev1) = apply_payloads(resp, p1);
            let (p2, rest2) = frame(rest1 + c);
            let (resp2, ev2) = apply_payloads(resp1, p2);
            let (p, rest) = frame(pending + a + c);
            let (resp_all, ev_all) = apply_payloads(resp, p);
            &&& rest2 == rest
            &&& resp2 == resp_all
            &&& ev1 + ev2 == ev_all
        }),
{
    lemma_frame_append(pending + a, c);
    let (p1, rest1) = frame(pending + a);
    lemma_apply_payloads_append(resp, p1, frame(rest1 + c).0);
}

} // verus!
