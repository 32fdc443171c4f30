use vstd::prelude::*;

use crate::text::{cat2, cat3, concat_all};

verus! {

broadcast use vstd::string::group_string_axioms;

/// Who wrote a chat message.
#[derive(Debug, Clone, Copy, PartialEq, Eq, Structural)]
pub enum MessageRole {
    User,
    Assistant,
    System,
}

/// One message of the chat panel.
#[derive(Debug, Clone)]
pub struct ChatMessage {
    pub role: MessageRole,
    pub content: String,
    pub sql: Option<String>,
    pub reasoning: Option<String>,
    pub timestamp: String,
    pub show_reasoning: bool,
}

/// The state of the chat panel.
#[derive(Debug)]
pub struct ChatPanel {
    pub messages: Vec<ChatMessage>,
    pub scroll_offset: u16,
    pub streaming_text: String,
    pub streaming_reasoning: String,
    pub is_streaming: bool,
    pub show_reasoning: bool,
}

/// A clock reading written as `HH:MM`: two digits, a colon, two digits.
pub open spec fn is_clock_text(t: Seq<char>) -> bool {
    &&& t.len() == 5
    &&& t[2] == ':'
    &&& forall|i: int| 0 <= i < 5 && i != 2 ==> '0' <= #[trigger] t[i] <= '9'
}

/// The local time of day as `HH:MM`, written by chrono's `%H:%M`, which pads hours
/// (00-23) and minutes (00-59) to two digits. The time itself is not claimed.
#[verifier::external_body]
fn clock_text() -> (r: String)
    ensures
        is_clock_text(r@),
{
    chrono::Local::now().format("%H:%M").to_string()
}

pub struct ChatMessageModel {
    pub role: MessageRole,
    pub content: Seq<char>,
    pub sql: Option<Seq<char>>,
    pub reasoning: Option<Seq<char>>,
    pub timestamp: Seq<char>,
    pub show_reasoning: bool,
}

impl View for ChatMessage {
    type V = ChatMessageModel;

    open spec fn view(&self) -> ChatMessageModel {
        ChatMessageModel {
            role: self.role,
            content: self.content@,
            sql: crate::message::opt_text(self.sql),
            reasoning: crate::message::opt_text(self.reasoning),
            timestamp: self.timestamp@,
            show_reasoning: self.show_reasoning,
        }
    }
}

pub open spec fn chat_models(v: Seq<ChatMessage>) -> Seq<ChatMessageModel> {
    v.map_values(|m: ChatMessage| m@)
}

pub open spec fn welcome_text() -> Seq<char> {
    "🛸 欢迎使用 DuckPilot！输入自然语言问题开始分析数据。"@
}

impl ChatPanel {
    /// The messages as values.
    pub open spec fn message_models(&self) -> Seq<ChatMessageModel> {
        chat_models(self.messages@)
    }

    /// A panel that holds the welcome message, with reasoning shown.
    pub fn new() -> (r: ChatPanel)
        ensures
            r.messages@.len() == 1,
            r.messages@[0]@.role == MessageRole::System,
            r.messages@[0]@.content == welcome_text(),
            r.messages@[0]@.sql is None,
            r.messages@[0]@.reasoning is None,
            is_clock_text(r.messages@[0]@.timestamp),
            r.messages@[0]@.show_reasoning,
            r.scroll_offset == 0,
            r.streaming_text@ == Seq::<char>::empty(),
            r.streaming_reasoning@ == Seq::<char>::empty(),
            !r.is_streaming,
            r.show_reasoning,
    {
        let welcome = ChatMessage {
            role: MessageRole::System,
            content: "🛸 欢迎使用 DuckPilot！输入自然语言问题开始分析数据。".to_string(),
            sql: None,
            reasoning: None,
            timestamp: clock_text(),
            show_reasoning: true,
        };
        ChatPanel {
            messages: vec![welcome],
            scroll_offset: 0,
            streaming_text: String::new(),
            streaming_reasoning: String::new(),
            is_streaming: false,
            show_reasoning: true,
        }
    }

    /// Appends a message stamped with the time of day, and scrolls to the newest message.
    pub fn add_message(&mut self, role: MessageRole, content: String)
        ensures
            final(self).messages@.len() == old(self).messages@.len() + 1,
            chat_models(final(self).messages@).drop_last() == chat_models(old(self).messages@),
            ({
                let m = final(self).messages@.last()@;
                &&& m.role == role
                &&& m.content == content@
                &&& m.sql is None
                &&& m.reasoning is None
                &&& is_clock_text(m.timestamp)
                &&& m.show_reasoning == old(self).show_reasoning
            }),
            final(self).scroll_offset == 0,
            final(self).streaming_text@ == old(self).streaming_text@,
            final(self).streaming_reasoning@ == old(self).streaming_reasoning@,
            final(self).is_streaming == old(self).is_streaming,
            final(self).show_reasoning == old(self).show_reasoning,
    {
        let ghost before = chat_models(self.messages@);
        self.messages.push(ChatMessage {
            role,
            content,
            sql: None,
            reasoning: None,
            timestamp: clock_text(),
            show_reasoning: self.show_reasoning,
        });
        proof {
            assert(chat_models(self.messages@).drop_last() =~= before);
        }
        self.scroll_to_bottom();
    }

    /// Starts showing a streamed answer.
    pub fn start_streaming(&mut self)
        ensures
            final(self).is_streaming,
            final(self).streaming_text@ == Seq::<char>::empty(),
            final(self).streaming_reasoning@ == Seq::<char>::empty(),
            final(self).messages@ == old(self).messages@,
            final(self).scroll_offset == old(self).scroll_offset,
            final(self).show_reasoning == old(self).show_reasoning,
    {
        self.is_streaming = true;
        self.streaming_text = String::new();
        self.streaming_reasoning = String::new();
    }

    pub fn append_streaming(&mut self, chunk: &str)
        ensures
            final(self).streaming_text@ == old(self).streaming_text@ + chunk@,
            final(self).streaming_reasoning@ == old(self).streaming_reasoning@,
            final(self).messages@ == old(self).messages@,
            final(self).scroll_offset == old(self).scroll_offset,
            final(self).is_streaming == old(self).is_streaming,
            final(self).show_reasoning == old(self).show_reasoning,
    {
        self.streaming_text.append(chunk);
    }

    pub fn append_reasoning(&mut self, chunk: &str)
        ensures
            final(self).streaming_reasoning@ == old(self).streaming_reasoning@ + chunk@,
            final(self).streaming_text@ == old(self).streaming_text@,
            final(self).messages@ == old(self).messages@,
            final(self).scroll_offset == old(self).scroll_offset,
            final(self).is_streaming == old(self).is_streaming,
            final(self).show_reasoning == old(self).show_reasoning,
    {
        self.streaming_reasoning.append(chunk);
    }

    /// Ends the streamed answer: what was streamed becomes an assistant message (unless
    /// nothing was), with the reasoning kept when there was any.
    pub fn finish_streaming(&mut self)
        ensures
            !final(self).is_streaming,
            final(self).streaming_text@ == Seq::<char>::empty(),
            final(self).streaming_reasoning@ == Seq::<char>::empty(),
            final(self).show_reasoning == old(self).show_reasoning,
            old(self).streaming_text@.len() == 0 && old(self).streaming_reasoning@.len() == 0 ==> {
                &&& final(self).messages@ == old(self).messages@
                &&& final(self).scroll_offset == old(self).scroll_offset
            },
            old(self).streaming_text@.len() > 0 || old(self).streaming_reasoning@.len() > 0 ==> {
                let m = final(self).messages@.last()@;
                &&& final(self).messages@.len() == old(self).messages@.len() + 1
                &&& chat_models(final(self).messages@).drop_last() == chat_models(old(self).messages@)
                &&& m.role == MessageRole::Assistant
                &&& m.content == old(self).streaming_text@
                &&& m.sql is None
                &&& m.reasoning == (if old(self).streaming_reasoning@.len() == 0 { None } else { Some(old(self).streaming_reasoning@) })
                &&& is_clock_text(m.timestamp)
                &&& m.show_reasoning == old(self).show_reasoning
                &&& final(self).scroll_offset == 0
            },
    {
        let mut content = String::new();
        std::mem::swap(&mut content, &mut self.streaming_text);
        let mut reasoning = String::new();
        std::mem::swap(&mut reasoning, &mut self.streaming_reasoning);
        if content.as_str().unicode_len() > 0 || reasoning.as_str().unicode_len() > 0 {
            let ghost before = chat_models(self.messages@);
            let reasoning = if reasoning.as_str().unicode_len() == 0 { None } else { Some(reasoning) };
            self.messages.push(ChatMessage {
                role: MessageRole::Assistant,
                content,
                sql: None,
                reasoning,
                timestamp: clock_text(),
                show_reasoning: self.show_reasoning,
            });
            proof {
                assert(chat_models(self.messages@).drop_last() =~= before);
            }
            self.scroll_to_bottom();
        }
        self.is_streaming = false;
    }

    /// Attaches the SQL that was taken from the last message to it.
    pub fn update_last_message_sql(&mut self, sql: String)
        ensures
            final(self).messages@.len() == old(self).messages@.len(),
            old(self).messages@.len() > 0 ==> {
                let before = old(self).messages@.last()@;
                &&& chat_models(final(self).messages@).drop_last() == chat_models(old(self).messages@).drop_last()
                &&& final(self).messages@.last()@ == (ChatMessageModel { sql: Some(sql@), ..before })
            },
            old(self).messages@.len() == 0 ==> final(self).messages@ == old(self).messages@,
            final(self).scroll_offset == old(self).scroll_offset,
            final(self).streaming_text@ == old(self).streaming_text@,
            final(self).streaming_reasoning@ == old(self).streaming_reasoning@,
            final(self).is_streaming == old(self).is_streaming,
            final(self).show_reasoning == old(self).show_reasoning,
    {
        let n = self.messages.len();
        if n > 0 {
            let ghost before = chat_models(self.messages@);
            let mut last = self.messages.pop().unwrap();
            last.sql = Some(sql);
            self.messages.push(last);
            proof {
                assert(chat_models(self.messages@).drop_last() =~= before.drop_last());
            }
        }
    }

    /// Scrolls one line back in the conversation.
    pub fn scroll_up(&mut self)
        ensures
            final(self).scroll_offset == old(self).scroll_offset.saturating_add(1),
            final(self).messages@ == old(self).messages@,
            *final(self) == (ChatPanel { scroll_offset: final(self).scroll_offset, ..*old(self) }),
    {
        self.scroll_offset = self.scroll_offset.saturating_add(1);
    }

    /// Scrolls one line towards the newest message.
    pub fn scroll_down(&mut self)
        ensures
            final(self).scroll_offset == old(self).scroll_offset.saturating_sub(1),
            final(self).messages@ == old(self).messages@,
            *final(self) == (ChatPanel { scroll_offset: final(self).scroll_offset, ..*old(self) }),
    {
        self.scroll_offset = self.scroll_offset.saturating_sub(1);
    }

    pub fn page_up(&mut self, page_size: u16)
        ensures
            final(self).scroll_offset == old(self).scroll_offset.saturating_add(page_size),
            final(self).messages@ == old(self).messages@,
            *final(self) == (ChatPanel { scroll_offset: final(self).scroll_offset, ..*old(self) }),
    {
        self.scroll_offset = self.scroll_offset.saturating_add(page_size);
    }

    pub fn page_down(&mut self, page_size: u16)
        ensures
            final(self).scroll_offset == old(self).scroll_offset.saturating_sub(page_size),
            final(self).messages@ == old(self).messages@,
            *final(self) == (ChatPanel { scroll_offset: final(self).scroll_offset, ..*old(self) }),
    {
        self.scroll_offset = self.scroll_offset.saturating_sub(page_size);
    }

    /// Scrolls by `delta` lines (a wheel or trackpad event): back in the conversation when
    /// `delta` is negative, towards the newest message when it is positive.
    pub fn scroll_by(&mut self, delta: i32)
        ensures
            final(self).scroll_offset == scrolled_offset(old(self).scroll_offset, delta as int),
            final(self).messages@ == old(self).messages@,
            *final(self) == (ChatPanel { scroll_offset: final(self).scroll_offset, ..*old(self) }),
    {
        let back: i64 = self.scroll_offset as i64 - delta as i64;
        self.scroll_offset = if back > u16::MAX as i64 {
            u16::MAX
        } else if back < 0 {
            0
        } else {
            back as u16
        };
    }

    /// Jumps to the oldest message: the largest offset, which drawing clamps.
    pub fn scroll_to_top(&mut self)
        ensures
            final(self).scroll_offset == u16::MAX,
            final(self).messages@ == old(self).messages@,
            *final(self) == (ChatPanel { scroll_offset: final(self).scroll_offset, ..*old(self) }),
    {
        self.scroll_offset = u16::MAX;
    }

    /// Jumps to the newest message.
    pub fn scroll_to_end(&mut self)
        ensures
            final(self).scroll_offset == 0,
            final(self).messages@ == old(self).messages@,
            *final(self) == (ChatPanel { scroll_offset: final(self).scroll_offset, ..*old(self) }),
    {
        self.scroll_offset = 0;
    }

    fn scroll_to_bottom(&mut self)
        ensures
            final(self).scroll_offset == 0,
            final(self).messages@ == old(self).messages@,
            final(self).streaming_text == old(self).streaming_text,
            final(self).streaming_reasoning == old(self).streaming_reasoning,
            final(self).is_streaming == old(self).is_streaming,
            final(self).show_reasoning == old(self).show_reasoning,
    {
        self.scroll_offset = 0;
    }
}


/// The scroll offset after moving `delta` lines (back for a negative `delta`), kept
/// between 0 and `u16::MAX`.
pub open spec fn scrolled_offset(offset: u16, delta: int) -> int {
    let back = offset - delta;
    if back > u16::MAX { u16::MAX as int } else if back < 0 { 0 } else { back }
}

/// The label of a role in a plain-text copy of the conversation.
pub open spec fn role_label(r: MessageRole) -> Seq<char> {
    match r {
        MessageRole::User => "你"@,
        MessageRole::Assistant => "Pilot"@,
        MessageRole::System => "系统"@,
    }
}

/// One message as plain text: a `[role] time` line, the content, the SQL if any, and
/// an empty line.
pub open spec fn message_text(m: ChatMessageModel) -> Seq<char> {
    "["@ + role_label(m.role) + "] "@ + m.timestamp + "\n"@ + m.content + "\n"@
        + match m.sql {
            Some(sql) => "SQL:\n"@ + sql + "\n"@,
            None => Seq::empty(),
        }
        + "\n"@
}

/// The SQL of the last message that has one.
pub open spec fn last_sql_of(ms: Seq<ChatMessageModel>) -> Option<Seq<char>>
    decreases ms.len(),
{
    if ms.len() == 0 {
        None
    } else if ms.last().sql is Some {
        ms.last().sql
    } else {
        last_sql_of(ms.drop_last())
    }
}

/// The content of the last assistant message.
pub open spec fn last_reply_of(ms: Seq<ChatMessageModel>) -> Option<Seq<char>>
    decreases ms.len(),
{
    if ms.len() == 0 {
        None
    } else if ms.last().role == MessageRole::Assistant {
        Some(ms.last().content)
    } else {
        last_reply_of(ms.drop_last())
    }
}

fn role_text(r: MessageRole) -> (t: &'static str)
    ensures
        t@ == role_label(r),
{
    match r {
        MessageRole::User => "你",
        MessageRole::Assistant => "Pilot",
        MessageRole::System => "系统",
    }
}

impl ChatPanel {
    /// The whole conversation as plain text, for copying.
    pub fn full_text(&self) -> (r: String)
        ensures
            r@ == concat_all(self.message_models().map_values(|m: ChatMessageModel| message_text(m))),
    {
        let ghost parts = self.message_models().map_values(|m: ChatMessageModel| message_text(m));
        let mut out = String::new();
        let mut i: usize = 0;
        while i < self.messages.len()
            invariant
                i <= self.messages@.len(),
                parts == self.message_models().map_values(|m: ChatMessageModel| message_text(m)),
                out@ == concat_all(parts.take(i as int)),
            decreases self.messages@.len() - i,
        {
            let msg = &self.messages[i];
            let mut piece = cat3("[", role_text(msg.role), "] ");
            piece.append(msg.timestamp.as_str());
            piece.append("\n");
            piece.append(msg.content.as_str());
            piece.append("\n");
            match &msg.sql {
                Some(sql) => {
                    piece.append("SQL:\n");
                    piece.append(sql.as_str());
                    piece.append("\n");
                },
                None => {},
            }
            piece.append("\n");
            proof {
                assert(piece@ =~= message_text(msg@));
                assert(parts.take(i as int + 1).drop_last() =~= parts.take(i as int));
            }
            out.append(piece.as_str());
            i = i + 1;
        }
        proof {
            assert(parts.take(self.messages@.len() as int) =~= parts);
        }
        out
    }

    /// The SQL of the last message that carries SQL.
    pub fn last_sql(&self) -> (r: Option<&str>)
        ensures
            match r {
                Some(s) => last_sql_of(self.message_models()) == Some(s@),
                None => last_sql_of(self.message_models()) is None,
            },
    {
        let mut i: usize = self.messages.len();
        assert(self.message_models().take(i as int) =~= self.message_models());
        while i > 0
            invariant
                i <= self.messages@.len(),
                last_sql_of(self.message_models()) == last_sql_of(self.message_models().take(i as int)),
            decreases i,
        {
            proof {
                assert(self.message_models().take(i as int).drop_last() =~= self.message_models().take(i as int - 1));
            }
            match &self.messages[i - 1].sql {
                Some(sql) => {
                    return Some(sql.as_str());
                },
                None => {},
            }
            i = i - 1;
        }
        None
    }

    /// The content of the last assistant message.
    pub fn last_reply(&self) -> (r: Option<&str>)
        ensures
            match r {
                Some(s) => last_reply_of(self.message_models()) == Some(s@),
                None => last_reply_of(self.message_models()) is None,
            },
    {
        let mut i: usize = self.messages.len();
        assert(self.message_models().take(i as int) =~= self.message_models());
        while i > 0
            invariant
                i <= self.messages@.len(),
                last_reply_of(self.message_models()) == last_reply_of(self.message_models().take(i as int)),
            decreases i,
        {
            proof {
                assert(self.message_models().take(i as int).drop_last() =~= self.message_models().take(i as int - 1));
            }
            if self.messages[i - 1].role == MessageRole::Assistant {
                return Some(self.messages[i - 1].content.as_str());
            }
            i = i - 1;
        }
        None
    }
}

/// Screen lines that a text line of display width `w` takes in a panel `width` cells
/// wide: at least one.
pub open spec fn wrapped_lines(w: u16, width: u16) -> int {
    if w == 0 { 1 } else { (w + width - 1) / (width as int) }
}

/// The sum of the screen lines of all text lines, stopping at `u16::MAX`.
pub open spec fn visual_total(widths: Seq<usize>, width: u16) -> int
    decreases widths.len(),
{
    if widths.len() == 0 {
        0
    } else {
        let t = visual_total(widths.drop_last(), width) + wrapped_lines(#[verifier::truncate] (widths.last() as u16), width);
        if t > u16::MAX { u16::MAX as int } else { t }
    }
}

/// The number of screen lines that text lines of the given display widths take once
/// wrapped; with no width, one per text line. Widths are taken modulo 2^16.
pub fn count_visual_lines(widths: &[usize], width: u16) -> (r: u16)
    requires
        width > 0 ==> forall|i: int| 0 <= i < widths@.len() ==> (#[verifier::truncate] (widths@[i] as u16)) + width <= u16::MAX,
    ensures
        width == 0 ==> r == #[verifier::truncate] (widths@.len() as u16),
        width > 0 ==> r == visual_total(widths@, width),
{
    if width == 0 {
        return #[verifier::truncate] (widths.len() as u16);
    }
    let mut total: u16 = 0;
    let mut i: usize = 0;
    while i < widths.len()
        invariant
            width > 0,
            forall|j: int| 0 <= j < widths@.len() ==> (#[verifier::truncate] (widths@[j] as u16)) + width <= u16::MAX,
            i <= widths@.len(),
            total == visual_total(widths@.take(i as int), width),
        decreases widths@.len() - i,
    {
        let line_width = #[verifier::truncate] (widths[i] as u16);
        assert(line_width + width <= u16::MAX);
        let lines: u16 = if line_width == 0 { 1 } else { (line_width + width - 1) / width };
        total = total.saturating_add(lines);
        proof {
            assert(widths@.take(i as int + 1).drop_last() =~= widths@.take(i as int));
        }
        i = i + 1;
    }
    proof {
        assert(widths@.take(widths@.len() as int) =~= widths@);
    }
    total
}

/// The first line shown when the panel is scrolled `offset` lines back from the end:
/// the text holds `total` screen lines and `visible` of them fit.
pub fn scroll_position(total: u16, visible: u16, offset: u16) -> (r: u16)
    ensures
        r == total.saturating_sub(visible).saturating_sub(offset),
{
    let max_scroll = total.saturating_sub(visible);
    max_scroll.saturating_sub(offset)
}

/// The chat view's scrollbar when the text does not fit: its range (the lines that do
/// not fit) and its position (the first line shown); none when the text fits.
pub fn scrollbar_of(total: u16, visible: u16, offset: u16) -> (r: Option<(u16, u16)>)
    ensures
        r is Some <==> total > visible,
        r matches Some(p) ==> p.0 == total - visible && p.1 == total.saturating_sub(visible).saturating_sub(offset),
{
    if total > visible {
        Some((total - visible, scroll_position(total, visible, offset)))
    } else {
        None
    }
}

/// Text that fits the view is shown from its first line, however far it was scrolled.
pub proof fn lemma_fitting_text_from_top(total: u16, visible: u16, offset: u16)
    requires
        total <= visible,
    ensures
        total.saturating_sub(visible).saturating_sub(offset) == 0,
{
}

impl Default for ChatPanel {
    /// The panel with its welcome message, as `new` makes it.
    fn default() -> (r: Self)
        ensures
            r.messages@.len() == 1,
            r.messages@[0]@.role == MessageRole::System,
            r.messages@[0]@.content == welcome_text(),
            r.scroll_offset == 0,
            !r.is_streaming,
            r.show_reasoning,
    {
        ChatPanel::new()
    }
}

} // verus!
