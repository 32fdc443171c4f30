use vstd::prelude::*;

use crate::text::{cat2, lines_of, split_lines};
use crate::widgets::chat::{chat_models, ChatMessage, ChatMessageModel, ChatPanel, MessageRole};

verus! {

broadcast use vstd::string::group_string_axioms;

/// How a piece of the conversation is drawn; the screen code picks the colour.
#[derive(Debug, Clone, Copy, PartialEq, Eq, Structural)]
pub enum Tone {
    UserLabel,
    AssistantLabel,
    SystemLabel,
    Stamp,
    Body,
    ThoughtFrame,
    ThoughtBody,
    ThoughtHidden,
    SqlFrame,
    SqlBody,
    Pending,
    Cursor,
}

/// A run of text drawn in one tone.
#[derive(Debug, Clone)]
pub struct Piece {
    pub tone: Tone,
    pub text: String,
}

/// One line of the conversation as drawn; a line with no piece is an empty line.
#[derive(Debug, Clone)]
pub struct ShownLine {
    pub pieces: Vec<Piece>,
}

/// A line as values: its pieces, each a tone and a text.
pub open spec fn line_model(l: ShownLine) -> Seq<(Tone, Seq<char>)> {
    l.pieces@.map_values(|p: Piece| (p.tone, p.text@))
}

/// Lines as values.
pub open spec fn lines_model(v: Seq<ShownLine>) -> Seq<Seq<(Tone, Seq<char>)>> {
    v.map_values(|l: ShownLine| line_model(l))
}

/// A line of one piece.
pub open spec fn single(tone: Tone, text: Seq<char>) -> Seq<(Tone, Seq<char>)> {
    seq![(tone, text)]
}

/// Each line of a text as a line of its own, behind `prefix` and in one tone.
pub open spec fn tone_lines(tone: Tone, prefix: Seq<char>, ls: Seq<Seq<char>>) -> Seq<Seq<(Tone, Seq<char>)>> {
    ls.map_values(|l: Seq<char>| single(tone, prefix + l))
}

/// The label that opens a message of each role.
pub open spec fn label_of(r: MessageRole) -> (Tone, Seq<char>) {
    match r {
        MessageRole::User => (Tone::UserLabel, "  🧑 你"@),
        MessageRole::Assistant => (Tone::AssistantLabel, "  🛸 Pilot"@),
        MessageRole::System => (Tone::SystemLabel, "  ⚙️  系统"@),
    }
}

pub open spec fn thought_open() -> Seq<char> {
    "    ┌─ 💭 思考 ──────────────────"@
}

pub open spec fn thought_close() -> Seq<char> {
    "    └───────────────────────────"@
}

pub open spec fn thought_hidden() -> Seq<char> {
    "    💭 思考过程已隐藏"@
}

pub open spec fn sql_open() -> Seq<char> {
    "    ┌─ SQL ──────────────────"@
}

pub open spec fn sql_close() -> Seq<char> {
    "    └───────────────────────"@
}

/// The framed text of `body`: an opening line, each line of the body behind `│`, and,
/// when asked for, a closing line.
pub open spec fn framed(frame: Tone, body_tone: Tone, open: Seq<char>, body: Seq<char>, close: Option<Seq<char>>) -> Seq<Seq<(Tone, Seq<char>)>> {
    seq![single(frame, open)] + tone_lines(body_tone, "    │ "@, lines_of(body)) + match close {
        Some(c) => seq![single(frame, c)],
        None => Seq::empty(),
    }
}

/// The reasoning of a message: framed when it is shown, one line saying it is hidden
/// otherwise, and nothing when there is none or it is empty.
pub open spec fn thought_part(m: ChatMessageModel) -> Seq<Seq<(Tone, Seq<char>)>> {
    match m.reasoning {
        Some(r) => if m.show_reasoning && r.len() > 0 {
            framed(Tone::ThoughtFrame, Tone::ThoughtBody, thought_open(), r, Some(thought_close()))
        } else if r.len() > 0 {
            seq![single(Tone::ThoughtHidden, thought_hidden())]
        } else {
            Seq::empty()
        },
        None => Seq::empty(),
    }
}

/// The SQL of a message, framed.
pub open spec fn sql_part(m: ChatMessageModel) -> Seq<Seq<(Tone, Seq<char>)>> {
    match m.sql {
        Some(q) => framed(Tone::SqlFrame, Tone::SqlBody, sql_open(), q, Some(sql_close())),
        None => Seq::empty(),
    }
}

/// One message as drawn: the label and time, the content, the reasoning, the SQL, and
/// an empty line.
pub open spec fn message_lines(m: ChatMessageModel) -> Seq<Seq<(Tone, Seq<char>)>> {
    seq![seq![label_of(m.role), (Tone::Stamp, "  "@ + m.timestamp)]]
        + tone_lines(Tone::Body, "    "@, lines_of(m.content))
        + thought_part(m)
        + sql_part(m)
        + seq![Seq::<(Tone, Seq<char>)>::empty()]
}

/// All messages as drawn, one after the other.
pub open spec fn all_message_lines(ms: Seq<ChatMessageModel>) -> Seq<Seq<(Tone, Seq<char>)>>
    decreases ms.len(),
{
    if ms.len() == 0 {
        Seq::empty()
    } else {
        all_message_lines(ms.drop_last()) + message_lines(ms.last())
    }
}

/// The reply being received: a label saying the assistant is thinking, the reasoning so
/// far (framed, not closed), the text so far, and a cursor.
pub open spec fn streaming_lines(text: Seq<char>, reasoning: Seq<char>) -> Seq<Seq<(Tone, Seq<char>)>> {
    seq![seq![(Tone::AssistantLabel, "  🛸 Pilot"@), (Tone::Pending, "  思考中..."@)]]
        + (if reasoning.len() > 0 {
            framed(Tone::ThoughtFrame, Tone::ThoughtBody, thought_open(), reasoning, None)
        } else {
            Seq::empty()
        })
        + tone_lines(Tone::Body, "    "@, lines_of(text))
        + seq![single(Tone::Cursor, "    █"@)]
}

fn piece(tone: Tone, text: String) -> (p: Piece)
    ensures
        p.tone == tone,
        p.text@ == text@,
{
    Piece { tone, text }
}

fn one_piece_line(tone: Tone, text: String) -> (l: ShownLine)
    ensures
        line_model(l) == single(tone, text@),
{
    let mut pieces: Vec<Piece> = Vec::new();
    pieces.push(piece(tone, text));
    let l = ShownLine { pieces };
    assert(line_model(l) =~= single(tone, text@));
    l
}

fn push_line(out: &mut Vec<ShownLine>, l: ShownLine)
    ensures
        lines_model(final(out)@) == lines_model(old(out)@).push(line_model(l)),
{
    out.push(l);
    proof {
        assert(lines_model(out@) =~= lines_model(old(out)@).push(line_model(l)));
    }
}

/// Appends each line of `text`, behind `prefix`, as a line of one tone.
fn push_tone_lines(out: &mut Vec<ShownLine>, tone: Tone, prefix: &str, text: &str)
    ensures
        lines_model(final(out)@) == lines_model(old(out)@) + tone_lines(tone, prefix@, lines_of(text@)),
{
    let ls = split_lines(text);
    let ghost ts = lines_of(text@);
    let mut i: usize = 0;
    while i < ls.len()
        invariant
            i <= ls@.len(),
            crate::text::texts(ls@) == ts,
            ts == lines_of(text@),
            lines_model(out@) == lines_model(old(out)@) + tone_lines(tone, prefix@, ts.take(i as int)),
        decreases ls@.len() - i,
    {
        let l = one_piece_line(tone, cat2(prefix, ls[i].as_str()));
        proof {
            assert(ts[i as int] == ls@[i as int]@);
        }
        push_line(out, l);
        proof {
            assert(tone_lines(tone, prefix@, ts.take(i as int + 1)) =~= tone_lines(tone, prefix@, ts.take(i as int)).push(single(tone, prefix@ + ts[i as int])));
            assert(lines_model(out@) =~= lines_model(old(out)@) + tone_lines(tone, prefix@, ts.take(i as int + 1)));
        }
        i = i + 1;
    }
    proof {
        assert(ts.take(ls@.len() as int) =~= ts);
    }
}

/// Appends `body` framed: an opening line, its lines behind `│`, and the closing line if given.
fn push_framed(out: &mut Vec<ShownLine>, frame: Tone, body_tone: Tone, open: &str, body: &str, close: Option<&str>)
    ensures
        lines_model(final(out)@) == lines_model(old(out)@) + framed(frame, body_tone, open@, body@, match close {
            Some(c) => Some(c@),
            None => None,
        }),
{
    push_line(out, one_piece_line(frame, crate::text::owned(open)));
    let ghost mid = lines_model(out@);
    push_tone_lines(out, body_tone, "    │ ", body);
    let ghost after_body = lines_model(out@);
    match close {
        Some(c) => {
            push_line(out, one_piece_line(frame, crate::text::owned(c)));
        },
        None => {},
    }
    proof {
        let cl = match close {
            Some(c) => Some(c@),
            None => None,
        };
        assert(lines_model(out@) =~= lines_model(old(out)@) + framed(frame, body_tone, open@, body@, cl));
    }
}

fn label_text(r: MessageRole) -> (p: (Tone, &'static str))
    ensures
        (p.0, p.1@) == label_of(r),
{
    match r {
        MessageRole::User => (Tone::UserLabel, "  🧑 你"),
        MessageRole::Assistant => (Tone::AssistantLabel, "  🛸 Pilot"),
        MessageRole::System => (Tone::SystemLabel, "  ⚙️  系统"),
    }
}

/// Appends one message as drawn.
fn push_message(out: &mut Vec<ShownLine>, m: &ChatMessage)
    ensures
        lines_model(final(out)@) == lines_model(old(out)@) + message_lines(m@),
{
    let (tone, label) = label_text(m.role);
    let mut pieces: Vec<Piece> = Vec::new();
    pieces.push(piece(tone, crate::text::owned(label)));
    pieces.push(piece(Tone::Stamp, cat2("  ", m.timestamp.as_str())));
    let head = ShownLine { pieces };
    assert(line_model(head) =~= seq![label_of(m.role), (Tone::Stamp, "  "@ + m.timestamp@)]);
    push_line(out, head);
    let ghost s1 = lines_model(out@);
    push_tone_lines(out, Tone::Body, "    ", m.content.as_str());
    let ghost s2 = lines_model(out@);
    match &m.reasoning {
        Some(r) => {
            if m.show_reasoning && r.unicode_len() > 0 {
                push_framed(out, Tone::ThoughtFrame, Tone::ThoughtBody, "    ┌─ 💭 思考 ──────────────────", r.as_str(), Some("    └───────────────────────────"));
            } else if r.unicode_len() > 0 {
                push_line(out, one_piece_line(Tone::ThoughtHidden, crate::text::owned("    💭 思考过程已隐藏")));
            }
        },
        None => {},
    }
    let ghost s3 = lines_model(out@);
    assert(s3 =~= s2 + thought_part(m@));
    match &m.sql {
        Some(q) => {
            push_framed(out, Tone::SqlFrame, Tone::SqlBody, "    ┌─ SQL ──────────────────", q.as_str(), Some("    └───────────────────────"));
        },
        None => {},
    }
    let ghost s4 = lines_model(out@);
    assert(s4 =~= s3 + sql_part(m@));
    let blank = ShownLine { pieces: Vec::new() };
    assert(line_model(blank) =~= Seq::<(Tone, Seq<char>)>::empty());
    push_line(out, blank);
    proof {
        assert(lines_model(out@) =~= lines_model(old(out)@) + message_lines(m@));
    }
}

impl ChatPanel {
    /// The conversation as drawn: every message, then the reply being received, if any.
    pub fn transcript(&self) -> (r: Vec<ShownLine>)
        ensures
            lines_model(r@) == all_message_lines(self.message_models()) + if self.is_streaming {
                streaming_lines(self.streaming_text@, self.streaming_reasoning@)
            } else {
                Seq::empty()
            },
    {
        let mut out: Vec<ShownLine> = Vec::new();
        let ghost ms = self.message_models();
        let mut i: usize = 0;
        assert(lines_model(out@) =~= all_message_lines(ms.take(0)));
        while i < self.messages.len()
            invariant
                i <= self.messages@.len(),
                ms == chat_models(self.messages@),
                lines_model(out@) == all_message_lines(ms.take(i as int)),
            decreases self.messages@.len() - i,
        {
            push_message(&mut out, &self.messages[i]);
            proof {
                assert(ms.take(i as int + 1).drop_last() =~= ms.take(i as int));
                assert(ms.take(i as int + 1).last() == self.messages@[i as int]@);
            }
            i = i + 1;
        }
        proof {
            assert(ms.take(self.messages@.len() as int) =~= ms);
        }
        let ghost done = lines_model(out@);
        if self.is_streaming {
            let mut pieces: Vec<Piece> = Vec::new();
            pieces.push(piece(Tone::AssistantLabel, crate::text::owned("  🛸 Pilot")));
            pieces.push(piece(Tone::Pending, crate::text::owned("  思考中...")));
            let head = ShownLine { pieces };
            assert(line_model(head) =~= seq![(Tone::AssistantLabel, "  🛸 Pilot"@), (Tone::Pending, "  思考中..."@)]);
            push_line(&mut out, head);
            let ghost h = lines_model(out@);
            if self.streaming_reasoning.unicode_len() > 0 {
                push_framed(&mut out, Tone::ThoughtFrame, Tone::ThoughtBody, "    ┌─ 💭 思考 ──────────────────", self.streaming_reasoning.as_str(), None);
            }
            let ghost h2 = lines_model(out@);
            push_tone_lines(&mut out, Tone::Body, "    ", self.streaming_text.as_str());
            push_line(&mut out, one_piece_line(Tone::Cursor, crate::text::owned("    █")));
            proof {
                assert(lines_model(out@) =~= done + streaming_lines(self.streaming_text@, self.streaming_reasoning@));
            }
        } else {
            assert(lines_model(out@) =~= done + Seq::empty());
        }
        out
    }
}

} // verus!
