use vstd::prelude::*;

use crate::ui::{Area, Key};

use crate::text::{chars_of, trim, trim_of};

verus! {

broadcast use vstd::string::group_string_axioms;

/// The history of an input box: what was submitted, where browsing stands, and the
/// text that was being typed when browsing began.
#[derive(Debug)]
pub struct InputHistory {
    history: Vec<String>,
    history_index: Option<usize>,
    temp_content: String,
}

pub struct InputHistoryModel {
    pub entries: Seq<Seq<char>>,
    pub index: Option<nat>,
    pub draft: Seq<char>,
}

impl View for InputHistory {
    type V = InputHistoryModel;

    closed spec fn view(&self) -> InputHistoryModel {
        InputHistoryModel {
            entries: crate::text::texts(self.history@),
            index: match self.history_index {
                Some(i) => Some(i as nat),
                None => None,
            },
            draft: self.temp_content@,
        }
    }
}

impl InputHistory {
    /// Browsing points at an entry that exists.
    pub open spec fn wf(&self) -> bool {
        self@.index matches Some(i) ==> i < self@.entries.len()
    }

    pub fn new() -> (r: InputHistory)
        ensures
            r.wf(),
            r@.entries.len() == 0,
            r@.index is None,
            r@.draft.len() == 0,
    {
        InputHistory { history: Vec::new(), history_index: None, temp_content: String::new() }
    }

    /// `Enter`: a text that is not blank is submitted, kept in the history, and browsing
    /// stops; a blank text is not submitted.
    pub fn submit(&mut self, text: String) -> (r: Option<String>)
        requires
            old(self).wf(),
        ensures
            final(self).wf(),
            trim_of(text@).len() == 0 ==> r is None && final(self)@ == old(self)@,
            trim_of(text@).len() > 0 ==> {
                &&& r matches Some(t) && t@ == text@
                &&& final(self)@ == after_submit(old(self)@, text@)
            },
    {
        if trim(text.as_str()).unicode_len() == 0 {
            return None;
        }
        self.history.push(text.clone());
        self.history_index = None;
        proof {
            assert(crate::text::texts(self.history@) =~= crate::text::texts(old(self).history@).push(text@));
        }
        Some(text)
    }

    /// `Up`: steps back through the history. The first step keeps `current`, the text
    /// being typed, as the draft and goes to the newest entry; later steps go one entry
    /// older, staying at the oldest. Returns the entry to show; nothing when the
    /// history is empty.
    pub fn up(&mut self, current: &str) -> (r: Option<String>)
        requires
            old(self).wf(),
        ensures
            final(self).wf(),
            final(self)@.entries == old(self)@.entries,
            old(self)@.entries.len() == 0 ==> r is None && final(self)@ == old(self)@,
            old(self)@.entries.len() > 0 ==> {
                let idx = up_index(old(self)@);
                &&& final(self)@.index == Some(idx)
                &&& final(self)@.draft == (if old(self)@.index is None { current@ } else { old(self)@.draft })
                &&& r matches Some(t) && t@ == old(self)@.entries[idx as int]
            },
    {
        if self.history.len() == 0 {
            return None;
        }
        match self.history_index {
            None => {
                self.temp_content = current.to_string();
                self.history_index = Some(self.history.len() - 1);
            },
            Some(idx) => {
                if idx > 0 {
                    self.history_index = Some(idx - 1);
                }
            },
        }
        match self.history_index {
            Some(idx) => Some(self.history[idx].clone()),
            None => None,
        }
    }

    /// `Down`: steps forward through the history; past the newest entry browsing stops
    /// and the draft comes back. Returns the text to show; nothing when not browsing.
    pub fn down(&mut self) -> (r: Option<String>)
        requires
            old(self).wf(),
        ensures
            final(self).wf(),
            final(self)@.entries == old(self)@.entries,
            final(self)@.draft == old(self)@.draft,
            old(self)@.index is None ==> r is None && final(self)@ == old(self)@,
            old(self)@.index matches Some(i) ==> {
                if i + 1 < old(self)@.entries.len() {
                    &&& final(self)@.index == Some((i + 1) as nat)
                    &&& r matches Some(t) && t@ == old(self)@.entries[(i + 1) as int]
                } else {
                    &&& final(self)@.index is None
                    &&& r matches Some(t) && t@ == old(self)@.draft
                }
            },
    {
        match self.history_index {
            Some(idx) => {
                if idx < self.history.len() - 1 {
                    self.history_index = Some(idx + 1);
                    Some(self.history[idx + 1].clone())
                } else {
                    self.history_index = None;
                    Some(self.temp_content.clone())
                }
            },
            None => None,
        }
    }
}

/// The modifier keys held with a key, as the input box tells them apart.
#[derive(Debug, Clone, Copy, PartialEq, Eq, Structural)]
pub enum Modifiers {
    Nothing,
    Shift,
    Alt,
    Control,
    Other,
}

/// What a key does in the input box.
#[derive(Debug, Clone, Copy, PartialEq, Eq, Structural)]
pub enum EditAction {
    /// Submit the text.
    Submit,
    /// Start a new line.
    NewLine,
    /// Show an older entry of the history.
    HistoryUp,
    /// Show a newer entry of the history, or the draft.
    HistoryDown,
    SelectAll,
    /// Copy the selection to the clipboard.
    CopySelection,
    /// Insert the clipboard's text.
    Paste,
    /// Any other key edits the text.
    Edit,
}

/// The keys of the input box: `Enter` submits, `Shift+Enter` or `Alt+Enter` starts a
/// new line, `Up` and `Down` browse the history, `Ctrl+A`, `Ctrl+C` and `Ctrl+V` select
/// all, copy and paste; everything else edits the text.
pub open spec fn edit_action_spec(key: Key, mods: Modifiers) -> EditAction {
    match key {
        Key::Enter => match mods {
            Modifiers::Nothing => EditAction::Submit,
            Modifiers::Shift | Modifiers::Alt => EditAction::NewLine,
            _ => EditAction::Edit,
        },
        Key::Up => if mods == Modifiers::Nothing { EditAction::HistoryUp } else { EditAction::Edit },
        Key::Down => if mods == Modifiers::Nothing { EditAction::HistoryDown } else { EditAction::Edit },
        Key::Char('a') => if mods == Modifiers::Control { EditAction::SelectAll } else { EditAction::Edit },
        Key::Char('c') => if mods == Modifiers::Control { EditAction::CopySelection } else { EditAction::Edit },
        Key::Char('v') => if mods == Modifiers::Control { EditAction::Paste } else { EditAction::Edit },
        _ => EditAction::Edit,
    }
}

pub fn edit_action(key: Key, mods: Modifiers) -> (r: EditAction)
    ensures
        r == edit_action_spec(key, mods),
{
    match key {
        Key::Enter => match mods {
            Modifiers::Nothing => EditAction::Submit,
            Modifiers::Shift | Modifiers::Alt => EditAction::NewLine,
            _ => EditAction::Edit,
        },
        Key::Up => if mods == Modifiers::Nothing { EditAction::HistoryUp } else { EditAction::Edit },
        Key::Down => if mods == Modifiers::Nothing { EditAction::HistoryDown } else { EditAction::Edit },
        Key::Char('a') => if mods == Modifiers::Control { EditAction::SelectAll } else { EditAction::Edit },
        Key::Char('c') => if mods == Modifiers::Control { EditAction::CopySelection } else { EditAction::Edit },
        Key::Char('v') => if mods == Modifiers::Control { EditAction::Paste } else { EditAction::Edit },
        _ => EditAction::Edit,
    }
}

/// Only `Enter` with no modifier submits.
pub proof fn lemma_only_enter_submits(key: Key, mods: Modifiers)
    ensures
        edit_action_spec(key, mods) == EditAction::Submit <==> (key == Key::Enter && mods == Modifiers::Nothing),
{
}

/// What the history gives back for a key: a submitted text, a text to show in the box,
/// or nothing to do.
#[derive(Debug)]
pub enum HistoryReply {
    Submitted(String),
    Show(String),
    Keep,
}

impl InputHistory {
    /// Takes a key's action with `text`, the box's text: `Enter` submits it, `Up` and
    /// `Down` browse; every other action leaves the history as it is. Browsing keeps
    /// pointing at an entry that exists, and the history changes only by a submitted
    /// text becoming its newest entry.
    pub fn on_key(&mut self, action: EditAction, text: String) -> (r: HistoryReply)
        requires
            old(self).wf(),
        ensures
            final(self).wf(),
            r matches HistoryReply::Submitted(t) ==> action == EditAction::Submit && final(self)@.entries == old(self)@.entries.push(t@),
            !(r is Submitted) ==> final(self)@.entries == old(self)@.entries,
            action == EditAction::Submit ==> {
                &&& trim_of(text@).len() == 0 ==> r is Keep && final(self)@ == old(self)@
                &&& trim_of(text@).len() > 0 ==> (r matches HistoryReply::Submitted(t) && t@ == text@)
                    && final(self)@ == after_submit(old(self)@, text@)
            },
            action == EditAction::HistoryUp ==> {
                &&& old(self)@.entries.len() == 0 ==> r is Keep && final(self)@ == old(self)@
                &&& old(self)@.entries.len() > 0 ==> {
                    let idx = up_index(old(self)@);
                    &&& final(self)@.index == Some(idx)
                    &&& final(self)@.draft == (if old(self)@.index is None { text@ } else { old(self)@.draft })
                    &&& r matches HistoryReply::Show(t) && t@ == old(self)@.entries[idx as int]
                }
            },
            action == EditAction::HistoryDown ==> {
                &&& final(self)@.draft == old(self)@.draft
                &&& old(self)@.index is None ==> r is Keep && final(self)@ == old(self)@
                &&& old(self)@.index matches Some(i) ==> if i + 1 < old(self)@.entries.len() {
                    &&& final(self)@.index == Some((i + 1) as nat)
                    &&& r matches HistoryReply::Show(t) && t@ == old(self)@.entries[(i + 1) as int]
                } else {
                    &&& final(self)@.index is None
                    &&& r matches HistoryReply::Show(t) && t@ == old(self)@.draft
                }
            },
            !(action == EditAction::Submit || action == EditAction::HistoryUp || action == EditAction::HistoryDown)
                ==> r is Keep && final(self)@ == old(self)@,
    {
        let shown = match action {
            EditAction::Submit => {
                return match self.submit(text) {
                    Some(t) => HistoryReply::Submitted(t),
                    None => HistoryReply::Keep,
                };
            },
            EditAction::HistoryUp => self.up(text.as_str()),
            EditAction::HistoryDown => self.down(),
            _ => None,
        };
        match shown {
            Some(t) => HistoryReply::Show(t),
            None => HistoryReply::Keep,
        }
    }
}

/// The history after a text is submitted: the text is its newest entry and browsing stops.
pub open spec fn after_submit(m: InputHistoryModel, text: Seq<char>) -> InputHistoryModel {
    InputHistoryModel { entries: m.entries.push(text), index: None, draft: m.draft }
}

/// The entry that `Up` goes to: the newest one when not browsing, else the one before
/// the current one, staying at the oldest.
pub open spec fn up_index(m: InputHistoryModel) -> nat {
    match m.index {
        None => (m.entries.len() - 1) as nat,
        Some(i) => if i > 0 { (i - 1) as nat } else { i },
    }
}

/// `Up` goes to the newest entry when not browsing, then one entry older at each press,
/// staying at the oldest; it always lands on an entry that exists.
pub proof fn lemma_up_steps_back(m: InputHistoryModel)
    requires
        m.entries.len() > 0,
        m.index matches Some(i) ==> i < m.entries.len(),
    ensures
        m.index is None ==> up_index(m) == m.entries.len() - 1,
        m.index matches Some(i) ==> (i > 0 ==> up_index(m) + 1 == i) && (i == 0 ==> up_index(m) == 0),
        up_index(m) < m.entries.len(),
{
}

/// `Up` right after submitting a text brings that text back.
pub proof fn lemma_submit_then_up(m: InputHistoryModel, text: Seq<char>)
    ensures
        up_index(after_submit(m, text)) == m.entries.len(),
        after_submit(m, text).entries[up_index(after_submit(m, text)) as int] == text,
{
}

/// The display width that `UnicodeWidthChar::width` gives a character; `None` for
/// control characters.
pub uninterp spec fn char_width(c: char) -> Option<usize>;

/// `UnicodeWidthChar::width` of unicode-width. Beyond naming the result, the contract
/// states what its source shows: printable ASCII is one column wide, ASCII control
/// characters have no width, and no width exceeds 3.
#[verifier::external_body]
fn display_width(c: char) -> (r: Option<usize>)
    ensures
        r == char_width(c),
        r matches Some(w) ==> w <= 3,
        (c as u32) < 0x20 ==> r is None,
        0x20 <= (c as u32) && (c as u32) < 0x7f ==> r == Some(1usize),
{
    unicode_width::UnicodeWidthChar::width(c)
}

/// The columns a character takes when a line is drawn; 1 for a control character.
pub open spec fn cell_width(c: char) -> nat {
    match char_width(c) {
        Some(w) => w as nat,
        None => 1,
    }
}

/// The columns taken by the first `i` characters of `s`.
pub open spec fn columns_before(s: Seq<char>, i: int) -> nat
    decreases i,
{
    if i <= 0 {
        0
    } else {
        columns_before(s, i - 1) + cell_width(s[i - 1])
    }
}

/// The index of the character that a click at column `col` lands on: the first
/// character whose start is at or past `col`, or the end of the line.
pub open spec fn char_index_at(s: Seq<char>, col: nat) -> nat {
    if exists|i: int| 0 <= i < s.len() && columns_before(s, i) >= col {
        choose|i: nat| i < s.len() && columns_before(s, i as int) >= col
            && forall|j: int| 0 <= j < i ==> columns_before(s, j) < col
    } else {
        s.len()
    }
}

/// Converts a screen column within a line to a character index (wide characters take
/// two columns).
pub fn visual_col_to_char_index(line: &str, visual_col: usize) -> (r: usize)
    requires
        3 * line@.len() <= usize::MAX,
    ensures
        r == char_index_at(line@, visual_col as nat),
{
    let v = chars_of(line);
    let mut width: usize = 0;
    let mut i: usize = 0;
    while i < v.len()
        invariant
            v@ == line@,
            3 * line@.len() <= usize::MAX,
            i <= v.len(),
            width == columns_before(line@, i as int),
            width <= 3 * i,
            forall|j: int| 0 <= j < i ==> columns_before(line@, j) < visual_col,
        decreases v.len() - i,
    {
        if width >= visual_col {
            proof {
                let c = choose|c: nat| c < line@.len() && columns_before(line@, c as int) >= visual_col as nat
                    && forall|j: int| 0 <= j < c ==> columns_before(line@, j) < visual_col;
                if c < i {
                    assert(columns_before(line@, c as int) < visual_col);
                } else if c > i {
                    assert(columns_before(line@, i as int) < visual_col);
                }
            }
            return i;
        }
        let w: usize = match display_width(v[i]) {
            Some(w) => w,
            None => 1,
        };
        width = width + w;
        i = i + 1;
    }
    proof {
        assert forall|j: int| 0 <= j < line@.len() implies columns_before(line@, j) < visual_col by {}
    }
    v.len()
}

/// The display width that `UnicodeWidthStr::width` gives a text.
pub uninterp spec fn str_display_width(s: Seq<char>) -> usize;

/// `UnicodeWidthStr::width` of unicode-width. Beyond naming the result, the contract
/// states what its documentation gives for printable ASCII text: one column per character.
#[verifier::external_body]
fn text_width(s: &str) -> (r: usize)
    ensures
        r == str_display_width(s@),
        (forall|i: int| 0 <= i < s@.len() ==> 0x20 <= (#[trigger] s@[i] as u32) && (s@[i] as u32) < 0x7f) ==> r == s@.len(),
{
    unicode_width::UnicodeWidthStr::width(s)
}

/// The columns taken by the first `col` characters of a line, as a screen coordinate
/// (taken modulo 2^16).
pub fn prefix_width(line: &str, col: usize) -> (r: u16)
    ensures
        r == (#[verifier::truncate] (str_display_width(crate::text::take_chars(line@, col as nat)) as u16)),
{
    let prefix = crate::text::prefix_chars(line, col);
    let w = text_width(prefix.as_str());
    #[verifier::truncate] (w as u16)
}

/// The screen cell of the text cursor in the input box at `area`: the cursor is on text
/// row `row`, `prefix_width` columns into it; the box shows its last rows when the
/// cursor is below its inside (the area less its two border rows).
pub fn cursor_cell(area: Area, row: usize, prefix_width: u16) -> (r: (u16, u16))
    requires
        area.height > 2,
        area.y + area.height - 2 <= u16::MAX,
        area.x + 1 + prefix_width <= u16::MAX,
    ensures
        r.0 == area.x + 1 + prefix_width,
        r.1 == area.y + 1 + (if row >= area.height - 2 { area.height - 3 } else { row as int }),
{
    let inner_h: usize = (area.height - 2) as usize;
    let top_row: usize = if row >= inner_h { row - inner_h + 1 } else { 0 };
    let y = area.y + 1 + ((row - top_row) as u16);
    let x = area.x + 1 + prefix_width;
    (x, y)
}

/// The text row and screen column that a click at (`row`, `column`) lands on in the input
/// box at `area`, whose text has `line_count` rows with the cursor on row `cursor_row`:
/// rows are counted from the box's top border down, scrolled so that the cursor row is
/// visible, and kept on the last row; columns are counted from the left border.
pub open spec fn click_cell(area: Area, row: u16, column: u16, cursor_row: usize, line_count: usize) -> (int, int) {
    let inner_y: int = if row > area.y + 1 { row - (area.y + 1) } else { 0 };
    let inner_x: int = if column > area.x + 1 { column - (area.x + 1) } else { 0 };
    let inner_h: int = if area.height > 1 { area.height - 1 } else { 0 };
    let top_row: int = if cursor_row >= inner_h { cursor_row + 1 - inner_h } else { 0 };
    let last: int = if line_count > 0 { line_count - 1 } else { 0 };
    (if inner_y + top_row < last { inner_y + top_row } else { last }, inner_x)
}

/// Where a click lands in the input box: the text row, and the column within the line.
pub fn click_position(area: Area, row: u16, column: u16, cursor_row: usize, line_count: usize) -> (r: (usize, usize))
    requires
        area.y + 1 <= u16::MAX,
        area.x + 1 <= u16::MAX,
        cursor_row + 1 + u16::MAX <= usize::MAX,
    ensures
        (r.0 as int, r.1 as int) == click_cell(area, row, column, cursor_row, line_count),
{
    let inner_y: usize = row.saturating_sub(area.y + 1) as usize;
    let inner_x: usize = column.saturating_sub(area.x + 1) as usize;
    let inner_h: usize = area.height.saturating_sub(1) as usize;
    let top_row: usize = if cursor_row >= inner_h { cursor_row + 1 - inner_h } else { 0 };
    let last: usize = line_count.saturating_sub(1);
    let text_row: usize = if inner_y + top_row < last { inner_y + top_row } else { last };
    (text_row, inner_x)
}

} // verus!
