use vstd::prelude::*;

use crate::text::{str_eq, trim, trim_of, starts_with};

use ratatui::layout::{Constraint, Layout, Rect};

verus! {

broadcast use vstd::string::group_string_axioms;

/// The area of the screen that has the keyboard focus.
#[derive(Debug, Clone, Copy, PartialEq, Eq, Structural)]
pub enum FocusArea {
    Input,
    Chat,
    Schema,
    Table,
}

/// What the right-hand side of the screen shows.
#[derive(Debug, Clone, Copy, PartialEq, Eq, Structural)]
pub enum ViewMode {
    Chat,
    Table,
    Split,
}

/// The focus that `Tab` moves to: input, chat, schema, table, and round again.
pub open spec fn spec_next_focus(f: FocusArea) -> FocusArea {
    match f {
        FocusArea::Input => FocusArea::Chat,
        FocusArea::Chat => FocusArea::Schema,
        FocusArea::Schema => FocusArea::Table,
        FocusArea::Table => FocusArea::Input,
    }
}

/// The focus that `Shift+Tab` moves to: the cycle of `Tab` backwards.
pub open spec fn spec_prev_focus(f: FocusArea) -> FocusArea {
    match f {
        FocusArea::Input => FocusArea::Table,
        FocusArea::Chat => FocusArea::Input,
        FocusArea::Schema => FocusArea::Chat,
        FocusArea::Table => FocusArea::Schema,
    }
}

impl FocusArea {
    pub fn next(self) -> (r: FocusArea)
        ensures
            r == spec_next_focus(self),
    {
        match self {
            FocusArea::Input => FocusArea::Chat,
            FocusArea::Chat => FocusArea::Schema,
            FocusArea::Schema => FocusArea::Table,
            FocusArea::Table => FocusArea::Input,
        }
    }

    pub fn previous(self) -> (r: FocusArea)
        ensures
            r == spec_prev_focus(self),
    {
        match self {
            FocusArea::Input => FocusArea::Table,
            FocusArea::Chat => FocusArea::Input,
            FocusArea::Schema => FocusArea::Chat,
            FocusArea::Table => FocusArea::Schema,
        }
    }
}

/// `Shift+Tab` undoes `Tab`, and `Tab` undoes `Shift+Tab`.
pub proof fn lemma_focus_round_trip(f: FocusArea)
    ensures
        spec_prev_focus(spec_next_focus(f)) == f,
        spec_next_focus(spec_prev_focus(f)) == f,
{
}

/// Four presses of `Tab` visit every area once and come back.
pub proof fn lemma_focus_cycle(f: FocusArea)
    ensures
        spec_next_focus(spec_next_focus(spec_next_focus(spec_next_focus(f)))) == f,
        spec_next_focus(f) != f,
        spec_next_focus(spec_next_focus(f)) != f,
        spec_next_focus(spec_next_focus(spec_next_focus(f))) != f,
{
}

/// What a line typed into the input box asks for.
#[derive(Debug, Clone, PartialEq, Eq)]
pub enum InputCommand {
    Quit,
    Clear,
    Refresh,
    ShowChat,
    ShowTable,
    ShowSplit,
    Help,
    /// A `/` command that is not known; holds the trimmed text.
    Unknown(String),
    /// Anything else is a question for the model; holds the text as typed.
    Ask(String),
}

pub enum InputCommandModel {
    Quit,
    Clear,
    Refresh,
    ShowChat,
    ShowTable,
    ShowSplit,
    Help,
    Unknown(Seq<char>),
    Ask(Seq<char>),
}

impl View for InputCommand {
    type V = InputCommandModel;

    open spec fn view(&self) -> InputCommandModel {
        match self {
            InputCommand::Quit => InputCommandModel::Quit,
            InputCommand::Clear => InputCommandModel::Clear,
            InputCommand::Refresh => InputCommandModel::Refresh,
            InputCommand::ShowChat => InputCommandModel::ShowChat,
            InputCommand::ShowTable => InputCommandModel::ShowTable,
            InputCommand::ShowSplit => InputCommandModel::ShowSplit,
            InputCommand::Help => InputCommandModel::Help,
            InputCommand::Unknown(t) => InputCommandModel::Unknown(t@),
            InputCommand::Ask(t) => InputCommandModel::Ask(t@),
        }
    }
}

/// The meaning of a submitted line: after trimming, a line that begins with `/` is a
/// command (`/quit`, `/exit`, `/q`, `/clear`, `/refresh`, `/r`, `/chat`, `/table`,
/// `/split`, `/help`, or unknown); any other line is a question.
pub open spec fn command_of(input: Seq<char>) -> InputCommandModel {
    let t = trim_of(input);
    if t.len() > 0 && t[0] == '/' {
        if t == "/quit"@ || t == "/exit"@ || t == "/q"@ {
            InputCommandModel::Quit
        } else if t == "/clear"@ {
            InputCommandModel::Clear
        } else if t == "/refresh"@ || t == "/r"@ {
            InputCommandModel::Refresh
        } else if t == "/chat"@ {
            InputCommandModel::ShowChat
        } else if t == "/table"@ {
            InputCommandModel::ShowTable
        } else if t == "/split"@ {
            InputCommandModel::ShowSplit
        } else if t == "/help"@ {
            InputCommandModel::Help
        } else {
            InputCommandModel::Unknown(t)
        }
    } else {
        InputCommandModel::Ask(input)
    }
}

/// Each command that the help lists is read as itself, whatever spaces surround it, and
/// a line is read as that command only when it is one of its spellings.
pub proof fn lemma_listed_commands(input: Seq<char>)
    ensures
        (command_of(input) == InputCommandModel::Quit) <==> (trim_of(input) == "/quit"@ || trim_of(input) == "/exit"@ || trim_of(input) == "/q"@),
        (command_of(input) == InputCommandModel::Clear) <==> trim_of(input) == "/clear"@,
        (command_of(input) == InputCommandModel::Refresh) <==> (trim_of(input) == "/refresh"@ || trim_of(input) == "/r"@),
        (command_of(input) == InputCommandModel::ShowChat) <==> trim_of(input) == "/chat"@,
        (command_of(input) == InputCommandModel::ShowTable) <==> trim_of(input) == "/table"@,
        (command_of(input) == InputCommandModel::ShowSplit) <==> trim_of(input) == "/split"@,
        (command_of(input) == InputCommandModel::Help) <==> trim_of(input) == "/help"@,
{
    reveal_strlit("/quit");
    reveal_strlit("/exit");
    reveal_strlit("/q");
    reveal_strlit("/clear");
    reveal_strlit("/refresh");
    reveal_strlit("/r");
    reveal_strlit("/chat");
    reveal_strlit("/table");
    reveal_strlit("/split");
    reveal_strlit("/help");
    assert("/q"@[1] != "/r"@[1]);
    assert("/quit"@[1] != "/chat"@[1] && "/exit"@[1] != "/chat"@[1] && "/help"@[1] != "/chat"@[1]);
    assert("/quit"@[1] != "/help"@[1] && "/exit"@[1] != "/help"@[1]);
    assert("/clear"@[1] != "/table"@[1] && "/clear"@[1] != "/split"@[1] && "/table"@[1] != "/split"@[1]);
    assert("/quit"@.len() != "/refresh"@.len() && "/chat"@.len() != "/r"@.len());
}

/// Reads a submitted line as a command or a question.
pub fn parse_input(input: &str) -> (r: InputCommand)
    ensures
        r@ == command_of(input@),
{
    let t = trim(input);
    proof {
        reveal_strlit("/");
    }
    let slash = starts_with(t, "/");
    proof {
        if t@.len() > 0 && t@[0] == '/' {
            assert(t@.subrange(0, 1) =~= "/"@);
        }
        if slash {
            assert(t@.subrange(0, 1)[0] == t@[0]);
        }
    }
    if !slash {
        return InputCommand::Ask(input.to_string());
    }
    if str_eq(t, "/quit") || str_eq(t, "/exit") || str_eq(t, "/q") {
        InputCommand::Quit
    } else if str_eq(t, "/clear") {
        InputCommand::Clear
    } else if str_eq(t, "/refresh") || str_eq(t, "/r") {
        InputCommand::Refresh
    } else if str_eq(t, "/chat") {
        InputCommand::ShowChat
    } else if str_eq(t, "/table") {
        InputCommand::ShowTable
    } else if str_eq(t, "/split") {
        InputCommand::ShowSplit
    } else if str_eq(t, "/help") {
        InputCommand::Help
    } else {
        InputCommand::Unknown(t.to_string())
    }
}

/// The help text that `/help` shows.
pub fn help_text() -> (r: &'static str)
    ensures
        r@ == help_text_spec(),
{
    "可用命令:\n  /clear - 清空对话\n  /refresh - 刷新数据文件\n  /chat - 聊天视图\n  /table - 表格视图\n  /split - 分屏视图\n  /quit - 退出\n\n快捷键:\n  Tab - 切换焦点\n  F1/F2/F3 - 切换视图\n  F5 - 刷新数据\n  Esc - 退出\n\n对话面板快捷键:\n  ↑/↓ - 逐行滚动\n  PgUp/PgDn - 翻页滚动\n  Home/End - 跳到顶部/底部\n  y - 复制全部对话\n  s - 复制最后一条 SQL\n  r - 复制最后一条回复\n\n🖱️ 鼠标交互:\n  支持原生选择 - 直接用鼠标划选文本即可进行复制"
}

pub open spec fn help_text_spec() -> Seq<char> {
    "可用命令:\n  /clear - 清空对话\n  /refresh - 刷新数据文件\n  /chat - 聊天视图\n  /table - 表格视图\n  /split - 分屏视图\n  /quit - 退出\n\n快捷键:\n  Tab - 切换焦点\n  F1/F2/F3 - 切换视图\n  F5 - 刷新数据\n  Esc - 退出\n\n对话面板快捷键:\n  ↑/↓ - 逐行滚动\n  PgUp/PgDn - 翻页滚动\n  Home/End - 跳到顶部/底部\n  y - 复制全部对话\n  s - 复制最后一条 SQL\n  r - 复制最后一条回复\n\n🖱️ 鼠标交互:\n  支持原生选择 - 直接用鼠标划选文本即可进行复制"@
}

} // verus!

verus! {

/// The keys that the application tells apart.
#[derive(Debug, Clone, Copy, PartialEq, Eq, Structural)]
pub enum Key {
    Esc,
    Tab,
    BackTab,
    F(u8),
    Up,
    Down,
    PageUp,
    PageDown,
    Home,
    End,
    Enter,
    Char(char),
    Other,
}

/// A key press: the key, and whether no modifier key was held.
#[derive(Debug, Clone, Copy, PartialEq, Eq, Structural)]
pub struct KeyInput {
    pub key: Key,
    pub plain: bool,
}

/// What a key press does in the application.
#[derive(Debug, Clone, Copy, PartialEq, Eq, Structural)]
pub enum KeyAction {
    Quit,
    Focus(FocusArea),
    View(ViewMode),
    Refresh,
    /// The key goes to the input box.
    ToInput,
    ChatScrollUp,
    ChatScrollDown,
    ChatPageUp,
    ChatPageDown,
    ChatTop,
    ChatEnd,
    CopyAll,
    CopySql,
    CopyReply,
    SchemaPrevious,
    SchemaNext,
    SchemaToggle,
    TableUp,
    TableDown,
    Nothing,
}

/// The keys that work everywhere: `Esc` leaves a panel for the input box and quits
/// from the input box; `Tab` and `Shift+Tab` move the focus; `F1`, `F2`, `F3` pick the
/// view; `F5` scans the data again. Other keys go to the focused area.
pub open spec fn key_action_spec(focus: FocusArea, k: KeyInput) -> KeyAction {
    match k.key {
        Key::Esc => if focus != FocusArea::Input { KeyAction::Focus(FocusArea::Input) } else { KeyAction::Quit },
        Key::Tab if k.plain => KeyAction::Focus(spec_next_focus(focus)),
        Key::BackTab => KeyAction::Focus(spec_prev_focus(focus)),
        Key::F(1) => KeyAction::View(ViewMode::Chat),
        Key::F(2) => KeyAction::View(ViewMode::Table),
        Key::F(3) => KeyAction::View(ViewMode::Split),
        Key::F(5) => KeyAction::Refresh,
        _ => match focus {
            FocusArea::Input => KeyAction::ToInput,
            FocusArea::Chat => match k.key {
                Key::Up => KeyAction::ChatScrollUp,
                Key::Down => KeyAction::ChatScrollDown,
                Key::PageUp => KeyAction::ChatPageUp,
                Key::PageDown => KeyAction::ChatPageDown,
                Key::Home => KeyAction::ChatTop,
                Key::End => KeyAction::ChatEnd,
                Key::Char('y') => KeyAction::CopyAll,
                Key::Char('s') => KeyAction::CopySql,
                Key::Char('r') => KeyAction::CopyReply,
                _ => KeyAction::Nothing,
            },
            FocusArea::Schema => match k.key {
                Key::Up => KeyAction::SchemaPrevious,
                Key::Down => KeyAction::SchemaNext,
                Key::Enter => KeyAction::SchemaToggle,
                _ => KeyAction::Nothing,
            },
            FocusArea::Table => match k.key {
                Key::Up => KeyAction::TableUp,
                Key::Down => KeyAction::TableDown,
                _ => KeyAction::Nothing,
            },
        },
    }
}

/// Decides what a key press does, given the focused area.
pub fn key_action(focus: FocusArea, k: KeyInput) -> (r: KeyAction)
    ensures
        r == key_action_spec(focus, k),
{
    match k.key {
        Key::Esc => {
            if focus != FocusArea::Input {
                return KeyAction::Focus(FocusArea::Input);
            } else {
                return KeyAction::Quit;
            }
        },
        Key::Tab => {
            if k.plain {
                return KeyAction::Focus(focus.next());
            }
        },
        Key::BackTab => {
            return KeyAction::Focus(focus.previous());
        },
        Key::F(1) => {
            return KeyAction::View(ViewMode::Chat);
        },
        Key::F(2) => {
            return KeyAction::View(ViewMode::Table);
        },
        Key::F(3) => {
            return KeyAction::View(ViewMode::Split);
        },
        Key::F(5) => {
            return KeyAction::Refresh;
        },
        _ => {},
    }
    match focus {
        FocusArea::Input => KeyAction::ToInput,
        FocusArea::Chat => match k.key {
            Key::Up => KeyAction::ChatScrollUp,
            Key::Down => KeyAction::ChatScrollDown,
            Key::PageUp => KeyAction::ChatPageUp,
            Key::PageDown => KeyAction::ChatPageDown,
            Key::Home => KeyAction::ChatTop,
            Key::End => KeyAction::ChatEnd,
            Key::Char('y') => KeyAction::CopyAll,
            Key::Char('s') => KeyAction::CopySql,
            Key::Char('r') => KeyAction::CopyReply,
            _ => KeyAction::Nothing,
        },
        FocusArea::Schema => match k.key {
            Key::Up => KeyAction::SchemaPrevious,
            Key::Down => KeyAction::SchemaNext,
            Key::Enter => KeyAction::SchemaToggle,
            _ => KeyAction::Nothing,
        },
        FocusArea::Table => match k.key {
            Key::Up => KeyAction::TableUp,
            Key::Down => KeyAction::TableDown,
            _ => KeyAction::Nothing,
        },
    }
}

/// A rectangle of the screen, in cells.
#[derive(Debug, Clone, Copy, PartialEq, Eq, Structural)]
pub struct Area {
    pub x: u16,
    pub y: u16,
    pub width: u16,
    pub height: u16,
}

/// `a` and `b` cut `area` in two, one after the other: across its rows (`vertical`,
/// `a` on top) or across its columns (`a` on the left). Both keep the area's other axis;
/// `a` starts where the area does, `b` starts where `a` ends and ends where the area
/// does, and `a` takes `first_percent` of the area's length, rounded to a whole cell.
pub open spec fn tiles(area: Area, vertical: bool, first_percent: u16, a: Area, b: Area) -> bool {
    if vertical {
        &&& a.x == area.x && a.width == area.width && b.x == area.x && b.width == area.width
        &&& a.y == area.y && a.y + a.height == b.y && b.y + b.height == area.y + area.height
        &&& -50 <= 100 * a.height - first_percent * area.height <= 50
    } else {
        &&& a.y == area.y && a.height == area.height && b.y == area.y && b.height == area.height
        &&& a.x == area.x && a.x + a.width == b.x && b.x + b.width == area.x + area.width
        &&& -50 <= 100 * a.width - first_percent * area.width <= 50
    }
}

/// ratatui's `Layout::vertical` with two `Percentage` constraints that make up the whole,
/// then `Layout::split`. The layout's constraints (the source's `try_split`) hold the
/// pieces inside the area and keep its columns; the first spacer is empty, the spacer
/// between the pieces has the spacing (none), and each piece its percentage, stronger
/// than the wish of the last spacer to grow. These can all be met at once, so the
/// solver meets them, and the pieces, rounded to whole cells, tile the area in order.
#[verifier::external_body]
pub(crate) fn split_rows(area: Area, top_percent: u16, bottom_percent: u16) -> (r: (Area, Area))
    requires
        top_percent + bottom_percent == 100,
        area.y + area.height <= u16::MAX,
    ensures
        tiles(area, true, top_percent, r.0, r.1),
{
    let rect = Rect { x: area.x, y: area.y, width: area.width, height: area.height };
    let parts = Layout::vertical([Constraint::Percentage(top_percent), Constraint::Percentage(bottom_percent)]).split(rect);
    (
        Area { x: parts[0].x, y: parts[0].y, width: parts[0].width, height: parts[0].height },
        Area { x: parts[1].x, y: parts[1].y, width: parts[1].width, height: parts[1].height },
    )
}

/// ratatui's `Layout::horizontal` with two `Percentage` constraints that make up the
/// whole, then `Layout::split`: as `split_rows`, across the area's columns, keeping its
/// rows.
#[verifier::external_body]
pub(crate) fn split_columns(area: Area, left_percent: u16, right_percent: u16) -> (r: (Area, Area))
    requires
        left_percent + right_percent == 100,
        area.x + area.width <= u16::MAX,
    ensures
        tiles(area, false, left_percent, r.0, r.1),
{
    let rect = Rect { x: area.x, y: area.y, width: area.width, height: area.height };
    let parts = Layout::horizontal([Constraint::Percentage(left_percent), Constraint::Percentage(right_percent)]).split(rect);
    (
        Area { x: parts[0].x, y: parts[0].y, width: parts[0].width, height: parts[0].height },
        Area { x: parts[1].x, y: parts[1].y, width: parts[1].width, height: parts[1].height },
    )
}

pub open spec fn inside(a: Area, row: u16, column: u16) -> bool {
    a.y <= row < a.y + a.height && a.x <= column < a.x + a.width
}

pub open spec fn hit(a: Option<Area>, row: u16, column: u16) -> bool {
    a matches Some(r) && inside(r, row, column)
}

/// In the chat panel the three copy keys make three different copies: `y` the whole
/// conversation, `s` the last SQL, `r` the last reply; no other key copies.
pub proof fn lemma_chat_copy_keys(k: KeyInput)
    ensures
        (key_action_spec(FocusArea::Chat, k) == KeyAction::CopyAll) <==> k.key == Key::Char('y'),
        (key_action_spec(FocusArea::Chat, k) == KeyAction::CopySql) <==> k.key == Key::Char('s'),
        (key_action_spec(FocusArea::Chat, k) == KeyAction::CopyReply) <==> k.key == Key::Char('r'),
{
}

/// The panel under a mouse position; the schema panel is tried first, then the chat,
/// then the table.
pub open spec fn panel_at_spec(schema: Option<Area>, chat: Option<Area>, table: Option<Area>, row: u16, column: u16) -> Option<FocusArea> {
    if hit(schema, row, column) {
        Some(FocusArea::Schema)
    } else if hit(chat, row, column) {
        Some(FocusArea::Chat)
    } else if hit(table, row, column) {
        Some(FocusArea::Table)
    } else {
        None
    }
}

fn is_hit(a: Option<Area>, row: u16, column: u16) -> (r: bool)
    ensures
        r == hit(a, row, column),
{
    match a {
        Some(r) => {
            let row_end = r.y as u32 + r.height as u32;
            let col_end = r.x as u32 + r.width as u32;
            row >= r.y && (row as u32) < row_end && column >= r.x && (column as u32) < col_end
        },
        None => false,
    }
}

/// Finds the panel under a mouse position, for routing scroll events.
pub fn panel_at(schema: Option<Area>, chat: Option<Area>, table: Option<Area>, row: u16, column: u16) -> (r: Option<FocusArea>)
    ensures
        r == panel_at_spec(schema, chat, table, row, column),
{
    if is_hit(schema, row, column) {
        Some(FocusArea::Schema)
    } else if is_hit(chat, row, column) {
        Some(FocusArea::Chat)
    } else if is_hit(table, row, column) {
        Some(FocusArea::Table)
    } else {
        None
    }
}

} // verus!
