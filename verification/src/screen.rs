use vstd::prelude::*;

use crate::engine_plan::{file_name_of, portable_path};
use crate::llm::{extract_sql_of, runnable_sql, LlmClient};
use crate::models::{QueryResultData, TableSchema};
use crate::mouse::{is_trackpad_gap, scroll_delta, MouseScrollState, ScrollDirection};
use crate::text::{cat2, concat_all, decimal, decimal_text, owned};
use crate::ui::{
    command_of, help_text, help_text_spec, key_action, key_action_spec, panel_at, panel_at_spec, parse_input,
    lemma_focus_round_trip, split_columns, split_rows, tiles, Area, FocusArea, InputCommand, InputCommandModel, Key, KeyAction,
    KeyInput, ViewMode,
};
use crate::widgets::chat::{
    chat_models, is_clock_text, last_reply_of, last_sql_of, message_text, scrolled_offset, welcome_text,
    ChatMessageModel, ChatPanel, MessageRole,
};
use crate::widgets::schema_panel::{schema_moved, toggled, SchemaPanel};
use crate::widgets::status_bar::StatusBarData;
use crate::widgets::table_view::{row_down, row_up, TableView};

verus! {

broadcast use vstd::string::group_string_axioms;

/// A mouse event as the screen tells them apart.
#[derive(Debug, Clone, Copy, PartialEq, Eq, Structural)]
pub enum MouseKind {
    ScrollUp,
    ScrollDown,
    Other,
}

/// A mouse event and the cell it happened at.
#[derive(Debug, Clone, Copy, PartialEq, Eq, Structural)]
pub struct MouseInput {
    pub kind: MouseKind,
    pub row: u16,
    pub column: u16,
}

/// What reaches the screen: input, and the answers of the work it started.
#[derive(Debug)]
pub enum AppEvent {
    Key(KeyInput),
    Mouse(MouseInput),
    Resize(u16, u16),
    Tick,
    LlmChunk(String),
    LlmReasoningChunk(String),
    LlmDone,
    LlmStreamStart,
    LlmError(String),
    QueryResult(QueryResultData),
    QueryError(String),
    SchemaDone(Vec<TableSchema>),
    ToolCallStarted { id: String, name: String, args: String },
    ToolCallResult { id: String, name: String, result: String, is_error: bool },
}

/// Which text a copy asks for.
#[derive(Debug, Clone, Copy, PartialEq, Eq, Structural)]
pub enum CopyKind {
    All,
    Sql,
    Reply,
}

/// The work that the screen hands to the program around it.
#[derive(Debug)]
pub enum Effect {
    Nothing,
    /// Scan the data directory again and report with `SchemaDone`.
    Scan,
    /// Hand the key to the input box.
    ToInput(KeyInput),
    /// Send the question to the model.
    Ask(String),
    /// Put the text on the clipboard and report with `on_copied`.
    Copy { kind: CopyKind, text: String },
    /// Run this SQL and report with `QueryResult` or `QueryError`.
    Execute(String),
}

/// The state of the interactive screen.
pub struct App {
    pub running: bool,
    pub focus: FocusArea,
    pub view_mode: ViewMode,
    pub chat_panel: ChatPanel,
    pub schema_panel: SchemaPanel,
    pub table_view: TableView,
    pub status_bar: StatusBarData,
    pub chat_panel_area: Option<Area>,
    pub schema_panel_area: Option<Area>,
    pub table_view_area: Option<Area>,
    pub input_box_area: Option<Area>,
    pub mouse_scroll: MouseScrollState,
}

/// The name of the last component of a path (`Path::file_name`), as text. Whatever the
/// path, a name is a piece of it; for a path that every platform splits at `/` alone,
/// the name is the one std documents: the last part once trailing separators and `.`
/// parts are passed over, and none when that part is `..` or there is none.
#[verifier::external_body]
fn path_file_name(path: &str) -> (r: Option<String>)
    ensures
        r matches Some(n) ==> exists|i: int, j: int| 0 <= i <= j <= path@.len() && n@ == path@.subrange(i, j),
        portable_path(path@) ==> (r is Some <==> file_name_of(path@) is Some),
        r matches Some(n) ==> (portable_path(path@) ==> file_name_of(path@) == Some(n@)),
{
    std::path::Path::new(path).file_name().map(|n| n.to_string_lossy().into_owned())
}

/// The project name shown in the status bar: the configured name, else the name of the
/// project's directory, else "未知项目".
pub fn project_label(config_name: &str, project_dir: &str) -> (r: String)
    ensures
        config_name@.len() > 0 ==> r@ == config_name@,
        config_name@.len() == 0 ==> (r@ == "未知项目"@ || exists|i: int, j: int| 0 <= i <= j <= project_dir@.len() && r@ == project_dir@.subrange(i, j)),
        config_name@.len() == 0 && portable_path(project_dir@) ==> r@ == match file_name_of(project_dir@) {
            Some(n) => n,
            None => "未知项目"@,
        },
{
    if config_name.unicode_len() > 0 {
        owned(config_name)
    } else {
        match path_file_name(project_dir) {
            Some(n) => n,
            None => owned("未知项目"),
        }
    }
}

/// `after` is `before` with one more message of the given role and content, stamped
/// with the time of day, and scrolled to the newest message.
pub open spec fn posted(before: ChatPanel, after: ChatPanel, role: MessageRole, content: Seq<char>) -> bool {
    &&& after.messages@.len() == before.messages@.len() + 1
    &&& chat_models(after.messages@).drop_last() == chat_models(before.messages@)
    &&& after.messages@.last()@.role == role
    &&& after.messages@.last()@.content == content
    &&& after.messages@.last()@.sql is None
    &&& after.messages@.last()@.reasoning is None
    &&& is_clock_text(after.messages@.last()@.timestamp)
    &&& after.scroll_offset == 0
    &&& after.is_streaming == before.is_streaming
    &&& after.show_reasoning == before.show_reasoning
    &&& after.streaming_text@ == before.streaming_text@
    &&& after.streaming_reasoning@ == before.streaming_reasoning@
}

/// A panel as `ChatPanel::new` makes it: the welcome message only, nothing streaming,
/// scrolled to the end, reasoning shown.
pub open spec fn fresh_panel(p: ChatPanel) -> bool {
    &&& p.messages@.len() == 1
    &&& p.messages@[0]@.role == MessageRole::System
    &&& p.messages@[0]@.content == welcome_text()
    &&& p.scroll_offset == 0
    &&& p.streaming_text@.len() == 0
    &&& p.streaming_reasoning@.len() == 0
    &&& !p.is_streaming
    &&& p.show_reasoning
}

/// The message posted when the data is scanned again.
pub open spec fn refresh_notice() -> Seq<char> {
    "🔄 正在重新扫描 data/ /目录并刷新表结构..."@
}

/// The text a copy of each kind takes from the conversation.
pub open spec fn copy_source(ms: Seq<ChatMessageModel>, kind: CopyKind) -> Option<Seq<char>> {
    match kind {
        CopyKind::All => Some(concat_all(ms.map_values(|m: ChatMessageModel| message_text(m)))),
        CopyKind::Sql => last_sql_of(ms),
        CopyKind::Reply => last_reply_of(ms),
    }
}

/// The message posted when there is nothing to copy.
pub open spec fn nothing_to_copy(kind: CopyKind) -> Seq<char> {
    match kind {
        CopyKind::Sql => "没有可复制的 SQL"@,
        CopyKind::Reply => "没有可复制的回复"@,
        CopyKind::All => "没有可复制的内容"@,
    }
}

/// What was put on the clipboard, as the confirmation names it.
pub open spec fn copied_label(kind: CopyKind) -> Seq<char> {
    match kind {
        CopyKind::Sql => "SQL 已复制到剪贴板"@,
        CopyKind::Reply => "最后一条回复已复制到剪贴板"@,
        CopyKind::All => "对话内容已复制到剪贴板"@,
    }
}

/// The lines a page of the chat panel moves: the panel's inside height (its area less
/// the two border rows), or one line before the panel was first drawn.
pub open spec fn chat_page_of(area: Option<Area>) -> u16 {
    match area {
        Some(a) => if a.height > 2 { (a.height - 2) as u16 } else { 1 },
        None => 1,
    }
}

/// The summary posted when a query answered.
pub open spec fn query_summary(row_count: usize, columns: nat, ms: u64) -> Seq<char> {
    "查询完成："@ + decimal(row_count as nat) + " 行 × "@ + decimal(columns) + " 列，耗时 "@ + decimal(ms as nat) + "ms"@
}

/// `after` holds `before`'s chat panel scrolled to `offset`, and nothing else changed.
pub open spec fn rescrolled(before: ChatPanel, after: ChatPanel, offset: u16) -> bool {
    after == (ChatPanel { scroll_offset: offset, ..before })
}

/// Whether the action works on the chat panel.
pub open spec fn acts_on_chat(a: KeyAction) -> bool {
    match a {
        KeyAction::Refresh | KeyAction::ChatScrollUp | KeyAction::ChatScrollDown | KeyAction::ChatPageUp
        | KeyAction::ChatPageDown | KeyAction::ChatTop | KeyAction::ChatEnd | KeyAction::CopyAll
        | KeyAction::CopySql | KeyAction::CopyReply => true,
        _ => false,
    }
}

/// Whether the action works on the schema panel.
pub open spec fn acts_on_schema(a: KeyAction) -> bool {
    a is SchemaPrevious || a is SchemaNext || a is SchemaToggle
}

/// Whether the action works on the table.
pub open spec fn acts_on_table(a: KeyAction) -> bool {
    a is TableUp || a is TableDown
}

/// `after` keeps the status bar, the panel areas and the scroll timing of `before`.
pub open spec fn same_frame(before: App, after: App) -> bool {
    &&& after.status_bar == before.status_bar
    &&& same_areas(before, after)
    &&& after.mouse_scroll == before.mouse_scroll
}

/// `after` differs from `before` in the chat panel at most.
pub open spec fn chat_only(before: App, after: App) -> bool {
    &&& after.running == before.running
    &&& after.focus == before.focus
    &&& after.view_mode == before.view_mode
    &&& after.schema_panel == before.schema_panel
    &&& after.table_view == before.table_view
    &&& same_frame(before, after)
}

/// The effect and state after a key press, by the action the key stands for. A key
/// changes only what its action works on: a focus key only the focus, a view key only
/// the view.
pub open spec fn key_handled(before: App, after: App, k: KeyInput, r: Effect) -> bool {
    let a = key_action_spec(before.focus, k);
    let c = before.chat_panel;
    &&& after.running == (before.running && a != KeyAction::Quit)
    &&& after.focus == (match a {
        KeyAction::Focus(f) => f,
        _ => before.focus,
    })
    &&& after.view_mode == (match a {
        KeyAction::View(v) => v,
        _ => before.view_mode,
    })
    &&& same_frame(before, after)
    &&& !acts_on_chat(a) ==> after.chat_panel == before.chat_panel
    &&& !acts_on_schema(a) ==> after.schema_panel == before.schema_panel
    &&& !acts_on_table(a) ==> after.table_view == before.table_view
    &&& match a {
        KeyAction::Refresh => r is Scan && posted(c, after.chat_panel, MessageRole::System, refresh_notice()),
        KeyAction::ToInput => r == Effect::ToInput(k),
        KeyAction::ChatScrollUp => r is Nothing && rescrolled(c, after.chat_panel, c.scroll_offset.saturating_add(1)),
        KeyAction::ChatScrollDown => r is Nothing && rescrolled(c, after.chat_panel, c.scroll_offset.saturating_sub(1)),
        KeyAction::ChatPageUp => r is Nothing && rescrolled(
            c,
            after.chat_panel,
            c.scroll_offset.saturating_add(chat_page_of(before.chat_panel_area)),
        ),
        KeyAction::ChatPageDown => r is Nothing && rescrolled(
            c,
            after.chat_panel,
            c.scroll_offset.saturating_sub(chat_page_of(before.chat_panel_area)),
        ),
        KeyAction::ChatTop => r is Nothing && rescrolled(c, after.chat_panel, u16::MAX),
        KeyAction::ChatEnd => r is Nothing && rescrolled(c, after.chat_panel, 0),
        KeyAction::CopyAll => copy_handled(before, after, CopyKind::All, r),
        KeyAction::CopySql => copy_handled(before, after, CopyKind::Sql, r),
        KeyAction::CopyReply => copy_handled(before, after, CopyKind::Reply, r),
        KeyAction::SchemaPrevious => r is Nothing && schema_moved(before.schema_panel, after.schema_panel, false)
            && after.schema_panel.focused == before.schema_panel.focused,
        KeyAction::SchemaNext => r is Nothing && schema_moved(before.schema_panel, after.schema_panel, true)
            && after.schema_panel.focused == before.schema_panel.focused,
        KeyAction::SchemaToggle => r is Nothing && toggled(before.schema_panel, after.schema_panel)
            && after.schema_panel.focused == before.schema_panel.focused,
        KeyAction::TableUp => r is Nothing && after.table_view.data_spec() == before.table_view.data_spec()
            && after.table_view.spec_selected() == row_up(before.table_view.spec_selected()),
        KeyAction::TableDown => r is Nothing && after.table_view.data_spec() == before.table_view.data_spec()
            && after.table_view.spec_selected() == row_down(before.table_view.spec_selected(), before.table_view.row_count()),
        _ => r is Nothing,
    }
}

/// `Shift+Tab` after `Tab`, or `Tab` after `Shift+Tab`, gives the screen back as it was:
/// the focus returns where it started, and neither key changes anything else.
pub proof fn lemma_tab_keys_round_trip(a: App, b: App, c: App, first: KeyInput, second: KeyInput, r1: Effect, r2: Effect)
    requires
        (first.key == Key::Tab && first.plain && second.key == Key::BackTab)
            || (first.key == Key::BackTab && second.key == Key::Tab && second.plain),
        key_handled(a, b, first, r1),
        key_handled(b, c, second, r2),
    ensures
        c == a,
        r1 is Nothing,
        r2 is Nothing,
{
    lemma_focus_round_trip(a.focus);
}

/// A copy: the text is handed out when there is some, and the conversation stays as it
/// is; else a message says there is none.
pub open spec fn copy_handled(before: App, after: App, kind: CopyKind, r: Effect) -> bool {
    match copy_source(chat_models(before.chat_panel.messages@), kind) {
        Some(t) if t.len() > 0 => (r matches Effect::Copy { kind: k, text } && k == kind && text@ == t)
            && after.chat_panel == before.chat_panel,
        _ => r is Nothing && posted(before.chat_panel, after.chat_panel, MessageRole::System, nothing_to_copy(kind)),
    }
}

/// The effect and state after a line is submitted, by what the line asks for. A line
/// changes only the conversation, the view and whether the screen runs.
pub open spec fn submit_handled(before: App, after: App, input: Seq<char>, r: Effect) -> bool {
    let c = command_of(input);
    &&& after.running == (before.running && !(c is Quit))
    &&& after.view_mode == (match c {
        InputCommandModel::ShowChat => ViewMode::Chat,
        InputCommandModel::ShowTable => ViewMode::Table,
        InputCommandModel::ShowSplit => ViewMode::Split,
        _ => before.view_mode,
    })
    &&& after.focus == before.focus
    &&& after.schema_panel == before.schema_panel
    &&& after.table_view == before.table_view
    &&& same_frame(before, after)
    &&& match c {
        InputCommandModel::Clear => r is Nothing && fresh_panel(after.chat_panel),
        InputCommandModel::Refresh => r is Scan && posted(before.chat_panel, after.chat_panel, MessageRole::System, refresh_notice()),
        InputCommandModel::Help => r is Nothing && posted(before.chat_panel, after.chat_panel, MessageRole::System, help_text_spec()),
        InputCommandModel::Unknown(t) => r is Nothing && posted(before.chat_panel, after.chat_panel, MessageRole::System, "未知命令: "@ + t),
        InputCommandModel::Ask(q) => (r matches Effect::Ask(text) && text@ == q) && asked(before.chat_panel, after.chat_panel, q),
        _ => r is Nothing && after.chat_panel == before.chat_panel,
    }
}

/// `after` is `before` with the question `q` posted as the user's message and an empty
/// answer streaming.
pub open spec fn asked(before: ChatPanel, after: ChatPanel, q: Seq<char>) -> bool {
    &&& after.messages@.len() == before.messages@.len() + 1
    &&& chat_models(after.messages@).drop_last() == chat_models(before.messages@)
    &&& after.messages@.last()@.role == MessageRole::User
    &&& after.messages@.last()@.content == q
    &&& after.messages@.last()@.sql is None
    &&& after.messages@.last()@.reasoning is None
    &&& is_clock_text(after.messages@.last()@.timestamp)
    &&& after.scroll_offset == 0
    &&& after.is_streaming
    &&& after.streaming_text@.len() == 0
    &&& after.streaming_reasoning@.len() == 0
    &&& after.show_reasoning == before.show_reasoning
}

/// The effect and state after a mouse event: a scroll moves the panel under the pointer
/// by the lines that the scroll state gives for the time since the previous scroll (one
/// for a trackpad, three for a wheel; back for a scroll up) and leaves the other panels
/// as they were; other events, and scrolls outside the panels, change no panel. Only
/// the scroll state records the time of a scroll.
pub open spec fn mouse_handled(before: App, after: App, m: MouseInput, r: Effect) -> bool {
    let up = m.kind is ScrollUp;
    let direction = if up { ScrollDirection::Up } else { ScrollDirection::Down };
    let hit = panel_at_spec(before.schema_panel_area, before.chat_panel_area, before.table_view_area, m.row, m.column);
    let scrolls = m.kind is ScrollUp || m.kind is ScrollDown;
    let d = scroll_delta(direction, is_trackpad_gap(after.mouse_scroll.last_gap()));
    &&& r is Nothing
    &&& after.running == before.running
    &&& after.focus == before.focus
    &&& after.view_mode == before.view_mode
    &&& after.status_bar == before.status_bar
    &&& same_areas(before, after)
    &&& !scrolls ==> after.mouse_scroll == before.mouse_scroll
    &&& scrolls ==> after.mouse_scroll.has_previous()
        && (after.mouse_scroll.last_gap() is Some <==> before.mouse_scroll.has_previous())
    &&& (scrolls && hit == Some(FocusArea::Chat)) ==> after.chat_panel == (ChatPanel {
        scroll_offset: scrolled_offset(before.chat_panel.scroll_offset, d) as u16,
        ..before.chat_panel
    })
    &&& (scrolls && hit == Some(FocusArea::Schema)) ==> schema_moved(before.schema_panel, after.schema_panel, !up)
        && after.schema_panel.focused == before.schema_panel.focused
    &&& (scrolls && hit == Some(FocusArea::Table)) ==> after.table_view.data_spec() == before.table_view.data_spec()
        && after.table_view.spec_selected() == (if up {
            row_up(before.table_view.spec_selected())
        } else {
            row_down(before.table_view.spec_selected(), before.table_view.row_count())
        })
    &&& !(scrolls && hit == Some(FocusArea::Chat)) ==> after.chat_panel == before.chat_panel
    &&& !(scrolls && hit == Some(FocusArea::Schema)) ==> after.schema_panel == before.schema_panel
    &&& !(scrolls && hit == Some(FocusArea::Table)) ==> after.table_view == before.table_view
}

/// The area that `top` and `bottom` make up when `bottom` lies right under `top`.
pub open spec fn stacked(top: Area, bottom: Area) -> Area {
    Area { x: top.x, y: top.y, width: top.width, height: (top.height + bottom.height) as u16 }
}

/// Where the panels go in `content`: the schema list in the left quarter; in the right
/// three quarters the chat, the table, or the chat on top (three fifths) of the table,
/// by the view. A panel that is not shown has no area.
pub open spec fn panels_placed(
    view: ViewMode,
    content: Area,
    schema: Option<Area>,
    chat: Option<Area>,
    table: Option<Area>,
) -> bool {
    &&& schema is Some
    &&& match view {
        ViewMode::Chat => chat is Some && table is None && tiles(content, false, 25, schema->0, chat->0),
        ViewMode::Table => chat is None && table is Some && tiles(content, false, 25, schema->0, table->0),
        ViewMode::Split => {
            &&& chat is Some
            &&& table is Some
            &&& tiles(content, false, 25, schema->0, stacked(chat->0, table->0))
            &&& tiles(stacked(chat->0, table->0), true, 60, chat->0, table->0)
        },
    }
}

/// `after` keeps the panel areas of `before`.
pub open spec fn same_areas(before: App, after: App) -> bool {
    &&& after.chat_panel_area == before.chat_panel_area
    &&& after.schema_panel_area == before.schema_panel_area
    &&& after.table_view_area == before.table_view_area
    &&& after.input_box_area == before.input_box_area
}

impl App {
    /// The screen at start: focus on the input box, the chat view, empty panels, and the
    /// status bar showing the project, the model and whether its key is set.
    pub fn new(project_name: String, llm_configured: bool, model_name: String, show_reasoning: bool) -> (r: App)
        ensures
            r.running,
            r.focus == FocusArea::Input,
            r.view_mode == ViewMode::Chat,
            r.chat_panel.messages@.len() == 1,
            r.chat_panel.show_reasoning == show_reasoning,
            !r.chat_panel.is_streaming,
            r.schema_panel.schemas@.len() == 0,
            r.table_view.data_spec() is None,
            !r.status_bar.db_connected,
            r.status_bar.llm_configured == llm_configured,
            r.status_bar.model_name@ == model_name@,
            r.status_bar.project_name@ == project_name@,
            r.status_bar.data_files_count == 0,
            r.chat_panel_area is None,
            r.schema_panel_area is None,
            r.table_view_area is None,
            r.input_box_area is None,
    {
        let mut chat_panel = ChatPanel::new();
        chat_panel.show_reasoning = show_reasoning;
        App {
            running: true,
            focus: FocusArea::Input,
            view_mode: ViewMode::Chat,
            chat_panel,
            schema_panel: SchemaPanel::new(),
            table_view: TableView::new(),
            status_bar: StatusBarData {
                db_connected: false,
                llm_configured,
                model_name,
                project_name,
                data_files_count: 0,
            },
            chat_panel_area: None,
            schema_panel_area: None,
            table_view_area: None,
            input_box_area: None,
            mouse_scroll: MouseScrollState::new(),
        }
    }

    /// Lays the panels out for drawing: `content` is the band between the title bar and
    /// the input box, `input` the input box. Stores the areas that mouse events are routed
    /// by, marks the schema list focused when it has the focus, and tells whether the
    /// input box has it.
    pub fn place_panels(&mut self, content: Area, input: Area) -> (input_focused: bool)
        requires
            content.x + content.width <= u16::MAX,
            content.y + content.height <= u16::MAX,
        ensures
            input_focused == (old(self).focus == FocusArea::Input),
            panels_placed(
                old(self).view_mode,
                content,
                final(self).schema_panel_area,
                final(self).chat_panel_area,
                final(self).table_view_area,
            ),
            final(self).input_box_area == Some(input),
            final(self).schema_panel == (SchemaPanel { focused: old(self).focus == FocusArea::Schema, ..old(self).schema_panel }),
            final(self).running == old(self).running,
            final(self).focus == old(self).focus,
            final(self).view_mode == old(self).view_mode,
            final(self).chat_panel == old(self).chat_panel,
            final(self).table_view == old(self).table_view,
            final(self).status_bar == old(self).status_bar,
            final(self).mouse_scroll == old(self).mouse_scroll,
    {
        self.schema_panel.focused = match self.focus {
            FocusArea::Schema => true,
            _ => false,
        };
        let (left, right) = split_columns(content, 25, 75);
        self.schema_panel_area = Some(left);
        match self.view_mode {
            ViewMode::Chat => {
                self.chat_panel_area = Some(right);
                self.table_view_area = None;
            },
            ViewMode::Table => {
                self.chat_panel_area = None;
                self.table_view_area = Some(right);
            },
            ViewMode::Split => {
                let (top, bottom) = split_rows(right, 60, 40);
                assert(stacked(top, bottom) == right);
                self.chat_panel_area = Some(top);
                self.table_view_area = Some(bottom);
            },
        }
        self.input_box_area = Some(input);
        match self.focus {
            FocusArea::Input => true,
            _ => false,
        }
    }

    fn refresh_data(&mut self) -> (r: Effect)
        ensures
            r is Scan,
            posted(old(self).chat_panel, final(self).chat_panel, MessageRole::System, refresh_notice()),
            chat_only(*old(self), *final(self)),
    {
        self.chat_panel.add_message(MessageRole::System, owned("🔄 正在重新扫描 data/ /目录并刷新表结构..."));
        Effect::Scan
    }

    fn copy_kind_text(&self, kind: CopyKind) -> (r: Option<String>)
        ensures
            match r {
                Some(t) => copy_source(chat_models(self.chat_panel.messages@), kind) == Some(t@),
                None => copy_source(chat_models(self.chat_panel.messages@), kind) is None,
            },
    {
        match kind {
            CopyKind::Sql => match self.chat_panel.last_sql() {
                Some(s) => Some(owned(s)),
                None => None,
            },
            CopyKind::Reply => match self.chat_panel.last_reply() {
                Some(s) => Some(owned(s)),
                None => None,
            },
            CopyKind::All => Some(self.chat_panel.full_text()),
        }
    }

    /// Asks for a copy of the whole conversation, the last SQL or the last reply.
    pub fn copy_chat_content(&mut self, kind: CopyKind) -> (r: Effect)
        ensures
            copy_handled(*old(self), *final(self), kind, r),
            chat_only(*old(self), *final(self)),
    {
        match self.copy_kind_text(kind) {
            Some(t) => {
                if t.as_str().unicode_len() > 0 {
                    return Effect::Copy { kind, text: t };
                }
            },
            None => {},
        }
        let label = match kind {
            CopyKind::Sql => "没有可复制的 SQL",
            CopyKind::Reply => "没有可复制的回复",
            CopyKind::All => "没有可复制的内容",
        };
        self.chat_panel.add_message(MessageRole::System, owned(label));
        Effect::Nothing
    }

    /// Reports how the clipboard took a copy: a confirmation, or the error.
    pub fn on_copied(&mut self, kind: CopyKind, outcome: Result<(), String>)
        ensures
            match outcome {
                Ok(()) => posted(old(self).chat_panel, final(self).chat_panel, MessageRole::System, "📋 "@ + copied_label(kind)),
                Err(e) => posted(old(self).chat_panel, final(self).chat_panel, MessageRole::System, "❌ 复制失败: "@ + e@),
            },
            chat_only(*old(self), *final(self)),
    {
        match outcome {
            Ok(()) => {
                let label = match kind {
                    CopyKind::Sql => "SQL 已复制到剪贴板",
                    CopyKind::Reply => "最后一条回复已复制到剪贴板",
                    CopyKind::All => "对话内容已复制到剪贴板",
                };
                self.chat_panel.add_message(MessageRole::System, cat2("📋 ", label));
            },
            Err(e) => {
                self.chat_panel.add_message(MessageRole::System, cat2("❌ 复制失败: ", e.as_str()));
            },
        }
    }

    fn chat_page(&self) -> (r: u16)
        ensures
            r == chat_page_of(self.chat_panel_area),
    {
        match self.chat_panel_area {
            Some(a) => if a.height > 2 { a.height - 2 } else { 1 },
            None => 1,
        }
    }

    /// Handles a key press: the keys that work everywhere first, then the keys of the
    /// focused panel; keys for the input box are handed out.
    pub fn handle_key(&mut self, k: KeyInput) -> (r: Effect)
        ensures
            key_handled(*old(self), *final(self), k, r),
    {
        let action = key_action(self.focus, k);
        match action {
            KeyAction::Quit => {
                self.running = false;
                Effect::Nothing
            },
            KeyAction::Focus(f) => {
                self.focus = f;
                Effect::Nothing
            },
            KeyAction::View(v) => {
                self.view_mode = v;
                Effect::Nothing
            },
            KeyAction::Refresh => self.refresh_data(),
            KeyAction::ToInput => Effect::ToInput(k),
            KeyAction::ChatScrollUp => {
                self.chat_panel.scroll_up();
                Effect::Nothing
            },
            KeyAction::ChatScrollDown => {
                self.chat_panel.scroll_down();
                Effect::Nothing
            },
            KeyAction::ChatPageUp => {
                let page = self.chat_page();
                self.chat_panel.page_up(page);
                Effect::Nothing
            },
            KeyAction::ChatPageDown => {
                let page = self.chat_page();
                self.chat_panel.page_down(page);
                Effect::Nothing
            },
            KeyAction::ChatTop => {
                self.chat_panel.scroll_to_top();
                Effect::Nothing
            },
            KeyAction::ChatEnd => {
                self.chat_panel.scroll_to_end();
                Effect::Nothing
            },
            KeyAction::CopyAll => self.copy_chat_content(CopyKind::All),
            KeyAction::CopySql => self.copy_chat_content(CopyKind::Sql),
            KeyAction::CopyReply => self.copy_chat_content(CopyKind::Reply),
            KeyAction::SchemaPrevious => {
                self.schema_panel.move_selection(false);
                Effect::Nothing
            },
            KeyAction::SchemaNext => {
                self.schema_panel.move_selection(true);
                Effect::Nothing
            },
            KeyAction::SchemaToggle => {
                self.schema_panel.toggle_checked();
                Effect::Nothing
            },
            KeyAction::TableUp => {
                self.table_view.scroll_up();
                Effect::Nothing
            },
            KeyAction::TableDown => {
                self.table_view.scroll_down();
                Effect::Nothing
            },
            KeyAction::Nothing => Effect::Nothing,
        }
    }

    /// Handles a submitted line: a `/` command acts on the screen, anything else is
    /// posted as the user's question and sent to the model.
    pub fn on_submit(&mut self, input: String) -> (r: Effect)
        ensures
            submit_handled(*old(self), *final(self), input@, r),
    {
        match parse_input(input.as_str()) {
            InputCommand::Quit => {
                self.running = false;
                Effect::Nothing
            },
            InputCommand::Clear => {
                self.chat_panel = ChatPanel::new();
                Effect::Nothing
            },
            InputCommand::Refresh => self.refresh_data(),
            InputCommand::ShowChat => {
                self.view_mode = ViewMode::Chat;
                Effect::Nothing
            },
            InputCommand::ShowTable => {
                self.view_mode = ViewMode::Table;
                Effect::Nothing
            },
            InputCommand::ShowSplit => {
                self.view_mode = ViewMode::Split;
                Effect::Nothing
            },
            InputCommand::Help => {
                self.chat_panel.add_message(MessageRole::System, owned(help_text()));
                Effect::Nothing
            },
            InputCommand::Unknown(t) => {
                self.chat_panel.add_message(MessageRole::System, cat2("未知命令: ", t.as_str()));
                Effect::Nothing
            },
            InputCommand::Ask(_) => {
                let question = owned(input.as_str());
                self.chat_panel.add_message(MessageRole::User, input);
                self.chat_panel.start_streaming();
                Effect::Ask(question)
            },
        }
    }

    /// Handles a mouse event: a scroll moves the panel under the pointer.
    pub fn handle_mouse(&mut self, m: MouseInput) -> (r: Effect)
        ensures
            mouse_handled(*old(self), *final(self), m, r),
    {
        let direction = match m.kind {
            MouseKind::ScrollUp => ScrollDirection::Up,
            MouseKind::ScrollDown => ScrollDirection::Down,
            MouseKind::Other => {
                return Effect::Nothing;
            },
        };
        let delta = self.mouse_scroll.on_scroll(direction);
        match panel_at(self.schema_panel_area, self.chat_panel_area, self.table_view_area, m.row, m.column) {
            Some(FocusArea::Chat) => {
                self.chat_panel.scroll_by(delta);
            },
            Some(FocusArea::Schema) => {
                if delta < 0 {
                    self.schema_panel.move_selection(false);
                } else {
                    self.schema_panel.move_selection(true);
                }
            },
            Some(FocusArea::Table) => {
                if delta < 0 {
                    self.table_view.scroll_up();
                } else {
                    self.table_view.scroll_down();
                }
            },
            _ => {},
        }
        Effect::Nothing
    }

    /// After an answer: when it is the assistant's and holds SQL worth running, the SQL
    /// is attached to it and handed out to be run.
    fn take_sql(panel: &mut ChatPanel) -> (r: Effect)
        ensures
            sql_followed(*old(panel), *final(panel), r),
    {
        let n = panel.messages.len();
        if n == 0 {
            return Effect::Nothing;
        }
        if panel.messages[n - 1].role != MessageRole::Assistant {
            return Effect::Nothing;
        }
        let sql = LlmClient::extract_sql(panel.messages[n - 1].content.as_str());
        if !LlmClient::is_runnable_sql(sql.as_str()) {
            return Effect::Nothing;
        }
        let run = sql.clone();
        panel.update_last_message_sql(sql);
        Effect::Execute(run)
    }

    /// Handles one event: input goes to the key, line and mouse handling; the model's
    /// stream, query answers and scans update the panels.
    pub fn handle_event(&mut self, event: AppEvent) -> (r: Effect)
        ensures
            event_handled(*old(self), *final(self), event, r),
    {
        match event {
            AppEvent::Key(k) => self.handle_key(k),
            AppEvent::Mouse(m) => self.handle_mouse(m),
            AppEvent::LlmChunk(chunk) => {
                self.chat_panel.append_streaming(chunk.as_str());
                Effect::Nothing
            },
            AppEvent::LlmReasoningChunk(chunk) => {
                self.chat_panel.append_reasoning(chunk.as_str());
                Effect::Nothing
            },
            AppEvent::LlmDone => {
                self.chat_panel.finish_streaming();
                let ghost mid = self.chat_panel;
                let r = Self::take_sql(&mut self.chat_panel);
                assert(sql_followed(mid, self.chat_panel, r));
                r
            },
            AppEvent::LlmError(err) => {
                self.chat_panel.finish_streaming();
                let ghost mid = self.chat_panel;
                self.chat_panel.add_message(MessageRole::System, cat2("❌ LLM 错误: ", err.as_str()));
                assert(posted(mid, self.chat_panel, MessageRole::System, "❌ LLM 错误: "@ + err@));
                Effect::Nothing
            },
            AppEvent::QueryResult(data) => {
                let rows = decimal_text(data.row_count as u64);
                let cols = decimal_text(data.columns.len() as u64);
                let ms = decimal_text(data.execution_time_ms);
                let mut summary = cat2("查询完成：", rows.as_str());
                summary.append(" 行 × ");
                summary.append(cols.as_str());
                summary.append(" 列，耗时 ");
                summary.append(ms.as_str());
                summary.append("ms");
                self.chat_panel.add_message(MessageRole::System, summary);
                self.table_view.set_data(data);
                self.view_mode = ViewMode::Split;
                Effect::Nothing
            },
            AppEvent::QueryError(err) => {
                self.chat_panel.add_message(MessageRole::System, cat2("❌ 查询错误: ", err.as_str()));
                Effect::Nothing
            },
            AppEvent::SchemaDone(schemas) => {
                self.status_bar.data_files_count = schemas.len();
                self.status_bar.db_connected = true;
                self.schema_panel.set_schemas(schemas);
                Effect::Nothing
            },
            _ => Effect::Nothing,
        }
    }
}

/// `after` ends the streamed answer of `before` as `finish_streaming` does: what was
/// streamed becomes the assistant's message, with its reasoning when there was any.
pub open spec fn finished(before: ChatPanel, after: ChatPanel) -> bool {
    &&& !after.is_streaming
    &&& after.streaming_text@.len() == 0
    &&& after.streaming_reasoning@.len() == 0
    &&& after.show_reasoning == before.show_reasoning
    &&& before.streaming_text@.len() == 0 && before.streaming_reasoning@.len() == 0 ==> {
        &&& after.messages@ == before.messages@
        &&& after.scroll_offset == before.scroll_offset
    }
    &&& before.streaming_text@.len() > 0 || before.streaming_reasoning@.len() > 0 ==> {
        let m = after.messages@.last()@;
        &&& chat_models(after.messages@).drop_last() == chat_models(before.messages@)
        &&& after.messages@.len() == before.messages@.len() + 1
        &&& m.role == MessageRole::Assistant
        &&& m.content == before.streaming_text@
        &&& m.sql is None
        &&& m.reasoning == (if before.streaming_reasoning@.len() == 0 { None } else { Some(before.streaming_reasoning@) })
        &&& is_clock_text(m.timestamp)
        &&& m.show_reasoning == before.show_reasoning
        &&& after.scroll_offset == 0
    }
}

/// What follows a finished answer: the SQL of the assistant's last message, when there
/// is SQL worth running, is attached to the message and handed out to be run; the rest
/// of the panel stays as it is.
pub open spec fn sql_followed(mid: ChatPanel, after: ChatPanel, r: Effect) -> bool {
    let ms = mid.messages@;
    &&& after.scroll_offset == mid.scroll_offset
    &&& after.streaming_text@ == mid.streaming_text@
    &&& after.streaming_reasoning@ == mid.streaming_reasoning@
    &&& after.is_streaming == mid.is_streaming
    &&& after.show_reasoning == mid.show_reasoning
    &&& if ms.len() > 0 && ms.last()@.role == MessageRole::Assistant && runnable_sql(extract_sql_of(ms.last()@.content)) {
        let q = extract_sql_of(ms.last()@.content);
        &&& (r matches Effect::Execute(s) && s@ == q)
        &&& after.messages@.len() == ms.len()
        &&& chat_models(after.messages@).drop_last() == chat_models(ms).drop_last()
        &&& after.messages@.last()@ == (ChatMessageModel { sql: Some(q), ..ms.last()@ })
    } else {
        r is Nothing && after.messages@ == ms
    }
}

/// The effect and state after an event. Input goes by the key, line and mouse rules;
/// the other events keep the focus, the panel areas and the scroll timing, and change
/// only the panels they are about.
pub open spec fn event_handled(before: App, after: App, event: AppEvent, r: Effect) -> bool {
    match event {
        AppEvent::Key(k) => key_handled(before, after, k, r),
        AppEvent::Mouse(m) => mouse_handled(before, after, m, r),
        _ => {
            &&& after.running == before.running
            &&& after.focus == before.focus
            &&& same_areas(before, after)
            &&& after.mouse_scroll == before.mouse_scroll
            &&& reply_handled(before, after, event, r)
        },
    }
}

/// The effect and state after an event that is not input: the model's stream, a query's
/// answer, a scan.
pub open spec fn reply_handled(before: App, after: App, event: AppEvent, r: Effect) -> bool {
    let c = before.chat_panel;
    let a = after.chat_panel;
    match event {
        AppEvent::LlmChunk(t) => r is Nothing && a.streaming_text@ == c.streaming_text@ + t@
            && a.streaming_reasoning@ == c.streaming_reasoning@ && a.messages@ == c.messages@
            && a.scroll_offset == c.scroll_offset && a.is_streaming == c.is_streaming
            && a.show_reasoning == c.show_reasoning && panels_but_chat_kept(before, after),
        AppEvent::LlmReasoningChunk(t) => r is Nothing && a.streaming_reasoning@ == c.streaming_reasoning@ + t@
            && a.streaming_text@ == c.streaming_text@ && a.messages@ == c.messages@
            && a.scroll_offset == c.scroll_offset && a.is_streaming == c.is_streaming
            && a.show_reasoning == c.show_reasoning && panels_but_chat_kept(before, after),
        AppEvent::LlmDone => panels_but_chat_kept(before, after) && exists|mid: ChatPanel|
            finished(c, mid) && #[trigger] sql_followed(mid, a, r),
        AppEvent::LlmError(e) => r is Nothing && panels_but_chat_kept(before, after) && exists|mid: ChatPanel|
            finished(c, mid) && #[trigger] posted(mid, a, MessageRole::System, "❌ LLM 错误: "@ + e@),
        AppEvent::QueryResult(d) => r is Nothing
            && posted(c, a, MessageRole::System, query_summary(d.row_count, d.columns@.len(), d.execution_time_ms))
            && after.table_view.data_spec() == Some(d) && after.table_view.spec_selected() == Some(0usize)
            && after.view_mode == ViewMode::Split
            && after.schema_panel == before.schema_panel && after.status_bar == before.status_bar,
        AppEvent::QueryError(e) => r is Nothing
            && posted(c, a, MessageRole::System, "❌ 查询错误: "@ + e@) && panels_but_chat_kept(before, after),
        AppEvent::SchemaDone(s) => r is Nothing
            && after.schema_panel.schemas@ == s@
            && after.schema_panel.expanded@ == Seq::new(s@.len(), |i: int| false)
            && (s@.len() > 0 ==> after.schema_panel.selected == Some(0usize))
            && (s@.len() == 0 ==> after.schema_panel.selected == before.schema_panel.selected)
            && after.schema_panel.focused == before.schema_panel.focused
            && after.status_bar == (StatusBarData {
                data_files_count: s@.len() as usize,
                db_connected: true,
                ..before.status_bar
            })
            && after.chat_panel == before.chat_panel && after.table_view == before.table_view
            && after.view_mode == before.view_mode,
        _ => r is Nothing && after == before,
    }
}

/// `after` keeps the view, the schema panel, the table and the status bar of `before`.
pub open spec fn panels_but_chat_kept(before: App, after: App) -> bool {
    &&& after.view_mode == before.view_mode
    &&& after.schema_panel == before.schema_panel
    &&& after.table_view == before.table_view
    &&& after.status_bar == before.status_bar
}

} // verus!
