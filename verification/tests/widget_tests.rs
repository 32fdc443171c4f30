use duckpilot::models::{ColumnInfo, QueryResultData, TableSchema};
use duckpilot::mouse::{scroll_lines_after, MouseScrollState, ScrollDirection, TRACKPAD_WINDOW_MS};
use duckpilot::widgets::chat::{count_visual_lines, scroll_position, scrollbar_of, ChatPanel, MessageRole};
use duckpilot::widgets::chat_view::{ShownLine, Tone};
use duckpilot::ui::{Area, Key};
use duckpilot::widgets::input::{
    click_position, cursor_cell, edit_action, prefix_width, visual_col_to_char_index, EditAction, HistoryReply, InputHistory,
    Modifiers,
};
use duckpilot::widgets::schema_panel::{type_class, SchemaPanel, SchemaRow, TypeClass};
use duckpilot::widgets::status_bar::{StatusBarData, StatusTone};
use duckpilot::widgets::table_view::{row_shade, RowShade, TableView};

fn is_clock(t: &str) -> bool {
    let c: Vec<char> = t.chars().collect();
    c.len() == 5 && c[2] == ':' && [0, 1, 3, 4].iter().all(|&i| c[i].is_ascii_digit())
}

fn lines_text(lines: &[ShownLine]) -> Vec<String> {
    lines.iter().map(|l| l.pieces.iter().map(|p| p.text.as_str()).collect::<String>()).collect()
}

fn schema(name: &str, cols: &[(&str, &str)], rows: Option<usize>) -> TableSchema {
    let mut s = TableSchema::described(
        name,
        "data/x.csv",
        cols.iter().map(|(n, t)| ColumnInfo::described(n.to_string(), t.to_string(), "YES")).collect(),
    );
    s.row_count = rows;
    s
}

#[test]
fn chat_panel_starts_with_a_welcome() {
    let panel = ChatPanel::new();
    assert_eq!(panel.messages.len(), 1);
    assert_eq!(panel.messages[0].role, MessageRole::System);
    assert_eq!(panel.messages[0].content, "🛸 欢迎使用 DuckPilot！输入自然语言问题开始分析数据。");
    assert!(is_clock(&panel.messages[0].timestamp));
    assert!(panel.show_reasoning && !panel.is_streaming);
    assert_eq!(panel.scroll_offset, 0);
}

#[test]
fn streamed_answers_become_messages() {
    let mut panel = ChatPanel::new();
    panel.scroll_up();
    panel.start_streaming();
    panel.append_reasoning("先看表");
    panel.append_streaming("共有");
    panel.append_streaming(" 3 张表");
    assert_eq!(panel.streaming_text, "共有 3 张表");
    panel.finish_streaming();
    assert!(!panel.is_streaming);
    assert!(panel.streaming_text.is_empty() && panel.streaming_reasoning.is_empty());
    let last = panel.messages.last().unwrap();
    assert_eq!(last.role, MessageRole::Assistant);
    assert_eq!(last.content, "共有 3 张表");
    assert_eq!(last.reasoning.as_deref(), Some("先看表"));
    assert_eq!(panel.scroll_offset, 0);

    let before = panel.messages.len();
    panel.start_streaming();
    panel.finish_streaming();
    assert_eq!(panel.messages.len(), before);
}

#[test]
fn chat_panel_copies_text() {
    let mut panel = ChatPanel::new();
    panel.messages.clear();
    assert_eq!(panel.last_sql(), None);
    assert_eq!(panel.last_reply(), None);
    panel.add_message(MessageRole::User, "问".to_string());
    panel.add_message(MessageRole::Assistant, "答".to_string());
    panel.messages[1].sql = Some("SELECT 1".to_string());
    panel.add_message(MessageRole::System, "提示".to_string());
    assert_eq!(panel.last_sql(), Some("SELECT 1"));
    assert_eq!(panel.last_reply(), Some("答"));
    let t0 = panel.messages[0].timestamp.clone();
    let t1 = panel.messages[1].timestamp.clone();
    let t2 = panel.messages[2].timestamp.clone();
    assert_eq!(
        panel.full_text(),
        format!("[你] {}\n问\n\n[Pilot] {}\n答\nSQL:\nSELECT 1\n\n[系统] {}\n提示\n\n", t0, t1, t2)
    );
}

#[test]
fn chat_panel_scrolls() {
    let mut panel = ChatPanel::new();
    panel.scroll_up();
    panel.scroll_up();
    assert_eq!(panel.scroll_offset, 2);
    panel.scroll_down();
    assert_eq!(panel.scroll_offset, 1);
    panel.page_up(10);
    assert_eq!(panel.scroll_offset, 11);
    panel.page_down(20);
    assert_eq!(panel.scroll_offset, 0);
    panel.scroll_down();
    assert_eq!(panel.scroll_offset, 0);
    panel.scroll_to_top();
    assert_eq!(panel.scroll_offset, u16::MAX);
    panel.scroll_up();
    assert_eq!(panel.scroll_offset, u16::MAX);
    panel.scroll_to_end();
    assert_eq!(panel.scroll_offset, 0);
    panel.scroll_by(-3);
    assert_eq!(panel.scroll_offset, 3);
    panel.scroll_by(1);
    assert_eq!(panel.scroll_offset, 2);
    panel.scroll_by(5);
    assert_eq!(panel.scroll_offset, 0);
}

#[test]
fn counts_wrapped_lines() {
    assert_eq!(count_visual_lines(&[0, 5, 10, 11], 10), 1 + 1 + 1 + 2);
    assert_eq!(count_visual_lines(&[30, 0], 0), 2);
    assert_eq!(count_visual_lines(&[], 80), 0);
    assert_eq!(scroll_position(100, 20, 0), 80);
    assert_eq!(scroll_position(100, 20, 30), 50);
    assert_eq!(scroll_position(100, 20, u16::MAX), 0);
    assert_eq!(scroll_position(10, 20, 0), 0);
}

#[test]
fn transcript_shows_messages_and_the_stream() {
    let mut panel = ChatPanel::new();
    panel.messages.clear();
    panel.add_message(MessageRole::User, "a\nb".to_string());
    panel.add_message(MessageRole::Assistant, "ok".to_string());
    panel.messages[1].reasoning = Some("r1".to_string());
    panel.messages[1].sql = Some("SELECT 1\nFROM t".to_string());
    let t0 = panel.messages[0].timestamp.clone();
    let t1 = panel.messages[1].timestamp.clone();
    let lines = panel.transcript();
    assert_eq!(
        lines_text(&lines),
        vec![
            format!("  🧑 你  {}", t0),
            "    a".to_string(),
            "    b".to_string(),
            String::new(),
            format!("  🛸 Pilot  {}", t1),
            "    ok".to_string(),
            "    ┌─ 💭 思考 ──────────────────".to_string(),
            "    │ r1".to_string(),
            "    └───────────────────────────".to_string(),
            "    ┌─ SQL ──────────────────".to_string(),
            "    │ SELECT 1".to_string(),
            "    │ FROM t".to_string(),
            "    └───────────────────────".to_string(),
            String::new(),
        ]
    );
    assert_eq!(lines[0].pieces[0].tone, Tone::UserLabel);
    assert_eq!(lines[0].pieces[1].tone, Tone::Stamp);
    assert_eq!(lines[10].pieces[0].tone, Tone::SqlBody);
    assert!(lines[3].pieces.is_empty());

    panel.messages[1].show_reasoning = false;
    let hidden = lines_text(&panel.transcript());
    assert_eq!(hidden[6], "    💭 思考过程已隐藏");

    panel.start_streaming();
    panel.append_reasoning("x");
    panel.append_streaming("partial");
    let live = panel.transcript();
    let n = live.len();
    assert_eq!(
        lines_text(&live[n - 5..]),
        vec!["  🛸 Pilot  思考中...", "    ┌─ 💭 思考 ──────────────────", "    │ x", "    partial", "    █"]
    );
    assert_eq!(live[n - 1].pieces[0].tone, Tone::Cursor);
}

#[test]
fn schema_panel_lists_tables_and_columns() {
    let mut panel = SchemaPanel::new();
    assert_eq!(panel.selected, None);
    panel.set_schemas(vec![
        schema("orders", &[("id", "INTEGER"), ("day", "DATE")], Some(1200)),
        schema("users", &[("name", "VARCHAR")], None),
    ]);
    assert_eq!(panel.selected, Some(0));
    assert_eq!(panel.total_items(), 2);
    panel.toggle_expand();
    assert_eq!(panel.expanded, vec![true, false]);
    assert_eq!(panel.total_items(), 4);
    let rows = panel.rows();
    assert_eq!(rows.len(), 4);
    match &rows[0] {
        SchemaRow::Table { expanded, name, rows_note } => {
            assert!(*expanded);
            assert_eq!(name, "orders");
            assert_eq!(rows_note, " (1200行)");
        }
        other => panic!("unexpected {:?}", other),
    }
    assert!(matches!(&rows[1], SchemaRow::Column { name, class: TypeClass::Number, .. } if name == "id"));
    assert!(matches!(&rows[2], SchemaRow::Column { class: TypeClass::Time, .. }));
    assert!(matches!(&rows[3], SchemaRow::Table { expanded: false, rows_note, .. } if rows_note.is_empty()));

    panel.next();
    assert_eq!(panel.selected, Some(1));
    panel.toggle_expand();
    assert_eq!(panel.expanded, vec![true, false]);
    panel.previous();
    panel.previous();
    assert_eq!(panel.selected, Some(3));
    panel.next();
    assert_eq!(panel.selected, Some(0));
    panel.move_selection(false);
    assert_eq!(panel.selected, Some(3));
    assert!(panel.within_bounds());
}

#[test]
fn column_types_are_classified() {
    assert_eq!(type_class("BIGINT"), TypeClass::Number);
    assert_eq!(type_class("double"), TypeClass::Number);
    assert_eq!(type_class("varchar"), TypeClass::Text);
    assert_eq!(type_class("TIMESTAMP"), TypeClass::Time);
    assert_eq!(type_class("boolean"), TypeClass::Flag);
    assert_eq!(type_class("BLOB"), TypeClass::Other);
    assert_eq!(type_class("INTERVAL"), TypeClass::Number);
}

#[test]
fn table_view_moves_within_its_rows() {
    let mut view = TableView::new();
    assert_eq!(view.selected(), Some(0));
    view.scroll_down();
    assert_eq!(view.selected(), Some(0));
    let rows: Vec<Vec<String>> = (0..5).map(|i| vec![i.to_string()]).collect();
    view.set_data(QueryResultData::new(vec!["n".to_string()], rows, 1));
    view.scroll_down();
    view.scroll_down();
    assert_eq!(view.selected(), Some(2));
    view.scroll_up();
    assert_eq!(view.selected(), Some(1));
    view.page_down(10);
    assert_eq!(view.selected(), Some(4));
    view.page_up(2);
    assert_eq!(view.selected(), Some(2));
    view.page_up(0);
    assert_eq!(view.selected(), Some(1));
    view.scroll_by(-9);
    assert_eq!(view.selected(), Some(0));
    view.scroll_by(3);
    assert_eq!(view.selected(), Some(3));
    view.scroll_by(100);
    assert_eq!(view.selected(), Some(4));
    assert_eq!(row_shade(4, Some(4)), RowShade::Selected);
    assert_eq!(row_shade(2, Some(4)), RowShade::Even);
    assert_eq!(row_shade(3, None), RowShade::Odd);
    assert_eq!(row_shade(0, None), RowShade::Selected);
}

#[test]
fn status_bar_shows_state() {
    let bar = StatusBarData::default();
    assert_eq!(bar.model_name, "gpt-4o");
    assert_eq!(bar.project_name, "未初始化");
    let parts = bar.parts();
    let text: String = parts.iter().map(|p| p.1.as_str()).collect();
    assert_eq!(text, " DB:✗  │  LLM:✗  │  📡 gpt-4o  │  📁 0个数据文件  │  Esc:退出 │ Tab:切换面板 │ Ctrl+R:刷新 Schema ");
    assert_eq!(parts[0].0, StatusTone::Bad);
    assert_eq!(parts[2].0, StatusTone::Warn);
    let ready = StatusBarData { db_connected: true, llm_configured: true, model_name: "m".to_string(), project_name: "p".to_string(), data_files_count: 12 };
    let parts = ready.parts();
    assert_eq!(parts[0], (StatusTone::Good, " DB:✓ ".to_string()));
    assert_eq!(parts[2], (StatusTone::Good, " LLM:✓ ".to_string()));
    assert_eq!(parts[6], (StatusTone::Files, " 📁 12个数据文件 ".to_string()));
}

#[test]
fn input_history_browses_and_restores_the_draft() {
    let mut h = InputHistory::new();
    assert_eq!(h.up("draft"), None);
    assert_eq!(h.submit("   ".to_string()), None);
    assert_eq!(h.submit("first".to_string()), Some("first".to_string()));
    assert_eq!(h.submit("second".to_string()), Some("second".to_string()));
    assert_eq!(h.up("typing"), Some("second".to_string()));
    assert_eq!(h.up("ignored"), Some("first".to_string()));
    assert_eq!(h.up("ignored"), Some("first".to_string()));
    assert_eq!(h.down(), Some("second".to_string()));
    assert_eq!(h.down(), Some("typing".to_string()));
    assert_eq!(h.down(), None);
}

#[test]
fn clicks_map_to_characters_by_width() {
    assert_eq!(visual_col_to_char_index("abc", 0), 0);
    assert_eq!(visual_col_to_char_index("abc", 2), 2);
    assert_eq!(visual_col_to_char_index("abc", 9), 3);
    assert_eq!(visual_col_to_char_index("中文ab", 2), 1);
    assert_eq!(visual_col_to_char_index("中文ab", 3), 2);
    assert_eq!(visual_col_to_char_index("中文ab", 5), 3);
    assert_eq!(visual_col_to_char_index("a\tb", 2), 2);
}

#[test]
fn scroll_state_tells_wheel_from_trackpad() {
    assert_eq!(ScrollDirection::Up.sign(), -1);
    assert_eq!(ScrollDirection::Down.sign(), 1);
    assert_eq!(MouseScrollState::scroll_lines(ScrollDirection::Up, false), -3);
    assert_eq!(MouseScrollState::scroll_lines(ScrollDirection::Down, true), 1);
    let mut state = MouseScrollState::new();
    assert_eq!(state.on_scroll(ScrollDirection::Down), 3);
    let quick = state.on_scroll(ScrollDirection::Down);
    assert!(quick == 1 || quick == 3);
    let start = std::time::Instant::now();
    while start.elapsed() < std::time::Duration::from_millis(TRACKPAD_WINDOW_MS as u64 + 20) {}
    assert_eq!(state.on_scroll(ScrollDirection::Up), -3);
}

#[test]
fn sql_is_attached_to_the_last_message() {
    let mut panel = ChatPanel::new();
    panel.add_message(MessageRole::Assistant, "x".to_string());
    panel.update_last_message_sql("SELECT 1".to_string());
    assert_eq!(panel.messages.len(), 2);
    assert_eq!(panel.messages[1].sql.as_deref(), Some("SELECT 1"));
    assert_eq!(panel.messages[1].content, "x");
    assert!(panel.messages[0].sql.is_none());
    let mut empty = ChatPanel::new();
    empty.messages.clear();
    empty.update_last_message_sql("SELECT 2".to_string());
    assert!(empty.messages.is_empty());
}

#[test]
fn places_the_input_cursor() {
    assert_eq!(prefix_width("中文ab", 3), 5);
    assert_eq!(prefix_width("hello", 2), 2);
    assert_eq!(prefix_width("hi", 9), 2);
    let area = Area { x: 2, y: 30, width: 80, height: 3 };
    assert_eq!(cursor_cell(area, 0, 5), (8, 31));
    assert_eq!(cursor_cell(area, 4, 0), (3, 31));
    let tall = Area { x: 0, y: 10, width: 80, height: 6 };
    assert_eq!(cursor_cell(tall, 2, 1), (2, 13));
    assert_eq!(cursor_cell(tall, 9, 1), (2, 14));
}

#[test]
fn clicks_land_on_text_rows() {
    let area = Area { x: 10, y: 20, width: 40, height: 4 };
    assert_eq!(click_position(area, 22, 15, 0, 5), (1, 4));
    assert_eq!(click_position(area, 5, 3, 0, 5), (0, 0));
    assert_eq!(click_position(area, 23, 11, 0, 2), (1, 0));
    assert_eq!(click_position(area, 21, 11, 6, 10), (4, 0));
    assert_eq!(click_position(area, 21, 11, 0, 0), (0, 0));
}

#[test]
fn scroll_lines_follow_the_trackpad_window() {
    assert_eq!(scroll_lines_after(None, ScrollDirection::Down), 3);
    assert_eq!(scroll_lines_after(None, ScrollDirection::Up), -3);
    assert_eq!(scroll_lines_after(Some(0), ScrollDirection::Up), -1);
    assert_eq!(scroll_lines_after(Some(34), ScrollDirection::Down), 1);
    assert_eq!(scroll_lines_after(Some(35), ScrollDirection::Down), 3);
    assert_eq!(scroll_lines_after(Some(1000), ScrollDirection::Up), -3);
}

#[test]
fn schema_moves_and_toggles_undo_themselves() {
    let mut panel = SchemaPanel::new();
    panel.set_schemas(vec![
        schema("orders", &[("id", "INTEGER"), ("day", "DATE")], None),
        schema("users", &[("name", "VARCHAR")], None),
    ]);
    panel.expanded.push(true);
    assert!(panel.within_bounds());
    panel.move_selection(true);
    panel.move_selection(false);
    assert_eq!(panel.selected, Some(0));
    panel.move_selection(false);
    panel.move_selection(true);
    assert_eq!(panel.selected, Some(0));
    let before = panel.expanded.clone();
    panel.toggle_checked();
    assert_eq!(panel.expanded, vec![true, false, true]);
    panel.toggle_checked();
    assert_eq!(panel.expanded, before);
}

#[test]
fn the_scrollbar_shows_only_when_the_text_does_not_fit() {
    assert_eq!(scrollbar_of(10, 10, 0), None);
    assert_eq!(scrollbar_of(3, 10, 5), None);
    assert_eq!(scroll_position(3, 10, 5), 0);
    assert_eq!(scrollbar_of(30, 10, 0), Some((20, 20)));
    assert_eq!(scrollbar_of(30, 10, 5), Some((20, 15)));
    assert_eq!(scrollbar_of(30, 10, 50), Some((20, 0)));
}

#[test]
fn only_enter_submits_and_only_a_submit_grows_the_history() {
    assert_eq!(edit_action(Key::Enter, Modifiers::Nothing), EditAction::Submit);
    assert_eq!(edit_action(Key::Enter, Modifiers::Shift), EditAction::NewLine);
    assert_eq!(edit_action(Key::Enter, Modifiers::Control), EditAction::Edit);
    assert_eq!(edit_action(Key::Up, Modifiers::Nothing), EditAction::HistoryUp);
    assert_eq!(edit_action(Key::Up, Modifiers::Shift), EditAction::Edit);
    assert_eq!(edit_action(Key::Char('v'), Modifiers::Control), EditAction::Paste);
    assert_eq!(edit_action(Key::Char('v'), Modifiers::Nothing), EditAction::Edit);

    let mut h = InputHistory::new();
    assert!(matches!(h.on_key(EditAction::HistoryUp, "draft".to_string()), HistoryReply::Keep));
    assert!(matches!(h.on_key(EditAction::Submit, "   ".to_string()), HistoryReply::Keep));
    match h.on_key(EditAction::Submit, "select 1".to_string()) {
        HistoryReply::Submitted(t) => assert_eq!(t, "select 1"),
        other => panic!("unexpected {:?}", other),
    }
    assert!(matches!(h.on_key(EditAction::Edit, "x".to_string()), HistoryReply::Keep));
    match h.on_key(EditAction::HistoryUp, "typing".to_string()) {
        HistoryReply::Show(t) => assert_eq!(t, "select 1"),
        other => panic!("unexpected {:?}", other),
    }
    match h.on_key(EditAction::HistoryDown, String::new()) {
        HistoryReply::Show(t) => assert_eq!(t, "typing"),
        other => panic!("unexpected {:?}", other),
    }
    assert!(matches!(h.on_key(EditAction::HistoryDown, String::new()), HistoryReply::Keep));
}
