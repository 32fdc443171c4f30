use duckpilot::models::{ColumnInfo, QueryResultData, TableSchema};
use duckpilot::screen::{project_label, App, AppEvent, CopyKind, Effect, MouseInput, MouseKind};
use duckpilot::ui::{help_text, key_action, panel_at, parse_input, Area, FocusArea, InputCommand, Key, KeyAction, KeyInput, ViewMode};
use duckpilot::widgets::chat::MessageRole;

fn key(k: Key) -> KeyInput {
    KeyInput { key: k, plain: true }
}

fn app() -> App {
    App::new("demo".to_string(), true, "gpt-4o".to_string(), false)
}

fn last_message(a: &App) -> (MessageRole, String) {
    let m = a.chat_panel.messages.last().unwrap();
    (m.role, m.content.clone())
}

#[test]
fn focus_cycles_and_round_trips() {
    for f in [FocusArea::Input, FocusArea::Chat, FocusArea::Schema, FocusArea::Table] {
        assert_eq!(f.next().previous(), f);
        assert_eq!(f.previous().next(), f);
        assert_eq!(f.next().next().next().next(), f);
        assert_ne!(f.next(), f);
    }
    assert_eq!(FocusArea::Input.next(), FocusArea::Chat);
    assert_eq!(FocusArea::Input.previous(), FocusArea::Table);
}

#[test]
fn keys_map_to_actions() {
    assert_eq!(key_action(FocusArea::Input, key(Key::Esc)), KeyAction::Quit);
    assert_eq!(key_action(FocusArea::Chat, key(Key::Esc)), KeyAction::Focus(FocusArea::Input));
    assert_eq!(key_action(FocusArea::Schema, key(Key::Tab)), KeyAction::Focus(FocusArea::Table));
    assert_eq!(key_action(FocusArea::Schema, KeyInput { key: Key::Tab, plain: false }), KeyAction::Nothing);
    assert_eq!(key_action(FocusArea::Input, KeyInput { key: Key::Tab, plain: false }), KeyAction::ToInput);
    assert_eq!(key_action(FocusArea::Input, key(Key::BackTab)), KeyAction::Focus(FocusArea::Table));
    assert_eq!(key_action(FocusArea::Table, key(Key::F(2))), KeyAction::View(ViewMode::Table));
    assert_eq!(key_action(FocusArea::Table, key(Key::F(5))), KeyAction::Refresh);
    assert_eq!(key_action(FocusArea::Table, key(Key::F(4))), KeyAction::Nothing);
    assert_eq!(key_action(FocusArea::Chat, key(Key::Char('s'))), KeyAction::CopySql);
    assert_eq!(key_action(FocusArea::Chat, key(Key::Home)), KeyAction::ChatTop);
    assert_eq!(key_action(FocusArea::Schema, key(Key::Enter)), KeyAction::SchemaToggle);
    assert_eq!(key_action(FocusArea::Table, key(Key::Up)), KeyAction::TableUp);
    assert_eq!(key_action(FocusArea::Input, key(Key::Char('y'))), KeyAction::ToInput);
}

#[test]
fn submitted_lines_are_commands_or_questions() {
    assert_eq!(parse_input(" /quit "), InputCommand::Quit);
    assert_eq!(parse_input("/exit"), InputCommand::Quit);
    assert_eq!(parse_input("/r"), InputCommand::Refresh);
    assert_eq!(parse_input("/split"), InputCommand::ShowSplit);
    assert_eq!(parse_input("/nope"), InputCommand::Unknown("/nope".to_string()));
    assert_eq!(parse_input("  多少行？ "), InputCommand::Ask("  多少行？ ".to_string()));
    assert!(help_text().starts_with("可用命令:\n  /clear - 清空对话"));
}

#[test]
fn mouse_positions_find_panels() {
    let schema = Some(Area { x: 0, y: 0, width: 20, height: 10 });
    let chat = Some(Area { x: 20, y: 0, width: 40, height: 10 });
    assert_eq!(panel_at(schema, chat, None, 5, 19), Some(FocusArea::Schema));
    assert_eq!(panel_at(schema, chat, None, 5, 20), Some(FocusArea::Chat));
    assert_eq!(panel_at(schema, chat, None, 10, 5), None);
    assert_eq!(panel_at(None, None, None, 0, 0), None);
}

#[test]
fn app_starts_on_the_input_box() {
    let a = app();
    assert!(a.running);
    assert_eq!(a.focus, FocusArea::Input);
    assert_eq!(a.view_mode, ViewMode::Chat);
    assert!(!a.chat_panel.show_reasoning);
    assert!(a.status_bar.llm_configured && !a.status_bar.db_connected);
    assert_eq!(a.status_bar.project_name, "demo");
    assert_eq!(project_label("named", "/x/y"), "named");
    assert_eq!(project_label("", "/work/sales"), "sales");
    assert_eq!(project_label("", "/"), "未知项目");
}

#[test]
fn keys_drive_the_app() {
    let mut a = app();
    assert!(matches!(a.handle_key(key(Key::Char('x'))), Effect::ToInput(KeyInput { key: Key::Char('x'), plain: true })));
    assert!(matches!(a.handle_key(key(Key::Tab)), Effect::Nothing));
    assert_eq!(a.focus, FocusArea::Chat);
    a.handle_key(key(Key::Up));
    assert_eq!(a.chat_panel.scroll_offset, 1);
    a.chat_panel_area = Some(Area { x: 0, y: 0, width: 50, height: 12 });
    a.handle_key(key(Key::PageUp));
    assert_eq!(a.chat_panel.scroll_offset, 11);
    a.handle_key(key(Key::End));
    assert_eq!(a.chat_panel.scroll_offset, 0);
    a.handle_key(key(Key::F(3)));
    assert_eq!(a.view_mode, ViewMode::Split);
    assert!(matches!(a.handle_key(key(Key::F(5))), Effect::Scan));
    assert_eq!(last_message(&a), (MessageRole::System, "🔄 正在重新扫描 data/ /目录并刷新表结构...".to_string()));
    a.handle_key(key(Key::Esc));
    assert_eq!(a.focus, FocusArea::Input);
    assert!(a.running);
    a.handle_key(key(Key::Esc));
    assert!(!a.running);
}

#[test]
fn copies_ask_the_clipboard_or_say_there_is_nothing() {
    let mut a = app();
    a.focus = FocusArea::Chat;
    assert!(matches!(a.handle_key(key(Key::Char('s'))), Effect::Nothing));
    assert_eq!(last_message(&a), (MessageRole::System, "没有可复制的 SQL".to_string()));
    assert!(matches!(a.copy_chat_content(CopyKind::Reply), Effect::Nothing));
    assert_eq!(last_message(&a).1, "没有可复制的回复");
    match a.handle_key(key(Key::Char('y'))) {
        Effect::Copy { kind, text } => {
            assert_eq!(kind, CopyKind::All);
            assert_eq!(text, a.chat_panel.full_text());
        }
        other => panic!("unexpected {:?}", other),
    }
    a.on_copied(CopyKind::All, Ok(()));
    assert_eq!(last_message(&a).1, "📋 对话内容已复制到剪贴板");
    a.on_copied(CopyKind::Sql, Err("no display".to_string()));
    assert_eq!(last_message(&a).1, "❌ 复制失败: no display");
}

#[test]
fn submitted_lines_drive_the_app() {
    let mut a = app();
    assert!(matches!(a.on_submit("/table".to_string()), Effect::Nothing));
    assert_eq!(a.view_mode, ViewMode::Table);
    a.on_submit("/help".to_string());
    assert_eq!(last_message(&a), (MessageRole::System, help_text().to_string()));
    a.on_submit("/what".to_string());
    assert_eq!(last_message(&a).1, "未知命令: /what");
    match a.on_submit("各月销售额".to_string()) {
        Effect::Ask(q) => assert_eq!(q, "各月销售额"),
        other => panic!("unexpected {:?}", other),
    }
    assert_eq!(last_message(&a), (MessageRole::User, "各月销售额".to_string()));
    assert!(a.chat_panel.is_streaming);
    a.on_submit("/clear".to_string());
    assert_eq!(a.chat_panel.messages.len(), 1);
    assert!(!a.chat_panel.is_streaming);
    assert!(matches!(a.on_submit("/refresh".to_string()), Effect::Scan));
    a.on_submit("/q".to_string());
    assert!(!a.running);
}

#[test]
fn events_update_the_panels() {
    let mut a = app();
    a.handle_event(AppEvent::LlmReasoningChunk("想".to_string()));
    a.handle_event(AppEvent::LlmChunk("答".to_string()));
    a.handle_event(AppEvent::LlmChunk("案".to_string()));
    assert_eq!(a.chat_panel.streaming_text, "答案");
    a.handle_event(AppEvent::LlmDone);
    assert_eq!(last_message(&a), (MessageRole::Assistant, "答案".to_string()));

    a.handle_event(AppEvent::QueryResult(QueryResultData::new(
        vec!["a".to_string(), "b".to_string()],
        vec![vec!["1".to_string(), "2".to_string()]],
        15,
    )));
    assert_eq!(last_message(&a).1, "查询完成：1 行 × 2 列，耗时 15ms");
    assert_eq!(a.view_mode, ViewMode::Split);
    assert_eq!(a.table_view.selected(), Some(0));

    a.handle_event(AppEvent::QueryError("bad sql".to_string()));
    assert_eq!(last_message(&a).1, "❌ 查询错误: bad sql");

    a.chat_panel.start_streaming();
    a.handle_event(AppEvent::LlmError("timeout".to_string()));
    assert!(!a.chat_panel.is_streaming);
    assert_eq!(last_message(&a).1, "❌ LLM 错误: timeout");

    let schemas = vec![
        TableSchema::described("t1", "data/t1.csv", vec![ColumnInfo::described("c".to_string(), "INT".to_string(), "NO")]),
        TableSchema::described("t2", "data/t2.csv", Vec::new()),
    ];
    a.handle_event(AppEvent::SchemaDone(schemas));
    assert!(a.status_bar.db_connected);
    assert_eq!(a.status_bar.data_files_count, 2);
    assert_eq!(a.schema_panel.schemas.len(), 2);
    assert_eq!(a.schema_panel.selected, Some(0));

    let before = a.chat_panel.messages.len();
    assert!(matches!(a.handle_event(AppEvent::Tick), Effect::Nothing));
    a.handle_event(AppEvent::Resize(80, 24));
    a.handle_event(AppEvent::ToolCallStarted { id: "1".to_string(), name: "n".to_string(), args: "{}".to_string() });
    assert_eq!(a.chat_panel.messages.len(), before);

    a.focus = FocusArea::Schema;
    a.handle_event(AppEvent::Key(key(Key::Down)));
    assert_eq!(a.schema_panel.selected, Some(1));
}

#[test]
fn mouse_scrolls_the_panel_under_the_pointer() {
    let mut a = app();
    a.chat_panel_area = Some(Area { x: 20, y: 0, width: 40, height: 20 });
    a.schema_panel_area = Some(Area { x: 0, y: 0, width: 20, height: 20 });
    a.schema_panel.set_schemas(vec![
        TableSchema::described("a", "a.csv", Vec::new()),
        TableSchema::described("b", "b.csv", Vec::new()),
    ]);
    a.handle_mouse(MouseInput { kind: MouseKind::ScrollUp, row: 3, column: 30 });
    assert_eq!(a.chat_panel.scroll_offset, 3);
    a.handle_mouse(MouseInput { kind: MouseKind::ScrollDown, row: 3, column: 5 });
    assert_eq!(a.schema_panel.selected, Some(1));
    a.handle_mouse(MouseInput { kind: MouseKind::ScrollDown, row: 50, column: 50 });
    a.handle_mouse(MouseInput { kind: MouseKind::Other, row: 3, column: 30 });
    assert_eq!(a.chat_panel.scroll_offset, 3);
    assert_eq!(a.schema_panel.selected, Some(1));
}

#[test]
fn answers_with_sql_ask_for_it_to_run() {
    let mut a = app();
    a.handle_event(AppEvent::LlmChunk("结果如下：\n```sql\nSELECT count(*) FROM t\n```".to_string()));
    match a.handle_event(AppEvent::LlmDone) {
        Effect::Execute(sql) => assert_eq!(sql, "SELECT count(*) FROM t"),
        other => panic!("unexpected {:?}", other),
    }
    let last = a.chat_panel.messages.last().unwrap();
    assert_eq!(last.sql.as_deref(), Some("SELECT count(*) FROM t"));
    assert_eq!(a.chat_panel.last_sql(), Some("SELECT count(*) FROM t"));

    a.handle_event(AppEvent::LlmChunk("-- 无法转换为 SQL".to_string()));
    assert!(matches!(a.handle_event(AppEvent::LlmDone), Effect::Nothing));
    assert!(a.chat_panel.messages.last().unwrap().sql.is_none());
}

#[test]
fn project_label_takes_the_last_component() {
    assert_eq!(project_label("", "data/shop"), "shop");
    assert_eq!(project_label("", "/home/me/sales_2024"), "sales_2024");
    assert_eq!(project_label("", "shop"), "shop");
    assert_eq!(project_label("", ".."), "未知项目");
}

#[test]
fn panels_are_placed_by_the_view() {
    let content = Area { x: 0, y: 3, width: 100, height: 20 };
    let input = Area { x: 0, y: 23, width: 100, height: 3 };
    let mut a = app();
    assert!(a.place_panels(content, input));
    assert_eq!(a.schema_panel_area, Some(Area { x: 0, y: 3, width: 25, height: 20 }));
    assert_eq!(a.chat_panel_area, Some(Area { x: 25, y: 3, width: 75, height: 20 }));
    assert_eq!(a.table_view_area, None);
    assert_eq!(a.input_box_area, Some(input));
    assert!(!a.schema_panel.focused);

    a.view_mode = ViewMode::Table;
    a.focus = FocusArea::Schema;
    assert!(!a.place_panels(content, input));
    assert_eq!(a.chat_panel_area, None);
    assert_eq!(a.table_view_area, Some(Area { x: 25, y: 3, width: 75, height: 20 }));
    assert!(a.schema_panel.focused);

    a.view_mode = ViewMode::Split;
    a.focus = FocusArea::Input;
    a.place_panels(content, input);
    assert_eq!(a.chat_panel_area, Some(Area { x: 25, y: 3, width: 75, height: 12 }));
    assert_eq!(a.table_view_area, Some(Area { x: 25, y: 15, width: 75, height: 8 }));
    assert!(!a.schema_panel.focused);
    assert_eq!(panel_at(a.schema_panel_area, a.chat_panel_area, a.table_view_area, 16, 30), Some(FocusArea::Table));
}

#[test]
fn focus_keys_change_only_the_focus() {
    let mut a = app();
    let content = Area { x: 0, y: 3, width: 100, height: 20 };
    a.place_panels(content, Area { x: 0, y: 23, width: 100, height: 3 });
    let areas = (a.schema_panel_area, a.chat_panel_area, a.table_view_area, a.input_box_area);
    let messages = a.chat_panel.messages.len();
    a.handle_key(key(Key::Tab));
    assert_eq!(a.focus, FocusArea::Chat);
    a.handle_key(key(Key::BackTab));
    assert_eq!(a.focus, FocusArea::Input);
    assert_eq!((a.schema_panel_area, a.chat_panel_area, a.table_view_area, a.input_box_area), areas);
    assert_eq!(a.chat_panel.messages.len(), messages);
    assert_eq!(a.status_bar.project_name, "demo");
}

#[test]
fn scrolls_outside_the_panels_change_no_panel() {
    let mut a = app();
    a.chat_panel_area = Some(Area { x: 20, y: 0, width: 40, height: 20 });
    a.chat_panel.scroll_offset = 4;
    a.handle_mouse(MouseInput { kind: MouseKind::ScrollUp, row: 40, column: 70 });
    assert_eq!(a.chat_panel.scroll_offset, 4);
    assert_eq!(a.chat_panel.messages.len(), 1);
    assert_eq!(a.focus, FocusArea::Input);
}

#[test]
fn a_scan_collapses_the_tables_and_selects_the_first() {
    let mut a = app();
    a.schema_panel.set_schemas(vec![TableSchema::described("old", "old.csv", Vec::new())]);
    a.schema_panel.expanded[0] = true;
    a.handle_event(AppEvent::SchemaDone(vec![
        TableSchema::described("a", "a.csv", Vec::new()),
        TableSchema::described("b", "b.csv", Vec::new()),
    ]));
    assert_eq!(a.schema_panel.expanded, vec![false, false]);
    assert_eq!(a.schema_panel.selected, Some(0));
    assert_eq!(a.status_bar.data_files_count, 2);
    assert!(a.status_bar.db_connected);
}

#[test]
fn a_question_adds_one_message() {
    let mut a = app();
    let before = a.chat_panel.messages.len();
    a.on_submit("  how many rows?".to_string());
    assert_eq!(a.chat_panel.messages.len(), before + 1);
    assert!(a.chat_panel.is_streaming);
    let focus = a.focus;
    a.handle_event(AppEvent::QueryError("bad".to_string()));
    assert_eq!(a.focus, focus);
    assert_eq!(a.view_mode, ViewMode::Chat);
    assert_eq!(last_message(&a), (MessageRole::System, "❌ 查询错误: bad".to_string()));
}

#[test]
fn project_label_passes_over_trailing_separators_and_dots() {
    assert_eq!(project_label("", "/home/u/proj/"), "proj");
    assert_eq!(project_label("", "/a/b/."), "b");
    assert_eq!(project_label("", "/a/b/./"), "b");
    assert_eq!(project_label("", "/"), "未知项目");
    assert_eq!(project_label("", "a/.."), "未知项目");
    assert_eq!(project_label("", "."), "未知项目");
    assert_eq!(project_label("", ""), "未知项目");
}
