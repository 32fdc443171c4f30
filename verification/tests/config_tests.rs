use duckpilot::cli::{repl_command, setting_after_input, Commands, ConfigAction, ReplCommand};
use duckpilot::config::{api_key_is_set, default_api_base, default_max_threads, default_model, ProjectConfig};
use duckpilot::models::{ColumnInfo, QueryResultData, TableSchema};

#[test]
fn settings_have_defaults() {
    assert_eq!(default_api_base(), "https://api.openai.com/v1");
    assert_eq!(default_model(), "gpt-4o");
    assert_eq!(default_max_threads(), 4);
    assert!(!api_key_is_set(""));
    assert!(api_key_is_set("SECRET-REDACTED"));
}

#[test]
fn project_config_defaults_and_paths() {
    let c = ProjectConfig::default();
    assert_eq!(c.name, "");
    assert_eq!(c.industry, "");
    assert_eq!(c.analyst_role, "数据分析师");
    assert!(c.metrics.is_empty() && c.cleaning_rules.is_empty() && c.views.is_empty());
    let expected_dir = std::path::Path::new("/work/p").join(".duckpilot").to_string_lossy().into_owned();
    assert_eq!(ProjectConfig::duckpilot_dir("/work/p"), expected_dir);
    let expected_cfg = std::path::Path::new("/work/p").join("config.yaml").to_string_lossy().into_owned();
    assert_eq!(ProjectConfig::config_path("/work/p"), expected_cfg);
    assert_ne!(ProjectConfig::config_path("/work/p"), "/work/p");
    assert_eq!(ProjectConfig::DUCKPILOT_DIR, ".duckpilot");
    assert_eq!(ProjectConfig::CONFIG_FILE, "config.yaml");
}

#[test]
fn reads_prompt_lines() {
    assert_eq!(repl_command("   "), ReplCommand::Skip);
    assert_eq!(repl_command(" /exit "), ReplCommand::Exit);
    assert_eq!(repl_command("/quit"), ReplCommand::Exit);
    assert_eq!(repl_command("/q"), ReplCommand::Exit);
    assert_eq!(repl_command("/help"), ReplCommand::Help);
    assert_eq!(repl_command("/clear"), ReplCommand::Clear);
    assert_eq!(repl_command("/refresh"), ReplCommand::Refresh);
    assert_eq!(repl_command("/r"), ReplCommand::Unknown("/r".to_string()));
    assert_eq!(repl_command("  销售额最高的是哪个月？\n"), ReplCommand::Ask("销售额最高的是哪个月？".to_string()));
}

#[test]
fn setting_answers_replace_only_when_given() {
    assert_eq!(setting_after_input("old".to_string(), "  new-key \n"), "new-key");
    assert_eq!(setting_after_input("old".to_string(), " \n"), "old");
    assert_eq!(setting_after_input(String::new(), ""), "");
}

#[test]
fn commands_are_plain_values() {
    let c = Commands::Config { action: ConfigAction::Show };
    assert_eq!(c, Commands::Config { action: ConfigAction::Show });
    assert_ne!(Commands::Init, Commands::Chat);
    assert_ne!(ConfigAction::Setup, ConfigAction::Show);
}

#[test]
fn builds_result_and_schema_values() {
    let data = QueryResultData::new(vec!["a".to_string()], vec![vec!["1".to_string()], vec!["2".to_string()]], 9);
    assert_eq!(data.row_count, 2);
    assert_eq!(data.execution_time_ms, 9);
    assert_eq!(data.footer(), " 2 行 × 1 列 | 耗时 9ms ");
    let col = ColumnInfo::described("id".to_string(), "INTEGER".to_string(), "YES");
    assert!(col.nullable);
    assert!(!ColumnInfo::described("id".to_string(), "INTEGER".to_string(), "NO").nullable);
    assert!(col.sample_values.is_empty());
    let schema = TableSchema::described("t", "data/t.csv", vec![col]);
    assert_eq!(schema.name, "t");
    assert_eq!(schema.source_file, "data/t.csv");
    assert_eq!(schema.columns.len(), 1);
    assert!(schema.row_count.is_none());
}

#[test]
fn project_paths_join_with_one_separator() {
    let dir = ProjectConfig::duckpilot_dir("/p");
    assert_eq!(dir, std::path::Path::new("/p").join(".duckpilot").to_string_lossy().into_owned());
    assert!(dir == "/p/.duckpilot" || dir == "/p\\.duckpilot");
    let cfg = ProjectConfig::config_path("/p");
    assert!(cfg == "/p/config.yaml" || cfg == "/p\\config.yaml");
    assert_eq!(ProjectConfig::duckpilot_dir(""), ".duckpilot");
    assert_eq!(ProjectConfig::config_path(""), "config.yaml");
    assert_eq!(ProjectConfig::duckpilot_dir("/p/"), "/p/.duckpilot");
}

#[test]
fn project_paths_keep_the_root_text() {
    assert_eq!(ProjectConfig::config_path("proj"), std::path::Path::new("proj").join("config.yaml").to_string_lossy().into_owned());
    assert!(ProjectConfig::config_path("proj").starts_with("proj"));
}
