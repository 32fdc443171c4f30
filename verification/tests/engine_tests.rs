use duckpilot::engine_plan::{
    attach_sql, column_count_sql, create_sql, drop_sql, extensions, file_kind, install_sql, is_already_exists_error,
    load_sql, lower_extension, parquet_reader, reload_source, sniff_found_columns, sniff_sql, table_is_usable,
    warns_on_load_failure, FileKind, LoadAction, TableLoad,
};

fn tried(action: &LoadAction) -> String {
    match action {
        LoadAction::Try(s) => s.clone(),
        other => panic!("expected a try, got {:?}", other),
    }
}

#[test]
fn knows_data_file_kinds() {
    assert_eq!(file_kind("csv"), Some(FileKind::Csv));
    assert_eq!(file_kind("xlsx"), Some(FileKind::Excel));
    assert_eq!(file_kind("xls"), Some(FileKind::Excel));
    assert_eq!(file_kind("parquet"), Some(FileKind::Parquet));
    assert_eq!(file_kind("CSV"), None);
    assert_eq!(file_kind("txt"), None);
    assert_eq!(lower_extension("data/Sales.XLSX"), "xlsx");
    assert_eq!(lower_extension("data/readme"), "");
    assert_eq!(lower_extension("a.b/c.Csv"), "csv");
    assert_eq!(lower_extension("x.tar.GZ"), "gz");
    assert_eq!(lower_extension("data/.bashrc"), "");
    assert_eq!(lower_extension("data/a."), "");
    assert_eq!(lower_extension("data.d/"), "d");
}

#[test]
fn builds_loading_statements() {
    assert_eq!(create_sql("t", "read_parquet('x')"), "CREATE TABLE IF NOT EXISTS \"t\" AS SELECT * FROM read_parquet('x')");
    assert_eq!(drop_sql("t"), "DROP TABLE IF EXISTS \"t\"");
    assert_eq!(column_count_sql("t"), "SELECT count(column_name) FROM (DESCRIBE \"t\")");
    assert_eq!(sniff_sql("d/a.csv"), "SELECT count(column_name) FROM (DESCRIBE (SELECT * FROM sniff_csv('d/a.csv')))");
    assert_eq!(parquet_reader("d/p.parquet"), "read_parquet('d/p.parquet')");
    assert!(table_is_usable(2));
    assert!(!table_is_usable(1));
    assert!(sniff_found_columns(Some(3)));
    assert!(!sniff_found_columns(Some(1)));
    assert!(!sniff_found_columns(None));
    assert!(is_already_exists_error("Catalog Error: Table with name t already exists!"));
    assert!(!is_already_exists_error("Parser Error"));
}

#[test]
fn reload_source_picks_the_reader() {
    assert_eq!(reload_source("xls", "f.xls", "header=true"), Ok("read_xlsx('f.xls', header=true)".to_string()));
    assert_eq!(reload_source("csv", "f.csv", "skip=2"), Ok("read_csv_auto('f.csv', skip=2)".to_string()));
    assert_eq!(reload_source("parquet", "f.parquet", "x=1"), Ok("read_parquet('f.parquet', x=1)".to_string()));
    assert_eq!(reload_source("json", "f.json", ""), Err("不支持的文件格式: json".to_string()));
}

#[test]
fn excel_load_tries_each_reading_in_order() {
    let mut load = TableLoad::excel("d/r.xlsx");
    let mut seen = vec![tried(&load.start())];
    loop {
        match load.on_checked(false) {
            LoadAction::Try(s) => seen.push(s),
            LoadAction::Fallback { source, warning } => {
                assert_eq!(source, "read_xlsx('d/r.xlsx', header=true, stop_at_empty=false, all_varchar=true, ignore_errors=true)");
                assert_eq!(warning, "⚠️ Excel 文件 'd/r.xlsx' 的列检测可能不准确，请检查文件格式（合并单元格/标题行）。你可以尝试使用 /help 查看如何修复。");
                break;
            }
            LoadAction::Accept => panic!("nothing was usable"),
        }
    }
    assert_eq!(seen.len(), 8);
    assert_eq!(seen[0], "read_xlsx('d/r.xlsx')");
    assert_eq!(seen[1], "read_xlsx('d/r.xlsx', header=true, range='A1:ZZ100000', stop_at_empty=false)");
    assert_eq!(seen[5], "read_xlsx('d/r.xlsx', header=true, range='A5:ZZ100000', stop_at_empty=false)");
    assert_eq!(seen[6], "read_xlsx('d/r.xlsx', header=true, stop_at_empty=false, ignore_errors=true)");
    assert_eq!(seen[7], "read_xlsx('d/r.xlsx', header=true, stop_at_empty=false, all_varchar=true, ignore_errors=true)");
}

#[test]
fn csv_load_stops_at_the_first_usable_reading() {
    let mut load = TableLoad::csv("d/a.csv", true);
    assert_eq!(tried(&load.start()), "read_csv_auto('d/a.csv', ignore_errors=true, null_padding=true)");
    assert_eq!(tried(&load.on_checked(false)), "read_csv_auto('d/a.csv', sample_size=-1, ignore_errors=true, null_padding=true)");
    assert_eq!(tried(&load.on_checked(false)), "read_csv_auto('d/a.csv', delim=';', sample_size=-1, ignore_errors=true, null_padding=true)");
    assert!(matches!(load.on_checked(true), LoadAction::Accept));

    let mut unsniffed = TableLoad::csv("b.csv", false);
    assert_eq!(tried(&unsniffed.start()), "read_csv_auto('b.csv', sample_size=-1, ignore_errors=true, null_padding=true)");
    assert_eq!(tried(&unsniffed.on_checked(false)), "read_csv_auto('b.csv', delim=';', sample_size=-1, ignore_errors=true, null_padding=true)");
    assert_eq!(tried(&unsniffed.on_checked(false)), "read_csv_auto('b.csv', delim='\t', sample_size=-1, ignore_errors=true, null_padding=true)");
    assert_eq!(tried(&unsniffed.on_checked(false)), "read_csv_auto('b.csv', delim='|', sample_size=-1, ignore_errors=true, null_padding=true)");
    match unsniffed.on_checked(false) {
        LoadAction::Fallback { source, warning } => {
            assert_eq!(source, "read_csv_auto('b.csv', sample_size=-1, ignore_errors=true, null_padding=true)");
            assert_eq!(warning, "⚠️ CSV 文件 'b.csv' 的列检测可能不准确，请检查文件格式");
        }
        other => panic!("unexpected {:?}", other),
    }
}

#[test]
fn prepares_the_engine() {
    assert_eq!(extensions(), vec!["httpfs", "icu", "spatial", "excel", "ducklake"]);
    assert_eq!(install_sql("icu"), "INSTALL icu;");
    assert_eq!(load_sql("icu"), "LOAD icu;");
    assert!(warns_on_load_failure("ducklake"));
    assert!(!warns_on_load_failure("icu"));
    assert_eq!(
        attach_sql("/p/.duckpilot/metadata.ducklake", "/p/.duckpilot/metadata.ducklake.files"),
        "ATTACH 'ducklake:/p/.duckpilot/metadata.ducklake' AS lake (DATA_PATH '/p/.duckpilot/metadata.ducklake.files')"
    );
}
