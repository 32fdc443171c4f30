use duckpilot::json::{Json, JsonNumber};
use duckpilot::models::QueryResultData;
use duckpilot::tool::{
    build_registry, AgentTool, DescribeTableTool, ExecuteQueryTool, ListTablesTool, RepairTableTool, SampleDataTool,
    ToolRegistry,
};
use duckpilot::tool_run::{is_valid_table_name, required_str};

fn obj(fields: Vec<(&str, Json)>) -> Json {
    Json::Object(fields.into_iter().map(|(k, v)| (k.to_string(), v)).collect())
}

fn s(text: &str) -> Json {
    Json::Str(text.to_string())
}

fn result(columns: &[&str], rows: &[&[&str]], ms: u64) -> QueryResultData {
    QueryResultData::new(
        columns.iter().map(|c| c.to_string()).collect(),
        rows.iter().map(|r| r.iter().map(|c| c.to_string()).collect()).collect(),
        ms,
    )
}

#[test]
fn tools_have_their_names_and_descriptions() {
    assert_eq!(ListTablesTool.name(), "list_tables");
    assert_eq!(DescribeTableTool.name(), "describe_table");
    assert_eq!(ExecuteQueryTool.name(), "execute_query");
    assert_eq!(SampleDataTool.name(), "sample_data");
    assert_eq!(RepairTableTool.name(), "repair_table_schema");
    assert_eq!(SampleDataTool.description(), "查看指定表的前 N 行样本数据。默认返回 10 行。");
    assert_eq!(AgentTool::ExecuteQuery(ExecuteQueryTool).description(), ExecuteQueryTool::DESC);
    assert_eq!(AgentTool::RepairTable(RepairTableTool).name(), RepairTableTool::NAME);
}

#[test]
fn parameters_are_json_schemas() {
    let p = SampleDataTool.parameters();
    assert_eq!(p.get("type").and_then(|v| v.as_str()), Some("object"));
    let props = p.get("properties").unwrap();
    assert_eq!(props.get("limit").and_then(|v| v.get("type")).and_then(|v| v.as_str()), Some("integer"));
    assert_eq!(props.get("table_name").and_then(|v| v.get("description")).and_then(|v| v.as_str()), Some("要查看的表名"));
    let required = p.get("required").and_then(|v| v.as_array()).unwrap();
    assert_eq!(required.len(), 1);
    assert_eq!(required[0].as_str(), Some("table_name"));
    let l = ListTablesTool.parameters();
    assert_eq!(l.get("required").and_then(|v| v.as_array()).map(|v| v.len()), Some(0));
    let r = RepairTableTool.parameters();
    assert_eq!(r.get("required").and_then(|v| v.as_array()).map(|v| v.len()), Some(3));
}

#[test]
fn registry_finds_tools_by_name() {
    let mut reg = ToolRegistry::new();
    assert!(reg.get("list_tables").is_none());
    reg.register(AgentTool::ListTables(ListTablesTool));
    assert!(matches!(reg.get("list_tables"), Some(AgentTool::ListTables(_))));
    reg.register(AgentTool::ListTables(ListTablesTool));
    assert_eq!(reg.to_api_tools().len(), 1);
    let full = build_registry();
    for name in ["list_tables", "describe_table", "execute_query", "sample_data", "repair_table_schema"] {
        assert_eq!(full.get(name).map(|t| t.name()), Some(name));
    }
    assert!(full.get("drop_everything").is_none());
}

#[test]
fn api_tools_come_sorted_by_name() {
    let tools = build_registry().to_api_tools();
    let names: Vec<&str> = tools
        .iter()
        .map(|t| t.get("function").and_then(|f| f.get("name")).and_then(|n| n.as_str()).unwrap())
        .collect();
    assert_eq!(names, vec!["describe_table", "execute_query", "list_tables", "repair_table_schema", "sample_data"]);
    assert_eq!(tools[0].get("type").and_then(|v| v.as_str()), Some("function"));
    assert_eq!(
        tools[2].get("function").and_then(|f| f.get("description")).and_then(|v| v.as_str()),
        Some(ListTablesTool::DESC)
    );
}

#[test]
fn required_arguments_are_checked() {
    let args = obj(vec![("table_name", s("orders")), ("limit", Json::Number(JsonNumber::PosInt(3)))]);
    assert_eq!(required_str(&args, "table_name"), Ok("orders".to_string()));
    assert_eq!(required_str(&args, "sql"), Err("缺少必填参数: sql".to_string()));
    assert_eq!(required_str(&args, "limit"), Err("缺少必填参数: limit".to_string()));
    assert_eq!(required_str(&Json::Null, "sql"), Err("缺少必填参数: sql".to_string()));
}

#[test]
fn table_names_are_letters_digits_and_underscores() {
    assert!(is_valid_table_name("sales_2024"));
    assert!(is_valid_table_name("销售数据"));
    assert!(is_valid_table_name(""));
    assert!(!is_valid_table_name("a b"));
    assert!(!is_valid_table_name("x\";DROP"));
    assert_eq!(DescribeTableTool.target(&obj(vec![("table_name", s("a-b"))])), Err("非法表名: a-b".to_string()));
    assert_eq!(DescribeTableTool.target(&obj(vec![])), Err("缺少必填参数: table_name".to_string()));
    assert_eq!(DescribeTableTool.describe_sql("t1"), "DESCRIBE \"t1\"");
    assert_eq!(DescribeTableTool.count_sql("t1"), "SELECT COUNT(*) FROM \"t1\"");
}

#[test]
fn execute_query_refuses_writes() {
    let tool = ExecuteQueryTool;
    assert_eq!(tool.checked_sql(&obj(vec![("sql", s("SELECT 1"))])), Ok("SELECT 1".to_string()));
    assert_eq!(
        tool.checked_sql(&obj(vec![("sql", s("  drop table t"))])),
        Err("安全限制：不允许执行写操作（DROP）".to_string())
    );
    assert_eq!(
        tool.checked_sql(&obj(vec![("sql", s("Insert into t values (1)"))])),
        Err("安全限制：不允许执行写操作（INSERT）".to_string())
    );
    assert_eq!(tool.checked_sql(&obj(vec![("sql", s("SELECT 'DROP '"))])), Ok("SELECT 'DROP '".to_string()));
    assert_eq!(tool.checked_sql(&obj(vec![])), Err("缺少必填参数: sql".to_string()));
}

#[test]
fn reports_are_written_like_the_tools_do() {
    let listing = ListTablesTool.report(&result(&["table_name"], &[&["a"], &["b"]], 1));
    assert_eq!(listing, "可用表列表：\n  - a\n  - b\n");
    assert_eq!(ListTablesTool.report(&result(&["table_name"], &[], 1)), "可用表列表：\n  （无表）\n");

    let described = DescribeTableTool.report(
        "t",
        &result(&["column_name", "column_type", "null"], &[&["id", "INTEGER", "NO"], &["name"]], 2),
        Some(&result(&["count_star()"], &[&["42"]], 1)),
    );
    assert_eq!(described, "表 t 的结构：\n  - id (INTEGER, NO)\n  - name (?, ?)\n\n总行数: 42");
    let no_count = DescribeTableTool.report("t", &result(&["c"], &[], 2), None);
    assert_eq!(no_count, "表 t 的结构：\n");

    let query = ExecuteQueryTool.report(&result(&["a", "b"], &[&["1", "2"], &["3", "4"]], 7));
    assert_eq!(query, "查询完成：2 行 × 2 列，耗时 7ms\n\n| a | b |\n|---|---|\n| 1 | 2 |\n| 3 | 4 |\n");

    let many: Vec<Vec<String>> = (0..203).map(|i| vec![i.to_string()]).collect();
    let big = ExecuteQueryTool.report(&QueryResultData::new(vec!["n".to_string()], many, 3));
    assert!(big.starts_with("查询完成：203 行 × 1 列，耗时 3ms\n\n| n |\n|---|\n| 0 |\n"));
    assert!(big.contains("| 199 |\n"));
    assert!(!big.contains("| 200 |"));
    assert!(big.ends_with("\n... 还有 3 行未显示"));

    assert_eq!(
        SampleDataTool.report("t", 2, &result(&["x"], &[&["1"], &["2"]], 0)),
        "表 t 的前 2 行样本：\n\n| x |\n|---|\n| 1 |\n| 2 |\n"
    );
    assert_eq!(
        RepairTableTool.report("t", "header=true"),
        "表 t 已成功使用选项 'header=true' 重新加载。请通过 describe_table 或 sample_data 验证修复结果。"
    );
}

#[test]
fn sample_requests_default_and_cap_the_limit() {
    let tool = SampleDataTool;
    assert_eq!(tool.request(&obj(vec![("table_name", s("t"))])), Ok(("t".to_string(), 10, "SELECT * FROM \"t\" LIMIT 10".to_string())));
    assert_eq!(
        tool.request(&obj(vec![("table_name", s("t")), ("limit", Json::Number(JsonNumber::PosInt(500)))])),
        Ok(("t".to_string(), 100, "SELECT * FROM \"t\" LIMIT 100".to_string()))
    );
    assert_eq!(
        tool.request(&obj(vec![("table_name", s("t")), ("limit", Json::Number(JsonNumber::NegInt(-1)))])),
        Ok(("t".to_string(), 10, "SELECT * FROM \"t\" LIMIT 10".to_string()))
    );
    assert_eq!(tool.request(&obj(vec![("table_name", s("t;"))])), Err("非法表名: t;".to_string()));
}

#[test]
fn repair_requests_need_all_three_arguments() {
    let tool = RepairTableTool;
    let full = obj(vec![("table_name", s("t")), ("file_path", s("data/t.csv")), ("options", s("skip=2"))]);
    assert_eq!(tool.request(&full), Ok(("t".to_string(), "data/t.csv".to_string(), "skip=2".to_string())));
    let missing = obj(vec![("table_name", s("t")), ("options", s("skip=2"))]);
    assert_eq!(tool.request(&missing), Err("缺少必填参数: file_path".to_string()));
}

#[test]
fn query_reports_show_up_to_two_hundred_rows() {
    let rows: Vec<Vec<String>> = (0..200).map(|i| vec![i.to_string()]).collect();
    let out = ExecuteQueryTool.report(&QueryResultData::new(vec!["n".to_string()], rows, 1));
    assert!(out.ends_with("| 199 |\n"));
    assert!(!out.contains("还有"));
}
