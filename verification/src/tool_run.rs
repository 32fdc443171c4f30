use vstd::prelude::*;

use crate::json::{model_get, opt_str, opt_u64, Json, JsonModel};
use crate::models::QueryResultData;
use crate::text::{
    alphanumeric, cat2, cat3, concat_all, decimal, decimal_text, is_alphanumeric, join, joined,
    texts, to_uppercase, trim, trim_of, uppercase_of,
};
use crate::tool::{DescribeTableTool, ExecuteQueryTool, ListTablesTool, RepairTableTool, SampleDataTool};

verus! {

broadcast use vstd::string::group_string_axioms;

pub open spec fn missing_arg_error(key: Seq<char>) -> Seq<char> {
    "缺少必填参数: "@ + key
}

/// A string argument that a tool cannot do without.
pub open spec fn required_arg(args: JsonModel, key: Seq<char>) -> Result<Seq<char>, Seq<char>> {
    match opt_str(model_get(args, key)) {
        Some(s) => Ok(s),
        None => Err(missing_arg_error(key)),
    }
}

/// A table name that may be put between double quotes in SQL: letters, digits and `_`.
pub open spec fn valid_table_name(name: Seq<char>) -> bool {
    forall|i: int| 0 <= i < name.len() ==> alphanumeric(#[trigger] name[i]) || name[i] == '_'
}

pub open spec fn bad_table_error(name: Seq<char>) -> Seq<char> {
    "非法表名: "@ + name
}

pub open spec fn quoted(name: Seq<char>) -> Seq<char> {
    "\""@ + name + "\""@
}

pub open spec fn describe_sql(name: Seq<char>) -> Seq<char> {
    "DESCRIBE "@ + quoted(name)
}

pub open spec fn count_sql(name: Seq<char>) -> Seq<char> {
    "SELECT COUNT(*) FROM "@ + quoted(name)
}

pub open spec fn sample_sql(name: Seq<char>, limit: nat) -> Seq<char> {
    "SELECT * FROM "@ + quoted(name) + " LIMIT "@ + decimal(limit)
}

pub open spec fn cell_or_unknown(row: Seq<Seq<char>>, i: int) -> Seq<char> {
    if 0 <= i < row.len() { row[i] } else { "?"@ }
}

pub open spec fn listing_line(row: Seq<Seq<char>>) -> Seq<char> {
    "  - "@ + cell_or_unknown(row, 0) + "\n"@
}

/// The answer of `list_tables` for the rows of its query.
pub open spec fn listing_report(cells: Seq<Seq<Seq<char>>>) -> Seq<char> {
    "可用表列表：\n"@ + concat_all(cells.map_values(|r: Seq<Seq<char>>| listing_line(r)))
        + if cells.len() == 0 { "  （无表）\n"@ } else { Seq::empty() }
}

pub open spec fn describe_line(row: Seq<Seq<char>>) -> Seq<char> {
    "  - "@ + cell_or_unknown(row, 0) + " ("@ + cell_or_unknown(row, 1) + ", "@ + cell_or_unknown(row, 2) + ")\n"@
}

/// The line that reports a row count, when the count query gave a first cell.
pub open spec fn count_line(count: Option<Seq<Seq<Seq<char>>>>) -> Seq<char> {
    match count {
        Some(c) => if c.len() > 0 && c[0].len() > 0 { "\n总行数: "@ + c[0][0] } else { Seq::empty() },
        None => Seq::empty(),
    }
}

/// The answer of `describe_table`: the columns, then the row count when it could be read.
pub open spec fn describe_report(name: Seq<char>, cells: Seq<Seq<Seq<char>>>, count: Option<Seq<Seq<Seq<char>>>>) -> Seq<char> {
    "表 "@ + name + " 的结构：\n"@ + concat_all(cells.map_values(|r: Seq<Seq<char>>| describe_line(r))) + count_line(count)
}

pub open spec fn header_line(cols: Seq<Seq<char>>) -> Seq<char> {
    "| "@ + joined(cols, " | "@) + " |\n"@
}

pub open spec fn rule_line(n: nat) -> Seq<char> {
    "|"@ + joined(Seq::new(n, |i: int| "---"@), "|"@) + "|\n"@
}

pub open spec fn row_line(row: Seq<Seq<char>>) -> Seq<char> {
    "| "@ + joined(row, " | "@) + " |\n"@
}

pub open spec fn row_lines(cells: Seq<Seq<Seq<char>>>) -> Seq<char> {
    concat_all(cells.map_values(|r: Seq<Seq<char>>| row_line(r)))
}

/// The most rows that `execute_query` shows.
pub open spec fn shown_rows() -> nat {
    200
}

/// The answer of `execute_query`: a summary, then a Markdown table of at most 200 rows
/// (the most that its description promises).
pub open spec fn query_report(cols: Seq<Seq<char>>, cells: Seq<Seq<Seq<char>>>, row_count: nat, ms: nat) -> Seq<char> {
    let shown = if cells.len() <= shown_rows() { cells.len() } else { shown_rows() };
    "查询完成："@ + decimal(row_count) + " 行 × "@ + decimal(cols.len()) + " 列，耗时 "@ + decimal(ms) + "ms\n\n"@
        + header_line(cols) + rule_line(cols.len()) + row_lines(cells.take(shown as int))
        + if cells.len() > shown_rows() { "\n... 还有 "@ + decimal((cells.len() - shown_rows()) as nat) + " 行未显示"@ } else { Seq::empty() }
}

/// The answer of `sample_data`.
pub open spec fn sample_report(name: Seq<char>, limit: nat, cols: Seq<Seq<char>>, cells: Seq<Seq<Seq<char>>>) -> Seq<char> {
    "表 "@ + name + " 的前 "@ + decimal(limit) + " 行样本：\n\n"@ + header_line(cols) + rule_line(cols.len()) + row_lines(cells)
}

/// The answer of `repair_table_schema` once the table was loaded again.
pub open spec fn repair_report(name: Seq<char>, options: Seq<char>) -> Seq<char> {
    "表 "@ + name + " 已成功使用选项 '"@ + options + "' 重新加载。请通过 describe_table 或 sample_data 验证修复结果。"@
}

/// The number of rows that `sample_data` asks for: `limit` when it is a non-negative
/// integer, else 10, and never more than 100.
pub open spec fn sample_limit(args: JsonModel) -> nat {
    let asked: nat = match opt_u64(model_get(args, "limit"@)) {
        Some(u) => u as nat,
        None => 10,
    };
    if asked <= 100 { asked } else { 100 }
}

/// The statement prefixes that `execute_query` refuses, in the order they are tried.
pub open spec fn write_keywords() -> Seq<Seq<char>> {
    seq!["DROP "@, "DELETE "@, "INSERT "@, "UPDATE "@, "ALTER "@, "CREATE "@, "ATTACH "@, "DETACH "@]
}

/// The first refused prefix that `upper` begins with.
pub open spec fn first_write_keyword(upper: Seq<char>) -> Option<Seq<char>> {
    first_prefix_in(write_keywords(), upper)
}

pub open spec fn first_prefix_in(kws: Seq<Seq<char>>, s: Seq<char>) -> Option<Seq<char>>
    decreases kws.len(),
{
    if kws.len() == 0 {
        None
    } else if kws[0].is_prefix_of(s) {
        Some(kws[0])
    } else {
        first_prefix_in(kws.drop_first(), s)
    }
}

pub open spec fn write_refused_error(kw: Seq<char>) -> Seq<char> {
    "安全限制：不允许执行写操作（"@ + trim_of(kw) + "）"@
}

/// The SQL that `execute_query` runs, or why it refuses: a missing argument, or a
/// statement whose trimmed, upper-cased text begins with a writing keyword.
pub open spec fn checked_sql(args: JsonModel) -> Result<Seq<char>, Seq<char>> {
    match required_arg(args, "sql"@) {
        Err(e) => Err(e),
        Ok(sql) => match first_write_keyword(uppercase_of(trim_of(sql))) {
            Some(kw) => Err(write_refused_error(kw)),
            None => Ok(sql),
        },
    }
}

/// The table that `describe_table` or `sample_data` is asked about, or why it is refused.
pub open spec fn table_arg(args: JsonModel) -> Result<Seq<char>, Seq<char>> {
    match required_arg(args, "table_name"@) {
        Err(e) => Err(e),
        Ok(name) => if valid_table_name(name) { Ok(name) } else { Err(bad_table_error(name)) },
    }
}

/// A required string argument of a tool, or the error that says it is missing.
pub fn required_str(args: &Json, key: &str) -> (r: Result<String, String>)
    ensures
        match r {
            Ok(s) => required_arg(args.model(), key@) == Ok::<Seq<char>, Seq<char>>(s@),
            Err(e) => required_arg(args.model(), key@) == Err::<Seq<char>, Seq<char>>(e@),
        },
{
    match args.get(key) {
        Some(v) => match v.as_str() {
            Some(s) => Ok(s.to_string()),
            None => Err(cat2("缺少必填参数: ", key)),
        },
        None => Err(cat2("缺少必填参数: ", key)),
    }
}

/// Whether `name` holds only letters, digits and `_`.
pub fn is_valid_table_name(name: &str) -> (r: bool)
    ensures
        r == valid_table_name(name@),
{
    let v = crate::text::chars_of(name);
    let mut i: usize = 0;
    while i < v.len()
        invariant
            v@ == name@,
            i <= v.len(),
            forall|j: int| 0 <= j < i ==> alphanumeric(#[trigger] v@[j]) || v@[j] == '_',
        decreases v.len() - i,
    {
        let c = v[i];
        if !(is_alphanumeric(c) || c == '_') {
            return false;
        }
        i = i + 1;
    }
    true
}

fn table_from_args(args: &Json) -> (r: Result<String, String>)
    ensures
        match r {
            Ok(s) => table_arg(args.model()) == Ok::<Seq<char>, Seq<char>>(s@),
            Err(e) => table_arg(args.model()) == Err::<Seq<char>, Seq<char>>(e@),
        },
{
    let name = required_str(args, "table_name")?;
    if !is_valid_table_name(name.as_str()) {
        return Err(cat2("非法表名: ", name.as_str()));
    }
    Ok(name)
}

fn quoted_name(prefix: &str, name: &str) -> (r: String)
    ensures
        r@ == prefix@ + quoted(name@),
{
    let r = cat3(prefix, "\"", name);
    let mut r = r;
    r.append("\"");
    proof {
        assert(r@ =~= prefix@ + quoted(name@));
    }
    r
}

} // verus!

verus! {

proof fn lemma_concat_step(parts: Seq<Seq<char>>, i: int)
    requires
        0 <= i < parts.len(),
    ensures
        concat_all(parts.take(i + 1)) == concat_all(parts.take(i)) + parts[i],
{
    assert(parts.take(i + 1).drop_last() =~= parts.take(i));
}

fn cell_text(row: &Vec<String>, j: usize) -> (r: &str)
    ensures
        r@ == cell_or_unknown(texts(row@), j as int),
{
    if j < row.len() {
        row[j].as_str()
    } else {
        "?"
    }
}

fn row_line_text(row: &Vec<String>) -> (r: String)
    ensures
        r@ == row_line(texts(row@)),
{
    let inner = join(row, " | ");
    let mut r = cat2("| ", inner.as_str());
    r.append(" |\n");
    proof {
        assert(r@ =~= row_line(texts(row@)));
    }
    r
}

fn header_text(cols: &Vec<String>) -> (r: String)
    ensures
        r@ == header_line(texts(cols@)),
{
    let inner = join(cols, " | ");
    let mut r = cat2("| ", inner.as_str());
    r.append(" |\n");
    proof {
        assert(r@ =~= header_line(texts(cols@)));
    }
    r
}

fn rule_text(n: usize) -> (r: String)
    ensures
        r@ == rule_line(n as nat),
{
    let mut dashes: Vec<String> = Vec::new();
    let mut i: usize = 0;
    while i < n
        invariant
            i <= n,
            dashes.len() == i,
            forall|j: int| 0 <= j < i ==> (#[trigger] dashes@[j])@ == "---"@,
        decreases n - i,
    {
        dashes.push("---".to_string());
        i = i + 1;
    }
    let inner = join(&dashes, "|");
    proof {
        assert(texts(dashes@) =~= Seq::new(n as nat, |i: int| "---"@));
    }
    let mut r = cat2("|", inner.as_str());
    r.append("|\n");
    proof {
        assert(r@ =~= rule_line(n as nat));
    }
    r
}

/// Appends the table lines of the first `count` rows.
fn append_rows(out: &mut String, rows: &Vec<Vec<String>>, count: usize)
    requires
        count <= rows.len(),
    ensures
        final(out)@ == old(out)@ + row_lines(rows@.map_values(|r: Vec<String>| texts(r@)).take(count as int)),
{
    let ghost cells = rows@.map_values(|r: Vec<String>| texts(r@));
    let ghost lines = cells.map_values(|r: Seq<Seq<char>>| row_line(r));
    let ghost start = out@;
    let mut i: usize = 0;
    while i < count
        invariant
            count <= rows.len(),
            cells == rows@.map_values(|r: Vec<String>| texts(r@)),
            lines == cells.map_values(|r: Seq<Seq<char>>| row_line(r)),
            i <= count,
            out@ == start + concat_all(lines.take(i as int)),
        decreases count - i,
    {
        let line = row_line_text(&rows[i]);
        out.append(line.as_str());
        proof {
            lemma_concat_step(lines, i as int);
            assert(lines[i as int] == row_line(texts(rows@[i as int]@)));
        }
        i = i + 1;
    }
    proof {
        assert(cells.take(count as int).map_values(|r: Seq<Seq<char>>| row_line(r)) =~= lines.take(count as int));
    }
}

impl ListTablesTool {
    /// The query that lists the tables of the `main` schema.
    pub const SQL: &'static str = "SELECT table_name FROM duckdb_tables() WHERE schema_name = 'main' ORDER BY table_name";

    /// The answer for the rows of [`Self::SQL`].
    pub fn report(&self, result: &QueryResultData) -> (r: String)
        ensures
            r@ == listing_report(result.cells()),
    {
        let ghost cells = result.cells();
        let ghost lines = cells.map_values(|r: Seq<Seq<char>>| listing_line(r));
        let mut out = "可用表列表：\n".to_string();
        let mut i: usize = 0;
        while i < result.rows.len()
            invariant
                cells == result.cells(),
                lines == cells.map_values(|r: Seq<Seq<char>>| listing_line(r)),
                i <= result.rows.len(),
                out@ == "可用表列表：\n"@ + concat_all(lines.take(i as int)),
            decreases result.rows.len() - i,
        {
            let row = &result.rows[i];
            let mut line = cat2("  - ", cell_text(row, 0));
            line.append("\n");
            out.append(line.as_str());
            proof {
                lemma_concat_step(lines, i as int);
                assert(line@ =~= listing_line(texts(row@)));
            }
            i = i + 1;
        }
        if result.rows.len() == 0 {
            out.append("  （无表）\n");
        }
        proof {
            assert(lines.take(cells.len() as int) =~= lines);
        }
        out
    }
}

impl DescribeTableTool {
    /// The table to describe, or why the request is refused.
    pub fn target(&self, args: &Json) -> (r: Result<String, String>)
        ensures
            match r {
                Ok(s) => table_arg(args.model()) == Ok::<Seq<char>, Seq<char>>(s@),
                Err(e) => table_arg(args.model()) == Err::<Seq<char>, Seq<char>>(e@),
            },
    {
        table_from_args(args)
    }

    /// `DESCRIBE "name"`.
    pub fn describe_sql(&self, name: &str) -> (r: String)
        ensures
            r@ == describe_sql(name@),
    {
        quoted_name("DESCRIBE ", name)
    }

    /// `SELECT COUNT(*) FROM "name"`.
    pub fn count_sql(&self, name: &str) -> (r: String)
        ensures
            r@ == count_sql(name@),
    {
        quoted_name("SELECT COUNT(*) FROM ", name)
    }

    /// The answer from the rows of the describe query and, when the count query
    /// succeeded, its rows.
    pub fn report(&self, name: &str, result: &QueryResultData, count: Option<&QueryResultData>) -> (r: String)
        ensures
            r@ == describe_report(name@, result.cells(), match count { Some(c) => Some(c.cells()), None => None }),
    {
        let ghost cells = result.cells();
        let ghost lines = cells.map_values(|r: Seq<Seq<char>>| describe_line(r));
        let mut out = cat3("表 ", name, " 的结构：\n");
        let ghost start = out@;
        let mut i: usize = 0;
        while i < result.rows.len()
            invariant
                cells == result.cells(),
                lines == cells.map_values(|r: Seq<Seq<char>>| describe_line(r)),
                i <= result.rows.len(),
                out@ == start + concat_all(lines.take(i as int)),
            decreases result.rows.len() - i,
        {
            let row = &result.rows[i];
            let mut line = cat3("  - ", cell_text(row, 0), " (");
            line.append(cell_text(row, 1));
            line.append(", ");
            line.append(cell_text(row, 2));
            line.append(")\n");
            out.append(line.as_str());
            proof {
                lemma_concat_step(lines, i as int);
                assert(line@ =~= describe_line(texts(row@)));
            }
            i = i + 1;
        }
        proof {
            assert(lines.take(cells.len() as int) =~= lines);
        }
        match count {
            Some(c) => {
                if c.rows.len() > 0 && c.rows[0].len() > 0 {
                    out.append("\n总行数: ");
                    out.append(c.rows[0][0].as_str());
                }
            },
            None => {},
        }
        proof {
            assert(out@ =~= describe_report(name@, result.cells(), match count { Some(c) => Some(c.cells()), None => None }));
        }
        out
    }
}

} // verus!

verus! {

impl ExecuteQueryTool {
    /// The SQL to run, or why it is refused: a missing `sql` argument, or a statement
    /// that begins with a writing keyword.
    pub fn checked_sql(&self, args: &Json) -> (r: Result<String, String>)
        ensures
            match r {
                Ok(s) => checked_sql(args.model()) == Ok::<Seq<char>, Seq<char>>(s@),
                Err(e) => checked_sql(args.model()) == Err::<Seq<char>, Seq<char>>(e@),
            },
    {
        let sql = required_str(args, "sql")?;
        let upper = to_uppercase(trim(sql.as_str()));
        let kws: Vec<&str> = vec!["DROP ", "DELETE ", "INSERT ", "UPDATE ", "ALTER ", "CREATE ", "ATTACH ", "DETACH "];
        let ghost views = kws@.map_values(|k: &str| k@);
        assert(views =~= write_keywords());
        assert(views.skip(0) =~= views);
        let mut i: usize = 0;
        while i < kws.len()
            invariant
                views == kws@.map_values(|k: &str| k@),
                views == write_keywords(),
                required_arg(args.model(), "sql"@) == Ok::<Seq<char>, Seq<char>>(sql@),
                upper@ == uppercase_of(trim_of(sql@)),
                i <= kws.len(),
                first_write_keyword(upper@) == first_prefix_in(views.skip(i as int), upper@),
            decreases kws.len() - i,
        {
            proof {
                assert(views.skip(i as int)[0] == kws@[i as int]@);
                assert(views.skip(i as int).drop_first() =~= views.skip(i as int + 1));
            }
            if crate::text::starts_with(upper.as_str(), kws[i]) {
                return Err(cat3("安全限制：不允许执行写操作（", trim(kws[i]), "）"));
            }
            i = i + 1;
        }
        Ok(sql)
    }

    /// The answer for the result of the query.
    pub fn report(&self, result: &QueryResultData) -> (r: String)
        ensures
            r@ == query_report(result.header(), result.cells(), result.row_count as nat, result.execution_time_ms as nat),
    {
        let mut out = cat2("查询完成：", decimal_text(result.row_count as u64).as_str());
        out.append(" 行 × ");
        out.append(decimal_text(result.columns.len() as u64).as_str());
        out.append(" 列，耗时 ");
        out.append(decimal_text(result.execution_time_ms).as_str());
        out.append("ms\n\n");
        out.append(header_text(&result.columns).as_str());
        out.append(rule_text(result.columns.len()).as_str());
        let shown: usize = if result.rows.len() <= 200 { result.rows.len() } else { 200 };
        append_rows(&mut out, &result.rows, shown);
        if result.rows.len() > 200 {
            out.append("\n... 还有 ");
            out.append(decimal_text((result.rows.len() - 200) as u64).as_str());
            out.append(" 行未显示");
        }
        proof {
            assert(result.header().len() == result.columns@.len());
            assert(out@ =~= query_report(result.header(), result.cells(), result.row_count as nat, result.execution_time_ms as nat));
        }
        out
    }
}

impl SampleDataTool {
    /// The table, the number of rows and the query that a request asks for, or why it is refused.
    pub fn request(&self, args: &Json) -> (r: Result<(String, usize, String), String>)
        ensures
            match r {
                Ok((name, limit, sql)) => {
                    &&& table_arg(args.model()) == Ok::<Seq<char>, Seq<char>>(name@)
                    &&& limit as nat == sample_limit(args.model())
                    &&& sql@ == sample_sql(name@, limit as nat)
                },
                Err(e) => table_arg(args.model()) == Err::<Seq<char>, Seq<char>>(e@),
            },
    {
        let name = table_from_args(args)?;
        let asked: u64 = match args.get("limit") {
            Some(v) => match v.as_u64() {
                Some(u) => u,
                None => 10,
            },
            None => 10,
        };
        let limit: usize = if asked <= 100 { asked as usize } else { 100 };
        let mut sql = quoted_name("SELECT * FROM ", name.as_str());
        sql.append(" LIMIT ");
        sql.append(decimal_text(limit as u64).as_str());
        proof {
            assert(sql@ =~= sample_sql(name@, limit as nat));
        }
        Ok((name, limit, sql))
    }

    /// The answer for the sampled rows.
    pub fn report(&self, name: &str, limit: usize, result: &QueryResultData) -> (r: String)
        ensures
            r@ == sample_report(name@, limit as nat, result.header(), result.cells()),
    {
        let mut out = cat3("表 ", name, " 的前 ");
        out.append(decimal_text(limit as u64).as_str());
        out.append(" 行样本：\n\n");
        out.append(header_text(&result.columns).as_str());
        out.append(rule_text(result.columns.len()).as_str());
        append_rows(&mut out, &result.rows, result.rows.len());
        proof {
            assert(result.cells().take(result.rows@.len() as int) =~= result.cells());
            assert(out@ =~= sample_report(name@, limit as nat, result.header(), result.cells()));
        }
        out
    }
}

/// The three arguments of `repair_table_schema`.
pub open spec fn repair_args(args: JsonModel) -> Result<(Seq<char>, Seq<char>, Seq<char>), Seq<char>> {
    match required_arg(args, "table_name"@) {
        Err(e) => Err(e),
        Ok(t) => match required_arg(args, "file_path"@) {
            Err(e) => Err(e),
            Ok(f) => match required_arg(args, "options"@) {
                Err(e) => Err(e),
                Ok(o) => Ok((t, f, o)),
            },
        },
    }
}

impl RepairTableTool {
    /// The table, file and reader options of a request, or the first missing argument.
    pub fn request(&self, args: &Json) -> (r: Result<(String, String, String), String>)
        ensures
            match r {
                Ok((t, f, o)) => repair_args(args.model()) == Ok::<(Seq<char>, Seq<char>, Seq<char>), Seq<char>>((t@, f@, o@)),
                Err(e) => repair_args(args.model()) == Err::<(Seq<char>, Seq<char>, Seq<char>), Seq<char>>(e@),
            },
    {
        let t = required_str(args, "table_name")?;
        let f = required_str(args, "file_path")?;
        let o = required_str(args, "options")?;
        Ok((t, f, o))
    }

    /// The answer once the table was loaded again.
    pub fn report(&self, name: &str, options: &str) -> (r: String)
        ensures
            r@ == repair_report(name@, options@),
    {
        let mut out = cat3("表 ", name, " 已成功使用选项 '");
        out.append(options);
        out.append("' 重新加载。请通过 describe_table 或 sample_data 验证修复结果。");
        proof {
            assert(out@ =~= repair_report(name@, options@));
        }
        out
    }
}

} // verus!
