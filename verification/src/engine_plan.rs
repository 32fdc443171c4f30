use vstd::prelude::*;

use crate::text::{cat2, cat3, contains, contains_text, decimal, digit_char, str_eq};
use crate::tool_run::quoted;

verus! {

broadcast use vstd::string::group_string_axioms;

/// The kinds of data file that are loaded as tables.
#[derive(Debug, Clone, Copy, PartialEq, Eq, Structural)]
pub enum FileKind {
    Csv,
    Excel,
    Parquet,
}

/// The kind of a file by its lower-case extension: `csv`; `xlsx` or `xls`; `parquet`.
pub open spec fn kind_of(ext: Seq<char>) -> Option<FileKind> {
    if ext == "csv"@ {
        Some(FileKind::Csv)
    } else if ext == "xlsx"@ || ext == "xls"@ {
        Some(FileKind::Excel)
    } else if ext == "parquet"@ {
        Some(FileKind::Parquet)
    } else {
        None
    }
}

pub fn file_kind(ext: &str) -> (r: Option<FileKind>)
    ensures
        r == kind_of(ext@),
{
    if str_eq(ext, "csv") {
        Some(FileKind::Csv)
    } else if str_eq(ext, "xlsx") || str_eq(ext, "xls") {
        Some(FileKind::Excel)
    } else if str_eq(ext, "parquet") {
        Some(FileKind::Parquet)
    } else {
        None
    }
}

/// The text that `str::to_lowercase` gives for `s`.
pub uninterp spec fn lowercase_of(s: Seq<char>) -> Seq<char>;

pub open spec fn ascii_lower(c: char) -> char {
    if 'A' <= c <= 'Z' { ((c as u32) + 32) as char } else { c }
}

/// `str::to_lowercase`. Beyond naming the result, the contract states what std's
/// documentation gives for ASCII text: each letter `A`-`Z` becomes `a`-`z`, all else stays.
#[verifier::external_body]
pub(crate) fn to_lowercase(s: &str) -> (r: String)
    ensures
        r@ == lowercase_of(s@),
        (forall|i: int| 0 <= i < s@.len() ==> (#[trigger] s@[i] as u32) < 128) ==> {
            &&& r@.len() == s@.len()
            &&& forall|i: int| 0 <= i < s@.len() ==> #[trigger] r@[i] == ascii_lower(s@[i])
        },
{
    s.to_lowercase()
}

/// The index of the last `c` in `s`, or -1 when there is none.
pub open spec fn last_index_of(s: Seq<char>, c: char) -> int
    decreases s.len(),
{
    if s.len() == 0 {
        -1
    } else if s.last() == c {
        s.len() - 1
    } else {
        last_index_of(s.drop_last(), c)
    }
}

/// The text after the last `/` of a path (all of it when there is none).
pub open spec fn last_segment(path: Seq<char>) -> Seq<char> {
    path.skip(last_index_of(path, '/') + 1)
}

/// A path whose final component is the text after its last `/` on every platform: it
/// holds no `\` or `:`, does not begin with `//` (a network share on some platforms),
/// and that text is a name (not empty, `.` or `..`).
pub open spec fn plain_path(path: Seq<char>) -> bool {
    &&& forall|i: int| 0 <= i < path.len() ==> path[i] != '\\' && path[i] != ':'
    &&& !(path.len() >= 2 && path[0] == '/' && path[1] == '/')
    &&& last_segment(path).len() > 0
    &&& last_segment(path) != "."@
    &&& last_segment(path) != ".."@
}

/// A path that every platform splits into components at `/` alone: it holds no `\\`
/// or `:` and does not begin with `//` (a network share on some platforms).
pub open spec fn portable_path(path: Seq<char>) -> bool {
    &&& forall|i: int| 0 <= i < path.len() ==> path[i] != '\\' && path[i] != ':'
    &&& !(path.len() >= 2 && path[0] == '/' && path[1] == '/')
}

/// The path without the trailing separators and `.` parts that `Path::components`
/// passes over (a lone `.` stays: it is the current directory).
pub open spec fn trimmed_path(path: Seq<char>) -> Seq<char>
    decreases path.len(),
{
    if path.len() > 0 && path.last() == '/' {
        trimmed_path(path.drop_last())
    } else if path.len() > 1 && last_segment(path) == "."@ {
        trimmed_path(path.drop_last())
    } else {
        path
    }
}

/// The final component of a path as `Path::file_name` documents it: the last part after
/// trailing separators and `.` parts are passed over; nothing when that part is `..`,
/// or when the path ends in a root, a prefix or the current directory.
pub open spec fn file_name_of(path: Seq<char>) -> Option<Seq<char>> {
    let n = last_segment(trimmed_path(path));
    if n.len() == 0 || n == "."@ || n == ".."@ { None } else { Some(n) }
}

/// The extension of a file name as `Path::extension` documents it: nothing when the
/// name holds no `.`, or only a leading one; else what follows the last `.`.
pub open spec fn name_extension(name: Seq<char>) -> Option<Seq<char>> {
    let k = last_index_of(name, '.');
    if k <= 0 { None } else { Some(name.skip(k + 1)) }
}

/// The extension of a path as `Path::extension` reads it, as text. Whatever the path,
/// an extension is text that follows a `.` in it; for a path whose final component is
/// the text after its last `/`, the contract states which, as std documents it.
#[verifier::external_body]
fn path_extension(path: &str) -> (r: Option<String>)
    ensures
        r matches Some(e) ==> exists|k: int, m: int| 0 < k <= m <= path@.len() && path@[k - 1] == '.' && e@ == path@.subrange(k, m),
        plain_path(path@) ==> match r {
            Some(e) => name_extension(last_segment(path@)) == Some(e@),
            None => name_extension(last_segment(path@)) is None,
        },
{
    std::path::Path::new(path).extension().map(|e| e.to_string_lossy().into_owned())
}

/// The extension of a path in lower case; empty when the path has none.
pub fn lower_extension(path: &str) -> (r: String)
    ensures
        r@.len() == 0 || exists|e: Seq<char>| r@ == lowercase_of(e),
        plain_path(path@) ==> r@ == match name_extension(last_segment(path@)) {
            Some(e) => lowercase_of(e),
            None => Seq::<char>::empty(),
        },
{
    match path_extension(path) {
        Some(e) => to_lowercase(e.as_str()),
        None => String::new(),
    }
}

pub open spec fn unsupported_error(ext: Seq<char>) -> Seq<char> {
    "不支持的文件格式: "@ + ext
}

/// The reader call for loading a file of the given lower-case extension with extra
/// reader options, or why it cannot be loaded.
pub open spec fn reload_source_spec(ext: Seq<char>, file_path: Seq<char>, options: Seq<char>) -> Result<Seq<char>, Seq<char>> {
    match kind_of(ext) {
        Some(FileKind::Excel) => Ok("read_xlsx"@ + "('"@ + file_path + "', "@ + options + ")"@),
        Some(FileKind::Csv) => Ok("read_csv_auto"@ + "('"@ + file_path + "', "@ + options + ")"@),
        Some(FileKind::Parquet) => Ok("read_parquet"@ + "('"@ + file_path + "', "@ + options + ")"@),
        None => Err(unsupported_error(ext)),
    }
}

fn reader_call(reader: &str, file_path: &str, options: &str) -> (r: String)
    ensures
        r@ == reader@ + "('"@ + file_path@ + "', "@ + options@ + ")"@,
{
    let mut s = cat3(reader, "('", file_path);
    s.append("', ");
    s.append(options);
    s.append(")");
    s
}

/// The reader call that reloads a table from `file_path` with extra reader options.
pub fn reload_source(ext: &str, file_path: &str, options: &str) -> (r: Result<String, String>)
    ensures
        match r {
            Ok(s) => reload_source_spec(ext@, file_path@, options@) == Ok::<Seq<char>, Seq<char>>(s@),
            Err(e) => reload_source_spec(ext@, file_path@, options@) == Err::<Seq<char>, Seq<char>>(e@),
        },
{
    match file_kind(ext) {
        Some(FileKind::Excel) => Ok(reader_call("read_xlsx", file_path, options)),
        Some(FileKind::Csv) => Ok(reader_call("read_csv_auto", file_path, options)),
        Some(FileKind::Parquet) => Ok(reader_call("read_parquet", file_path, options)),
        None => Err(cat2("不支持的文件格式: ", ext)),
    }
}

/// `CREATE TABLE IF NOT EXISTS "table" AS SELECT * FROM source`.
pub fn create_sql(table: &str, source: &str) -> (r: String)
    ensures
        r@ == "CREATE TABLE IF NOT EXISTS "@ + quoted(table@) + " AS SELECT * FROM "@ + source@,
{
    let mut s = cat3("CREATE TABLE IF NOT EXISTS \"", table, "\"");
    s.append(" AS SELECT * FROM ");
    s.append(source);
    proof {
        assert(s@ =~= "CREATE TABLE IF NOT EXISTS "@ + quoted(table@) + " AS SELECT * FROM "@ + source@) by {
            reveal_strlit("CREATE TABLE IF NOT EXISTS \"");
            reveal_strlit("CREATE TABLE IF NOT EXISTS ");
            reveal_strlit("\"");
        }
    }
    s
}

/// `DROP TABLE IF EXISTS "table"`.
pub fn drop_sql(table: &str) -> (r: String)
    ensures
        r@ == "DROP TABLE IF EXISTS "@ + quoted(table@),
{
    let mut s = cat3("DROP TABLE IF EXISTS ", "\"", table);
    s.append("\"");
    proof {
        assert(s@ =~= "DROP TABLE IF EXISTS "@ + quoted(table@));
    }
    s
}

/// The query that counts the columns of a table.
pub fn column_count_sql(table: &str) -> (r: String)
    ensures
        r@ == "SELECT count(column_name) FROM (DESCRIBE "@ + quoted(table@) + ")"@,
{
    let mut s = cat3("SELECT count(column_name) FROM (DESCRIBE ", "\"", table);
    s.append("\")");
    proof {
        reveal_strlit("\")");
        reveal_strlit(")");
        reveal_strlit("\"");
        assert(s@ =~= "SELECT count(column_name) FROM (DESCRIBE "@ + quoted(table@) + ")"@);
    }
    s
}

/// The query that counts the columns that CSV sniffing finds in a file.
pub fn sniff_sql(file_path: &str) -> (r: String)
    ensures
        r@ == "SELECT count(column_name) FROM (DESCRIBE (SELECT * FROM sniff_csv('"@ + file_path@ + "')))"@,
{
    cat3("SELECT count(column_name) FROM (DESCRIBE (SELECT * FROM sniff_csv('", file_path, "')))")
}

/// A loaded table is taken as read correctly when it has more than one column.
pub fn table_is_usable(column_count: i64) -> (r: bool)
    ensures
        r == (column_count > 1),
{
    column_count > 1
}

/// CSV sniffing succeeded when it found more than one column; a failed sniff counts as none.
pub fn sniff_found_columns(count: Option<i64>) -> (r: bool)
    ensures
        r == (match count { Some(c) => c > 1, None => false }),
{
    match count {
        Some(c) => c > 1,
        None => false,
    }
}

/// A failed `CREATE TABLE` is harmless when the table already exists.
pub fn is_already_exists_error(message: &str) -> (r: bool)
    ensures
        r == contains_text(message@, "already exists"@),
{
    contains(message, "already exists")
}

/// `read_xlsx('path')`: an Excel file read with the reader's defaults.
pub open spec fn xlsx_plain(p: Seq<char>) -> Seq<char> {
    "read_xlsx('"@ + p + "')"@
}

/// An Excel file read with its header in the first row of the cell range `range`.
pub open spec fn xlsx_range(p: Seq<char>, range: Seq<char>) -> Seq<char> {
    "read_xlsx('"@ + p + "', header=true, range='"@ + range + "', stop_at_empty=false)"@
}

/// An Excel file read past empty rows, skipping cells that fail to convert.
pub open spec fn xlsx_robust(p: Seq<char>) -> Seq<char> {
    "read_xlsx('"@ + p + "', header=true, stop_at_empty=false, ignore_errors=true)"@
}

/// An Excel file read as text in every column.
pub open spec fn xlsx_varchar(p: Seq<char>) -> Seq<char> {
    "read_xlsx('"@ + p + "', header=true, stop_at_empty=false, all_varchar=true, ignore_errors=true)"@
}

/// The reader calls tried in turn for an Excel file: the defaults; a header in each
/// of the first five rows; past empty rows; all columns as text.
pub open spec fn excel_candidates(p: Seq<char>) -> Seq<Seq<char>> {
    seq![
        xlsx_plain(p),
        xlsx_range(p, "A1:ZZ100000"@),
        xlsx_range(p, "A2:ZZ100000"@),
        xlsx_range(p, "A3:ZZ100000"@),
        xlsx_range(p, "A4:ZZ100000"@),
        xlsx_range(p, "A5:ZZ100000"@),
        xlsx_robust(p),
        xlsx_varchar(p),
    ]
}

/// The cell range that reads a sheet whose header is in row `k`.
pub open spec fn header_row_range(k: nat) -> Seq<char> {
    "A"@ + decimal(k) + ":ZZ100000"@
}

/// After the default reading, an Excel load tries a header in row 1, 2, 3, 4 and 5, in
/// that order: the `k`-th call after the first reads with the header in row `k`.
pub proof fn lemma_excel_header_rows(p: Seq<char>, k: nat)
    requires
        1 <= k <= 5,
    ensures
        excel_candidates(p)[k as int] == xlsx_range(p, header_row_range(k)),
{
    reveal_strlit("A");
    reveal_strlit(":ZZ100000");
    reveal_strlit("A1:ZZ100000");
    reveal_strlit("A2:ZZ100000");
    reveal_strlit("A3:ZZ100000");
    reveal_strlit("A4:ZZ100000");
    reveal_strlit("A5:ZZ100000");
    assert(decimal(k) == seq![digit_char(k)]);
    if k == 1 {
        assert(header_row_range(k) =~= "A1:ZZ100000"@);
    } else if k == 2 {
        assert(header_row_range(k) =~= "A2:ZZ100000"@);
    } else if k == 3 {
        assert(header_row_range(k) =~= "A3:ZZ100000"@);
    } else if k == 4 {
        assert(header_row_range(k) =~= "A4:ZZ100000"@);
    } else {
        assert(header_row_range(k) =~= "A5:ZZ100000"@);
    }
}

/// The warning given when no reader call read an Excel file into more than one column.
pub open spec fn excel_warning(p: Seq<char>) -> Seq<char> {
    "⚠️ Excel 文件 '"@ + p + "' 的列检测可能不准确，请检查文件格式（合并单元格/标题行）。你可以尝试使用 /help 查看如何修复。"@
}

/// A CSV file read after a successful sniff.
pub open spec fn csv_sniffed(p: Seq<char>) -> Seq<char> {
    "read_csv_auto('"@ + p + "', ignore_errors=true, null_padding=true)"@
}

/// A CSV file read with the whole file as sample.
pub open spec fn csv_full_scan(p: Seq<char>) -> Seq<char> {
    "read_csv_auto('"@ + p + "', sample_size=-1, ignore_errors=true, null_padding=true)"@
}

/// A CSV file read with the given delimiter.
pub open spec fn csv_delimited(p: Seq<char>, delim: Seq<char>) -> Seq<char> {
    "read_csv_auto('"@ + p + "', delim='"@ + delim + "', sample_size=-1, ignore_errors=true, null_padding=true)"@
}

/// The reader calls tried in turn for a CSV file: the sniffed read when sniffing found
/// more than one column; a full scan; then `;`, tab and `|` as delimiters.
pub open spec fn csv_candidates(p: Seq<char>, sniff_ok: bool) -> Seq<Seq<char>> {
    let rest = seq![
        csv_full_scan(p),
        csv_delimited(p, ";"@),
        csv_delimited(p, "\t"@),
        csv_delimited(p, "|"@),
    ];
    if sniff_ok { seq![csv_sniffed(p)] + rest } else { rest }
}

/// The warning given when no reader call read a CSV file into more than one column.
pub open spec fn csv_warning(p: Seq<char>) -> Seq<char> {
    "⚠️ CSV 文件 '"@ + p + "' 的列检测可能不准确，请检查文件格式"@
}

/// `read_parquet('path')`.
pub open spec fn parquet_source(p: Seq<char>) -> Seq<char> {
    "read_parquet('"@ + p + "')"@
}

/// The reader call that loads a Parquet file.
pub fn parquet_reader(file_path: &str) -> (r: String)
    ensures
        r@ == parquet_source(file_path@),
{
    cat3("read_parquet('", file_path, "')")
}

fn xlsx_with(file_path: &str, tail: &str) -> (r: String)
    ensures
        r@ == "read_xlsx('"@ + file_path@ + tail@,
{
    cat3("read_xlsx('", file_path, tail)
}

fn xlsx_range_reader(file_path: &str, range: &str) -> (r: String)
    ensures
        r@ == xlsx_range(file_path@, range@),
{
    let mut s = cat3("read_xlsx('", file_path, "', header=true, range='");
    s.append(range);
    s.append("', stop_at_empty=false)");
    s
}

fn csv_delimited_reader(file_path: &str, delim: &str) -> (r: String)
    ensures
        r@ == csv_delimited(file_path@, delim@),
{
    let mut s = cat3("read_csv_auto('", file_path, "', delim='");
    s.append(delim);
    s.append("', sample_size=-1, ignore_errors=true, null_padding=true)");
    s
}

/// What to do next while a data file is loaded as a table.
#[derive(Debug)]
pub enum LoadAction {
    /// Drop the table, create it from this reader call, and check its columns.
    Try(String),
    /// Keep the table just created: it has more than one column.
    Accept,
    /// Create the table from this reader call without a check, and report the warning.
    Fallback { source: String, warning: String },
}

/// The state of loading one file: the reader calls still to try, in order.
pub struct TableLoad {
    candidates: Vec<String>,
    fallback: String,
    warning: String,
    next: usize,
}

/// What a load holds: the reader calls in the order they are tried, the call and
/// warning used when none gives more than one column, and how many have been tried.
pub struct LoadModel {
    pub candidates: Seq<Seq<char>>,
    pub fallback: Seq<char>,
    pub warning: Seq<char>,
    pub next: nat,
}

impl View for TableLoad {
    type V = LoadModel;

    closed spec fn view(&self) -> LoadModel {
        LoadModel {
            candidates: crate::text::texts(self.candidates@),
            fallback: self.fallback@,
            warning: self.warning@,
            next: self.next as nat,
        }
    }
}

impl TableLoad {
    /// Every call tried so far lies within the list.
    pub closed spec fn wf(&self) -> bool {
        0 < self.candidates.len() && self.next <= self.candidates.len()
    }

    /// The load of an Excel file.
    pub fn excel(file_path: &str) -> (r: Self)
        ensures
            r.wf(),
            r@.candidates == excel_candidates(file_path@),
            r@.fallback == xlsx_varchar(file_path@),
            r@.warning == excel_warning(file_path@),
            r@.next == 0,
    {
        let mut v: Vec<String> = Vec::new();
        v.push(xlsx_with(file_path, "')"));
        v.push(xlsx_range_reader(file_path, "A1:ZZ100000"));
        v.push(xlsx_range_reader(file_path, "A2:ZZ100000"));
        v.push(xlsx_range_reader(file_path, "A3:ZZ100000"));
        v.push(xlsx_range_reader(file_path, "A4:ZZ100000"));
        v.push(xlsx_range_reader(file_path, "A5:ZZ100000"));
        v.push(xlsx_with(file_path, "', header=true, stop_at_empty=false, ignore_errors=true)"));
        let varchar = xlsx_with(file_path, "', header=true, stop_at_empty=false, all_varchar=true, ignore_errors=true)");
        v.push(varchar.clone());
        let warning = cat3("⚠️ Excel 文件 '", file_path, "' 的列检测可能不准确，请检查文件格式（合并单元格/标题行）。你可以尝试使用 /help 查看如何修复。");
        let r = TableLoad { candidates: v, fallback: varchar, warning, next: 0 };
        assert(r@.candidates =~= excel_candidates(file_path@));
        r
    }

    /// The load of a CSV file; `sniff_ok` tells whether sniffing found more than one column.
    pub fn csv(file_path: &str, sniff_ok: bool) -> (r: Self)
        ensures
            r.wf(),
            r@.candidates == csv_candidates(file_path@, sniff_ok),
            r@.fallback == csv_full_scan(file_path@),
            r@.warning == csv_warning(file_path@),
            r@.next == 0,
    {
        let mut v: Vec<String> = Vec::new();
        if sniff_ok {
            v.push(cat3("read_csv_auto('", file_path, "', ignore_errors=true, null_padding=true)"));
        }
        let full = cat3("read_csv_auto('", file_path, "', sample_size=-1, ignore_errors=true, null_padding=true)");
        v.push(full.clone());
        v.push(csv_delimited_reader(file_path, ";"));
        v.push(csv_delimited_reader(file_path, "\t"));
        v.push(csv_delimited_reader(file_path, "|"));
        let warning = cat3("⚠️ CSV 文件 '", file_path, "' 的列检测可能不准确，请检查文件格式");
        let r = TableLoad { candidates: v, fallback: full, warning, next: 0 };
        assert(r@.candidates =~= csv_candidates(file_path@, sniff_ok));
        r
    }

    /// The first reader call to try.
    pub fn start(&mut self) -> (a: LoadAction)
        requires
            old(self).wf(),
            old(self)@.next == 0,
        ensures
            final(self).wf(),
            a matches LoadAction::Try(s) && s@ == old(self)@.candidates[0],
            final(self)@ == (LoadModel { next: 1, ..old(self)@ }),
    {
        self.next = 1;
        LoadAction::Try(self.candidates[0].clone())
    }

    /// What follows the check of the table created from the last call tried: keep it when
    /// it has more than one column, else try the next call, and after the last one fall back.
    pub fn on_checked(&mut self, usable: bool) -> (a: LoadAction)
        requires
            old(self).wf(),
            old(self)@.next >= 1,
        ensures
            final(self).wf(),
            final(self)@.next >= 1,
            final(self)@.candidates == old(self)@.candidates,
            final(self)@.fallback == old(self)@.fallback,
            final(self)@.warning == old(self)@.warning,
            usable ==> a is Accept && final(self)@.next == old(self)@.next,
            !usable && old(self)@.next < old(self)@.candidates.len() ==> {
                &&& a matches LoadAction::Try(s) && s@ == old(self)@.candidates[old(self)@.next as int]
                &&& final(self)@.next == old(self)@.next + 1
            },
            !usable && old(self)@.next == old(self)@.candidates.len() ==> {
                &&& a matches LoadAction::Fallback { source, warning }
                    && source@ == old(self)@.fallback && warning@ == old(self)@.warning
                &&& final(self)@.next == old(self)@.next
            },
    {
        if usable {
            LoadAction::Accept
        } else if self.next < self.candidates.len() {
            let s = self.candidates[self.next].clone();
            self.next = self.next + 1;
            LoadAction::Try(s)
        } else {
            LoadAction::Fallback { source: self.fallback.clone(), warning: self.warning.clone() }
        }
    }
}

/// The DuckDB extensions installed and loaded at start, in order.
pub open spec fn extension_names() -> Seq<Seq<char>> {
    seq!["httpfs"@, "icu"@, "spatial"@, "excel"@, "ducklake"@]
}

/// The DuckDB extensions installed and loaded at start, in order.
pub fn extensions() -> (r: Vec<String>)
    ensures
        crate::text::texts(r@) == extension_names(),
{
    let mut v: Vec<String> = Vec::new();
    v.push(crate::text::owned("httpfs"));
    v.push(crate::text::owned("icu"));
    v.push(crate::text::owned("spatial"));
    v.push(crate::text::owned("excel"));
    v.push(crate::text::owned("ducklake"));
    assert(crate::text::texts(v@) =~= extension_names());
    v
}

/// `INSTALL ext;`
pub fn install_sql(ext: &str) -> (r: String)
    ensures
        r@ == "INSTALL "@ + ext@ + ";"@,
{
    cat3("INSTALL ", ext, ";")
}

/// `LOAD ext;`
pub fn load_sql(ext: &str) -> (r: String)
    ensures
        r@ == "LOAD "@ + ext@ + ";"@,
{
    cat3("LOAD ", ext, ";")
}

/// Only a failure to load the lake extension is worth a warning: plain DuckDB works without the others.
pub fn warns_on_load_failure(ext: &str) -> (r: bool)
    ensures
        r == (ext@ == "ducklake"@),
{
    str_eq(ext, "ducklake")
}

/// The statement that mounts the lake catalog at `lake_path`, its data under `data_path`.
pub fn attach_sql(lake_path: &str, data_path: &str) -> (r: String)
    ensures
        r@ == "ATTACH 'ducklake:"@ + lake_path@ + "' AS lake (DATA_PATH '"@ + data_path@ + "')"@,
{
    let mut s = cat3("ATTACH 'ducklake:", lake_path, "' AS lake (DATA_PATH '");
    s.append(data_path);
    s.append("')");
    s
}

} // verus!
