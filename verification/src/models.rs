use vstd::prelude::*;

verus! {

/// The result of one SQL query, every cell already written as text.
#[derive(Debug, Clone)]
pub struct QueryResultData {
    pub columns: Vec<String>,
    pub rows: Vec<Vec<String>>,
    pub row_count: usize,
    pub execution_time_ms: u64,
}

/// The structure of one table.
#[derive(Debug, Clone)]
pub struct TableSchema {
    pub name: String,
    pub source_file: String,
    pub columns: Vec<ColumnInfo>,
    pub row_count: Option<usize>,
}

/// One column of a table.
#[derive(Debug, Clone)]
pub struct ColumnInfo {
    pub name: String,
    pub data_type: String,
    pub nullable: bool,
    pub sample_values: Vec<String>,
}

} // verus!

verus! {

impl QueryResultData {
    /// The column names.
    pub open spec fn header(&self) -> Seq<Seq<char>> {
        crate::text::texts(self.columns@)
    }

    /// The cells, row by row.
    pub open spec fn cells(&self) -> Seq<Seq<Seq<char>>> {
        self.rows@.map_values(|r: Vec<String>| crate::text::texts(r@))
    }
}

impl QueryResultData {
    /// A result with the given header and rows; its row count is the number of rows.
    pub fn new(columns: Vec<String>, rows: Vec<Vec<String>>, execution_time_ms: u64) -> (r: Self)
        ensures
            r.columns@ == columns@,
            r.rows@ == rows@,
            r.row_count == rows@.len(),
            r.execution_time_ms == execution_time_ms,
    {
        let row_count = rows.len();
        QueryResultData { columns, rows, row_count, execution_time_ms }
    }
}

impl ColumnInfo {
    /// A column as `DESCRIBE` lists it: the third field reads `YES` for a nullable column.
    pub fn described(name: String, data_type: String, null_flag: &str) -> (r: Self)
        ensures
            r.name@ == name@,
            r.data_type@ == data_type@,
            r.nullable == (null_flag@ == "YES"@),
            r.sample_values@.len() == 0,
    {
        ColumnInfo { name, data_type, nullable: crate::text::str_eq(null_flag, "YES"), sample_values: Vec::new() }
    }
}

impl TableSchema {
    /// The structure of a table loaded from `source_file`; its row count is not known yet.
    pub fn described(name: &str, source_file: &str, columns: Vec<ColumnInfo>) -> (r: Self)
        ensures
            r.name@ == name@,
            r.source_file@ == source_file@,
            r.columns@ == columns@,
            r.row_count.is_none(),
    {
        TableSchema {
            name: crate::text::owned(name),
            source_file: crate::text::owned(source_file),
            columns,
            row_count: None,
        }
    }
}

} // verus!
