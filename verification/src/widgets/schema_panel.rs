use vstd::prelude::*;

use crate::models::{ColumnInfo, TableSchema};
use crate::text::{cat3, contains, contains_text, decimal, decimal_text, to_uppercase, uppercase_of};

verus! {

/// The table list at the side of the screen. Each table is one row; an expanded
/// table is followed by one row per column.
#[derive(Debug)]
pub struct SchemaPanel {
    pub schemas: Vec<TableSchema>,
    /// The highlighted row.
    pub selected: Option<usize>,
    pub expanded: Vec<bool>,
    pub focused: bool,
}

/// The rows that table `t` takes: itself, and its columns when expanded.
pub open spec fn table_rows(schemas: Seq<TableSchema>, expanded: Seq<bool>, t: int) -> int {
    1 + if expanded[t] { schemas[t].columns@.len() as int } else { 0 }
}

/// The row at which table `t` is listed: the rows of the tables before it.
pub open spec fn rows_before(schemas: Seq<TableSchema>, expanded: Seq<bool>, t: int) -> int
    decreases t,
{
    if t <= 0 {
        0
    } else {
        rows_before(schemas, expanded, t - 1) + table_rows(schemas, expanded, t - 1)
    }
}

/// The table listed at row `idx`, if a table (not a column) is listed there.
pub open spec fn table_at_row(schemas: Seq<TableSchema>, expanded: Seq<bool>, idx: int) -> Option<int> {
    if exists|t: int| 0 <= t < schemas.len() && rows_before(schemas, expanded, t) == idx {
        Some(choose|t: int| 0 <= t < schemas.len() && rows_before(schemas, expanded, t) == idx
            && forall|u: int| 0 <= u < t ==> rows_before(schemas, expanded, u) != idx)
    } else {
        None
    }
}

/// The row that `next` selects: the one after, wrapping to the first; the first row
/// when nothing is selected.
pub open spec fn next_row(selected: Option<usize>, total: int) -> int {
    match selected {
        Some(i) => (i + 1) % total,
        None => 0,
    }
}

/// The row that `previous` selects: the one before, wrapping to the last; the first
/// row when nothing is selected.
pub open spec fn previous_row(selected: Option<usize>, total: int) -> int {
    match selected {
        Some(i) => if i == 0 { total - 1 } else { i - 1 },
        None => 0,
    }
}

/// On a list of `total` rows, `previous` undoes `next` and `next` undoes `previous`.
pub proof fn lemma_next_previous_round_trip(i: usize, total: int)
    requires
        0 <= i < total,
        total <= usize::MAX,
    ensures
        previous_row(Some(next_row(Some(i), total) as usize), total) == i,
        next_row(Some(previous_row(Some(i), total) as usize), total) == i,
{
    if i + 1 < total {
        vstd::arithmetic::div_mod::lemma_small_mod((i + 1) as nat, total as nat);
    } else {
        vstd::arithmetic::div_mod::lemma_mod_self_0(total);
    }
    if i > 0 {
        vstd::arithmetic::div_mod::lemma_small_mod(i as nat, total as nat);
    } else {
        vstd::arithmetic::div_mod::lemma_small_mod((total - 1) as nat, total as nat);
        assert(((total - 1) + 1) % total == 0) by {
            vstd::arithmetic::div_mod::lemma_mod_self_0(total);
        }
    }
}

impl SchemaPanel {
    /// Every table has its expansion flag (extra flags are never read).
    pub open spec fn aligned(&self) -> bool {
        self.expanded@.len() >= self.schemas@.len()
    }

    /// The number of rows listed.
    pub open spec fn spec_total(&self) -> int {
        rows_before(self.schemas@, self.expanded@, self.schemas@.len() as int)
    }

    pub fn new() -> (r: SchemaPanel)
        ensures
            r.schemas@.len() == 0,
            r.selected is None,
            r.expanded@.len() == 0,
            !r.focused,
    {
        SchemaPanel { schemas: Vec::new(), selected: None, expanded: Vec::new(), focused: false }
    }

    /// Shows a new list of tables, all collapsed, and selects the first one when
    /// there is any.
    pub fn set_schemas(&mut self, schemas: Vec<TableSchema>)
        ensures
            final(self).schemas@ == schemas@,
            final(self).expanded@ == Seq::new(schemas@.len(), |i: int| false),
            schemas@.len() > 0 ==> final(self).selected == Some(0usize),
            schemas@.len() == 0 ==> final(self).selected == old(self).selected,
            final(self).focused == old(self).focused,
    {
        let n = schemas.len();
        let mut expanded: Vec<bool> = Vec::new();
        let mut i: usize = 0;
        while i < n
            invariant
                i <= n,
                expanded@ == Seq::new(i as nat, |j: int| false),
            decreases n - i,
        {
            expanded.push(false);
            i = i + 1;
            assert(expanded@ =~= Seq::new(i as nat, |j: int| false));
        }
        self.expanded = expanded;
        self.schemas = schemas;
        if n > 0 {
            self.selected = Some(0);
        }
    }

    /// The number of rows listed.
    pub fn total_items(&self) -> (r: usize)
        requires
            self.aligned(),
            self.spec_total() <= usize::MAX,
        ensures
            r == self.spec_total(),
    {
        let mut total: usize = 0;
        let mut t: usize = 0;
        while t < self.schemas.len()
            invariant
                self.aligned(),
                self.spec_total() <= usize::MAX,
                t <= self.schemas@.len(),
                total == rows_before(self.schemas@, self.expanded@, t as int),
            decreases self.schemas@.len() - t,
        {
            proof {
                lemma_rows_before_monotone(self.schemas@, self.expanded@, t as int + 1, self.schemas@.len() as int);
            }
            let extra: usize = if self.expanded[t] { self.schemas[t].columns.len() } else { 0 };
            total = total + 1 + extra;
            t = t + 1;
        }
        total
    }

    /// Whether every table has its expansion flag and the rows can be counted
    /// in a machine word, which the moves below need.
    pub fn within_bounds(&self) -> (r: bool)
        ensures
            r == (self.aligned() && self.spec_total() <= usize::MAX),
    {
        if self.expanded.len() < self.schemas.len() {
            return false;
        }
        let mut total: usize = 0;
        let mut t: usize = 0;
        while t < self.schemas.len()
            invariant
                self.aligned(),
                t <= self.schemas@.len(),
                total == rows_before(self.schemas@, self.expanded@, t as int),
            decreases self.schemas@.len() - t,
        {
            let extra: usize = if self.expanded[t] { self.schemas[t].columns.len() } else { 0 };
            let step = match extra.checked_add(1) {
                Some(x) => x,
                None => {
                    proof {
                        lemma_rows_before_monotone(self.schemas@, self.expanded@, t as int + 1, self.schemas@.len() as int);
                    }
                    return false;
                },
            };
            match total.checked_add(step) {
                Some(x) => {
                    total = x;
                },
                None => {
                    proof {
                        lemma_rows_before_monotone(self.schemas@, self.expanded@, t as int + 1, self.schemas@.len() as int);
                    }
                    return false;
                },
            }
            t = t + 1;
        }
        true
    }

    /// Moves the selection one row down (`forward`) or up, when the rows can be counted.
    pub fn move_selection(&mut self, forward: bool)
        ensures
            schema_moved(*old(self), *final(self), forward),
            final(self).focused == old(self).focused,
    {
        proof {
            lemma_rows_before_monotone(self.schemas@, self.expanded@, 0, self.schemas@.len() as int);
        }
        if self.within_bounds() {
            if forward {
                self.next();
            } else {
                self.previous();
            }
        }
    }

    /// Expands or collapses the selected table, when the rows can be counted.
    pub fn toggle_checked(&mut self)
        ensures
            toggled(*old(self), *final(self)),
            final(self).focused == old(self).focused,
    {
        if self.within_bounds() {
            self.toggle_expand();
        }
    }

    /// Expands or collapses the selected table; nothing happens when a column or
    /// nothing is selected.
    pub fn toggle_expand(&mut self)
        requires
            old(self).aligned(),
            old(self).spec_total() <= usize::MAX,
        ensures
            final(self).schemas@ == old(self).schemas@,
            final(self).selected == old(self).selected,
            final(self).focused == old(self).focused,
            match old(self).selected {
                Some(idx) => match table_at_row(old(self).schemas@, old(self).expanded@, idx as int) {
                    Some(t) => final(self).expanded@ == old(self).expanded@.update(t, !old(self).expanded@[t]),
                    None => final(self).expanded@ == old(self).expanded@,
                },
                None => final(self).expanded@ == old(self).expanded@,
            },
    {
        let ghost schemas = self.schemas@;
        let ghost expanded = self.expanded@;
        match self.selected {
            Some(idx) => {
                let mut current: usize = 0;
                let mut t: usize = 0;
                while t < self.schemas.len()
                    invariant
                        self.schemas@ == schemas,
                        self.expanded@ == expanded,
                        old(self).schemas@ == schemas,
                        old(self).expanded@ == expanded,
                        self.selected == old(self).selected,
                        self.selected == Some(idx),
                        self.focused == old(self).focused,
                        expanded.len() >= schemas.len(),
                        rows_before(schemas, expanded, schemas.len() as int) <= usize::MAX,
                        t <= schemas.len(),
                        current == rows_before(schemas, expanded, t as int),
                        forall|u: int| 0 <= u < t ==> rows_before(schemas, expanded, u) != idx,
                    decreases schemas.len() - t,
                {
                    if current == idx {
                        proof {
                            let c = choose|c: int| 0 <= c < schemas.len() && rows_before(schemas, expanded, c) == idx
                                && forall|u: int| 0 <= u < c ==> rows_before(schemas, expanded, u) != idx;
                            assert(table_at_row(schemas, expanded, idx as int) == Some(c));
                            if c < t {
                                assert(rows_before(schemas, expanded, c) != idx);
                            } else if c > t {
                                assert(rows_before(schemas, expanded, t as int) != idx);
                            }
                        }
                        let flipped = !self.expanded[t];
                        self.expanded.set(t, flipped);
                        return;
                    }
                    proof {
                        lemma_rows_before_monotone(schemas, expanded, t as int + 1, schemas.len() as int);
                    }
                    let extra: usize = if self.expanded[t] { self.schemas[t].columns.len() } else { 0 };
                    current = current + 1 + extra;
                    t = t + 1;
                }
                proof {
                    assert forall|u: int| 0 <= u < schemas.len() implies rows_before(schemas, expanded, u) != idx by {}
                }
            },
            None => {},
        }
    }

    /// Moves the selection one row down, wrapping to the first row.
    pub fn next(&mut self)
        requires
            old(self).aligned(),
            old(self).spec_total() <= usize::MAX,
        ensures
            final(self).schemas@ == old(self).schemas@,
            final(self).expanded@ == old(self).expanded@,
            final(self).focused == old(self).focused,
            old(self).spec_total() == 0 ==> final(self).selected == old(self).selected,
            old(self).spec_total() > 0 ==> final(self).selected == Some(next_row(old(self).selected, old(self).spec_total()) as usize),
    {
        let total = self.total_items();
        if total == 0 {
            return;
        }
        let i = match self.selected {
            Some(i) => (i % total + 1) % total,
            None => 0,
        };
        proof {
            if let Some(j) = old(self).selected {
                assert(((j as int) % (total as int) + 1) % (total as int) == ((j as int) + 1) % (total as int)) by (nonlinear_arith)
                    requires total > 0;
            }
        }
        self.selected = Some(i);
    }

    /// Moves the selection one row up, wrapping to the last row.
    pub fn previous(&mut self)
        requires
            old(self).aligned(),
            old(self).spec_total() <= usize::MAX,
        ensures
            final(self).schemas@ == old(self).schemas@,
            final(self).expanded@ == old(self).expanded@,
            final(self).focused == old(self).focused,
            old(self).spec_total() == 0 ==> final(self).selected == old(self).selected,
            old(self).spec_total() > 0 ==> final(self).selected == Some(previous_row(old(self).selected, old(self).spec_total()) as usize),
    {
        let total = self.total_items();
        if total == 0 {
            return;
        }
        let i = match self.selected {
            Some(i) => if i == 0 { total - 1 } else { i - 1 },
            None => 0,
        };
        self.selected = Some(i);
    }
}

proof fn lemma_rows_before_monotone(schemas: Seq<TableSchema>, expanded: Seq<bool>, a: int, b: int)
    requires
        0 <= a <= b,
    ensures
        rows_before(schemas, expanded, a) <= rows_before(schemas, expanded, b),
    decreases b - a,
{
    if a < b {
        lemma_rows_before_monotone(schemas, expanded, a, b - 1);
    }
}

/// A move of the selection: it happens when the rows can be counted in a machine word,
/// and wraps around the ends.
pub open spec fn schema_moved(before: SchemaPanel, after: SchemaPanel, forward: bool) -> bool {
    &&& after.schemas@ == before.schemas@
    &&& after.expanded@ == before.expanded@
    &&& (before.aligned() && before.spec_total() <= usize::MAX && before.spec_total() > 0 && forward)
        ==> after.selected == Some(next_row(before.selected, before.spec_total()) as usize)
    &&& (before.aligned() && before.spec_total() <= usize::MAX && before.spec_total() > 0 && !forward)
        ==> after.selected == Some(previous_row(before.selected, before.spec_total()) as usize)
    &&& !(before.aligned() && before.spec_total() <= usize::MAX && before.spec_total() > 0)
        ==> after.selected == before.selected
}

/// The expansion that a toggle makes: the selected table flips between expanded and
/// collapsed, when a table is selected and the rows can be counted in a machine word.
pub open spec fn toggled(before: SchemaPanel, after: SchemaPanel) -> bool {
    &&& after.schemas@ == before.schemas@
    &&& after.selected == before.selected
    &&& after.expanded@ == (if before.aligned() && before.spec_total() <= usize::MAX {
        match before.selected {
            Some(idx) => match table_at_row(before.schemas@, before.expanded@, idx as int) {
                Some(t) => before.expanded@.update(t, !before.expanded@[t]),
                None => before.expanded@,
            },
            None => before.expanded@,
        }
    } else {
        before.expanded@
    })
}

/// A move forward and then back, or back and then forward, returns the selection to the
/// row it was on, when a row of a list whose rows can be counted is selected; the tables
/// and their expansion stay as they were.
pub proof fn lemma_move_round_trip(a: SchemaPanel, b: SchemaPanel, c: SchemaPanel, forward: bool)
    requires
        a.aligned(),
        a.spec_total() <= usize::MAX,
        a.selected matches Some(i) && i < a.spec_total(),
        schema_moved(a, b, forward),
        schema_moved(b, c, !forward),
    ensures
        c.selected == a.selected,
        c.schemas@ == a.schemas@,
        c.expanded@ == a.expanded@,
{
    lemma_next_previous_round_trip(a.selected->0, a.spec_total());
}

/// The rows before table `t` depend only on the expansion of the tables before it.
proof fn lemma_rows_before_prefix(schemas: Seq<TableSchema>, e1: Seq<bool>, e2: Seq<bool>, t: int)
    requires
        forall|u: int| 0 <= u < t ==> e1[u] == e2[u],
    ensures
        rows_before(schemas, e1, t) == rows_before(schemas, e2, t),
    decreases t,
{
    if t > 0 {
        lemma_rows_before_prefix(schemas, e1, e2, t - 1);
    }
}

/// Each table is listed below the ones before it.
proof fn lemma_rows_before_strict(schemas: Seq<TableSchema>, expanded: Seq<bool>, a: int, b: int)
    requires
        0 <= a < b,
    ensures
        rows_before(schemas, expanded, a) < rows_before(schemas, expanded, b),
    decreases b - a,
{
    if a < b - 1 {
        lemma_rows_before_strict(schemas, expanded, a, b - 1);
    }
}

/// The table found at a row is the one listed there.
proof fn lemma_table_at_row_is_listed(schemas: Seq<TableSchema>, expanded: Seq<bool>, idx: int, t: int)
    requires
        0 <= t < schemas.len(),
        rows_before(schemas, expanded, t) == idx,
    ensures
        table_at_row(schemas, expanded, idx) == Some(t),
{
    assert forall|u: int| 0 <= u < t implies rows_before(schemas, expanded, u) != idx by {
        lemma_rows_before_strict(schemas, expanded, u, t);
    }
    let c = choose|x: int| 0 <= x < schemas.len() && rows_before(schemas, expanded, x) == idx
        && forall|u: int| 0 <= u < x ==> rows_before(schemas, expanded, u) != idx;
    if c < t {
        lemma_rows_before_strict(schemas, expanded, c, t);
    } else if c > t {
        lemma_rows_before_strict(schemas, expanded, t, c);
    }
}

/// A table found at a row is listed at that row.
proof fn lemma_table_at_row_found(schemas: Seq<TableSchema>, expanded: Seq<bool>, idx: int)
    requires
        table_at_row(schemas, expanded, idx) is Some,
    ensures
        0 <= table_at_row(schemas, expanded, idx)->0 < schemas.len(),
        rows_before(schemas, expanded, table_at_row(schemas, expanded, idx)->0) == idx,
{
    let w = choose|x: int| 0 <= x < schemas.len() && rows_before(schemas, expanded, x) == idx;
    lemma_table_at_row_is_listed(schemas, expanded, idx, w);
}

/// Toggling the same row twice gives the expansion back, when the rows can be counted
/// before and after the first toggle.
pub proof fn lemma_toggle_twice(a: SchemaPanel, b: SchemaPanel, c: SchemaPanel)
    requires
        a.aligned(),
        a.spec_total() <= usize::MAX,
        b.spec_total() <= usize::MAX,
        toggled(a, b),
        toggled(b, c),
    ensures
        c.expanded@ == a.expanded@,
        c.selected == a.selected,
        c.schemas@ == a.schemas@,
{
    if a.selected is Some && table_at_row(a.schemas@, a.expanded@, a.selected->0 as int) is Some {
        let idx = a.selected->0 as int;
        let t = table_at_row(a.schemas@, a.expanded@, idx)->0;
        lemma_table_at_row_found(a.schemas@, a.expanded@, idx);
        assert(b.expanded@ == a.expanded@.update(t, !a.expanded@[t]));
        lemma_rows_before_prefix(a.schemas@, a.expanded@, b.expanded@, t);
        lemma_table_at_row_is_listed(b.schemas@, b.expanded@, idx, t);
        assert(c.expanded@ =~= a.expanded@);
    }
}

/// How a column's type is coloured in the list, read from its upper-case name.
#[derive(Debug, Clone, Copy, PartialEq, Eq, Structural)]
pub enum TypeClass {
    Number,
    Text,
    Time,
    Flag,
    Other,
}

/// The class of an upper-case type name: numbers (`INT`, `FLOAT`, `DOUBLE`), text
/// (`VARCHAR`, `TEXT`), times (`DATE`, `TIME`), flags (`BOOL`), tested in that order.
pub open spec fn class_of_upper(u: Seq<char>) -> TypeClass {
    if contains_text(u, "INT"@) || contains_text(u, "FLOAT"@) || contains_text(u, "DOUBLE"@) {
        TypeClass::Number
    } else if contains_text(u, "VARCHAR"@) || contains_text(u, "TEXT"@) {
        TypeClass::Text
    } else if contains_text(u, "DATE"@) || contains_text(u, "TIME"@) {
        TypeClass::Time
    } else if contains_text(u, "BOOL"@) {
        TypeClass::Flag
    } else {
        TypeClass::Other
    }
}

/// The class of a column type, by its name in upper case.
pub fn type_class(data_type: &str) -> (r: TypeClass)
    ensures
        r == class_of_upper(uppercase_of(data_type@)),
{
    let u = to_uppercase(data_type);
    let u = u.as_str();
    if contains(u, "INT") || contains(u, "FLOAT") || contains(u, "DOUBLE") {
        TypeClass::Number
    } else if contains(u, "VARCHAR") || contains(u, "TEXT") {
        TypeClass::Text
    } else if contains(u, "DATE") || contains(u, "TIME") {
        TypeClass::Time
    } else if contains(u, "BOOL") {
        TypeClass::Flag
    } else {
        TypeClass::Other
    }
}

/// One row of the table list.
#[derive(Debug, Clone)]
pub enum SchemaRow {
    /// A table: whether it is expanded, its name, and its row count as ` (N行)` when known.
    Table { expanded: bool, name: String, rows_note: String },
    /// A column of the expanded table above it.
    Column { name: String, data_type: String, class: TypeClass },
}

/// A row of the list as values.
pub enum SchemaRowModel {
    Table { expanded: bool, name: Seq<char>, rows_note: Seq<char> },
    Column { name: Seq<char>, data_type: Seq<char>, class: TypeClass },
}

pub open spec fn row_model(r: SchemaRow) -> SchemaRowModel {
    match r {
        SchemaRow::Table { expanded, name, rows_note } => SchemaRowModel::Table { expanded, name: name@, rows_note: rows_note@ },
        SchemaRow::Column { name, data_type, class } => SchemaRowModel::Column { name: name@, data_type: data_type@, class },
    }
}

pub open spec fn row_models(v: Seq<SchemaRow>) -> Seq<SchemaRowModel> {
    v.map_values(|r: SchemaRow| row_model(r))
}

/// The row count of a table as shown after its name: ` (N行)`, or nothing when unknown.
pub open spec fn rows_note_of(row_count: Option<usize>) -> Seq<char> {
    match row_count {
        Some(c) => " ("@ + decimal(c as nat) + "行)"@,
        None => Seq::empty(),
    }
}

/// A column as listed.
pub open spec fn column_row(c: ColumnInfo) -> SchemaRowModel {
    SchemaRowModel::Column { name: c.name@, data_type: c.data_type@, class: class_of_upper(uppercase_of(c.data_type@)) }
}

/// The rows of one table: the table, then its columns when it is expanded.
pub open spec fn table_entries(s: TableSchema, expanded: bool) -> Seq<SchemaRowModel> {
    seq![SchemaRowModel::Table { expanded, name: s.name@, rows_note: rows_note_of(s.row_count) }]
        + if expanded { s.columns@.map_values(|c: ColumnInfo| column_row(c)) } else { Seq::empty() }
}

/// The rows of the first `t` tables.
pub open spec fn listing(schemas: Seq<TableSchema>, expanded: Seq<bool>, t: int) -> Seq<SchemaRowModel>
    decreases t,
{
    if t <= 0 {
        Seq::empty()
    } else {
        listing(schemas, expanded, t - 1) + table_entries(schemas[t - 1], expanded[t - 1])
    }
}

/// The list has as many rows as the selection counts, and the row at which the
/// selection places table `t` shows table `t`.
pub proof fn lemma_listing_matches_rows(schemas: Seq<TableSchema>, expanded: Seq<bool>, t: int)
    requires
        expanded.len() >= schemas.len(),
        0 <= t <= schemas.len(),
    ensures
        listing(schemas, expanded, t).len() == rows_before(schemas, expanded, t),
        forall|u: int| 0 <= u < t ==> #[trigger] listing(schemas, expanded, t)[rows_before(schemas, expanded, u)]
            == (SchemaRowModel::Table { expanded: expanded[u], name: schemas[u].name@, rows_note: rows_note_of(schemas[u].row_count) }),
    decreases t,
{
    if t > 0 {
        lemma_listing_matches_rows(schemas, expanded, t - 1);
        let prev = listing(schemas, expanded, t - 1);
        let cur = listing(schemas, expanded, t);
        assert forall|u: int| 0 <= u < t implies #[trigger] cur[rows_before(schemas, expanded, u)]
            == (SchemaRowModel::Table { expanded: expanded[u], name: schemas[u].name@, rows_note: rows_note_of(schemas[u].row_count) }) by {
            lemma_rows_before_monotone(schemas, expanded, 0, u);
            if u < t - 1 {
                lemma_rows_before_monotone(schemas, expanded, u + 1, t - 1);
                assert(rows_before(schemas, expanded, u + 1) == rows_before(schemas, expanded, u) + table_rows(schemas, expanded, u));
                assert(cur[rows_before(schemas, expanded, u)] == prev[rows_before(schemas, expanded, u)]);
            } else {
                assert(cur[rows_before(schemas, expanded, u)] == table_entries(schemas[u], expanded[u])[0]);
            }
        }
    }
}

fn rows_note(row_count: Option<usize>) -> (r: String)
    ensures
        r@ == rows_note_of(row_count),
{
    match row_count {
        Some(c) => {
            let d = decimal_text(c as u64);
            cat3(" (", d.as_str(), "行)")
        },
        None => String::new(),
    }
}

impl SchemaPanel {
    /// The rows of the list, in order.
    pub fn rows(&self) -> (r: Vec<SchemaRow>)
        requires
            self.aligned(),
        ensures
            row_models(r@) == listing(self.schemas@, self.expanded@, self.schemas@.len() as int),
    {
        let mut out: Vec<SchemaRow> = Vec::new();
        let mut t: usize = 0;
        while t < self.schemas.len()
            invariant
                self.aligned(),
                t <= self.schemas@.len(),
                row_models(out@) == listing(self.schemas@, self.expanded@, t as int),
            decreases self.schemas@.len() - t,
        {
            let s = &self.schemas[t];
            let exp = self.expanded[t];
            let ghost before = row_models(out@);
            out.push(SchemaRow::Table { expanded: exp, name: crate::text::owned(s.name.as_str()), rows_note: rows_note(s.row_count) });
            assert(row_models(out@) =~= before + seq![table_entries(*s, exp)[0]]);
            if exp {
                let mut k: usize = 0;
                while k < s.columns.len()
                    invariant
                        k <= s.columns@.len(),
                        row_models(out@) == before + seq![table_entries(*s, exp)[0]] + s.columns@.take(k as int).map_values(|c: ColumnInfo| column_row(c)),
                    decreases s.columns@.len() - k,
                {
                    let c = &s.columns[k];
                    let ghost mid = row_models(out@);
                    out.push(SchemaRow::Column {
                        name: crate::text::owned(c.name.as_str()),
                        data_type: crate::text::owned(c.data_type.as_str()),
                        class: type_class(c.data_type.as_str()),
                    });
                    proof {
                        assert(s.columns@.take(k as int + 1).map_values(|c: ColumnInfo| column_row(c))
                            =~= s.columns@.take(k as int).map_values(|c: ColumnInfo| column_row(c)).push(column_row(*c)));
                        assert(row_models(out@) =~= mid.push(column_row(*c)));
                    }
                    k = k + 1;
                }
                assert(s.columns@.take(s.columns@.len() as int) =~= s.columns@);
            }
            proof {
                assert(row_models(out@) =~= before + table_entries(*s, exp));
            }
            t = t + 1;
        }
        out
    }
}


impl Default for SchemaPanel {
    /// An empty list with nothing selected.
    fn default() -> (r: Self)
        ensures
            r.schemas@.len() == 0,
            r.selected is None,
            r.expanded@.len() == 0,
            !r.focused,
    {
        SchemaPanel::new()
    }
}

} // verus!
