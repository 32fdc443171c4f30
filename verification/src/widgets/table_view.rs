use vstd::prelude::*;

use crate::models::QueryResultData;
use crate::text::{cat3, decimal, decimal_text};

verus! {

/// The query-result table with its highlighted row.
#[derive(Debug)]
pub struct TableView {
    pub data: Option<QueryResultData>,
    selected: Option<usize>,
}

/// The last row index of a result with `n` rows (0 for an empty result).
pub open spec fn last_row(n: nat) -> int {
    if n == 0 { 0 } else { n - 1 }
}

/// The selection after moving up one row.
pub open spec fn row_up(sel: Option<usize>) -> Option<usize> {
    match sel {
        Some(i) => if i > 0 { Some((i - 1) as usize) } else { Some(i) },
        None => None,
    }
}

/// The selection after moving down one row in a result of `n` rows.
pub open spec fn row_down(sel: Option<usize>, n: nat) -> Option<usize> {
    match sel {
        Some(i) => if i < last_row(n) { Some((i + 1) as usize) } else { Some(i) },
        None => None,
    }
}

/// The selection after moving by `delta` rows, kept between the first and the last row.
pub open spec fn row_by(sel: Option<usize>, n: nat, delta: int) -> usize {
    let current: int = match sel {
        Some(i) => i as int,
        None => 0,
    };
    let target = current + delta;
    (if target < 0 { 0 } else if target > last_row(n) { last_row(n) } else { target }) as usize
}

/// `k` moves up in a row.
pub open spec fn rows_up(sel: Option<usize>, k: nat) -> Option<usize>
    decreases k,
{
    if k == 0 { sel } else { row_up(rows_up(sel, (k - 1) as nat)) }
}

/// `k` moves down in a row.
pub open spec fn rows_down(sel: Option<usize>, n: nat, k: nat) -> Option<usize>
    decreases k,
{
    if k == 0 { sel } else { row_down(rows_down(sel, n, (k - 1) as nat), n) }
}

/// Moving down and then up returns to the row one started from, unless it was the last.
pub proof fn lemma_down_then_up(i: usize, n: nat)
    requires
        i < last_row(n),
        n <= usize::MAX,
    ensures
        row_up(row_down(Some(i), n)) == Some(i),
{
}

/// Moving up and then down returns to the row one started from, unless it was the first.
pub proof fn lemma_up_then_down(i: usize, n: nat)
    requires
        0 < i <= last_row(n),
    ensures
        row_down(row_up(Some(i)), n) == Some(i),
{
}

impl TableView {
    /// The shown result.
    pub closed spec fn data_spec(&self) -> Option<QueryResultData> {
        self.data
    }

    pub closed spec fn spec_selected(&self) -> Option<usize> {
        self.selected
    }

    /// The number of rows of the shown result, 0 when none is shown.
    pub open spec fn row_count(&self) -> nat {
        match self.data_spec() {
            Some(d) => d.rows@.len(),
            None => 0,
        }
    }

    /// An empty view with the first row highlighted.
    pub fn new() -> (r: TableView)
        ensures
            r.data_spec() is None,
            r.spec_selected() == Some(0usize),
    {
        TableView { data: None, selected: Some(0) }
    }

    /// The highlighted row.
    pub fn selected(&self) -> (r: Option<usize>)
        ensures
            r == self.spec_selected(),
    {
        self.selected
    }

    /// Shows a new result with its first row highlighted.
    pub fn set_data(&mut self, data: QueryResultData)
        ensures
            final(self).data_spec() == Some(data),
            final(self).spec_selected() == Some(0usize),
    {
        self.data = Some(data);
        self.selected = Some(0);
    }

    pub fn scroll_up(&mut self)
        ensures
            final(self).data_spec() == old(self).data_spec(),
            final(self).spec_selected() == row_up(old(self).spec_selected()),
    {
        match self.selected {
            Some(i) => {
                if i > 0 {
                    self.selected = Some(i - 1);
                }
            },
            None => {},
        }
    }

    pub fn scroll_down(&mut self)
        ensures
            final(self).data_spec() == old(self).data_spec(),
            final(self).spec_selected() == row_down(old(self).spec_selected(), old(self).row_count()),
    {
        match &self.data {
            Some(data) => match self.selected {
                Some(i) => {
                    if i < data.rows.len().saturating_sub(1) {
                        self.selected = Some(i + 1);
                    }
                },
                None => {},
            },
            None => {},
        }
    }

    /// Moves the highlight by `delta` rows (a wheel or trackpad scroll), kept within the rows.
    pub fn scroll_by(&mut self, delta: i32)
        ensures
            final(self).data_spec() == old(self).data_spec(),
            old(self).data_spec() is Some ==> final(self).spec_selected() == Some(row_by(old(self).spec_selected(), old(self).row_count(), delta as int)),
            old(self).data_spec() is None ==> final(self).spec_selected() == old(self).spec_selected(),
    {
        match &self.data {
            Some(data) => {
                let current: usize = match self.selected {
                    Some(i) => i,
                    None => 0,
                };
                let max = data.rows.len().saturating_sub(1);
                let target: i128 = current as i128 + delta as i128;
                let new_pos: usize = if target < 0 {
                    0
                } else if target > max as i128 {
                    max
                } else {
                    target as usize
                };
                self.selected = Some(new_pos);
            },
            None => {},
        }
    }

    /// Moves up by a page of `visible_rows` rows (at least one).
    pub fn page_up(&mut self, visible_rows: usize)
        ensures
            final(self).data_spec() == old(self).data_spec(),
            final(self).spec_selected() == rows_up(old(self).spec_selected(), if visible_rows > 0 { visible_rows as nat } else { 1 }),
    {
        let step: usize = if visible_rows > 1 { visible_rows } else { 1 };
        let mut k: usize = 0;
        while k < step
            invariant
                k <= step,
                self.data == old(self).data_spec(),
                self.selected == rows_up(old(self).selected, k as nat),
            decreases step - k,
        {
            self.scroll_up();
            k = k + 1;
        }
    }

    /// Moves down by a page of `visible_rows` rows (at least one).
    pub fn page_down(&mut self, visible_rows: usize)
        ensures
            final(self).data_spec() == old(self).data_spec(),
            old(self).data_spec() is Some ==> final(self).spec_selected() == rows_down(old(self).spec_selected(), old(self).row_count(), if visible_rows > 0 { visible_rows as nat } else { 1 }),
            old(self).data_spec() is None ==> final(self).spec_selected() == old(self).spec_selected(),
    {
        let step: usize = if visible_rows > 1 { visible_rows } else { 1 };
        let mut k: usize = 0;
        while k < step
            invariant
                k <= step,
                self.data == old(self).data_spec(),
                old(self).data_spec() is Some ==> self.selected == rows_down(old(self).selected, old(self).row_count(), k as nat),
                old(self).data_spec() is None ==> self.selected == old(self).selected,
            decreases step - k,
        {
            self.scroll_down();
            k = k + 1;
        }
    }
}

/// The background of a result row: the highlighted row, or alternating shades.
#[derive(Debug, Clone, Copy, PartialEq, Eq, Structural)]
pub enum RowShade {
    Selected,
    Even,
    Odd,
}

/// The shade of row `i` when `selected` is highlighted (the first row when none is).
pub open spec fn shade_of(i: usize, selected: Option<usize>) -> RowShade {
    let s: usize = match selected {
        Some(k) => k,
        None => 0,
    };
    if i == s { RowShade::Selected } else if i % 2 == 0 { RowShade::Even } else { RowShade::Odd }
}

/// The shade of row `i` when `selected` is highlighted.
pub fn row_shade(i: usize, selected: Option<usize>) -> (r: RowShade)
    ensures
        r == shade_of(i, selected),
{
    let s: usize = match selected {
        Some(k) => k,
        None => 0,
    };
    if i == s {
        RowShade::Selected
    } else if i % 2 == 0 {
        RowShade::Even
    } else {
        RowShade::Odd
    }
}

/// The line under a result: ` R 行 × C 列 | 耗时 Tms `.
pub open spec fn footer_of(row_count: usize, columns: nat, ms: u64) -> Seq<char> {
    " "@ + decimal(row_count as nat) + " 行 × "@ + decimal(columns) + " 列 | 耗时 "@ + decimal(ms as nat) + "ms "@
}

impl QueryResultData {
    /// The line under the result: its row and column counts and the time it took.
    pub fn footer(&self) -> (r: String)
        ensures
            r@ == footer_of(self.row_count, self.columns@.len(), self.execution_time_ms),
    {
        let rows = decimal_text(self.row_count as u64);
        let cols = decimal_text(self.columns.len() as u64);
        let ms = decimal_text(self.execution_time_ms);
        let mut s = cat3(" ", rows.as_str(), " 行 × ");
        s.append(cols.as_str());
        s.append(" 列 | 耗时 ");
        s.append(ms.as_str());
        s.append("ms ");
        s
    }
}


impl Default for TableView {
    /// An empty view with the first row highlighted.
    fn default() -> (r: Self)
        ensures
            r.data_spec() is None,
            r.spec_selected() == Some(0usize),
    {
        TableView::new()
    }
}

} // verus!
