//! Table rows and sort orders.
//!
//! A table is "column definitions + rows in order + the rows selected".
//! Rows are named by their index in the application's order, as in a list;
//! selections are normalized with
//! [`SelectionMode::normalize_by`](crate::SelectionMode::normalize_by).
use vstd::prelude::*;

verus! {

/// The direction of a sort. Each click on a header flips it:
/// `Ascending` → `Descending` → `Ascending`.
#[derive(Debug, Clone, Copy, PartialEq, Eq, Structural)]
pub enum SortOrder {
    /// Smallest first (the default).
    Ascending,
    /// Largest first.
    Descending,
}

impl Default for SortOrder {
    fn default() -> (r: Self)
        ensures
            r == SortOrder::Ascending,
    {
        SortOrder::Ascending
    }
}

impl SortOrder {
    pub open spec fn flip(self) -> SortOrder {
        match self {
            SortOrder::Ascending => SortOrder::Descending,
            SortOrder::Descending => SortOrder::Ascending,
        }
    }

    pub fn is_ascending(self) -> (r: bool)
        ensures
            r == (self == SortOrder::Ascending),
    {
        match self {
            SortOrder::Ascending => true,
            SortOrder::Descending => false,
        }
    }

    /// The other direction.
    pub fn reversed(self) -> (r: Self)
        ensures
            r == self.flip(),
    {
        match self {
            SortOrder::Ascending => SortOrder::Descending,
            SortOrder::Descending => SortOrder::Ascending,
        }
    }
}

/// The sort after a click on the header of column `index`: the same column
/// flips its direction, another column starts ascending.
pub open spec fn sort_after_click(current: Option<(usize, SortOrder)>, index: usize) -> (usize, SortOrder) {
    match current {
        Some((column, order)) => if column == index {
            (index, order.flip())
        } else {
            (index, SortOrder::Ascending)
        },
        None => (index, SortOrder::Ascending),
    }
}

/// The sort after a click on the header of column `index` (how the GTK
/// backend answers a header click).
pub fn next_sort(current: Option<(usize, SortOrder)>, index: usize) -> (r: (usize, SortOrder))
    ensures
        r == sort_after_click(current, index),
{
    match current {
        Some((column, order)) => if column == index {
            (index, order.reversed())
        } else {
            (index, SortOrder::Ascending)
        },
        None => (index, SortOrder::Ascending),
    }
}

/// The arrow that the GTK backend appends to a header title: ` ▲` for the
/// ascending column, ` ▼` for the descending one, nothing for the others.
pub fn sort_arrow(order: Option<SortOrder>) -> (r: &'static str)
    ensures
        r@ == match order {
            Some(SortOrder::Ascending) => " ▲"@,
            Some(SortOrder::Descending) => " ▼"@,
            None => ""@,
        },
{
    match order {
        Some(SortOrder::Ascending) => " ▲",
        Some(SortOrder::Descending) => " ▼",
        None => "",
    }
}

/// Clicking the same header twice gives back the direction it had; the
/// first click on any header sorts ascending.
pub proof fn lemma_header_clicks(current: Option<(usize, SortOrder)>, index: usize)
    ensures
        sort_after_click(Some(sort_after_click(current, index)), index).1 == (match current {
            Some((column, order)) => if column == index {
                order
            } else {
                SortOrder::Descending
            },
            None => SortOrder::Descending,
        }),
        sort_after_click(current, index).0 == index,
        (match current {
            Some((column, _)) => column != index,
            None => true,
        }) ==> sort_after_click(current, index).1 == SortOrder::Ascending,
{
}

/// One row of a table. Cells follow the column order; a row may have fewer
/// or more cells than there are columns: missing cells are empty, extra
/// cells are not shown ([`TableRow::cell`]).
#[derive(Debug, Clone, PartialEq, Eq, Default)]
pub struct TableRow {
    /// The cell texts, left to right.
    pub cells: Vec<String>,
    /// Whether the row can be selected.
    pub enabled: bool,
}

impl TableRow {
    /// A row from its cells.
    pub fn new(cells: &[&str]) -> (r: Self)
        ensures
            r.cells@.len() == cells@.len(),
            forall|i: int| 0 <= i < cells@.len() ==> (#[trigger] r.cells@[i])@ == cells@[i]@,
            r.enabled,
    {
        let mut out: Vec<String> = Vec::new();
        let mut i: usize = 0;
        while i < cells.len()
            invariant
                i <= cells@.len(),
                out@.len() == i,
                forall|j: int| 0 <= j < i ==> (#[trigger] out@[j])@ == cells@[j]@,
            decreases cells@.len() - i,
        {
            out.push(String::from_str(cells[i]));
            i += 1;
        }
        TableRow { cells: out, enabled: true }
    }

    /// Sets whether the row can be selected (it can by default).
    pub fn enabled(self, enabled: bool) -> (r: Self)
        ensures
            r.cells == self.cells,
            r.enabled == enabled,
    {
        TableRow { enabled, ..self }
    }

    /// The cell of column `index`, or the empty text when the row is
    /// shorter.
    pub fn cell(&self, index: usize) -> (r: &str)
        ensures
            r@ == (if index < self.cells@.len() {
                self.cells@[index as int]@
            } else {
                Seq::empty()
            }),
    {
        if index < self.cells.len() {
            self.cells[index].as_str()
        } else {
            proof {
                reveal_strlit("");
            }
            ""
        }
    }

    /// Rows from their cells, in order.
    pub fn list(rows: &[&[&str]]) -> (r: Vec<TableRow>)
        ensures
            r@.len() == rows@.len(),
            forall|k: int|
                0 <= k < rows@.len() ==> (#[trigger] r@[k]).enabled && r@[k].cells@.len()
                    == rows@[k]@.len() && forall|i: int|
                    0 <= i < rows@[k]@.len() ==> (#[trigger] r@[k].cells@[i])@ == rows@[k]@[i]@,
    {
        let mut out: Vec<TableRow> = Vec::new();
        let mut k: usize = 0;
        while k < rows.len()
            invariant
                k <= rows@.len(),
                out@.len() == k,
                forall|m: int|
                    0 <= m < k ==> (#[trigger] out@[m]).enabled && out@[m].cells@.len()
                        == rows@[m]@.len() && forall|i: int|
                        0 <= i < rows@[m]@.len() ==> (#[trigger] out@[m].cells@[i])@
                            == rows@[m]@[i]@,
            decreases rows@.len() - k,
        {
            out.push(TableRow::new(rows[k]));
            k += 1;
        }
        out
    }
}

} // verus!
