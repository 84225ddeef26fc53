//! Which rows to build: the window of rows around the scroll position.
//!
//! With tens of thousands of rows, building one widget per row freezes the
//! screen, so the backends that build every row they are given build only the
//! rows around what is visible. The arithmetic on row numbers is the same for
//! every backend and stands here; measuring heights and turning a scroll
//! offset into a row number belong to the backend.
use vstd::prelude::*;

verus! {

/// Tables with at most this many rows are built whole.
pub const ROW_WINDOW_THRESHOLD: usize = 200;

/// Rows built beyond the visible ones on each side, so that no gap shows
/// before the scroll notification arrives.
pub const ROW_WINDOW_OVERSCAN: usize = 12;

/// The rows being built: the half-open range `start..end` of a table of
/// `count` rows.
#[derive(Debug, Clone, Copy, PartialEq, Eq, Structural, Default)]
pub struct RowWindow {
    /// The first row built.
    pub start: usize,
    /// One past the last row built.
    pub end: usize,
    /// The number of rows of the table.
    pub count: usize,
}

/// A range that `start..end` of a table of `count` rows can be.
pub open spec fn well_formed(w: RowWindow) -> bool {
    w.start <= w.end <= w.count
}

pub open spec fn min_int(a: int, b: int) -> int {
    if a <= b {
        a
    } else {
        b
    }
}

/// The window for a table of `count` rows whose top edge shows row
/// `first_row` and whose viewport holds `visible_rows` rows (rounded up),
/// with `overscan` rows more on each side. A small table is built whole; a
/// top row past the end is taken as the last row, so that the window is never
/// empty.
pub open spec fn window_spec(count: usize, first_row: usize, visible_rows: usize, overscan: usize) -> RowWindow {
    if count <= ROW_WINDOW_THRESHOLD {
        RowWindow { start: 0, end: count, count }
    } else {
        let first = min_int(first_row as int, count - 1);
        let start = if first >= overscan {
            first - overscan
        } else {
            0
        };
        let end = min_int(first + visible_rows + 1 + overscan, count as int);
        RowWindow { start: min_int(start, end) as usize, end: end as usize, count }
    }
}

impl RowWindow {
    pub open spec fn size(self) -> nat {
        if self.end >= self.start {
            (self.end - self.start) as nat
        } else {
            0
        }
    }

    pub open spec fn holds(self, index: usize) -> bool {
        self.start <= index < self.end
    }

    pub open spec fn covers_spec(self, needed: RowWindow) -> bool {
        self.count == needed.count && self.start <= needed.start && self.end >= needed.end
    }

    /// Every row of the table.
    pub fn all(count: usize) -> (r: Self)
        ensures
            r == (RowWindow { start: 0, end: count, count }),
    {
        RowWindow { start: 0, end: count, count }
    }

    /// The number of rows built.
    pub fn len(self) -> (r: usize)
        ensures
            r == self.size(),
    {
        self.end.saturating_sub(self.start)
    }

    pub fn is_empty(self) -> (r: bool)
        ensures
            r == (self.size() == 0),
    {
        self.len() == 0
    }

    /// Whether every row is built.
    pub fn is_complete(self) -> (r: bool)
        ensures
            r == (self.start == 0 && self.end >= self.count),
    {
        self.start == 0 && self.end >= self.count
    }

    /// Whether the row is built.
    pub fn contains(self, index: usize) -> (r: bool)
        ensures
            r == self.holds(index),
    {
        self.start <= index && index < self.end
    }

    /// The rows built, in order.
    pub fn indices(self) -> (r: core::ops::Range<usize>)
        ensures
            r.start == self.start,
            r.end == self.end,
    {
        core::ops::Range { start: self.start, end: self.end }
    }

    /// Whether every row of `needed` is in this window (of the same table).
    ///
    /// A window built with [`ROW_WINDOW_OVERSCAN`] rows to spare and checked
    /// against the window of half that overscan lasts until half the spare
    /// rows have scrolled by.
    pub fn covers(self, needed: RowWindow) -> (r: bool)
        ensures
            r == self.covers_spec(needed),
    {
        self.count == needed.count && self.start <= needed.start && self.end >= needed.end
    }
}

/// The rows to build, from the row at the top edge and the rows the viewport
/// holds (see [`window_spec`]).
pub fn window_from_rows(count: usize, first_row: usize, visible_rows: usize, overscan: usize) -> (r:
    RowWindow)
    ensures
        r == window_spec(count, first_row, visible_rows, overscan),
{
    if count <= ROW_WINDOW_THRESHOLD {
        return RowWindow::all(count);
    }
    let first = if first_row < count - 1 {
        first_row
    } else {
        count - 1
    };
    let start = first.saturating_sub(overscan);
    let reach = first.saturating_add(visible_rows).saturating_add(1).saturating_add(overscan);
    let end = if reach < count {
        reach
    } else {
        count
    };
    let start = if start < end {
        start
    } else {
        end
    };
    RowWindow { start, end, count }
}

/// The window to use while the row or viewport height is not known yet: the
/// first [`ROW_WINDOW_THRESHOLD`] rows, enough to measure a row from (a small
/// table is built whole).
pub fn unmeasured_window(count: usize) -> (r: RowWindow)
    ensures
        r == (if count <= ROW_WINDOW_THRESHOLD {
            RowWindow { start: 0, end: count, count }
        } else {
            RowWindow { start: 0, end: ROW_WINDOW_THRESHOLD, count }
        }),
{
    if count <= ROW_WINDOW_THRESHOLD {
        RowWindow::all(count)
    } else {
        RowWindow { start: 0, end: ROW_WINDOW_THRESHOLD, count }
    }
}

/// Whether the window built so far can stay: it must cover `needed` (the
/// window with half the overscan, the least that must be built) and must not
/// be larger than `next` (the window a rebuild would make; a window built
/// before the sizes were known is dropped this way).
pub fn keeps_row_window(current: RowWindow, needed: RowWindow, next: RowWindow) -> (r: bool)
    ensures
        r == (current.covers_spec(needed) && current.size() <= next.size()),
{
    current.covers(needed) && current.len() <= next.len()
}

pub open spec fn subset_of(a: Seq<usize>, b: Seq<usize>) -> bool {
    forall|x: usize| #[trigger] a.contains(x) ==> b.contains(x)
}

/// Whether the selection outside the window survives a change inside it. The
/// native control only knows the rows built, so the change tells a Ctrl /
/// ⌘-click (rows only added, or only removed: keep the rest) from a new
/// selection (rows swapped: drop the rest). `previous` is the former
/// selection inside the window, `current` what the control reports.
pub fn keeps_hidden_selection(previous: &[usize], current: &[usize]) -> (r: bool)
    ensures
        r == (subset_of(current@, previous@) || subset_of(previous@, current@)),
{
    let added = all_in(current, previous);
    let removed = all_in(previous, current);
    added || removed
}

/// Whether every element of `a` is in `b`.
fn all_in(a: &[usize], b: &[usize]) -> (r: bool)
    ensures
        r == subset_of(a@, b@),
{
    let mut i: usize = 0;
    while i < a.len()
        invariant
            i <= a@.len(),
            forall|k: int| 0 <= k < i ==> b@.contains(#[trigger] a@[k]),
        decreases a@.len() - i,
    {
        if !holds_value(b, a[i]) {
            assert(a@.contains(a@[i as int]));
            return false;
        }
        i += 1;
    }
    assert forall|x: usize| #[trigger] a@.contains(x) implies b@.contains(x) by {
        let k = choose|k: int| 0 <= k < a@.len() && a@[k] == x;
        assert(b@.contains(a@[k]));
    }
    true
}

fn holds_value(v: &[usize], x: usize) -> (r: bool)
    ensures
        r == v@.contains(x),
{
    let mut i: usize = 0;
    while i < v.len()
        invariant
            i <= v@.len(),
            forall|k: int| 0 <= k < i ==> v@[k] != x,
        decreases v@.len() - i,
    {
        if v[i] == x {
            assert(v@[i as int] == x);
            return true;
        }
        i += 1;
    }
    false
}

/// Every window is a range of the table; a small table is built whole; a
/// large one holds the row at the top edge (taken as the last row when it
/// points past the end) and so is never empty.
pub proof fn lemma_window_shape(count: usize, first_row: usize, visible_rows: usize, overscan: usize)
    ensures
        well_formed(window_spec(count, first_row, visible_rows, overscan)),
        count <= ROW_WINDOW_THRESHOLD ==> window_spec(count, first_row, visible_rows, overscan).start
            == 0 && window_spec(count, first_row, visible_rows, overscan).end == count,
        count > ROW_WINDOW_THRESHOLD ==> window_spec(
            count,
            first_row,
            visible_rows,
            overscan,
        ).holds(if first_row < count - 1 {
            first_row
        } else {
            (count - 1) as usize
        }),
        count > 0 ==> window_spec(count, first_row, visible_rows, overscan).size() >= 1,
{
}

/// A window built with more overscan covers one built with less at the same
/// position.
pub proof fn lemma_overscan_covers(
    count: usize,
    first_row: usize,
    visible_rows: usize,
    built: usize,
    needed: usize,
)
    requires
        needed <= built,
    ensures
        window_spec(count, first_row, visible_rows, built).covers_spec(
            window_spec(count, first_row, visible_rows, needed),
        ),
{
}

/// A window built with `built` rows of overscan still covers what is needed
/// (with `needed` rows of overscan) after scrolling `moved` rows either way,
/// as long as `moved + needed <= built`: small scrolls do not rebuild.
pub proof fn lemma_small_scroll_kept(
    count: usize,
    first_row: usize,
    visible_rows: usize,
    built: usize,
    needed: usize,
    moved: usize,
    down: bool,
)
    requires
        moved + needed <= built,
        down ==> first_row + moved <= usize::MAX,
        !down ==> moved <= first_row,
    ensures
        window_spec(count, first_row, visible_rows, built).covers_spec(
            window_spec(
                count,
                if down {
                    (first_row + moved) as usize
                } else {
                    (first_row - moved) as usize
                },
                visible_rows,
                needed,
            ),
        ),
{
}

/// A window covers another exactly when it holds every row the other
/// holds (for a non-empty one of the same table): a kept window never leaves
/// a needed row unbuilt, above or below.
pub proof fn lemma_covers_holds_every_row(w: RowWindow, needed: RowWindow)
    ensures
        w.covers_spec(needed) ==> forall|i: usize| #[trigger] needed.holds(i) ==> w.holds(i),
        w.covers_spec(needed) && needed.start < needed.end ==> w.start <= needed.start && needed.end
            <= w.end,
        w.count == needed.count && needed.start < needed.end && (forall|i: usize|
            #[trigger] needed.holds(i) ==> w.holds(i)) ==> w.covers_spec(needed),
{
    if w.count == needed.count && needed.start < needed.end && (forall|i: usize|
        #[trigger] needed.holds(i) ==> w.holds(i)) {
        assert(needed.holds(needed.start));
        assert(needed.holds((needed.end - 1) as usize));
    }
}

/// A window kept by [`keeps_row_window`] holds every row that is needed.
pub proof fn lemma_kept_window_holds_needed_rows(current: RowWindow, needed: RowWindow, next: RowWindow)
    requires
        current.covers_spec(needed) && current.size() <= next.size(),
    ensures
        forall|i: usize| #[trigger] needed.holds(i) ==> current.holds(i),
{
    lemma_covers_holds_every_row(current, needed);
}

/// Which rows a window holds: a small table every row; a large one the
/// rows from `overscan` rows above the top row (the one at the top edge,
/// taken as the last row when it points past the end) down to `overscan`
/// rows below the viewport's rows and the row half showing under them.
pub proof fn lemma_window_rows(count: usize, first_row: usize, visible_rows: usize, overscan: usize, i: usize)
    ensures
        count <= ROW_WINDOW_THRESHOLD ==> (window_spec(count, first_row, visible_rows, overscan).holds(i)
            <==> i < count),
        count > ROW_WINDOW_THRESHOLD ==> ({
            let top = if first_row < count { first_row as int } else { count - 1 };
            window_spec(count, first_row, visible_rows, overscan).holds(i) <==> (i < count && i
                + overscan >= top && i <= top + visible_rows + overscan)
        }),
{
}

} // verus!
