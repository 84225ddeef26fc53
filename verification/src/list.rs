//! List rows and the ways a list can be selected.
//!
//! A list is "rows in order + the rows currently selected". Rows are named
//! by their index in the application's own order, and selections are handed
//! back as indices.
use vstd::prelude::*;

verus! {

/// One row of a list.
#[derive(Debug, Clone, PartialEq, Eq, Default)]
pub struct ListItem {
    /// The text shown.
    pub label: String,
    /// A secondary text shown smaller on a second line (on the same line on
    /// the web).
    pub detail: Option<String>,
    /// Whether the row can be selected.
    pub enabled: bool,
}

impl ListItem {
    pub fn new(label: &str) -> (r: Self)
        ensures
            r.label@ == label@,
            r.detail is None,
            r.enabled,
    {
        ListItem { label: String::from_str(label), detail: None, enabled: true }
    }

    /// Sets the secondary text.
    pub fn detail(self, detail: &str) -> (r: Self)
        ensures
            r.label == self.label,
            r.detail is Some && r.detail->0@ == detail@,
            r.enabled == self.enabled,
    {
        ListItem { detail: Some(String::from_str(detail)), ..self }
    }

    /// Sets whether the row can be selected (it can by default).
    pub fn enabled(self, enabled: bool) -> (r: Self)
        ensures
            r.label == self.label,
            r.detail == self.detail,
            r.enabled == enabled,
    {
        ListItem { enabled, ..self }
    }

    /// Rows made from labels, in order.
    pub fn list(labels: &[&str]) -> (r: Vec<ListItem>)
        ensures
            r@.len() == labels@.len(),
            forall|i: int|
                0 <= i < r@.len() ==> (#[trigger] r@[i]).label@ == labels@[i]@ && r@[i].detail is None
                    && r@[i].enabled,
    {
        let mut out: Vec<ListItem> = Vec::new();
        let mut i: usize = 0;
        while i < labels.len()
            invariant
                i <= labels@.len(),
                out@.len() == i,
                forall|j: int|
                    0 <= j < i ==> (#[trigger] out@[j]).label@ == labels@[j]@ && out@[j].detail is None
                        && out@[j].enabled,
            decreases labels@.len() - i,
        {
            out.push(ListItem::new(labels[i]));
            i += 1;
        }
        out
    }
}

impl From<String> for ListItem {
    /// A row showing `label`.
    fn from(label: String) -> (r: Self) {
        ListItem { label, detail: None, enabled: true }
    }
}

impl vstd::std_specs::convert::FromSpecImpl<String> for ListItem {
    open spec fn obeys_from_spec() -> bool {
        true
    }

    open spec fn from_spec(label: String) -> Self {
        ListItem { label, detail: None, enabled: true }
    }
}

impl From<&str> for ListItem {
    /// A row showing `label`, the same as [`ListItem::new`].
    fn from(label: &str) -> (r: Self)
        ensures
            r.label@ == label@,
            r.detail is None,
            r.enabled,
    {
        ListItem::new(label)
    }
}

impl vstd::std_specs::convert::FromSpecImpl<&str> for ListItem {
    /// The text of a `&str` cannot be written as a `String` value in a
    /// specification; what `from` returns is stated on the impl above.
    open spec fn obeys_from_spec() -> bool {
        false
    }

    open spec fn from_spec(label: &str) -> Self {
        ListItem { label: arbitrary(), detail: None, enabled: true }
    }
}

/// How rows are selected.
#[derive(Debug, Clone, Copy, PartialEq, Eq, Structural)]
pub enum SelectionMode {
    /// One row at a time (the default).
    Single,
    /// Any number of rows, none included.
    Multiple,
}

impl Default for SelectionMode {
    fn default() -> (r: Self)
        ensures
            r == SelectionMode::Single,
    {
        SelectionMode::Single
    }
}

/// Strictly increasing (sorted, without repeats).
pub open spec fn increasing(s: Seq<usize>) -> bool {
    forall|a: int, b: int| 0 <= a < b < s.len() ==> s[a] < s[b]
}

/// A call of `f` on `i` can answer `true`.
pub open spec fn may_accept<F: FnMut(usize) -> bool>(f: F, i: usize) -> bool {
    call_ensures(f, (i,), true)
}

/// A call of `f` on `i` can answer `false`.
pub open spec fn may_reject<F: FnMut(usize) -> bool>(f: F, i: usize) -> bool {
    call_ensures(f, (i,), false)
}

/// The row exists and can be selected.
pub open spec fn row_selectable(items: Seq<ListItem>, i: usize) -> bool {
    i < items.len() && items[i as int].enabled
}

/// `r` is the selection that `mode` keeps out of `indices` when `pred` says
/// which rows can be selected: in increasing order and without repeats, the
/// indices that `pred` accepts, all of them for `Multiple`, only the smallest
/// for `Single`.
pub open spec fn is_selection_of(
    mode: SelectionMode,
    indices: Seq<usize>,
    pred: spec_fn(usize) -> bool,
    r: Seq<usize>,
) -> bool {
    &&& increasing(r)
    &&& forall|x: usize| #[trigger] r.contains(x) ==> indices.contains(x) && pred(x)
    &&& match mode {
        SelectionMode::Multiple => forall|x: usize|
            indices.contains(x) && pred(x) ==> #[trigger] r.contains(x),
        SelectionMode::Single => {
            &&& r.len() <= 1
            &&& forall|x: usize|
                #![trigger indices.contains(x), pred(x)]
                indices.contains(x) && pred(x) ==> r.len() == 1 && r[0] <= x
        },
    }
}

impl SelectionMode {
    pub fn is_multiple(self) -> (r: bool)
        ensures
            r == (self == SelectionMode::Multiple),
    {
        match self {
            SelectionMode::Multiple => true,
            SelectionMode::Single => false,
        }
    }

    /// The selection in the form every backend hands to its native control:
    /// indices out of range and rows that cannot be selected dropped, sorted
    /// in increasing order without repeats, and only the first kept for
    /// [`SelectionMode::Single`].
    pub fn normalize(self, items: &[ListItem], indices: &[usize]) -> (r: Vec<usize>)
        ensures
            is_selection_of(self, indices@, |i: usize| row_selectable(items@, i), r@),
    {
        let ghost pred = |i: usize| row_selectable(items@, i);
        let enabled = |i: usize| -> (b: bool)
            ensures
                b == row_selectable(items@, i),
            { i < items.len() && items[i].enabled };
        self.select_where(indices, enabled, Ghost(pred))
    }

    /// [`normalize_by`](Self::normalize_by) for a callback that answers a
    /// fixed predicate.
    fn select_where<F: FnMut(usize) -> bool>(
        self,
        indices: &[usize],
        enabled: F,
        Ghost(pred): Ghost<spec_fn(usize) -> bool>,
    ) -> (r: Vec<usize>)
        requires
            forall|i: usize| call_requires(enabled, (i,)),
            forall|i: usize, b: bool| call_ensures(enabled, (i,), b) ==> b == pred(i),
        ensures
            is_selection_of(self, indices@, pred, r@),
    {
        let r = self.normalize_by(indices, enabled);
        proof {
            assert forall|x: usize| #[trigger] r@.contains(x) implies indices@.contains(x) && pred(
                x,
            ) by {
            }
            if self == SelectionMode::Multiple {
                assert forall|x: usize| indices@.contains(x) && pred(x) implies #[trigger] r@.contains(
                    x,
                ) by {
                    let j = choose|j: int| 0 <= j < indices@.len() && indices@[j] == x;
                }
            } else {
                assert forall|x: usize| indices@.contains(x) && pred(x) implies r@.len() == 1
                    && r@[0] <= x by {
                    let j = choose|j: int| 0 <= j < indices@.len() && indices@[j] == x;
                }
            }
        }
        r
    }

    /// [`normalize`](Self::normalize) for lists whose rows are not
    /// [`ListItem`]s (tables and the like): `enabled` says whether a row
    /// exists and can be selected, and is asked once for each index, in
    /// order, and about nothing else.
    ///
    /// Every index kept was accepted by `enabled`; every index dropped was
    /// refused by it, or (for `Single`) is larger than the one kept.
    pub fn normalize_by<F: FnMut(usize) -> bool>(self, indices: &[usize], mut enabled: F) -> (r:
        Vec<usize>)
        requires
            forall|i: usize| indices@.contains(i) ==> #[trigger] call_requires(enabled, (i,)),
        ensures
            increasing(r@),
            forall|x: usize| #[trigger] r@.contains(x) ==> indices@.contains(x) && may_accept(enabled, x),
            self == SelectionMode::Single ==> r@.len() <= 1,
            forall|j: int|
                0 <= j < indices@.len() && !r@.contains(#[trigger] indices@[j]) ==> may_reject(enabled, indices@[j]) || (self == SelectionMode::Single && r@.len() == 1 && r@[0]
                    < indices@[j]),
    {
        let ghost e0 = enabled;
        let mut picked: Vec<usize> = Vec::new();
        let mut k: usize = 0;
        while k < indices.len()
            invariant
                k <= indices@.len(),
                enabled == e0,
                forall|i: usize| indices@.contains(i) ==> #[trigger] call_requires(enabled, (i,)),
                increasing(picked@),
                forall|x: usize| #[trigger]
                    picked@.contains(x) ==> indices@.take(k as int).contains(x) && may_accept(enabled, x),
                forall|j: int|
                    0 <= j < k && !picked@.contains(#[trigger] indices@[j]) ==> may_reject(enabled, indices@[j]),
            decreases indices@.len() - k,
        {
            let i = indices[k];
            assert(indices@.contains(i));
            let accepted = enabled(i);
            let ghost before = picked@;
            if accepted {
                insert_sorted(&mut picked, i);
            }
            proof {
                assert forall|x: usize| #[trigger]
                    picked@.contains(x) implies indices@.take(k + 1).contains(x) && may_accept(enabled, x) by {
                    if x == i && accepted {
                        assert(indices@.take(k + 1)[k as int] == i);
                    } else {
                        assert(before.contains(x));
                        let j = choose|j: int| 0 <= j < k && indices@.take(k as int)[j] == x;
                        assert(indices@.take(k + 1)[j] == x);
                    }
                }
                assert forall|j: int|
                    0 <= j < k + 1 && !picked@.contains(#[trigger] indices@[j]) implies may_reject(enabled, indices@[j]) by {
                    if j < k {
                        assert(!before.contains(indices@[j]));
                    }
                }
            }
            k += 1;
        }
        assert(indices@.take(indices@.len() as int) =~= indices@);
        if !self.is_multiple() && picked.len() > 1 {
            let ghost full = picked@;
            picked.truncate(1);
            proof {
                assert(picked@ =~= seq![full[0]]);
                assert forall|x: usize| #[trigger] picked@.contains(x) implies indices@.contains(x)
                    && may_accept(enabled, x) by {
                    assert(full.contains(x));
                }
                assert forall|j: int|
                    0 <= j < indices@.len() && !picked@.contains(#[trigger] indices@[j]) implies (
                    may_reject(enabled, indices@[j]) || (picked@.len() == 1 && picked@[0]
                        < indices@[j])) by {
                    if full.contains(indices@[j]) {
                        let a = choose|a: int| 0 <= a < full.len() && full[a] == indices@[j];
                        if a == 0 {
                            assert(picked@[0] == indices@[j]);
                            assert(picked@.contains(indices@[j]));
                        }
                    }
                }
            }
        }
        picked
    }
}

/// Inserts `x` into a strictly increasing vector, unless it is there already.
fn insert_sorted(v: &mut Vec<usize>, x: usize)
    requires
        increasing(old(v)@),
    ensures
        increasing(final(v)@),
        forall|y: usize| #[trigger] final(v)@.contains(y) <==> (old(v)@.contains(y) || y == x),
{
    let n = v.len();
    let mut pos: usize = 0;
    while pos < n && v[pos] < x
        invariant
            pos <= n == v@.len(),
            v@ == old(v)@,
            increasing(v@),
            forall|a: int| 0 <= a < pos ==> v@[a] < x,
        decreases n - pos,
    {
        pos += 1;
    }
    if pos < n && v[pos] == x {
        return;
    }
    let ghost before = v@;
    v.insert(pos, x);
    proof {
        assert(v@ =~= before.take(pos as int).push(x) + before.skip(pos as int));
        assert forall|a: int, b: int| 0 <= a < b < v@.len() implies v@[a] < v@[b] by {
            if b < pos {
            } else if b == pos {
            } else if a < pos {
                assert(v@[b] == before[b - 1]);
                assert(before[pos as int] > x);
                if b - 1 > pos {
                    assert(before[pos as int] < before[b - 1]);
                }
            } else if a == pos {
                assert(v@[b] == before[b - 1]);
                if b - 1 > pos {
                    assert(before[pos as int] < before[b - 1]);
                }
            } else {
                assert(v@[a] == before[a - 1]);
                assert(v@[b] == before[b - 1]);
            }
        }
        assert forall|y: usize| #[trigger] v@.contains(y) <==> (before.contains(y) || y == x) by {
            if v@.contains(y) {
                let a = choose|a: int| 0 <= a < v@.len() && v@[a] == y;
                if a < pos {
                    assert(before[a] == y);
                } else if a > pos {
                    assert(before[a - 1] == y);
                }
            }
            if before.contains(y) {
                let a = choose|a: int| 0 <= a < before.len() && before[a] == y;
                if a < pos {
                    assert(v@[a] == y);
                } else {
                    assert(v@[a + 1] == y);
                }
            }
            if y == x {
                assert(v@[pos as int] == x);
            }
        }
    }
}

/// Two increasing sequences holding the same values are the same sequence.
pub proof fn lemma_increasing_unique(a: Seq<usize>, b: Seq<usize>)
    requires
        increasing(a),
        increasing(b),
        forall|x: usize| a.contains(x) <==> b.contains(x),
    ensures
        a == b,
    decreases a.len(),
{
    if a.len() == 0 {
        if b.len() > 0 {
            assert(b.contains(b[0]));
        }
        assert(a =~= b);
    } else if b.len() == 0 {
        assert(a.contains(a[0]));
    } else {
        // The largest elements agree; drop them and go on.
        let la = a.last();
        let lb = b.last();
        assert(a.contains(la));
        assert(b.contains(lb));
        let ia = choose|i: int| 0 <= i < a.len() && a[i] == lb;
        let ib = choose|i: int| 0 <= i < b.len() && b[i] == la;
        if la < lb {
            assert(a[ia] <= la);
        }
        if lb < la {
            assert(b[ib] <= lb);
        }
        assert(la == lb);
        let a2 = a.drop_last();
        let b2 = b.drop_last();
        assert forall|x: usize| a2.contains(x) <==> b2.contains(x) by {
            if a2.contains(x) {
                let i = choose|i: int| 0 <= i < a2.len() && a2[i] == x;
                assert(a[i] == x && x < la);
                assert(b.contains(x));
                let j = choose|j: int| 0 <= j < b.len() && b[j] == x;
                assert(j != b.len() - 1);
                assert(b2[j] == x);
            }
            if b2.contains(x) {
                let i = choose|i: int| 0 <= i < b2.len() && b2[i] == x;
                assert(b[i] == x && x < lb);
                assert(a.contains(x));
                let j = choose|j: int| 0 <= j < a.len() && a[j] == x;
                assert(j != a.len() - 1);
                assert(a2[j] == x);
            }
        }
        lemma_increasing_unique(a2, b2);
        assert(a =~= a2.push(la));
        assert(b =~= b2.push(lb));
    }
}

/// A selection pinned down by [`is_selection_of`] is unique.
pub proof fn lemma_selection_unique(
    mode: SelectionMode,
    indices: Seq<usize>,
    pred: spec_fn(usize) -> bool,
    r1: Seq<usize>,
    r2: Seq<usize>,
)
    requires
        is_selection_of(mode, indices, pred, r1),
        is_selection_of(mode, indices, pred, r2),
    ensures
        r1 == r2,
{
    if mode == SelectionMode::Single {
        if r1.len() == 1 {
            assert(r1.contains(r1[0]));
            assert(r2.len() == 1 && r2[0] <= r1[0]);
            assert(r2.contains(r2[0]));
            assert(r1[0] <= r2[0]);
            assert(r1 =~= r2);
        } else if r2.len() == 1 {
            assert(r2.contains(r2[0]));
        } else {
            assert(r1 =~= r2);
        }
    } else {
        lemma_increasing_unique(r1, r2);
    }
}

/// Normalizing a normalized selection changes nothing: the backends can hand
/// a selection through [`SelectionMode::normalize`] any number of times.
pub proof fn lemma_normalize_idempotent(
    mode: SelectionMode,
    items: Seq<ListItem>,
    indices: Seq<usize>,
    once: Seq<usize>,
    twice: Seq<usize>,
)
    requires
        is_selection_of(mode, indices, |i: usize| row_selectable(items, i), once),
        is_selection_of(mode, once, |i: usize| row_selectable(items, i), twice),
    ensures
        twice == once,
{
    let pred = |i: usize| row_selectable(items, i);
    assert(is_selection_of(mode, once, pred, once)) by {
        if mode == SelectionMode::Single {
            assert forall|x: usize| once.contains(x) && pred(x) implies once.len() == 1 && once[0]
                <= x by {
                let i = choose|i: int| 0 <= i < once.len() && once[i] == x;
                assert(i == 0);
            }
        }
    }
    lemma_selection_unique(mode, once, pred, once, twice);
}

} // verus!
