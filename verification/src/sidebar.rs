//! Sidebar items and the sections they are grouped in.
use vstd::prelude::*;

use crate::toolbar::ToolbarIcon;

verus! {

/// One sidebar item: an optional icon and a text on one line. The icons are
/// those of the toolbar, mapped to each environment's standard icon.
#[derive(Debug, Clone, PartialEq, Eq)]
pub struct SidebarItem {
    /// The text shown.
    pub label: String,
    /// The icon before the text; `None` shows the text alone.
    pub icon: Option<ToolbarIcon>,
    /// Whether the item can be chosen.
    pub enabled: bool,
}

impl SidebarItem {
    /// An item that can be chosen, without an icon.
    pub fn new(label: &str) -> (r: Self)
        ensures
            r.label@ == label@,
            r.icon is None,
            r.enabled,
    {
        SidebarItem { label: String::from_str(label), icon: None, enabled: true }
    }

    /// Sets the icon shown before the text (none by default).
    pub fn icon(self, icon: ToolbarIcon) -> (r: Self)
        ensures
            r.label == self.label,
            r.icon == Some(icon),
            r.enabled == self.enabled,
    {
        SidebarItem { icon: Some(icon), ..self }
    }

    /// Sets whether the item can be chosen (it can by default).
    pub fn enabled(self, enabled: bool) -> (r: Self)
        ensures
            r.label == self.label,
            r.icon == self.icon,
            r.enabled == enabled,
    {
        SidebarItem { enabled, ..self }
    }

    /// Items made from labels, in order.
    pub fn list(labels: &[&str]) -> (r: Vec<SidebarItem>)
        ensures
            r@.len() == labels@.len(),
            forall|i: int|
                0 <= i < r@.len() ==> (#[trigger] r@[i]).label@ == labels@[i]@ && r@[i].icon is None
                    && r@[i].enabled,
    {
        let mut out: Vec<SidebarItem> = Vec::new();
        let mut i: usize = 0;
        while i < labels.len()
            invariant
                i <= labels@.len(),
                out@.len() == i,
                forall|j: int|
                    0 <= j < i ==> (#[trigger] out@[j]).label@ == labels@[j]@ && out@[j].icon is None
                        && out@[j].enabled,
            decreases labels@.len() - i,
        {
            out.push(SidebarItem::new(labels[i]));
            i += 1;
        }
        out
    }
}

impl From<String> for SidebarItem {
    /// An item showing `label`.
    fn from(label: String) -> (r: Self) {
        SidebarItem { label, icon: None, enabled: true }
    }
}

impl vstd::std_specs::convert::FromSpecImpl<String> for SidebarItem {
    open spec fn obeys_from_spec() -> bool {
        true
    }

    open spec fn from_spec(label: String) -> Self {
        SidebarItem { label, icon: None, enabled: true }
    }
}

impl From<&str> for SidebarItem {
    /// An item showing `label`, the same as [`SidebarItem::new`].
    fn from(label: &str) -> (r: Self)
        ensures
            r.label@ == label@,
            r.icon is None,
            r.enabled,
    {
        SidebarItem::new(label)
    }
}

impl vstd::std_specs::convert::FromSpecImpl<&str> for SidebarItem {
    /// The text of a `&str` cannot be written as a `String` value in a
    /// specification; what `from` returns is stated on the impl above.
    open spec fn obeys_from_spec() -> bool {
        false
    }

    open spec fn from_spec(label: &str) -> Self {
        arbitrary()
    }
}

/// A group of sidebar items. Groups are set apart by a gap, with the title
/// (if any) above them in small type; a title cannot be chosen.
#[derive(Debug, Clone, PartialEq, Eq, Default)]
pub struct SidebarSection {
    /// The title of the group; `None` shows no title.
    pub title: Option<String>,
    /// The items of the group.
    pub items: Vec<SidebarItem>,
}

impl SidebarSection {
    /// A titled group.
    pub fn new(title: &str, items: Vec<SidebarItem>) -> (r: Self)
        ensures
            r.title is Some && r.title->0@ == title@,
            r.items == items,
    {
        SidebarSection { title: Some(String::from_str(title)), items }
    }

    /// A group without a title.
    pub fn untitled(items: Vec<SidebarItem>) -> (r: Self)
        ensures
            r.title is None,
            r.items == items,
    {
        SidebarSection { title: None, items }
    }

    /// The number of items.
    pub fn len(&self) -> (r: usize)
        ensures
            r == self.items@.len(),
    {
        self.items.len()
    }

    pub fn is_empty(&self) -> (r: bool)
        ensures
            r == (self.items@.len() == 0),
    {
        self.items.len() == 0
    }
}

/// One line of the sidebar, in screen order; the backends build their lists
/// from these. Items carry their number counted across the groups, the number
/// used in notifications and selections.
#[derive(Debug, Clone, Copy, PartialEq, Eq)]
pub enum SidebarRow<'a> {
    /// The gap before every group but the first.
    Gap,
    /// The title of a group.
    Header(&'a str),
    /// An item and its number.
    Item(usize, &'a SidebarItem),
}

/// A sidebar line as a value.
pub enum RowShape {
    Gap,
    Header(Seq<char>),
    Item(usize, SidebarItem),
}

pub open spec fn shape(row: SidebarRow) -> RowShape {
    match row {
        SidebarRow::Gap => RowShape::Gap,
        SidebarRow::Header(t) => RowShape::Header(t@),
        SidebarRow::Item(n, item) => RowShape::Item(n, *item),
    }
}

/// The number of items of all groups.
pub open spec fn total_items(sections: Seq<SidebarSection>) -> nat
    decreases sections.len(),
{
    if sections.len() == 0 {
        0
    } else {
        total_items(sections.drop_last()) + sections.last().items@.len()
    }
}

/// The items of all groups, one after the other.
pub open spec fn flat_items(sections: Seq<SidebarSection>) -> Seq<SidebarItem>
    decreases sections.len(),
{
    if sections.len() == 0 {
        Seq::empty()
    } else {
        flat_items(sections.drop_last()) + sections.last().items@
    }
}

/// The lines of one group: a gap unless it is the first group, its title if
/// it has one (also for a group without items), then its items numbered
/// from `base`.
pub open spec fn section_rows(s: SidebarSection, first: bool, base: nat) -> Seq<RowShape> {
    (if first {
        Seq::empty()
    } else {
        seq![RowShape::Gap]
    }) + (match s.title {
        Some(t) => seq![RowShape::Header(t@)],
        None => Seq::empty(),
    }) + Seq::new(s.items@.len(), |k: int| RowShape::Item((base + k) as usize, s.items@[k]))
}

/// All the lines of the sidebar, in screen order.
pub open spec fn sidebar_shapes(sections: Seq<SidebarSection>) -> Seq<RowShape>
    decreases sections.len(),
{
    if sections.len() == 0 {
        Seq::empty()
    } else {
        sidebar_shapes(sections.drop_last()) + section_rows(
            sections.last(),
            sections.len() == 1,
            total_items(sections.drop_last()),
        )
    }
}

impl<'a> SidebarRow<'a> {
    /// The item number, for an item line.
    pub fn item_index(&self) -> (r: Option<usize>)
        ensures
            r == match *self {
                SidebarRow::Item(n, _) => Some(n),
                _ => None,
            },
    {
        match self {
            SidebarRow::Item(index, _) => Some(*index),
            _ => None,
        }
    }
}

/// The first `k` groups hold no more items than all of them, and the items
/// of all the groups, one after another, are as many as their count.
pub proof fn lemma_total_items_prefix(sections: Seq<SidebarSection>, k: int)
    requires
        0 <= k <= sections.len(),
    ensures
        total_items(sections.take(k)) <= total_items(sections),
        flat_items(sections).len() == total_items(sections),
    decreases sections.len(),
{
    if sections.len() > 0 {
        if k < sections.len() {
            assert(sections.drop_last().take(k) =~= sections.take(k));
            lemma_total_items_prefix(sections.drop_last(), k);
        } else {
            assert(sections.take(k) =~= sections);
            lemma_total_items_prefix(sections.drop_last(), 0);
        }
    }
}

/// The sidebar's groups laid flat in screen order: a [`SidebarRow::Gap`]
/// before every group but the first, a [`SidebarRow::Header`] after it when
/// the group has a title (even without items, for screens that fill groups
/// later), then the items numbered across groups.
pub fn sidebar_rows<'a>(sections: &'a [SidebarSection]) -> (r: Vec<SidebarRow<'a>>)
    requires
        total_items(sections@) <= usize::MAX,
    ensures
        r@.map_values(|row: SidebarRow<'a>| shape(row)) == sidebar_shapes(sections@),
{
    let mut rows: Vec<SidebarRow<'a>> = Vec::new();
    let mut next: usize = 0;
    let mut i: usize = 0;
    assert(sections@.take(0) =~= Seq::<SidebarSection>::empty());
    while i < sections.len()
        invariant
            i <= sections@.len(),
            total_items(sections@) <= usize::MAX,
            rows@.map_values(|row: SidebarRow<'a>| shape(row)) == sidebar_shapes(
                sections@.take(i as int),
            ),
            next == total_items(sections@.take(i as int)),
        decreases sections@.len() - i,
    {
        let section = &sections[i];
        let ghost base = next as nat;
        let ghost before = rows@.map_values(|row: SidebarRow<'a>| shape(row));
        if i > 0 {
            rows.push(SidebarRow::Gap);
        }
        match &section.title {
            Some(title) => {
                rows.push(SidebarRow::Header(title.as_str()));
            },
            None => {},
        }
        let ghost head = rows@.map_values(|row: SidebarRow<'a>| shape(row));
        assert(head =~= before + (if i == 0 {
            Seq::empty()
        } else {
            seq![RowShape::Gap]
        }) + (match section.title {
            Some(t) => seq![RowShape::Header(t@)],
            None => Seq::empty(),
        }));
        proof {
            lemma_total_items_prefix(sections@, i + 1);
            assert(sections@.take(i + 1).drop_last() =~= sections@.take(i as int));
        }
        let mut j: usize = 0;
        while j < section.items.len()
            invariant
                j <= section.items@.len(),
                next == base + j,
                base + section.items@.len() <= usize::MAX,
                rows@.map_values(|row: SidebarRow<'a>| shape(row)) == head + Seq::new(
                    j as nat,
                    |k: int| RowShape::Item((base + k) as usize, section.items@[k]),
                ),
            decreases section.items@.len() - j,
        {
            let ghost prev = rows@;
            let row = SidebarRow::Item(next, &section.items[j]);
            rows.push(row);
            assert(shape(row) == RowShape::Item((base + j) as usize, section.items@[j as int]));
            assert(rows@.map_values(|row: SidebarRow<'a>| shape(row)) =~= prev.map_values(
                |row: SidebarRow<'a>| shape(row),
            ).push(shape(row)));
            next += 1;
            j += 1;
            assert(rows@.map_values(|row: SidebarRow<'a>| shape(row)) =~= head + Seq::new(
                j as nat,
                |k: int| RowShape::Item((base + k) as usize, section.items@[k]),
            ));
        }
        assert(rows@.map_values(|row: SidebarRow<'a>| shape(row)) =~= before + section_rows(
            sections@[i as int],
            i == 0,
            base,
        ));
        i += 1;
    }
    assert(sections@.take(sections@.len() as int) =~= sections@);
    rows
}

/// The number of items of all groups.
pub fn sidebar_len(sections: &[SidebarSection]) -> (r: usize)
    requires
        total_items(sections@) <= usize::MAX,
    ensures
        r == total_items(sections@),
{
    let mut total: usize = 0;
    let mut i: usize = 0;
    assert(sections@.take(0) =~= Seq::<SidebarSection>::empty());
    while i < sections.len()
        invariant
            i <= sections@.len(),
            total_items(sections@) <= usize::MAX,
            total == total_items(sections@.take(i as int)),
        decreases sections@.len() - i,
    {
        proof {
            lemma_total_items_prefix(sections@, i + 1);
            assert(sections@.take(i + 1).drop_last() =~= sections@.take(i as int));
        }
        total = total + sections[i].len();
        i += 1;
    }
    assert(sections@.take(sections@.len() as int) =~= sections@);
    total
}

/// The item with number `index` counted across groups, or `None` past the
/// last item.
pub fn sidebar_item(sections: &[SidebarSection], index: usize) -> (r: Option<&SidebarItem>)
    ensures
        match r {
            Some(item) => index < flat_items(sections@).len() && *item == flat_items(
                sections@,
            )[index as int],
            None => index >= flat_items(sections@).len(),
        },
{
    let mut rest = index;
    let mut i: usize = 0;
    assert(sections@.take(0) =~= Seq::<SidebarSection>::empty());
    while i < sections.len()
        invariant
            i <= sections@.len(),
            index == flat_items(sections@.take(i as int)).len() + rest,
        decreases sections@.len() - i,
    {
        assert(sections@.take(i + 1).drop_last() =~= sections@.take(i as int));
        let items = &sections[i].items;
        if rest < items.len() {
            proof {
                lemma_flat_items_prefix(sections@, i + 1);
            }
            return Some(&items[rest]);
        }
        rest = rest - items.len();
        i += 1;
    }
    assert(sections@.take(sections@.len() as int) =~= sections@);
    None
}

/// The items of a prefix of the groups come first among all the items.
pub proof fn lemma_flat_items_prefix(sections: Seq<SidebarSection>, k: int)
    requires
        0 <= k <= sections.len(),
    ensures
        flat_items(sections.take(k)).len() <= flat_items(sections).len(),
        forall|n: int|
            0 <= n < flat_items(sections.take(k)).len() ==> #[trigger] flat_items(sections)[n]
                == flat_items(sections.take(k))[n],
    decreases sections.len(),
{
    if sections.len() > 0 {
        if k < sections.len() {
            assert(sections.drop_last().take(k) =~= sections.take(k));
            lemma_flat_items_prefix(sections.drop_last(), k);
        } else {
            assert(sections.take(k) =~= sections);
        }
    }
}

/// The item lines of a sequence of lines, with their numbers.
pub open spec fn numbered_items(rows: Seq<RowShape>) -> Seq<(usize, SidebarItem)>
    decreases rows.len(),
{
    if rows.len() == 0 {
        Seq::empty()
    } else {
        let rest = numbered_items(rows.drop_last());
        match rows.last() {
            RowShape::Item(n, item) => rest.push((n, item)),
            _ => rest,
        }
    }
}

proof fn lemma_numbered_items_concat(a: Seq<RowShape>, b: Seq<RowShape>)
    ensures
        numbered_items(a + b) == numbered_items(a) + numbered_items(b),
    decreases b.len(),
{
    if b.len() == 0 {
        assert(a + b =~= a);
        assert(numbered_items(a) + numbered_items(b) =~= numbered_items(a));
    } else {
        lemma_numbered_items_concat(a, b.drop_last());
        assert((a + b).drop_last() =~= a + b.drop_last());
        match b.last() {
            RowShape::Item(n, item) => {
                assert(numbered_items(a) + numbered_items(b) =~= (numbered_items(a)
                    + numbered_items(b.drop_last())).push((n, item)));
            },
            _ => {},
        }
    }
}

proof fn lemma_numbered_items_of_section(s: SidebarSection, first: bool, base: nat)
    ensures
        numbered_items(section_rows(s, first, base)) == Seq::new(
            s.items@.len(),
            |k: int| ((base + k) as usize, s.items@[k]),
        ),
{
    let g: Seq<RowShape> = if first {
        Seq::empty()
    } else {
        seq![RowShape::Gap]
    };
    let h: Seq<RowShape> = match s.title {
        Some(t) => seq![RowShape::Header(t@)],
        None => Seq::empty(),
    };
    lemma_numbered_items_concat(g + h, Seq::new(s.items@.len(), |k: int| RowShape::Item((base + k) as usize, s.items@[k])));
    lemma_numbered_items_concat(g, h);
    assert(numbered_items(Seq::<RowShape>::empty()) =~= Seq::empty());
    assert(numbered_items(g) =~= Seq::empty()) by {
        if !first {
            assert(g.drop_last() =~= Seq::<RowShape>::empty());
        } else {
            assert(g =~= Seq::<RowShape>::empty());
        }
    }
    assert(numbered_items(h) =~= Seq::empty()) by {
        if h.len() > 0 {
            assert(h.drop_last() =~= Seq::<RowShape>::empty());
        } else {
            assert(h =~= Seq::<RowShape>::empty());
        }
    }
    lemma_numbered_items_run(s, base, s.items@.len() as int);
    assert(Seq::<(usize, SidebarItem)>::empty() + Seq::<(usize, SidebarItem)>::empty() + Seq::new(
        s.items@.len(),
        |k: int| ((base + k) as usize, s.items@[k]),
    ) =~= Seq::new(s.items@.len(), |k: int| ((base + k) as usize, s.items@[k])));
}

proof fn lemma_numbered_items_run(s: SidebarSection, base: nat, j: int)
    requires
        0 <= j <= s.items@.len(),
    ensures
        numbered_items(Seq::new(j as nat, |k: int| RowShape::Item((base + k) as usize, s.items@[k])))
            == Seq::new(j as nat, |k: int| ((base + k) as usize, s.items@[k])),
    decreases j,
{
    if j > 0 {
        lemma_numbered_items_run(s, base, j - 1);
        assert(Seq::new(j as nat, |k: int| RowShape::Item((base + k) as usize, s.items@[k])).drop_last()
            =~= Seq::new((j - 1) as nat, |k: int| RowShape::Item((base + k) as usize, s.items@[k])));
        assert(Seq::new(j as nat, |k: int| ((base + k) as usize, s.items@[k])) =~= Seq::new(
            (j - 1) as nat,
            |k: int| ((base + k) as usize, s.items@[k]),
        ).push(((base + j - 1) as usize, s.items@[j - 1])));
    } else {
        assert(Seq::new(0, |k: int| RowShape::Item((base + k) as usize, s.items@[k])) =~= Seq::<
            RowShape,
        >::empty());
        assert(Seq::new(0, |k: int| ((base + k) as usize, s.items@[k])) =~= Seq::<
            (usize, SidebarItem),
        >::empty());
    }
}

/// The item lines of [`sidebar_rows`] carry the numbers 0, 1, 2, … in screen
/// order, and the line numbered `n` holds the item that [`sidebar_item`]
/// returns for `n`: notifications by number and the lines agree.
pub proof fn lemma_rows_number_items(sections: Seq<SidebarSection>)
    requires
        total_items(sections) <= usize::MAX,
    ensures
        numbered_items(sidebar_shapes(sections)) == Seq::new(
            flat_items(sections).len(),
            |n: int| (n as usize, flat_items(sections)[n]),
        ),
    decreases sections.len(),
{
    lemma_total_items_prefix(sections, 0);
    if sections.len() > 0 {
        let init = sections.drop_last();
        lemma_total_items_prefix(init, 0);
        lemma_rows_number_items(init);
        let base = total_items(init);
        lemma_numbered_items_concat(sidebar_shapes(init), section_rows(sections.last(), sections.len() == 1, base));
        lemma_numbered_items_of_section(sections.last(), sections.len() == 1, base);
        assert(numbered_items(sidebar_shapes(sections)) =~= Seq::new(
            flat_items(sections).len(),
            |n: int| (n as usize, flat_items(sections)[n]),
        ));
    } else {
        assert(numbered_items(sidebar_shapes(sections)) =~= Seq::new(
            flat_items(sections).len(),
            |n: int| (n as usize, flat_items(sections)[n]),
        ));
    }
}

} // verus!
