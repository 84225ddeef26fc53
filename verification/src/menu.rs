//! Menu bar items and keyboard shortcuts.
//!
//! A menu bar is two levels deep: a row of titles, each with the items under
//! it. One title is a [`MenuSpec`], one line a [`MenuItem`], and the key
//! combination bound to a line a [`MenuShortcut`]. Notifications name an item
//! by (title index, item index counting separators).
use vstd::prelude::*;

use crate::ascii::{ascii_is_alnum, ascii_lower, ascii_upper, eq_ignore_case, is_alnum, to_lower, to_upper};
use crate::lexical::{push_char, push_str};

verus! {

/// A keyboard shortcut: the primary modifier (⌘ on macOS, Ctrl elsewhere)
/// with one ASCII letter or digit, optionally with Shift and Alt.
#[derive(Debug, Clone, Copy, PartialEq, Eq, Structural, Hash)]
pub struct MenuShortcut {
    /// The key, kept in lower case.
    pub key: char,
    /// Whether Shift is part of the combination.
    pub shift: bool,
    /// Whether ⌥ / Alt is part of the combination.
    pub alt: bool,
}

/// `<Control>`, then `<Shift>` and `<Alt>` when set, then the key in lower
/// case (what `gtk_accelerator_parse` reads).
pub open spec fn accelerator_text(s: MenuShortcut) -> Seq<char> {
    "<Control>"@ + (if s.shift {
        "<Shift>"@
    } else {
        Seq::empty()
    }) + (if s.alt {
        "<Alt>"@
    } else {
        Seq::empty()
    }) + seq![to_lower(s.key)]
}

/// `Ctrl+`, then `Shift+` and `Alt+` when set, then the key in upper case.
pub open spec fn label_text(s: MenuShortcut) -> Seq<char> {
    "Ctrl+"@ + (if s.shift {
        "Shift+"@
    } else {
        Seq::empty()
    }) + (if s.alt {
        "Alt+"@
    } else {
        Seq::empty()
    }) + seq![to_upper(s.key)]
}

impl MenuShortcut {
    /// The primary modifier with `key`, folded to lower case (Shift is set
    /// with [`shift`](Self::shift)).
    pub fn new(key: char) -> (r: Self)
        ensures
            r == (MenuShortcut { key: to_lower(key), shift: false, alt: false }),
    {
        MenuShortcut { key: ascii_lower(key), shift: false, alt: false }
    }

    /// Sets whether Shift is part of the combination.
    pub fn shift(self, shift: bool) -> (r: Self)
        ensures
            r == (MenuShortcut { shift, ..self }),
    {
        MenuShortcut { shift, ..self }
    }

    /// Sets whether ⌥ / Alt is part of the combination.
    pub fn alt(self, alt: bool) -> (r: Self)
        ensures
            r == (MenuShortcut { alt, ..self }),
    {
        MenuShortcut { alt, ..self }
    }

    /// Whether the key is one ASCII letter or digit.
    pub fn is_valid(self) -> (r: bool)
        ensures
            r == is_alnum(self.key),
    {
        ascii_is_alnum(self.key)
    }

    /// The `keyEquivalent` of AppKit: the key alone, in lower case.
    pub fn key_equivalent(self) -> (r: String)
        ensures
            r@ == seq![to_lower(self.key)],
    {
        let mut out = String::new();
        push_char(&mut out, ascii_lower(self.key));
        assert(out@ =~= seq![to_lower(self.key)]);
        out
    }

    /// The notation that GTK's `gtk_accelerator_parse` reads, such as
    /// `<Control><Shift>s`.
    pub fn accelerator(self) -> (r: String)
        ensures
            r@ == accelerator_text(self),
    {
        let mut out = String::new();
        push_str(&mut out, "<Control>");
        if self.shift {
            push_str(&mut out, "<Shift>");
        }
        if self.alt {
            push_str(&mut out, "<Alt>");
        }
        push_char(&mut out, ascii_lower(self.key));
        assert(out@ =~= accelerator_text(self));
        out
    }

    /// The Windows virtual-key code: for a letter or digit, its upper-case
    /// ASCII code (`VK_A`..`VK_Z`, `VK_0`..`VK_9`); otherwise 0.
    pub fn virtual_key(self) -> (r: i32)
        ensures
            r == (if is_alnum(self.key) {
                to_upper(self.key) as i32
            } else {
                0
            }),
    {
        if self.is_valid() {
            let c = ascii_upper(self.key);
            c as u32 as i32
        } else {
            0
        }
    }

    /// The text shown beside the item, such as `Ctrl+Shift+S`.
    pub fn label(self) -> (r: String)
        ensures
            r@ == label_text(self),
    {
        let mut out = String::new();
        push_str(&mut out, "Ctrl+");
        if self.shift {
            push_str(&mut out, "Shift+");
        }
        if self.alt {
            push_str(&mut out, "Alt+");
        }
        push_char(&mut out, ascii_upper(self.key));
        assert(out@ =~= label_text(self));
        out
    }

    /// Whether a key press is this shortcut: the primary modifier held,
    /// Shift and Alt exactly as in the shortcut, and `key` one character
    /// equal to the key up to ASCII case.
    pub fn matches(self, key: &str, primary: bool, shift: bool, alt: bool) -> (r: bool)
        ensures
            r == (primary && shift == self.shift && alt == self.alt && key@.len() == 1
                && eq_ignore_case(key@[0], self.key)),
    {
        if !primary || shift != self.shift || alt != self.alt {
            return false;
        }
        if key.unicode_len() != 1 {
            return false;
        }
        let c = key.get_char(0);
        ascii_lower(c) == ascii_lower(self.key)
    }
}

/// One line of a menu. A separator cannot be chosen, so its index is never
/// notified.
#[derive(Debug, Clone, PartialEq, Eq, Default)]
pub struct MenuItem {
    /// The text shown (unused by separators).
    pub label: String,
    /// Whether the item can be chosen.
    pub enabled: bool,
    /// Whether the item is a separator.
    pub separator: bool,
    /// The bound keyboard shortcut (unused by separators).
    pub shortcut: Option<MenuShortcut>,
}

impl MenuItem {
    /// An item that can be chosen.
    pub fn new(label: &str) -> (r: Self)
        ensures
            r.label@ == label@,
            r.enabled,
            !r.separator,
            r.shortcut is None,
    {
        MenuItem { label: String::from_str(label), enabled: true, separator: false, shortcut: None }
    }

    /// A separator between groups of items; it cannot be chosen.
    pub fn separator() -> (r: Self)
        ensures
            r.label@ == Seq::<char>::empty(),
            !r.enabled,
            r.separator,
            r.shortcut is None,
    {
        MenuItem { label: String::new(), enabled: false, separator: true, shortcut: None }
    }

    /// Sets whether the item can be chosen (it can by default).
    pub fn enabled(self, enabled: bool) -> (r: Self)
        ensures
            r.label == self.label,
            r.enabled == enabled,
            r.separator == self.separator,
            r.shortcut == self.shortcut,
    {
        MenuItem { enabled, ..self }
    }

    /// Binds a keyboard shortcut (none by default).
    pub fn shortcut(self, shortcut: MenuShortcut) -> (r: Self)
        ensures
            r.label == self.label,
            r.enabled == self.enabled,
            r.separator == self.separator,
            r.shortcut == Some(shortcut),
    {
        MenuItem { shortcut: Some(shortcut), ..self }
    }

    /// Whether the item is a separator.
    pub fn is_separator(&self) -> (r: bool)
        ensures
            r == self.separator,
    {
        self.separator
    }

    /// Items made from labels, in order.
    pub fn list(labels: &[&str]) -> (r: Vec<MenuItem>)
        ensures
            r@.len() == labels@.len(),
            forall|i: int|
                0 <= i < r@.len() ==> (#[trigger] r@[i]).label@ == labels@[i]@ && r@[i].enabled
                    && !r@[i].separator && r@[i].shortcut is None,
    {
        let mut out: Vec<MenuItem> = Vec::new();
        let mut i: usize = 0;
        while i < labels.len()
            invariant
                i <= labels@.len(),
                out@.len() == i,
                forall|j: int|
                    0 <= j < i ==> (#[trigger] out@[j]).label@ == labels@[j]@ && out@[j].enabled
                        && !out@[j].separator && out@[j].shortcut is None,
            decreases labels@.len() - i,
        {
            out.push(MenuItem::new(labels[i]));
            i += 1;
        }
        out
    }
}

impl From<String> for MenuItem {
    /// An item showing `label`.
    fn from(label: String) -> (r: Self) {
        MenuItem { label, enabled: true, separator: false, shortcut: None }
    }
}

impl vstd::std_specs::convert::FromSpecImpl<String> for MenuItem {
    open spec fn obeys_from_spec() -> bool {
        true
    }

    open spec fn from_spec(label: String) -> Self {
        MenuItem { label, enabled: true, separator: false, shortcut: None }
    }
}

impl From<&str> for MenuItem {
    /// An item showing `label`, the same as [`MenuItem::new`].
    fn from(label: &str) -> (r: Self)
        ensures
            r.label@ == label@,
            r.enabled,
            !r.separator,
            r.shortcut is None,
    {
        MenuItem::new(label)
    }
}

impl vstd::std_specs::convert::FromSpecImpl<&str> for MenuItem {
    /// The text of a `&str` cannot be written as a `String` value in a
    /// specification; what `from` returns is stated on the impl above.
    open spec fn obeys_from_spec() -> bool {
        false
    }

    open spec fn from_spec(label: &str) -> Self {
        arbitrary()
    }
}

/// One menu of the menu bar: its title and the items under it.
#[derive(Debug, Clone, PartialEq, Eq, Default)]
pub struct MenuSpec {
    /// The title shown in the menu bar.
    pub title: String,
    /// The items under the title; their order, separators included, gives
    /// their indices.
    pub items: Vec<MenuItem>,
}

impl MenuSpec {
    /// A menu from its title and items.
    pub fn new(title: &str, items: Vec<MenuItem>) -> (r: Self)
        ensures
            r.title@ == title@,
            r.items == items,
    {
        MenuSpec { title: String::from_str(title), items }
    }

    /// The number of items, separators included.
    pub fn len(&self) -> (r: usize)
        ensures
            r == self.items@.len(),
    {
        self.items.len()
    }

    pub fn is_empty(&self) -> (r: bool)
        ensures
            r == (self.items@.len() == 0),
    {
        self.items.len() == 0
    }
}

// ---------------------------------------------------------------------------
// Sections
// ---------------------------------------------------------------------------

/// Going through the first `k` items: the sections closed so far and the
/// indices of the section still open. A separator closes the open section,
/// unless it is empty; any other item joins it.
pub open spec fn sections_after(items: Seq<MenuItem>, k: int) -> (Seq<Seq<usize>>, Seq<usize>)
    decreases k,
{
    if k <= 0 {
        (Seq::empty(), Seq::empty())
    } else {
        let (done, open) = sections_after(items, k - 1);
        if items[k - 1].separator {
            if open.len() > 0 {
                (done.push(open), Seq::empty())
            } else {
                (done, Seq::empty())
            }
        } else {
            (done, open.push((k - 1) as usize))
        }
    }
}

/// The sections of a menu: the indices of its items between separators,
/// in order, leaving out empty sections (a separator at either end, or two in
/// a row, makes none).
pub open spec fn sections(items: Seq<MenuItem>) -> Seq<Seq<usize>> {
    let (done, open) = sections_after(items, items.len() as int);
    if open.len() > 0 {
        done.push(open)
    } else {
        done
    }
}

/// The sections one after another.
pub open spec fn joined(s: Seq<Seq<usize>>) -> Seq<usize>
    decreases s.len(),
{
    if s.len() == 0 {
        Seq::empty()
    } else {
        joined(s.drop_last()) + s.last()
    }
}

/// The indices of the first `k` items that are not separators, in order.
pub open spec fn item_indices(items: Seq<MenuItem>, k: int) -> Seq<usize>
    decreases k,
{
    if k <= 0 {
        Seq::empty()
    } else if items[k - 1].separator {
        item_indices(items, k - 1)
    } else {
        item_indices(items, k - 1).push((k - 1) as usize)
    }
}

/// The sections a menu is shown in (the GTK backend makes each one a
/// section of the menu): the indices of the items between separators, in
/// order, without empty sections.
pub fn menu_sections(items: &[MenuItem]) -> (r: Vec<Vec<usize>>)
    ensures
        r@.map_values(|v: Vec<usize>| v@) == sections(items@),
{
    let mut done: Vec<Vec<usize>> = Vec::new();
    let mut open: Vec<usize> = Vec::new();
    let mut k: usize = 0;
    while k < items.len()
        invariant
            k <= items@.len(),
            (done@.map_values(|v: Vec<usize>| v@), open@) == sections_after(items@, k as int),
        decreases items@.len() - k,
    {
        let ghost before = done@.map_values(|v: Vec<usize>| v@);
        if items[k].separator {
            if open.len() > 0 {
                let closed = open;
                let ghost c = closed@;
                done.push(closed);
                open = Vec::new();
                assert(done@.map_values(|v: Vec<usize>| v@) =~= before.push(c));
            }
        } else {
            open.push(k);
        }
        k += 1;
    }
    if open.len() > 0 {
        let ghost before = done@.map_values(|v: Vec<usize>| v@);
        let ghost c = open@;
        done.push(open);
        assert(done@.map_values(|v: Vec<usize>| v@) =~= before.push(c));
    }
    done
}

proof fn lemma_sections_after(items: Seq<MenuItem>, k: int)
    requires
        0 <= k <= items.len(),
    ensures
        joined(sections_after(items, k).0) + sections_after(items, k).1 == item_indices(items, k),
        forall|i: int|
            0 <= i < sections_after(items, k).0.len() ==> (#[trigger] sections_after(items, k).0[i]).len()
                > 0,
    decreases k,
{
    if k > 0 {
        lemma_sections_after(items, k - 1);
        let (done, open) = sections_after(items, k - 1);
        if items[k - 1].separator {
            if open.len() > 0 {
                assert(done.push(open).drop_last() =~= done);
                assert(joined(done.push(open)) + Seq::<usize>::empty() =~= joined(done) + open);
            } else {
                assert(joined(done) + Seq::<usize>::empty() =~= joined(done) + open);
            }
        } else {
            assert(joined(done) + open.push((k - 1) as usize) =~= (joined(done) + open).push(
                (k - 1) as usize,
            ));
        }
    } else {
        assert(joined(Seq::<Seq<usize>>::empty()) + Seq::<usize>::empty() =~= Seq::<usize>::empty());
    }
}

/// Every item but the separators is in exactly one section, in menu order:
/// the sections, one after another, are the indices of the items that are
/// not separators; and no section is empty.
pub proof fn lemma_sections_cover_the_items(items: Seq<MenuItem>)
    ensures
        joined(sections(items)) == item_indices(items, items.len() as int),
        forall|i: int| 0 <= i < sections(items).len() ==> (#[trigger] sections(items)[i]).len() > 0,
{
    let n = items.len() as int;
    lemma_sections_after(items, n);
    let (done, open) = sections_after(items, n);
    if open.len() > 0 {
        assert(done.push(open).drop_last() =~= done);
    } else {
        assert(joined(done) + open =~= joined(done));
    }
}

/// `s` is a run of consecutive indices of items that are not separators,
/// all below `k`.
pub open spec fn is_run(items: Seq<MenuItem>, s: Seq<usize>, k: int) -> bool {
    forall|a: int|
        0 <= a < s.len() ==> #[trigger] s[a] == s[0] + a && !items[s[a] as int].separator && s[a] < k
}

/// Some separator stands strictly between the indices `lo` and `hi`.
pub open spec fn separator_between(items: Seq<MenuItem>, lo: int, hi: int) -> bool {
    exists|j: int| lo < j < hi && #[trigger] items[j].separator
}

/// What holds of the sections after `k` items: each closed section is a
/// non-empty run, a separator parts each from the next and the last from
/// what follows, and the open section is a run ending at the last item.
pub open spec fn runs_after(items: Seq<MenuItem>, k: int) -> bool {
    let (done, open) = sections_after(items, k);
    &&& forall|i: int| 0 <= i < done.len() ==> (#[trigger] done[i]).len() > 0 && is_run(items, done[i], k)
    &&& forall|i: int|
        0 <= i < done.len() - 1 ==> separator_between(items, (#[trigger] done[i]).last() as int, done[i + 1][0] as int)
    &&& is_run(items, open, k)
    &&& open.len() > 0 ==> open[0] + open.len() == k
    &&& done.len() > 0 ==> exists|j: int|
        #![trigger items[j]]
        done.last().last() < j < k && items[j].separator && (open.len() > 0 ==> j < open[0])
}

proof fn lemma_runs_after(items: Seq<MenuItem>, k: int)
    requires
        0 <= k <= items.len(),
        items.len() <= usize::MAX,
    ensures
        runs_after(items, k),
    decreases k,
{
    if k > 0 {
        lemma_runs_after(items, k - 1);
        let (done, open) = sections_after(items, k - 1);
        let (done2, open2) = sections_after(items, k);
        if items[k - 1].separator {
            if open.len() > 0 {
                assert(done2 == done.push(open));
                assert(open2.len() == 0);
                assert forall|i: int| 0 <= i < done2.len() implies (#[trigger] done2[i]).len() > 0
                    && is_run(items, done2[i], k) by {
                    if i < done.len() {
                        assert(done2[i] == done[i]);
                        assert forall|a: int| 0 <= a < done2[i].len() implies #[trigger] done2[i][a]
                            == done2[i][0] + a && !items[done2[i][a] as int].separator && done2[i][a] < k by {
                            assert(done[i][a] == done[i][0] + a);
                        }
                    } else {
                        assert(done2[i] == open);
                        assert forall|a: int| 0 <= a < open.len() implies #[trigger] open[a] == open[0] + a
                            && !items[open[a] as int].separator && open[a] < k by {
                            assert(open[a] == open[0] + a);
                        }
                    }
                }
                assert forall|i: int| 0 <= i < done2.len() - 1 implies separator_between(
                    items,
                    (#[trigger] done2[i]).last() as int,
                    done2[i + 1][0] as int,
                ) by {
                    if i < done.len() - 1 {
                        assert(done2[i] == done[i] && done2[i + 1] == done[i + 1]);
                    } else {
                        assert(done2[i] == done.last() && done2[i + 1] == open);
                        let j = choose|j: int|
                            #![trigger items[j]]
                            done.last().last() < j < k - 1 && items[j].separator && (open.len() > 0
                                ==> j < open[0]);
                        assert(items[j].separator);
                    }
                }
                assert(open.last() == open[open.len() - 1]);
                assert(open[open.len() - 1] == open[0] + (open.len() - 1));
                assert(done2.last() == open);
                assert(items[k - 1].separator);
            } else {
                assert(done2 == done);
                assert(open2.len() == 0);
                assert forall|i: int| 0 <= i < done2.len() implies (#[trigger] done2[i]).len() > 0
                    && is_run(items, done2[i], k) by {
                    assert forall|a: int| 0 <= a < done2[i].len() implies #[trigger] done2[i][a]
                        == done2[i][0] + a && !items[done2[i][a] as int].separator && done2[i][a] < k by {
                        assert(done[i][a] == done[i][0] + a);
                    }
                }
                if done.len() > 0 {
                    assert(done.last() == done[done.len() - 1]);
                    let l = done.last();
                    assert(l[l.len() - 1] == l[0] + (l.len() - 1));
                    assert(l.last() < k - 1);
                    assert(items[k - 1].separator);
                }
            }
        } else {
            assert(done2 == done);
            assert(open2 == open.push((k - 1) as usize));
            assert forall|i: int| 0 <= i < done2.len() implies (#[trigger] done2[i]).len() > 0
                && is_run(items, done2[i], k) by {
                assert forall|a: int| 0 <= a < done2[i].len() implies #[trigger] done2[i][a]
                    == done2[i][0] + a && !items[done2[i][a] as int].separator && done2[i][a] < k by {
                    assert(done[i][a] == done[i][0] + a);
                }
            }
            assert forall|a: int| 0 <= a < open2.len() implies #[trigger] open2[a] == open2[0] + a
                && !items[open2[a] as int].separator && open2[a] < k by {
                if a < open.len() {
                    assert(open[a] == open[0] + a);
                    assert(open2[a] == open[a]);
                    assert(open2[0] == open[0]);
                } else {
                    assert(a == open.len());
                    assert(open2[a] == (k - 1) as usize);
                    if open.len() > 0 {
                        assert(open2[0] == open[0]);
                        assert(open[0] + open.len() == k - 1);
                    } else {
                        assert(open2[0] == (k - 1) as usize);
                    }
                }
            }
            if done.len() > 0 {
                let j = choose|j: int|
                    #![trigger items[j]]
                    done.last().last() < j < k - 1 && items[j].separator && (open.len() > 0 ==> j
                        < open[0]);
                assert(j != k - 1);
                assert(done2.last() == done.last());
                if open.len() > 0 {
                    assert(open2[0] == open[0]);
                } else {
                    assert(open2[0] == (k - 1) as usize);
                }
                assert(done2.last().last() < j < k && items[j].separator && (open2.len() > 0 ==> j
                    < open2[0]));
            }
        }
    }
}

/// Each section of a menu is a run of consecutive items with no separator
/// among them, and a separator parts each section from the next: two items
/// with a separator between them never share a section, and items of one
/// section are never split apart. (The items are those of a slice, so
/// their indices fit in `usize`.)
pub proof fn lemma_sections_are_runs(items: Seq<MenuItem>)
    requires
        items.len() <= usize::MAX,
    ensures
        forall|i: int, a: int|
            0 <= i < sections(items).len() && 0 <= a < sections(items)[i].len() ==> #[trigger] sections(
                items,
            )[i][a] == sections(items)[i][0] + a && !items[sections(items)[i][a] as int].separator,
        forall|i: int, a: int, b: int, j: int|
            #![trigger items[j], sections(items)[i][a], sections(items)[i][b]]
            0 <= i < sections(items).len() && 0 <= a < b < sections(items)[i].len() && sections(items)[i][a]
                < j < sections(items)[i][b] ==> !items[j].separator,
        forall|i: int|
            0 <= i < sections(items).len() - 1 ==> separator_between(
                items,
                (#[trigger] sections(items)[i]).last() as int,
                sections(items)[i + 1][0] as int,
            ),
{
    let n = items.len() as int;
    lemma_runs_after(items, n);
    let (done, open) = sections_after(items, n);
    let sec = sections(items);
    assert forall|i: int| 0 <= i < sec.len() implies is_run(items, #[trigger] sec[i], n) by {
        if i < done.len() {
            assert(sec[i] == done[i]);
        } else {
            assert(sec[i] == open);
        }
    }
    assert forall|i: int, a: int|
        0 <= i < sec.len() && 0 <= a < sec[i].len() implies #[trigger] sec[i][a] == sec[i][0] + a
        && !items[sec[i][a] as int].separator by {
        assert(is_run(items, sec[i], n));
    }
    assert forall|i: int, a: int, b: int, j: int|
        #![trigger items[j], sec[i][a], sec[i][b]]
        0 <= i < sec.len() && 0 <= a < b < sec[i].len() && sec[i][a] < j < sec[i][b] implies !items[j].separator by {
        assert(is_run(items, sec[i], n));
        let c = j - sec[i][0];
        assert(sec[i][a] == sec[i][0] + a);
        assert(sec[i][b] == sec[i][0] + b);
        assert(sec[i][c] == sec[i][0] + c);
    }
    assert forall|i: int| 0 <= i < sec.len() - 1 implies separator_between(
        items,
        (#[trigger] sec[i]).last() as int,
        sec[i + 1][0] as int,
    ) by {
        if i + 1 < done.len() {
            assert(sec[i] == done[i] && sec[i + 1] == done[i + 1]);
        } else {
            assert(open.len() > 0);
            assert(sec[i] == done.last() && sec[i + 1] == open);
            let j = choose|j: int|
                #![trigger items[j]]
                done.last().last() < j < n && items[j].separator && (open.len() > 0 ==> j < open[0]);
            assert(items[j].separator);
        }
    }
}

/// The notations of a letter shortcut agree with each other: GTK's ends
/// with the letter in lower case, the shown label with the same letter in
/// upper case (32 below in ASCII), which is also the Windows virtual-key
/// code; `<Shift>` / `Shift+` and `<Alt>` / `Alt+` appear exactly when set;
/// and a key press of that letter in either case, and of no other letter,
/// matches.
pub proof fn lemma_letter_shortcut_notations(s: MenuShortcut)
    requires
        'a' <= s.key <= 'z',
    ensures
        accelerator_text(s).last() == s.key,
        label_text(s).last() as u32 == s.key as u32 - 32,
        to_upper(s.key) as u32 == s.key as u32 - 32,
        is_alnum(s.key),
        accelerator_text(s).len() == 10 + (if s.shift { 7int } else { 0int }) + (if s.alt { 5int } else { 0int }),
        label_text(s).len() == 6 + (if s.shift { 6int } else { 0int }) + (if s.alt { 4int } else { 0int }),
        forall|c: char|
            ('a' <= c <= 'z' || 'A' <= c <= 'Z') ==> (#[trigger] eq_ignore_case(c, s.key) <==> (c
                == s.key || c as u32 + 32 == s.key as u32)),
{
    reveal_strlit("<Control>");
    reveal_strlit("<Shift>");
    reveal_strlit("<Alt>");
    reveal_strlit("Ctrl+");
    reveal_strlit("Shift+");
    reveal_strlit("Alt+");
    assert forall|c: char| ('a' <= c <= 'z' || 'A' <= c <= 'Z') implies (#[trigger] eq_ignore_case(c, s.key)
        <==> (c == s.key || c as u32 + 32 == s.key as u32)) by {
        if 'A' <= c <= 'Z' {
            assert(to_lower(c) as u32 == c as u32 + 32);
        }
    }
}

/// The notations of a digit shortcut: GTK's and the shown label both end
/// with the digit itself, which is also the Windows virtual-key code.
pub proof fn lemma_digit_shortcut_notations(s: MenuShortcut)
    requires
        '0' <= s.key <= '9',
    ensures
        accelerator_text(s).last() == s.key,
        label_text(s).last() == s.key,
        to_upper(s.key) == s.key,
        is_alnum(s.key),
{
}

} // verus!
