//! Tree items.
//!
//! A tree is "nested items + which branches are open + the item selected".
//! Items are named by their **path**, the child indices from the root: `[0, 2]`
//! is the third child of the first root. The empty path names no item and
//! stands for "no selection".
use vstd::prelude::*;

verus! {

/// One tree item.
#[derive(Debug, PartialEq, Eq, Default)]
pub struct TreeItem {
    /// The text shown.
    pub label: String,
    /// A secondary text shown smaller on a second line (on the same line on
    /// the web).
    pub detail: Option<String>,
    /// Whether the item can be selected; `false` also makes **its
    /// descendants** unselectable ([`TreeItem::selectable`]).
    pub enabled: bool,
    /// Whether the branch is open when the items are first set; later
    /// opening and closing belongs to the widget.
    pub expanded: bool,
    /// The children; none for a leaf.
    pub children: Vec<TreeItem>,
}

/// The item that `path` names, if any.
pub open spec fn item_at(items: Seq<TreeItem>, path: Seq<usize>) -> Option<TreeItem>
    decreases path.len(),
{
    if path.len() == 0 || path[0] >= items.len() {
        None
    } else if path.len() == 1 {
        Some(items[path[0] as int])
    } else {
        item_at(items[path[0] as int].children@, path.drop_first())
    }
}

/// The number of items, descendants included.
pub open spec fn tree_count(items: Seq<TreeItem>) -> nat
    decreases items,
{
    if items.len() == 0 {
        0
    } else {
        tree_count(items.drop_last()) + 1 + tree_count(items.last().children@)
    }
}

/// The item that `path` names exists, and it and all its ancestors are
/// enabled.
pub open spec fn path_selectable(items: Seq<TreeItem>, path: Seq<usize>) -> bool
    decreases path.len(),
{
    if path.len() == 0 || path[0] >= items.len() {
        false
    } else {
        let item = items[path[0] as int];
        item.enabled && (path.len() == 1 || path_selectable(item.children@, path.drop_first()))
    }
}

impl TreeItem {
    pub fn new(label: &str) -> (r: Self)
        ensures
            r.label@ == label@,
            r.detail is None,
            r.enabled,
            !r.expanded,
            r.children@.len() == 0,
    {
        TreeItem {
            label: String::from_str(label),
            detail: None,
            enabled: true,
            expanded: false,
            children: Vec::new(),
        }
    }

    /// Sets the secondary text.
    pub fn detail(self, detail: &str) -> (r: Self)
        ensures
            r.label == self.label,
            r.detail is Some && r.detail->0@ == detail@,
            r.enabled == self.enabled,
            r.expanded == self.expanded,
            r.children == self.children,
    {
        TreeItem { detail: Some(String::from_str(detail)), ..self }
    }

    /// Sets whether the item can be selected (it can by default).
    pub fn enabled(self, enabled: bool) -> (r: Self)
        ensures
            r.label == self.label,
            r.detail == self.detail,
            r.enabled == enabled,
            r.expanded == self.expanded,
            r.children == self.children,
    {
        TreeItem { enabled, ..self }
    }

    /// Sets whether the branch starts open (it starts closed by default).
    pub fn expanded(self, expanded: bool) -> (r: Self)
        ensures
            r.label == self.label,
            r.detail == self.detail,
            r.enabled == self.enabled,
            r.expanded == expanded,
            r.children == self.children,
    {
        TreeItem { expanded, ..self }
    }

    /// Replaces the children.
    pub fn children(self, children: Vec<TreeItem>) -> (r: Self)
        ensures
            r.label == self.label,
            r.detail == self.detail,
            r.enabled == self.enabled,
            r.expanded == self.expanded,
            r.children == children,
    {
        TreeItem { children, ..self }
    }

    /// Adds one child at the end.
    pub fn child(self, child: TreeItem) -> (r: Self)
        ensures
            r.label == self.label,
            r.detail == self.detail,
            r.enabled == self.enabled,
            r.expanded == self.expanded,
            r.children@ == self.children@.push(child),
    {
        let mut item = self;
        item.children.push(child);
        item
    }

    /// Whether the item has no children (cannot be opened).
    pub fn is_leaf(&self) -> (r: bool)
        ensures
            r == (self.children@.len() == 0),
    {
        self.children.len() == 0
    }

    /// Leaves made from labels, in order.
    pub fn list(labels: &[&str]) -> (r: Vec<TreeItem>)
        ensures
            r@.len() == labels@.len(),
            forall|i: int|
                0 <= i < r@.len() ==> (#[trigger] r@[i]).label@ == labels@[i]@ && r@[i].detail is None
                    && r@[i].enabled && !r@[i].expanded && r@[i].children@.len() == 0,
    {
        let mut out: Vec<TreeItem> = Vec::new();
        let mut i: usize = 0;
        while i < labels.len()
            invariant
                i <= labels@.len(),
                out@.len() == i,
                forall|j: int|
                    0 <= j < i ==> (#[trigger] out@[j]).label@ == labels@[j]@ && out@[j].detail is None
                        && out@[j].enabled && !out@[j].expanded && out@[j].children@.len() == 0,
            decreases labels@.len() - i,
        {
            out.push(TreeItem::new(labels[i]));
            i += 1;
        }
        out
    }

    /// The item that `path` names, or `None` (the empty path names none).
    pub fn at<'a>(items: &'a [TreeItem], path: &[usize]) -> (r: Option<&'a TreeItem>)
        ensures
            match r {
                Some(item) => item_at(items@, path@) == Some(*item),
                None => item_at(items@, path@) is None,
            },
    {
        assert(path@.skip(0) =~= path@);
        at_from(items, path, 0)
    }

    /// The number of items, descendants included.
    pub fn count(items: &[TreeItem]) -> (r: usize)
        requires
            tree_count(items@) <= usize::MAX,
        ensures
            r == tree_count(items@),
        decreases items@,
    {
        let mut total: usize = 0;
        let mut i: usize = 0;
        assert(items@.take(0) =~= Seq::<TreeItem>::empty());
        while i < items.len()
            invariant
                i <= items@.len(),
                tree_count(items@) <= usize::MAX,
                total == tree_count(items@.take(i as int)),
            decreases items@.len() - i,
        {
            proof {
                lemma_tree_count_prefix(items@, i + 1);
                assert(items@.take(i + 1).drop_last() =~= items@.take(i as int));
            }
            let below = TreeItem::count(items[i].children.as_slice());
            total = total + 1 + below;
            i += 1;
        }
        assert(items@.take(items@.len() as int) =~= items@);
        total
    }

    /// Whether the item of `path` can be selected: it and every ancestor up
    /// to the root must be enabled (disabling a branch disables its
    /// contents, in every backend). The empty path is never selectable.
    pub fn selectable(items: &[TreeItem], path: &[usize]) -> (r: bool)
        ensures
            r == path_selectable(items@, path@),
    {
        assert(path@.skip(0) =~= path@);
        selectable_from(items, path, 0)
    }
}

impl From<String> for TreeItem {
    /// A leaf showing `label`, the same as [`TreeItem::new`].
    fn from(label: String) -> (r: Self)
        ensures
            r.label@ == label@,
            r.detail is None,
            r.enabled,
            !r.expanded,
            r.children@.len() == 0,
    {
        TreeItem::new(label.as_str())
    }
}

impl vstd::std_specs::convert::FromSpecImpl<String> for TreeItem {
    /// An empty list of children cannot be written as a `Vec` value in a
    /// specification; what `from` returns is stated on the impl above.
    open spec fn obeys_from_spec() -> bool {
        false
    }

    open spec fn from_spec(label: String) -> Self {
        arbitrary()
    }
}

impl From<&str> for TreeItem {
    /// A leaf showing `label`, the same as [`TreeItem::new`].
    fn from(label: &str) -> (r: Self)
        ensures
            r.label@ == label@,
            r.detail is None,
            r.enabled,
            !r.expanded,
            r.children@.len() == 0,
    {
        TreeItem::new(label)
    }
}

impl vstd::std_specs::convert::FromSpecImpl<&str> for TreeItem {
    /// The text of a `&str` cannot be written as a `String` value in a
    /// specification; what `from` returns is stated on the impl above.
    open spec fn obeys_from_spec() -> bool {
        false
    }

    open spec fn from_spec(label: &str) -> Self {
        arbitrary()
    }
}

/// The same texts, flags and, recursively, children.
pub open spec fn same_tree(a: TreeItem, b: TreeItem) -> bool
    decreases b,
{
    &&& a.label == b.label
    &&& a.detail == b.detail
    &&& a.enabled == b.enabled
    &&& a.expanded == b.expanded
    &&& a.children@.len() == b.children@.len()
    &&& forall|j: int|
        0 <= j < b.children@.len() ==> #[trigger] same_tree(a.children@[j], b.children@[j])
}

impl Clone for TreeItem {
    /// A deep copy: the same texts, flags and children.
    fn clone(&self) -> (r: Self)
        ensures
            same_tree(r, *self),
    {
        copy_tree(self)
    }
}

fn copy_text(s: &String) -> (r: String)
    ensures
        r == *s,
{
    s.clone()
}

fn copy_tree(item: &TreeItem) -> (r: TreeItem)
    ensures
        same_tree(r, *item),
    decreases item,
{
    let detail = match &item.detail {
        Some(d) => Some(copy_text(d)),
        None => None,
    };
    let mut children: Vec<TreeItem> = Vec::new();
    let mut i: usize = 0;
    while i < item.children.len()
        invariant
            i <= item.children@.len(),
            forall|j: int| 0 <= j < i ==> same_tree(#[trigger] children@[j], item.children@[j]),
            children@.len() == i,
        decreases item.children@.len() - i,
    {
        assert(decreases_to!(item => item.children@[i as int]));
        children.push(copy_tree(&item.children[i]));
        i += 1;
    }
    TreeItem {
        label: copy_text(&item.label),
        detail,
        enabled: item.enabled,
        expanded: item.expanded,
        children,
    }
}

/// [`TreeItem::at`] on `path[k..]`.
fn at_from<'a>(items: &'a [TreeItem], path: &[usize], k: usize) -> (r: Option<&'a TreeItem>)
    requires
        k <= path@.len(),
    ensures
        match r {
            Some(item) => item_at(items@, path@.skip(k as int)) == Some(*item),
            None => item_at(items@, path@.skip(k as int)) is None,
        },
    decreases path@.len() - k,
{
    if k >= path.len() {
        return None;
    }
    let first = path[k];
    if first >= items.len() {
        return None;
    }
    let item = &items[first];
    if k + 1 == path.len() {
        Some(item)
    } else {
        assert(path@.skip(k as int).drop_first() =~= path@.skip(k + 1));
        at_from(item.children.as_slice(), path, k + 1)
    }
}

/// [`TreeItem::selectable`] on `path[k..]`.
fn selectable_from(items: &[TreeItem], path: &[usize], k: usize) -> (r: bool)
    requires
        k <= path@.len(),
    ensures
        r == path_selectable(items@, path@.skip(k as int)),
    decreases path@.len() - k,
{
    if k >= path.len() {
        return false;
    }
    let first = path[k];
    if first >= items.len() {
        return false;
    }
    let item = &items[first];
    if !item.enabled {
        return false;
    }
    if k + 1 == path.len() {
        true
    } else {
        assert(path@.skip(k as int).drop_first() =~= path@.skip(k + 1));
        selectable_from(item.children.as_slice(), path, k + 1)
    }
}

/// The items of the first `k` roots, with the next root and its
/// descendants, are no more than all the items (a partial count never
/// exceeds the total).
pub proof fn lemma_tree_count_prefix(items: Seq<TreeItem>, k: int)
    requires
        0 <= k <= items.len(),
    ensures
        tree_count(items.take(k)) + 1 + (if k < items.len() {
            tree_count(items[k].children@)
        } else {
            0
        }) <= tree_count(items) + 1,
    decreases items.len(),
{
    if k < items.len() {
        assert(items.drop_last().take(k) =~= items.take(k));
        if k < items.len() - 1 {
            lemma_tree_count_prefix(items.drop_last(), k);
            assert(items.drop_last()[k] == items[k]);
        } else {
            assert(items.drop_last() =~= items.take(k));
        }
    } else {
        assert(items.take(k) =~= items);
    }
}

/// A selectable path names an item, and every prefix of a selectable path
/// is selectable too: an ancestor of a selectable item is selectable.
pub proof fn lemma_selectable_ancestors(items: Seq<TreeItem>, path: Seq<usize>, k: int)
    requires
        path_selectable(items, path),
        1 <= k <= path.len(),
    ensures
        item_at(items, path) is Some,
        path_selectable(items, path.take(k)),
    decreases path.len(),
{
    if path.len() > 1 {
        let item = items[path[0] as int];
        assert(path.drop_first().len() == path.len() - 1);
        if k > 1 {
            lemma_selectable_ancestors(item.children@, path.drop_first(), k - 1);
            assert(path.take(k).drop_first() =~= path.drop_first().take(k - 1));
        } else {
            lemma_selectable_ancestors(item.children@, path.drop_first(), 1);
        }
    }
}

// ---------------------------------------------------------------------------
// Walking and visibility
// ---------------------------------------------------------------------------

impl TreeItem {
    /// The paths of the items shown, from the top, given which branches are
    /// open: the roots always, and the children of a branch when the branch
    /// is shown and `is_expanded` answers `true` for it. `is_expanded` is
    /// asked once for each shown branch (each shown item with children), and
    /// only about branches.
    ///
    /// The result is [`shown_paths`] for the answers given; the answers are
    /// those of some calls of `is_expanded`, and exactly the shown branches
    /// were asked.
    pub fn visible<F: FnMut(&[usize]) -> bool>(items: &[TreeItem], mut is_expanded: F) -> (r: Vec<
        Vec<usize>,
    >)
        requires
            forall|s: &[usize]|
                is_branch(items@, s@) ==> #[trigger] call_requires(is_expanded, (s,)),
        ensures
            exists|ans: Map<Seq<usize>, bool>|
                {
                    &&& answered_by(is_expanded, ans)
                    &&& ans.dom() == asked_items(
                        items@,
                        Seq::empty(),
                        answer_fn(ans),
                        items@.len() as int,
                    )
                    &&& r@.map_values(|v: Vec<usize>| v@) == shown_paths(
                        items@,
                        Seq::empty(),
                        answer_fn(ans),
                        items@.len() as int,
                    )
                },
    {
        let mut paths: Vec<Vec<usize>> = Vec::new();
        let mut path: Vec<usize> = Vec::new();
        let ghost empty = Map::<Seq<usize>, bool>::empty();
        proof {
            assert forall|s: &[usize]| branch_below(items@, path@, s@) implies #[trigger] call_requires(
                is_expanded,
                (s,),
            ) by {
                assert(s@.skip(0) =~= s@);
            }
        }
        let Ghost(ans) = visible_inner(items, &mut path, &mut is_expanded, &mut paths, Ghost(empty));
        proof {
            assert(ans.dom() =~= asked_items(
                items@,
                Seq::empty(),
                answer_fn(ans),
                items@.len() as int,
            ));
            assert(paths@.map_values(|v: Vec<usize>| v@) =~= shown_paths(
                items@,
                Seq::empty(),
                answer_fn(ans),
                items@.len() as int,
            ));
        }
        paths
    }
}

/// `q` starts with `p`.
pub open spec fn extends(q: Seq<usize>, p: Seq<usize>) -> bool {
    p.len() <= q.len() && forall|i: int| 0 <= i < p.len() ==> q[i] == p[i]
}

/// `p` names an item that has children.
pub open spec fn is_branch(items: Seq<TreeItem>, p: Seq<usize>) -> bool {
    item_at(items, p) matches Some(t) && t.children@.len() > 0
}

/// `p` names, below `prefix`, an item with children among `items` (the
/// children of the item at `prefix`).
pub open spec fn branch_below(items: Seq<TreeItem>, prefix: Seq<usize>, p: Seq<usize>) -> bool {
    &&& p.len() > prefix.len()
    &&& p.take(prefix.len() as int) == prefix
    &&& is_branch(items, p.skip(prefix.len() as int))
}

/// The answers recorded for the branches asked; `false` for the others.
pub open spec fn answer_fn(ans: Map<Seq<usize>, bool>) -> spec_fn(Seq<usize>) -> bool {
    |p: Seq<usize>| ans.contains_key(p) && ans[p]
}

/// Every recorded answer is what a call of `f` on that path can answer.
pub open spec fn answered_by<F: FnMut(&[usize]) -> bool>(f: F, ans: Map<Seq<usize>, bool>) -> bool {
    forall|p: Seq<usize>|
        #[trigger] ans.contains_key(p) ==> exists|s: &[usize]| s@ == p && call_ensures(f, (s,), ans[p])
}

/// The shown paths of the subtree of `item` at path `p`: `p` itself, then,
/// when it is an open branch, the shown paths below it.
pub open spec fn shown_node(item: TreeItem, p: Seq<usize>, open: spec_fn(Seq<usize>) -> bool) -> Seq<
    Seq<usize>,
>
    decreases item, 0int,
{
    seq![p] + if item.children@.len() > 0 && open(p) {
        shown_paths(item.children@, p, open, item.children@.len() as int)
    } else {
        Seq::empty()
    }
}

/// The shown paths of the first `k` of `items`, whose parent is at `prefix`.
pub open spec fn shown_paths(
    items: Seq<TreeItem>,
    prefix: Seq<usize>,
    open: spec_fn(Seq<usize>) -> bool,
    k: int,
) -> Seq<Seq<usize>>
    decreases items, k,
{
    if k <= 0 || k > items.len() {
        Seq::empty()
    } else {
        shown_paths(items, prefix, open, k - 1) + shown_node(
            items[k - 1],
            prefix.push((k - 1) as usize),
            open,
        )
    }
}

/// The shown branches of the subtree of `item` at `p`: the ones asked
/// whether they are open.
pub open spec fn asked_node(item: TreeItem, p: Seq<usize>, open: spec_fn(Seq<usize>) -> bool) -> Set<
    Seq<usize>,
>
    decreases item, 0int,
{
    if item.children@.len() > 0 {
        set![p] + if open(p) {
            asked_items(item.children@, p, open, item.children@.len() as int)
        } else {
            Set::empty()
        }
    } else {
        Set::empty()
    }
}

/// The shown branches among the first `k` of `items`.
pub open spec fn asked_items(
    items: Seq<TreeItem>,
    prefix: Seq<usize>,
    open: spec_fn(Seq<usize>) -> bool,
    k: int,
) -> Set<Seq<usize>>
    decreases items, k,
{
    if k <= 0 || k > items.len() {
        Set::empty()
    } else {
        asked_items(items, prefix, open, k - 1) + asked_node(
            items[k - 1],
            prefix.push((k - 1) as usize),
            open,
        )
    }
}

/// What is shown below `p` depends only on the answers for the paths below
/// `p`.
proof fn lemma_shown_node_frame(
    item: TreeItem,
    p: Seq<usize>,
    e1: spec_fn(Seq<usize>) -> bool,
    e2: spec_fn(Seq<usize>) -> bool,
)
    requires
        forall|q: Seq<usize>| extends(q, p) ==> e1(q) == e2(q),
    ensures
        shown_node(item, p, e1) == shown_node(item, p, e2),
        asked_node(item, p, e1) == asked_node(item, p, e2),
    decreases item, 0int,
{
    assert(extends(p, p));
    if item.children@.len() > 0 && e1(p) {
        assert forall|q: Seq<usize>, j: int|
            0 <= j < item.children@.len() && #[trigger] extends(q, p.push(j as usize)) implies e1(q)
                == e2(q) by {
            assert(extends(q, p)) by {
                assert forall|i: int| 0 <= i < p.len() implies q[i] == p[i] by {
                    assert(p.push(j as usize)[i] == p[i]);
                }
            }
        }
        lemma_shown_paths_frame(item.children@, p, e1, e2, item.children@.len() as int);
    }
}

proof fn lemma_shown_paths_frame(
    items: Seq<TreeItem>,
    prefix: Seq<usize>,
    e1: spec_fn(Seq<usize>) -> bool,
    e2: spec_fn(Seq<usize>) -> bool,
    k: int,
)
    requires
        forall|q: Seq<usize>, j: int|
            0 <= j < k && #[trigger] extends(q, prefix.push(j as usize)) ==> e1(q) == e2(q),
    ensures
        shown_paths(items, prefix, e1, k) == shown_paths(items, prefix, e2, k),
        asked_items(items, prefix, e1, k) == asked_items(items, prefix, e2, k),
    decreases items, k,
{
    if k > 0 && k <= items.len() {
        lemma_shown_paths_frame(items, prefix, e1, e2, k - 1);
        let p = prefix.push((k - 1) as usize);
        assert forall|q: Seq<usize>| extends(q, p) implies e1(q) == e2(q) by {
            assert(0 <= k - 1 < k && extends(q, prefix.push((k - 1) as usize)));
        }
        lemma_shown_node_frame(items[k - 1], p, e1, e2);
    }
}

/// A shown line of the subtree at `p` starts with `p`, lies below `p`, and
/// (but for `p` itself) follows its parent, which is open.
proof fn lemma_shown_node_shape(item: TreeItem, p: Seq<usize>, open: spec_fn(Seq<usize>) -> bool)
    ensures
        shown_node(item, p, open).len() > 0,
        shown_node(item, p, open)[0] == p,
        forall|t: int|
            0 <= t < shown_node(item, p, open).len() ==> extends(
                #[trigger] shown_node(item, p, open)[t],
                p,
            ),
        forall|t: int|
            0 < t < shown_node(item, p, open).len() ==> (#[trigger] shown_node(item, p, open)[t]).len()
                > p.len(),
        forall|t: int|
            #![trigger shown_node(item, p, open)[t]]
            0 < t < shown_node(item, p, open).len() ==> exists|j: int|
                0 <= j < t && shown_node(item, p, open)[j] == shown_node(item, p, open)[t].drop_last()
                    && open(shown_node(item, p, open)[j]),
    decreases item, 1int,
{
    let s = shown_node(item, p, open);
    assert(extends(p, p));
    if item.children@.len() > 0 && open(p) {
        let n = item.children@.len() as int;
        let sub = shown_paths(item.children@, p, open, n);
        lemma_shown_paths_shape(item.children@, p, open, n);
        assert(s == seq![p] + sub);
        assert forall|t: int| #![trigger s[t]] 0 < t < s.len() implies exists|j: int|
            #![trigger s[j]] 0 <= j < t && s[j] == s[t].drop_last() && open(s[j]) by {
            let q = sub[t - 1];
            assert(s[t] == q);
            assert(extends(q, p) && q.len() > p.len());
            if q.len() == p.len() + 1 {
                assert(q.drop_last() =~= p);
                assert(s[0] == p);
                assert(s[0] == s[t].drop_last() && open(s[0]));
            } else {
                assert(q.len() > p.len() + 1);
                assert(exists|j: int| #![trigger sub[j]] 0 <= j < t - 1 && sub[j] == sub[t - 1].drop_last()
                    && open(sub[j]));
                let j0 = choose|j: int| #![trigger sub[j]] 0 <= j < t - 1 && sub[j] == sub[t - 1].drop_last() && open(sub[j]);
                assert(s[j0 + 1] == sub[j0]);
                assert(s[j0 + 1] == s[t].drop_last() && open(s[j0 + 1]));
            }
        }
    } else {
        assert(s =~= seq![p]);
    }
}

/// The shown lines of the first `k` of `items` (children of the item at
/// `prefix`) lie below `prefix`; each one deeper than a child follows its
/// parent, which is open; and each of those children starts its own lines.
proof fn lemma_shown_paths_shape(
    items: Seq<TreeItem>,
    prefix: Seq<usize>,
    open: spec_fn(Seq<usize>) -> bool,
    k: int,
)
    requires
        0 <= k <= items.len(),
    ensures
        forall|t: int|
            0 <= t < shown_paths(items, prefix, open, k).len() ==> extends(
                #[trigger] shown_paths(items, prefix, open, k)[t],
                prefix,
            ) && shown_paths(items, prefix, open, k)[t].len() > prefix.len(),
        forall|t: int|
            #![trigger shown_paths(items, prefix, open, k)[t]]
            0 <= t < shown_paths(items, prefix, open, k).len() && shown_paths(items, prefix, open, k)[t].len()
                > prefix.len() + 1 ==> exists|j: int|
                0 <= j < t && shown_paths(items, prefix, open, k)[j] == shown_paths(
                    items,
                    prefix,
                    open,
                    k,
                )[t].drop_last() && open(shown_paths(items, prefix, open, k)[j]),
        forall|i: int| 0 <= i < k ==> shown_paths(items, prefix, open, k).contains(#[trigger] prefix.push(i as usize)),
    decreases items, k,
{
    if k > 0 {
        lemma_shown_paths_shape(items, prefix, open, k - 1);
        let head = shown_paths(items, prefix, open, k - 1);
        let p = prefix.push((k - 1) as usize);
        let node = shown_node(items[k - 1], p, open);
        assert(decreases_to!(items => items[k - 1]));
        lemma_shown_node_shape(items[k - 1], p, open);
        let s = shown_paths(items, prefix, open, k);
        assert(s == head + node);
        assert forall|t: int| 0 <= t < s.len() implies extends(#[trigger] s[t], prefix) && s[t].len()
            > prefix.len() by {
            if t >= head.len() {
                let q = node[t - head.len()];
                assert(extends(q, p));
                assert forall|i: int| 0 <= i < prefix.len() implies q[i] == prefix[i] by {
                    assert(p[i] == prefix[i]);
                }
            }
        }
        assert forall|t: int|
            #![trigger s[t]]
            0 <= t < s.len() && s[t].len() > prefix.len() + 1 implies exists|j: int|
                #![trigger s[j]] 0 <= j < t && s[j] == s[t].drop_last() && open(s[j]) by {
            if t < head.len() {
                let j0 = choose|j: int| #![trigger head[j]] 0 <= j < t && head[j] == head[t].drop_last() && open(head[j]);
                assert(s[j0] == head[j0]);
            } else {
                let u = t - head.len();
                assert(s[t] == node[u]);
                if u == 0 {
                    assert(node[0] == p);
                } else {
                    let j0 = choose|j: int| #![trigger node[j]] 0 <= j < u && node[j] == node[u].drop_last() && open(node[j]);
                    assert(s[head.len() + j0] == node[j0]);
                }
            }
        }
        assert forall|i: int| 0 <= i < k implies s.contains(#[trigger] prefix.push(i as usize)) by {
            if i < k - 1 {
                let j = choose|j: int| #![trigger head[j]] 0 <= j < head.len() && head[j] == prefix.push(i as usize);
                assert(s[j] == head[j]);
            } else {
                assert(s[head.len() as int] == node[0]);
            }
        }
    }
}

/// What [`TreeItem::visible`] shows, for any answers: every root, and
/// below the roots an item only after its parent, and only when its parent
/// is open (a closed branch hides its whole subtree).
pub proof fn lemma_visible_shape(items: Seq<TreeItem>, open: spec_fn(Seq<usize>) -> bool)
    ensures
        forall|i: usize|
            i < items.len() ==> shown_paths(items, Seq::empty(), open, items.len() as int).contains(
                #[trigger] Seq::<usize>::empty().push(i),
            ),
        forall|t: int|
            #![trigger shown_paths(items, Seq::empty(), open, items.len() as int)[t]]
            0 <= t < shown_paths(items, Seq::empty(), open, items.len() as int).len() && shown_paths(
                items,
                Seq::empty(),
                open,
                items.len() as int,
            )[t].len() > 1 ==> exists|j: int|
                0 <= j < t && shown_paths(items, Seq::empty(), open, items.len() as int)[j] == shown_paths(
                    items,
                    Seq::empty(),
                    open,
                    items.len() as int,
                )[t].drop_last() && open(shown_paths(items, Seq::empty(), open, items.len() as int)[j]),
{
    let e = Seq::<usize>::empty();
    lemma_shown_paths_shape(items, e, open, items.len() as int);
    assert forall|i: usize| i < items.len() implies shown_paths(items, e, open, items.len() as int).contains(
        #[trigger] Seq::<usize>::empty().push(i),
    ) by {
        assert(e.push((i as int) as usize) == e.push(i));
    }
}

/// `visible` below `path`: appends the shown paths of `items` (children of
/// the item at `path`) and records the answers of the branches asked.
fn visible_inner<F: FnMut(&[usize]) -> bool>(
    items: &[TreeItem],
    path: &mut Vec<usize>,
    f: &mut F,
    out: &mut Vec<Vec<usize>>,
    Ghost(ans0): Ghost<Map<Seq<usize>, bool>>,
) -> (ans: Ghost<Map<Seq<usize>, bool>>)
    requires
        forall|s: &[usize]|
            branch_below(items@, old(path)@, s@) ==> #[trigger] call_requires(*old(f), (s,)),
        answered_by(*old(f), ans0),
        forall|q: Seq<usize>|
            #[trigger] ans0.contains_key(q) ==> !(extends(q, old(path)@) && q.len() > old(path)@.len()),
    ensures
        final(path)@ == old(path)@,
        *final(f) == *old(f),
        answered_by(*old(f), ans@),
        forall|q: Seq<usize>| #[trigger] ans0.contains_key(q) ==> ans@.contains_key(q) && ans@[q] == ans0[q],
        forall|q: Seq<usize>|
            #[trigger] ans@.contains_key(q) ==> ans0.contains_key(q) || (extends(q, old(path)@) && q.len()
                > old(path)@.len()),
        ans@.dom() == ans0.dom() + asked_items(
            items@,
            old(path)@,
            answer_fn(ans@),
            items@.len() as int,
        ),
        final(out)@.map_values(|v: Vec<usize>| v@) == old(out)@.map_values(|v: Vec<usize>| v@)
            + shown_paths(items@, old(path)@, answer_fn(ans@), items@.len() as int),
    decreases items@,
{
    let ghost prefix = path@;
    let ghost f0 = *f;
    let ghost out0 = out@.map_values(|v: Vec<usize>| v@);
    let ghost mut m = ans0;
    let mut index: usize = 0;
    proof {
        assert(m.dom() =~= ans0.dom() + asked_items(items@, prefix, answer_fn(m), 0));
        assert(out@.map_values(|v: Vec<usize>| v@) =~= out0 + shown_paths(
            items@,
            prefix,
            answer_fn(m),
            0,
        ));
    }
    while index < items.len()
        invariant
            index <= items@.len(),
            path@ == prefix,
            *f == f0,
            forall|s: &[usize]| branch_below(items@, prefix, s@) ==> #[trigger] call_requires(f0, (s,)),
            answered_by(f0, m),
            forall|q: Seq<usize>| #[trigger] ans0.contains_key(q) ==> m.contains_key(q) && m[q] == ans0[q],
            forall|q: Seq<usize>|
                #[trigger] m.contains_key(q) ==> ans0.contains_key(q) || (extends(q, prefix) && q.len()
                    > prefix.len() && q[prefix.len() as int] < index),
            forall|q: Seq<usize>|
                #[trigger] ans0.contains_key(q) ==> !(extends(q, prefix) && q.len() > prefix.len()),
            m.dom() == ans0.dom() + asked_items(items@, prefix, answer_fn(m), index as int),
            out@.map_values(|v: Vec<usize>| v@) == out0 + shown_paths(
                items@,
                prefix,
                answer_fn(m),
                index as int,
            ),
        decreases items@.len() - index,
    {
        let ghost m_before = m;
        let ghost out_before = out@.map_values(|v: Vec<usize>| v@);
        path.push(index);
        let ghost p = path@;
        assert(p =~= prefix.push(index));
        let copy = path.clone();
        assert(copy@ =~= p);
        out.push(copy);
        let ghost out_mid = out@.map_values(|v: Vec<usize>| v@);
        assert(out_mid =~= out_before.push(p));
        let item = &items[index];
        let ghost node = items@[index as int];
        if item.children.len() > 0 {
            let shown = path.as_slice();
            proof {
                assert(shown@.take(prefix.len() as int) =~= prefix);
                assert(shown@.skip(prefix.len() as int) =~= seq![index]);
                assert(item_at(items@, seq![index]) == Some(node));
                assert(branch_below(items@, prefix, shown@));
            }
            let open = f(shown);
            proof {
                assert(!m.contains_key(p)) by {
                    if m.contains_key(p) {
                        assert(p[prefix.len() as int] == index);
                    }
                }
                m = m.insert(p, open);
                assert(answered_by(f0, m)) by {
                    assert forall|q: Seq<usize>| #[trigger] m.contains_key(q) implies exists|s: &[usize]|
                        s@ == q && call_ensures(f0, (s,), m[q]) by {
                        if q == p {
                            assert(shown@ == q);
                        } else {
                            assert(m_before.contains_key(q));
                        }
                    }
                }
                assert forall|q: Seq<usize>| #[trigger] m.contains_key(q) implies !(extends(q, p)
                    && q.len() > p.len()) by {
                    if q != p && extends(q, p) && q.len() > p.len() {
                        assert(m_before.contains_key(q));
                        assert(extends(q, prefix));
                        assert(q[prefix.len() as int] == p[prefix.len() as int]);
                    }
                }
            }
            let ghost m_mid = m;
            if open {
                assert(decreases_to!(items@ => items@[index as int].children@));
                proof {
                    let children = node.children@;
                    assert forall|s: &[usize]| branch_below(children, p, s@) implies #[trigger] call_requires(
                        f0,
                        (s,),
                    ) by {
                        let w = s@.skip(prefix.len() as int);
                        assert(s@[prefix.len() as int] == s@.take(p.len() as int)[prefix.len() as int]);
                        assert(w[0] == index);
                        assert(w.drop_first() =~= s@.skip(p.len() as int));
                        assert(s@.take(prefix.len() as int) =~= prefix);
                        assert(item_at(items@, w) == item_at(children, w.drop_first()));
                        assert(branch_below(items@, prefix, s@));
                    }
                }
                let Ghost(m2) = visible_inner(item.children.as_slice(), path, f, out, Ghost(m));
                proof {
                    assert(m_mid.contains_key(p) && m_mid[p]);
                    m = m2;
                    let e = answer_fn(m);
                    assert(e(p));
                    assert forall|q: Seq<usize>| #[trigger] m_before.contains_key(q) implies m.contains_key(q)
                        && m[q] == m_before[q] by {
                        assert(m_mid.contains_key(q));
                    }
                    assert forall|q: Seq<usize>| #[trigger] m.contains_key(q) && !m_before.contains_key(q)
                        implies extends(q, p) by {
                        assert(extends(p, p));
                    }
                    assert(m.dom() =~= m_before.dom() + asked_node(node, p, e));
                    assert(out@.map_values(|v: Vec<usize>| v@) =~= out_before + shown_node(node, p, e));
                }
            } else {
                proof {
                    let e = answer_fn(m);
                    assert(!e(p));
                    assert forall|q: Seq<usize>| #[trigger] m_before.contains_key(q) implies m.contains_key(q)
                        && m[q] == m_before[q] by {
                        assert(m_mid.contains_key(q));
                    }
                    assert forall|q: Seq<usize>| #[trigger] m.contains_key(q) && !m_before.contains_key(q)
                        implies extends(q, p) by {
                        assert(extends(p, p));
                    }
                    assert(m.dom() =~= m_before.dom() + asked_node(node, p, e));
                    assert(out@.map_values(|v: Vec<usize>| v@) =~= out_before + shown_node(node, p, e));
                }
            }
        } else {
            proof {
                let e = answer_fn(m);
                assert(m.dom() =~= m_before.dom() + asked_node(node, p, e));
                assert(m == m_before);
                assert(out@.map_values(|v: Vec<usize>| v@) =~= out_before + shown_node(node, p, e));
            }
        }
        path.pop();
        proof {
            let e_old = answer_fn(m_before);
            let e_new = answer_fn(m);
            // The earlier siblings see the same answers.
            assert forall|q: Seq<usize>, j: int|
                0 <= j < index && #[trigger] extends(q, prefix.push(j as usize)) implies e_old(q)
                    == e_new(q) by {
                if m.contains_key(q) && !m_before.contains_key(q) {
                    assert(extends(q, p));
                    assert(q[prefix.len() as int] == prefix.push(j as usize)[prefix.len() as int]);
                    assert(q[prefix.len() as int] == p[prefix.len() as int]);
                } else if m_before.contains_key(q) {
                    assert(m.contains_key(q) && m[q] == m_before[q]);
                }
            }
            assert forall|q: Seq<usize>| #[trigger] ans0.contains_key(q) implies m.contains_key(q)
                && m[q] == ans0[q] by {
                assert(m_before.contains_key(q) && m_before[q] == ans0[q]);
                assert(m.contains_key(q) && m[q] == m_before[q]);
            }
            lemma_shown_paths_frame(items@, prefix, e_old, e_new, index as int);
            assert(prefix.push(((index + 1) - 1) as usize) == p);
            assert(shown_paths(items@, prefix, e_new, index + 1) == shown_paths(
                items@,
                prefix,
                e_new,
                index as int,
            ) + shown_node(node, p, e_new));
            assert(asked_items(items@, prefix, e_new, index + 1) == asked_items(
                items@,
                prefix,
                e_new,
                index as int,
            ) + asked_node(node, p, e_new));
            assert(out@.map_values(|v: Vec<usize>| v@) =~= out0 + shown_paths(
                items@,
                prefix,
                e_new,
                index + 1,
            ));
            assert(m.dom() =~= ans0.dom() + asked_items(items@, prefix, e_new, index + 1));
        }
        index += 1;
    }
    Ghost(m)
}

} // verus!
