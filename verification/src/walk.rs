//! Walking a tree: every item, with the path that names it, parents before
//! their children.
use vstd::prelude::*;

use crate::tree::{item_at, TreeItem};

verus! {

impl TreeItem {
    /// Visits every item from the top, depth first, parents before their
    /// children, passing each item's path. Parents come first, so the walk
    /// can open branches from the root down.
    ///
    /// `f` is called with every item of the tree and the path that names it,
    /// and with nothing else.
    pub fn walk<F: FnMut(&[usize], &TreeItem)>(items: &[TreeItem], mut f: F)
        requires
            forall|p: &[usize], t: &TreeItem|
                item_at(items@, p@) == Some(*t) ==> #[trigger] call_requires(f, (p, t)),
        ensures
            forall|path: Seq<usize>|
                #[trigger] item_at(items@, path) is Some ==> called_on(f, path, item_at(items@, path)->0),
    {
        let mut path: Vec<usize> = Vec::new();
        proof {
            assert forall|p: &[usize], t: &TreeItem|
                walk_pair(items@, path@, p@, *t) implies #[trigger] call_requires(f, (p, t)) by {
                assert(p@.skip(0) =~= p@);
            }
        }
        walk_inner(items, &mut path, &mut f);
        proof {
            assert forall|q: Seq<usize>| #[trigger] item_at(items@, q) is Some implies called_on(
                f,
                q,
                item_at(items@, q)->0,
            ) by {
                assert(Seq::<usize>::empty() + q =~= q);
            }
        }
    }
}

/// `p` names, below `prefix`, the item `t` of the children `items` of the
/// item at `prefix`.
pub open spec fn walk_pair(items: Seq<TreeItem>, prefix: Seq<usize>, p: Seq<usize>, t: TreeItem) -> bool {
    &&& p.len() > prefix.len()
    &&& p.take(prefix.len() as int) == prefix
    &&& item_at(items, p.skip(prefix.len() as int)) == Some(t)
}

/// A call of `f` on the path `path` and the item `item` can have happened:
/// `f` was called with them.
pub open spec fn called_on<F: FnMut(&[usize], &TreeItem)>(f: F, path: Seq<usize>, item: TreeItem) -> bool {
    exists|s: &[usize]| s@ == path && #[trigger] call_ensures(f, (s, &item), ())
}

fn walk_inner<F: FnMut(&[usize], &TreeItem)>(items: &[TreeItem], path: &mut Vec<usize>, f: &mut F)
    requires
        forall|p: &[usize], t: &TreeItem|
            walk_pair(items@, old(path)@, p@, *t) ==> #[trigger] call_requires(*old(f), (p, t)),
    ensures
        final(path)@ == old(path)@,
        *final(f) == *old(f),
        forall|rest: Seq<usize>|
            #[trigger] item_at(items@, rest) is Some ==> called_on(
                *old(f),
                old(path)@ + rest,
                item_at(items@, rest)->0,
            ),
    decreases items@,
{
    let ghost prefix = path@;
    let ghost f0 = *f;
    let mut index: usize = 0;
    while index < items.len()
        invariant
            index <= items@.len(),
            path@ == prefix,
            *f == f0,
            forall|p: &[usize], t: &TreeItem|
                walk_pair(items@, prefix, p@, *t) ==> #[trigger] call_requires(f0, (p, t)),
            forall|rest: Seq<usize>|
                #[trigger] item_at(items@, rest) is Some && rest[0] < index ==> called_on(
                    f0,
                    prefix + rest,
                    item_at(items@, rest)->0,
                ),
        decreases items@.len() - index,
    {
        path.push(index);
        let s = path.as_slice();
        proof {
            assert(s@.take(prefix.len() as int) =~= prefix);
            assert(s@.skip(prefix.len() as int) =~= seq![index]);
            assert(walk_pair(items@, prefix, s@, items@[index as int]));
        }
        f(s, &items[index]);
        proof {
            assert(s@ == prefix.push(index));
            assert(called_on(f0, prefix.push(index), items@[index as int]));
        }
        assert(decreases_to!(items@ => items@[index as int].children@));
        proof {
            let children = items@[index as int].children@;
            let q = prefix.push(index);
            assert forall|p: &[usize], t: &TreeItem|
                walk_pair(children, q, p@, *t) implies #[trigger] call_requires(f0, (p, t)) by {
                let w = p@.skip(prefix.len() as int);
                assert(p@.take(q.len() as int) == q);
                assert(p@[prefix.len() as int] == p@.take(q.len() as int)[prefix.len() as int]);
                assert(w[0] == index);
                assert(w.drop_first() =~= p@.skip(q.len() as int));
                assert(p@.take(prefix.len() as int) =~= prefix);
                assert(item_at(items@, w) == item_at(children, w.drop_first()));
                assert(walk_pair(items@, prefix, p@, *t));
            }
        }
        walk_inner(items[index].children.as_slice(), path, f);
        path.pop();
        proof {
            let children = items@[index as int].children@;
            assert forall|rest: Seq<usize>|
                #[trigger] item_at(items@, rest) is Some && rest[0] < index + 1 implies called_on(
                    f0,
                    prefix + rest,
                    item_at(items@, rest)->0,
                ) by {
                if rest[0] == index {
                    if rest.len() == 1 {
                        assert(prefix + rest =~= prefix.push(index));
                    } else {
                        let r = rest.drop_first();
                        assert(item_at(items@, rest) == item_at(children, r));
                        assert(item_at(children, r) is Some);
                        assert(prefix.push(index) + r =~= prefix + rest);
                    }
                }
            }
        }
        index += 1;
    }
}

} // verus!
