//! The UI thread's register of live channels and tasks.
//!
//! What crosses threads is only a number: the receiving closures and the
//! futures stay on the UI thread, in this register, and work posted to the UI
//! thread looks them up by number.
use vstd::prelude::*;
use std::collections::HashMap;

verus! {

broadcast use vstd::std_specs::hash::group_hash_axioms;

/// The numbers handed out after `start`, one per call: the `k`-th call
/// returns `start + k`, counted modulo 2^64.
pub open spec fn id_after(start: u64, k: nat) -> u64 {
    ((start as nat + k) % 0x1_0000_0000_0000_0000) as u64
}

/// The live entries by number, and the next number to hand out.
pub struct Registry<E> {
    entries: HashMap<u64, E>,
    next: u64,
}

impl<E> Registry<E> {
    /// The entries, by number.
    pub closed spec fn entries(&self) -> Map<u64, E> {
        self.entries@
    }

    /// The number the next call of `next_id` returns.
    pub closed spec fn next(&self) -> u64 {
        self.next
    }

    /// An empty register whose first number is 1.
    pub fn new() -> (r: Self)
        ensures
            r.entries() == Map::<u64, E>::empty(),
            r.next() == 1,
    {
        Registry { entries: HashMap::new(), next: 1 }
    }

    /// Hands out a number: the next one in turn, wrapping after `u64::MAX`.
    pub fn next_id(&mut self) -> (id: u64)
        ensures
            id == old(self).next(),
            final(self).next() == id_after(old(self).next(), 1),
            final(self).entries() == old(self).entries(),
    {
        let id = self.next;
        self.next = self.next.wrapping_add(1);
        proof {
            assert(id_after(id, 1) == (if id == u64::MAX { 0 } else { id + 1 }));
        }
        id
    }

    /// Registers `entry` under `id`, in place of any entry registered there.
    pub fn register(&mut self, id: u64, entry: E)
        ensures
            final(self).entries() == old(self).entries().insert(id, entry),
            final(self).next() == old(self).next(),
    {
        self.entries.insert(id, entry);
    }

    /// Takes the entry registered under `id` out of the register, if any.
    pub fn deregister(&mut self, id: u64) -> (removed: Option<E>)
        ensures
            final(self).entries() == old(self).entries().remove(id),
            final(self).next() == old(self).next(),
            removed == (if old(self).entries().contains_key(id) {
                Some(old(self).entries()[id])
            } else {
                None
            }),
    {
        self.entries.remove(&id)
    }

    /// The entry registered under `id`, if any.
    pub fn get(&self, id: u64) -> (found: Option<&E>)
        ensures
            found matches Some(e) ==> self.entries().contains_key(id) && *e == self.entries()[id],
            found is None ==> !self.entries().contains_key(id),
    {
        self.entries.get(&id)
    }

    /// Takes every entry out of the register (when the UI shuts down).
    pub fn take_all(&mut self) -> (taken: HashMap<u64, E>)
        ensures
            taken@ == old(self).entries(),
            final(self).entries() == Map::<u64, E>::empty(),
            final(self).next() == old(self).next(),
    {
        let mut taken: HashMap<u64, E> = HashMap::new();
        std::mem::swap(&mut taken, &mut self.entries);
        taken
    }

    /// How many entries are live.
    pub fn len(&self) -> (n: usize)
        ensures
            n == self.entries().len(),
    {
        self.entries.len()
    }
}

// ---------------------------------------------------------------------------
// Laws
// ---------------------------------------------------------------------------

/// Numbers handed out in turn do not repeat before 2^64 of them were handed
/// out.
pub proof fn lemma_ids_distinct(start: u64, i: nat, j: nat)
    requires
        i < j < 0x1_0000_0000_0000_0000,
    ensures
        id_after(start, i) != id_after(start, j),
{
    let m: int = 0x1_0000_0000_0000_0000;
    let a: int = start as int + i;
    let b: int = start as int + j;
    assert(0 < b - a < m);
    if a % m == b % m {
        vstd::arithmetic::div_mod::lemma_fundamental_div_mod(a, m);
        vstd::arithmetic::div_mod::lemma_fundamental_div_mod(b, m);
        assert(m * (b / m) - m * (a / m) == b - a);
        vstd::arithmetic::mul::lemma_mul_is_distributive_sub(m, b / m, a / m);
        let d = b / m - a / m;
        assert(m * d == b - a);
        assert(false) by (nonlinear_arith)
            requires
                m * d == b - a,
                0 < b - a < m,
                m > 0,
        ;
    }
}

/// Handing out a number after another continues the count.
pub proof fn lemma_id_after_step(start: u64, k: nat)
    ensures
        id_after(id_after(start, k), 1) == id_after(start, k + 1),
{
    let m: int = 0x1_0000_0000_0000_0000;
    let a: int = start as int + k;
    vstd::arithmetic::div_mod::lemma_add_mod_noop(a, 1, m);
    vstd::arithmetic::div_mod::lemma_mod_bound(a, m);
}

/// A registered entry is found under its number until that number is
/// deregistered; registering or deregistering another number leaves it.
pub proof fn lemma_lookup_after_changes<E>(m: Map<u64, E>, id: u64, other: u64, e: E, f: E)
    requires
        id != other,
    ensures
        m.insert(id, e).contains_key(id) && m.insert(id, e)[id] == e,
        m.insert(id, e).insert(other, f)[id] == e,
        m.insert(id, e).remove(other)[id] == e,
        !m.insert(id, e).remove(id).contains_key(id),
{
}

} // verus!
