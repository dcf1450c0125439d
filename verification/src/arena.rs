//! A generic slot arena with stable identities.
//!
//! `insert` returns an opaque identity that stays valid until the entry is
//! explicitly removed; lookups by identity are O(1) and are never
//! invalidated by insertions into other slots.  Identities are never
//! reused, so a removed entry's identity can never alias a later one.

use vstd::prelude::*;

verus! {

/// Opaque identity of an arena entry.
#[derive(Clone, Copy, PartialEq, Eq, Structural, Debug)]
pub struct ArenaId {
    pub idx: usize,
}

/// Arena with stable per-entry identities.
pub struct Arena<T> {
    slots: Vec<Option<T>>,
}

impl<T> Arena<T> {
    /// The slots in insertion order; a removed entry leaves `None` behind.
    pub closed spec fn entries(&self) -> Seq<Option<T>> {
        self.slots@
    }

    /// Whether `id` names a live entry.
    pub open spec fn contains_id(&self, id: ArenaId) -> bool {
        id.idx < self.entries().len() && self.entries()[id.idx as int] is Some
    }

    /// The entry named by `id`.
    pub open spec fn spec_get(&self, id: ArenaId) -> T
        recommends
            self.contains_id(id),
    {
        self.entries()[id.idx as int]->0
    }

    /// An empty arena.
    pub fn new() -> (r: Arena<T>)
        ensures
            r.entries() == Seq::<Option<T>>::empty(),
    {
        Arena { slots: Vec::new() }
    }

    /// Inserts an entry and returns its identity; every existing identity
    /// keeps naming the entry it named before.
    pub fn insert(&mut self, value: T) -> (id: ArenaId)
        ensures
            final(self).entries() == old(self).entries().push(Some(value)),
            id.idx == old(self).entries().len(),
            final(self).contains_id(id),
            final(self).spec_get(id) == value,
    {
        let idx = self.slots.len();
        self.slots.push(Some(value));
        ArenaId { idx }
    }

    /// Borrows the entry named by `id`.
    pub fn get(&self, id: ArenaId) -> (r: &T)
        requires
            self.contains_id(id),
        ensures
            *r == self.spec_get(id),
    {
        match &self.slots[id.idx] {
            Some(v) => v,
            None => vstd::pervasive::unreached(),
        }
    }

    /// Mutably borrows the entry named by `id`.
    pub fn get_mut(&mut self, id: ArenaId) -> (r: &mut T)
        requires
            old(self).contains_id(id),
        ensures
            *r == old(self).spec_get(id),
            final(self).entries() == old(self).entries().update(
                id.idx as int,
                Some(*final(r)),
            ),
    {
        let slot = &mut self.slots[id.idx];
        match slot.as_mut() {
            Some(v) => v,
            None => vstd::pervasive::unreached(),
        }
    }

    /// Removes the entry named by `id`; its identity becomes invalid and is
    /// never handed out again.
    pub fn remove(&mut self, id: ArenaId) -> (r: T)
        requires
            old(self).contains_id(id),
        ensures
            r == old(self).spec_get(id),
            final(self).entries() == old(self).entries().update(id.idx as int, None),
    {
        let slot = &mut self.slots[id.idx];
        match slot.take() {
            Some(v) => v,
            None => vstd::pervasive::unreached(),
        }
    }

    /// How many slots have ever been created (live or removed).
    pub fn slot_count(&self) -> (n: usize)
        ensures
            n == self.entries().len(),
    {
        self.slots.len()
    }
}

} // verus!
