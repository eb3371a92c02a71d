//! A sparse, index-addressable slot store with a free list.
//!
//! Entries are held in a growable array of optional slots.  Freed indices are
//! tombstoned and reclaimed for later insertions, and a live entry is never
//! relocated: external bookkeeping may hold a raw index into the store across
//! calls, and such an index stays meaningful (live or tombstoned) for as long
//! as the store is not cleared.

use vstd::prelude::*;

verus! {

/// A mapping from small integer indices to entries, where freed indices are
/// reclaimed for future insertions.
///
/// The abstract state is [`SparseBuffer::slots`]: a sequence of optional
/// entries in which `None` marks a tombstoned gap.  `len` reports the
/// high-water mark of allocated slots, gaps included, so positional iteration
/// over `0..len` covers every slot.
pub struct SparseBuffer<T> {
    slot_vec: Vec<Option<T>>,
    free_list: Vec<usize>,
}

impl<T> SparseBuffer<T> {
    /// The slots of the store: live entries as `Some`, tombstoned gaps as `None`.
    pub closed spec fn slots(&self) -> Seq<Option<T>> {
        self.slot_vec@
    }

    /// The free list holds exactly distinct tombstoned positions.
    pub closed spec fn wf(&self) -> bool {
        &&& forall|k: int|
            0 <= k < self.free_list@.len() ==> (#[trigger] self.free_list@[k]) < self.slot_vec@.len()
                && self.slot_vec@[self.free_list@[k] as int] is None
        &&& forall|k1: int, k2: int|
            0 <= k1 < k2 < self.free_list@.len() ==> self.free_list@[k1] != self.free_list@[k2]
    }

    /// An index is live when it is in range and its slot is not tombstoned.
    pub open spec fn is_live(&self, index: int) -> bool {
        0 <= index < self.slots().len() && self.slots()[index] is Some
    }

    /// An empty store.
    pub fn new() -> (store: Self)
        ensures
            store.wf(),
            store.slots() == Seq::<Option<T>>::empty(),
    {
        SparseBuffer { slot_vec: Vec::new(), free_list: Vec::new() }
    }

    /// Inserts an entry and returns its index, reusing a tombstoned slot when
    /// one is available and growing the store by one slot otherwise.  Every
    /// other slot is left untouched, so indices held by callers stay stable.
    pub fn spawn(&mut self, value: T) -> (index: usize)
        requires
            old(self).wf(),
        ensures
            final(self).wf(),
            final(self).is_live(index as int),
            final(self).slots()[index as int] == Some(value),
            index == old(self).slots().len() || old(self).slots()[index as int] is None,
            final(self).slots().len() == (if index == old(self).slots().len() {
                old(self).slots().len() + 1
            } else {
                old(self).slots().len()
            }),
            forall|j: int|
                0 <= j < old(self).slots().len() && j != index ==> final(self).slots()[j]
                    == old(self).slots()[j],
    {
        match self.free_list.pop() {
            Some(index) => {
                let slot = &mut self.slot_vec[index];
                *slot = Some(value);
                index
            },
            None => {
                let index = self.slot_vec.len();
                self.slot_vec.push(Some(value));
                index
            },
        }
    }

    /// Bounds- and tombstone-checked lookup: `None` for freed or out-of-range
    /// indices.
    pub fn get(&self, index: usize) -> (entry: Option<&T>)
        ensures
            match entry {
                Some(value) => self.is_live(index as int) && *value == self.slots()[index as int].unwrap(),
                None => !self.is_live(index as int),
            },
    {
        if index < self.slot_vec.len() {
            self.slot_vec[index].as_ref()
        } else {
            None
        }
    }

    /// Exclusive access to a live entry, in place.
    pub fn at_mut(&mut self, index: usize) -> (entry: &mut T)
        requires
            old(self).wf(),
            old(self).is_live(index as int),
        ensures
            *entry == old(self).slots()[index as int].unwrap(),
            final(self).slots() == old(self).slots().update(index as int, Some(*final(entry))),
            final(self).wf(),
    {
        let slot = &mut self.slot_vec[index];
        match slot.as_mut() {
            Some(value) => value,
            None => unreached(),
        }
    }

    /// Removes the entry at `index`, tombstoning the slot for reuse.  A freed
    /// or out-of-range index is left as it is.
    pub fn free(&mut self, index: usize)
        requires
            old(self).wf(),
        ensures
            final(self).wf(),
            old(self).is_live(index as int) ==> final(self).slots() == old(self).slots().update(
                index as int,
                None::<T>,
            ),
            !old(self).is_live(index as int) ==> final(self).slots() == old(self).slots(),
    {
        if index < self.slot_vec.len() {
            if self.slot_vec[index].is_some() {
                let slot = &mut self.slot_vec[index];
                *slot = None;
                self.free_list.push(index);
                assert(self.slots() =~= old(self).slots().update(index as int, None::<T>));
            }
        }
    }

    /// The high-water mark of allocated slots, tombstoned gaps included.
    pub fn len(&self) -> (length: usize)
        ensures
            length == self.slots().len(),
    {
        self.slot_vec.len()
    }

    /// Whether `index` names a live entry.
    pub fn is_index_valid(&self, index: usize) -> (live: bool)
        ensures
            live == self.is_live(index as int),
    {
        index < self.slot_vec.len() && self.slot_vec[index].is_some()
    }

    /// Drops all entries and resets the free list.
    pub fn clear(&mut self)
        ensures
            final(self).wf(),
            final(self).slots() == Seq::<Option<T>>::empty(),
    {
        self.slot_vec.clear();
        self.free_list.clear();
    }
}

impl<T> Default for SparseBuffer<T> {
    /// An empty store.
    fn default() -> (store: Self)
        ensures
            store.wf(),
            store.slots() == Seq::<Option<T>>::empty(),
    {
        SparseBuffer::new()
    }
}

} // verus!
