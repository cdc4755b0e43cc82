//! The load phase: each worker thread mints the pre-load keys of its own
//! contiguous sub-range of `[0, record_count)`.

use vstd::prelude::*;

use crate::key::InsertOrder;
use crate::key::Key;
use crate::key::SEQUENCE_LIMIT;

verus! {

/// A cursor over one thread's share of the pre-load key range: sequences
/// `[next_key, last_key)`, minted in order. Ranges of distinct threads are
/// disjoint and together cover a prefix of `[0, record_count)`: see
/// `lemma_loader_partition`.
pub struct Loader {
    insert_order: InsertOrder,
    next_key: u64,
    last_key: u64,
}

impl Loader {
    pub closed spec fn spec_order(self) -> InsertOrder {
        self.insert_order
    }

    /// The next sequence this loader will mint.
    pub closed spec fn spec_next(self) -> u64 {
        self.next_key
    }

    /// One past the last sequence this loader may mint.
    pub closed spec fn spec_last(self) -> u64 {
        self.last_key
    }

    pub closed spec fn wf(self) -> bool {
        &&& self.next_key <= self.last_key
        &&& self.last_key < SEQUENCE_LIMIT
    }

    pub(crate) fn make(insert_order: InsertOrder, next_key: u64, last_key: u64) -> (r: Loader)
        requires
            next_key <= last_key,
            last_key < SEQUENCE_LIMIT,
        ensures
            r.wf(),
            r.spec_order() == insert_order,
            r.spec_next() == next_key,
            r.spec_last() == last_key,
    {
        Loader { insert_order, next_key, last_key }
    }

    /// Mints the next key of the sub-range, or nothing once the range is
    /// exhausted.
    pub fn next_key(&mut self) -> (r: Option<Key>)
        requires
            old(self).wf(),
        ensures
            final(self).wf(),
            final(self).spec_order() == old(self).spec_order(),
            final(self).spec_last() == old(self).spec_last(),
            old(self).spec_next() < old(self).spec_last() ==> {
                &&& r is Some
                &&& r->0.spec_sequence() == old(self).spec_next()
                &&& r->0.spec_hashed() == (old(self).spec_order() is Hashed)
                &&& final(self).spec_next() == old(self).spec_next() + 1
            },
            old(self).spec_next() >= old(self).spec_last() ==> r is None && *final(self) == *old(
                self,
            ),
    {
        if self.next_key >= self.last_key {
            return None;
        }

        let key = self.next_key;
        self.next_key = self.next_key + 1;
        Some(Key::new(self.insert_order, key))
    }
}

} // verus!
