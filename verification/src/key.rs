//! The key codec: a 63-bit sequence number and a 1-bit insert-order flag
//! packed into one 64-bit word, with a derived stable external id.

use vstd::prelude::*;

use crate::hashing::rapid_hash_of;
use crate::hashing::rapid_hash_u64;

verus! {

/// How newly minted keys are spread over the keyspace of the store under
/// test: `Ordered` keeps the insertion order, `Hashed` scatters the keys
/// pseudorandomly (the external id becomes a hash of the sequence).
#[derive(Copy, Clone, Debug, PartialEq, Eq, Structural)]
pub enum InsertOrder {
    Ordered,
    Hashed,
}

/// The bit that marks a key as hashed.
pub const HASHED_FLAG: u64 = 0x8000_0000_0000_0000;

/// The largest value a key's sequence number can take, exclusive.
pub const SEQUENCE_LIMIT: u64 = 0x8000_0000_0000_0000;

/// A workload key: bits 0..63 hold the sequence number, bit 63 the hashed
/// flag. Keys compare by the full encoding, so two keys with the same
/// sequence but different flags are distinct.
#[derive(Copy, Clone, Debug, PartialEq, Eq, Structural)]
pub struct Key(u64);

impl Key {
    /// The sequence number packed into the key.
    pub closed spec fn spec_sequence(self) -> u64 {
        self.0 & 0x7fff_ffff_ffff_ffff
    }

    /// Whether the hashed flag is set.
    pub closed spec fn spec_hashed(self) -> bool {
        self.0 & HASHED_FLAG != 0
    }

    /// The external id the key presents to the store: the hash of the
    /// sequence when the hashed flag is set, the sequence itself otherwise.
    pub open spec fn spec_id(self) -> u64 {
        if self.spec_hashed() {
            rapid_hash_of(self.spec_sequence())
        } else {
            self.spec_sequence()
        }
    }

    /// Packs a sequence number and an insert order into a key. The sequence
    /// round-trips through `sequence`, and the flag through the id rule.
    pub fn new(order: InsertOrder, sequence: u64) -> (r: Key)
        requires
            sequence < SEQUENCE_LIMIT,
        ensures
            r.spec_sequence() == sequence,
            r.spec_hashed() == (order is Hashed),
    {
        proof {
            assert(sequence < 0x8000_0000_0000_0000u64 ==> sequence
                & 0x7fff_ffff_ffff_ffff == sequence) by (bit_vector);
            assert(sequence < 0x8000_0000_0000_0000u64 ==> (sequence
                | 0x8000_0000_0000_0000) & 0x7fff_ffff_ffff_ffff == sequence) by (bit_vector);
            assert(sequence < 0x8000_0000_0000_0000u64 ==> sequence
                & 0x8000_0000_0000_0000 == 0) by (bit_vector);
            assert((sequence | 0x8000_0000_0000_0000) & 0x8000_0000_0000_0000 != 0)
                by (bit_vector);
        }
        match order {
            InsertOrder::Ordered => Key(sequence),
            InsertOrder::Hashed => Key(sequence | HASHED_FLAG),
        }
    }

    /// The sequence number, with the flag bit stripped.
    pub fn sequence(&self) -> (r: u64)
        ensures
            r == self.spec_sequence(),
    {
        self.0 & 0x7fff_ffff_ffff_ffff
    }

    /// The external id: the rapidhash of the sequence for hashed keys, the
    /// sequence unchanged for ordered keys.
    pub fn id(&self) -> (r: u64)
        ensures
            r == self.spec_id(),
    {
        if self.0 & HASHED_FLAG != 0 {
            rapid_hash_u64(self.sequence())
        } else {
            self.sequence()
        }
    }
}

} // verus!
