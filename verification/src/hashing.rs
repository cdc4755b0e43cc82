//! The stable 64-bit hash used to derive external key ids and to scramble
//! Zipfian-popular sequences across the keyspace.

use vstd::prelude::*;

verus! {

/// The value that the rapidhash family assigns to a 64-bit input.
///
/// The hash is a pure function of its argument: same input, same output, in
/// every process and on every machine.
pub uninterp spec fn rapid_hash_of(x: u64) -> u64;

/// Relies on `rapidhash::v1::rapidhash_v1`: a `const fn` of the input bytes
/// alone, with a fixed built-in seed and little-endian-normalised reads, so
/// its result depends on nothing but the argument.
#[verifier::external_body]
pub(crate) fn rapid_hash_u64(x: u64) -> (r: u64)
    ensures
        r == rapid_hash_of(x),
{
    rapidhash::v1::rapidhash_v1(&x.to_le_bytes())
}

} // verus!
