//! The acknowledgement tracker: a fixed-capacity bitmap over insert indices,
//! answering "what is the largest prefix of newly minted insert indices that
//! the store has acknowledged?" while also minting fresh indices.

use vstd::prelude::*;

verus! {

/// Number of 64-bit words in the bitmap.
pub const WORD_COUNT: usize = 0x10_0000;

/// Number of insert indices the tracker can hold: one bit each.
pub const CAPACITY: u64 = 0x400_0000;

/// Tracks which insert indices the store has acknowledged, and mints fresh
/// indices. `next` is the allocation counter; `hint` is a memoised floor for
/// the scan that finds the first unacknowledged index: every word below it is
/// already all ones, so the scan never needs to start earlier.
///
/// The tracker is driven through exclusive references; a harness that runs
/// several workers shares the one instance behind a lock or hands out turns.
/// Its answers depend only on the set of acknowledgements made, never on
/// their order: see `lemma_acknowledge_history`.
pub struct Acknowledged {
    next: u64,
    hint: u64,
    words: Vec<u64>,
}

impl Acknowledged {
    /// Whether insert index `i` has been acknowledged: bit `i % 64` of word
    /// `i / 64`.
    pub closed spec fn acked(self, i: int) -> bool {
        &&& 0 <= i < CAPACITY
        &&& (self.words@[i / 64] >> ((i % 64) as u64)) & 1 == 1
    }

    /// The set of acknowledged indices.
    pub open spec fn acked_set(self) -> Set<int> {
        Set::new(|i: int| self.acked(i))
    }

    /// How many insert indices have been handed out by `next_write`.
    pub closed spec fn assigned(self) -> u64 {
        self.next
    }

    /// `m` is the frontier: every index below it is acknowledged and `m`
    /// itself is not (unless the whole bitmap is exhausted). The frontier is
    /// unique: see `lemma_frontier_unique`.
    pub open spec fn is_frontier(self, m: int) -> bool {
        &&& 0 <= m <= CAPACITY
        &&& forall|j: int| 0 <= j < m ==> self.acked(j)
        &&& m < CAPACITY ==> !self.acked(m)
    }

    /// Every index is acknowledged: the tracker is exhausted.
    pub open spec fn full(self) -> bool {
        forall|i: int| 0 <= i < CAPACITY ==> self.acked(i)
    }

    pub closed spec fn wf(self) -> bool {
        &&& self.words@.len() == WORD_COUNT
        &&& self.hint <= WORD_COUNT as u64
        &&& forall|k: int| 0 <= k < 64 * (self.hint as int) ==> self.acked(k)
    }

    /// A fresh tracker: nothing assigned, nothing acknowledged. Allocates the
    /// whole bitmap up front; intended to be built once and shared.
    pub fn new() -> (r: Acknowledged)
        ensures
            r.wf(),
            r.assigned() == 0,
            forall|i: int| !r.acked(i),
    {
        let mut words: Vec<u64> = Vec::new();
        let mut w: usize = 0;
        while w < WORD_COUNT
            invariant
                w <= WORD_COUNT,
                words@.len() == w,
                forall|k: int| 0 <= k < w ==> words@[k] == 0u64,
            decreases WORD_COUNT - w,
        {
            words.push(0u64);
            w = w + 1;
        }
        let r = Acknowledged { next: 0, hint: 0, words };
        proof {
            assert forall|i: int| !r.acked(i) by {
                if 0 <= i < CAPACITY {
                    lemma_div_mod_64_range(i);
                    let s = (i % 64) as u64;
                    assert((0u64 >> s) & 1 == 0) by (bit_vector);
                }
            }
        }
        r
    }

    /// How many insert indices `next_write` has handed out so far.
    pub fn assigned_count(&self) -> (r: u64)
        ensures
            r == self.assigned(),
    {
        self.next
    }

    /// Mints the next insert index: a post-increment of the allocation
    /// counter. Indices come out distinct and contiguous from zero: see
    /// `lemma_next_write_prefix`.
    pub fn next_write(&mut self) -> (r: u64)
        requires
            old(self).wf(),
            old(self).assigned() < u64::MAX,
        ensures
            final(self).wf(),
            r == old(self).assigned(),
            final(self).assigned() == old(self).assigned() + 1,
            forall|i: int| final(self).acked(i) == old(self).acked(i),
    {
        let r = self.next;
        self.next = self.next + 1;
        proof {
            assert forall|k: int| 0 <= k < 64 * (self.hint as int) implies self.acked(k) by {
                assert(old(self).acked(k));
            }
        }
        r
    }

    /// Marks insert index `index` acknowledged and raises the scan hint. The
    /// counter is untouched, and the acknowledged set grows by exactly that
    /// index, so calls commute and repeat calls change nothing: see
    /// `lemma_acknowledge_history` and `lemma_acknowledge_idempotent`.
    pub fn acknowledge(&mut self, index: u64)
        requires
            old(self).wf(),
            index < CAPACITY,
            exists|i: int| 0 <= i < CAPACITY && i != index && !old(self).acked(i),
        ensures
            final(self).wf(),
            final(self).assigned() == old(self).assigned(),
            forall|i: int| final(self).acked(i) == (old(self).acked(i) || i == index),
            final(self).acked_set() == old(self).acked_set().insert(index as int),
    {
        proof {
            lemma_div_mod_64_range(index as int);
        }
        let w = (index / 64) as usize;
        let j = index % 64;
        let word = self.words[w];
        self.words[w] = word | (1u64 << j);
        proof {
            assert(64 * (w as int) + (j as int) == index) by (nonlinear_arith)
                requires
                    w == index / 64,
                    j == index % 64,
            ;
            assert forall|i: int|
                self.acked(i) == (old(self).acked(i) || i == index) by {
                if 0 <= i < CAPACITY {
                    lemma_div_mod_64_range(i);
                    if i / 64 == w {
                        lemma_or_bit(word, j, (i % 64) as u64);
                        if i % 64 == j {
                            assert(i == 64 * (w as int) + (j as int)) by (nonlinear_arith)
                                requires
                                    i / 64 == w as int,
                                    i % 64 == j as int,
                                    0 <= i,
                            ;
                        } else {
                            assert(i != index);
                        }
                    } else {
                        assert(i != index);
                    }
                } else {
                    assert(!self.acked(i) && !old(self).acked(i) && i != index);
                }
            }
            assert(!self.full()) by {
                let i = choose|i: int|
                    0 <= i < CAPACITY && i != index && !old(self).acked(i);
                assert(!self.acked(i));
            }
            assert forall|k: int| 0 <= k < 64 * (self.hint as int) implies self.acked(k) by {
                assert(old(self).acked(k));
            }
        }
        let (f, fj) = self.next();
        let ghost before = *self;
        if f > self.hint {
            self.hint = f;
            proof {
                assert forall|k: int| 0 <= k < 64 * (self.hint as int) implies self.acked(k) by {
                    assert(before.is_frontier(64 * (f as int) + (fj as int)));
                    assert(before.acked(k));
                }
            }
        }
        proof {
            assert forall|i: int|
                self.acked(i) == (old(self).acked(i) || i == index) by {
                assert(self.acked(i) == before.acked(i));
                assert(before.acked(i) == (old(self).acked(i) || i == index));
            }
            assert(self.acked_set() =~= old(self).acked_set().insert(index as int));
        }
    }

    /// The first word and bit position not yet acknowledged, scanning words
    /// upward from the hint. The tracker must not be exhausted.
    pub fn next(&self) -> (r: (u64, u64))
        requires
            self.wf(),
            !self.full(),
        ensures
            r.1 < 64,
            64 * (r.0 as int) + (r.1 as int) < CAPACITY,
            self.is_frontier(64 * (r.0 as int) + (r.1 as int)),
    {
        let mut w: usize = self.hint as usize;
        while w < WORD_COUNT
            invariant
                self.wf(),
                !self.full(),
                w <= WORD_COUNT,
                forall|k: int| 0 <= k < 64 * w ==> self.acked(k),
            decreases WORD_COUNT - w,
        {
            let word = self.words[w];
            let j = first_zero_bit(word);
            if j < 64 {
                proof {
                    let m = 64 * (w as int) + (j as int);
                    assert forall|k: int| 0 <= k < m implies self.acked(k) by {
                        if k >= 64 * (w as int) {
                            let b = k - 64 * (w as int);
                            lemma_div_mod_64(w as int, b);
                            assert((word >> (b as u64)) & 1 == 1);
                        }
                    }
                    lemma_div_mod_64(w as int, j as int);
                    assert(!self.acked(m));
                }
                return (w as u64, j);
            }
            proof {
                assert forall|k: int| 0 <= k < 64 * (w + 1) implies self.acked(k) by {
                    if k >= 64 * (w as int) {
                        let b = k - 64 * (w as int);
                        lemma_div_mod_64(w as int, b);
                        assert((word >> (b as u64)) & 1 == 1);
                    }
                }
            }
            w = w + 1;
        }
        proof {
            assert(self.full());
        }
        vstd::pervasive::unreached()
    }

    /// The frontier as a single index: the largest `m` such that every insert
    /// index below `m` has been acknowledged.
    pub fn next_read(&self) -> (r: u64)
        requires
            self.wf(),
            !self.full(),
        ensures
            r < CAPACITY,
            self.is_frontier(r as int),
    {
        let (i, j) = self.next();
        i * 64 + j
    }
}

impl Default for Acknowledged {
    /// The same fresh tracker `new` builds.
    fn default() -> (r: Acknowledged)
        ensures
            r.wf(),
            r.assigned() == 0,
            forall|i: int| !r.acked(i),
    {
        Acknowledged::new()
    }
}

/// First bit of `word` that is zero, scanning from the least significant bit;
/// 64 when every bit is one.
fn first_zero_bit(word: u64) -> (j: u64)
    ensures
        j <= 64,
        forall|b: u64| b < j ==> #[trigger] ((word >> b) & 1) == 1,
        j < 64 ==> (word >> j) & 1 == 0,
{
    let mut j: u64 = 0;
    while j < 64
        invariant
            j <= 64,
            forall|b: u64| b < j ==> #[trigger] ((word >> b) & 1) == 1,
        decreases 64 - j,
    {
        if (word >> j) & 1 == 0 {
            return j;
        }
        proof {
            assert((word >> j) & 1 == 0 || (word >> j) & 1 == 1) by (bit_vector);
        }
        j = j + 1;
    }
    64
}

proof fn lemma_div_mod_64(w: int, b: int)
    by (nonlinear_arith)
    requires
        0 <= w,
        0 <= b < 64,
    ensures
        (64 * w + b) / 64 == w,
        (64 * w + b) % 64 == b,
{
}

proof fn lemma_div_mod_64_range(i: int)
    by (nonlinear_arith)
    requires
        0 <= i < 0x400_0000,
    ensures
        0 <= i / 64 < 0x10_0000,
        0 <= i % 64 < 64,
        64 * (i / 64) + i % 64 == i,
{
}

proof fn lemma_or_bit(word: u64, j: u64, b: u64)
    by (bit_vector)
    requires
        j < 64,
        b < 64,
    ensures
        b == j ==> ((word | (1u64 << j)) >> b) & 1 == 1,
        b != j ==> ((word | (1u64 << j)) >> b) & 1 == (word >> b) & 1,
{
}

} // verus!
