//! Properties the library's contracts imply, stated and proved once.

use vstd::prelude::*;

use crate::acknowledged::Acknowledged;
use crate::key::Key;

verus! {

/// The tracker's frontier is unique: any two values that satisfy
/// `is_frontier` are the same, so `next_read` yields exactly the largest `M`
/// with every index below `M` acknowledged.
pub proof fn lemma_frontier_unique(a: Acknowledged, m1: int, m2: int)
    requires
        a.is_frontier(m1),
        a.is_frontier(m2),
    ensures
        m1 == m2,
{
    if m1 < m2 {
        assert(a.acked(m1));
    }
    if m2 < m1 {
        assert(a.acked(m2));
    }
}

/// The acknowledged set after a sequence of `acknowledge` calls, at the level
/// of `Acknowledged::acked_set`: each call inserts its index, as the method's
/// contract states.
pub open spec fn acked_after(s: Set<int>, calls: Seq<int>) -> Set<int>
    decreases calls.len(),
{
    if calls.len() == 0 {
        s
    } else {
        acked_after(s.insert(calls[0]), calls.subrange(1, calls.len() as int))
    }
}

/// After any sequence of acknowledgements the acknowledged set holds exactly
/// the starting indices and the acknowledged ones: which interleaving
/// produced the calls is immaterial.
pub proof fn lemma_acknowledge_history(s: Set<int>, calls: Seq<int>)
    ensures
        forall|i: int|
            #[trigger] acked_after(s, calls).contains(i) == (s.contains(i) || calls.contains(i)),
    decreases calls.len(),
{
    if calls.len() > 0 {
        let rest = calls.subrange(1, calls.len() as int);
        lemma_acknowledge_history(s.insert(calls[0]), rest);
        assert forall|i: int|
            #[trigger] acked_after(s, calls).contains(i) == (s.contains(i) || calls.contains(
                i,
            )) by {
            assert(acked_after(s, calls) == acked_after(s.insert(calls[0]), rest));
            assert(acked_after(s.insert(calls[0]), rest).contains(i) == (s.insert(
                calls[0],
            ).contains(i) || rest.contains(i)));
            assert(s.insert(calls[0]).contains(i) == (s.contains(i) || i == calls[0]));
            if rest.contains(i) {
                let n = choose|n: int| 0 <= n < rest.len() && rest[n] == i;
                assert(calls[n + 1] == i);
                assert(calls.contains(i));
            }
            if i == calls[0] {
                assert(calls.contains(i));
            }
            if calls.contains(i) && i != calls[0] {
                let n = choose|n: int| 0 <= n < calls.len() && calls[n] == i;
                assert(n > 0);
                assert(rest[n - 1] == i);
                assert(rest.contains(i));
            }
        }
    }
}

/// Two call sequences that acknowledge the same indices leave the same set,
/// whatever their order or repetition.
pub proof fn lemma_acknowledge_order_immaterial(s: Set<int>, calls1: Seq<int>, calls2: Seq<int>)
    requires
        forall|i: int| calls1.contains(i) == calls2.contains(i),
    ensures
        acked_after(s, calls1) == acked_after(s, calls2),
{
    lemma_acknowledge_history(s, calls1);
    lemma_acknowledge_history(s, calls2);
    assert(acked_after(s, calls1) =~= acked_after(s, calls2));
}

/// Acknowledging the same index twice leaves the same set as acknowledging it
/// once.
pub proof fn lemma_acknowledge_idempotent(s: Set<int>, i: int)
    ensures
        s.insert(i).insert(i) == s.insert(i),
{
    assert(s.insert(i).insert(i) =~= s.insert(i));
}

/// Indices minted by successive `next_write` calls on a fresh tracker are
/// exactly `0, 1, 2, …`: distinct across any callers and covering a
/// contiguous prefix of the naturals. `counters` is the trace of the
/// tracker's counter, `minted` what each call handed out, as the method's
/// contract states.
pub proof fn lemma_next_write_prefix(counters: Seq<u64>, minted: Seq<u64>)
    requires
        counters.len() == minted.len() + 1,
        counters[0] == 0,
        forall|i: int|
            0 <= i < minted.len() ==> minted[i] == counters[i] && #[trigger] counters[i + 1]
                == counters[i] + 1,
    ensures
        forall|i: int| 0 <= i < minted.len() ==> minted[i] == i,
{
    assert forall|i: int| 0 <= i < minted.len() implies minted[i] == i by {
        assert(counters[i + 1] == counters[i] + 1);
        lemma_counter_value(counters, i);
    }
}

proof fn lemma_counter_value(counters: Seq<u64>, n: int)
    requires
        counters.len() >= 1,
        counters[0] == 0,
        forall|i: int|
            0 <= i < counters.len() - 1 ==> #[trigger] counters[i + 1] == counters[i] + 1,
        0 <= n < counters.len(),
    ensures
        counters[n] == n,
    decreases n,
{
    if n > 0 {
        lemma_counter_value(counters, n - 1);
        assert(counters[(n - 1) + 1] == counters[n - 1] + 1);
    }
}

/// The loaders of distinct threads own disjoint ranges, each range lies
/// within the record count, and adjacent ranges tile with no gap, so together
/// the loaders cover the prefix `[0, (record_count / thread_count) *
/// thread_count)` of the pre-load key range. `Workload::loader` gives thread
/// `t` the range `[c * t, c * (t + 1))` with `c = record_count /
/// thread_count`.
pub proof fn lemma_loader_partition(record_count: int, thread_count: int, t1: int, t2: int)
    by (nonlinear_arith)
    requires
        0 <= record_count,
        1 <= thread_count,
        0 <= t1 < thread_count,
        0 <= t2 < thread_count,
    ensures
        t1 < t2 ==> (record_count / thread_count) * (t1 + 1) <= (record_count / thread_count)
            * t2,
        (record_count / thread_count) * (t1 + 1) == (record_count / thread_count) * t1 + (
        record_count / thread_count),
        (record_count / thread_count) * thread_count <= record_count,
{
}

/// Acknowledged bits stay below the allocation counter: when every
/// acknowledged index was minted by `next_write` (so lies below the counter),
/// an `acknowledge` of another minted index keeps it that way, as its
/// contract changes nothing else. With `lemma_next_write_prefix` this is the
/// tracker's standing invariant: the counter is never behind a set bit.
pub proof fn lemma_acknowledged_below_counter(
    pre: Acknowledged,
    post: Acknowledged,
    index: u64,
)
    requires
        forall|i: int| pre.acked(i) ==> i < pre.assigned(),
        index < pre.assigned(),
        post.assigned() == pre.assigned(),
        forall|i: int| post.acked(i) == (pre.acked(i) || i == index),
    ensures
        forall|i: int| post.acked(i) ==> i < post.assigned(),
{
}

/// A key's external id depends on nothing but its sequence and its hashed
/// flag: equal inputs to `Key::new` give equal ids, on any machine and in any
/// process.
pub proof fn lemma_key_id_deterministic(k1: Key, k2: Key)
    requires
        k1.spec_sequence() == k2.spec_sequence(),
        k1.spec_hashed() == k2.spec_hashed(),
    ensures
        k1.spec_id() == k2.spec_id(),
{
}

} // verus!
