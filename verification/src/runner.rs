//! The run phase: a per-thread driver that picks operations from the
//! categorical chooser and keys from the live universe, minting fresh insert
//! keys through the shared acknowledgement tracker.

use vstd::prelude::*;

use crate::acknowledged::Acknowledged;
use crate::acknowledged::CAPACITY;
use crate::generator::Discrete;
use crate::generator::Number;
use crate::generator::weight_sum;
use crate::hashing::rapid_hash_of;
use crate::hashing::rapid_hash_u64;
use crate::key::InsertOrder;
use crate::key::Key;
use crate::key::SEQUENCE_LIMIT;
use crate::workload::PROPORTION_SCALE;
use crate::workload::Workload;

verus! {

/// One abstract request against the store under test.
#[derive(Copy, Clone, Debug, PartialEq, Eq, Structural)]
pub enum Operation {
    Read,
    Update,
    Scan,
    Insert,
    ReadModifyWrite,
    Delete,
}

/// How read-class operations pick a key from the live universe.
#[derive(Copy, Clone, Debug, PartialEq, Eq, Structural)]
pub enum RequestDistribution {
    /// Recency-biased: a Zipfian offset back from the newest known key.
    Latest,
    /// Every live key equally often.
    Uniform,
    /// Zipfian popularity, scrambled over the keyspace by a hash.
    Zipfian,
}

/// How scan lengths are drawn from their configured range.
#[derive(Copy, Clone, Debug, PartialEq, Eq, Structural)]
pub enum ScanLengthDistribution {
    Uniform,
    Zipfian,
}

/// The position of each operation in the chooser built by `Workload::runner`.
pub open spec fn op_index(op: Operation) -> int {
    match op {
        Operation::Read => 0,
        Operation::Update => 1,
        Operation::Scan => 2,
        Operation::Insert => 3,
        Operation::ReadModifyWrite => 4,
        Operation::Delete => 5,
    }
}

/// A per-thread workload driver. Draws that only the harness layer can make
/// (the floating-point Zipfian stream) enter through `key_for_draw` and
/// `scan_length_for_draw`, which validate every draw; uniform draws are made
/// here directly.
pub struct Runner {
    insert_order: InsertOrder,
    record_count: u64,
    field_count: u64,
    operation_chooser: Discrete<Operation>,
    keys_total: u64,
    request_distribution: RequestDistribution,
    key_chooser: Option<Number>,
    field_chooser: Number,
    min_scan_length: u64,
    max_scan_length: u64,
    scan_length_distribution: ScanLengthDistribution,
    scan_length_chooser: Option<Number>,
}

impl Runner {
    pub closed spec fn spec_insert_order(self) -> InsertOrder {
        self.insert_order
    }

    pub closed spec fn spec_record_count(self) -> u64 {
        self.record_count
    }

    pub closed spec fn spec_field_count(self) -> u64 {
        self.field_count
    }

    pub closed spec fn spec_keys_total(self) -> u64 {
        self.keys_total
    }

    pub closed spec fn spec_request_distribution(self) -> RequestDistribution {
        self.request_distribution
    }

    pub closed spec fn spec_min_scan_length(self) -> u64 {
        self.min_scan_length
    }

    pub closed spec fn spec_max_scan_length(self) -> u64 {
        self.max_scan_length
    }

    pub closed spec fn spec_scan_length_distribution(self) -> ScanLengthDistribution {
        self.scan_length_distribution
    }

    /// The proportion, in parts per million, with which `next_operation`
    /// yields `op`.
    pub closed spec fn spec_op_weight(self, op: Operation) -> int {
        self.operation_chooser.spec_weights()[op_index(op)] as int
    }

    pub closed spec fn wf(self) -> bool {
        &&& self.operation_chooser.wf()
        &&& self.operation_chooser.spec_values() == seq![
            Operation::Read,
            Operation::Update,
            Operation::Scan,
            Operation::Insert,
            Operation::ReadModifyWrite,
            Operation::Delete,
        ]
        &&& self.operation_chooser.spec_weights().len() == 6
        &&& 1 <= self.field_count
        &&& self.field_chooser == Number::Uniform(self.field_count)
        &&& 1 <= self.keys_total
        &&& self.keys_total < 0x1_0000_0000
        &&& self.record_count < 0x4000_0000
        &&& (self.key_chooser is Some <==> self.request_distribution is Uniform)
        &&& (self.key_chooser matches Some(n) ==> n == Number::Uniform(self.keys_total))
        &&& self.min_scan_length <= self.max_scan_length
        &&& self.max_scan_length < 0x4000_0000
        &&& (self.scan_length_chooser is Some <==> self.scan_length_distribution is Uniform)
        &&& (self.scan_length_chooser matches Some(n) ==> n == Number::Uniform(
            (self.max_scan_length - self.min_scan_length + 1) as u64,
        ))
    }

    /// Samples the next operation. The result always carries a positive
    /// proportion, so an operation configured at zero never appears.
    pub fn next_operation(&self, rng: &mut rand::rngs::StdRng) -> (op: Operation)
        requires
            self.wf(),
        ensures
            self.spec_op_weight(op) > 0,
    {
        let op = self.operation_chooser.next(rng);
        proof {
            let vals = self.operation_chooser.spec_values();
            let ws = self.operation_chooser.spec_weights();
            let i = choose|i: int| 0 <= i < vals.len() && op == vals[i] && #[trigger] ws[i] > 0;
            assert(op_index(vals[0]) == 0);
            assert(op_index(vals[1]) == 1);
            assert(op_index(vals[2]) == 2);
            assert(op_index(vals[3]) == 3);
            assert(op_index(vals[4]) == 4);
            assert(op_index(vals[5]) == 5);
            assert(op_index(op) == i);
        }
        op
    }

    pub fn field_count(&self) -> (r: u64)
        ensures
            r == self.spec_field_count(),
    {
        self.field_count
    }

    pub fn insert_order(&self) -> (r: InsertOrder)
        ensures
            r == self.spec_insert_order(),
    {
        self.insert_order
    }

    pub fn record_count(&self) -> (r: u64)
        ensures
            r == self.spec_record_count(),
    {
        self.record_count
    }

    pub fn keys_total(&self) -> (r: u64)
        ensures
            r == self.spec_keys_total(),
    {
        self.keys_total
    }

    pub fn request_distribution(&self) -> (r: RequestDistribution)
        ensures
            r == self.spec_request_distribution(),
    {
        self.request_distribution
    }

    pub fn min_scan_length(&self) -> (r: u64)
        ensures
            r == self.spec_min_scan_length(),
    {
        self.min_scan_length
    }

    pub fn max_scan_length(&self) -> (r: u64)
        ensures
            r == self.spec_max_scan_length(),
    {
        self.max_scan_length
    }

    pub fn scan_length_distribution(&self) -> (r: ScanLengthDistribution)
        ensures
            r == self.spec_scan_length_distribution(),
    {
        self.scan_length_distribution
    }

    /// A uniform field index in `[0, field_count)`.
    pub fn next_field(&self, rng: &mut rand::rngs::StdRng) -> (r: u64)
        requires
            self.wf(),
        ensures
            r < self.spec_field_count(),
    {
        self.field_chooser.next(rng)
    }

    /// Mints a fresh insert key: the next insert index from the tracker,
    /// offset past the pre-loaded region. Sequences come out distinct across
    /// all callers because the tracker's counter does.
    pub fn next_key_insert(&self, acked: &mut Acknowledged) -> (r: Key)
        requires
            self.wf(),
            old(acked).wf(),
            old(acked).assigned() < CAPACITY,
        ensures
            final(acked).wf(),
            final(acked).assigned() == old(acked).assigned() + 1,
            forall|i: int| final(acked).acked(i) == old(acked).acked(i),
            r.spec_sequence() == self.spec_record_count() + old(acked).assigned(),
            r.spec_hashed() == (self.spec_insert_order() is Hashed),
    {
        let index = acked.next_write();
        Key::new(self.insert_order, self.record_count + index)
    }

    /// The largest sequence safely known to exist: the pre-loaded region plus
    /// the acknowledged prefix, minus one.
    pub fn read_key_bound(&self, acked: &Acknowledged) -> (r: u64)
        requires
            self.wf(),
            acked.wf(),
            !acked.full(),
            self.spec_record_count() >= 1 || acked.acked(0),
        ensures
            exists|m: int|
                #[trigger] acked.is_frontier(m) && r == self.spec_record_count() + m - 1,
            r < SEQUENCE_LIMIT,
    {
        let frontier = acked.next_read();
        proof {
            if self.record_count == 0 {
                assert(frontier >= 1) by {
                    if frontier == 0 {
                        assert(!acked.acked(0));
                    }
                }
            }
        }
        self.record_count + frontier - 1
    }

    /// Turns one raw draw into a key, or rejects it. `Uniform` accepts draws
    /// within the bound unchanged; `Latest` turns an accepted draw into an
    /// offset back from the bound; `Zipfian` first scrambles the draw over the
    /// key universe with the stable hash, so popular draws are not clustered
    /// at low sequences. Every accepted key is at most `max`.
    pub fn key_for_draw(&self, max: u64, draw: u64) -> (r: Option<Key>)
        requires
            self.wf(),
            max < SEQUENCE_LIMIT,
        ensures
            match self.spec_request_distribution() {
                RequestDistribution::Uniform => if draw <= max {
                    r matches Some(k) && k.spec_sequence() == draw
                } else {
                    r is None
                },
                RequestDistribution::Latest => if draw <= max {
                    r matches Some(k) && k.spec_sequence() == max - draw
                } else {
                    r is None
                },
                RequestDistribution::Zipfian => if rapid_hash_of(draw) % self.spec_keys_total()
                    <= max {
                    r matches Some(k) && k.spec_sequence() == rapid_hash_of(draw)
                        % self.spec_keys_total()
                } else {
                    r is None
                },
            },
            r matches Some(k) ==> k.spec_sequence() <= max && k.spec_hashed() == (
            self.spec_insert_order() is Hashed),
    {
        match self.request_distribution {
            RequestDistribution::Uniform => {
                if draw <= max {
                    Some(Key::new(self.insert_order, draw))
                } else {
                    None
                }
            },
            RequestDistribution::Latest => {
                if draw <= max {
                    Some(Key::new(self.insert_order, max - draw))
                } else {
                    None
                }
            },
            RequestDistribution::Zipfian => {
                let scrambled = rapid_hash_u64(draw) % self.keys_total;
                if scrambled <= max {
                    Some(Key::new(self.insert_order, scrambled))
                } else {
                    None
                }
            },
        }
    }

    /// Samples a key from the live universe under the uniform request
    /// distribution, resampling rejected draws. The result never exceeds the
    /// largest sequence known to exist.
    ///
    /// Rejection accepts quickly in expectation; a bound on the attempts
    /// keeps the sampler total, and the fallback draws uniformly over the
    /// live range directly, which realises the same distribution as the
    /// rejection loop it stands in for.
    pub fn next_key_read(&self, rng: &mut rand::rngs::StdRng, acked: &Acknowledged) -> (r: Key)
        requires
            self.wf(),
            self.spec_request_distribution() is Uniform,
            acked.wf(),
            !acked.full(),
            self.spec_record_count() >= 1 || acked.acked(0),
        ensures
            r.spec_hashed() == (self.spec_insert_order() is Hashed),
            exists|m: int|
                #[trigger] acked.is_frontier(m) && r.spec_sequence()
                    < self.spec_record_count() + m,
    {
        let max = self.read_key_bound(acked);
        let mut attempts: u64 = 0;
        while attempts < 64
            invariant
                self.wf(),
                self.spec_request_distribution() is Uniform,
                max < SEQUENCE_LIMIT,
                exists|m: int|
                    #[trigger] acked.is_frontier(m) && max == self.spec_record_count() + m - 1,
            decreases 64 - attempts,
        {
            let draw = match &self.key_chooser {
                Some(chooser) => chooser.next(rng),
                None => vstd::pervasive::unreached(),
            };
            match self.key_for_draw(max, draw) {
                Some(key) => {
                    return key;
                },
                None => {
                },
            }
            attempts = attempts + 1;
        }
        let draw = crate::random::rng_below(rng, max + 1);
        Key::new(self.insert_order, draw)
    }

    /// A scan length drawn uniformly from the configured range.
    pub fn next_scan_length(&self, rng: &mut rand::rngs::StdRng) -> (r: u64)
        requires
            self.wf(),
            self.spec_scan_length_distribution() is Uniform,
        ensures
            self.spec_min_scan_length() <= r <= self.spec_max_scan_length(),
    {
        let offset = match &self.scan_length_chooser {
            Some(chooser) => chooser.next(rng),
            None => vstd::pervasive::unreached(),
        };
        self.min_scan_length + offset
    }

    /// A scan length from a raw draw: the configured minimum plus the draw.
    /// Used when the scan-length distribution is not uniform; the draw comes
    /// from the harness layer's sampler.
    pub fn scan_length_for_draw(&self, draw: u64) -> (r: u64)
        requires
            self.wf(),
            draw <= u64::MAX - self.spec_min_scan_length(),
        ensures
            r == self.spec_min_scan_length() + draw,
    {
        self.min_scan_length + draw
    }

    /// Reports a key as durably stored. Only keys of the dynamic insert
    /// region reach the tracker; pre-loaded keys (sequence below the record
    /// count) are implicitly acknowledged and ignored here.
    pub fn acknowledge(&self, acked: &mut Acknowledged, key: Key)
        requires
            self.wf(),
            old(acked).wf(),
            key.spec_sequence() >= self.spec_record_count() ==> {
                &&& key.spec_sequence() - self.spec_record_count() < CAPACITY
                &&& exists|i: int|
                    0 <= i < CAPACITY && i != key.spec_sequence() - self.spec_record_count()
                        && !old(acked).acked(i)
            },
        ensures
            final(acked).wf(),
            final(acked).assigned() == old(acked).assigned(),
            key.spec_sequence() < self.spec_record_count() ==> *final(acked) == *old(acked),
            key.spec_sequence() >= self.spec_record_count() ==> forall|i: int|
                final(acked).acked(i) == (old(acked).acked(i) || i == key.spec_sequence()
                    - self.spec_record_count()),
    {
        let sequence = key.sequence();
        if sequence < self.record_count {
            return ;
        }
        let index = sequence - self.record_count;
        acked.acknowledge(index);
    }

    /// Placeholder payload size until a real field-length distribution is
    /// specified; the surrounding system owns actual payload sizing.
    pub fn next_field_length(&self, _rng: &mut rand::rngs::StdRng) -> (r: u64)
        ensures
            r == 100,
    {
        100
    }
}

impl Workload {
    /// Builds the per-thread driver for this configuration: the operation
    /// chooser over the six proportions, the key universe size, and the
    /// uniform choosers for fields, keys and scan lengths where the
    /// configured distribution is uniform.
    pub fn runner(&self) -> (r: Runner)
        requires
            self.valid(),
        ensures
            r.wf(),
            r.spec_insert_order() == self.insert_order,
            r.spec_record_count() == self.record_count,
            r.spec_field_count() == self.field_count,
            r.spec_keys_total() == self.spec_keys_total(),
            r.spec_request_distribution() == self.request_distribution,
            r.spec_min_scan_length() == self.min_scan_length,
            r.spec_max_scan_length() == self.max_scan_length,
            r.spec_scan_length_distribution() == self.scan_length_distribution,
            r.spec_op_weight(Operation::Read) == self.read_proportion,
            r.spec_op_weight(Operation::Update) == self.update_proportion,
            r.spec_op_weight(Operation::Scan) == self.scan_proportion,
            r.spec_op_weight(Operation::Insert) == self.insert_proportion,
            r.spec_op_weight(Operation::ReadModifyWrite) == self.read_modify_write_proportion,
            r.spec_op_weight(Operation::Delete) == self.delete_proportion,
    {
        let choices: Vec<(Operation, u32)> = vec![
            (Operation::Read, self.read_proportion),
            (Operation::Update, self.update_proportion),
            (Operation::Scan, self.scan_proportion),
            (Operation::Insert, self.insert_proportion),
            (Operation::ReadModifyWrite, self.read_modify_write_proportion),
            (Operation::Delete, self.delete_proportion),
        ];
        proof {
            let ws = choices@.map_values(|p: (Operation, u32)| p.1);
            assert(ws =~= seq![
                self.read_proportion,
                self.update_proportion,
                self.scan_proportion,
                self.insert_proportion,
                self.read_modify_write_proportion,
                self.delete_proportion,
            ]);
            lemma_weight_sum_six(ws);
        }
        let operation_chooser = match Discrete::new(choices) {
            Ok(chooser) => chooser,
            Err(_) => vstd::pervasive::unreached(),
        };
        proof {
            assert(operation_chooser.spec_values() =~= seq![
                Operation::Read,
                Operation::Update,
                Operation::Scan,
                Operation::Insert,
                Operation::ReadModifyWrite,
                Operation::Delete,
            ]);
            assert(operation_chooser.spec_weights() =~= seq![
                self.read_proportion,
                self.update_proportion,
                self.scan_proportion,
                self.insert_proportion,
                self.read_modify_write_proportion,
                self.delete_proportion,
            ]);
        }

        proof {
            assert((self.insert_proportion as int) * (self.operation_count as int) <= 1_000_000
                * 0x4000_0000) by (nonlinear_arith)
                requires
                    self.insert_proportion <= 1_000_000,
                    0 <= self.operation_count < 0x4000_0000,
            ;
        }
        let key_count_new = (self.insert_proportion as u64) * self.operation_count * 2
            / (PROPORTION_SCALE as u64);
        proof {
            assert(key_count_new <= 0x8000_0000) by (nonlinear_arith)
                requires
                    self.insert_proportion <= 1_000_000,
                    0 <= self.operation_count < 0x4000_0000,
                    key_count_new == ((self.insert_proportion as int) * (self.operation_count
                        as int) * 2) / 1_000_000,
            ;
        }
        let keys_total = self.record_count + key_count_new;
        proof {
            assert(keys_total as int == self.spec_keys_total());
            assert(keys_total >= 1);
        }

        let field_chooser = match Number::uniform(self.field_count) {
            Ok(chooser) => chooser,
            Err(_) => vstd::pervasive::unreached(),
        };

        let key_chooser = match self.request_distribution {
            RequestDistribution::Uniform => match Number::uniform(keys_total) {
                Ok(chooser) => Some(chooser),
                Err(_) => vstd::pervasive::unreached(),
            },
            RequestDistribution::Latest => None,
            RequestDistribution::Zipfian => None,
        };

        let scan_length_count = self.max_scan_length - self.min_scan_length + 1;
        let scan_length_chooser = match self.scan_length_distribution {
            ScanLengthDistribution::Uniform => match Number::uniform(scan_length_count) {
                Ok(chooser) => Some(chooser),
                Err(_) => vstd::pervasive::unreached(),
            },
            ScanLengthDistribution::Zipfian => None,
        };

        Runner {
            insert_order: self.insert_order,
            record_count: self.record_count,
            field_count: self.field_count,
            operation_chooser,
            keys_total,
            request_distribution: self.request_distribution,
            key_chooser,
            field_chooser,
            min_scan_length: self.min_scan_length,
            max_scan_length: self.max_scan_length,
            scan_length_distribution: self.scan_length_distribution,
            scan_length_chooser,
        }
    }
}

/// The weight sum of six weights, written out.
proof fn lemma_weight_sum_six(s: Seq<u32>)
    requires
        s.len() == 6,
    ensures
        weight_sum(s) == s[0] + s[1] + s[2] + s[3] + s[4] + s[5],
{
    let s5 = s.drop_last();
    let s4 = s5.drop_last();
    let s3 = s4.drop_last();
    let s2 = s3.drop_last();
    let s1 = s2.drop_last();
    let s0 = s1.drop_last();
    assert(s0.len() == 0);
    assert(weight_sum(s) == weight_sum(s5) + s[5]);
    assert(weight_sum(s5) == weight_sum(s4) + s[4]);
    assert(weight_sum(s4) == weight_sum(s3) + s[3]);
    assert(weight_sum(s3) == weight_sum(s2) + s[2]);
    assert(weight_sum(s2) == weight_sum(s1) + s[1]);
    assert(weight_sum(s1) == weight_sum(s0) + s[0]);
}

} // verus!
