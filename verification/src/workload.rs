//! The workload configuration: which operations to issue, in what mix, over
//! how many records, and with which request distribution.
//!
//! Operation proportions are held in parts per million, so a proportion of
//! `0.95` is written `950_000`.

use vstd::prelude::*;

use crate::key::InsertOrder;
use crate::key::SEQUENCE_LIMIT;
use crate::loader::Loader;
use crate::runner::RequestDistribution;
use crate::runner::ScanLengthDistribution;

verus! {

/// One whole: proportions are expressed as parts per million of this scale.
pub const PROPORTION_SCALE: u32 = 1_000_000;

/// Upper bound on the record and operation counts a configuration may name;
/// keeps every derived sequence number far below the key codec's limit.
pub const COUNT_LIMIT: u64 = 0x4000_0000;

/// A workload description, immutable once constructed.
#[derive(Copy, Clone, Debug, PartialEq, Eq, Structural)]
pub struct Workload {
    pub insert_order: InsertOrder,
    pub field_count: u64,
    pub record_count: u64,
    pub operation_count: u64,
    pub read_all_fields: bool,
    pub read_proportion: u32,
    pub update_proportion: u32,
    pub scan_proportion: u32,
    pub insert_proportion: u32,
    pub read_modify_write_proportion: u32,
    pub delete_proportion: u32,
    pub request_distribution: RequestDistribution,
    pub min_scan_length: u64,
    pub max_scan_length: u64,
    pub scan_length_distribution: ScanLengthDistribution,
}

impl Workload {
    /// The sum of the six operation proportions.
    pub open spec fn total_weight(self) -> int {
        self.read_proportion + self.update_proportion + self.scan_proportion
            + self.insert_proportion + self.read_modify_write_proportion + self.delete_proportion
    }

    /// The size of the key universe the run-phase samplers draw from: the
    /// pre-loaded records plus twice the expected number of inserts.
    pub open spec fn spec_keys_total(self) -> int {
        self.record_count + (self.insert_proportion * self.operation_count * 2) / (
        PROPORTION_SCALE as int)
    }

    /// What a well-formed configuration must satisfy: a field to pick, counts
    /// within range, proportions that are genuine parts-per-million values
    /// with at least one positive, ordered scan bounds, and a non-empty key
    /// universe.
    pub open spec fn valid(self) -> bool {
        &&& 1 <= self.field_count
        &&& self.record_count < COUNT_LIMIT
        &&& self.operation_count < COUNT_LIMIT
        &&& self.read_proportion <= PROPORTION_SCALE
        &&& self.update_proportion <= PROPORTION_SCALE
        &&& self.scan_proportion <= PROPORTION_SCALE
        &&& self.insert_proportion <= PROPORTION_SCALE
        &&& self.read_modify_write_proportion <= PROPORTION_SCALE
        &&& self.delete_proportion <= PROPORTION_SCALE
        &&& self.total_weight() > 0
        &&& self.min_scan_length <= self.max_scan_length
        &&& self.max_scan_length < COUNT_LIMIT
        &&& self.spec_keys_total() >= 1
    }

    /// The configuration every preset starts from.
    pub open spec fn spec_default() -> Workload {
        Workload {
            insert_order: InsertOrder::Hashed,
            field_count: 10,
            record_count: 1000,
            operation_count: 1000,
            read_all_fields: true,
            read_proportion: 950_000,
            update_proportion: 50_000,
            scan_proportion: 0,
            insert_proportion: 0,
            read_modify_write_proportion: 0,
            delete_proportion: 0,
            request_distribution: RequestDistribution::Zipfian,
            min_scan_length: 1,
            max_scan_length: 1000,
            scan_length_distribution: ScanLengthDistribution::Uniform,
        }
    }

    pub fn operation_count(&self) -> (r: u64)
        ensures
            r == self.operation_count,
    {
        self.operation_count
    }

    pub fn field_count(&self) -> (r: u64)
        ensures
            r == self.field_count,
    {
        self.field_count
    }

    pub fn record_count(&self) -> (r: u64)
        ensures
            r == self.record_count,
    {
        self.record_count
    }

    /// The load-phase cursor for one worker: thread `t` of `n` owns sequences
    /// `[c*t, c*(t+1))` where `c = record_count / n`. When the record count is
    /// not a multiple of the thread count, the remainder stays unloaded.
    pub fn loader(&self, thread_count: usize, thread_id: usize) -> (r: Loader)
        requires
            self.valid(),
            1 <= thread_count,
            thread_id < thread_count,
        ensures
            r.wf(),
            r.spec_order() == self.insert_order,
            r.spec_next() == self.record_count / (thread_count as u64) * (thread_id as u64),
            r.spec_last() == self.record_count / (thread_count as u64) * (thread_id as u64 + 1),
    {
        let insert_count = self.record_count / (thread_count as u64);
        proof {
            lemma_chunk_in_range(
                self.record_count as int,
                thread_count as int,
                thread_id as int,
            );
            assert(self.record_count < SEQUENCE_LIMIT);
        }
        let insert_start = insert_count * (thread_id as u64);
        Loader::make(self.insert_order, insert_start, insert_start + insert_count)
    }
}

impl Default for Workload {
    /// The defaults: hashed keys, ten fields, a thousand records and
    /// operations, reads and updates at 95 to 5, Zipfian requests.
    fn default() -> (r: Workload)
        ensures
            r == Workload::spec_default(),
            r.valid(),
    {
        Workload {
            insert_order: InsertOrder::Hashed,
            field_count: 10,
            record_count: 1000,
            operation_count: 1000,
            read_all_fields: true,
            read_proportion: 950_000,
            update_proportion: 50_000,
            scan_proportion: 0,
            insert_proportion: 0,
            read_modify_write_proportion: 0,
            delete_proportion: 0,
            request_distribution: RequestDistribution::Zipfian,
            min_scan_length: 1,
            max_scan_length: 1000,
            scan_length_distribution: ScanLengthDistribution::Uniform,
        }
    }
}

/// Half reads, half updates, Zipfian requests.
pub fn preset_a() -> (r: Workload)
    ensures
        r == (Workload {
            read_proportion: 500_000,
            update_proportion: 500_000,
            ..Workload::spec_default()
        }),
        r.valid(),
{
    let mut w = Workload::default();
    w.read_proportion = 500_000;
    w.update_proportion = 500_000;
    w
}

/// Mostly reads with a few updates, Zipfian requests.
pub fn preset_b() -> (r: Workload)
    ensures
        r == Workload::spec_default(),
        r.valid(),
{
    Workload::default()
}

/// Reads only, Zipfian requests.
pub fn preset_c() -> (r: Workload)
    ensures
        r == (Workload {
            read_proportion: 1_000_000,
            update_proportion: 0,
            ..Workload::spec_default()
        }),
        r.valid(),
{
    let mut w = Workload::default();
    w.read_proportion = 1_000_000;
    w.update_proportion = 0;
    w
}

/// Mostly reads with a few inserts, latest-biased requests.
pub fn preset_d() -> (r: Workload)
    ensures
        r == (Workload {
            read_proportion: 950_000,
            update_proportion: 0,
            insert_proportion: 50_000,
            request_distribution: RequestDistribution::Latest,
            ..Workload::spec_default()
        }),
        r.valid(),
{
    let mut w = Workload::default();
    w.read_proportion = 950_000;
    w.update_proportion = 0;
    w.insert_proportion = 50_000;
    w.request_distribution = RequestDistribution::Latest;
    w
}

/// A loader's chunk arithmetic stays within the record range: with
/// `c = record_count / thread_count`, even the last thread's range end
/// `c * thread_count` is at most `record_count`.
pub proof fn lemma_chunk_in_range(record_count: int, thread_count: int, thread_id: int)
    by (nonlinear_arith)
    requires
        0 <= record_count,
        1 <= thread_count,
        0 <= thread_id < thread_count,
    ensures
        0 <= (record_count / thread_count) * thread_id,
        (record_count / thread_count) * (thread_id + 1) == (record_count / thread_count)
            * thread_id + record_count / thread_count,
        (record_count / thread_count) * (thread_id + 1) <= record_count,
{
}

} // verus!
