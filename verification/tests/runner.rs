use rand::Rng;
use rand::SeedableRng;
use rand::rngs::StdRng;
use workgen::Acknowledged;
use workgen::Key;
use workgen::Operation;
use workgen::RequestDistribution;
use workgen::Runner;
use workgen::Workload;
use workgen::workload::preset_a;
use workgen::workload::preset_b;
use workgen::workload::preset_c;
use workgen::workload::preset_d;

/// The approximate Zipfian sampler with skew 0.99, as the harness layer runs
/// it: the verified runner validates every draw it produces.
struct Zipfian {
    count: f64,
    cutoff_1: f64,
    alpha: f64,
    eta: f64,
    zeta: f64,
}

fn zeta_static(n: u64, theta: f64) -> f64 {
    (1..=n).map(|i| 1.0 / (i as f64).powf(theta)).sum()
}

impl Zipfian {
    fn new(count: u64) -> Zipfian {
        let theta = 0.99f64;
        let alpha = 1.0 / (1.0 - theta);
        let zeta_n = zeta_static(count, theta);
        let zeta_2 = zeta_static(2, theta);
        let eta = (1.0 - (2.0 / count as f64).powf(1.0 - theta)) / (1.0 - zeta_2 / zeta_n);
        Zipfian {
            count: count as f64,
            cutoff_1: 1.0 + 0.5f64.powf(theta),
            alpha,
            eta,
            zeta: zeta_n,
        }
    }

    fn next(&self, rng: &mut StdRng) -> u64 {
        let u = rng.random::<f64>();
        let uz = u * self.zeta;
        if uz < 1.0 {
            return 0;
        }
        if uz < self.cutoff_1 {
            return 1;
        }
        (self.count * (self.eta * (u - 1.0) + 1.0).powf(self.alpha)) as u64
    }
}

/// Samples one read key the way the harness does for non-uniform request
/// distributions: draw, validate through the runner, resample on rejection.
fn read_key(runner: &Runner, zipfian: &Zipfian, rng: &mut StdRng, acked: &Acknowledged) -> Key {
    let bound = runner.read_key_bound(acked);
    loop {
        let draw = zipfian.next(rng);
        if let Some(key) = runner.key_for_draw(bound, draw) {
            return key;
        }
    }
}

#[test]
fn preset_c_emits_only_reads_within_the_preload() {
    let mut w = preset_c();
    w.record_count = 100;
    w.operation_count = 1000;
    let runner = w.runner();
    let acked = Acknowledged::new();
    let zipfian = Zipfian::new(runner.keys_total());
    let mut rng = StdRng::seed_from_u64(1);
    for _ in 0..1000 {
        let op = runner.next_operation(&mut rng);
        assert!(matches!(op, Operation::Read));
        let key = read_key(&runner, &zipfian, &mut rng, &acked);
        assert!(key.sequence() < 100);
    }
}

#[test]
fn preset_a_balances_reads_and_updates() {
    let mut w = preset_a();
    w.record_count = 100;
    w.operation_count = 10000;
    let runner = w.runner();
    let mut rng = StdRng::seed_from_u64(2);
    let mut reads = 0u32;
    let mut updates = 0u32;
    for _ in 0..10000 {
        match runner.next_operation(&mut rng) {
            Operation::Read => reads += 1,
            Operation::Update => updates += 1,
            other => panic!("unexpected operation {other:?}"),
        }
    }
    // Three sigma around an even split of 10000.
    assert!((4850..=5150).contains(&reads), "reads drawn: {reads}");
    assert_eq!(reads + updates, 10000);
}

#[test]
fn preset_d_insert_keys_are_unique_and_past_the_preload() {
    let mut w = preset_d();
    w.record_count = 100;
    w.operation_count = 1000;
    let mut acked = Acknowledged::new();
    let mut minted: Vec<u64> = Vec::new();
    for worker in 0..4 {
        let runner = w.runner();
        let mut rng = StdRng::seed_from_u64(100 + worker);
        for _ in 0..250 {
            if matches!(runner.next_operation(&mut rng), Operation::Insert) {
                let key = runner.next_key_insert(&mut acked);
                assert!(key.sequence() >= 100);
                minted.push(key.sequence());
            }
        }
    }
    let total = minted.len();
    assert!(total > 0);
    minted.sort();
    minted.dedup();
    assert_eq!(minted.len(), total);
}

#[test]
fn preset_b_skew_survives_the_hash_scramble() {
    // Zipfian requests over ten thousand records: the most-sampled one
    // percent of keys accounts for at least a fifth of all samples.
    let mut w = preset_b();
    w.record_count = 10000;
    w.operation_count = 0;
    let runner = w.runner();
    let acked = Acknowledged::new();
    let zipfian = Zipfian::new(runner.keys_total());
    let mut rng = StdRng::seed_from_u64(3);
    let mut counts = vec![0u32; 10000];
    for _ in 0..100000 {
        let key = read_key(&runner, &zipfian, &mut rng, &acked);
        counts[key.sequence() as usize] += 1;
    }
    counts.sort_by(|a, b| b.cmp(a));
    let top: u32 = counts[..100].iter().sum();
    assert!(top >= 20000, "top one percent holds {top} of 100000");
}

#[test]
fn latest_mode_prefers_recent_keys() {
    let mut w = preset_d();
    w.record_count = 1000;
    w.operation_count = 1000;
    let runner = w.runner();
    let acked = Acknowledged::new();
    let zipfian = Zipfian::new(runner.keys_total());
    let mut rng = StdRng::seed_from_u64(4);
    let bound = runner.read_key_bound(&acked);
    assert_eq!(bound, 999);
    let mut offset_counts = vec![0u32; 1000];
    for _ in 0..20000 {
        let key = read_key(&runner, &zipfian, &mut rng, &acked);
        let offset = bound - key.sequence();
        offset_counts[offset as usize] += 1;
    }
    // Offset zero (the newest key) is the single most common draw.
    let max = *offset_counts.iter().max().unwrap();
    assert_eq!(offset_counts[0], max);
    assert!(offset_counts[0] > 0);
}

#[test]
fn uniform_read_keys_stay_in_the_live_range() {
    let mut w = Workload::default();
    w.record_count = 50;
    w.operation_count = 200;
    w.insert_proportion = 50_000;
    w.request_distribution = RequestDistribution::Uniform;
    // The key universe covers 50 records plus twice the expected inserts.
    let runner = w.runner();
    assert_eq!(runner.keys_total(), 70);
    let mut acked = Acknowledged::new();
    let mut rng = StdRng::seed_from_u64(5);
    for _ in 0..1000 {
        let key = runner.next_key_read(&mut rng, &acked);
        assert!(key.sequence() < 50);
    }
    // Mint and acknowledge five inserts: the live range grows with the
    // acknowledged prefix.
    for _ in 0..5 {
        let key = runner.next_key_insert(&mut acked);
        runner.acknowledge(&mut acked, key);
    }
    let mut seen_new = false;
    for _ in 0..2000 {
        let key = runner.next_key_read(&mut rng, &acked);
        assert!(key.sequence() < 55);
        if key.sequence() >= 50 {
            seen_new = true;
        }
    }
    assert!(seen_new);
}

#[test]
fn preloaded_keys_are_never_tracked() {
    let mut w = Workload::default();
    w.record_count = 100;
    let runner = w.runner();
    let mut acked = Acknowledged::new();
    for seq in [0u64, 1, 50, 99] {
        runner.acknowledge(&mut acked, Key::new(w.insert_order, seq));
    }
    // Nothing reached the tracker: the acknowledged prefix is still empty.
    assert_eq!(acked.next_read(), 0);
    runner.acknowledge(&mut acked, Key::new(w.insert_order, 100));
    assert_eq!(acked.next_read(), 1);
}

#[test]
fn fields_stay_below_the_field_count() {
    let w = Workload::default();
    let runner = w.runner();
    let mut rng = StdRng::seed_from_u64(6);
    assert_eq!(runner.field_count(), 10);
    for _ in 0..1000 {
        assert!(runner.next_field(&mut rng) < 10);
    }
}

#[test]
fn scan_lengths_stay_in_their_range() {
    let mut w = Workload::default();
    w.min_scan_length = 5;
    w.max_scan_length = 25;
    let runner = w.runner();
    let mut rng = StdRng::seed_from_u64(8);
    for _ in 0..1000 {
        let len = runner.next_scan_length(&mut rng);
        assert!((5..=25).contains(&len));
    }
    assert_eq!(runner.scan_length_for_draw(0), 5);
    assert_eq!(runner.scan_length_for_draw(13), 18);
}

#[test]
fn zipfian_draws_are_validated_by_the_runner() {
    // The raw sampler can overshoot its range in the heavy tail; everything
    // the runner accepts is within the live bound.
    let mut w = preset_b();
    w.record_count = 100;
    let runner = w.runner();
    let zipfian = Zipfian::new(runner.keys_total());
    let mut rng = StdRng::seed_from_u64(9);
    let mut accepted = 0u32;
    for _ in 0..10000 {
        let draw = zipfian.next(&mut rng);
        if let Some(key) = runner.key_for_draw(99, draw) {
            assert!(key.sequence() <= 99);
            accepted += 1;
        }
    }
    assert!(accepted > 0);
}

#[test]
fn keys_total_adds_twice_the_expected_inserts() {
    let mut w = preset_d();
    w.record_count = 100;
    w.operation_count = 1000;
    let runner = w.runner();
    // 100 records + floor(0.05 * 1000) * 2 inserts.
    assert_eq!(runner.keys_total(), 200);
}

#[test]
fn field_length_is_the_placeholder_constant() {
    let w = Workload::default();
    let runner = w.runner();
    let mut rng = StdRng::seed_from_u64(10);
    assert_eq!(runner.next_field_length(&mut rng), 100);
}
