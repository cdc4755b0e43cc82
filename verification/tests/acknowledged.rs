use workgen::Acknowledged;

#[test]
fn fresh_tracker_has_empty_prefix() {
    let tracker = Acknowledged::new();
    assert_eq!(tracker.next_read(), 0);
}

#[test]
fn next_write_mints_sequential_indices() {
    let mut tracker = Acknowledged::new();
    for expected in 0u64..100 {
        assert_eq!(tracker.next_write(), expected);
    }
}

#[test]
fn partial_acknowledgement_stops_at_the_gap() {
    let mut tracker = Acknowledged::new();
    for index in [0u64, 1, 2, 4, 5] {
        tracker.acknowledge(index);
    }
    assert_eq!(tracker.next_read(), 3);
    tracker.acknowledge(3);
    assert_eq!(tracker.next_read(), 6);
}

#[test]
fn acknowledge_is_idempotent() {
    let mut tracker = Acknowledged::new();
    tracker.acknowledge(0);
    tracker.acknowledge(1);
    assert_eq!(tracker.next_read(), 2);
    tracker.acknowledge(1);
    assert_eq!(tracker.next_read(), 2);
    tracker.acknowledge(0);
    assert_eq!(tracker.next_read(), 2);
}

#[test]
fn acknowledgement_order_does_not_matter() {
    let mut forward = Acknowledged::new();
    for index in 0u64..32 {
        forward.acknowledge(index);
    }
    let mut backward = Acknowledged::new();
    for index in (0u64..32).rev() {
        backward.acknowledge(index);
    }
    assert_eq!(forward.next_read(), 32);
    assert_eq!(backward.next_read(), 32);
}

#[test]
fn acknowledgement_crosses_word_boundaries() {
    let mut tracker = Acknowledged::new();
    for index in 0u64..130 {
        tracker.acknowledge(index);
    }
    assert_eq!(tracker.next_read(), 130);
}

#[test]
fn writes_from_many_workers_cover_a_prefix() {
    // Eight workers interleave on one shared tracker, a thousand mints each;
    // the returned indices are exactly 0..8000. Acknowledging each worker's
    // indices in reverse order then completes the whole prefix.
    let mut tracker = Acknowledged::new();
    let mut per_worker: Vec<Vec<u64>> = vec![Vec::new(); 8];
    for round in 0..1000 {
        for worker in 0..8 {
            let _ = round;
            per_worker[worker].push(tracker.next_write());
        }
    }
    let mut all: Vec<u64> = per_worker.iter().flatten().copied().collect();
    all.sort();
    let expected: Vec<u64> = (0u64..8000).collect();
    assert_eq!(all, expected);

    for indices in &per_worker {
        for index in indices.iter().rev() {
            tracker.acknowledge(*index);
        }
    }
    assert_eq!(tracker.next_read(), 8000);
}

#[test]
fn default_matches_new() {
    let tracker = Acknowledged::default();
    assert_eq!(tracker.next_read(), 0);
}
