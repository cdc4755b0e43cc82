use workgen::InsertOrder;
use workgen::Key;

#[test]
fn ordered_key_round_trips_sequence() {
    for seq in [0u64, 1, 5, 77, 1_000_000, (1u64 << 63) - 1] {
        let key = Key::new(InsertOrder::Ordered, seq);
        assert_eq!(key.sequence(), seq);
    }
}

#[test]
fn hashed_key_round_trips_sequence() {
    for seq in [0u64, 1, 5, 77, 1_000_000, (1u64 << 63) - 1] {
        let key = Key::new(InsertOrder::Hashed, seq);
        assert_eq!(key.sequence(), seq);
    }
}

#[test]
fn hashed_flag_distinguishes_keys() {
    let ordered = Key::new(InsertOrder::Ordered, 42);
    let hashed = Key::new(InsertOrder::Hashed, 42);
    assert_ne!(ordered, hashed);
    assert_eq!(ordered.sequence(), hashed.sequence());
}

#[test]
fn ordered_id_is_the_sequence() {
    let key = Key::new(InsertOrder::Ordered, 123456);
    assert_eq!(key.id(), 123456);
}

#[test]
fn hashed_id_is_deterministic() {
    let first = Key::new(InsertOrder::Hashed, 987);
    let second = Key::new(InsertOrder::Hashed, 987);
    assert_eq!(first.id(), second.id());
}

#[test]
fn hashed_id_scrambles_the_sequence() {
    // The id of a hashed key actually goes through the hash: for these
    // sequences it differs from the sequence itself, and different sequences
    // land on different ids.
    let mut ids = Vec::new();
    for seq in 0u64..64 {
        let key = Key::new(InsertOrder::Hashed, seq);
        let id = key.id();
        assert_ne!(id, seq);
        ids.push(id);
    }
    ids.sort();
    ids.dedup();
    assert_eq!(ids.len(), 64);
}
