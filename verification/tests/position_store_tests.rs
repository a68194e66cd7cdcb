use solar_tracker::position_store::{
    adjusted_ticks, decode_snapshot, raw_count, PositionStore, Snapshot, StoredKeys,
    MIN_WRITE_INTERVAL_MS, SCHEMA_VERSION,
};

fn empty_keys() -> StoredKeys {
    StoredKeys { schema_version: None, encoder_ticks_adjusted: None, heading: None }
}

#[test]
fn persist_reboot_load_round_trip() {
    let mut keys = empty_keys();
    let mut store = PositionStore::new(0);
    assert!(store.persist(&mut keys, -12345, 90.0f32.to_bits(), 1000));
    // reboot: the keys survive, the store starts afresh
    let mut rebooted = PositionStore::new(0);
    let snapshot = rebooted.load(&keys, 5);
    assert_eq!(
        snapshot,
        Some(Snapshot { schema_version: SCHEMA_VERSION, encoder_ticks_adjusted: -12345 })
    );
    assert_eq!(keys.heading, Some(90.0f32.to_bits()));
    assert!(rebooted.is_loaded());
}

#[test]
fn schema_mismatch_is_uninitialised() {
    let keys = StoredKeys {
        schema_version: Some(SCHEMA_VERSION + 1),
        encoder_ticks_adjusted: Some(7),
        heading: None,
    };
    assert_eq!(decode_snapshot(&keys), None);
    let mut store = PositionStore::new(0);
    assert_eq!(store.load(&keys, 0), None);
}

#[test]
fn absent_keys_are_uninitialised() {
    assert_eq!(decode_snapshot(&empty_keys()), None);
    let only_schema = StoredKeys {
        schema_version: Some(SCHEMA_VERSION),
        encoder_ticks_adjusted: None,
        heading: Some(0),
    };
    assert_eq!(decode_snapshot(&only_schema), None);
}

#[test]
fn load_reads_once_per_boot() {
    let keys = StoredKeys {
        schema_version: Some(1),
        encoder_ticks_adjusted: Some(1000),
        heading: None,
    };
    let mut store = PositionStore::new(0);
    assert!(store.load(&keys, 10).is_some());
    assert_eq!(store.last_write_ms(), 10);
    assert_eq!(store.load(&keys, 20), None);
    assert_eq!(store.last_write_ms(), 10);
}

#[test]
fn hundred_calls_in_half_a_second_write_at_most_once() {
    let mut keys = empty_keys();
    let mut store = PositionStore::new(0);
    let mut writes = 0;
    for i in 0u64..100 {
        if store.persist(&mut keys, i as i32, 0, 998 + i * 5) {
            writes += 1;
        }
    }
    assert_eq!(writes, 1);
    assert_eq!(keys.encoder_ticks_adjusted, Some(1));
    assert_eq!(store.last_write_ms(), 1003);
}

#[test]
fn no_write_within_one_second_of_boot() {
    let mut keys = empty_keys();
    let mut store = PositionStore::new(5000);
    for i in 0u64..100 {
        assert!(!store.persist(&mut keys, 1, 2, 5000 + i * 5));
    }
    assert_eq!(keys, empty_keys());
    assert!(!store.persist_due(5999));
    assert!(store.persist_due(5000 + MIN_WRITE_INTERVAL_MS));
}

#[test]
fn adjusted_ticks_are_relative_to_home() {
    assert_eq!(adjusted_ticks(87_080), 0);
    assert_eq!(adjusted_ticks(88_080), 1000);
    assert_eq!(adjusted_ticks(0), -87_080);
    assert_eq!(adjusted_ticks(i64::MAX), i32::MAX);
    assert_eq!(adjusted_ticks(i64::MIN), i32::MIN);
    assert_eq!(raw_count(1000), 88_080);
    assert_eq!(adjusted_ticks(raw_count(-5)), -5);
}
