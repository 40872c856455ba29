use promriak::cache::{CacheCell, CacheRead, NANOS_PER_MILLI};

fn written(last_update: u64, value: &[u8]) -> CacheCell {
    let mut cell = CacheCell::new();
    cell.store(last_update, value.to_vec());
    cell
}

#[test]
fn a_new_cell_is_empty() {
    let cell = CacheCell::new();
    assert!(cell.last_update().is_none());
    assert!(matches!(cell.read(20_000, 0), CacheRead::Empty));
    assert!(matches!(cell.read(0, u64::MAX), CacheRead::Empty));
}

#[test]
fn bytes_are_served_one_millisecond_before_the_threshold() {
    let cell = written(0, b"snapshot");
    match cell.read(20_000, 19_999 * NANOS_PER_MILLI) {
        CacheRead::Fresh(bytes) => assert_eq!(bytes, b"snapshot".to_vec()),
        other => panic!("not served: {:?}", other),
    }
}

#[test]
fn bytes_are_stale_at_the_threshold_and_beyond() {
    let cell = written(0, b"snapshot");
    assert!(matches!(
        cell.read(20_000, 20_000 * NANOS_PER_MILLI),
        CacheRead::Stale { age: 20_000_000_000 }
    ));
    assert!(matches!(
        cell.read(20_000, 20_001 * NANOS_PER_MILLI),
        CacheRead::Stale { age: 20_001_000_000 }
    ));
    assert!(matches!(cell.read(20_000, u64::MAX), CacheRead::Stale { age: u64::MAX }));
}

#[test]
fn the_boundary_is_exact_to_the_nanosecond() {
    let cell = written(500, b"x");
    assert!(matches!(
        cell.read(20_000, 500 + 20_000 * NANOS_PER_MILLI - 1),
        CacheRead::Fresh(_)
    ));
    assert!(matches!(
        cell.read(20_000, 500 + 20_000 * NANOS_PER_MILLI),
        CacheRead::Stale { .. }
    ));
}

#[test]
fn a_threshold_of_zero_serves_nothing() {
    let cell = written(10, b"x");
    assert!(matches!(cell.read(0, 10), CacheRead::Stale { age: 0 }));
}

#[test]
fn a_clock_reading_before_the_write_counts_as_no_age() {
    let cell = written(1_000, b"x");
    assert!(matches!(cell.read(1, 0), CacheRead::Fresh(_)));
}

#[test]
fn the_largest_threshold_does_not_overflow() {
    let cell = written(0, b"x");
    assert!(matches!(cell.read(u64::MAX, u64::MAX), CacheRead::Fresh(_)));
}

#[test]
fn a_write_replaces_time_and_bytes_together() {
    let mut cell = written(5, b"old");
    cell.store(9, b"new".to_vec());
    assert_eq!(cell.last_update(), Some(9));
    match cell.read(1, 9) {
        CacheRead::Fresh(bytes) => assert_eq!(bytes, b"new".to_vec()),
        other => panic!("not served: {:?}", other),
    }
    assert!(matches!(cell.read(1, 9 + NANOS_PER_MILLI), CacheRead::Stale { age: 1_000_000 }));
}

#[test]
fn what_was_fresh_later_was_fresh_before() {
    let cell = written(100, b"x");
    assert!(matches!(cell.read(2, 100 + 1_999_999), CacheRead::Fresh(_)));
    assert!(matches!(cell.read(2, 100 + 1_000_000), CacheRead::Fresh(_)));
    assert!(matches!(cell.read(2, 100), CacheRead::Fresh(_)));
}
