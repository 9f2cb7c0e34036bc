use fnv::FnvHashMap;
use tarpc::util::{compact, compaction_due, compaction_target, SLOTS_PER_ENTRY};

#[test]
fn compaction_is_due_below_a_tenth() {
    assert_eq!(SLOTS_PER_ENTRY, 10);
    assert!(!compaction_due(0, 0, 10));
    assert!(compaction_due(0, 1, 10));
    assert!(!compaction_due(1, 9, 10));
    assert!(!compaction_due(1, 10, 10));
    assert!(compaction_due(1, 11, 10));
    assert!(!compaction_due(100, 1_000, 10));
    assert!(compaction_due(100, 1_001, 10));
    assert!(compaction_due(99, 1_000, 10));
    assert!(!compaction_due(5, 3, 10));
}

#[test]
fn compaction_goes_by_the_ratio_that_is_asked_for() {
    assert!(!compaction_due(5, 10, 2));
    assert!(compaction_due(5, 11, 2));
    assert!(!compaction_due(5, 5, 1));
    assert!(compaction_due(5, 6, 1));
    assert!(compaction_due(5, 1, 0));
    assert!(!compaction_due(5, 0, 0));
    assert_eq!(compaction_target(5, 2), 10);
    assert_eq!(compaction_target(5, 1), 5);
    assert_eq!(compaction_target(5, 0), 0);
}

#[test]
fn compaction_is_not_due_where_the_count_overflows() {
    assert!(!compaction_due(usize::MAX, usize::MAX, 10));
    assert!(!compaction_due(usize::MAX / 10 + 1, usize::MAX, 10));
    assert!(compaction_due(usize::MAX / 10 - 1, usize::MAX, 10));
}

#[test]
fn compaction_keeps_ten_times_the_entries() {
    assert_eq!(compaction_target(0, 10), 0);
    assert_eq!(compaction_target(1, 10), 10);
    assert_eq!(compaction_target(7, 10), 70);
    assert_eq!(compaction_target(usize::MAX / 10, 10), usize::MAX / 10 * 10);
    assert_eq!(compaction_target(usize::MAX / 10 + 1, 10), usize::MAX);
    assert_eq!(compaction_target(usize::MAX, 10), usize::MAX);
}

#[test]
fn compact_gives_back_the_room_of_a_sparse_map() {
    let mut map: FnvHashMap<u64, u64> = FnvHashMap::default();
    for key in 0..100_000u64 {
        map.insert(key, key * 3);
    }
    let peak = map.capacity();
    assert!(peak >= 100_000);
    for key in 5..100_000u64 {
        map.remove(&key);
    }
    // Removing gives no room back by itself.
    assert!(map.capacity() > peak / 2);
    compact(&mut map, SLOTS_PER_ENTRY);
    // Room in proportion to the five entries that are left, not to the peak.
    assert!(map.capacity() >= 5);
    assert!(map.capacity() < 200);
    assert_eq!(map.len(), 5);
    for key in 0..5u64 {
        assert_eq!(map.get(&key), Some(&(key * 3)));
    }
    assert_eq!(map.get(&5), None);
}

#[test]
fn compact_leaves_a_full_map_alone() {
    let mut map: FnvHashMap<u64, u64> = FnvHashMap::default();
    for key in 0..1_000u64 {
        map.insert(key, key + 1);
    }
    for key in 500..1_000u64 {
        map.remove(&key);
    }
    let before = map.capacity();
    assert!(!compaction_due(map.len(), before, SLOTS_PER_ENTRY));
    compact(&mut map, SLOTS_PER_ENTRY);
    assert_eq!(map.capacity(), before);
    assert_eq!(map.len(), 500);
    assert_eq!(map.get(&499), Some(&500));
}

#[test]
fn compact_empties_an_empty_map() {
    let mut map: FnvHashMap<u64, u64> = FnvHashMap::default();
    compact(&mut map, SLOTS_PER_ENTRY);
    assert_eq!(map.capacity(), 0);
    map.insert(1, 1);
    map.remove(&1);
    compact(&mut map, SLOTS_PER_ENTRY);
    assert_eq!(map.capacity(), 0);
    assert!(map.is_empty());
}
