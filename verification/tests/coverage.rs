use bevy_hectic_utils::assert_hash_map_coverage;
use bevy_hectic_utils::ns_hashmap_from_pairs;
use bevy_hectic_utils::validate_hash_map;
use bevy_hectic_utils::KeyMap;

#[test]
fn empty_enumeration_empty_map_is_covered() {
    let keys: Vec<u64> = vec![];
    let map = KeyMap::new();
    assert!(validate_hash_map(&map, &keys));
}

#[test]
fn single_key_present_is_covered() {
    let keys: Vec<u64> = vec![1];
    let map = ns_hashmap_from_pairs(&vec![(1, 42)]);
    assert!(validate_hash_map(&map, &keys));
}

#[test]
fn single_key_empty_map_is_not_covered() {
    let keys: Vec<u64> = vec![1];
    let map = KeyMap::new();
    assert!(!validate_hash_map(&map, &keys));
}

#[test]
fn single_key_wrong_key_is_not_covered() {
    let keys: Vec<u64> = vec![1];
    let map = ns_hashmap_from_pairs(&vec![(9, 42)]);
    assert!(!validate_hash_map(&map, &keys));
}

#[test]
fn three_keys_all_present_is_covered() {
    let keys: Vec<u64> = vec![1, 2, 3];
    let map = ns_hashmap_from_pairs(&vec![(1, 1), (2, 2), (3, 3)]);
    assert!(validate_hash_map(&map, &keys));
}

#[test]
fn three_keys_one_missing_is_not_covered() {
    let keys: Vec<u64> = vec![1, 2, 3];
    let map = ns_hashmap_from_pairs(&vec![(1, 1), (2, 2)]);
    assert!(!validate_hash_map(&map, &keys));
}

#[test]
fn three_keys_one_extra_is_not_covered() {
    let keys: Vec<u64> = vec![1, 2, 3];
    let map = ns_hashmap_from_pairs(&vec![(1, 1), (2, 2), (3, 3), (4, 4)]);
    assert!(!validate_hash_map(&map, &keys));
}

#[test]
fn count_match_with_wrong_identity_is_not_covered() {
    let keys: Vec<u64> = vec![1, 2, 3];
    let map = ns_hashmap_from_pairs(&vec![(1, 1), (2, 2), (9, 9)]);
    assert!(!validate_hash_map(&map, &keys));
}

#[test]
fn validation_is_idempotent() {
    let keys: Vec<u64> = vec![1, 2];
    let covered = ns_hashmap_from_pairs(&vec![(1, 1), (2, 2)]);
    let first: bool = validate_hash_map(&covered, &keys);
    let second: bool = validate_hash_map(&covered, &keys);
    assert_eq!(first, second);
    assert!(first);

    let uncovered = ns_hashmap_from_pairs(&vec![(1, 1)]);
    let first: bool = validate_hash_map(&uncovered, &keys);
    let second: bool = validate_hash_map(&uncovered, &keys);
    assert_eq!(first, second);
    assert!(!first);
}

#[test]
fn duplicate_inserts_leave_one_entry_per_key() {
    let keys: Vec<u64> = vec![5];
    let mut map = KeyMap::new();
    assert_eq!(map.insert(5, 1), None);
    assert_eq!(map.insert(5, 2), Some(1));
    assert_eq!(map.len(), 1);
    assert!(validate_hash_map(&map, &keys));
}

#[test]
fn assertion_form_accepts_a_covered_map() {
    let keys: Vec<u64> = vec![1, 2, 3];
    let map = ns_hashmap_from_pairs(&vec![(1, 10), (2, 20), (3, 30)]);
    assert_hash_map_coverage(&map, &keys);
}
