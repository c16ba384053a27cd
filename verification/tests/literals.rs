use bevy_hectic_utils::hashmap_from_pairs;
use bevy_hectic_utils::ns_hashmap_from_pairs;

#[test]
fn ns_constructor_builds_the_described_map() {
    let map = ns_hashmap_from_pairs(&vec![(10, 1), (20, 2)]);
    assert_eq!(map.get(10), Some(1));
    assert_eq!(map.get(20), Some(2));
    assert_eq!(map.get(30), None);
    assert_eq!(map.len(), 2);
}

#[test]
fn std_constructor_builds_the_described_map() {
    let map = hashmap_from_pairs(&vec![(10, 1), (20, 2)]);
    assert_eq!(map.get(&10), Some(&1));
    assert_eq!(map.get(&20), Some(&2));
    assert_eq!(map.get(&30), None);
    assert_eq!(map.len(), 2);
}

#[test]
fn later_duplicate_keys_overwrite_earlier_ones() {
    let map = ns_hashmap_from_pairs(&vec![(10, 1), (20, 2), (10, 3)]);
    assert_eq!(map.get(10), Some(3));
    assert_eq!(map.len(), 2);

    let map = hashmap_from_pairs(&vec![(10, 1), (20, 2), (10, 3)]);
    assert_eq!(map.get(&10), Some(&3));
    assert_eq!(map.len(), 2);
}

#[test]
fn no_pairs_build_an_empty_map() {
    let map = ns_hashmap_from_pairs(&vec![]);
    assert_eq!(map.len(), 0);

    let map = hashmap_from_pairs(&vec![]);
    assert_eq!(map.len(), 0);
}
