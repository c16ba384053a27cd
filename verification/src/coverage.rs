//! The coverage validator: does a map hold exactly one entry per member
//! of a closed key enumeration?

use vstd::prelude::*;

use crate::fast_map::KeyMap;

verus! {

/// A map's entries cover a key enumeration exactly when the map holds as
/// many entries as the enumeration has members and every enumerated key
/// is present among them. For a duplicate-free enumeration this rules
/// out omissions, duplicates and extras alike (see
/// [`lemma_full_coverage_exact`]).
pub open spec fn full_coverage(entries: Map<u64, u64>, keys: Seq<u64>) -> bool {
    &&& entries.dom().finite()
    &&& entries.dom().len() == keys.len()
    &&& forall|i: int| 0 <= i < keys.len() ==> entries.dom().contains(#[trigger] keys[i])
}

/// Decides whether `hash_map` holds exactly one entry per key in
/// `all_keys`, the exhaustive enumeration of every valid key.
///
/// Returns `true` if and only if the map's entry count equals the length
/// of the enumeration and every enumerated key has an entry; any count
/// mismatch or missing key yields `false`.
pub fn validate_hash_map(hash_map: &KeyMap, all_keys: &Vec<u64>) -> (r: bool)
    ensures
        r == full_coverage(hash_map@, all_keys@),
{
    if hash_map.len() != all_keys.len() {
        return false;
    }
    let n = all_keys.len();
    let mut i: usize = 0;
    while i < n
        invariant
            i <= n,
            n == all_keys@.len(),
            hash_map@.dom().finite(),
            hash_map@.dom().len() == all_keys@.len(),
            forall|j: int| 0 <= j < i ==> hash_map@.dom().contains(#[trigger] all_keys@[j]),
        decreases n - i,
    {
        if !hash_map.contains_key(all_keys[i]) {
            return false;
        }
        i += 1;
    }
    true
}

/// The assertion form of the validator: callers must have established
/// full coverage, and the body re-runs the check and proves that it
/// cannot fail.
pub fn assert_hash_map_coverage(hash_map: &KeyMap, all_keys: &Vec<u64>)
    requires
        full_coverage(hash_map@, all_keys@),
{
    let ok = validate_hash_map(hash_map, all_keys);
    assert(ok);
}

/// Exactness law: full coverage against a duplicate-free enumeration
/// pins the map's key set to exactly the enumerated keys — every member
/// is present, and no key outside the enumeration can hide in the map.
pub proof fn lemma_full_coverage_exact(entries: Map<u64, u64>, keys: Seq<u64>)
    requires
        keys.no_duplicates(),
        full_coverage(entries, keys),
    ensures
        entries.dom() == keys.to_set(),
{
    keys.unique_seq_to_set();
    assert forall|k: u64| keys.to_set().contains(k) implies entries.dom().contains(k) by {
        let i = choose|i: int| 0 <= i < keys.len() && keys[i] == k;
        assert(entries.dom().contains(keys[i]));
    }
    vstd::set_lib::lemma_len_subset(keys.to_set(), entries.dom());
    vstd::set_lib::lemma_subset_equality(keys.to_set(), entries.dom());
    assert(entries.dom() =~= keys.to_set());
}

/// Idempotence law: the verdict is a pure function of the map's entries
/// and the enumeration, so two validations of the same unmodified map
/// against the same enumeration agree.
pub proof fn lemma_validation_idempotent(
    first: bool,
    second: bool,
    entries: Map<u64, u64>,
    keys: Seq<u64>,
)
    requires
        first == full_coverage(entries, keys),
        second == full_coverage(entries, keys),
    ensures
        first == second,
{
}

} // verus!
