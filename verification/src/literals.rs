//! Inline constructors that build a populated map from a list of
//! key-value pairs, with insert-overwrite semantics.
//!
//! One constructor targets the fast, non-cryptographically-secure map of
//! [`crate::fast_map::KeyMap`]; the other targets the general-purpose
//! `std::collections::HashMap`.

use std::collections::HashMap;

use vstd::prelude::*;

use crate::fast_map::KeyMap;

verus! {

broadcast use vstd::std_specs::hash::group_hash_axioms;

/// The map a list of key-value pairs describes: each pair is inserted in
/// order, so a later pair with the same key overwrites an earlier one.
pub open spec fn map_of_pairs(pairs: Seq<(u64, u64)>) -> Map<u64, u64>
    decreases pairs.len(),
{
    if pairs.len() == 0 {
        Map::<u64, u64>::empty()
    } else {
        map_of_pairs(pairs.drop_last()).insert(pairs.last().0, pairs.last().1)
    }
}

/// Builds a [`KeyMap`] — the fast, non-cryptographically-secure map —
/// holding exactly the given key-value pairs, later duplicates
/// overwriting earlier ones.
pub fn ns_hashmap_from_pairs(pairs: &Vec<(u64, u64)>) -> (m: KeyMap)
    ensures
        m@ == map_of_pairs(pairs@),
{
    let mut m = KeyMap::new();
    let n = pairs.len();
    let mut i: usize = 0;
    while i < n
        invariant
            i <= n,
            n == pairs@.len(),
            m@ == map_of_pairs(pairs@.take(i as int)),
        decreases n - i,
    {
        let (k, v) = pairs[i];
        m.insert(k, v);
        proof {
            assert(pairs@.take(i as int + 1).drop_last() =~= pairs@.take(i as int));
        }
        i += 1;
    }
    proof {
        assert(pairs@.take(n as int) =~= pairs@);
    }
    m
}

/// Builds a general-purpose `std::collections::HashMap` holding exactly
/// the given key-value pairs, later duplicates overwriting earlier ones.
pub fn hashmap_from_pairs(pairs: &Vec<(u64, u64)>) -> (m: HashMap<u64, u64>)
    ensures
        m@ == map_of_pairs(pairs@),
{
    let mut m = HashMap::<u64, u64>::new();
    let n = pairs.len();
    let mut i: usize = 0;
    while i < n
        invariant
            i <= n,
            n == pairs@.len(),
            m@ == map_of_pairs(pairs@.take(i as int)),
        decreases n - i,
    {
        let (k, v) = pairs[i];
        m.insert(k, v);
        proof {
            assert(pairs@.take(i as int + 1).drop_last() =~= pairs@.take(i as int));
        }
        i += 1;
    }
    proof {
        assert(pairs@.take(n as int) =~= pairs@);
    }
    m
}

/// Lookup law for pair-list maps: a key is present exactly when some
/// pair mentions it, and it maps to the value of the last such pair.
pub proof fn lemma_map_of_pairs_lookup(pairs: Seq<(u64, u64)>, k: u64)
    requires
        exists|i: int| 0 <= i < pairs.len() && pairs[i].0 == k,
    ensures
        map_of_pairs(pairs).dom().contains(k),
        exists|i: int|
            {
                &&& 0 <= i < pairs.len()
                &&& pairs[i].0 == k
                &&& map_of_pairs(pairs)[k] == pairs[i].1
                &&& forall|j: int| i < j < pairs.len() ==> pairs[j].0 != k
            },
    decreases pairs.len(),
{
    if pairs.last().0 == k {
        assert(map_of_pairs(pairs)[k] == pairs.last().1);
    } else {
        let w = choose|i: int| 0 <= i < pairs.len() && pairs[i].0 == k;
        assert(w < pairs.len() - 1);
        assert(pairs.drop_last()[w] == pairs[w]);
        lemma_map_of_pairs_lookup(pairs.drop_last(), k);
        let i = choose|i: int|
            {
                &&& 0 <= i < pairs.drop_last().len()
                &&& pairs.drop_last()[i].0 == k
                &&& map_of_pairs(pairs.drop_last())[k] == pairs.drop_last()[i].1
                &&& forall|j: int|
                    i < j < pairs.drop_last().len() ==> pairs.drop_last()[j].0 != k
            };
        assert(pairs[i].0 == k && map_of_pairs(pairs)[k] == pairs[i].1);
        assert forall|j: int| i < j < pairs.len() implies pairs[j].0 != k by {
            if j < pairs.len() - 1 {
                assert(pairs.drop_last()[j] == pairs[j]);
            }
        }
    }
}

/// A key no pair mentions is absent from the pair-list map.
pub proof fn lemma_map_of_pairs_absent(pairs: Seq<(u64, u64)>, k: u64)
    requires
        forall|i: int| 0 <= i < pairs.len() ==> pairs[i].0 != k,
    ensures
        !map_of_pairs(pairs).dom().contains(k),
    decreases pairs.len(),
{
    if pairs.len() > 0 {
        lemma_map_of_pairs_absent(pairs.drop_last(), k);
    }
}

} // verus!
