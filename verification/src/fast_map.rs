//! A map from key identifiers to value identifiers, backed by the fast
//! (non-cryptographically-secure) hash map that `bevy_utils` provides.
//!
//! The backing map is opaque to the verifier; its contents are named by
//! [`key_map_entries`], and every operation is a thin trusted wrapper
//! whose contract states what the backing map's documentation promises.

use vstd::prelude::*;

verus! {

/// A mapping from `u64` key identifiers to `u64` values, backed by
/// `bevy_utils::HashMap` (hashbrown with the fast `ahash` hasher).
#[verifier::external_body]
pub struct KeyMap {
    inner: bevy_utils::HashMap<u64, u64>,
}

/// The association a [`KeyMap`] currently holds, as a mathematical map.
pub uninterp spec fn key_map_entries(m: KeyMap) -> Map<u64, u64>;

/// The association with no entries at all.
pub open spec fn empty_entries() -> Map<u64, u64> {
    Map::empty()
}

impl View for KeyMap {
    type V = Map<u64, u64>;

    open spec fn view(&self) -> Map<u64, u64> {
        key_map_entries(*self)
    }
}

/// Relies on `bevy_utils::HashMap::default` (hashbrown): a freshly built
/// map holds no entries.
#[verifier::external_body]
fn empty_key_map() -> (m: KeyMap)
    ensures
        key_map_entries(m) == empty_entries(),
{
    KeyMap { inner: bevy_utils::HashMap::default() }
}

/// `n` counts the entries of `entries`, which form a finite association.
pub open spec fn counts_entries(entries: Map<u64, u64>, n: usize) -> bool {
    entries.dom().finite() && n == entries.dom().len()
}

/// Relies on hashbrown's `HashMap::len`: the number of entries in the
/// map; a hash map's key set is always finite.
#[verifier::external_body]
fn key_map_len(m: &KeyMap) -> (n: usize)
    ensures
        counts_entries(key_map_entries(*m), n),
{
    m.inner.len()
}

/// Relies on hashbrown's `HashMap::contains_key`: whether the map holds
/// an entry for the given key.
#[verifier::external_body]
fn key_map_contains(m: &KeyMap, k: u64) -> (r: bool)
    ensures
        r == key_map_entries(*m).dom().contains(k),
{
    m.inner.contains_key(&k)
}

/// Relies on hashbrown's `HashMap::get`: the value stored under the
/// given key, if any.
#[verifier::external_body]
fn key_map_get(m: &KeyMap, k: u64) -> (r: Option<u64>)
    ensures
        r == if key_map_entries(*m).dom().contains(k) {
            Some(key_map_entries(*m)[k])
        } else {
            None::<u64>
        },
{
    m.inner.get(&k).copied()
}

/// Relies on hashbrown's `HashMap::insert`: stores the pair, overwriting
/// any entry under the same key, and returns the overwritten value.
#[verifier::external_body]
fn key_map_insert(m: &mut KeyMap, k: u64, v: u64) -> (r: Option<u64>)
    ensures
        key_map_entries(*final(m)) == key_map_entries(*old(m)).insert(k, v),
        r == if key_map_entries(*old(m)).dom().contains(k) {
            Some(key_map_entries(*old(m))[k])
        } else {
            None::<u64>
        },
{
    m.inner.insert(k, v)
}

impl KeyMap {
    /// Builds an empty map.
    pub fn new() -> (m: KeyMap)
        ensures
            m@ == empty_entries(),
    {
        empty_key_map()
    }

    /// The number of entries the map holds.
    pub fn len(&self) -> (n: usize)
        ensures
            n == self@.len(),
            self@.dom().finite(),
    {
        key_map_len(self)
    }

    /// Whether the map holds an entry for `k`.
    pub fn contains_key(&self, k: u64) -> (r: bool)
        ensures
            r == self@.dom().contains(k),
    {
        key_map_contains(self, k)
    }

    /// The value stored under `k`, if any.
    pub fn get(&self, k: u64) -> (r: Option<u64>)
        ensures
            r == if self@.dom().contains(k) {
                Some(self@[k])
            } else {
                None::<u64>
            },
    {
        key_map_get(self, k)
    }

    /// Stores `v` under `k`, overwriting any earlier entry for `k`, and
    /// returns the value that was overwritten, if any.
    pub fn insert(&mut self, k: u64, v: u64) -> (r: Option<u64>)
        ensures
            final(self)@ == old(self)@.insert(k, v),
            r == if old(self)@.dom().contains(k) {
                Some(old(self)@[k])
            } else {
                None::<u64>
            },
    {
        key_map_insert(self, k, v)
    }
}

} // verus!
