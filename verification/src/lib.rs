//! Helpers for hash maps keyed by a closed, finite set of key identifiers.
//!
//! The centre of the crate is a coverage validator: given a map and the
//! exhaustive, duplicate-free enumeration of every valid key, it decides
//! whether the map holds exactly one entry per enumerated key — no
//! omissions, no extras. Around it stand inline constructors that build a
//! populated map from a list of key-value pairs, and a small repeat-count
//! type for timing loops.

pub mod coverage;
pub mod fast_map;
pub mod literals;
pub mod times;

pub use coverage::assert_hash_map_coverage;
pub use coverage::full_coverage;
pub use coverage::validate_hash_map;
pub use fast_map::KeyMap;
pub use literals::hashmap_from_pairs;
pub use literals::ns_hashmap_from_pairs;
pub use times::Times;
