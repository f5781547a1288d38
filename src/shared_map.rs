//! The concurrent map that holds sessions and cooldown records.
//!
//! Every operation locks only the shard of the key it touches, so callers on
//! different keys never wait for each other. The map is shared by reference
//! between concurrent callers, so no contract here speaks of its contents:
//! each states only what holds of the single step taken under its lock.

use dashmap::DashMap;
use vstd::prelude::*;

verus! {

#[verifier::external_type_specification]
#[verifier::external_body]
#[verifier::reject_recursive_types(K)]
#[verifier::reject_recursive_types(V)]
#[verifier::reject_recursive_types(S)]
pub struct ExDashMap<K, V, S>(DashMap<K, V, S>);

/// Relies on DashMap::new: an empty map with the default hasher.
#[verifier::external_body]
pub(crate) fn new_map<V>() -> (m: DashMap<u64, V>) {
    DashMap::new()
}

} // verus!
