//! The concurrent map of the `dashmap` crate, as the tenant registry uses
//! it: from a host to the position of its tenant.
//!
//! Nothing in this file is proved: it states what the crate's `DashMap` is
//! trusted to do as a map.

use vstd::prelude::*;

verus! {

#[verifier::external_type_specification]
#[verifier::external_body]
#[verifier::reject_recursive_types(K)]
#[verifier::reject_recursive_types(V)]
#[verifier::reject_recursive_types(S)]
pub struct ExDashMap<K, V, S>(dashmap::DashMap<K, V, S>);

/// What a map holds: each host with the position stored under it.
pub uninterp spec fn index_entries(index: dashmap::DashMap<String, usize>) -> Map<Seq<char>, usize>;

/// `DashMap::new`: a map that holds nothing.
#[verifier::external_body]
pub(crate) fn index_new() -> (made: dashmap::DashMap<String, usize>)
    ensures
        index_entries(made) == (Map::<Seq<char>, usize>::empty()),
{
    dashmap::DashMap::new()
}

/// `DashMap::insert`: stores `at` under `host`, in place of what was stored
/// under it before.
#[verifier::external_body]
pub(crate) fn index_insert(index: &mut dashmap::DashMap<String, usize>, host: String, at: usize)
    ensures
        index_entries(*final(index)) == index_entries(*old(index)).insert(host@, at),
{
    index.insert(host, at);
}

/// `DashMap::get`: what is stored under `host`, if anything is.
#[verifier::external_body]
pub(crate) fn index_get(index: &dashmap::DashMap<String, usize>, host: &str) -> (at: Option<usize>)
    ensures
        at == if index_entries(*index).dom().contains(host@) {
            Some(index_entries(*index)[host@])
        } else {
            None
        },
{
    index.get(host).map(|entry| *entry.value())
}

} // verus!
