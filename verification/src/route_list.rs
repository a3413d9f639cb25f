//! The ordered map of the `indexmap` crate, as the routes of a project
//! come in it: from each path pattern to its declarations, in the order of
//! the project file.
//!
//! Nothing in this file is proved: it states what the crate's `IndexMap` is
//! trusted to hold.

use vstd::prelude::*;
use crate::config::ProjectRoute;

verus! {

#[verifier::external_type_specification]
#[verifier::external_body]
#[verifier::reject_recursive_types(K)]
#[verifier::reject_recursive_types(V)]
#[verifier::reject_recursive_types(S)]
pub struct ExIndexMap<K, V, S>(indexmap::IndexMap<K, V, S>);

/// What a map of routes holds: each path pattern with its declarations, in
/// the order of the map.
pub uninterp spec fn routes_entries(routes: indexmap::IndexMap<String, Vec<ProjectRoute>>) -> Seq<
    (String, Vec<ProjectRoute>),
>;

/// `IndexMap::len`: the number of entries.
#[verifier::external_body]
pub(crate) fn routes_len(routes: &indexmap::IndexMap<String, Vec<ProjectRoute>>) -> (n: usize)
    ensures
        n == routes_entries(*routes).len(),
{
    routes.len()
}

/// `IndexMap::get_index`: the entry at a position of the map's order, and
/// nothing beyond the last entry.
#[verifier::external_body]
pub(crate) fn routes_get(routes: &indexmap::IndexMap<String, Vec<ProjectRoute>>, at: usize) -> (entry:
    Option<(&String, &Vec<ProjectRoute>)>)
    ensures
        match entry {
            Some((pattern, methods)) => at < routes_entries(*routes).len() && *pattern
                == routes_entries(*routes)[at as int].0 && *methods == routes_entries(
                *routes,
            )[at as int].1,
            None => at >= routes_entries(*routes).len(),
        },
{
    routes.get_index(at)
}

} // verus!
