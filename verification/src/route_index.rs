//! The radix-tree matcher of the `matchit` crate, as the router uses it.
//!
//! Nothing in this file is proved: it states what the crate's `Router` is
//! trusted to do. Patterns are compiled and matched by the crate; what a
//! pattern matches is not restated here but named, as a function of the
//! patterns and the path alone.

use vstd::prelude::*;
use crate::error::{RouteBuildError, RouteBuildErrorView};
use crate::text::occurrences;

verus! {

#[verifier::external_type_specification]
#[verifier::external_body]
#[verifier::reject_recursive_types(T)]
pub struct ExRouter<T>(matchit::Router<T>);

/// The most parameters that one pattern may hold.
pub const MAX_PARAMS: usize = 25;

/// The patterns that a router has accepted, in the order of their
/// insertion, each with the value stored under it.
pub uninterp spec fn router_entries(router: matchit::Router<usize>) -> Seq<(Seq<char>, usize)>;

/// Why a router that has accepted `accepted`, in this order, refuses
/// `pattern`; `None` where it accepts it.
pub uninterp spec fn insert_refusal(accepted: Seq<Seq<char>>, pattern: Seq<char>) -> Option<
    RouteBuildErrorView,
>;

/// What a router that has accepted `accepted`, in this order, finds for
/// `path`: the position in `accepted` of the pattern that matches, and the
/// parameters that the pattern captures, each with its name, in the order
/// of the pattern. `None` where no pattern matches.
pub uninterp spec fn lookup(accepted: Seq<Seq<char>>, path: Seq<char>) -> Option<
    (int, Seq<(Seq<char>, Seq<char>)>),
>;

/// The patterns of a router's entries.
pub open spec fn patterns_of(entries: Seq<(Seq<char>, usize)>) -> Seq<Seq<char>> {
    Seq::new(entries.len(), |i: int| entries[i].0)
}

/// The texts of a list of pairs of strings.
pub open spec fn pairs_view(pairs: Seq<(String, String)>) -> Seq<(Seq<char>, Seq<char>)> {
    Seq::new(pairs.len(), |i: int| (pairs[i].0@, pairs[i].1@))
}

/// `matchit::Router::new`: a router that holds no pattern.
#[verifier::external_body]
pub(crate) fn router_new() -> (router: matchit::Router<usize>)
    ensures
        router_entries(router) == Seq::<(Seq<char>, usize)>::empty(),
{
    matchit::Router::new()
}

/// `matchit::Router::insert`: the router with `pattern` added and `value`
/// stored under it, or the reason for which the pattern is refused. Whether
/// it is refused depends on the pattern and on the patterns accepted before
/// it. A refused insertion may leave the tree half-changed, so the router
/// is given up with it. The crate panics on a pattern with more than
/// `MAX_PARAMS` parameters; each parameter begins with a colon.
#[verifier::external_body]
pub(crate) fn router_insert(router: matchit::Router<usize>, pattern: &str, value: usize) -> (grown:
    Result<matchit::Router<usize>, RouteBuildError>)
    requires
        occurrences(pattern@, ':') <= MAX_PARAMS,
    ensures
        match insert_refusal(patterns_of(router_entries(router)), pattern@) {
            None => grown matches Ok(next) && router_entries(next) == router_entries(router).push(
                (pattern@, value),
            ),
            Some(refusal) => grown matches Err(error) && error@ == refusal,
        },
{
    let mut router = router;
    match router.insert(pattern, value) {
        Ok(()) => Ok(router),
        Err(matchit::InsertError::Conflict { with }) => Err(RouteBuildError::Conflict { with }),
        Err(matchit::InsertError::TooManyParams) => Err(RouteBuildError::TooManyParams),
        Err(matchit::InsertError::UnnamedParam) => Err(RouteBuildError::UnnamedParam),
        Err(matchit::InsertError::InvalidCatchAll) => Err(RouteBuildError::InvalidCatchAll),
        Err(_) => Err(RouteBuildError::Unrecognized),
    }
}

/// `matchit::Router::at`: the value stored under the pattern that matches
/// `path`, with the parameters that the pattern captures; `None` for every
/// failure to match. The value is that of one of the router's entries.
#[verifier::external_body]
pub(crate) fn router_at(router: &matchit::Router<usize>, path: &str) -> (found: Option<
    (usize, Vec<(String, String)>),
>)
    ensures
        match lookup(patterns_of(router_entries(*router)), path@) {
            None => found is None,
            Some((at, params)) => {
                &&& 0 <= at < router_entries(*router).len()
                &&& found is Some
                &&& found.unwrap().0 == router_entries(*router)[at].1
                &&& pairs_view(found.unwrap().1@) == params
            },
        },
{
    match router.at(path) {
        Ok(m) => Some(
            (*m.value, m.params.iter().map(|(k, v)| (k.to_string(), v.to_string())).collect()),
        ),
        Err(_) => None,
    }
}

} // verus!
