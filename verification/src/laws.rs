//! What holds of routing, swapping and the registry, whatever the routes,
//! the requests and the tenants are.

use vstd::prelude::*;
use crate::config::RouteEntry;
use crate::error::AppErrorView;
use crate::method::MethodView;
use crate::route_index::lookup;
use crate::router::{
    after_swap, compile, resolve, route_patterns, snapshot_of, SnapshotView, Table,
};
use crate::state::{lemma_registry_first, registry_of};

verus! {

/// A path that no pattern matches is reported as an unknown path, whatever
/// the method of the request is.
pub proof fn law_unknown_path(routes: Seq<(Seq<char>, Table)>, method: MethodView, path: Seq<char>)
    requires
        lookup(route_patterns(routes), path) is None,
    ensures
        resolve(routes, method, path) == Err::<
            (Seq<char>, Seq<(Seq<char>, Seq<char>)>),
            AppErrorView,
        >(AppErrorView::RouterPathNotFound(path)),
{
}

/// A path that a pattern matches, asked for with a method that the pattern
/// does not declare, is reported as a method that is not allowed, and never
/// as an unknown path.
pub proof fn law_method_distinction(
    routes: Seq<(Seq<char>, Table)>,
    method: MethodView,
    path: Seq<char>,
)
    requires
        lookup(route_patterns(routes), path) is Some,
        !routes[lookup(route_patterns(routes), path).unwrap().0].1.dom().contains(method),
    ensures
        resolve(routes, method, path) == Err::<
            (Seq<char>, Seq<(Seq<char>, Seq<char>)>),
            AppErrorView,
        >(AppErrorView::RouterMethodNotAllow(method)),
{
}

/// A request is answered with a handler exactly where a pattern matches
/// its path and declares its method; the handler is the one that the
/// pattern binds the method to.
pub proof fn law_handler_found(routes: Seq<(Seq<char>, Table)>, method: MethodView, path: Seq<char>)
    ensures
        resolve(routes, method, path) is Ok <==> (lookup(route_patterns(routes), path) is Some
            && routes[lookup(route_patterns(routes), path).unwrap().0].1.dom().contains(method)),
        resolve(routes, method, path) is Ok ==> resolve(routes, method, path)->Ok_0.0
            == routes[lookup(route_patterns(routes), path).unwrap().0].1[method],
{
}

/// A snapshot never mixes two versions: after a swap, the snapshot in force
/// is either the one that was in force before, whole, or the new code with
/// the routes compiled from the new declarations.
pub proof fn law_snapshot_consistency(
    current: SnapshotView,
    code: Seq<char>,
    routes: Seq<RouteEntry>,
)
    ensures
        after_swap(current, code, routes) == current || (compile(routes) is Ok && after_swap(
            current,
            code,
            routes,
        ) == SnapshotView { code, routes: compile(routes)->Ok_0 }),
{
}

/// After a swap whose routes compile, the snapshot in force is the new one,
/// whatever was in force before.
pub proof fn law_swap_visible(current: SnapshotView, code: Seq<char>, routes: Seq<RouteEntry>)
    requires
        compile(routes) is Ok,
    ensures
        snapshot_of(code, routes) is Ok,
        after_swap(current, code, routes) == snapshot_of(code, routes)->Ok_0,
        after_swap(current, code, routes).code == code,
{
}

/// A swap whose routes do not compile leaves the snapshot in force.
pub proof fn law_swap_failure_isolation(
    current: SnapshotView,
    code: Seq<char>,
    routes: Seq<RouteEntry>,
)
    requires
        compile(routes) is Err,
    ensures
        after_swap(current, code, routes) == current,
{
}

/// A host resolves to a tenant exactly where a tenant is registered under
/// it, and then to a tenant of that very host: never to the tenant of
/// another host.
pub proof fn law_host_isolation(hosts: Seq<Seq<char>>, host: Seq<char>)
    requires
        hosts.len() <= usize::MAX,
    ensures
        registry_of(hosts).dom().contains(host) <==> hosts.contains(host),
        registry_of(hosts).dom().contains(host) ==> 0 <= registry_of(hosts)[host] < hosts.len()
            && hosts[registry_of(hosts)[host] as int] == host,
{
    lemma_registry_first(hosts, hosts.len());
    if registry_of(hosts).dom().contains(host) {
        let i = choose|i: int| 0 <= i < hosts.len() && hosts[i] == host;
        assert(hosts.contains(host));
    }
    if hosts.contains(host) {
        let i = choose|i: int| 0 <= i < hosts.len() && hosts[i] == host;
        assert(0 <= i < hosts.len() && hosts[i] == host);
    }
}

} // verus!
