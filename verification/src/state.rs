//! The registry of tenants: from the host of a request to the tenant that
//! serves it.

use vstd::prelude::*;
use crate::error::{AppError, AppErrorView};
use crate::host_index::{index_entries, index_get, index_insert, index_new};
use crate::router::{AppRouter, TenentRouter};
use crate::text::{first_occurrence, text_before};

verus! {

/// The host of a `Host` header without its port: the text before the first
/// colon.
pub open spec fn host_without_port(header: Seq<char>) -> Seq<char> {
    header.take(first_occurrence(header, ':'))
}

/// The registry that the first `n` hosts make: each host with the position
/// of the last tenant registered under it.
pub open spec fn registry_first(hosts: Seq<Seq<char>>, n: nat) -> Map<Seq<char>, usize>
    decreases n,
{
    if n == 0 {
        Map::empty()
    } else {
        registry_first(hosts, (n - 1) as nat).insert(hosts[n - 1], (n - 1) as usize)
    }
}

/// The registry that a list of hosts makes.
pub open spec fn registry_of(hosts: Seq<Seq<char>>) -> Map<Seq<char>, usize> {
    registry_first(hosts, hosts.len())
}

/// A registry knows exactly the hosts of its first `n` tenants, and under
/// each host it holds a tenant of that host.
pub proof fn lemma_registry_first(hosts: Seq<Seq<char>>, n: nat)
    requires
        n <= hosts.len(),
        hosts.len() <= usize::MAX,
    ensures
        forall|host: Seq<char>| #[trigger]
            registry_first(hosts, n).dom().contains(host) <==> exists|i: int|
                0 <= i < n && hosts[i] == host,
        forall|host: Seq<char>| #[trigger]
            registry_first(hosts, n).dom().contains(host) ==> {
                &&& 0 <= registry_first(hosts, n)[host] < n
                &&& hosts[registry_first(hosts, n)[host] as int] == host
            },
    decreases n,
{
    if n > 0 {
        let before = registry_first(hosts, (n - 1) as nat);
        lemma_registry_first(hosts, (n - 1) as nat);
        assert forall|host: Seq<char>| #[trigger]
            registry_first(hosts, n).dom().contains(host) implies exists|i: int|
            0 <= i < n && hosts[i] == host by {
            if host == hosts[n - 1] {
            } else {
                assert(before.dom().contains(host));
                let i = choose|i: int| 0 <= i < n - 1 && hosts[i] == host;
                assert(0 <= i < n && hosts[i] == host);
            }
        }
        assert forall|host: Seq<char>|
            (exists|i: int| 0 <= i < n && hosts[i] == host) implies #[trigger] registry_first(
            hosts,
            n,
        ).dom().contains(host) by {
            let i = choose|i: int| 0 <= i < n && hosts[i] == host;
            if i < n - 1 {
                assert(before.dom().contains(host));
            }
        }
    }
}

/// The tenants of a server, each under its host.
pub struct AppState {
    router: dashmap::DashMap<String, usize>,
    tenants: Vec<TenentRouter>,
}

impl AppState {
    /// The map holds the registry of the tenants' hosts.
    #[verifier::type_invariant]
    spec fn well_formed(self) -> bool {
        index_entries(self.router) == registry_of(self.hosts())
    }

    /// The hosts of the tenants, in the order of their registration.
    pub closed spec fn hosts(self) -> Seq<Seq<char>> {
        Seq::new(self.tenants.len() as nat, |i: int| self.tenants[i].host_name())
    }

    /// The tenants, in the order of their registration.
    pub closed spec fn tenants(self) -> Seq<TenentRouter> {
        self.tenants@
    }

    /// The registry of `tenants`. Where two tenants have one host, the one
    /// that stands later in the list is served.
    pub fn new(tenants: Vec<TenentRouter>) -> (state: AppState)
        ensures
            state.tenants() == tenants@,
            state.hosts() == Seq::new(tenants.len() as nat, |i: int| tenants[i].host_name()),
    {
        let ghost hosts = Seq::new(tenants.len() as nat, |i: int| tenants[i].host_name());
        let mut router = index_new();
        let mut i: usize = 0;
        while i < tenants.len()
            invariant
                i <= tenants.len(),
                hosts == Seq::new(tenants.len() as nat, |i: int| tenants[i].host_name()),
                index_entries(router) == registry_first(hosts, i as nat),
            decreases tenants.len() - i,
        {
            index_insert(&mut router, tenants[i].host().to_owned(), i);
            i = i + 1;
        }
        AppState { router, tenants }
    }

    /// The tenant that serves the host of a `Host` header: the port of the
    /// header does not count. A host that no tenant is registered under is
    /// reported with its name.
    pub fn resolve(&self, header: &str) -> (found: Result<&TenentRouter, AppError>)
        ensures
            match registry_of(self.hosts()).get(host_without_port(header@)) {
                Some(at) => found matches Ok(tenant) && at < self.tenants().len() && *tenant
                    == self.tenants()[at as int] && tenant.host_name() == host_without_port(
                    header@,
                ),
                None => found matches Err(error) && error@ == AppErrorView::HostNotFound(
                    host_without_port(header@),
                ),
            },
    {
        proof {
            use_type_invariant(self);
            lemma_registry_first(self.hosts(), self.hosts().len());
        }
        let host = text_before(header, ':');
        match index_get(&self.router, host.as_str()) {
            Some(at) => {
                assert(registry_of(self.hosts()).dom().contains(host@));
                Ok(&self.tenants[at])
            },
            None => Err(AppError::HostNotFound(host)),
        }
    }
}

/// The snapshot that a request to the host of `header` is served from: the
/// one that the tenant of that host has published at this moment.
pub fn get_router_by_host(header: &str, state: &AppState) -> (found: Result<AppRouter, AppError>)
    ensures
        match registry_of(state.hosts()).get(host_without_port(header@)) {
            Some(_) => found is Ok,
            None => found matches Err(error) && error@ == AppErrorView::HostNotFound(
                host_without_port(header@),
            ),
        },
{
    let tenant = state.resolve(header)?;
    Ok(tenant.load())
}

} // verus!
