//! The route table of one tenant: how it is compiled from the declarations
//! of a project, and how a request is matched against it.

use vstd::prelude::*;
use std::sync::Arc;
use crate::cell::{
    cell_holds, cell_load, cell_new, cell_share, cell_store, reader_load, reader_on, SnapshotCell,
    SnapshotReader,
};
use crate::config::{methods_view, routes_view, ProjectRoute, ProjectRouters, RouteEntry};
use crate::route_list::{routes_get, routes_len};
use crate::error::{AppError, AppErrorView, RouteBuildError, RouteBuildErrorView};
use crate::method::{Method, MethodRoute, MethodView};
use crate::route_index::{
    insert_refusal, lookup, pairs_view, patterns_of, router_at, router_entries, router_insert,
    router_new, MAX_PARAMS,
};
use crate::text::{count_char, occurrences, same_text};

verus! {

/// A method table as a mathematical value.
pub type Table = Map<MethodView, Seq<char>>;

/// The method table that the first `n` declarations of a path make, where
/// a later declaration of a method replaces an earlier one; the first
/// declaration of an unsupported method is the error.
pub open spec fn table_first(methods: Seq<(MethodView, Seq<char>)>, n: nat) -> Result<
    Table,
    RouteBuildErrorView,
>
    decreases n,
{
    if n == 0 {
        Ok(Map::empty())
    } else {
        match table_first(methods, (n - 1) as nat) {
            Err(error) => Err(error),
            Ok(table) => {
                let (method, handler) = methods[n - 1];
                if method.supported() {
                    Ok(table.insert(method, handler))
                } else {
                    Err(RouteBuildErrorView::UnsupportedMethod(method.name()))
                }
            },
        }
    }
}

/// The method table that the declarations of a path make.
pub open spec fn table_of(methods: Seq<(MethodView, Seq<char>)>) -> Result<
    Table,
    RouteBuildErrorView,
> {
    table_first(methods, methods.len())
}

/// The patterns of compiled routes.
pub open spec fn route_patterns(routes: Seq<(Seq<char>, Table)>) -> Seq<Seq<char>> {
    Seq::new(routes.len(), |i: int| routes[i].0)
}

/// What becomes of one entry when the patterns `accepted` stand before it:
/// its method table, or the reason for which it is refused.
pub open spec fn entry_outcome(accepted: Seq<Seq<char>>, entry: RouteEntry) -> Result<
    Table,
    RouteBuildErrorView,
> {
    match table_of(entry.1) {
        Err(error) => Err(error),
        Ok(table) => {
            if occurrences(entry.0, ':') > MAX_PARAMS {
                Err(RouteBuildErrorView::ParamLimit)
            } else {
                match insert_refusal(accepted, entry.0) {
                    Some(refusal) => Err(refusal),
                    None => Ok(table),
                }
            }
        },
    }
}

/// The routes that the first `n` entries compile to, each pattern with its
/// method table; the error of the first entry that is refused.
pub open spec fn compile_first(entries: Seq<RouteEntry>, n: nat) -> Result<
    Seq<(Seq<char>, Table)>,
    RouteBuildErrorView,
>
    decreases n,
{
    if n == 0 {
        Ok(Seq::empty())
    } else {
        match compile_first(entries, (n - 1) as nat) {
            Err(error) => Err(error),
            Ok(done) => match entry_outcome(route_patterns(done), entries[n - 1]) {
                Err(error) => Err(error),
                Ok(table) => Ok(done.push((entries[n - 1].0, table))),
            },
        }
    }
}

/// The routes that a list of entries compiles to.
pub open spec fn compile(entries: Seq<RouteEntry>) -> Result<
    Seq<(Seq<char>, Table)>,
    RouteBuildErrorView,
> {
    compile_first(entries, entries.len())
}

/// What the matching of a request against compiled routes returns: the
/// handler's name with the captured parameters; that the path is unknown,
/// where no pattern matches; that the method is not allowed, where a
/// pattern matches whose table does not hold the method.
pub open spec fn resolve(routes: Seq<(Seq<char>, Table)>, method: MethodView, path: Seq<char>)
    -> Result<(Seq<char>, Seq<(Seq<char>, Seq<char>)>), AppErrorView> {
    match lookup(route_patterns(routes), path) {
        None => Err(AppErrorView::RouterPathNotFound(path)),
        Some((at, params)) => {
            if routes[at].1.dom().contains(method) {
                Ok((routes[at].1[method], params))
            } else {
                Err(AppErrorView::RouterMethodNotAllow(method))
            }
        },
    }
}

/// An error among the first `n` methods is the error of every longer
/// prefix.
pub proof fn lemma_table_error_stays(methods: Seq<(MethodView, Seq<char>)>, n: nat, m: nat)
    requires
        n <= m,
        table_first(methods, n) is Err,
    ensures
        table_first(methods, m) == table_first(methods, n),
    decreases m,
{
    if n < m {
        lemma_table_error_stays(methods, n, (m - 1) as nat);
    }
}

/// An error among the first `n` entries is the error of every longer
/// prefix.
pub proof fn lemma_compile_error_stays(entries: Seq<RouteEntry>, n: nat, m: nat)
    requires
        n <= m,
        compile_first(entries, n) is Err,
    ensures
        compile_first(entries, m) == compile_first(entries, n),
    decreases m,
{
    if n < m {
        lemma_compile_error_stays(entries, n, (m - 1) as nat);
    }
}

/// Compiled routes keep the patterns of their entries, in order.
pub proof fn law_compile_keeps_patterns(entries: Seq<RouteEntry>, n: nat)
    requires
        n <= entries.len(),
        compile_first(entries, n) is Ok,
    ensures
        compile_first(entries, n)->Ok_0.len() == n,
        forall|i: int|
            0 <= i < n ==> (#[trigger] compile_first(entries, n)->Ok_0[i]).0 == entries[i].0,
    decreases n,
{
    if n > 0 {
        law_compile_keeps_patterns(entries, (n - 1) as nat);
    }
}

/// The method table of the declarations of one path.
pub fn method_table(methods: &Vec<ProjectRoute>) -> (made: Result<MethodRoute, RouteBuildError>)
    ensures
        match table_of(methods_view(methods@)) {
            Ok(table) => made matches Ok(t) && t@ == table,
            Err(error) => made matches Err(e) && e@ == error,
        },
{
    let ghost decls = methods_view(methods@);
    let mut table = MethodRoute::new();
    let mut i: usize = 0;
    while i < methods.len()
        invariant
            i <= methods.len(),
            decls == methods_view(methods@),
            table_first(decls, i as nat) == Ok::<Table, RouteBuildErrorView>(table@),
        decreases methods.len() - i,
    {
        let bound = table.bind(&methods[i].method, methods[i].handler.clone());
        if !bound {
            let name = methods[i].method.name();
            proof {
                assert(decls[i as int] == methods@[i as int]@);
                lemma_table_error_stays(decls, (i + 1) as nat, decls.len());
            }
            return Err(RouteBuildError::UnsupportedMethod(name));
        }
        assert(decls[i as int] == methods@[i as int]@);
        i = i + 1;
    }
    Ok(table)
}

/// The parameters that a pattern captured from a path: names and values in
/// the order of the pattern.
#[derive(Debug)]
pub struct Params {
    entries: Vec<(String, String)>,
}

impl View for Params {
    type V = Seq<(Seq<char>, Seq<char>)>;

    closed spec fn view(&self) -> Seq<(Seq<char>, Seq<char>)> {
        pairs_view(self.entries@)
    }
}

/// The position of the first pair of `params` under `key`; the length of
/// `params` where there is none.
pub open spec fn first_under(params: Seq<(Seq<char>, Seq<char>)>, key: Seq<char>) -> int
    decreases params.len(),
{
    if params.len() == 0 {
        0
    } else if params[0].0 == key {
        0
    } else {
        1 + first_under(params.drop_first(), key)
    }
}

/// `first_under` is the least position under the key.
pub proof fn lemma_first_under(params: Seq<(Seq<char>, Seq<char>)>, key: Seq<char>, n: int)
    requires
        0 <= n <= params.len(),
        forall|i: int| 0 <= i < n ==> params[i].0 != key,
        n < params.len() ==> params[n].0 == key,
    ensures
        first_under(params, key) == n,
    decreases params.len(),
{
    if params.len() > 0 && params[0].0 != key {
        let rest = params.drop_first();
        assert forall|i: int| 0 <= i < n - 1 implies rest[i].0 != key by {
            assert(rest[i] == params[i + 1]);
        }
        lemma_first_under(rest, key, n - 1);
    }
}

impl Params {
    /// The parameters given by `entries`.
    pub fn new(entries: Vec<(String, String)>) -> (params: Params)
        ensures
            params@ == pairs_view(entries@),
    {
        Params { entries }
    }

    /// The number of parameters.
    pub fn len(&self) -> (n: usize)
        ensures
            n == self@.len(),
    {
        self.entries.len()
    }

    /// Whether there is no parameter.
    pub fn is_empty(&self) -> (empty: bool)
        ensures
            empty == (self@.len() == 0),
    {
        self.entries.len() == 0
    }

    /// The value of the first parameter under `key`.
    pub fn get(&self, key: &str) -> (value: Option<&str>)
        ensures
            value is Some == (first_under(self@, key@) < self@.len()),
            value is Some ==> value.unwrap()@ == self@[first_under(self@, key@)].1,
    {
        let mut i: usize = 0;
        while i < self.entries.len()
            invariant
                i <= self.entries.len(),
                forall|k: int| 0 <= k < i ==> self@[k].0 != key@,
            decreases self.entries.len() - i,
        {
            if same_text(self.entries[i].0.as_str(), key) {
                proof {
                    lemma_first_under(self@, key@, i as int);
                }
                return Some(self.entries[i].1.as_str());
            }
            i = i + 1;
        }
        proof {
            lemma_first_under(self@, key@, i as int);
        }
        None
    }

    /// The parameters as pairs of name and value.
    pub fn into_pairs(self) -> (pairs: Vec<(String, String)>)
        ensures
            pairs_view(pairs@) == self@,
    {
        self.entries
    }
}

/// A request that found its handler: the handler's name and the parameters
/// that the pattern captured.
#[derive(Debug)]
pub struct Match {
    pub value: String,
    pub params: Params,
}

/// What is returned for a path once the matcher has answered: `found` is
/// the method table of the pattern that matched, with the captured
/// parameters, or `None` where no pattern matched.
pub fn route_outcome(found: Option<(&MethodRoute, Params)>, method: Method, path: &str) -> (outcome:
    Result<Match, AppError>)
    ensures
        match found {
            None => outcome matches Err(error) && error@ == AppErrorView::RouterPathNotFound(
                path@,
            ),
            Some((table, params)) => if table@.dom().contains(method@) {
                outcome matches Ok(m) && m.value@ == table@[method@] && m.params@ == params@
            } else {
                outcome matches Err(error) && error@ == AppErrorView::RouterMethodNotAllow(
                    method@,
                )
            },
        },
{
    match found {
        None => Err(AppError::RouterPathNotFound(path.to_owned())),
        Some((table, params)) => match table.handler(&method) {
            Some(name) => Ok(Match { value: name.clone(), params }),
            None => Err(AppError::RouterMethodNotAllow(method)),
        },
    }
}

/// The compiled routes of one tenant: a matcher over the path patterns and,
/// for each pattern, its method table.
pub struct RouteIndex {
    router: matchit::Router<usize>,
    tables: Vec<MethodRoute>,
}

impl View for RouteIndex {
    type V = Seq<(Seq<char>, Table)>;

    /// Each pattern with its method table, in the order of compilation.
    closed spec fn view(&self) -> Seq<(Seq<char>, Table)> {
        Seq::new(
            self.tables.len() as nat,
            |i: int| (router_entries(self.router)[i].0, self.tables[i]@),
        )
    }
}

impl RouteIndex {
    /// The matcher holds one entry for each table, and the entry's value is
    /// the table's position.
    #[verifier::type_invariant]
    spec fn well_formed(self) -> bool {
        &&& router_entries(self.router).len() == self.tables.len()
        &&& forall|i: int|
            0 <= i < self.tables.len() ==> (#[trigger] router_entries(self.router)[i]).1 == i
    }

    /// Compiles the routes of a project, entry by entry in their order. The
    /// first entry that cannot be compiled ends the compilation with its
    /// error: one that declares an unsupported method, one whose pattern
    /// holds too many parameters, one whose pattern the matcher refuses.
    pub fn build(routes: &ProjectRouters) -> (built: Result<RouteIndex, RouteBuildError>)
        ensures
            match compile(routes_view(*routes)) {
                Ok(compiled) => built matches Ok(index) && index@ == compiled,
                Err(error) => built matches Err(e) && e@ == error,
            },
    {
        let ghost entries = routes_view(*routes);
        let count = routes_len(routes);
        let mut router = router_new();
        let mut tables: Vec<MethodRoute> = Vec::new();
        let mut i: usize = 0;
        while i < count
            invariant
                i <= count,
                count == entries.len(),
                entries == routes_view(*routes),
                tables.len() == i,
                router_entries(router).len() == i,
                forall|k: int| 0 <= k < i ==> (#[trigger] router_entries(router)[k]).1 == k,
                compile_first(entries, i as nat) is Ok,
                compile_first(entries, i as nat)->Ok_0 =~= Seq::new(
                    i as nat,
                    |k: int| (router_entries(router)[k].0, tables[k]@),
                ),
            decreases count - i,
        {
            let ghost done = Seq::new(
                i as nat,
                |k: int| (router_entries(router)[k].0, tables[k]@),
            );
            let ghost before = router_entries(router);
            let (pattern, methods) = match routes_get(routes, i) {
                Some(entry) => entry,
                None => {
                    // Not reached: the position is below the length.
                    return Err(RouteBuildError::Unrecognized);
                },
            };
            proof {
                assert(entries[i as int] == (pattern@, methods_view(methods@)));
                assert(route_patterns(done) =~= patterns_of(before));
            }
            let table = match method_table(methods) {
                Ok(table) => table,
                Err(error) => {
                    proof {
                        lemma_compile_error_stays(entries, (i + 1) as nat, entries.len());
                    }
                    return Err(error);
                },
            };
            if count_char(pattern.as_str(), ':', MAX_PARAMS) > MAX_PARAMS {
                proof {
                    lemma_compile_error_stays(entries, (i + 1) as nat, entries.len());
                }
                return Err(RouteBuildError::ParamLimit);
            }
            match router_insert(router, pattern.as_str(), i) {
                Ok(next) => {
                    router = next;
                },
                Err(error) => {
                    proof {
                        lemma_compile_error_stays(entries, (i + 1) as nat, entries.len());
                    }
                    return Err(error);
                },
            }
            tables.push(table);
            proof {
                assert(Seq::new(
                    (i + 1) as nat,
                    |k: int| (router_entries(router)[k].0, tables[k]@),
                ) =~= done.push((entries[i as int].0, table@)));
            }
            i = i + 1;
        }
        let index = RouteIndex { router, tables };
        proof {
            assert(index@ =~= compile(entries)->Ok_0);
        }
        Ok(index)
    }

    /// Matches a request against the routes.
    pub fn match_it(&self, method: Method, path: &str) -> (outcome: Result<Match, AppError>)
        ensures
            match resolve(self@, method@, path@) {
                Ok((handler, params)) => outcome matches Ok(m) && m.value@ == handler && m.params@
                    == params,
                Err(error) => outcome matches Err(e) && e@ == error,
            },
    {
        proof {
            use_type_invariant(self);
            assert(route_patterns(self@) =~= patterns_of(router_entries(self.router)));
        }
        match router_at(&self.router, path) {
            None => route_outcome(None, method, path),
            Some((at, params)) => route_outcome(
                Some((&self.tables[at], Params::new(params))),
                method,
                path,
            ),
        }
    }

    /// The number of patterns.
    pub fn len(&self) -> (n: usize)
        ensures
            n == self@.len(),
    {
        self.tables.len()
    }
}

/// One version of a tenant: its script and the routes compiled for it.
/// A snapshot is never changed once it is made.
pub struct AppRouterInner {
    pub code: String,
    pub router: RouteIndex,
}

/// A snapshot as a mathematical value.
pub struct SnapshotView {
    pub code: Seq<char>,
    pub routes: Seq<(Seq<char>, Table)>,
}

impl View for AppRouterInner {
    type V = SnapshotView;

    open spec fn view(&self) -> SnapshotView {
        SnapshotView { code: self.code@, routes: self.router@ }
    }
}

impl AppRouterInner {
    /// The snapshot of `code` and `router`.
    pub fn new(code: String, router: RouteIndex) -> (snapshot: AppRouterInner)
        ensures
            snapshot@ == (SnapshotView { code: code@, routes: router@ }),
    {
        AppRouterInner { code, router }
    }
}

/// The snapshot that `code` and `routes` make, or the reason for which the
/// routes cannot be compiled.
pub open spec fn snapshot_of(code: Seq<char>, routes: Seq<RouteEntry>) -> Result<
    SnapshotView,
    RouteBuildErrorView,
> {
    match compile(routes) {
        Ok(compiled) => Ok(SnapshotView { code, routes: compiled }),
        Err(error) => Err(error),
    }
}

/// The snapshot in force after a swap to `code` and `routes`, where
/// `current` was in force before it: the new one where the routes compile,
/// and `current` where they do not.
pub open spec fn after_swap(current: SnapshotView, code: Seq<char>, routes: Seq<RouteEntry>)
    -> SnapshotView {
    match snapshot_of(code, routes) {
        Ok(next) => next,
        Err(_) => current,
    }
}

/// A handle on one snapshot. Whoever holds it works on that snapshot to the
/// end, whatever is published after it.
pub struct AppRouter(Arc<AppRouterInner>);

impl View for AppRouter {
    type V = SnapshotView;

    closed spec fn view(&self) -> SnapshotView {
        (*self.0)@
    }
}

impl AppRouter {
    /// The snapshot itself.
    pub fn inner(&self) -> (snapshot: &AppRouterInner)
        ensures
            snapshot@ == self@,
    {
        &*self.0
    }

    /// The script of the snapshot.
    pub fn code(&self) -> (code: &str)
        ensures
            code@ == self@.code,
    {
        self.0.code.as_str()
    }

    /// Matches a request against the routes of the snapshot.
    pub fn match_it(&self, method: Method, path: &str) -> (outcome: Result<Match, AppError>)
        ensures
            match resolve(self@.routes, method@, path@) {
                Ok((handler, params)) => outcome matches Ok(m) && m.value@ == handler && m.params@
                    == params,
                Err(error) => outcome matches Err(e) && e@ == error,
            },
    {
        self.0.router.match_it(method, path)
    }
}

impl Clone for AppRouter {
    fn clone(&self) -> (copy: AppRouter)
        ensures
            copy@ == self@,
    {
        AppRouter(self.0.clone())
    }
}

/// The router of one tenant, in the hands of whoever reloads the tenant.
/// It stores each new snapshot into a slot that any number of readers load
/// from without waiting.
pub struct SwappableAppRouter {
    inners: SnapshotCell,
}

impl SwappableAppRouter {
    /// The snapshot in force: what the slot holds.
    pub closed spec fn current(&self) -> SnapshotView {
        (*cell_holds(self.inners))@
    }

    /// The handle through which the readers of this router load from its
    /// slot.
    pub closed spec fn slot(&self) -> SnapshotReader {
        reader_on(self.inners)
    }

    /// Compiles the routes of a project. See `RouteIndex::build`.
    pub fn get_router(routes: &ProjectRouters) -> (built: Result<RouteIndex, AppError>)
        ensures
            match compile(routes_view(*routes)) {
                Ok(compiled) => built matches Ok(index) && index@ == compiled,
                Err(error) => built matches Err(e) && e@ == AppErrorView::RouteBuild(error),
            },
    {
        match RouteIndex::build(routes) {
            Ok(index) => Ok(index),
            Err(error) => Err(AppError::RouteBuild(error)),
        }
    }

    /// The router of a tenant whose first snapshot is made of `code` and
    /// `routes`; the error of the routes where they do not compile.
    pub fn new(code: String, routes: ProjectRouters) -> (made: Result<SwappableAppRouter, AppError>)
        ensures
            match snapshot_of(code@, routes_view(routes)) {
                Ok(snapshot) => made matches Ok(router) && router.current() == snapshot,
                Err(error) => made matches Err(e) && e@ == AppErrorView::RouteBuild(error),
            },
    {
        let router = Self::get_router(&routes)?;
        let first = Arc::new(AppRouterInner::new(code, router));
        Ok(SwappableAppRouter { inners: cell_new(first) })
    }

    /// Replaces the snapshot in force by the one made of `code` and
    /// `routes`. The new snapshot is compiled first: where the routes do
    /// not compile, their error is returned and the slot is not touched.
    /// Where they compile, the new snapshot is stored into the slot in one
    /// step. The slot stays the one that the readers load from.
    pub fn swap(&mut self, code: String, routes: ProjectRouters) -> (done: Result<(), AppError>)
        ensures
            final(self).current() == after_swap(old(self).current(), code@, routes_view(routes)),
            final(self).slot() == old(self).slot(),
            match snapshot_of(code@, routes_view(routes)) {
                Ok(_) => done is Ok,
                Err(error) => done matches Err(e) && e@ == AppErrorView::RouteBuild(error),
            },
    {
        let router = Self::get_router(&routes)?;
        let next = Arc::new(AppRouterInner::new(code, router));
        cell_store(&mut self.inners, next);
        Ok(())
    }

    /// The snapshot in force, loaded from the slot.
    pub fn load(&self) -> (snapshot: AppRouter)
        ensures
            snapshot@ == self.current(),
    {
        AppRouter(cell_load(&self.inners))
    }

    /// A reader of this router under the name of `host`: it loads from the
    /// slot that this router stores into.
    pub fn reader(&self, host: String) -> (reader: TenentRouter)
        ensures
            reader.host_name() == host@,
            reader.slot() == self.slot(),
    {
        TenentRouter { host, router: cell_share(&self.inners) }
    }
}

/// A tenant as the server knows it: its host, and the slot from which the
/// tenant's snapshot in force is loaded.
pub struct TenentRouter {
    host: String,
    router: SnapshotReader,
}

impl TenentRouter {
    /// The host that the tenant is served under.
    pub closed spec fn host_name(&self) -> Seq<char> {
        self.host@
    }

    /// The handle through which the tenant's snapshots are loaded.
    pub closed spec fn slot(&self) -> SnapshotReader {
        self.router
    }

    /// The tenant of `host` that is served from `router`: its snapshots are
    /// loaded from the slot that `router` stores into.
    pub fn new(host: String, router: &SwappableAppRouter) -> (tenant: TenentRouter)
        ensures
            tenant.host_name() == host@,
            tenant.slot() == router.slot(),
    {
        router.reader(host)
    }

    /// The host that the tenant is served under.
    pub fn host(&self) -> (host: &str)
        ensures
            host@ == self.host_name(),
    {
        self.host.as_str()
    }

    /// The snapshot that is published at this moment. It never waits, and
    /// the snapshot it returns is complete: one code with the routes that
    /// were compiled together with it.
    pub fn load(&self) -> AppRouter {
        AppRouter(reader_load(&self.router))
    }
}

} // verus!
