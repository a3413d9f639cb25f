//! What a tenant's project file declares.

use vstd::prelude::*;
use crate::method::{Method, MethodView};
use crate::route_list::routes_entries;

verus! {

/// One declaration of a route: a method and the handler bound to it.
#[derive(Debug)]
pub struct ProjectRoute {
    pub method: Method,
    pub handler: String,
}

impl View for ProjectRoute {
    type V = (MethodView, Seq<char>);

    open spec fn view(&self) -> (MethodView, Seq<char>) {
        (self.method@, self.handler@)
    }
}

/// The routes of a project in the order of the project file: each path
/// pattern, once, with its declarations.
pub type ProjectRouters = indexmap::IndexMap<String, Vec<ProjectRoute>>;

/// A path pattern with its declarations, as a mathematical value.
pub type RouteEntry = (Seq<char>, Seq<(MethodView, Seq<char>)>);

/// A project: its name and its routes.
#[derive(Debug)]
pub struct ProjectConfig {
    pub name: String,
    pub routes: ProjectRouters,
}

/// The declarations of one path as mathematical values.
pub open spec fn methods_view(methods: Seq<ProjectRoute>) -> Seq<(MethodView, Seq<char>)> {
    Seq::new(methods.len(), |i: int| methods[i]@)
}

/// A list of routes as mathematical values.
pub open spec fn entries_view(routes: Seq<(String, Vec<ProjectRoute>)>) -> Seq<RouteEntry> {
    Seq::new(routes.len(), |i: int| (routes[i].0@, methods_view(routes[i].1@)))
}

/// The routes of a project as mathematical values, in their order.
pub open spec fn routes_view(routes: ProjectRouters) -> Seq<RouteEntry> {
    entries_view(routes_entries(routes))
}

impl ProjectRoute {
    pub fn new(method: Method, handler: String) -> (route: ProjectRoute)
        ensures
            route@ == (method@, handler@),
    {
        ProjectRoute { method, handler }
    }
}

impl ProjectConfig {
    pub fn new(name: String, routes: ProjectRouters) -> (config: ProjectConfig)
        ensures
            config.name@ == name@,
            config.routes == routes,
    {
        ProjectConfig { name, routes }
    }
}

} // verus!
