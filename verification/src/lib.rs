//! A gateway for scripted handlers: each request is routed by its host to
//! a tenant and by its method and path to a handler of the tenant's script,
//! which runs in an interpreter of its own. A tenant's routes and script
//! are replaced as one snapshot, while requests go on.

pub mod cell;
pub mod cli;
pub mod config;
pub mod digest;
pub mod error;
pub mod errors;
pub mod fields;
pub mod host_index;
pub mod jsengine;
pub mod laws;
pub mod method;
pub mod project;
pub mod request;
pub mod route_index;
pub mod route_list;
pub mod router;
pub mod script;
pub mod server;
pub mod state;
pub mod text;
pub mod watch;


pub use cli::{BuildOpts, InitOpts, Opts, RunOpts, Subcommand};
pub use config::{ProjectConfig, ProjectRoute, ProjectRouters};
pub use error::{AppError, EngineError, RouteBuildError};
pub use errors::{generic_error, CustomError};
pub use jsengine::JsEngine;
pub use method::{Method, MethodRoute};
pub use project::BUILD_DIR;
pub use request::{Req, Res};
pub use router::{AppRouter, AppRouterInner, SwappableAppRouter, TenentRouter};
pub use state::AppState;
