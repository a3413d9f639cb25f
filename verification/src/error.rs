//! The typed errors of the gateway, each with the HTTP status it is
//! answered with and the text that goes into the body.

use vstd::prelude::*;
use crate::method::{Method, MethodView};
use crate::text::joined;

verus! {

/// Why a route table could not be compiled.
#[derive(Debug)]
pub enum RouteBuildError {
    /// The pattern collides with a pattern accepted before it.
    Conflict { with: String },
    /// A segment of the pattern holds more than one parameter.
    TooManyParams,
    /// A parameter of the pattern has no name.
    UnnamedParam,
    /// A catch-all parameter stands elsewhere than at the end.
    InvalidCatchAll,
    /// The pattern holds more parameters than a route may have.
    ParamLimit,
    /// A route declares a method outside the supported set.
    UnsupportedMethod(String),
    /// The pattern was refused for a reason that has no name here.
    Unrecognized,
}

/// A `RouteBuildError` as a mathematical value.
pub enum RouteBuildErrorView {
    Conflict { with: Seq<char> },
    TooManyParams,
    UnnamedParam,
    InvalidCatchAll,
    ParamLimit,
    UnsupportedMethod(Seq<char>),
    Unrecognized,
}

impl View for RouteBuildError {
    type V = RouteBuildErrorView;

    open spec fn view(&self) -> RouteBuildErrorView {
        match *self {
            RouteBuildError::Conflict { with } => RouteBuildErrorView::Conflict { with: with@ },
            RouteBuildError::TooManyParams => RouteBuildErrorView::TooManyParams,
            RouteBuildError::UnnamedParam => RouteBuildErrorView::UnnamedParam,
            RouteBuildError::InvalidCatchAll => RouteBuildErrorView::InvalidCatchAll,
            RouteBuildError::ParamLimit => RouteBuildErrorView::ParamLimit,
            RouteBuildError::UnsupportedMethod(name) => RouteBuildErrorView::UnsupportedMethod(
                name@,
            ),
            RouteBuildError::Unrecognized => RouteBuildErrorView::Unrecognized,
        }
    }
}

impl RouteBuildErrorView {
    /// The sentence that describes the error.
    pub open spec fn message(self) -> Seq<char> {
        match self {
            RouteBuildErrorView::Conflict { with } => "route conflicts with "@ + with,
            RouteBuildErrorView::TooManyParams => "more than one parameter in a segment"@,
            RouteBuildErrorView::UnnamedParam => "parameter without a name"@,
            RouteBuildErrorView::InvalidCatchAll => "catch-all not at the end of the route"@,
            RouteBuildErrorView::ParamLimit => "too many parameters in the route"@,
            RouteBuildErrorView::UnsupportedMethod(name) => "unsupported method "@ + name,
            RouteBuildErrorView::Unrecognized => "route refused"@,
        }
    }
}

impl RouteBuildError {
    /// The sentence that describes the error.
    pub fn message(&self) -> (text: String)
        ensures
            text@ == self@.message(),
    {
        match self {
            RouteBuildError::Conflict { with } => joined("route conflicts with ", with.as_str()),
            RouteBuildError::TooManyParams => "more than one parameter in a segment".to_owned(),
            RouteBuildError::UnnamedParam => "parameter without a name".to_owned(),
            RouteBuildError::InvalidCatchAll => "catch-all not at the end of the route".to_owned(),
            RouteBuildError::ParamLimit => "too many parameters in the route".to_owned(),
            RouteBuildError::UnsupportedMethod(name) => joined(
                "unsupported method ",
                name.as_str(),
            ),
            RouteBuildError::Unrecognized => "route refused".to_owned(),
        }
    }
}

/// Why a script did not yield a response.
#[derive(Debug)]
pub enum EngineError {
    /// The source could not be evaluated to an object of handlers.
    EvalFailure(String),
    /// The handlers hold no function of this name.
    HandlerNotFound(String),
    /// The handler threw, or the promise it returned was rejected.
    HandlerFailed(String),
    /// This field of the handler's result is missing or of the wrong type.
    MalformedResponse(String),
}

/// An `EngineError` as a mathematical value.
pub enum EngineErrorView {
    EvalFailure(Seq<char>),
    HandlerNotFound(Seq<char>),
    HandlerFailed(Seq<char>),
    MalformedResponse(Seq<char>),
}

impl View for EngineError {
    type V = EngineErrorView;

    open spec fn view(&self) -> EngineErrorView {
        match *self {
            EngineError::EvalFailure(text) => EngineErrorView::EvalFailure(text@),
            EngineError::HandlerNotFound(name) => EngineErrorView::HandlerNotFound(name@),
            EngineError::HandlerFailed(text) => EngineErrorView::HandlerFailed(text@),
            EngineError::MalformedResponse(field) => EngineErrorView::MalformedResponse(field@),
        }
    }
}

impl EngineErrorView {
    /// The sentence that describes the error.
    pub open spec fn message(self) -> Seq<char> {
        match self {
            EngineErrorView::EvalFailure(text) => "evaluation failed: "@ + text,
            EngineErrorView::HandlerNotFound(name) => "handler not found: "@ + name,
            EngineErrorView::HandlerFailed(text) => "handler failed: "@ + text,
            EngineErrorView::MalformedResponse(field) => "malformed response field: "@ + field,
        }
    }
}

impl EngineError {
    /// The sentence that describes the error.
    pub fn message(&self) -> (text: String)
        ensures
            text@ == self@.message(),
    {
        match self {
            EngineError::EvalFailure(text) => joined("evaluation failed: ", text.as_str()),
            EngineError::HandlerNotFound(name) => joined("handler not found: ", name.as_str()),
            EngineError::HandlerFailed(text) => joined("handler failed: ", text.as_str()),
            EngineError::MalformedResponse(field) => joined(
                "malformed response field: ",
                field.as_str(),
            ),
        }
    }
}

/// Every failure that the handling of a request, or the loading of a
/// tenant, can end in.
#[derive(Debug)]
pub enum AppError {
    /// No tenant is registered under this host.
    HostNotFound(String),
    /// No pattern of the tenant matches this path.
    RouterPathNotFound(String),
    /// A pattern matches the path, but does not declare this method.
    RouterMethodNotAllow(Method),
    /// The tenant's route table could not be compiled.
    RouteBuild(RouteBuildError),
    /// The tenant's script did not yield a response.
    Engine(EngineError),
}

/// An `AppError` as a mathematical value.
pub enum AppErrorView {
    HostNotFound(Seq<char>),
    RouterPathNotFound(Seq<char>),
    RouterMethodNotAllow(MethodView),
    RouteBuild(RouteBuildErrorView),
    Engine(EngineErrorView),
}

impl View for AppError {
    type V = AppErrorView;

    open spec fn view(&self) -> AppErrorView {
        match *self {
            AppError::HostNotFound(host) => AppErrorView::HostNotFound(host@),
            AppError::RouterPathNotFound(path) => AppErrorView::RouterPathNotFound(path@),
            AppError::RouterMethodNotAllow(method) => AppErrorView::RouterMethodNotAllow(method@),
            AppError::RouteBuild(error) => AppErrorView::RouteBuild(error@),
            AppError::Engine(error) => AppErrorView::Engine(error@),
        }
    }
}

impl AppErrorView {
    /// The HTTP status that the error is answered with.
    pub open spec fn status(self) -> int {
        match self {
            AppErrorView::HostNotFound(_) => 404,
            AppErrorView::RouterPathNotFound(_) => 404,
            AppErrorView::RouterMethodNotAllow(_) => 405,
            AppErrorView::RouteBuild(_) => 500,
            AppErrorView::Engine(_) => 500,
        }
    }

    /// The text that the error is answered with.
    pub open spec fn message(self) -> Seq<char> {
        match self {
            AppErrorView::HostNotFound(host) => "Host not found: "@ + host,
            AppErrorView::RouterPathNotFound(path) => "Path not found: "@ + path,
            AppErrorView::RouterMethodNotAllow(method) => "Method not found: "@ + method.name(),
            AppErrorView::RouteBuild(error) => "Route table error: "@ + error.message(),
            AppErrorView::Engine(error) => "Script error: "@ + error.message(),
        }
    }
}

impl AppError {
    /// The HTTP status that the error is answered with: 404 for an unknown
    /// host or path, 405 for a method that the matched path does not
    /// declare, 500 for everything else.
    pub fn status_code(&self) -> (status: u16)
        ensures
            status == self@.status(),
    {
        match self {
            AppError::HostNotFound(_) => 404,
            AppError::RouterPathNotFound(_) => 404,
            AppError::RouterMethodNotAllow(_) => 405,
            AppError::RouteBuild(_) => 500,
            AppError::Engine(_) => 500,
        }
    }

    /// The text that the error is answered with.
    pub fn message(&self) -> (text: String)
        ensures
            text@ == self@.message(),
    {
        match self {
            AppError::HostNotFound(host) => joined("Host not found: ", host.as_str()),
            AppError::RouterPathNotFound(path) => joined("Path not found: ", path.as_str()),
            AppError::RouterMethodNotAllow(method) => {
                let name = method.name();
                joined("Method not found: ", name.as_str())
            },
            AppError::RouteBuild(error) => {
                let detail = error.message();
                joined("Route table error: ", detail.as_str())
            },
            AppError::Engine(error) => {
                let detail = error.message();
                joined("Script error: ", detail.as_str())
            },
        }
    }

    /// The status and the body of the response that reports the error.
    pub fn into_response(self) -> (response: (u16, String))
        ensures
            response.0 == self@.status(),
            response.1@ == self@.message(),
    {
        (self.status_code(), self.message())
    }
}

} // verus!
