//! The handling of one request: from the host to the tenant, from the path
//! and the method to the handler, from the handler's result to the
//! response.

use vstd::prelude::*;
use crate::error::{AppError, AppErrorView};
use crate::fields::{map_of, TextMap};
use crate::jsengine::JsEngine;
use crate::request::{
    body_text_of, get_request_parts, header_pairs, text_view, valid_status, Req, RequestParts,
    Res,
};
use crate::router::{resolve, AppRouter};
use crate::state::{get_router_by_host, host_without_port, registry_of, AppState};

verus! {

/// A request that found its handler in a snapshot: the handler's name and
/// the request that it is called with.
pub struct Call {
    pub handler: String,
    pub req: Req,
}

/// Matches a request against a snapshot and makes the request that the
/// handler is called with. A path that no pattern matches and a method that
/// the matched pattern does not declare are the two errors.
pub fn prepare(router: &AppRouter, parts: RequestParts, query: TextMap, body: Option<Vec<u8>>) -> (
    prepared: Result<Call, AppError>
)
    ensures
        match resolve(router@.routes, parts.method@, parts.path@) {
            Err(error) => prepared matches Err(e) && e@ == error,
            Ok((handler, params)) => prepared matches Ok(call) && {
                &&& call.handler@ == handler
                &&& call.req.method@ == parts.method@.name()
                &&& call.req.url@ == parts.uri@
                &&& call.req.headers@ == map_of(header_pairs(parts.headers@))
                &&& call.req.params@ == map_of(params)
                &&& call.req.query@ == query@
                &&& text_view(call.req.body) == body_text_of(body)
            },
        },
{
    let matched = router.match_it(parts.method.clone(), parts.path.as_str())?;
    let handler = matched.value.clone();
    let req = get_request_parts(parts, body, matched, query)?;
    Ok(Call { handler, req })
}

/// What a request is answered with once its script has run: the script's
/// response, or the script's failure as an error of the server.
pub fn answer(ran: Result<Res, crate::error::EngineError>) -> (outcome: Result<Res, AppError>)
    ensures
        match ran {
            Ok(res) => outcome == Ok::<Res, AppError>(res),
            Err(failure) => outcome matches Err(e) && e@ == AppErrorView::Engine(failure@),
        },
{
    match ran {
        Ok(res) => Ok(res),
        Err(failure) => Err(AppError::Engine(failure)),
    }
}

/// Serves one request from a snapshot: finds the handler and runs it in an
/// interpreter of its own, which is given up with the request. Where no
/// handler is found, the error of the matching is returned and no script
/// runs; every other error comes from the script.
pub fn serve(router: &AppRouter, parts: RequestParts, query: TextMap, body: Option<Vec<u8>>) -> (
    outcome: Result<Res, AppError>
)
    ensures
        resolve(router@.routes, parts.method@, parts.path@) matches Err(error) ==> (
        outcome matches Err(e) && e@ == error),
        resolve(router@.routes, parts.method@, parts.path@) is Ok ==> (outcome matches Err(e)
            ==> e@ is Engine),
        outcome matches Ok(res) ==> valid_status(res.status as int),
        outcome matches Err(e) ==> {
            ||| e@ == AppErrorView::RouterPathNotFound(parts.path@)
            ||| e@ == AppErrorView::RouterMethodNotAllow(parts.method@)
            ||| e@ is Engine
        },
{
    let call = match prepare(router, parts, query, body) {
        Ok(call) => call,
        Err(error) => {
            return Err(error);
        },
    };
    let engine = match JsEngine::new(router.code()) {
        Ok(engine) => engine,
        Err(failure) => {
            return Err(AppError::Engine(failure));
        },
    };
    answer(engine.run(call.handler.as_str(), call.req))
}

/// Handles one request: finds the tenant of the host, loads the tenant's
/// snapshot, and serves the request from it. A host that no tenant is
/// registered under is reported before anything else is looked at.
pub fn handler(
    state: &AppState,
    host: &str,
    parts: RequestParts,
    query: TextMap,
    body: Option<Vec<u8>>,
) -> (outcome: Result<Res, AppError>)
    ensures
        registry_of(state.hosts()).get(host_without_port(host@)) is None ==> (outcome matches Err(
            e,
        ) && e@ == AppErrorView::HostNotFound(host_without_port(host@))),
        (outcome matches Err(e) && e@ is HostNotFound) ==> registry_of(state.hosts()).get(
            host_without_port(host@),
        ) is None,
        outcome matches Ok(res) ==> valid_status(res.status as int),
        outcome matches Err(e) ==> {
            ||| e@ == AppErrorView::HostNotFound(host_without_port(host@))
            ||| e@ == AppErrorView::RouterPathNotFound(parts.path@)
            ||| e@ == AppErrorView::RouterMethodNotAllow(parts.method@)
            ||| e@ is Engine
        },
{
    let router = get_router_by_host(host, state)?;
    serve(&router, parts, query, body)
}

} // verus!
