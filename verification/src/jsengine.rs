//! The script engine: one interpreter for one request. It evaluates a
//! tenant's script, calls the handler that a route names with the request,
//! and reads the response from what the handler returns.

use vstd::prelude::*;
use crate::error::{EngineError, EngineErrorView};
use crate::request::{
    malformed_field, request_fields, text_fields, text_view, valid_status, GuestField,
    GuestResponse, Req, Res,
};
use crate::fields::{map_first, map_of, TextMap};
use crate::route_index::pairs_view;
use crate::script::{
    call_function, context_full, define_object, define_optional_text, define_text, eval_object,
    get_function, get_integer, get_map, get_object, get_optional_text, globals, object_fields,
    object_new, print_function, runtime_new, set_object, with_call, with_install, write_line,
};

verus! {

/// An interpreter with the handlers of one script installed.
pub struct JsEngine {
    rt: rquickjs::Runtime,
    ctx: rquickjs::Context,
}

/// What a step of the evaluation of a script comes to: its value, or the
/// failure of the evaluation with the interpreter's words.
pub fn eval_step<T>(step: Result<T, String>) -> (outcome: Result<T, EngineError>)
    ensures
        match step {
            Ok(value) => outcome == Ok::<T, EngineError>(value),
            Err(words) => outcome matches Err(error) && error@ == EngineErrorView::EvalFailure(
                words@,
            ),
        },
{
    match step {
        Ok(value) => Ok(value),
        Err(words) => Err(EngineError::EvalFailure(words)),
    }
}

/// What a step of the call of a handler comes to: its value, or the
/// failure of the handler with the interpreter's words.
pub fn call_step<T>(step: Result<T, String>) -> (outcome: Result<T, EngineError>)
    ensures
        match step {
            Ok(value) => outcome == Ok::<T, EngineError>(value),
            Err(words) => outcome matches Err(error) && error@ == EngineErrorView::HandlerFailed(
                words@,
            ),
        },
{
    match step {
        Ok(value) => Ok(value),
        Err(words) => Err(EngineError::HandlerFailed(words)),
    }
}

/// The one function that the server lends to a script: writes a message of
/// the script as a line to the standard output.
pub fn print(msg: String) {
    write_line(msg.as_str())
}

/// What is read from a value that is no object: no field is there.
pub fn no_fields() -> (raw: GuestResponse)
    ensures
        raw.headers is None,
        raw.body is None,
        raw.status is None,
{
    GuestResponse { headers: None, body: None, status: None }
}

impl JsEngine {
    /// Evaluates `module` in the scope `ctx` and binds the object that it
    /// yields to the global name `handlers`, then binds the global name
    /// `print` to the one function that the server lends to a script.
    pub(crate) fn install<'js>(ctx: &rquickjs::Ctx<'js>, module: &str) -> (done: Result<(), EngineError>)
        ensures
            done matches Err(error) ==> error@ is EvalFailure,
    {
        let handlers = eval_step(eval_object(ctx, module))?;
        let global = globals(ctx);
        eval_step(set_object(&global, "handlers", handlers))?;
        let print = eval_step(print_function(ctx))?;
        eval_step(set_object(&global, "print", print))
    }

    /// The object that a map of texts is handed over as: a fresh object
    /// with one own property, a string, for each name of the map, whatever
    /// the name is.
    pub(crate) fn map_object<'js>(ctx: &rquickjs::Ctx<'js>, map: &TextMap) -> (made: Result<
        rquickjs::Object<'js>,
        EngineError,
    >)
        ensures
            made matches Ok(object) ==> object_fields(object) == text_fields(map@),
            made matches Err(error) ==> error@ is HandlerFailed,
    {
        let pairs = map.entries();
        let mut object = call_step(object_new(ctx))?;
        assert(object_fields(object) =~= text_fields(map_first(pairs_view(pairs@), 0)));
        let mut i: usize = 0;
        while i < pairs.len()
            invariant
                i <= pairs.len(),
                object_fields(object) == text_fields(map_first(pairs_view(pairs@), i as nat)),
            decreases pairs.len() - i,
        {
            let ghost before = map_first(pairs_view(pairs@), i as nat);
            call_step(define_text(&mut object, pairs[i].0.as_str(), pairs[i].1.as_str()))?;
            assert(text_fields(before.insert(pairs[i as int].0@, pairs[i as int].1@))
                =~= text_fields(before).insert(
                pairs[i as int].0@,
                GuestField::Text(pairs[i as int].1@),
            ));
            i = i + 1;
        }
        Ok(object)
    }

    /// The object that a handler is called with: a fresh object that is
    /// given each field of the request as an own property under its name,
    /// and nothing else. No field is left out or cut short, and no name of
    /// a header, of the query or of a parameter is. A step that the
    /// interpreter refuses ends the making with the interpreter's words.
    pub(crate) fn request_object<'js>(ctx: &rquickjs::Ctx<'js>, req: &Req) -> (made: Result<
        rquickjs::Object<'js>,
        EngineError,
    >)
        ensures
            made matches Ok(object) ==> object_fields(object) == request_fields(*req),
            made matches Err(error) ==> error@ is HandlerFailed,
    {
        let mut object = call_step(object_new(ctx))?;
        let headers = Self::map_object(ctx, &req.headers)?;
        call_step(define_object(&mut object, "headers", headers))?;
        call_step(define_optional_text(&mut object, "body", &req.body))?;
        call_step(define_text(&mut object, "method", req.method.as_str()))?;
        call_step(define_text(&mut object, "url", req.url.as_str()))?;
        let query = Self::map_object(ctx, &req.query)?;
        call_step(define_object(&mut object, "query", query))?;
        let params = Self::map_object(ctx, &req.params)?;
        call_step(define_object(&mut object, "params", params))?;
        Ok(object)
    }

    /// What a handler's result holds under the names of the fields of a
    /// response.
    pub(crate) fn response_fields<'js>(result: &rquickjs::Object<'js>) -> GuestResponse {
        let headers = get_map(result, "headers");
        let body = get_optional_text(result, "body");
        let status = get_integer(result, "status");
        GuestResponse { headers, body, status }
    }

    /// Calls the handler `name` of the script installed in `ctx` with the
    /// request, waits for the promise that it returns, and reads the fields
    /// of a response from the result.
    pub(crate) fn call<'js>(ctx: &rquickjs::Ctx<'js>, name: &str, req: &Req) -> (outcome: Result<
        GuestResponse,
        EngineError,
    >)
        ensures
            outcome matches Err(error) ==> error@ == EngineErrorView::HandlerNotFound(name@)
                || error@ is HandlerFailed,
    {
        let global = globals(ctx);
        let handlers = match get_object(&global, "handlers") {
            Some(handlers) => handlers,
            None => {
                return Err(EngineError::HandlerNotFound(name.to_owned()));
            },
        };
        let function = match get_function(&handlers, name) {
            Some(function) => function,
            None => {
                return Err(EngineError::HandlerNotFound(name.to_owned()));
            },
        };
        let argument = Self::request_object(ctx, req)?;
        match call_step(call_function(&function, argument))? {
            Some(result) => Ok(Self::response_fields(&result)),
            None => Ok(no_fields()),
        }
    }

    /// What a request comes to once its handler has been called: the
    /// response that the handler's result stands for, or the failure of
    /// the call.
    pub fn response_of(called: Result<GuestResponse, EngineError>) -> (outcome: Result<
        Res,
        EngineError,
    >)
        ensures
            match called {
                Err(failure) => outcome matches Err(error) && error@ == failure@,
                Ok(raw) => match malformed_field(raw) {
                    Some(field) => outcome matches Err(error) && error@
                        == EngineErrorView::MalformedResponse(field),
                    None => outcome matches Ok(res) && {
                        &&& res.status == raw.status.unwrap()
                        &&& res.headers@ == map_of(pairs_view(raw.headers.unwrap()@))
                        &&& text_view(res.body) == text_view(raw.body.unwrap())
                    },
                },
            },
    {
        match called {
            Err(failure) => Err(failure),
            Ok(raw) => Res::from_guest(raw),
        }
    }

    /// The failure of a call as the engine reports it: that the handler
    /// `name` was not found, or that the handler failed. A failure of
    /// another kind is reported as a failure of the handler, with its
    /// sentence.
    pub fn call_failure(name: &str, failure: EngineError) -> (reported: EngineError)
        ensures
            reported@ == match failure@ {
                EngineErrorView::HandlerNotFound(_) => EngineErrorView::HandlerNotFound(name@),
                EngineErrorView::HandlerFailed(words) => EngineErrorView::HandlerFailed(words),
                other => EngineErrorView::HandlerFailed(other.message()),
            },
    {
        match failure {
            EngineError::HandlerNotFound(_) => EngineError::HandlerNotFound(name.to_owned()),
            EngineError::HandlerFailed(words) => EngineError::HandlerFailed(words),
            other => EngineError::HandlerFailed(other.message()),
        }
    }

    /// An interpreter of its own with no script in it: a call of a handler
    /// finds none.
    pub fn init() -> (made: Result<JsEngine, EngineError>)
        ensures
            made matches Err(error) ==> error@ is EvalFailure,
    {
        let rt = eval_step(runtime_new())?;
        let ctx = eval_step(context_full(&rt))?;
        Ok(JsEngine { rt, ctx })
    }

    /// An interpreter of its own for `module`: the script is evaluated as
    /// one expression, which must yield the object of the handlers.
    pub fn new(module: &str) -> (made: Result<JsEngine, EngineError>)
        ensures
            made matches Err(error) ==> error@ is EvalFailure,
    {
        let rt = eval_step(runtime_new())?;
        let ctx = eval_step(context_full(&rt))?;
        match with_install(&ctx, module) {
            Ok(()) => Ok(JsEngine { rt, ctx }),
            Err(EngineError::EvalFailure(words)) => Err(EngineError::EvalFailure(words)),
            Err(other) => Err(EngineError::EvalFailure(other.message())),
        }
    }

    /// Calls the handler `name` with `req` and returns its response. The
    /// call does not return before the handler's promise is settled. A
    /// response that is returned carries a status that HTTP allows. A
    /// failure is one of three: the handler was not found, the handler
    /// failed, or a field of its result, named in the error, is missing or
    /// of the wrong type.
    pub fn run(&self, name: &str, req: Req) -> (outcome: Result<Res, EngineError>)
        ensures
            outcome matches Ok(res) ==> valid_status(res.status as int),
            outcome matches Err(error) ==> {
                ||| error@ == EngineErrorView::HandlerNotFound(name@)
                ||| error@ is HandlerFailed
                ||| error@ == EngineErrorView::MalformedResponse("headers"@)
                ||| error@ == EngineErrorView::MalformedResponse("body"@)
                ||| error@ == EngineErrorView::MalformedResponse("status"@)
            },
    {
        match with_call(&self.ctx, name, &req) {
            Ok(raw) => Self::response_of(Ok(raw)),
            Err(failure) => Err(Self::call_failure(name, failure)),
        }
    }
}

} // verus!
