//! The QuickJS interpreter of the `rquickjs` crate, as the script engine
//! uses it.
//!
//! Nothing in this file is proved, and little is stated: what a script does
//! is its own affair. Each function makes one step in the interpreter and
//! hands back plain values, or a handle on a value of the script; a step
//! that fails is reported with the interpreter's own words. A script that
//! does not end keeps the step that runs it from returning.

use vstd::prelude::*;
use std::collections::HashMap;
use std::io::Write;
use crate::jsengine::{print, JsEngine};
use crate::request::{text_view, GuestField, GuestResponse, Req};
use crate::error::EngineError;

verus! {

#[verifier::external_type_specification]
#[verifier::external_body]
pub struct ExRuntime(rquickjs::Runtime);

#[verifier::external_type_specification]
#[verifier::external_body]
pub struct ExContext(rquickjs::Context);

#[verifier::external_type_specification]
#[verifier::external_body]
pub struct ExCtx<'js>(rquickjs::Ctx<'js>);

#[verifier::external_type_specification]
#[verifier::external_body]
pub struct ExObject<'js>(rquickjs::Object<'js>);

#[verifier::external_type_specification]
#[verifier::external_body]
pub struct ExFunction<'js>(rquickjs::Function<'js>);

/// `rquickjs::Runtime::new`: a fresh interpreter.
#[verifier::external_body]
pub(crate) fn runtime_new() -> Result<rquickjs::Runtime, String> {
    rquickjs::Runtime::new().map_err(|e| e.to_string())
}

/// `rquickjs::Context::full`: a fresh global scope in `runtime`, with the
/// standard objects of the language.
#[verifier::external_body]
pub(crate) fn context_full(runtime: &rquickjs::Runtime) -> Result<rquickjs::Context, String> {
    rquickjs::Context::full(runtime).map_err(|e| e.to_string())
}

/// `rquickjs::Context::with`, for the evaluation of a module: hands the
/// locked scope to `JsEngine::install` and returns what that returns.
#[verifier::external_body]
pub(crate) fn with_install(context: &rquickjs::Context, module: &str) -> Result<(), EngineError> {
    context.with(|ctx| JsEngine::install(&ctx, module))
}

/// `rquickjs::Context::with`, for the call of a handler: hands the locked
/// scope to `JsEngine::call` and returns what that returns.
#[verifier::external_body]
pub(crate) fn with_call(context: &rquickjs::Context, name: &str, req: &Req) -> Result<
    GuestResponse,
    EngineError,
> {
    context.with(|ctx| JsEngine::call(&ctx, name, req))
}

/// `rquickjs::Ctx::eval`: the object that `source` evaluates to. A source
/// that does not evaluate, or evaluates to something else than an object,
/// is an error.
#[verifier::external_body]
pub(crate) fn eval_object<'js>(ctx: &rquickjs::Ctx<'js>, source: &str) -> Result<
    rquickjs::Object<'js>,
    String,
> {
    ctx.eval::<rquickjs::Object, _>(source).map_err(|e| e.to_string())
}

/// The own properties that have been defined on an object since
/// `object_new` made it: each name with the value that was last handed in
/// for it. It is said of an object that has one handle only, as every
/// object has that is made here, until it is handed to the script.
pub uninterp spec fn object_fields(object: rquickjs::Object<'_>) -> Map<Seq<char>, GuestField>;

/// `rquickjs::Object::new`: an object without properties.
#[verifier::external_body]
pub(crate) fn object_new<'js>(ctx: &rquickjs::Ctx<'js>) -> (made: Result<
    rquickjs::Object<'js>,
    String,
>)
    ensures
        made matches Ok(object) ==> object_fields(object) == (Map::<
            Seq<char>,
            GuestField,
        >::empty()),
{
    rquickjs::Object::new(ctx.clone()).map_err(|e| e.to_string())
}

/// `rquickjs::Ctx::globals`: the global object of the scope.
#[verifier::external_body]
pub(crate) fn globals<'js>(ctx: &rquickjs::Ctx<'js>) -> rquickjs::Object<'js> {
    ctx.globals()
}

/// `rquickjs::Function::new` and `with_name`: a function of the script
/// named `print` that hands its argument, a string, to `print` of the
/// engine.
#[verifier::external_body]
pub(crate) fn print_function<'js>(ctx: &rquickjs::Ctx<'js>) -> Result<
    rquickjs::Object<'js>,
    String,
> {
    rquickjs::Function::new(ctx.clone(), print).and_then(|f| f.with_name("print")).map(
        |f| f.into_inner(),
    ).map_err(|e| e.to_string())
}

/// `std::io::Write::write_fmt` on the standard output: writes `text` and a
/// line break. A line that cannot be written is lost.
#[verifier::external_body]
pub(crate) fn write_line(text: &str) {
    let _ = writeln!(std::io::stdout(), "{text}");
}

/// `rquickjs::Object::set` with an object: binds `name` in `object` to
/// `value`.
#[verifier::external_body]
pub(crate) fn set_object<'js>(
    object: &rquickjs::Object<'js>,
    name: &str,
    value: rquickjs::Object<'js>,
) -> Result<(), String> {
    object.set(name, value).map_err(|e| e.to_string())
}

/// `rquickjs::Object::prop` with a string: defines `name` as an own
/// property of `object`, writable, enumerable and configurable, that holds
/// the text. An own property is defined whatever the name is. Where it
/// fails, nothing is said of the object.
#[verifier::external_body]
pub(crate) fn define_text<'js>(object: &mut rquickjs::Object<'js>, name: &str, value: &str) -> (done:
    Result<(), String>)
    ensures
        done is Ok ==> object_fields(*final(object)) == object_fields(*old(object)).insert(
            name@,
            GuestField::Text(value@),
        ),
{
    let property = rquickjs::object::Property::from(value);
    object.prop(name, property.writable().enumerable().configurable()).map_err(|e| e.to_string())
}

/// `rquickjs::Object::prop` with an optional string: defines `name` as an
/// own property of `object`, writable, enumerable and configurable, that
/// holds the text, or `undefined` where there is none. Where it fails,
/// nothing is said of the object.
#[verifier::external_body]
pub(crate) fn define_optional_text<'js>(
    object: &mut rquickjs::Object<'js>,
    name: &str,
    value: &Option<String>,
) -> (done: Result<(), String>)
    ensures
        done is Ok ==> object_fields(*final(object)) == object_fields(*old(object)).insert(
            name@,
            GuestField::OptionalText(text_view(*value)),
        ),
{
    let property = rquickjs::object::Property::from(value.clone());
    object.prop(name, property.writable().enumerable().configurable()).map_err(|e| e.to_string())
}

/// `rquickjs::Object::prop` with an object: defines `name` as an own
/// property of `object`, writable, enumerable and configurable, that holds
/// `value`, which is given up with the call. Where it fails, nothing is
/// said of the object.
#[verifier::external_body]
pub(crate) fn define_object<'js>(
    object: &mut rquickjs::Object<'js>,
    name: &str,
    value: rquickjs::Object<'js>,
) -> (done: Result<(), String>)
    ensures
        done is Ok ==> object_fields(*final(object)) == object_fields(*old(object)).insert(
            name@,
            GuestField::Object(object_fields(value)),
        ),
{
    let property = rquickjs::object::Property::from(value);
    object.prop(name, property.writable().enumerable().configurable()).map_err(|e| e.to_string())
}

/// `rquickjs::Object::get` for an object: what `name` is bound to in
/// `object`, where that is an object.
#[verifier::external_body]
pub(crate) fn get_object<'js>(object: &rquickjs::Object<'js>, name: &str) -> Option<
    rquickjs::Object<'js>,
> {
    object.get::<_, rquickjs::Object>(name).ok()
}

/// `rquickjs::Object::get` for a function: what `name` is bound to in
/// `object`, where that is a function.
#[verifier::external_body]
pub(crate) fn get_function<'js>(object: &rquickjs::Object<'js>, name: &str) -> Option<
    rquickjs::Function<'js>,
> {
    object.get::<_, rquickjs::Function>(name).ok()
}

/// `rquickjs::Object::get` for an integer: what `name` is bound to in
/// `object`, where that is a number held as an integer.
#[verifier::external_body]
pub(crate) fn get_integer<'js>(object: &rquickjs::Object<'js>, name: &str) -> Option<i32> {
    object.get::<_, i32>(name).ok()
}

/// `rquickjs::Object::get` for an optional string: `Some(None)` where
/// `name` is bound to nothing, `undefined` or `null`; the text where it is
/// bound to a string; `None` for every other value.
#[verifier::external_body]
pub(crate) fn get_optional_text<'js>(object: &rquickjs::Object<'js>, name: &str) -> Option<
    Option<String>,
> {
    object.get::<_, Option<String>>(name).ok()
}

/// `rquickjs::Object::get` for a map of strings: the properties of the
/// object that `name` is bound to, where it is an object and each of its
/// properties is a string; `None` otherwise.
#[verifier::external_body]
pub(crate) fn get_map<'js>(object: &rquickjs::Object<'js>, name: &str) -> Option<
    Vec<(String, String)>,
> {
    object.get::<_, HashMap<String, String>>(name).ok().map(|m| m.into_iter().collect())
}

/// `rquickjs::Function::call` and `Promise::finish`: calls `function` with
/// `argument`, takes what it returns as a promise and runs the pending jobs
/// of the interpreter until the promise is settled. The object that the
/// promise yields; `Ok(None)` where it yields something else than an
/// object. An exception, a result that is no promise, a rejection and a
/// promise that nothing settles are errors.
#[verifier::external_body]
pub(crate) fn call_function<'js>(
    function: &rquickjs::Function<'js>,
    argument: rquickjs::Object<'js>,
) -> Result<Option<rquickjs::Object<'js>>, String> {
    function.call::<_, rquickjs::Promise>((argument,)).and_then(
        |p| p.finish::<rquickjs::Value>(),
    ).map(|v| v.into_object()).map_err(|e| e.to_string())
}

} // verus!
