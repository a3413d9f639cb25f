use dino::config::{ProjectRoute, ProjectRouters};
use dino::error::AppError;
use dino::method::Method;
use dino::router::SwappableAppRouter;

fn route(method: Method, handler: &str) -> ProjectRoute {
    ProjectRoute::new(method, handler.to_string())
}

fn hello_routes() -> ProjectRouters {
    ProjectRouters::from_iter([
        (
            "/api/hello/:id".to_string(),
            vec![route(Method::Get, "hello"), route(Method::Post, "world")],
        ),
        (
            "/api/:name/:id".to_string(),
            vec![route(Method::Get, "hello1")],
        ),
    ])
}

fn goodbye_routes() -> ProjectRouters {
    ProjectRouters::from_iter([(
        "/api/goodbye/:id".to_string(),
        vec![route(Method::Get, "handler1"), route(Method::Post, "handler2")],
    )])
}

#[test]
fn app_router_match_should_work() {
    let code = "".to_string();
    let router = SwappableAppRouter::new(code, hello_routes()).unwrap();
    let app_router = router.load();
    let matched = app_router.match_it(Method::Get, "/api/hello/1").unwrap();
    assert_eq!(matched.value, "hello");
    assert_eq!(matched.params.get("id"), Some("1"));
}

#[test]
fn app_router_swap_should_work() {
    let code = "".to_string();
    let mut router = SwappableAppRouter::new(code, hello_routes()).unwrap();
    let app_router = router.load();
    let matched = app_router.match_it(Method::Get, "/api/hello/1").unwrap();
    assert_eq!(matched.value, "hello");
    assert_eq!(matched.params.get("id"), Some("1"));

    let code = "".to_string();
    router.swap(code, goodbye_routes()).unwrap();
    let app_router = router.load();
    let matched = app_router.match_it(Method::Get, "/api/goodbye/2").unwrap();
    assert_eq!(matched.value, "handler1");
}

#[test]
fn method_not_declared_is_not_allowed() {
    let router = SwappableAppRouter::new("".to_string(), goodbye_routes()).unwrap();
    let outcome = router.load().match_it(Method::Put, "/api/goodbye/2");
    assert!(matches!(outcome, Err(AppError::RouterMethodNotAllow(Method::Put))));
}
