use dino::config::{ProjectRoute, ProjectRouters};
use dino::error::{AppError, RouteBuildError};
use dino::method::{Method, MethodRoute};
use dino::router::{route_outcome, Params, RouteIndex, SwappableAppRouter, TenentRouter};

fn route(method: Method, handler: &str) -> ProjectRoute {
    ProjectRoute::new(method, handler.to_string())
}

fn entry(pattern: &str, routes: Vec<ProjectRoute>) -> (String, Vec<ProjectRoute>) {
    (pattern.to_string(), routes)
}

fn ordered(entries: Vec<(String, Vec<ProjectRoute>)>) -> ProjectRouters {
    entries.into_iter().collect()
}

#[test]
fn static_pattern_wins_over_parameter() {
    let routes = vec![
        entry("/a/:id", vec![route(Method::Get, "by_id")]),
        entry("/a/static", vec![route(Method::Get, "fixed")]),
    ];
    let router = SwappableAppRouter::new(String::new(), ordered(routes)).unwrap();
    let snapshot = router.load();
    let matched = snapshot.match_it(Method::Get, "/a/static").unwrap();
    assert_eq!(matched.value, "fixed");
    assert!(matched.params.is_empty());
    let matched = snapshot.match_it(Method::Get, "/a/17").unwrap();
    assert_eq!(matched.value, "by_id");
    assert_eq!(matched.params.get("id"), Some("17"));
}

#[test]
fn get_only_pattern_refuses_post() {
    let routes = vec![entry("/only", vec![route(Method::Get, "g")])];
    let router = SwappableAppRouter::new(String::new(), ordered(routes)).unwrap();
    match router.load().match_it(Method::Post, "/only") {
        Err(AppError::RouterMethodNotAllow(Method::Post)) => {}
        other => panic!("unexpected outcome: {other:?}"),
    }
}

#[test]
fn each_method_finds_its_own_handler() {
    let routes = vec![entry(
        "/r",
        vec![
            route(Method::Get, "g"),
            route(Method::Head, "h"),
            route(Method::Delete, "d"),
            route(Method::Options, "o"),
            route(Method::Patch, "pa"),
            route(Method::Post, "po"),
            route(Method::Put, "pu"),
            route(Method::Trace, "t"),
            route(Method::Connect, "c"),
        ],
    )];
    let router = SwappableAppRouter::new(String::new(), ordered(routes)).unwrap();
    let snapshot = router.load();
    let expect = [
        (Method::Get, "g"),
        (Method::Head, "h"),
        (Method::Delete, "d"),
        (Method::Options, "o"),
        (Method::Patch, "pa"),
        (Method::Post, "po"),
        (Method::Put, "pu"),
        (Method::Trace, "t"),
        (Method::Connect, "c"),
    ];
    for (method, handler) in expect {
        assert_eq!(snapshot.match_it(method, "/r").unwrap().value, handler);
    }
}

#[test]
fn extension_method_is_not_allowed() {
    let routes = vec![entry("/r", vec![route(Method::Get, "g")])];
    let router = SwappableAppRouter::new(String::new(), ordered(routes)).unwrap();
    match router.load().match_it(Method::Other("PROPFIND".to_string()), "/r") {
        Err(AppError::RouterMethodNotAllow(Method::Other(name))) => assert_eq!(name, "PROPFIND"),
        other => panic!("unexpected outcome: {other:?}"),
    }
}

#[test]
fn unknown_path_is_not_found() {
    let routes = vec![entry("/api/hello/:id", vec![route(Method::Get, "hello")])];
    let router = SwappableAppRouter::new(String::new(), ordered(routes)).unwrap();
    match router.load().match_it(Method::Get, "/does/not/exist") {
        Err(AppError::RouterPathNotFound(path)) => assert_eq!(path, "/does/not/exist"),
        other => panic!("unexpected outcome: {other:?}"),
    }
}

#[test]
fn empty_table_knows_no_path() {
    let router = SwappableAppRouter::new(String::new(), ProjectRouters::new()).unwrap();
    assert!(matches!(
        router.load().match_it(Method::Get, "/"),
        Err(AppError::RouterPathNotFound(_))
    ));
}

#[test]
fn trailing_wildcard_captures_the_rest() {
    let routes = vec![entry("/files/*rest", vec![route(Method::Get, "files")])];
    let router = SwappableAppRouter::new(String::new(), ordered(routes)).unwrap();
    let matched = router.load().match_it(Method::Get, "/files/a/b.txt").unwrap();
    assert_eq!(matched.value, "files");
    assert_eq!(matched.params.get("rest"), Some("a/b.txt"));
}

#[test]
fn parameters_come_in_the_order_of_the_pattern() {
    let routes = vec![entry("/api/:name/:id", vec![route(Method::Get, "h")])];
    let router = SwappableAppRouter::new(String::new(), ordered(routes)).unwrap();
    let matched = router.load().match_it(Method::Get, "/api/x/9").unwrap();
    assert_eq!(matched.params.len(), 2);
    assert_eq!(
        matched.params.into_pairs(),
        vec![
            ("name".to_string(), "x".to_string()),
            ("id".to_string(), "9".to_string())
        ]
    );
}

#[test]
fn later_declaration_of_a_method_replaces_the_earlier() {
    let routes = vec![entry(
        "/r",
        vec![route(Method::Get, "first"), route(Method::Get, "second")],
    )];
    let router = SwappableAppRouter::new(String::new(), ordered(routes)).unwrap();
    assert_eq!(
        router.load().match_it(Method::Get, "/r").unwrap().value,
        "second"
    );
}

#[test]
fn colliding_patterns_are_refused() {
    let routes = vec![
        entry("/a/:id", vec![route(Method::Get, "one")]),
        entry("/a/:name", vec![route(Method::Get, "two")]),
    ];
    match SwappableAppRouter::new(String::new(), ordered(routes)) {
        Err(AppError::RouteBuild(RouteBuildError::Conflict { with })) => {
            assert_eq!(with, "/a/:id")
        }
        Err(other) => panic!("unexpected error: {other:?}"),
        Ok(_) => panic!("collision accepted"),
    }
}

#[test]
fn malformed_patterns_are_refused() {
    let unnamed = vec![entry("/a/:", vec![route(Method::Get, "h")])];
    assert!(matches!(
        RouteIndex::build(&ordered(unnamed)),
        Err(RouteBuildError::UnnamedParam)
    ));
    let two = vec![entry("/a/:x:y", vec![route(Method::Get, "h")])];
    assert!(matches!(
        RouteIndex::build(&ordered(two)),
        Err(RouteBuildError::TooManyParams)
    ));
    let middle = vec![entry("/a/*x/b", vec![route(Method::Get, "h")])];
    assert!(matches!(
        RouteIndex::build(&ordered(middle)),
        Err(RouteBuildError::InvalidCatchAll)
    ));
}

#[test]
fn unsupported_method_is_refused() {
    let routes = vec![entry("/r", vec![route(Method::Other("BREW".to_string()), "h")])];
    match SwappableAppRouter::get_router(&ordered(routes)) {
        Err(AppError::RouteBuild(RouteBuildError::UnsupportedMethod(name))) => {
            assert_eq!(name, "BREW")
        }
        Err(other) => panic!("unexpected error: {other:?}"),
        Ok(_) => panic!("method accepted"),
    }
}

#[test]
fn pattern_with_too_many_parameters_is_refused() {
    let mut pattern = String::new();
    for i in 0..26 {
        pattern.push_str(&format!("/:p{i}"));
    }
    let routes = vec![entry(&pattern, vec![route(Method::Get, "h")])];
    assert!(matches!(
        RouteIndex::build(&ordered(routes)),
        Err(RouteBuildError::ParamLimit)
    ));
    let mut pattern = String::new();
    for i in 0..25 {
        pattern.push_str(&format!("/:p{i}"));
    }
    let routes = vec![entry(&pattern, vec![route(Method::Get, "h")])];
    let index = RouteIndex::build(&ordered(routes)).unwrap();
    assert_eq!(index.len(), 1);
}

#[test]
fn first_refused_entry_decides_the_error() {
    let routes = vec![
        entry("/ok", vec![route(Method::Get, "h")]),
        entry("/a/:", vec![route(Method::Get, "h")]),
        entry("/b/*x/c", vec![route(Method::Get, "h")]),
    ];
    assert!(matches!(
        RouteIndex::build(&ordered(routes)),
        Err(RouteBuildError::UnnamedParam)
    ));
}

#[test]
fn failed_swap_leaves_the_snapshot_in_force() {
    let first = vec![entry("/api/hello/:id", vec![route(Method::Get, "hello")])];
    let mut router = SwappableAppRouter::new("v1".to_string(), ordered(first)).unwrap();
    let reader = TenentRouter::new("localhost".to_string(), &router);
    let bad = vec![
        entry("/x/:id", vec![route(Method::Get, "a")]),
        entry("/x/:other", vec![route(Method::Get, "b")]),
    ];
    assert!(matches!(
        router.swap("v2".to_string(), ordered(bad)),
        Err(AppError::RouteBuild(_))
    ));
    for snapshot in [router.load(), reader.load()] {
        assert_eq!(snapshot.code(), "v1");
        assert_eq!(
            snapshot.match_it(Method::Get, "/api/hello/1").unwrap().value,
            "hello"
        );
        assert!(snapshot.match_it(Method::Get, "/x/1").is_err());
    }
}

#[test]
fn swap_is_seen_by_every_later_load() {
    let first = vec![entry("/one", vec![route(Method::Get, "h1")])];
    let second = vec![entry("/two", vec![route(Method::Get, "h2")])];
    let mut router = SwappableAppRouter::new("v1".to_string(), ordered(first)).unwrap();
    let reader = TenentRouter::new("localhost".to_string(), &router);
    let held = reader.load();
    router.swap("v2".to_string(), ordered(second)).unwrap();
    for _ in 0..3 {
        for snapshot in [router.load(), reader.load()] {
            assert_eq!(snapshot.code(), "v2");
            assert_eq!(snapshot.match_it(Method::Get, "/two").unwrap().value, "h2");
            assert!(snapshot.match_it(Method::Get, "/one").is_err());
        }
    }
    assert_eq!(held.code(), "v1");
    assert_eq!(held.match_it(Method::Get, "/one").unwrap().value, "h1");
    assert!(held.match_it(Method::Get, "/two").is_err());
}

#[test]
fn loads_between_swaps_see_whole_snapshots() {
    let table = |n: usize| vec![entry(&format!("/v{n}"), vec![route(Method::Get, "h")])];
    let mut router = SwappableAppRouter::new("0".to_string(), ordered(table(0))).unwrap();
    let reader = TenentRouter::new("localhost".to_string(), &router);
    let mut held = Vec::new();
    for n in 1..50 {
        held.push(reader.load());
        router.swap(n.to_string(), ordered(table(n))).unwrap();
        let snapshot = reader.load();
        assert_eq!(snapshot.code(), n.to_string());
    }
    for (n, snapshot) in held.iter().enumerate() {
        let version: usize = snapshot.code().parse().unwrap();
        assert_eq!(version, n);
        assert!(snapshot.match_it(Method::Get, &format!("/v{n}")).is_ok());
        assert!(snapshot.match_it(Method::Get, &format!("/v{}", n + 1)).is_err());
    }
}

#[test]
fn outcome_for_each_answer_of_the_matcher() {
    let mut table = MethodRoute::new();
    assert!(table.bind(&Method::Get, "h".to_string()));
    assert!(!table.bind(&Method::Other("X".to_string()), "h".to_string()));
    let params = || Params::new(vec![("id".to_string(), "1".to_string())]);
    let found = route_outcome(Some((&table, params())), Method::Get, "/p").unwrap();
    assert_eq!(found.value, "h");
    assert_eq!(found.params.get("id"), Some("1"));
    assert_eq!(found.params.get("no"), None);
    assert!(matches!(
        route_outcome(Some((&table, params())), Method::Post, "/p"),
        Err(AppError::RouterMethodNotAllow(Method::Post))
    ));
    match route_outcome(None, Method::Get, "/p") {
        Err(AppError::RouterPathNotFound(path)) => assert_eq!(path, "/p"),
        other => panic!("unexpected outcome: {other:?}"),
    }
}
