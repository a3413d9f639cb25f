use dino::config::{ProjectRoute, ProjectRouters};
use dino::error::{AppError, EngineError};
use dino::fields::TextMap;
use dino::method::Method;
use dino::request::{
    body_text, get_request_parts, header_text, GuestResponse, RequestParts, Res,
};
use dino::router::{Match, Params, SwappableAppRouter, TenentRouter};
use dino::server::{answer, handler, prepare, serve};
use dino::state::{get_router_by_host, AppState};

const ECHO: &str = r#"
    (function(){
        async function hello(req){
            return{
                status:200,
                headers:{"content-type":"application/json"},
                body:JSON.stringify(req),
            };
        }
        return{hello:hello};})();
"#;

fn routes(pattern: &str, handler: &str) -> ProjectRouters {
    ProjectRouters::from_iter([(
        pattern.to_string(),
        vec![ProjectRoute::new(Method::Get, handler.to_string())],
    )])
}

fn parts(method: Method, uri: &str, path: &str, headers: Vec<(&str, &[u8])>) -> RequestParts {
    RequestParts {
        method,
        uri: uri.to_string(),
        path: path.to_string(),
        headers: headers
            .into_iter()
            .map(|(k, v)| (k.to_string(), v.to_vec()))
            .collect(),
    }
}

fn two_tenants() -> (SwappableAppRouter, SwappableAppRouter, AppState) {
    let a = SwappableAppRouter::new("a".to_string(), routes("/a", "ha")).unwrap();
    let b = SwappableAppRouter::new("b".to_string(), routes("/b", "hb")).unwrap();
    let state = AppState::new(vec![
        TenentRouter::new("a.example".to_string(), &a),
        TenentRouter::new("b.example".to_string(), &b),
    ]);
    (a, b, state)
}

#[test]
fn hosts_resolve_to_their_own_tenants() {
    let (_a, _b, state) = two_tenants();
    let a = get_router_by_host("a.example", &state).unwrap();
    assert_eq!(a.code(), "a");
    assert_eq!(a.match_it(Method::Get, "/a").unwrap().value, "ha");
    assert!(matches!(
        a.match_it(Method::Get, "/b"),
        Err(AppError::RouterPathNotFound(_))
    ));
    let b = get_router_by_host("b.example", &state).unwrap();
    assert_eq!(b.code(), "b");
    assert_eq!(b.match_it(Method::Get, "/b").unwrap().value, "hb");
    assert!(b.match_it(Method::Get, "/a").is_err());
    assert_eq!(state.resolve("a.example").unwrap().host(), "a.example");
}

#[test]
fn unregistered_host_is_not_found() {
    let (_a, _b, state) = two_tenants();
    match get_router_by_host("c.example", &state) {
        Err(AppError::HostNotFound(host)) => assert_eq!(host, "c.example"),
        Err(other) => panic!("unexpected error: {other:?}"),
        Ok(_) => panic!("host resolved"),
    }
}

#[test]
fn port_of_the_host_does_not_count() {
    let (_a, _b, state) = two_tenants();
    assert_eq!(
        get_router_by_host("b.example:8080", &state).unwrap().code(),
        "b"
    );
    match get_router_by_host("c.example:8080", &state) {
        Err(AppError::HostNotFound(host)) => assert_eq!(host, "c.example"),
        _ => panic!("host resolved"),
    }
    match get_router_by_host(":8080", &state) {
        Err(AppError::HostNotFound(host)) => assert_eq!(host, ""),
        _ => panic!("host resolved"),
    }
}

#[test]
fn later_tenant_of_a_host_is_served() {
    let a = SwappableAppRouter::new("first".to_string(), routes("/a", "ha")).unwrap();
    let b = SwappableAppRouter::new("second".to_string(), routes("/b", "hb")).unwrap();
    let state = AppState::new(vec![
        TenentRouter::new("same".to_string(), &a),
        TenentRouter::new("same".to_string(), &b),
    ]);
    assert_eq!(get_router_by_host("same", &state).unwrap().code(), "second");
}

#[test]
fn registry_follows_the_swaps_of_a_tenant() {
    let (mut a, _b, state) = two_tenants();
    a.swap("a2".to_string(), routes("/new", "hn")).unwrap();
    let snapshot = get_router_by_host("a.example", &state).unwrap();
    assert_eq!(snapshot.code(), "a2");
    assert_eq!(snapshot.match_it(Method::Get, "/new").unwrap().value, "hn");
    assert_eq!(get_router_by_host("b.example", &state).unwrap().code(), "b");
}

#[test]
fn header_text_is_lenient() {
    assert_eq!(header_text(&b"application/json".to_vec()), "application/json");
    assert_eq!(header_text(&b"a\tb ~".to_vec()), "a\tb ~");
    assert_eq!(header_text(&vec![b'a', 0xff]), "");
    assert_eq!(header_text(&vec![b'a', 127]), "");
    assert_eq!(header_text(&vec![b'a', 31]), "");
    assert_eq!(header_text(&"é".as_bytes().to_vec()), "");
    assert_eq!(header_text(&Vec::new()), "");
}

#[test]
fn body_text_drops_what_is_no_text() {
    assert_eq!(body_text(None), None);
    assert_eq!(body_text(Some(Vec::new())), None);
    assert_eq!(body_text(Some(vec![0xff, 0xfe])), None);
    assert_eq!(body_text(Some(b"{}".to_vec())), Some("{}".to_string()));
    assert_eq!(
        body_text(Some("héllo".as_bytes().to_vec())),
        Some("héllo".to_string())
    );
}

#[test]
fn request_keeps_every_field() {
    let mut query = TextMap::new();
    query.insert("q".to_string(), "1".to_string());
    let matched = Match {
        value: "hello".to_string(),
        params: Params::new(vec![("id".to_string(), "7".to_string())]),
    };
    let req = get_request_parts(
        parts(
            Method::Post,
            "http://localhost:8080/api/hello/7?q=1",
            "/api/hello/7",
            vec![
                ("content-type", b"application/json"),
                ("x-dup", b"one"),
                ("x-dup", b"two"),
                ("x-bin", &[0xff]),
            ],
        ),
        Some(b"payload".to_vec()),
        matched,
        query,
    )
    .unwrap();
    assert_eq!(req.method, "POST");
    assert_eq!(req.url, "http://localhost:8080/api/hello/7?q=1");
    assert_eq!(req.body, Some("payload".to_string()));
    assert_eq!(req.headers.len(), 3);
    assert_eq!(req.headers.get("content-type"), Some("application/json"));
    assert_eq!(req.headers.get("x-dup"), Some("two"));
    assert_eq!(req.headers.get("x-bin"), Some(""));
    assert_eq!(req.query.get("q"), Some("1"));
    assert_eq!(req.params.get("id"), Some("7"));
}

#[test]
fn response_is_read_fail_closed() {
    let whole = || GuestResponse {
        headers: Some(vec![("a".to_string(), "b".to_string())]),
        body: Some(Some("x".to_string())),
        status: Some(201),
    };
    let res = Res::from_guest(whole()).unwrap();
    assert_eq!(res.status, 201);
    assert_eq!(res.body, Some("x".to_string()));
    assert_eq!(res.headers.get("a"), Some("b"));
    let field = |raw: GuestResponse| match Res::from_guest(raw) {
        Err(EngineError::MalformedResponse(field)) => field,
        other => panic!("unexpected outcome: {other:?}"),
    };
    assert_eq!(field(GuestResponse { headers: None, ..whole() }), "headers");
    assert_eq!(field(GuestResponse { body: None, ..whole() }), "body");
    assert_eq!(field(GuestResponse { status: None, ..whole() }), "status");
    assert_eq!(field(GuestResponse { status: Some(99), ..whole() }), "status");
    assert_eq!(field(GuestResponse { status: Some(1000), ..whole() }), "status");
    assert_eq!(field(GuestResponse { status: Some(-200), ..whole() }), "status");
    assert_eq!(
        field(GuestResponse { headers: None, body: None, status: None }),
        "headers"
    );
    assert_eq!(
        Res::from_guest(GuestResponse { status: Some(100), ..whole() }).unwrap().status,
        100
    );
    assert_eq!(
        Res::from_guest(GuestResponse { status: Some(999), body: Some(None), ..whole() })
            .unwrap()
            .body,
        None
    );
}

#[test]
fn prepared_call_names_the_handler() {
    let router = SwappableAppRouter::new(String::new(), routes("/api/hello/:id", "hello")).unwrap();
    let call = prepare(
        &router.load(),
        parts(Method::Get, "/api/hello/1", "/api/hello/1", vec![]),
        TextMap::new(),
        None,
    )
    .unwrap();
    assert_eq!(call.handler, "hello");
    assert_eq!(call.req.params.get("id"), Some("1"));
    assert!(matches!(
        prepare(
            &router.load(),
            parts(Method::Put, "/api/hello/1", "/api/hello/1", vec![]),
            TextMap::new(),
            None,
        ),
        Err(AppError::RouterMethodNotAllow(Method::Put))
    ));
}

#[test]
fn script_failure_is_an_error_of_the_server() {
    match answer(Err(EngineError::HandlerFailed("no".to_string()))) {
        Err(AppError::Engine(EngineError::HandlerFailed(words))) => assert_eq!(words, "no"),
        other => panic!("unexpected outcome: {other:?}"),
    }
}

#[test]
fn request_round_trips_through_the_handler() {
    let router =
        SwappableAppRouter::new(ECHO.to_string(), routes("/api/hello/:id", "hello")).unwrap();
    let state = AppState::new(vec![TenentRouter::new("localhost".to_string(), &router)]);
    let res = handler(
        &state,
        "localhost:8080",
        parts(
            Method::Get,
            "http://localhost:8080/api/hello/1",
            "/api/hello/1",
            vec![("content-type", b"application/json")],
        ),
        TextMap::new(),
        None,
    )
    .unwrap();
    assert_eq!(res.status, 200);
    assert_eq!(res.headers.get("content-type"), Some("application/json"));
    let body = res.body.unwrap();
    assert!(body.contains("\"method\":\"GET\""));
    assert!(body.contains("\"url\":\"http://localhost:8080/api/hello/1\""));
    assert!(body.contains("\"headers\":{\"content-type\":\"application/json\"}"));
    assert!(body.contains("\"params\":{\"id\":\"1\"}"));
    assert!(body.contains("\"query\":{}"));
    assert!(!body.contains("\"body\""));
}

#[test]
fn handler_reports_each_failure() {
    let router = SwappableAppRouter::new(ECHO.to_string(), routes("/api/hello/:id", "absent")).unwrap();
    let state = AppState::new(vec![TenentRouter::new("localhost".to_string(), &router)]);
    let ask = |host: &str, method: Method, path: &str| {
        handler(&state, host, parts(method, path, path, vec![]), TextMap::new(), None)
    };
    let error = ask("nowhere", Method::Get, "/api/hello/1").unwrap_err();
    assert_eq!(error.status_code(), 404);
    assert_eq!(error.message(), "Host not found: nowhere");
    let error = ask("localhost", Method::Get, "/does/not/exist").unwrap_err();
    assert_eq!(error.status_code(), 404);
    assert_eq!(error.message(), "Path not found: /does/not/exist");
    let error = ask("localhost", Method::Post, "/api/hello/1").unwrap_err();
    assert_eq!(error.status_code(), 405);
    assert_eq!(error.message(), "Method not found: POST");
    let error = ask("localhost", Method::Get, "/api/hello/1").unwrap_err();
    assert_eq!(error.status_code(), 500);
    assert_eq!(error.message(), "Script error: handler not found: absent");
    assert_eq!(
        error.into_response(),
        (500, "Script error: handler not found: absent".to_string())
    );
}

#[test]
fn snapshot_serves_what_it_routes() {
    let router =
        SwappableAppRouter::new(ECHO.to_string(), routes("/api/hello/:id", "hello")).unwrap();
    let snapshot = router.load();
    let res = serve(
        &snapshot,
        parts(Method::Get, "/api/hello/5", "/api/hello/5", vec![]),
        TextMap::new(),
        Some(b"ping".to_vec()),
    )
    .unwrap();
    assert_eq!(res.status, 200);
    assert!(res.body.unwrap().contains("\"body\":\"ping\""));
    assert!(matches!(
        serve(
            &snapshot,
            parts(Method::Get, "/nowhere", "/nowhere", vec![]),
            TextMap::new(),
            None,
        ),
        Err(AppError::RouterPathNotFound(_))
    ));
    assert_eq!(snapshot.inner().code, ECHO);
}
