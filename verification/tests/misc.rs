use dino::cli::{Opts, RunOpts, Subcommand, DEFAULT_PORT};
use dino::error::{AppError, EngineError, RouteBuildError};
use dino::errors::{generic_error, CustomError};
use dino::fields::TextMap;
use dino::method::{deserialize_method, method_from_upper, Method, MethodRoute};
use dino::project::{
    build_filename, calc_hash_for_files, calc_project_hash, glob_pattern, is_build_output,
    project_extensions, source_files, BUILD_DIR,
};
use dino::text::{contains, count_char, ends_with, joined, same_text, text_before};
use dino::watch::{after_changes, after_reload, is_source, need_swap, Reload, WatchStep};

#[test]
fn method_names_of_a_configuration() {
    assert!(matches!(deserialize_method("GET"), Ok(Method::Get)));
    assert!(matches!(deserialize_method("get"), Ok(Method::Get)));
    assert!(matches!(deserialize_method("Post"), Ok(Method::Post)));
    assert!(matches!(deserialize_method("put"), Ok(Method::Put)));
    assert!(matches!(deserialize_method("delete"), Ok(Method::Delete)));
    assert!(matches!(deserialize_method("patch"), Ok(Method::Patch)));
    assert!(matches!(deserialize_method("options"), Ok(Method::Options)));
    assert!(matches!(deserialize_method("head"), Ok(Method::Head)));
    assert!(matches!(deserialize_method("connect"), Ok(Method::Connect)));
    assert!(matches!(deserialize_method("trace"), Ok(Method::Trace)));
    let refused = deserialize_method("fetch").unwrap_err();
    assert_eq!(refused.name, "fetch");
    assert_eq!(refused.message(), "Invalid method");
    assert!(deserialize_method("").is_err());
    assert!(method_from_upper("get", "get").is_err());
    assert!(matches!(method_from_upper("get", "GET"), Ok(Method::Get)));
}

#[test]
fn method_tokens_of_a_request() {
    assert!(matches!(Method::from_token("GET"), Method::Get));
    assert!(matches!(Method::from_token("CONNECT"), Method::Connect));
    match Method::from_token("get") {
        Method::Other(name) => assert_eq!(name, "get"),
        other => panic!("unexpected method: {other:?}"),
    }
    assert!(Method::standard("PROPFIND").is_none());
    for name in ["GET", "HEAD", "DELETE", "OPTIONS", "PATCH", "POST", "PUT", "TRACE", "CONNECT"] {
        assert_eq!(Method::from_token(name).name(), name);
        assert_eq!(Method::from_token(name).clone().name(), name);
    }
    assert_eq!(Method::Other("X".to_string()).name(), "X");
}

#[test]
fn method_table_binds_and_finds() {
    let mut table = MethodRoute::default();
    assert!(table.handler(&Method::Get).is_none());
    assert!(table.bind(&Method::Get, "a".to_string()));
    assert!(table.bind(&Method::Get, "b".to_string()));
    assert_eq!(table.handler(&Method::Get).map(|s| s.as_str()), Some("b"));
    assert!(table.handler(&Method::Post).is_none());
    assert!(table.clone().handler(&Method::Get).is_some());
    assert!(table.handler(&Method::Other("GET".to_string())).is_none());
}

#[test]
fn errors_have_status_and_message() {
    let error = AppError::HostNotFound("h".to_string());
    assert_eq!((error.status_code(), error.message()), (404, "Host not found: h".to_string()));
    let error = AppError::RouterPathNotFound("/p".to_string());
    assert_eq!((error.status_code(), error.message()), (404, "Path not found: /p".to_string()));
    let error = AppError::RouterMethodNotAllow(Method::Delete);
    assert_eq!(
        (error.status_code(), error.message()),
        (405, "Method not found: DELETE".to_string())
    );
    let error = AppError::RouteBuild(RouteBuildError::Conflict { with: "/a".to_string() });
    assert_eq!(
        (error.status_code(), error.message()),
        (500, "Route table error: route conflicts with /a".to_string())
    );
    let error = AppError::Engine(EngineError::MalformedResponse("status".to_string()));
    assert_eq!(
        (error.status_code(), error.message()),
        (500, "Script error: malformed response field: status".to_string())
    );
    assert_eq!(
        EngineError::EvalFailure("x".to_string()).message(),
        "evaluation failed: x"
    );
    assert_eq!(
        EngineError::HandlerFailed("x".to_string()).message(),
        "handler failed: x"
    );
    assert_eq!(
        RouteBuildError::UnsupportedMethod("X".to_string()).message(),
        "unsupported method X"
    );
    for error in [
        RouteBuildError::TooManyParams,
        RouteBuildError::UnnamedParam,
        RouteBuildError::InvalidCatchAll,
        RouteBuildError::ParamLimit,
        RouteBuildError::Unrecognized,
    ] {
        assert!(!error.message().is_empty());
    }
}

#[test]
fn text_helpers() {
    assert!(same_text("abc", "abc"));
    assert!(!same_text("abc", "abd"));
    assert!(!same_text("abc", "ab"));
    assert!(same_text("", ""));
    assert!(ends_with("a.yml", ".yml"));
    assert!(!ends_with("a.yml2", ".yml"));
    assert!(ends_with("x", ""));
    assert!(!ends_with("ml", ".yml"));
    assert!(contains("a/.build/b", ".build/"));
    assert!(contains(".build/", ".build/"));
    assert!(!contains("a/.build", ".build/"));
    assert!(contains("abc", ""));
    assert!(!contains("", "a"));
    assert_eq!(text_before("host:80", ':'), "host");
    assert_eq!(text_before("host", ':'), "host");
    assert_eq!(text_before(":80", ':'), "");
    assert_eq!(text_before("héé:80:1", ':'), "héé");
    assert_eq!(count_char("/:a/:b", ':', 25), 2);
    assert_eq!(count_char(":::", ':', 1), 2);
    assert_eq!(count_char("", ':', 0), 0);
    assert_eq!(joined("a", "b"), "ab");
}

#[test]
fn text_map_holds_each_name_once() {
    let mut map = TextMap::new();
    assert_eq!(map.len(), 0);
    map.insert("a".to_string(), "1".to_string());
    map.insert("b".to_string(), "2".to_string());
    map.insert("a".to_string(), "3".to_string());
    assert_eq!(map.len(), 2);
    assert_eq!(map.get("a"), Some("3"));
    assert_eq!(map.get("b"), Some("2"));
    assert_eq!(map.get("c"), None);
    assert_eq!(
        map.entries(),
        &vec![("a".to_string(), "3".to_string()), ("b".to_string(), "2".to_string())]
    );
    let made = TextMap::from_pairs(vec![
        ("x".to_string(), "1".to_string()),
        ("x".to_string(), "2".to_string()),
    ]);
    assert_eq!(made.into_pairs(), vec![("x".to_string(), "2".to_string())]);
}

#[test]
fn project_hash_is_the_start_of_the_blake3_hash() {
    let empty: Vec<Vec<u8>> = Vec::new();
    assert_eq!(calc_project_hash(&empty), "af1349b9f5f9");
    assert_eq!(
        calc_hash_for_files(&empty, 64),
        "af1349b9f5f9a1a6a0404dea36dcc9499bcb25c9adc112b7cc9a93cae41f3262"
    );
    assert_eq!(calc_hash_for_files(&empty, 100).len(), 64);
    assert_eq!(calc_hash_for_files(&empty, 0), "");
    let split = vec![b"ab".to_vec(), b"c".to_vec()];
    let whole = vec![b"abc".to_vec()];
    assert_eq!(
        calc_hash_for_files(&whole, 64),
        "6437b3ac38465133ffb63b75273a8db548c558465d79db03fd359c6cd5bd9d85"
    );
    assert_eq!(calc_hash_for_files(&split, 64), calc_hash_for_files(&whole, 64));
    assert_ne!(calc_project_hash(&whole), calc_project_hash(&empty));
}

#[test]
fn project_files_and_names() {
    assert_eq!(BUILD_DIR, ".build");
    assert_eq!(project_extensions(), vec![".ts", ".json", ".js"]);
    assert_eq!(glob_pattern("fixtures/prj", ".ts"), "fixtures/prj/**/*.ts");
    assert_eq!(build_filename("af1349b9f5f9"), ".build/af1349b9f5f9.js");
    assert!(is_build_output("prj/.build/x.js"));
    assert!(!is_build_output("prj/a.ts"));
    let found = vec![
        "prj/a.ts".to_string(),
        "prj/.build/x.js".to_string(),
        "prj/test1/c.js".to_string(),
    ];
    assert_eq!(
        source_files(found),
        vec!["prj/a.ts".to_string(), "prj/test1/c.js".to_string()]
    );
}

#[test]
fn changes_that_call_for_a_swap() {
    assert!(is_source("config.yml"));
    assert!(is_source("main.ts"));
    assert!(is_source("a/b.js"));
    assert!(!is_source("a/b.json"));
    assert!(!is_source("README.md"));
    assert!(!need_swap(&Vec::new()));
    assert!(!need_swap(&vec!["a.md".to_string(), "b.txt".to_string()]));
    assert!(need_swap(&vec!["a.md".to_string(), "b.ts".to_string()]));
}

#[test]
fn bundle_errors_are_rendered_with_their_class() {
    let error = CustomError::new("Warning", "careful");
    assert_eq!(error.class(), "Warning");
    assert_eq!(error.message(), "careful");
    assert_eq!(error.render("Warning"), "Warning: careful");
    let error = generic_error("broken");
    assert_eq!(error.class(), "Error");
    assert_eq!(error.render("E"), "E: broken");
    let line = error.to_string();
    assert!(line.ends_with(": broken"));
    assert!(line.contains("Error"));
}

#[test]
fn run_listens_on_the_default_port() {
    assert_eq!(DEFAULT_PORT, 8080);
    assert_eq!(RunOpts::new(None).port, 8080);
    assert_eq!(RunOpts::new(Some(3000)).port, 3000);
    assert_eq!(RunOpts::default().port, 8080);
    let opts = Opts { cmd: Subcommand::Run(RunOpts::default()) };
    assert_eq!(opts.cmd, Subcommand::Run(RunOpts { port: 8080 }));
}

#[test]
fn project_file_of_a_bundle() {
    assert_eq!(
        dino::project::config_filename(".build/af1349b9f5f9.mjs"),
        ".build/af1349b9f5f9.yml"
    );
    assert_eq!(
        dino::project::config_filename(".build/af1349b9f5f9.js"),
        ".build/af1349b9f5f9.js"
    );
}

#[test]
fn watcher_goes_on_after_every_reload() {
    assert_eq!(after_changes(&vec!["a.ts".to_string()]), WatchStep::Reload);
    assert_eq!(after_changes(&vec!["a.md".to_string()]), WatchStep::Wait);
    assert_eq!(after_changes(&Vec::new()), WatchStep::Wait);
    assert_eq!(after_reload(&Reload::Swapped), (true, None));
    assert_eq!(
        after_reload(&Reload::BuildFailed("x".to_string())),
        (true, Some("build failed: x".to_string()))
    );
    assert_eq!(
        after_reload(&Reload::ConfigFailed("y".to_string())),
        (true, Some("project file refused: y".to_string()))
    );
    assert_eq!(
        after_reload(&Reload::SwapFailed("z".to_string())),
        (true, Some("routes refused: z".to_string()))
    );
}

#[test]
fn project_hash_is_written_in_hexadecimal() {
    let hash = calc_hash_for_files(&vec![b"any".to_vec()], 64);
    assert_eq!(hash.len(), 64);
    assert!(hash.chars().all(|c| matches!(c, '0'..='9' | 'a'..='f')));
}
