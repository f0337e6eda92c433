use rust_meth::analyzer::Method;
use rust_meth::daemon::{
    answer_source, daemon_cli, is_expired, method_data, parse_flag, pid_path, query_command,
    query_reply, runtime_base, scratch_source, sessions_to_evict, socket_path, try_query, try_status,
    try_stop, DaemonCli, DaemonCommand, DaemonResponse, DaemonWorkspace, QueryResponse, SessionKey,
    StatusResponse,
};

fn m(name: &str) -> Method {
    Method { name: name.to_string(), detail: Some(format!("fn {name}()")), documentation: None }
}

fn words(ws: &[&str]) -> Vec<String> {
    ws.iter().map(|w| w.to_string()).collect()
}

fn response(n: usize) -> QueryResponse {
    QueryResponse {
        methods: (0..n).map(|i| method_data(m(&format!("m{i}")))).collect(),
        session_reused: true,
        from_results_cache: false,
        elapsed_ms: 5,
    }
}

#[test]
fn query_through_a_stopped_daemon_yields_nothing() {
    assert!(try_query(false, Some(DaemonResponse::QueryResult(response(1)))).is_none());
}

#[test]
fn query_answers_and_failures_are_passed_on() {
    match try_query(true, Some(DaemonResponse::QueryResult(response(2)))) {
        Some(Ok(r)) => assert_eq!(r.methods.len(), 2),
        _ => panic!("expected the answer"),
    }
    match try_query(true, Some(DaemonResponse::Error { message: "boom".to_string() })) {
        Some(Err(e)) => assert_eq!(e, "boom"),
        _ => panic!("expected the failure"),
    }
    assert!(try_query(true, Some(DaemonResponse::Stopped)).is_none());
    assert!(try_query(true, None).is_none());
}

#[test]
fn stop_and_status_replies_are_read() {
    assert!(try_stop(Some(DaemonResponse::Stopped)));
    assert!(!try_stop(None));
    let s = StatusResponse { active_sessions: 2, uptime_secs: 30, pid: 77 };
    let info = try_status(true, Some(DaemonResponse::Status(s))).unwrap();
    assert_eq!((info.active_sessions, info.uptime_secs, info.pid), (2, 30, 77));
    assert!(try_status(false, Some(DaemonResponse::Stopped)).is_none());
}

#[test]
fn query_command_carries_type_and_deps() {
    match query_command("Vec<u8>", Some("x = \"1\"")) {
        DaemonCommand::Query(q) => {
            assert_eq!(q.type_expr, "Vec<u8>");
            assert_eq!(q.deps.as_deref(), Some("x = \"1\""));
        }
        _ => panic!("expected a query"),
    }
}

#[test]
fn server_prefers_the_results_cache() {
    match query_reply(Some(vec![m("a"), m("b")]), None, 3) {
        Some(DaemonResponse::QueryResult(q)) => {
            assert!(q.from_results_cache && !q.session_reused);
            assert_eq!(q.methods[1].name, "b");
            assert_eq!(q.methods[1].detail.as_deref(), Some("fn b()"));
            assert_eq!(q.elapsed_ms, 3);
        }
        _ => panic!("expected a cached answer"),
    }
    assert!(query_reply(None, None, 0).is_none());
    match query_reply(None, Some(Ok((vec![m("x")], true))), 9) {
        Some(DaemonResponse::QueryResult(q)) => assert!(q.session_reused && !q.from_results_cache),
        _ => panic!("expected a pooled answer"),
    }
    match query_reply(None, Some(Err("bad".to_string())), 9) {
        Some(DaemonResponse::Error { message }) => assert_eq!(message, "bad"),
        _ => panic!("expected an error"),
    }
}

#[test]
fn idle_sessions_are_evicted() {
    assert!(is_expired(11, 10));
    assert!(!is_expired(10, 10));
    assert_eq!(sessions_to_evict(&vec![5, 700, 600, 601], 600), vec![1, 3]);
}

#[test]
fn answer_sources_are_named() {
    let mut r = response(0);
    assert_eq!(answer_source(&r), "warm session");
    r.from_results_cache = true;
    assert_eq!(answer_source(&r), "results cache");
    r.from_results_cache = false;
    r.session_reused = false;
    assert_eq!(answer_source(&r), "new session");
}

#[test]
fn socket_and_pid_file_share_a_directory() {
    let base = runtime_base(None, Some("/home/me"), "/tmp");
    assert_eq!(base, "/home/me/.cache");
    assert_eq!(socket_path(&base), "/home/me/.cache/rust-meth/daemon.sock");
    assert_eq!(pid_path(&base), "/home/me/.cache/rust-meth/daemon.pid");
    assert_eq!(runtime_base(Some("/run/user/1"), Some("/home/me"), "/tmp"), "/run/user/1");
    assert_eq!(runtime_base(None, None, "/tmp/"), "/tmp/.cache");
}

#[test]
fn session_directory_names() {
    let std_key = SessionKey { locked_deps: vec![], ra_version: "rust-analyzer 1.2 (x)".to_string(), toolchain: String::new() };
    assert_eq!(std_key.dir_name(), "stdlib-rust-analyzer_1.2_(x)");
    let key = SessionKey {
        locked_deps: vec![("serde".to_string(), "1.0.1".to_string()), ("tokio".to_string(), "1.3".to_string())],
        ra_version: "ra 9".to_string(),
        toolchain: "stable".to_string(),
    };
    assert_eq!(key.dir_name(), "serde@1.0.1+tokio@1.3-ra_9");
}

#[test]
fn workspace_uris_and_scratch_source() {
    let w = DaemonWorkspace { dir: "/w".to_string(), scratch_path: "/w/src/scratch.rs".to_string(), dot_line: 2, dot_col: 7 };
    assert_eq!(w.root_uri(), "file:///w");
    assert_eq!(w.scratch_uri(), "file:///w/src/scratch.rs");
    assert_eq!(scratch_source("u8"), "fn main() {\n    let _x: u8 = todo!();\n    _x.\n}\n");
}

#[test]
fn flags_of_the_daemon_command_line() {
    let args = words(&["--type", "Vec<u8>", "--deps", "x"]);
    assert_eq!(parse_flag(&args, "--deps").as_deref(), Some("x"));
    assert_eq!(parse_flag(&args, "--ttl"), None);
    assert_eq!(parse_flag(&words(&["--ttl"]), "--ttl"), None);
}

#[test]
fn daemon_command_lines() {
    assert!(matches!(daemon_cli(&words(&["d"])), DaemonCli::Help));
    assert!(matches!(daemon_cli(&words(&["d", "start", "--ttl", "30"])), DaemonCli::Start { ttl_secs: 30 }));
    assert!(matches!(daemon_cli(&words(&["d", "start"])), DaemonCli::Start { ttl_secs: 600 }));
    assert!(matches!(daemon_cli(&words(&["d", "stop"])), DaemonCli::Stop));
    assert!(matches!(daemon_cli(&words(&["d", "status"])), DaemonCli::Status));
    assert!(matches!(daemon_cli(&words(&["d", "query"])), DaemonCli::MissingType));
    match daemon_cli(&words(&["d", "query", "--type", "u8", "--deps", "a = \"1\""])) {
        DaemonCli::Query { type_expr, deps } => {
            assert_eq!(type_expr, "u8");
            assert_eq!(deps.as_deref(), Some("a = \"1\""));
        }
        _ => panic!("expected a query"),
    }
    assert!(matches!(daemon_cli(&words(&["d", "bogus"])), DaemonCli::Help));
}

#[test]
fn session_keys_come_from_dependency_lines() {
    let k = rust_meth::daemon::session_key(Some("serde = \"1.0\"\n\n tokio = { version = \"1\" } \n"), "ra 2", "stable");
    assert_eq!(
        k.locked_deps,
        vec![
            ("serde".to_string(), "\"1.0\"".to_string()),
            ("tokio".to_string(), "{ version = \"1\" }".to_string())
        ]
    );
    assert_eq!(k.ra_version, "ra 2");
    assert_eq!(k.toolchain, "stable");
    assert!(rust_meth::daemon::session_key(None, "ra", "").locked_deps.is_empty());
    let e = rust_meth::daemon::WorkspaceError::CargoMetadata("x".to_string());
    assert!(format!("{e:?}").contains("CargoMetadata"));
}
