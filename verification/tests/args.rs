use rust_meth::args::{parse_args, usage, DaemonSubcommand, ParseResult};
use rust_meth::text::parse_u64;

fn words(ws: &[&str]) -> Vec<String> {
    ws.iter().map(|w| w.to_string()).collect()
}

fn parse(ws: &[&str]) -> Result<ParseResult, String> {
    parse_args("rust-meth".to_string(), words(ws), "0.4.0")
}

#[test]
fn no_arguments_prints_help() {
    match parse(&[]) {
        Ok(ParseResult::Help(text)) => assert_eq!(text, usage("rust-meth")),
        _ => panic!("expected help"),
    }
}

#[test]
fn help_flag_prints_help() {
    assert!(matches!(parse(&["-h"]), Ok(ParseResult::Help(_))));
    assert!(matches!(parse(&["--help"]), Ok(ParseResult::Help(_))));
}

#[test]
fn version_flag_prints_name_and_version() {
    match parse(&["-V"]) {
        Ok(ParseResult::Version(v)) => assert_eq!(v, "rust-meth 0.4.0"),
        _ => panic!("expected version"),
    }
}

#[test]
fn usage_mentions_the_binary_and_examples() {
    let u = usage("rm");
    assert!(u.starts_with("Usage: rm <type> [filter] [-i] [--doc] [--gd <method>] [--open] [--open-doc]\n\n"));
    assert!(u.contains("\nExamples:\n  rm u8\n\n"));
    assert!(u.contains("  rm 'tokio::net::TcpStream' --deps 'tokio = { version = \"1.0\", features = [\"net\"] }'\n\n"));
    assert!(u.ends_with("  rm --daemon status             # show daemon status\n\n"));
}

#[test]
fn type_filter_and_flags_are_read() {
    match parse(&["u8", "checked", "--doc", "--json", "--snippet"]) {
        Ok(ParseResult::Opts(o)) => {
            assert_eq!(o.bin, "rust-meth");
            assert_eq!(o.type_expr, "u8");
            assert_eq!(o.filter.as_deref(), Some("checked"));
            assert!(o.show_doc && o.json && o.snippet);
            assert!(!o.interactive && !o.open_def && !o.open_doc && !o.browser);
        }
        _ => panic!("expected options"),
    }
}

#[test]
fn interactive_run_drops_the_filter() {
    match parse(&["u8", "wrap", "-i"]) {
        Ok(ParseResult::Opts(o)) => {
            assert!(o.interactive);
            assert!(o.filter.is_none());
        }
        _ => panic!("expected options"),
    }
}

#[test]
fn flags_with_values_take_the_next_word() {
    match parse(&["serde_json::Value", "--deps", "serde_json = \"1.0\"", "--gd", "as_str", "--open"]) {
        Ok(ParseResult::Opts(o)) => {
            assert_eq!(o.deps.as_deref(), Some("serde_json = \"1.0\""));
            assert_eq!(o.goto_def.as_deref(), Some("as_str"));
            assert!(o.open_def);
        }
        _ => panic!("expected options"),
    }
    match parse(&["Result<u8,String>", "--explain", "unwrap", "--browser"]) {
        Ok(ParseResult::Opts(o)) => {
            assert_eq!(o.explain.as_deref(), Some("unwrap"));
            assert!(o.browser);
        }
        _ => panic!("expected options"),
    }
}

#[test]
fn missing_values_are_errors() {
    assert_eq!(parse(&["u8", "--gd"]).err().unwrap(), "--gd requires a method name");
    assert_eq!(
        parse(&["u8", "--deps"]).err().unwrap(),
        "--deps requires a dependency string (e.g., 'serde_json = \"1.0\"')"
    );
    assert_eq!(parse(&["u8", "--explain"]).err().unwrap(), "--explain requires a method name");
}

#[test]
fn unexpected_words_are_errors() {
    assert_eq!(parse(&["u8", "--what"]).err().unwrap(), "unexpected flag '--what'");
    assert_eq!(parse(&["u8", "a", "b"]).err().unwrap(), "unexpected argument 'b'");
    let e = parse(&["--what"]).err().unwrap();
    assert_eq!(e, format!("unexpected argument '--what'\n\n{}", usage("rust-meth")));
}

#[test]
fn dependent_flags_are_checked() {
    assert_eq!(parse(&["u8", "--open"]).err().unwrap(), "--open requires --gd <method>");
    assert_eq!(parse(&["u8", "--open-doc"]).err().unwrap(), "--open-doc requires --gd <method>");
    assert_eq!(
        parse(&["u8", "--gd", "pow", "--open", "--open-doc"]).err().unwrap(),
        "choose only one of --open or --open-doc"
    );
    assert_eq!(parse(&["u8", "--browser"]).err().unwrap(), "--browser requires --explain <method>");
}

#[test]
fn daemon_subcommands_are_read() {
    assert!(matches!(parse(&["--daemon", "stop"]), Ok(ParseResult::Daemon(DaemonSubcommand::Stop))));
    assert!(matches!(parse(&["--daemon", "status"]), Ok(ParseResult::Daemon(DaemonSubcommand::Status))));
    assert!(matches!(
        parse(&["--daemon", "start"]),
        Ok(ParseResult::Daemon(DaemonSubcommand::Start { ttl_secs: 600 }))
    ));
    assert!(matches!(
        parse(&["--daemon", "start", "--ttl", "300"]),
        Ok(ParseResult::Daemon(DaemonSubcommand::Start { ttl_secs: 300 }))
    ));
    assert!(matches!(
        parse(&["--daemon", "start", "--ttl", "soon"]),
        Ok(ParseResult::Daemon(DaemonSubcommand::Start { ttl_secs: 600 }))
    ));
    assert_eq!(
        parse(&["--daemon"]).err().unwrap(),
        "--daemon requires a subcommand: start, stop, status"
    );
    assert_eq!(
        parse(&["--daemon", "restart"]).err().unwrap(),
        "unknown daemon subcommand 'restart'. Expected: start, stop, status"
    );
}

#[test]
fn decimal_numbers_follow_the_std_grammar() {
    assert_eq!(parse_u64("300"), Some(300));
    assert_eq!(parse_u64("+42"), Some(42));
    assert_eq!(parse_u64("007"), Some(7));
    assert_eq!(parse_u64("18446744073709551615"), Some(u64::MAX));
    assert_eq!(parse_u64("18446744073709551616"), None);
    assert_eq!(parse_u64("99999999999999999999x"), None);
    assert_eq!(parse_u64(""), None);
    assert_eq!(parse_u64("+"), None);
    assert_eq!(parse_u64("-1"), None);
    assert_eq!(parse_u64("4 2"), None);
    for s in ["0", "1", "+9", "123456789", "x", "12a", "++1", " 1"] {
        assert_eq!(parse_u64(s), s.parse::<u64>().ok());
    }
}
