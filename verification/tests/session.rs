use rust_meth::error::RustMethError;
use rust_meth::lsp::{content_length, frame_message, is_header_end};
use rust_meth::session::{
    check_diagnostics_for_type_error, completion_ready, definition_ready, indexing_step,
    is_blanket_fallback, request_id, retry_step, timeout_error, Diagnostic, Notice, RetryStep,
};

fn diag(severity: u64, rendered: Option<&str>, message: &str) -> Diagnostic {
    Diagnostic {
        severity: Some(severity),
        rendered: rendered.map(|s| s.to_string()),
        message: Some(message.to_string()),
    }
}

fn lines(ls: &[&str]) -> Vec<String> {
    ls.iter().map(|l| l.to_string()).collect()
}

#[test]
fn frames_announce_the_byte_length() {
    assert_eq!(frame_message("{}"), "Content-Length: 2\r\n\r\n{}");
    assert_eq!(frame_message("é"), "Content-Length: 2\r\n\r\né");
}

#[test]
fn header_blocks_give_the_body_length() {
    assert_eq!(content_length(&lines(&["Content-Length: 42\r\n", "\r\n"])).ok(), Some(42));
    assert_eq!(
        content_length(&lines(&["Content-Type: x\r\n", "Content-Length:  7 \r\n", "\r\n"])).ok(),
        Some(7)
    );
    assert!(matches!(content_length(&lines(&["X: y\r\n", "\r\n"])), Err(RustMethError::NoContentLength)));
    assert!(matches!(content_length(&lines(&["Content-Length: ten\r\n", "\r\n"])), Err(RustMethError::ParseInt(_))));
    assert!(is_header_end("\r\n"));
    assert!(!is_header_end("Content-Length: 1\r\n"));
}

#[test]
fn framing_round_trips() {
    let body = "{\"jsonrpc\":\"2.0\"}";
    let framed = frame_message(body);
    let (header, rest) = framed.split_once("\r\n").unwrap();
    let block = lines(&[&format!("{header}\r\n"), "\r\n"]);
    assert_eq!(content_length(&block).ok(), Some(body.len()));
    assert_eq!(&rest[2..], body);
}

#[test]
fn diagnostics_report_missing_and_gated_types() {
    assert!(check_diagnostics_for_type_error("X", None).is_ok());
    let ds = vec![diag(2, None, "cannot find type `X`"), diag(1, None, "unused")];
    assert!(check_diagnostics_for_type_error("X", Some(&ds)).is_ok());
    let ds = vec![diag(1, None, "cannot find type `X` in this scope")];
    match check_diagnostics_for_type_error("X", Some(&ds)) {
        Err(RustMethError::TypeNotFound { type_expr, message }) => {
            assert_eq!(type_expr, "X");
            assert_eq!(message, "cannot find type `X` in this scope");
        }
        _ => panic!("expected TypeNotFound"),
    }
    let ds = vec![diag(1, Some("the item is gated behind the `net` feature"), "not found in `tokio`")];
    match check_diagnostics_for_type_error("tokio::net::TcpStream", Some(&ds)) {
        Err(RustMethError::FeatureGated { message, .. }) => {
            assert_eq!(message, "the item is gated behind the `net` feature")
        }
        _ => panic!("expected FeatureGated"),
    }
}

fn labels(ls: &[&str]) -> Vec<Option<String>> {
    ls.iter().map(|l| Some(l.to_string())).collect()
}

const BLANKET: [&str; 19] = [
    "clamp(…)", "clone()", "clone_from(…)", "clone_into(…)", "cmp(…)", "eq(…)", "ge(…)", "gt(…)",
    "into()", "le(…)", "lt(…)", "max(…)", "min(…)", "ne(…)", "not()", "partial_cmp(…)",
    "to_owned()", "to_string()", "try_into()",
];

#[test]
fn blanket_answers_are_recognised() {
    let mut ls = labels(&BLANKET);
    assert!(is_blanket_fallback(&ls));
    ls.push(None);
    assert!(is_blanket_fallback(&ls));
    ls.push(Some("len()".to_string()));
    assert!(!is_blanket_fallback(&ls));
    assert!(!is_blanket_fallback(&labels(&BLANKET[1..])));
    assert!(!is_blanket_fallback(&vec![]));
    assert!(!completion_ready(&labels(&BLANKET)));
    assert!(!completion_ready(&vec![]));
    assert!(completion_ready(&labels(&["len()"])));
}

#[test]
fn retries_and_readiness() {
    assert!(matches!(retry_step(1, 20, true), RetryStep::Done));
    assert!(matches!(retry_step(3, 20, false), RetryStep::Retry));
    assert!(matches!(retry_step(20, 20, false), RetryStep::GiveUp));
    assert_eq!(request_id(1), 3);
    assert!(definition_ready(false, false));
    assert!(!definition_ready(true, false));
    assert!(!definition_ready(false, true));
    match timeout_error("u8", 12) {
        RustMethError::Timeout { type_expr, waited_secs } => {
            assert_eq!(type_expr, "u8");
            assert_eq!(waited_secs, 12);
        }
        _ => panic!("expected Timeout"),
    }
}

fn notice(method: &str) -> Notice {
    Notice { method: Some(method.to_string()), progress_end: false, quiescent: false, uri: None, diagnostics: None }
}

#[test]
fn indexing_ends_on_the_right_signals() {
    let mut n = notice("$/progress");
    assert!(!indexing_step(&n, "file:///p", false, false).stop);
    n.progress_end = true;
    assert!(indexing_step(&n, "file:///p", false, false).stop);
    let mut s = notice("experimental/serverStatus");
    s.quiescent = true;
    assert!(indexing_step(&s, "file:///p", false, false).stop);
    assert!(indexing_step(&notice("workspace/diagnostic/refresh"), "file:///p", false, false).stop);
    assert!(indexing_step(&notice("other"), "file:///p", false, true).stop);
    assert!(!indexing_step(&notice("other"), "file:///p", false, false).stop);
}

#[test]
fn probe_diagnostics_are_kept() {
    let mut d = notice("textDocument/publishDiagnostics");
    d.uri = Some("file:///p".to_string());
    d.diagnostics = Some(vec![]);
    let first = indexing_step(&d, "file:///p", false, false);
    assert!(first.stop && first.keep);
    assert!(!indexing_step(&d, "file:///p", true, false).keep);
    d.diagnostics = Some(vec![diag(1, None, "cannot find type `Q`")]);
    assert!(indexing_step(&d, "file:///p", true, false).keep);
    assert!(!indexing_step(&d, "file:///other", false, false).keep);
}
