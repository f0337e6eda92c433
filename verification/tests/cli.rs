use rust_meth::analyzer::{Definition, Method};
use rust_meth::cli::{definition_line, filter_or_err, find_method, no_definition_message};
use rust_meth::display::{
    classify_doc_line, doc_lines, doc_preview, highlight_doc, pad_name, parse_call_args, shown_signature_exec, snippet_lines,
    DocLine,
};

fn m(name: &str) -> Method {
    Method { name: name.to_string(), detail: None, documentation: None }
}

#[test]
fn empty_listings_are_errors() {
    let ms = vec![m("len"), m("push")];
    assert_eq!(filter_or_err("u8", None, &ms).ok().unwrap().len(), 2);
    assert_eq!(filter_or_err("u8", Some("len"), &ms).ok().unwrap()[0].name, "len");
    assert_eq!(
        filter_or_err("u8", Some("zz\"q"), &ms).err().unwrap(),
        "No methods on `u8` matching \"zz\\\"q\""
    );
    assert_eq!(filter_or_err("T", None, &[]).err().unwrap(), "No methods found for type `T`");
}

#[test]
fn explain_finds_the_first_method_with_the_name() {
    let mut a = m("len");
    a.detail = Some("first".to_string());
    let ms = vec![m("push"), a, m("len")];
    assert_eq!(find_method(&ms, "len", "Vec<u8>").ok().unwrap().detail.as_deref(), Some("first"));
    assert_eq!(
        find_method(&ms, "pop", "Vec<u8>").err().unwrap(),
        "method `pop` not found on type `Vec<u8>`"
    );
}

#[test]
fn definition_lines_count_from_one() {
    let d = Definition { path: "library/core/src/num/mod.rs".to_string(), full_path: String::new(), line: 41 };
    assert_eq!(definition_line("u8", "checked_add", &d), "u8::checked_add  library/core/src/num/mod.rs:42");
    assert_eq!(
        no_definition_message("u8", "x"),
        "No definition found for `u8::x` — is rust-src installed?\nRun: rustup component add rust-src"
    );
}

#[test]
fn call_snippets_keep_argument_names() {
    assert_eq!(parse_call_args("pub fn checked_add(self, rhs: u8) -> Option<u8>"), "rhs");
    assert_eq!(parse_call_args("fn f(&mut self, a: u8, b: &str)"), "a, b");
    assert_eq!(parse_call_args("fn f(&self)"), "");
    assert_eq!(parse_call_args("const X: u8"), "");
    assert_eq!(parse_call_args("fn g(x: u8"), "x");
    let mut meth = m("checked_add");
    meth.detail = Some("pub fn checked_add(self, rhs: u8) -> Option<u8>".to_string());
    assert_eq!(
        snippet_lines(&meth),
        vec![
            "  checked_add(self, rhs: u8) -> Option<u8>".to_string(),
            "  → x.checked_add(rhs)\n".to_string()
        ]
    );
    assert_eq!(snippet_lines(&m("len")), vec!["  len".to_string()]);
}

#[test]
fn snippet_signatures_drop_visibility_and_fn() {
    assert_eq!(shown_signature_exec("pub fn len(&self) -> usize").into_iter().collect::<String>(), "len(&self) -> usize");
    assert_eq!(
        shown_signature_exec("pub(crate) fn push(&mut self, x: u8)").into_iter().collect::<String>(),
        "push(&mut self, x: u8)"
    );
    assert_eq!(shown_signature_exec("fn is_empty(&self) -> bool").into_iter().collect::<String>(), "is_empty(&self) -> bool");
    assert_eq!(
        shown_signature_exec("pub const fn new() -> Self").into_iter().collect::<String>(),
        "pub const fn new() -> Self"
    );
    assert_eq!(shown_signature_exec("pubfn x()").into_iter().collect::<String>(), "pubfn x()");
    assert_eq!(shown_signature_exec("").into_iter().collect::<String>(), "");
}

#[test]
fn names_are_padded_to_the_column() {
    assert_eq!(pad_name("len", 6), "len   ");
    assert_eq!(pad_name("capacity", 3), "capacity");
    assert_eq!(pad_name("len", 0), "len");
}

#[test]
fn documentation_lines_and_preview() {
    assert_eq!(doc_lines("a\r\nb\n"), vec!["a".to_string(), "b".to_string()]);
    assert_eq!(doc_lines(""), Vec::<String>::new());
    assert_eq!(doc_lines("x\r"), vec!["x\r".to_string()]);
    assert_eq!(doc_lines("\n"), vec!["".to_string()]);
    let (shown, more) = doc_preview("1\n2\n3\n4\n5\n6\n7");
    assert_eq!(shown.len(), 6);
    assert!(more);
    let (shown, more) = doc_preview("1\n2");
    assert_eq!(shown, vec!["1".to_string(), "2".to_string()]);
    assert!(!more);
}

#[test]
fn code_fences_open_and_close() {
    assert!(matches!(classify_doc_line(false, "  ```rust"), (DocLine::OpenFence, true)));
    assert!(matches!(classify_doc_line(false, "text"), (DocLine::Text, false)));
    assert!(matches!(classify_doc_line(true, "let x = 1;"), (DocLine::Code, true)));
    assert!(matches!(classify_doc_line(true, " ``` "), (DocLine::CloseFence, false)));
}

#[test]
fn documentation_is_shown_with_highlighted_rust_blocks() {
    let pieces = highlight_doc("Adds.\n  ```rust,ignore\nlet x = 1;\n```\ndone");
    let kinds: Vec<&DocLine> = pieces.iter().map(|p| &p.kind).collect();
    assert_eq!(kinds, vec![&DocLine::Text, &DocLine::OpenFence, &DocLine::Code, &DocLine::CloseFence, &DocLine::Text]);
    assert_eq!(pieces[0].text, "Adds.");
    assert_eq!(pieces[1].text, "```rust");
    assert_ne!(pieces[2].text, "let x = 1;");
    assert!(pieces[2].text.contains("\u{1b}["));
    assert!(pieces[2].text.contains("let"));
    assert!(!pieces[2].text.ends_with('\n'));
    assert_eq!(pieces[3].text, "```");
    assert_eq!(pieces[4].text, "done");
}

#[test]
fn an_unclosed_block_runs_to_the_end() {
    let pieces = highlight_doc("```rust\nfn f() {}");
    assert_eq!(pieces.len(), 2);
    assert_eq!(pieces[1].kind, DocLine::Code);
}
