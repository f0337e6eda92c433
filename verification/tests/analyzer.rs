use rust_meth::analyzer::{
    parse_definition, parse_methods, CompletionItem, CompletionResponse, CompletionResult,
    DefinitionResult, Location, Method,
};
use rust_meth::error::RustMethError;

fn item(kind: u64, label: &str) -> CompletionItem {
    CompletionItem { kind: Some(kind), label: Some(label.to_string()), detail: None, documentation: None }
}

fn list(items: Vec<CompletionItem>) -> CompletionResponse {
    CompletionResponse { result: CompletionResult::ItemList(items), text: String::from("{}") }
}

fn names(ms: &[Method]) -> Vec<&str> {
    ms.iter().map(|m| m.name.as_str()).collect()
}

fn loc(uri: &str, line: u64) -> Location {
    Location { uri: Some(uri.to_string()), line: Some(line) }
}

#[test]
fn analyzer_parse_methods_empty_items_returns_empty_vec() {
    let methods = parse_methods(&list(vec![])).unwrap();
    assert!(methods.is_empty());
}

#[test]
fn analyzer_parse_methods_filters_non_method_kinds() {
    let resp = list(vec![item(2, "len(…)"), item(5, "capacity"), item(9, "Clone")]);
    let methods = parse_methods(&resp).unwrap();
    assert_eq!(methods.len(), 1);
    assert_eq!(methods[0].name, "len");
}

#[test]
fn analyzer_parse_methods_deduplicates_same_name() {
    let resp = list(vec![item(2, "clone(…)"), item(2, "clone(…)")]);
    let methods = parse_methods(&resp).unwrap();
    assert_eq!(methods.len(), 1);
    assert_eq!(methods[0].name, "clone");
}

#[test]
fn analyzer_parse_methods_returns_sorted_names() {
    let resp = list(vec![item(2, "zip(…)"), item(2, "map(…)"), item(2, "filter(…)")]);
    let methods = parse_methods(&resp).unwrap();
    assert_eq!(names(&methods), ["filter", "map", "zip"]);
}

#[test]
fn analyzer_parse_methods_preserves_detail_and_documentation() {
    let resp = list(vec![CompletionItem {
        kind: Some(2),
        label: Some("len(…)".to_string()),
        detail: Some("pub fn len(&self) -> usize".to_string()),
        documentation: Some("Returns the number of elements.".to_string()),
    }]);
    let methods = parse_methods(&resp).unwrap();
    assert_eq!(methods.len(), 1);
    assert_eq!(methods[0].detail.as_deref(), Some("pub fn len(&self) -> usize"));
    assert_eq!(methods[0].documentation.as_deref(), Some("Returns the number of elements."));
}

#[test]
fn analyzer_parse_methods_no_detail_or_docs_is_none() {
    let methods = parse_methods(&list(vec![item(2, "len(…)")])).unwrap();
    assert!(methods[0].detail.is_none());
    assert!(methods[0].documentation.is_none());
}

#[test]
fn analyzer_parse_methods_array_result_form() {
    let resp = CompletionResponse {
        result: CompletionResult::Array(vec![item(2, "len(…)"), item(2, "is_empty(…)")]),
        text: String::from("[]"),
    };
    let methods = parse_methods(&resp).unwrap();
    assert_eq!(methods.len(), 2);
}

#[test]
fn analyzer_parse_methods_skips_empty_label() {
    let methods = parse_methods(&list(vec![item(2, ""), item(2, "len(…)")])).unwrap();
    assert_eq!(methods.len(), 1);
    assert_eq!(methods[0].name, "len");
}

#[test]
fn analyzer_parse_methods_unexpected_shape_returns_error() {
    let resp = CompletionResponse {
        result: CompletionResult::Other,
        text: String::from("{\"result\":\"this_is_not_valid\"}"),
    };
    assert!(parse_methods(&resp).is_err());
}

#[test]
fn analyzer_parse_methods_third_party_label_stripped_at_paren() {
    let mut first = item(2, "as_str(…)");
    first.detail = Some("pub fn as_str(&self) -> &str".to_string());
    let methods = parse_methods(&list(vec![first, item(2, "as_object(…)")])).unwrap();
    let ns = names(&methods);
    assert!(ns.contains(&"as_str"));
    assert!(ns.contains(&"as_object"));
}

#[test]
fn analyzer_parse_definition_array_form() {
    let r = DefinitionResult::Array(vec![loc(
        "file:///home/user/.rustup/toolchains/stable/library/core/src/num/mod.rs",
        42,
    )]);
    let def = parse_definition(&r).unwrap();
    assert_eq!(def.line, 42);
    assert!(def.path.starts_with("library/"));
    assert!(!def.full_path.starts_with("file://"));
}

#[test]
fn analyzer_parse_definition_object_form() {
    let r = DefinitionResult::Object(loc(
        "file:///home/user/.rustup/toolchains/stable/library/core/src/str/mod.rs",
        99,
    ));
    let def = parse_definition(&r).unwrap();
    assert_eq!(def.line, 99);
    assert!(def.path.starts_with("library/"));
}

#[test]
fn analyzer_parse_definition_null_result_returns_none() {
    assert!(parse_definition(&DefinitionResult::Other).is_none());
}

#[test]
fn analyzer_parse_definition_empty_array_returns_none() {
    assert!(parse_definition(&DefinitionResult::Array(vec![])).is_none());
}

#[test]
fn analyzer_parse_definition_empty_uri_returns_none() {
    let r = DefinitionResult::Array(vec![loc("", 0)]);
    assert!(parse_definition(&r).is_none());
}

#[test]
fn analyzer_parse_definition_strips_library_prefix_from_path() {
    let r = DefinitionResult::Array(vec![loc(
        "file:///home/user/.rustup/toolchains/stable/library/core/src/num/mod.rs",
        0,
    )]);
    let def = parse_definition(&r).unwrap();
    assert!(def.path.starts_with("library/"));
    assert!(!def.path.starts_with('/'));
}

#[test]
fn analyzer_parse_definition_src_path_fallback() {
    let r = DefinitionResult::Array(vec![loc("file:///home/user/myproject/src/main.rs", 5)]);
    let def = parse_definition(&r).unwrap();
    assert!(def.path.starts_with("src/"));
    assert_eq!(def.line, 5);
}

#[test]
fn analyzer_parse_definition_full_path_does_not_start_with_file_scheme() {
    let r = DefinitionResult::Array(vec![loc("file:///home/user/project/src/lib.rs", 1)]);
    let def = parse_definition(&r).unwrap();
    assert!(!def.full_path.starts_with("file://"));
    assert!(def.full_path.starts_with('/'));
}

#[test]
fn parse_parse_methods_empty_items_returns_empty_vec() {
    let methods = parse_methods(&list(vec![])).unwrap();
    assert!(methods.is_empty());
}

#[test]
fn parse_parse_methods_filters_non_method_kinds() {
    let resp = list(vec![item(2, "len(…)"), item(5, "capacity"), item(9, "Clone")]);
    let methods = parse_methods(&resp).unwrap();
    assert_eq!(methods.len(), 1);
    assert_eq!(methods[0].name, "len");
}

#[test]
fn parse_parse_methods_deduplicates_same_name() {
    let resp = list(vec![item(2, "clone(…)"), item(2, "clone(…)")]);
    let methods = parse_methods(&resp).unwrap();
    assert_eq!(methods.len(), 1);
    assert_eq!(methods[0].name, "clone");
}

#[test]
fn parse_parse_methods_returns_sorted_names() {
    let resp = list(vec![item(2, "zip(…)"), item(2, "map(…)"), item(2, "filter(…)")]);
    let methods = parse_methods(&resp).unwrap();
    assert_eq!(names(&methods), ["filter", "map", "zip"]);
}

#[test]
fn parse_parse_methods_preserves_detail_and_documentation() {
    let resp = list(vec![CompletionItem {
        kind: Some(2),
        label: Some("len(…)".to_string()),
        detail: Some("pub fn len(&self) -> usize".to_string()),
        documentation: Some("Returns the number of elements.".to_string()),
    }]);
    let methods = parse_methods(&resp).unwrap();
    assert_eq!(methods.len(), 1);
    assert_eq!(methods[0].detail.as_deref(), Some("pub fn len(&self) -> usize"));
    assert_eq!(methods[0].documentation.as_deref(), Some("Returns the number of elements."));
}

#[test]
fn parse_parse_methods_no_detail_or_docs_is_none() {
    let methods = parse_methods(&list(vec![item(2, "len(…)")])).unwrap();
    assert!(methods[0].detail.is_none());
    assert!(methods[0].documentation.is_none());
}

#[test]
fn parse_parse_methods_array_result_form() {
    let resp = CompletionResponse {
        result: CompletionResult::Array(vec![item(2, "len(…)"), item(2, "is_empty(…)")]),
        text: String::from("[]"),
    };
    let methods = parse_methods(&resp).unwrap();
    assert_eq!(methods.len(), 2);
}

#[test]
fn parse_parse_methods_skips_empty_label() {
    let methods = parse_methods(&list(vec![item(2, ""), item(2, "len(…)")])).unwrap();
    assert_eq!(methods.len(), 1);
    assert_eq!(methods[0].name, "len");
}

#[test]
fn parse_parse_methods_unexpected_shape_returns_error() {
    let resp = CompletionResponse {
        result: CompletionResult::Other,
        text: String::from("{\"result\":\"this_is_not_valid\"}"),
    };
    assert!(parse_methods(&resp).is_err());
}

#[test]
fn parse_parse_methods_third_party_label_stripped_at_paren() {
    let mut first = item(2, "as_str(…)");
    first.detail = Some("pub fn as_str(&self) -> &str".to_string());
    let methods = parse_methods(&list(vec![first, item(2, "as_object(…)")])).unwrap();
    let ns = names(&methods);
    assert!(ns.contains(&"as_str"));
    assert!(ns.contains(&"as_object"));
}

#[test]
fn parse_parse_definition_array_form() {
    let r = DefinitionResult::Array(vec![loc(
        "file:///home/user/.rustup/toolchains/stable/library/core/src/num/mod.rs",
        42,
    )]);
    let def = parse_definition(&r).unwrap();
    assert_eq!(def.line, 42);
    assert!(def.path.starts_with("library/"));
    assert!(!def.full_path.starts_with("file://"));
}

#[test]
fn parse_parse_definition_object_form() {
    let r = DefinitionResult::Object(loc(
        "file:///home/user/.rustup/toolchains/stable/library/core/src/str/mod.rs",
        99,
    ));
    let def = parse_definition(&r).unwrap();
    assert_eq!(def.line, 99);
    assert!(def.path.starts_with("library/"));
}

#[test]
fn parse_parse_definition_null_result_returns_none() {
    assert!(parse_definition(&DefinitionResult::Other).is_none());
}

#[test]
fn parse_parse_definition_empty_array_returns_none() {
    assert!(parse_definition(&DefinitionResult::Array(vec![])).is_none());
}

#[test]
fn parse_parse_definition_empty_uri_returns_none() {
    let r = DefinitionResult::Array(vec![loc("", 0)]);
    assert!(parse_definition(&r).is_none());
}

#[test]
fn parse_parse_definition_strips_library_prefix_from_path() {
    let r = DefinitionResult::Array(vec![loc(
        "file:///home/user/.rustup/toolchains/stable/library/core/src/num/mod.rs",
        0,
    )]);
    let def = parse_definition(&r).unwrap();
    assert!(def.path.starts_with("library/"));
    assert!(!def.path.starts_with('/'));
}

#[test]
fn parse_parse_definition_src_path_fallback() {
    let r = DefinitionResult::Array(vec![loc("file:///home/user/myproject/src/main.rs", 5)]);
    let def = parse_definition(&r).unwrap();
    assert!(def.path.starts_with("src/"));
    assert_eq!(def.line, 5);
}

#[test]
fn parse_parse_definition_full_path_does_not_start_with_file_scheme() {
    let r = DefinitionResult::Array(vec![loc("file:///home/user/project/src/lib.rs", 1)]);
    let def = parse_definition(&r).unwrap();
    assert!(!def.full_path.starts_with("file://"));
    assert!(def.full_path.starts_with('/'));
}

#[test]
fn unexpected_shape_error_carries_the_response_text() {
    let resp = CompletionResponse { result: CompletionResult::Other, text: String::from("null") };
    match parse_methods(&resp) {
        Err(RustMethError::UnexpectedResponseShape(t)) => assert_eq!(t, "null"),
        _ => panic!("expected UnexpectedResponseShape"),
    }
}

#[test]
fn parse_methods_trims_label_before_paren() {
    let methods = parse_methods(&list(vec![item(2, "  push (…)")])).unwrap();
    assert_eq!(methods[0].name, "push");
}

#[test]
fn parse_definition_keeps_full_path_and_display_path() {
    let r = DefinitionResult::Object(loc("file:///x/library/std/src/io/mod.rs", 7));
    let def = parse_definition(&r).unwrap();
    assert_eq!(def.full_path, "/x/library/std/src/io/mod.rs");
    assert_eq!(def.path, "library/std/src/io/mod.rs");
    assert_eq!(def.line, 7);
}
