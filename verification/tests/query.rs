use rust_meth::analyzer::{Definition, Method};
use rust_meth::error::RustMethError;
use rust_meth::query::{collect_definitions, filter_methods, MethodQuery};

fn make_methods(names: &[&str]) -> Vec<Method> {
    names
        .iter()
        .map(|&name| Method { name: name.to_string(), detail: None, documentation: None })
        .collect()
}

fn make_method(name: &str) -> Method {
    Method { name: name.to_string(), detail: None, documentation: None }
}

#[test]
fn filter_empty_query_returns_all() {
    let methods = make_methods(&["push", "pop", "len"]);
    let result = filter_methods(&methods, "");
    assert_eq!(result.len(), 3);
}

#[test]
fn filter_exact_match_scores_highest() {
    let methods = make_methods(&["get_mut", "get", "get_key_value"]);
    let result = filter_methods(&methods, "get");
    assert_eq!(result[0].name, "get", "exact match should be first");
}

#[test]
fn filter_prefix_before_substring() {
    let methods = make_methods(&["forget", "get_mut", "get"]);
    let result = filter_methods(&methods, "get");
    let names: Vec<&str> = result.iter().map(|m| m.name.as_str()).collect();
    assert_eq!(names, ["get", "get_mut", "forget"]);
}

#[test]
fn filter_no_match_returns_empty() {
    let methods = make_methods(&["push", "pop", "len"]);
    let result = filter_methods(&methods, "zzz");
    assert!(result.is_empty());
}

#[test]
fn filter_excludes_non_matching() {
    let methods = make_methods(&["push", "pop", "get", "len"]);
    let result = filter_methods(&methods, "get");
    assert_eq!(result.len(), 1);
    assert_eq!(result[0].name, "get");
}

#[test]
fn filter_keeps_input_order_within_a_tier() {
    let methods = make_methods(&["get_b", "forget", "get_a", "target"]);
    let result = filter_methods(&methods, "get");
    let names: Vec<&str> = result.iter().map(|m| m.name.as_str()).collect();
    assert_eq!(names, ["get_b", "get_a", "forget", "target"]);
}

#[test]
fn query_builder_runs_its_filter_on_the_reported_methods() {
    let q = MethodQuery::new("Vec<u8>").deps("x = \"1\"").filter("get");
    assert_eq!(q.type_expr(), "Vec<u8>");
    assert_eq!(q.dependencies(), Some("x = \"1\""));
    let out = q.run(Ok(make_methods(&["forget", "get_mut", "get", "len"]))).ok().unwrap();
    let names: Vec<&str> = out.iter().map(|m| m.name.as_str()).collect();
    assert_eq!(names, ["get", "get_mut", "forget"]);
}

#[test]
fn query_builder_without_filter_keeps_everything() {
    let q = MethodQuery::new("String");
    assert_eq!(q.dependencies(), None);
    let out = q.run(Ok(make_methods(&["b", "a"]))).ok().unwrap();
    assert_eq!(out.len(), 2);
    assert_eq!(out[0].name, "b");
}

#[test]
fn definitions_pair_with_their_methods() {
    let defs = vec![
        Ok(Some(Definition { path: "src/a.rs".to_string(), full_path: "/p/src/a.rs".to_string(), line: 3 })),
        Ok(None),
    ];
    let rs = collect_definitions(make_methods(&["a", "b"]), defs).ok().unwrap();
    assert_eq!(rs.len(), 2);
    assert_eq!(rs[0].method.name, "a");
    assert_eq!(rs[0].definition.as_ref().unwrap().line, 3);
    assert!(rs[1].definition.is_none());
}

#[test]
fn first_failed_definition_lookup_decides_the_error() {
    let defs = vec![
        Ok(None),
        Err(RustMethError::NoContentLength),
        Err(RustMethError::RustAnalyzerNotFound),
    ];
    match collect_definitions(make_methods(&["a", "b", "c"]), defs) {
        Err(RustMethError::NoContentLength) => {}
        _ => panic!("expected the first error"),
    }
}

// -- fuzzy filtering --

#[test]
fn interactive_test_filter_methods_no_filter() {
    let methods = vec![make_method("len"), make_method("push"), make_method("pop")];
    let result = rust_meth::interactive::filter_methods(&methods, None);
    assert_eq!(result.len(), 3);
}

#[test]
fn interactive_test_filter_methods_exact_match() {
    let methods = vec![make_method("len"), make_method("push"), make_method("pop")];
    let result = rust_meth::interactive::filter_methods(&methods, Some("len"));
    assert_eq!(result.len(), 1);
    assert_eq!(result[0].name, "len");
}

#[test]
fn interactive_test_filter_methods_fuzzy_match() {
    let methods = vec![
        make_method("wrapping_add"),
        make_method("wrapping_sub"),
        make_method("checked_add"),
        make_method("saturating_add"),
        make_method("overflowing_add"),
    ];
    let result = rust_meth::interactive::filter_methods(&methods, Some("wrap"));
    assert!(result.len() >= 2);
    assert!(result.iter().any(|m| m.name == "wrapping_add"));
    assert!(result.iter().any(|m| m.name == "wrapping_sub"));
}

#[test]
fn interactive_test_filter_methods_fuzzy_ordering() {
    let methods = vec![make_method("checked_add"), make_method("add"), make_method("wrapping_add")];
    let result = rust_meth::interactive::filter_methods(&methods, Some("add"));
    assert!(!result.is_empty());
    assert_eq!(result[0].name, "add");
}

#[test]
fn interactive_test_filter_methods_no_matches() {
    let methods = vec![make_method("len"), make_method("push")];
    let result = rust_meth::interactive::filter_methods(&methods, Some("xyz_nonexistent"));
    assert!(result.is_empty());
}

#[test]
fn fuzzy_scores_order_the_matches() {
    let methods = vec![make_method("wrapping_add"), make_method("checked_add"), make_method("add")];
    let result = rust_meth::interactive::filter_methods(&methods, Some("add"));
    assert_eq!(result.len(), 3);
    assert_eq!(result[0].name, "add");
    let none = rust_meth::interactive::filter_methods(&methods, Some("zz"));
    assert!(none.is_empty());
    let all = rust_meth::interactive::filter_methods(&methods, Some(""));
    assert_eq!(all.len(), 3);
    assert_eq!(all[0].name, "wrapping_add");
}

#[test]
fn query_builder_passes_a_failed_query_on() {
    let q = MethodQuery::new("u8").filter("x");
    assert!(matches!(q.run(Err(RustMethError::RustAnalyzerNotFound)), Err(RustMethError::RustAnalyzerNotFound)));
}

#[test]
fn test_filter_methods_no_filter() {
    let methods = vec![make_method("len"), make_method("push"), make_method("pop")];
    let result = rust_meth::interactive::filter_methods(&methods, None);
    assert_eq!(result.len(), 3);
}

#[test]
fn test_filter_methods_exact_match() {
    let methods = vec![make_method("len"), make_method("push"), make_method("pop")];
    let result = rust_meth::interactive::filter_methods(&methods, Some("len"));
    assert_eq!(result.len(), 1);
    assert_eq!(result[0].name, "len");
}

#[test]
fn test_filter_methods_fuzzy_match() {
    let methods = vec![
        make_method("wrapping_add"),
        make_method("wrapping_sub"),
        make_method("checked_add"),
        make_method("saturating_add"),
        make_method("overflowing_add"),
    ];
    let result = rust_meth::interactive::filter_methods(&methods, Some("wrap"));
    assert!(result.len() >= 2);
    assert!(result.iter().any(|m| m.name == "wrapping_add"));
    assert!(result.iter().any(|m| m.name == "wrapping_sub"));
}

#[test]
fn test_filter_methods_fuzzy_ordering() {
    let methods = vec![make_method("checked_add"), make_method("add"), make_method("wrapping_add")];
    let result = rust_meth::interactive::filter_methods(&methods, Some("add"));
    assert!(!result.is_empty());
    assert_eq!(result[0].name, "add");
}

#[test]
fn test_filter_methods_no_matches() {
    let methods = vec![make_method("len"), make_method("push")];
    let result = rust_meth::interactive::filter_methods(&methods, Some("xyz_nonexistent"));
    assert!(result.is_empty());
}
