use rust_meth::probe::{cargo_toml, effective_deps_of, probe_source, Probe, ProbeCache};

fn cache() -> ProbeCache {
    ProbeCache::new("/tmp", 99)
}

fn cargo_for(type_expr: &str, deps: Option<&str>) -> String {
    cargo_toml(effective_deps_of(type_expr, deps).as_deref())
}

#[test]
fn new_with_deps_none_creates_valid_project() {
    let mut c = cache();
    let p = Probe::new_with_deps(&mut c, "Vec<u8>", None);
    assert!(p.src_path.starts_with(&p.dir));
    assert!(p.src_path.ends_with("src/main.rs"));
    let cargo = cargo_for("Vec<u8>", None);
    assert!(cargo.contains("[package]"));
    assert!(cargo.contains(r#"name = "probe""#));
    assert!(cargo.contains(r#"edition = "2024""#));
    assert!(!cargo.contains("[dependencies]"), "no deps arg → no [dependencies] section");
}

#[test]
fn new_with_deps_some_injects_dep_into_cargo_toml() {
    let cargo = cargo_for("serde_json::Value", Some(r#"serde_json = "1.0""#));
    assert!(cargo.contains("[dependencies]"));
    assert!(cargo.contains(r#"serde_json = "1.0""#));
}

#[test]
fn new_with_deps_source_contains_type_name() {
    let src = probe_source("HashMap<String, u32>", None);
    assert!(src.contains("let _x: HashMap<String, u32> = todo!();"));
    assert!(src.contains("    _x.\n"));
}

#[test]
fn new_with_deps_third_party_type_and_dep() {
    let cargo = cargo_for("serde_json::Value", Some(r#"serde_json = "1.0""#));
    assert!(cargo.contains("[dependencies]"));
    let src = probe_source("serde_json::Value", None);
    assert!(src.contains("let _x: serde_json::Value = todo!();"));
    assert!(src.contains("    _x.\n"));
}

#[test]
fn new_with_deps_multiple_deps() {
    let deps = "serde = { version = \"1.0\", features = [\"derive\"] }\nserde_json = \"1.0\"";
    let cargo = cargo_for("serde_json::Value", Some(deps));
    assert!(cargo.contains("[dependencies]"));
    assert!(cargo.contains("serde ="));
    assert!(cargo.contains(r#"serde_json = "1.0""#));
}

#[test]
fn for_definition_with_deps_none_source_has_method_call() {
    let cargo = cargo_for("Vec<u8>", None);
    assert!(!cargo.contains("[dependencies]"));
    let src = probe_source("Vec<u8>", Some("len"));
    assert!(src.contains("let _x: Vec<u8> = todo!();"));
    assert!(src.contains("_x.len();"), "method call should be present");
}

#[test]
fn for_definition_with_deps_some_injects_dep() {
    let cargo = cargo_for("serde_json::Value", Some(r#"serde_json = "1.0""#));
    assert!(cargo.contains("[dependencies]"));
    assert!(cargo.contains(r#"serde_json = "1.0""#));
    let src = probe_source("serde_json::Value", Some("as_str"));
    assert!(src.contains("serde_json::Value"));
    assert!(src.contains("_x.as_str();"));
}

#[test]
fn dot_col_is_seven_for_completion_probe() {
    let mut c = cache();
    let p = Probe::new_with_deps(&mut c, "Vec<u8>", None);
    assert_eq!(p.dot_col, 7);
}

#[test]
fn dot_col_is_seven_for_definition_probe() {
    let mut c = cache();
    let p = Probe::for_definition_with_deps(&mut c, "Vec<u8>", "len", None);
    assert_eq!(p.dot_col, 7);
}

#[test]
fn probe_deps_src_uri_is_file_uri_ending_in_main_rs() {
    let mut c = cache();
    let p = Probe::new_with_deps(&mut c, "Vec<u8>", None);
    let uri = p.src_uri();
    assert!(uri.starts_with("file://"));
    assert!(uri.ends_with("/src/main.rs"));
}

#[test]
fn root_uri_is_file_uri_not_pointing_to_source_file() {
    let mut c = cache();
    let p = Probe::new_with_deps(&mut c, "Vec<u8>", None);
    let uri = p.root_uri();
    assert!(uri.starts_with("file://"));
    assert!(!uri.ends_with("main.rs"), "root URI should point to project dir, not source file");
}
