use rust_meth::cache_key::cache_key_hash;
use rust_meth::probe::{
    cache_entries, cargo_toml, infer_dep, clear_probe_cache, line_count_exec, probe_source, Probe, ProbeCache,
    PREAMBLE,
};

fn cache() -> ProbeCache {
    ProbeCache::new("/tmp", 4242)
}

fn preamble_line_count() -> u32 {
    u32::try_from(line_count_exec(PREAMBLE)).unwrap()
}

#[test]
fn probe_no_deps_omits_dependencies_section() {
    let mut c = cache();
    let _p = Probe::new_with_deps(&mut c, "Vec<u8>", None);
    let cargo = cargo_toml(infer_dep("Vec<u8>").as_deref());
    assert!(!cargo.contains("[dependencies]"));
    assert!(cargo.contains("[package]"));
    assert!(cargo.contains(r#"name = "probe""#));
    assert!(cargo.contains(r#"edition = "2024""#));
}

#[test]
fn probe_with_deps_injects_dependencies_section() {
    let cargo = cargo_toml(Some(r#"serde_json = "1.0""#));
    assert!(cargo.contains("[dependencies]"));
    assert!(cargo.contains(r#"serde_json = "1.0""#));
}

#[test]
fn probe_multiple_deps_all_appear_in_cargo_toml() {
    let deps = "serde = { version = \"1.0\", features = [\"derive\"] }\nserde_json = \"1.0\"";
    let cargo = cargo_toml(Some(deps));
    assert!(cargo.contains("[dependencies]"));
    assert!(cargo.contains("serde ="));
    assert!(cargo.contains(r#"serde_json = "1.0""#));
}

#[test]
fn probe_completion_probe_source_has_dot_trigger() {
    let src = probe_source("Vec<u8>", None);
    assert!(src.contains("let _x: Vec<u8> = todo!();"));
    assert!(src.contains("    _x.\n"));
}

#[test]
fn probe_definition_probe_source_has_method_call() {
    let src = probe_source("Vec<u8>", Some("push"));
    assert!(src.contains("let _x: Vec<u8> = todo!();"));
    assert!(src.contains("_x.push();"));
}

#[test]
fn probe_completion_probe_with_deps_type_in_source() {
    let src = probe_source("serde_json::Value", None);
    assert!(src.contains("let _x: serde_json::Value = todo!();"));
}

#[test]
fn probe_definition_probe_with_deps_cargo_and_source_correct() {
    let cargo = cargo_toml(Some(r#"serde_json = "1.0""#));
    assert!(cargo.contains("[dependencies]"));
    let src = probe_source("serde_json::Value", Some("as_str"));
    assert!(src.contains("serde_json::Value"));
    assert!(src.contains("_x.as_str();"));
}

#[test]
fn probe_dot_col_is_seven() {
    let mut c = cache();
    let p = Probe::new_with_deps(&mut c, "Vec<u8>", None);
    assert_eq!(p.dot_col, 7, r#""    _x." should be 7 chars"#);
}

#[test]
fn probe_dot_line_is_preamble_plus_two() {
    let mut c = cache();
    let p = Probe::new_with_deps(&mut c, "Vec<u8>", None);
    assert_eq!(p.dot_line, preamble_line_count() + 2);
}

#[test]
fn probe_dot_line_same_for_definition_probe() {
    let mut c = cache();
    let p = Probe::for_definition_with_deps(&mut c, "Vec<u8>", "len", None);
    assert_eq!(p.dot_line, preamble_line_count() + 2);
}

#[test]
fn probe_src_uri_is_file_uri_ending_in_main_rs() {
    let mut c = cache();
    let p = Probe::new_with_deps(&mut c, "Vec<u8>", None);
    let uri = p.src_uri();
    assert!(uri.starts_with("file://"), "src_uri should be a file:// URI");
    assert!(uri.ends_with("/src/main.rs"), "src_uri should end in /src/main.rs");
}

#[test]
fn probe_root_uri_is_file_uri_not_ending_in_main_rs() {
    let mut c = cache();
    let p = Probe::new_with_deps(&mut c, "Vec<u8>", None);
    let uri = p.root_uri();
    assert!(uri.starts_with("file://"));
    assert!(!uri.ends_with("main.rs"));
}

#[test]
fn mod_no_deps_omits_dependencies_section() {
    let mut c = cache();
    let _p = Probe::new_with_deps(&mut c, "Vec<u8>", None);
    let cargo = cargo_toml(infer_dep("Vec<u8>").as_deref());
    assert!(!cargo.contains("[dependencies]"));
    assert!(cargo.contains("[package]"));
    assert!(cargo.contains(r#"name = "probe""#));
    assert!(cargo.contains(r#"edition = "2024""#));
}

#[test]
fn mod_with_deps_injects_dependencies_section() {
    let cargo = cargo_toml(Some(r#"serde_json = "1.0""#));
    assert!(cargo.contains("[dependencies]"));
    assert!(cargo.contains(r#"serde_json = "1.0""#));
}

#[test]
fn mod_multiple_deps_all_appear_in_cargo_toml() {
    let deps = "serde = { version = \"1.0\", features = [\"derive\"] }\nserde_json = \"1.0\"";
    let cargo = cargo_toml(Some(deps));
    assert!(cargo.contains("[dependencies]"));
    assert!(cargo.contains("serde ="));
    assert!(cargo.contains(r#"serde_json = "1.0""#));
}

#[test]
fn mod_completion_probe_source_has_dot_trigger() {
    let src = probe_source("Vec<u8>", None);
    assert!(src.contains("let _x: Vec<u8> = todo!();"));
    assert!(src.contains("    _x.\n"));
}

#[test]
fn mod_definition_probe_source_has_method_call() {
    let src = probe_source("Vec<u8>", Some("push"));
    assert!(src.contains("let _x: Vec<u8> = todo!();"));
    assert!(src.contains("_x.push();"));
}

#[test]
fn mod_completion_probe_with_deps_type_in_source() {
    let src = probe_source("serde_json::Value", None);
    assert!(src.contains("let _x: serde_json::Value = todo!();"));
}

#[test]
fn mod_definition_probe_with_deps_cargo_and_source_correct() {
    let cargo = cargo_toml(Some(r#"serde_json = "1.0""#));
    assert!(cargo.contains("[dependencies]"));
    let src = probe_source("serde_json::Value", Some("as_str"));
    assert!(src.contains("serde_json::Value"));
    assert!(src.contains("_x.as_str();"));
}

#[test]
fn mod_dot_col_is_seven() {
    let mut c = cache();
    let p = Probe::new_with_deps(&mut c, "Vec<u8>", None);
    assert_eq!(p.dot_col, 7, r#""    _x." should be 7 chars"#);
}

#[test]
fn mod_dot_line_is_preamble_plus_two() {
    let mut c = cache();
    let p = Probe::new_with_deps(&mut c, "Vec<u8>", None);
    assert_eq!(p.dot_line, preamble_line_count() + 2);
}

#[test]
fn mod_dot_line_same_for_definition_probe() {
    let mut c = cache();
    let p = Probe::for_definition_with_deps(&mut c, "Vec<u8>", "len", None);
    assert_eq!(p.dot_line, preamble_line_count() + 2);
}

#[test]
fn mod_src_uri_is_file_uri_ending_in_main_rs() {
    let mut c = cache();
    let p = Probe::new_with_deps(&mut c, "Vec<u8>", None);
    let uri = p.src_uri();
    assert!(uri.starts_with("file://"), "src_uri should be a file:// URI");
    assert!(uri.ends_with("/src/main.rs"), "src_uri should end in /src/main.rs");
}

#[test]
fn mod_root_uri_is_file_uri_not_ending_in_main_rs() {
    let mut c = cache();
    let p = Probe::new_with_deps(&mut c, "Vec<u8>", None);
    let uri = p.root_uri();
    assert!(uri.starts_with("file://"));
    assert!(!uri.ends_with("main.rs"));
}

// -- the in-process cache --

#[test]
fn cache_hit_returns_same_directory() {
    let mut c = cache();
    clear_probe_cache(&mut c);
    let p1 = Probe::new_with_deps(&mut c, "Vec<u8>", None);
    let p2 = Probe::new_with_deps(&mut c, "Vec<u8>", None);
    assert_eq!(p1.dir, p2.dir, "cache hit should reuse the same directory");
}

#[test]
fn cache_miss_different_type_names() {
    let mut c = cache();
    clear_probe_cache(&mut c);
    let p1 = Probe::new_with_deps(&mut c, "Vec<u8>", None);
    let p2 = Probe::new_with_deps(&mut c, "String", None);
    assert_ne!(p1.dir, p2.dir);
}

#[test]
fn cache_miss_different_deps() {
    let mut c = cache();
    clear_probe_cache(&mut c);
    let p1 = Probe::new_with_deps(&mut c, "serde_json::Value", Some(r#"serde_json = "1.0""#));
    let p2 = Probe::new_with_deps(&mut c, "serde_json::Value", Some(r#"serde_json = "2.0""#));
    assert_ne!(p1.dir, p2.dir);
}

#[test]
fn cache_entries_reflects_current_cache() {
    let mut c = cache();
    clear_probe_cache(&mut c);
    let _p1 = Probe::new_with_deps(&mut c, "Vec<u8>", None);
    let _p2 = Probe::new_with_deps(&mut c, "String", None);
    let entries = cache_entries(&c);
    let names: Vec<&str> = entries.iter().map(|e| e.type_expr.as_str()).collect();
    assert!(names.contains(&"Vec<u8>"));
    assert!(names.contains(&"String"));
}

#[test]
fn clear_probe_cache_evicts_all_entries() {
    let mut c = cache();
    let _p = Probe::new_with_deps(&mut c, "Vec<u8>", None);
    clear_probe_cache(&mut c);
    assert!(cache_entries(&c).is_empty());
}

#[test]
fn definition_and_completion_probes_are_cached_apart() {
    let mut c = cache();
    let p1 = Probe::new_with_deps(&mut c, "Vec<u8>", None);
    let p2 = Probe::for_definition_with_deps(&mut c, "Vec<u8>", "len", None);
    assert_ne!(p1.dir, p2.dir);
    assert!(p2.dir.contains("probe-def"));
    assert_eq!(cache_entries(&c).len(), 2);
}

#[test]
fn probe_directory_is_named_after_process_and_counter() {
    let mut c = ProbeCache::new("/tmp/", 7);
    let p = Probe::new(&mut c, "u8");
    assert_eq!(p.dir, "/tmp/rust-meth-probe-7-0");
    assert_eq!(p.src_path, "/tmp/rust-meth-probe-7-0/src/main.rs");
    assert_eq!(p.root_uri(), "file:///tmp/rust-meth-probe-7-0");
    let q = Probe::for_definition(&mut c, "u8", "pow");
    assert_eq!(q.dir, "/tmp/rust-meth-probe-def-7-1");
}

#[test]
fn third_party_type_infers_its_crate() {
    assert_eq!(infer_dep("serde_json::Value").as_deref(), Some("serde_json = \"*\""));
    assert_eq!(infer_dep("Vec<u8>"), None);
    assert_eq!(infer_dep("Foo::Bar"), None);
}

#[test]
fn can_create_is_true_for_a_fresh_cache() {
    assert!(cache().can_create());
}

// -- persistent cache keys --

#[test]
fn cache_key_hash_differs_by_type() {
    let h1 = cache_key_hash("Vec<u8>", None, None, "rust-analyzer 1.0");
    let h2 = cache_key_hash("String", None, None, "rust-analyzer 1.0");
    assert_ne!(h1, h2);
}

#[test]
fn cache_key_hash_differs_by_ra_version() {
    let h1 = cache_key_hash("Vec<u8>", None, None, "rust-analyzer 1.0");
    let h2 = cache_key_hash("Vec<u8>", None, None, "rust-analyzer 2.0");
    assert_ne!(h1, h2);
}

#[test]
fn cache_key_hash_differs_by_deps() {
    let h1 = cache_key_hash("serde_json::Value", Some(r#"serde_json = "1.0""#), None, "ra");
    let h2 = cache_key_hash("serde_json::Value", Some(r#"serde_json = "2.0""#), None, "ra");
    assert_ne!(h1, h2);
}

#[test]
fn cache_key_hash_is_sixteen_hex_digits_and_stable() {
    let h = cache_key_hash("Vec<u8>", None, Some("len"), "ra");
    assert_eq!(h.len(), 16);
    assert!(h.chars().all(|c| c.is_ascii_hexdigit() && !c.is_ascii_uppercase()));
    assert_eq!(h, cache_key_hash("Vec<u8>", None, Some("len"), "ra"));
}

#[test]
fn fnv1a_matches_known_values() {
    assert_eq!(rust_meth::cache_key::fnv1a(""), 0xcbf2_9ce4_8422_2325);
    assert_eq!(rust_meth::cache_key::fnv1a("a"), 0xaf63_dc4c_8601_ec8c);
}

#[test]
fn persisted_probes_are_adopted_without_a_new_directory() {
    let mut c = cache();
    let kept = Probe { dot_line: 12, dot_col: 7, dir: "/kept".to_string(), src_path: "/kept/src/main.rs".to_string() };
    let p = Probe::new_with_deps_cached(&mut c, "Vec<u8>", None, Some(kept));
    assert_eq!(p.dir, "/kept");
    let again = Probe::new_with_deps_cached(&mut c, "Vec<u8>", None, None);
    assert_eq!(again.dir, "/kept");
    let fresh = Probe::for_definition_with_deps_cached(&mut c, "Vec<u8>", "len", None, None);
    assert_eq!(fresh.dir, "/tmp/rust-meth-probe-def-4242-0");
}

#[test]
fn absent_and_empty_inputs_give_different_keys() {
    assert_ne!(cache_key_hash("T", None, Some("m"), "v"), cache_key_hash("T", Some(""), Some("m"), "v"));
    assert_ne!(cache_key_hash("T", Some("d"), None, "v"), cache_key_hash("T", Some("d"), Some(""), "v"));
}

#[test]
fn toolchain_paths_get_no_inferred_dependency() {
    assert_eq!(infer_dep("std::collections::HashMap<String, u32>"), None);
    assert_eq!(infer_dep("core::num::NonZeroU8"), None);
    assert_eq!(infer_dep("alloc::vec::Vec<u8>"), None);
    assert_eq!(infer_dep("stdx::Thing").as_deref(), Some("stdx = \"*\""));
    assert_eq!(infer_dep("tokio::sync::Mutex<u8>").as_deref(), Some("tokio = \"*\""));
    let cargo = cargo_toml(infer_dep("std::collections::HashMap<String, u32>").as_deref());
    assert!(!cargo.contains("[dependencies]"));
}
