use rust_meth::analyzer::Definition;
use rust_meth::links::{
    build_doc_url, build_explain_url, cargo_crate_name, editor_command, is_stdlib_path,
    stdlib_type_info, strip_version_suffix,
};

fn def(full: &str, line: u32) -> Definition {
    Definition { path: String::new(), full_path: full.to_string(), line }
}

#[test]
fn stdlib_methods_link_to_std_docs() {
    let d = def("/r/toolchains/stable/library/alloc/src/vec/mod.rs", 1);
    assert_eq!(
        build_doc_url("Vec<u8>", "push", &d),
        "https://doc.rust-lang.org/std/vec/struct.Vec.html#method.push"
    );
    let p = def("/r/library/core/src/num/mod.rs", 1);
    assert_eq!(
        build_doc_url("u8", "checked_add", &p),
        "https://doc.rust-lang.org/std/primitive.u8.html#method.checked_add"
    );
    let o = def("/r/library/std/src/thread/mod.rs", 1);
    assert_eq!(
        build_doc_url("Thread", "id", &o),
        "https://doc.rust-lang.org/std/struct.Thread.html#method.id"
    );
    let h = def("/r/library/std/src/collections/hash/map.rs", 1);
    assert_eq!(
        build_doc_url("HashMap<String,u32>", "get", &h),
        "https://doc.rust-lang.org/std/collections/hash_map/struct.HashMap.html#method.get"
    );
}

#[test]
fn registry_methods_link_to_docs_rs() {
    let d = def("/h/.cargo/registry/src/index.crates.io-6f17d22bba15001f/serde_json-1.0.108/src/value/mod.rs", 1);
    assert_eq!(
        build_doc_url("serde_json::Value", "as_str", &d),
        "https://docs.rs/serde_json/latest/serde_json/struct.serde_json::Value.html#method.as_str"
    );
}

#[test]
fn other_methods_link_to_a_search() {
    let d = def("/home/me/project/src/lib.rs", 1);
    assert_eq!(
        build_doc_url("Foo<u8>", "bar", &d),
        "https://docs.rs/releases/search?query=Foo<u8>+bar"
    );
}

#[test]
fn stdlib_paths_are_recognised() {
    assert!(is_stdlib_path("/x/library/core/src/lib.rs"));
    assert!(is_stdlib_path("/x/library/alloc/src/lib.rs"));
    assert!(!is_stdlib_path("/x/src/lib.rs"));
}

#[test]
fn stdlib_type_info_knows_the_modules() {
    assert_eq!(stdlib_type_info("str"), ("primitive", "primitive"));
    assert_eq!(stdlib_type_info("Option"), ("option", "enum"));
    assert_eq!(stdlib_type_info("BinaryHeap"), ("collections/binary_heap", "struct"));
    assert_eq!(stdlib_type_info("Cell"), ("", "struct"));
}

#[test]
fn version_suffixes_are_stripped() {
    assert_eq!(strip_version_suffix("serde_json-1.0.108"), "serde_json");
    assert_eq!(strip_version_suffix("tokio-util-0.7.10"), "tokio-util");
    assert_eq!(strip_version_suffix("foo-1.0.0-beta-2"), "foo-1.0.0-beta");
    assert_eq!(strip_version_suffix("noversion"), "noversion");
    assert_eq!(strip_version_suffix("1-2-3"), "");
    assert_eq!(strip_version_suffix(""), "");
}

#[test]
fn crate_names_come_from_registry_paths() {
    assert_eq!(
        cargo_crate_name("/h/.cargo/registry/src/index.crates.io-1/tokio-util-0.7.10/src/lib.rs").as_deref(),
        Some("tokio_util")
    );
    assert_eq!(cargo_crate_name("/h/project/src/lib.rs"), None);
    assert_eq!(cargo_crate_name("/h/.cargo/registry/src/index-only"), None);
}

#[test]
fn explain_urls_need_no_definition() {
    assert_eq!(
        build_explain_url("Result<u8,String>", "unwrap_unchecked"),
        "https://doc.rust-lang.org/std/result/enum.Result.html#method.unwrap_unchecked"
    );
    assert_eq!(
        build_explain_url("i64", "abs"),
        "https://doc.rust-lang.org/std/primitive.i64.html#method.abs"
    );
    assert_eq!(
        build_explain_url("Rc<u8>", "new"),
        "https://docs.rs/releases/search?query=Rc+new"
    );
}

#[test]
fn editors_get_their_own_arguments() {
    let d = def("/src/lib.rs", 9);
    let (e, a) = editor_command(Some("hx".to_string()), None, &d).unwrap();
    assert_eq!(e, "hx");
    assert_eq!(a, vec!["/src/lib.rs:10".to_string()]);
    let (_, a) = editor_command(None, Some("code".to_string()), &d).unwrap();
    assert_eq!(a, vec!["--goto".to_string(), "/src/lib.rs:10".to_string()]);
    let (e, a) = editor_command(Some("vim".to_string()), Some("code".to_string()), &d).unwrap();
    assert_eq!(e, "vim");
    assert_eq!(a, vec!["+10".to_string(), "/src/lib.rs".to_string()]);
    assert_eq!(
        editor_command(None, None, &d).err().unwrap(),
        "$EDITOR and $VISUAL are not set"
    );
}
