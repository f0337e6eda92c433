use rust_meth::cache_key::cache_key_hash;
use rust_meth::error::RustMethError;
use rust_meth::probe::{effective_deps_of, Probe, ProbeCache};
use rust_meth::locations::{
    cache_base, find_rust_analyzer, persisted_probe, persistent_cache_dir, persistent_probe_dir, ra_version_text,
    AnalyzerLocator,
    results_cache_dir, results_entry_path, rustup_result, which_result, workspaces_dir,
};

#[test]
fn persistent_cache_dir_ends_with_rust_meth_probes() {
    let base = cache_base(None, Some("/home/me"), "/tmp");
    let dir = persistent_cache_dir(&base);
    assert!(dir.ends_with("rust-meth/probes"));
}

#[test]
fn cache_directories_follow_the_environment() {
    assert_eq!(cache_base(Some("/xdg"), Some("/home/me"), "/tmp"), "/xdg");
    assert_eq!(cache_base(None, Some("/home/me"), "/tmp"), "/home/me/.cache");
    assert_eq!(cache_base(None, None, "/tmp"), "/tmp/.cache");
    assert_eq!(results_cache_dir("/c"), "/c/rust-meth/results");
    assert_eq!(workspaces_dir("/c/"), "/c/rust-meth/workspaces");
}

#[test]
fn cache_entries_are_named_by_key() {
    let key = cache_key_hash("Vec<u8>", None, None, "ra 1");
    assert_eq!(results_entry_path("/c", "Vec<u8>", None, "ra 1"), format!("/c/rust-meth/results/{key}.json"));
    let pkey = cache_key_hash("Vec<u8>", None, Some("len"), "ra 1");
    assert_eq!(persistent_probe_dir("/c", "Vec<u8>", None, Some("len"), "ra 1"), format!("/c/rust-meth/probes/{pkey}"));
}

#[test]
fn analyzer_version_text() {
    assert_eq!(ra_version_text(Some("rust-analyzer 1.80.0\n")), "rust-analyzer 1.80.0");
    assert_eq!(ra_version_text(Some("  \n")), "unknown");
    assert_eq!(ra_version_text(None), "unknown");
}

#[test]
fn finding_the_analyzer() {
    assert_eq!(which_result(true, "/usr/bin/rust-analyzer\n").as_deref(), Some("/usr/bin/rust-analyzer"));
    assert_eq!(which_result(false, "/x"), None);
    assert_eq!(rustup_result(true, "  \n"), None);
    assert_eq!(rustup_result(true, "/r/ra\n").as_deref(), Some("/r/ra"));
    assert_eq!(find_rust_analyzer(None, None, Some("/r/ra".to_string())).ok().as_deref(), Some("/r/ra"));
    assert_eq!(
        find_rust_analyzer(Some("/c".to_string()), Some("/w".to_string()), None).ok().as_deref(),
        Some("/c")
    );
    assert!(matches!(find_rust_analyzer(None, None, None), Err(RustMethError::RustAnalyzerNotFound)));
}

#[test]
fn a_found_analyzer_is_remembered() {
    let mut l = AnalyzerLocator::new();
    assert!(l.remembered().is_none());
    assert!(matches!(l.locate(None, None), Err(RustMethError::RustAnalyzerNotFound)));
    assert_eq!(l.locate(None, Some("/r/ra".to_string())).ok().as_deref(), Some("/r/ra"));
    assert_eq!(l.remembered().as_deref(), Some("/r/ra"));
    assert_eq!(l.locate(Some("/w".to_string()), None).ok().as_deref(), Some("/r/ra"));
}

#[test]
fn persisted_probes_live_under_their_key() {
    let p = persisted_probe("/c", "Vec<u8>", None, None, "ra", 12, 7);
    let key = cache_key_hash("Vec<u8>", None, None, "ra");
    assert_eq!(p.dir, format!("/c/rust-meth/probes/{key}"));
    assert_eq!(p.src_path, format!("/c/rust-meth/probes/{key}/src/main.rs"));
    assert_eq!((p.dot_line, p.dot_col), (12, 7));
}

#[test]
fn a_saved_probe_is_reused_unchanged_in_a_later_run() {
    let mut first_run = ProbeCache::new("/tmp", 11);
    let p1 = Probe::create_probe_cached(&mut first_run, "serde_json::Value", None, None, None);
    let deps = effective_deps_of("serde_json::Value", None);
    let loaded = persisted_probe("/c", "serde_json::Value", deps.as_deref(), None, "ra 1", p1.dot_line, p1.dot_col);
    let mut second_run = ProbeCache::new("/tmp", 12);
    let p2 = Probe::create_probe_cached(&mut second_run, "serde_json::Value", None, None, Some(loaded));
    let key = cache_key_hash("serde_json::Value", deps.as_deref(), None, "ra 1");
    assert_eq!((p2.dot_line, p2.dot_col), (p1.dot_line, p1.dot_col));
    assert_eq!(p2.dir, format!("/c/rust-meth/probes/{key}"));
    assert_eq!(p2.src_path, format!("/c/rust-meth/probes/{key}/src/main.rs"));
    assert_ne!(p2.dir, p1.dir);
}
