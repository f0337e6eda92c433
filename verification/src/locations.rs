//! Where the persistent caches live, what their entries record, and how
//! the analyzer is found and identified.
//!
//! The environment and the file system are read by the caller; the
//! functions here decide from the values it read.
use vstd::prelude::*;
use crate::cache_key::{cache_key_spec, cache_key_hash};
use crate::error::RustMethError;
use crate::probe::{join_spec, join_path, src_path_of, Probe, ProbeCache, laid_out, key_of, effective_deps, probe_query_cached};
use crate::text::{chars_of, string_from, owned, trim_exec, opt_str_view, opt_view, trim, push_str};

verus! {

/// The base directory for caches: `$XDG_CACHE_HOME`, else `$HOME/.cache`,
/// else the temporary directory's `.cache`.
pub open spec fn cache_base_spec(xdg: Option<Seq<char>>, home: Option<Seq<char>>, temp: Seq<char>) -> Seq<char> {
    match xdg {
        Some(x) => x,
        None => match home {
            Some(h) => join_spec(h, ".cache"@),
            None => join_spec(temp, ".cache"@),
        },
    }
}

/// See [`cache_base_spec`]: `xdg_cache_home`, `home` and `temp_dir` are the
/// values of `$XDG_CACHE_HOME`, `$HOME` and the temporary directory.
pub fn cache_base(xdg_cache_home: Option<&str>, home: Option<&str>, temp_dir: &str) -> (r: String)
    ensures
        r@ == cache_base_spec(opt_str_view(xdg_cache_home), opt_str_view(home), temp_dir@),
{
    match xdg_cache_home {
        Some(x) => owned(x),
        None => match home {
            Some(h) => string_from(&join_path(&chars_of(h), ".cache")),
            None => string_from(&join_path(&chars_of(temp_dir), ".cache")),
        },
    }
}

/// `base/rust-meth/leaf`.
pub open spec fn cache_dir_spec(base: Seq<char>, leaf: Seq<char>) -> Seq<char> {
    join_spec(join_spec(base, "rust-meth"@), leaf)
}

/// The persistent probe cache under the cache base `base`.
pub fn persistent_cache_dir(base: &str) -> (r: String)
    ensures
        r@ == cache_dir_spec(base@, "probes"@),
{
    string_from(&join_path(&join_path(&chars_of(base), "rust-meth"), "probes"))
}

/// The persistent results cache under the cache base `base`.
pub fn results_cache_dir(base: &str) -> (r: String)
    ensures
        r@ == cache_dir_spec(base@, "results"@),
{
    string_from(&join_path(&join_path(&chars_of(base), "rust-meth"), "results"))
}

/// The daemon's workspaces under the cache base `base`.
pub fn workspaces_dir(base: &str) -> (r: String)
    ensures
        r@ == cache_dir_spec(base@, "workspaces"@),
{
    string_from(&join_path(&join_path(&chars_of(base), "rust-meth"), "workspaces"))
}

/// Where a probe configuration is kept in the persistent probe cache: the
/// directory named by its cache key.
pub fn persistent_probe_dir(
    base: &str,
    type_expr: &str,
    effective_deps: Option<&str>,
    method_name: Option<&str>,
    ra_version: &str,
) -> (r: String)
    ensures
        r@ == join_spec(
            cache_dir_spec(base@, "probes"@),
            cache_key_spec(type_expr@, opt_str_view(effective_deps), opt_str_view(method_name), ra_version@),
        ),
{
    let dir = persistent_cache_dir(base);
    let key = cache_key_hash(type_expr, effective_deps, method_name, ra_version);
    string_from(&join_path(&chars_of(dir.as_str()), key.as_str()))
}

/// `p` is the probe kept in the persistent cache under `base` for a
/// configuration (type, effective dependencies, method, analyzer version),
/// with the cursor `(dot_line, dot_col)` recorded when it was saved.
pub open spec fn is_persisted_probe(
    p: Probe,
    base: Seq<char>,
    ty: Seq<char>,
    effective_deps: Option<Seq<char>>,
    method: Option<Seq<char>>,
    ra_version: Seq<char>,
    dot_line: u32,
    dot_col: u32,
) -> bool {
    &&& p.dir@ == join_spec(cache_dir_spec(base, "probes"@), cache_key_spec(ty, effective_deps, method, ra_version))
    &&& p.src_path@ == src_path_of(p.dir@)
    &&& p.dot_line == dot_line
    &&& p.dot_col == dot_col
}

/// The probe kept in the persistent cache for a configuration: its
/// directory is the one [`persistent_probe_dir`] names, its source file
/// `src/main.rs` in it, and its cursor the one recorded when it was saved.
/// A probe saved with cursor `(dot_line, dot_col)` under a key is found
/// again under that key with the same cursor, in any later run.
pub fn persisted_probe(
    base: &str,
    type_expr: &str,
    effective_deps: Option<&str>,
    method_name: Option<&str>,
    ra_version: &str,
    dot_line: u32,
    dot_col: u32,
) -> (r: Probe)
    ensures
        is_persisted_probe(
            r,
            base@,
            type_expr@,
            opt_str_view(effective_deps),
            opt_str_view(method_name),
            ra_version@,
            dot_line,
            dot_col,
        ),
{
    let dir = persistent_probe_dir(base, type_expr, effective_deps, method_name, ra_version);
    let d = chars_of(dir.as_str());
    let src = join_path(&join_path(&d, "src"), "main.rs");
    Probe { dot_line, dot_col, dir, src_path: string_from(&src) }
}

/// Where the results for a query are kept in the results cache: the key of
/// the query (without a method) followed by `.json`.
pub fn results_entry_path(base: &str, type_expr: &str, effective_deps: Option<&str>, ra_version: &str) -> (r:
    String)
    ensures
        r@ == join_spec(
            cache_dir_spec(base@, "results"@),
            cache_key_spec(type_expr@, opt_str_view(effective_deps), None, ra_version@) + ".json"@,
        ),
{
    let dir = results_cache_dir(base);
    let key = cache_key_hash(type_expr, effective_deps, None, ra_version);
    let mut name = chars_of(key.as_str());
    push_str(&mut name, ".json");
    string_from(&join_path(&chars_of(dir.as_str()), string_from(&name).as_str()))
}

/// What the results cache knows about one stored query.
pub struct ResultsCacheEntry {
    /// The queried type.
    pub type_expr: String,
    /// The effective dependency lines, if any.
    pub deps: Option<String>,
    /// The analyzer version the results came from.
    pub ra_version: String,
    /// The library version that stored them.
    pub lib_version: String,
    /// How many methods are stored.
    pub method_count: usize,
    /// The entry's file.
    pub path: String,
}

/// What the persistent probe cache knows about one stored probe.
pub struct PersistentCacheEntry {
    /// The probe's type.
    pub type_expr: String,
    /// The effective dependency lines, if any.
    pub deps: Option<String>,
    /// The method a definition probe points at.
    pub method_name: Option<String>,
    /// The analyzer version the probe was made for.
    pub ra_version: String,
    /// The library version that stored it.
    pub lib_version: String,
    /// The probe's directory.
    pub dir: String,
}

// ---------------------------------------------------------------------------
// The analyzer
// ---------------------------------------------------------------------------

/// The analyzer's version from the output of `rust-analyzer --version`
/// (`None` when it could not be run or printed no UTF-8): the trimmed output,
/// or `unknown` when that is empty.
pub fn ra_version_text(output: Option<&str>) -> (r: String)
    ensures
        r@ == match output {
            Some(o) => if trim(o@).len() > 0 { trim(o@) } else { "unknown"@ },
            None => "unknown"@,
        },
{
    match output {
        Some(o) => {
            let t = trim_exec(&chars_of(o));
            if t.len() > 0 {
                string_from(&t)
            } else {
                owned("unknown")
            }
        },
        None => owned("unknown"),
    }
}

/// The path that `which rust-analyzer` reports: its trimmed output when it
/// succeeded.
pub fn which_result(success: bool, stdout: &str) -> (r: Option<String>)
    ensures
        success ==> (r matches Some(p) && p@ == trim(stdout@)),
        !success ==> r is None,
{
    if success {
        Some(string_from(&trim_exec(&chars_of(stdout))))
    } else {
        None
    }
}

/// The path that `rustup which rust-analyzer` reports: its trimmed output
/// when it succeeded and printed something.
pub fn rustup_result(success: bool, stdout: &str) -> (r: Option<String>)
    ensures
        success && trim(stdout@).len() > 0 ==> (r matches Some(p) && p@ == trim(stdout@)),
        !(success && trim(stdout@).len() > 0) ==> r is None,
{
    if !success {
        return None;
    }
    let t = trim_exec(&chars_of(stdout));
    if t.len() == 0 {
        None
    } else {
        Some(string_from(&t))
    }
}

/// Remembers where the analyzer was found, so that later searches give
/// the same path without looking again.
pub struct AnalyzerLocator {
    remembered: Option<String>,
}

impl View for AnalyzerLocator {
    type V = Option<Seq<char>>;

    closed spec fn view(&self) -> Option<Seq<char>> {
        opt_view(self.remembered)
    }
}

impl AnalyzerLocator {
    /// A locator that has found nothing yet.
    pub fn new() -> (r: AnalyzerLocator)
        ensures
            r@ is None,
    {
        AnalyzerLocator { remembered: None }
    }

    /// The path found earlier, if any; when there is one, `which` and
    /// `rustup` need not be run.
    pub fn remembered(&self) -> (r: Option<String>)
        ensures
            opt_view(r) == self@,
    {
        crate::text::opt_owned(match &self.remembered {
            Some(p) => Some(p.as_str()),
            None => None,
        })
    }

    /// Locates the analyzer (see [`find_rust_analyzer`]) and remembers a
    /// path once found (see [`locate_spec`]).
    pub fn locate(&mut self, which: Option<String>, rustup: Option<String>) -> (r: Result<String, RustMethError>)
        ensures
            locate_spec(old(self)@, opt_view(which), opt_view(rustup)) == (
                match r {
                    Ok(p) => Some(p@),
                    Err(_) => None,
                },
                final(self)@,
            ),
            r matches Err(e) ==> e is RustAnalyzerNotFound,
    {
        let found = find_rust_analyzer(self.remembered(), which, rustup);
        match found {
            Ok(p) => {
                self.remembered = Some(p.clone());
                Ok(p)
            },
            Err(e) => Err(e),
        }
    }
}

/// One search by a locator that remembers `before`, given what `which` and
/// `rustup` report: the path found (`None` when there is none) and what is
/// remembered afterwards. A remembered path wins; then `which`, then
/// `rustup`.
pub open spec fn locate_spec(before: Option<Seq<char>>, which: Option<Seq<char>>, rustup: Option<Seq<char>>) -> (
    Option<Seq<char>>,
    Option<Seq<char>>,
) {
    let found = match before {
        Some(p) => Some(p),
        None => match which {
            Some(w) => Some(w),
            None => rustup,
        },
    };
    (found, found)
}

/// Law: once a search has found a path, every later search finds that same
/// path and keeps it, whatever `which` and `rustup` report then.
pub proof fn lemma_locator_remembers(
    before: Option<Seq<char>>,
    which1: Option<Seq<char>>,
    rustup1: Option<Seq<char>>,
    which2: Option<Seq<char>>,
    rustup2: Option<Seq<char>>,
)
    ensures
        locate_spec(before, which1, rustup1).0 matches Some(p) ==> locate_spec(
            locate_spec(before, which1, rustup1).1,
            which2,
            rustup2,
        ) == (Some(p), Some(p)),
{
}

/// Picks the analyzer: the path remembered from an earlier search, else
/// what `which` found, else what `rustup` found. `rustup` is asked only
/// when `which` found nothing.
pub fn find_rust_analyzer(remembered: Option<String>, which: Option<String>, rustup: Option<String>) -> (r:
    Result<String, RustMethError>)
    ensures
        match r {
            Ok(p) => match remembered {
                Some(c) => p == c,
                None => match which {
                    Some(w) => p == w,
                    None => rustup == Some(p),
                },
            },
            Err(e) => remembered is None && which is None && rustup is None && e is RustAnalyzerNotFound,
        },
{
    match remembered {
        Some(c) => Ok(c),
        None => match which {
            Some(w) => Ok(w),
            None => match rustup {
                Some(p) => Ok(p),
                None => Err(RustMethError::RustAnalyzerNotFound),
            },
        },
    }
}

/// A probe laid out in one run and saved to the persistent cache with its
/// cursor is, in a later run whose in-process cache holds nothing for the
/// query's key, the probe that the query obtains: the same cursor, kept in
/// the persistent directory that the key names, and held by the cache from
/// then on.
pub proof fn lemma_persisted_probe_reused(
    earlier: Probe,
    temp: Seq<char>,
    pid: u32,
    id: u64,
    base: Seq<char>,
    ty: Seq<char>,
    method: Option<Seq<char>>,
    deps: Option<Seq<char>>,
    ra_version: Seq<char>,
    loaded: Probe,
    before: ProbeCache,
    after: ProbeCache,
    r: Probe,
)
    requires
        laid_out(earlier, temp, pid, id, method is Some),
        is_persisted_probe(
            loaded,
            base,
            ty,
            effective_deps(ty, deps),
            method,
            ra_version,
            earlier.dot_line,
            earlier.dot_col,
        ),
        !before@.dom().contains(key_of(ty, method, deps)),
        probe_query_cached(before, after, ty, method, deps, Some(loaded), r),
    ensures
        r.dot_line == earlier.dot_line,
        r.dot_col == earlier.dot_col,
        r.dir@ == join_spec(
            cache_dir_spec(base, "probes"@),
            cache_key_spec(ty, effective_deps(ty, deps), method, ra_version),
        ),
        r.src_path@ == src_path_of(r.dir@),
        after@.dom().contains(key_of(ty, method, deps)),
        after@[key_of(ty, method, deps)] == r,
{
}

} // verus!
