//! Probes: minimal Cargo projects that make a type available to
//! `rust-analyzer`. This module decides what a probe holds and where it
//! lives (its directory, `Cargo.toml`, `src/main.rs` and cursor position),
//! and keeps the in-process cache of probes keyed by query.
use vstd::prelude::*;

use crate::text::{eq_exec, occurs_at, has_prefix, opt_owned, opt_str_view, opt_string_eq, opt_view, chars_of, contains, dec, dec_exec, find, find_exec, is_ascii_lower, lemma_concat_cancel, lemma_dec_injective, lemma_dec_shape, lemma_find, owned, push_all, push_str, slice, string_from};

verus! {

/// Imports written at the top of every probe so that common std types
/// resolve without being fully qualified.
pub const PREAMBLE: &'static str = "#![allow(unused_imports)]
use std::collections::*;
use std::sync::*;
use std::cell::*;
use std::rc::Rc;
use std::io::{self, Read, Write, BufRead};
use std::fmt;
use std::ops::*;
use std::path::{Path, PathBuf};
";

/// The text before the probed type in `src/main.rs`, after the preamble.
pub const MAIN_OPEN: &'static str = "fn main() {\n    let _x: ";

/// The text between the type and the method name (or the bare dot).
pub const DOT_LINE_OPEN: &'static str = " = todo!();\n    _x.";

/// The text of the cursor line up to and including the dot.
pub const DOT_PREFIX: &'static str = "    _x.";

// ---------------------------------------------------------------------------
// Layout specifications
// ---------------------------------------------------------------------------

/// Number of lines `str::lines` yields: every `\n` ends one line, and a
/// final line without `\n` counts too.
pub open spec fn line_count(s: Seq<char>) -> nat {
    newline_count(s) + if s.len() > 0 && s.last() != '\n' { 1nat } else { 0nat }
}

/// Number of `\n` characters in `s`.
pub open spec fn newline_count(s: Seq<char>) -> nat
    decreases s.len(),
{
    if s.len() == 0 {
        0
    } else {
        newline_count(s.drop_last()) + if s.last() == '\n' { 1nat } else { 0nat }
    }
}

/// The crates that come with the toolchain and never need a dependency.
pub open spec fn is_toolchain_crate(name: Seq<char>) -> bool {
    name == "std"@ || name == "core"@ || name == "alloc"@
}

/// The dependency inferred from a type path: `crate = "*"` when the path
/// has a `::` and its first segment starts with an ASCII lower-case letter
/// and is not `std`, `core` or `alloc`.
pub open spec fn inferred_dep(ty: Seq<char>) -> Option<Seq<char>> {
    match find(ty, "::"@) {
        None => None,
        Some(i) => {
            let crate_name = ty.subrange(0, i);
            if crate_name.len() > 0 && is_ascii_lower(crate_name[0]) && !is_toolchain_crate(crate_name) {
                Some(crate_name + " = \"*\""@)
            } else {
                None
            }
        },
    }
}

/// A type path under `std::`, `core::` or `alloc::` gets no inferred
/// dependency, so without explicit dependencies its probe's `Cargo.toml`
/// has no `[dependencies]` section.
pub proof fn lemma_toolchain_paths_have_no_dependency(krate: Seq<char>, ty: Seq<char>)
    requires
        is_toolchain_crate(krate),
        has_prefix(ty, krate + "::"@),
    ensures
        inferred_dep(ty) is None,
        effective_deps(ty, None) is None,
        cargo_toml_spec(effective_deps(ty, None)) == cargo_toml_spec(None),
{
    reveal_strlit("std");
    reveal_strlit("core");
    reveal_strlit("alloc");
    reveal_strlit("::");
    let n = krate.len() as int;
    assert(ty.subrange(0, n + 2) == krate + "::"@);
    assert forall|j: int| 0 <= j < n implies ty[j] == krate[j] by {
        assert(ty.subrange(0, n + 2)[j] == ty[j]);
    }
    assert(ty.subrange(n, n + 2) =~= "::"@) by {
        assert forall|j: int| 0 <= j < 2 implies ty.subrange(n, n + 2)[j] == "::"@[j] by {
            assert(ty.subrange(0, n + 2)[n + j] == ty[n + j]);
        }
    }
    lemma_find(ty, "::"@);
    assert(occurs_at(ty, "::"@, n));
    match find(ty, "::"@) {
        Some(k) => {
            if k < n {
                assert(ty.subrange(k, k + 2)[0] == ty[k]);
                assert(ty[k] == ':');
                assert(krate[k] == ':');
                assert(false);
            }
            assert(ty.subrange(0, k) =~= krate);
        },
        None => {
            assert(contains(ty, "::"@));
        },
    }
}

/// The dependencies a probe uses: the explicit ones, else the inferred ones.
pub open spec fn effective_deps(ty: Seq<char>, deps: Option<Seq<char>>) -> Option<Seq<char>> {
    match deps {
        Some(d) => Some(d),
        None => inferred_dep(ty),
    }
}

/// The `Cargo.toml` of a probe.
pub open spec fn cargo_toml_spec(deps: Option<Seq<char>>) -> Seq<char> {
    let package = "[package]\nname = \"probe\"\nversion = \"0.1.0\"\nedition = \"2024\"\n"@;
    match deps {
        None => package,
        Some(d) => package + "\n[dependencies]\n"@ + d + "\n"@,
    }
}

/// The `src/main.rs` of a probe: the preamble, then a `main` that declares
/// `_x` of the type and ends in `_x.` (completion) or `_x.method();`
/// (definition).
pub open spec fn source_spec(ty: Seq<char>, method: Option<Seq<char>>) -> Seq<char> {
    let head = PREAMBLE@ + MAIN_OPEN@ + ty + DOT_LINE_OPEN@;
    match method {
        None => head + "\n}\n"@,
        Some(m) => head + m + "();\n}\n"@,
    }
}

/// `base` joined with the relative path `name`, as `Path::join` does on
/// Unix: a separator is added unless `base` is empty or already ends in one.
pub open spec fn join_spec(base: Seq<char>, name: Seq<char>) -> Seq<char> {
    if base.len() == 0 || base.last() == '/' {
        base + name
    } else {
        base + "/"@ + name
    }
}

/// The name of a probe directory.
pub open spec fn probe_dir_name(pid: u32, id: u64, definition: bool) -> Seq<char> {
    let suffix = if definition { "probe-def"@ } else { "probe"@ };
    "rust-meth-"@ + suffix + "-"@ + dec(pid as nat) + "-"@ + dec(id as nat)
}

/// The directory of a probe: the temporary directory joined with its name.
pub open spec fn probe_dir(temp: Seq<char>, pid: u32, id: u64, definition: bool) -> Seq<char> {
    join_spec(temp, probe_dir_name(pid, id, definition))
}

/// The path of a probe's source file inside its directory.
pub open spec fn src_path_of(dir: Seq<char>) -> Seq<char> {
    join_spec(join_spec(dir, "src"@), "main.rs"@)
}

/// A path as a `file://` URI: `file://` before an absolute path,
/// `file:///` before anything else.
pub open spec fn path_to_uri_spec(path: Seq<char>) -> Seq<char> {
    if path.len() > 0 && path[0] == '/' {
        "file://"@ + path
    } else {
        "file:///"@ + path
    }
}

// ---------------------------------------------------------------------------
// Pure builders
// ---------------------------------------------------------------------------

/// Infers a Cargo dependency line from a type path (see [`inferred_dep`]).
pub fn infer_dep(type_expr: &str) -> (r: Option<String>)
    ensures
        r is Some <==> inferred_dep(type_expr@) is Some,
        r matches Some(d) ==> inferred_dep(type_expr@) == Some(d@),
{
    let t = chars_of(type_expr);
    let sep = chars_of("::");
    match find_exec(&t, &sep) {
        None => None,
        Some(i) => {
            proof {
                lemma_find(t@, sep@);
            }
            let crate_name = slice(&t, 0, i);
            let toolchain = eq_exec(&crate_name, &chars_of("std")) || eq_exec(&crate_name, &chars_of("core"))
                || eq_exec(&crate_name, &chars_of("alloc"));
            if crate_name.len() > 0 && 'a' <= crate_name[0] && crate_name[0] <= 'z' && !toolchain {
                let mut d = crate_name;
                push_str(&mut d, " = \"*\"");
                Some(string_from(&d))
            } else {
                None
            }
        },
    }
}

/// The dependency lines a probe's `Cargo.toml` gets: `deps` when given,
/// else the line inferred from the type path (see [`effective_deps`]).
pub fn effective_deps_of(type_expr: &str, deps: Option<&str>) -> (r: Option<String>)
    ensures
        opt_view(r) == effective_deps(type_expr@, opt_str_view(deps)),
{
    match deps {
        Some(d) => Some(owned(d)),
        None => infer_dep(type_expr),
    }
}

/// The `Cargo.toml` of a probe (see [`cargo_toml_spec`]).
pub fn cargo_toml(effective: Option<&str>) -> (r: String)
    ensures
        r@ == cargo_toml_spec(match effective {
            Some(d) => Some(d@),
            None => None,
        }),
{
    let mut v: Vec<char> = Vec::new();
    push_str(&mut v, "[package]\nname = \"probe\"\nversion = \"0.1.0\"\nedition = \"2024\"\n");
    match effective {
        Some(d) => {
            push_str(&mut v, "\n[dependencies]\n");
            push_str(&mut v, d);
            push_str(&mut v, "\n");
        },
        None => {},
    }
    string_from(&v)
}

/// The `src/main.rs` of a probe (see [`source_spec`]).
pub fn probe_source(type_expr: &str, method_name: Option<&str>) -> (r: String)
    ensures
        r@ == source_spec(type_expr@, match method_name {
            Some(m) => Some(m@),
            None => None,
        }),
{
    let mut v: Vec<char> = Vec::new();
    push_str(&mut v, PREAMBLE);
    push_str(&mut v, MAIN_OPEN);
    push_str(&mut v, type_expr);
    push_str(&mut v, DOT_LINE_OPEN);
    match method_name {
        None => push_str(&mut v, "\n}\n"),
        Some(m) => {
            push_str(&mut v, m);
            push_str(&mut v, "();\n}\n");
        },
    }
    string_from(&v)
}

/// `base` joined with the relative path `name` (see [`join_spec`]).
pub fn join_path(base: &Vec<char>, name: &str) -> (r: Vec<char>)
    ensures
        r@ == join_spec(base@, name@),
{
    let mut r = slice(base, 0, base.len());
    assert(base@.subrange(0, base@.len() as int) =~= base@);
    if base.len() > 0 && base[base.len() - 1] != '/' {
        push_str(&mut r, "/");
    }
    push_str(&mut r, name);
    r
}

/// Formats a path as a `file://` URI (see [`path_to_uri_spec`]).
pub fn path_to_uri(path: &str) -> (r: String)
    ensures
        r@ == path_to_uri_spec(path@),
{
    let p = chars_of(path);
    let mut v: Vec<char> = Vec::new();
    if p.len() > 0 && p[0] == '/' {
        push_str(&mut v, "file://");
    } else {
        push_str(&mut v, "file:///");
    }
    push_all(&mut v, &p);
    string_from(&v)
}

/// Number of lines in `s` as `str::lines` counts them.
pub fn line_count_exec(s: &str) -> (n: usize)
    ensures
        n as nat == line_count(s@),
{
    let v = chars_of(s);
    let mut i: usize = 0;
    let mut newlines: usize = 0;
    while i < v.len()
        invariant
            i <= v@.len(),
            newlines as nat == newline_count(v@.subrange(0, i as int)),
            newlines <= i,
            i > 0 && v@[i - 1] != '\n' ==> newlines < i,
        decreases v@.len() - i,
    {
        assert(v@.subrange(0, i + 1).drop_last() =~= v@.subrange(0, i as int));
        if v[i] == '\n' {
            newlines = newlines + 1;
        }
        i = i + 1;
    }
    assert(v@.subrange(0, v@.len() as int) =~= v@);
    if v.len() > 0 && v[v.len() - 1] != '\n' {
        newlines + 1
    } else {
        newlines
    }
}


/// The line of the cursor in `src/main.rs`: two lines below the preamble.
pub open spec fn dot_line_spec() -> nat {
    line_count(PREAMBLE@) + 2
}

/// A line counts at most one newline per character.
proof fn lemma_newline_count_bound(s: Seq<char>)
    ensures
        newline_count(s) <= s.len(),
    decreases s.len(),
{
    if s.len() > 0 {
        lemma_newline_count_bound(s.drop_last());
    }
}

/// The cursor position in every probe: line and column of the character
/// just after `_x.`.
pub fn dot_position() -> (r: (u32, u32))
    ensures
        r.0 as nat == dot_line_spec(),
        r.1 as nat == DOT_PREFIX@.len(),
{
    proof {
        reveal_strlit("#![allow(unused_imports)]
use std::collections::*;
use std::sync::*;
use std::cell::*;
use std::rc::Rc;
use std::io::{self, Read, Write, BufRead};
use std::fmt;
use std::ops::*;
use std::path::{Path, PathBuf};
");
        reveal_strlit("    _x.");
        lemma_newline_count_bound(PREAMBLE@);
    }
    let lines = line_count_exec(PREAMBLE);
    let col = chars_of(DOT_PREFIX).len();
    ((lines + 2) as u32, col as u32)
}

// ---------------------------------------------------------------------------
// Probes and the in-process cache
// ---------------------------------------------------------------------------

/// A probe: where its project lives and where the cursor goes.
#[derive(Debug)]
pub struct Probe {
    /// 0-indexed line of the cursor in `src/main.rs`.
    pub dot_line: u32,
    /// 0-indexed column just after the dot in `src/main.rs`.
    pub dot_col: u32,
    /// Root directory of the probe project.
    pub dir: String,
    /// Path of the generated `src/main.rs`.
    pub src_path: String,
}

impl Probe {
    /// A field-for-field copy.
    pub fn duplicate(&self) -> (r: Probe)
        ensures
            r == *self,
    {
        Probe {
            dot_line: self.dot_line,
            dot_col: self.dot_col,
            dir: self.dir.clone(),
            src_path: self.src_path.clone(),
        }
    }

    /// The source file as a `file://` URI.
    pub fn src_uri(&self) -> (r: String)
        ensures
            r@ == path_to_uri_spec(self.src_path@),
    {
        path_to_uri(self.src_path.as_str())
    }

    /// The project directory as a `file://` URI.
    pub fn root_uri(&self) -> (r: String)
        ensures
            r@ == path_to_uri_spec(self.dir@),
    {
        path_to_uri(self.dir.as_str())
    }
}

/// A probe laid out in the temporary directory `temp` for process `pid`
/// with counter value `id`.
pub open spec fn laid_out(p: Probe, temp: Seq<char>, pid: u32, id: u64, definition: bool) -> bool {
    &&& p.dir@ == probe_dir(temp, pid, id, definition)
    &&& p.src_path@ == src_path_of(p.dir@)
    &&& p.dot_line as nat == dot_line_spec()
    &&& p.dot_col as nat == DOT_PREFIX@.len()
}

/// Identifies a probe configuration: the type, the effective dependencies
/// and, for definition probes, the method.
pub struct CacheKey {
    pub type_expr: String,
    pub effective_deps: Option<String>,
    pub method_name: Option<String>,
}

/// The abstract value of a cache key.
pub type KeyView = (Seq<char>, Option<Seq<char>>, Option<Seq<char>>);

impl View for CacheKey {
    type V = (Seq<char>, Option<Seq<char>>, Option<Seq<char>>);

    open spec fn view(&self) -> (Seq<char>, Option<Seq<char>>, Option<Seq<char>>) {
        (self.type_expr@, opt_view(self.effective_deps), opt_view(self.method_name))
    }
}

impl CacheKey {
    /// A field-for-field copy.
    pub fn duplicate(&self) -> (r: CacheKey)
        ensures
            r@ == self@,
    {
        CacheKey {
            type_expr: self.type_expr.clone(),
            effective_deps: crate::analyzer::clone_opt_string(&self.effective_deps),
            method_name: crate::analyzer::clone_opt_string(&self.method_name),
        }
    }

    /// Whether two keys describe the same configuration.
    pub fn same(&self, other: &CacheKey) -> (r: bool)
        ensures
            r == (self@ == other@),
    {
        self.type_expr == other.type_expr && opt_string_eq(&self.effective_deps, &other.effective_deps)
            && opt_string_eq(&self.method_name, &other.method_name)
    }
}

/// The key of a query: the type, its effective dependencies and the method.
pub open spec fn key_of(ty: Seq<char>, method: Option<Seq<char>>, deps: Option<Seq<char>>) -> KeyView {
    (ty, effective_deps(ty, deps), method)
}

/// A public view of one cache entry.
#[derive(Debug)]
pub struct CacheEntry {
    /// The probed type.
    pub type_expr: String,
    /// The effective dependency string, if any.
    pub deps: Option<String>,
    /// `None` for completion probes, the method for definition probes.
    pub method_name: Option<String>,
    /// The probe directory.
    pub dir: String,
}

/// One cached probe: its key, the probe, the counter value it was created
/// with, and whether the cache created it (rather than adopting it).
struct CachedProbe {
    key: CacheKey,
    probe: Probe,
    id: u64,
    owned: bool,
}

/// The in-process cache of probes, keyed by query, together with what new
/// probe directories are named from: the temporary directory, the process
/// id and a counter.
pub struct ProbeCache {
    temp_dir: String,
    pid: u32,
    next_id: u64,
    entries: Vec<CachedProbe>,
}

/// Entries have pairwise distinct keys.
spec fn keys_unique(es: Seq<CachedProbe>) -> bool {
    forall|i: int, j: int| 0 <= i < es.len() && 0 <= j < es.len() && i != j ==> es[i].key@ != es[j].key@
}

/// Some entry has key `k`.
spec fn has_key(es: Seq<CachedProbe>, k: KeyView) -> bool {
    exists|i: int| 0 <= i < es.len() && es[i].key@ == k
}

/// The probe of the entry with key `k`.
spec fn probe_at(es: Seq<CachedProbe>, k: KeyView) -> Probe {
    es[choose|i: int| 0 <= i < es.len() && es[i].key@ == k].probe
}

/// The map from keys to probes that entries stand for.
spec fn entries_map(es: Seq<CachedProbe>) -> Map<KeyView, Probe> {
    Map::new(|k: KeyView| has_key(es, k), |k: KeyView| probe_at(es, k))
}

/// With unique keys, the map sends each entry's key to its probe.
proof fn lemma_map_at(es: Seq<CachedProbe>, i: int)
    requires
        keys_unique(es),
        0 <= i < es.len(),
    ensures
        entries_map(es).dom().contains(es[i].key@),
        entries_map(es)[es[i].key@] == es[i].probe,
{
    let k = es[i].key@;
    assert(has_key(es, k));
    let j = choose|j: int| 0 <= j < es.len() && es[j].key@ == k;
    assert(j == i);
}

impl ProbeCache {
    /// The cache as a map from keys to probes.
    pub closed spec fn view(&self) -> Map<KeyView, Probe> {
        entries_map(self.entries@)
    }

    /// The temporary directory new probes go in.
    pub closed spec fn temp(&self) -> Seq<char> {
        self.temp_dir@
    }

    /// The process id in new probe names.
    pub closed spec fn process(&self) -> u32 {
        self.pid
    }

    /// The counter value the next new probe takes.
    pub closed spec fn counter(&self) -> u64 {
        self.next_id
    }

    /// The keys whose probe this cache created (rather than adopted).
    pub closed spec fn created(&self) -> Set<KeyView> {
        Set::new(|k: KeyView| exists|i: int| 0 <= i < self.entries@.len() && self.entries@[i].key@ == k && self.entries@[i].owned)
    }

    /// The cache's invariant: unique keys; every created probe is laid out
    /// with a counter value below the next one, and no two created probes
    /// share a counter value.
    pub closed spec fn wf(&self) -> bool {
        let es = self.entries@;
        &&& keys_unique(es)
        &&& forall|i: int| 0 <= i < es.len() && es[i].owned ==> es[i].id < self.next_id && laid_out(
            es[i].probe,
            self.temp_dir@,
            self.pid,
            es[i].id,
            es[i].key.method_name is Some,
        )
        &&& forall|i: int, j: int|
            0 <= i < es.len() && 0 <= j < es.len() && i != j && es[i].owned && es[j].owned
                ==> es[i].id != es[j].id
    }

    /// An empty cache naming new probes after `temp_dir` and `pid`.
    pub fn new(temp_dir: &str, pid: u32) -> (r: ProbeCache)
        ensures
            r.wf(),
            r@ == Map::<KeyView, Probe>::empty(),
            r.temp() == temp_dir@,
            r.process() == pid,
            r.counter() == 0,
    {
        let r = ProbeCache { temp_dir: owned(temp_dir), pid, next_id: 0, entries: Vec::new() };
        assert(r@ =~= Map::<KeyView, Probe>::empty());
        r
    }

    /// Whether the counter can still take a fresh value.
    pub open spec fn has_room(&self) -> bool {
        self.counter() < u64::MAX
    }

    /// Whether a new probe can still be created (see [`ProbeCache::has_room`]).
    pub fn can_create(&self) -> (b: bool)
        ensures
            b == self.has_room(),
    {
        self.next_id < u64::MAX
    }

    /// The position of the entry with key `k`.
    fn position(&self, k: &CacheKey) -> (r: Option<usize>)
        requires
            self.wf(),
        ensures
            r matches Some(i) ==> i < self.entries@.len() && self.entries@[i as int].key@ == k@,
            r is None ==> !has_key(self.entries@, k@),
    {
        let mut i: usize = 0;
        while i < self.entries.len()
            invariant
                i <= self.entries@.len(),
                forall|j: int| 0 <= j < i ==> self.entries@[j].key@ != k@,
            decreases self.entries@.len() - i,
        {
            if self.entries[i].key.same(k) {
                return Some(i);
            }
            i = i + 1;
        }
        None
    }

    /// The cached probe for `k`, if any.
    pub fn lookup(&self, k: &CacheKey) -> (r: Option<Probe>)
        requires
            self.wf(),
        ensures
            r is Some <==> self@.dom().contains(k@),
            r matches Some(p) ==> p == self@[k@],
    {
        match self.position(k) {
            Some(i) => {
                proof {
                    lemma_map_at(self.entries@, i as int);
                }
                Some(self.entries[i].probe.duplicate())
            },
            None => {
                assert(!self@.dom().contains(k@));
                None
            },
        }
    }

    /// Puts `e` in the cache, replacing the entry with the same key.
    fn put(&mut self, e: CachedProbe)
        requires
            old(self).wf(),
            e.owned ==> e.id < old(self).next_id && laid_out(e.probe, old(self).temp_dir@, old(self).pid, e.id, e.key.method_name is Some),
            e.owned ==> forall|i: int| 0 <= i < old(self).entries@.len() && old(self).entries@[i].owned && old(self).entries@[i].key@ != e.key@ ==> old(self).entries@[i].id != e.id,
        ensures
            final(self).wf(),
            final(self)@ == old(self)@.insert(e.key@, e.probe),
            final(self).temp_dir == old(self).temp_dir,
            final(self).pid == old(self).pid,
            final(self).next_id == old(self).next_id,
            final(self).created() == if e.owned { old(self).created().insert(e.key@) } else { old(self).created().remove(e.key@) },
    {
        let ghost k = e.key@;
        let ghost old_es = self.entries@;
        let ghost ep = e.probe;
        let ghost eo = e.owned;
        match self.position(&e.key) {
            Some(i) => {
                self.entries.set(i, e);
                proof {
                    let es = self.entries@;
                    assert(es =~= old_es.update(i as int, es[i as int]));
                    assert forall|a: int, b: int| 0 <= a < es.len() && 0 <= b < es.len() && a != b implies es[a].key@ != es[b].key@ by {
                        if a != i && b != i {
                            assert(es[a] == old_es[a] && es[b] == old_es[b]);
                        } else if a == i {
                            assert(es[b] == old_es[b]);
                        } else {
                            assert(es[a] == old_es[a]);
                        }
                    }
                    assert forall|kk: KeyView| #![auto] entries_map(es).dom().contains(kk) == entries_map(old_es).insert(k, ep).dom().contains(kk) by {
                        if has_key(old_es, kk) {
                            let j = choose|j: int| 0 <= j < old_es.len() && old_es[j].key@ == kk;
                            if j != i {
                                assert(es[j] == old_es[j]);
                            }
                        }
                        if has_key(es, kk) {
                            let j = choose|j: int| 0 <= j < es.len() && es[j].key@ == kk;
                            if j != i {
                                assert(es[j] == old_es[j]);
                            }
                        }
                    }
                    assert forall|kk: KeyView| #![auto] entries_map(es).dom().contains(kk) implies entries_map(es)[kk] == entries_map(old_es).insert(k, ep)[kk] by {
                        let j = choose|j: int| 0 <= j < es.len() && es[j].key@ == kk;
                        lemma_map_at(es, j);
                        if j != i {
                            assert(es[j] == old_es[j]);
                            lemma_map_at(old_es, j);
                        }
                    }
                    assert(entries_map(es) =~= entries_map(old_es).insert(k, ep));
                    assert(self.created() =~= if eo { old(self).created().insert(k) } else { old(self).created().remove(k) }) by {
                        assert forall|kk: KeyView| #![auto] self.created().contains(kk) == (if eo { old(self).created().insert(k) } else { old(self).created().remove(k) }).contains(kk) by {
                            if kk != k {
                                if self.created().contains(kk) {
                                    let j = choose|j: int| 0 <= j < es.len() && es[j].key@ == kk && es[j].owned;
                                    assert(es[j] == old_es[j]);
                                }
                                if old(self).created().contains(kk) {
                                    let j = choose|j: int| 0 <= j < old_es.len() && old_es[j].key@ == kk && old_es[j].owned;
                                    assert(j != i);
                                    assert(es[j] == old_es[j]);
                                }
                            } else {
                                if self.created().contains(kk) {
                                    let j = choose|j: int| 0 <= j < es.len() && es[j].key@ == kk && es[j].owned;
                                    assert(j == i);
                                }
                                if eo {
                                    assert(es[i as int].key@ == kk && es[i as int].owned);
                                }
                            }
                        }
                    }
                }
            },
            None => {
                self.entries.push(e);
                proof {
                    let es = self.entries@;
                    assert(es =~= old_es.push(es[es.len() - 1]));
                    assert forall|kk: KeyView| #![auto] entries_map(es).dom().contains(kk) == entries_map(old_es).insert(k, ep).dom().contains(kk) by {
                        if has_key(old_es, kk) {
                            let j = choose|j: int| 0 <= j < old_es.len() && old_es[j].key@ == kk;
                            assert(es[j] == old_es[j]);
                        }
                        if has_key(es, kk) {
                            let j = choose|j: int| 0 <= j < es.len() && es[j].key@ == kk;
                            if j < old_es.len() {
                                assert(es[j] == old_es[j]);
                            }
                        }
                        if kk == k {
                            assert(es[old_es.len() as int].key@ == k);
                        }
                    }
                    assert forall|kk: KeyView| #![auto] entries_map(es).dom().contains(kk) implies entries_map(es)[kk] == entries_map(old_es).insert(k, ep)[kk] by {
                        let j = choose|j: int| 0 <= j < es.len() && es[j].key@ == kk;
                        lemma_map_at(es, j);
                        if j < old_es.len() {
                            assert(es[j] == old_es[j]);
                            lemma_map_at(old_es, j);
                        }
                    }
                    assert(entries_map(es) =~= entries_map(old_es).insert(k, ep));
                    assert(self.created() =~= if eo { old(self).created().insert(k) } else { old(self).created().remove(k) }) by {
                        assert forall|kk: KeyView| #![auto] self.created().contains(kk) == (if eo { old(self).created().insert(k) } else { old(self).created().remove(k) }).contains(kk) by {
                            if self.created().contains(kk) {
                                let j = choose|j: int| 0 <= j < es.len() && es[j].key@ == kk && es[j].owned;
                                if j < old_es.len() {
                                    assert(es[j] == old_es[j]);
                                }
                            }
                            if old(self).created().contains(kk) {
                                let j = choose|j: int| 0 <= j < old_es.len() && old_es[j].key@ == kk && old_es[j].owned;
                                assert(es[j] == old_es[j]);
                            }
                            if eo && kk == k {
                                assert(es[old_es.len() as int].key@ == kk && es[old_es.len() as int].owned);
                            }
                        }
                    }
                }
            },
        }
    }

    /// Lays out a new probe for `key` with the next counter value and puts
    /// it in the cache, replacing any probe held for the same key.
    pub fn create(&mut self, key: CacheKey) -> (r: Probe)
        requires
            old(self).wf(),
            old(self).has_room(),
        ensures
            final(self).wf(),
            laid_out(r, old(self).temp(), old(self).process(), old(self).counter(), key.method_name is Some),
            final(self)@ == old(self)@.insert(key@, r),
            final(self).created() == old(self).created().insert(key@),
            final(self).temp() == old(self).temp(),
            final(self).process() == old(self).process(),
            final(self).counter() == old(self).counter() + 1,
    {
        let id = self.next_id;
        let is_def = key.method_name.is_some();
        let temp = chars_of(self.temp_dir.as_str());
        let mut name: Vec<char> = Vec::new();
        push_str(&mut name, "rust-meth-");
        if is_def {
            push_str(&mut name, "probe-def");
        } else {
            push_str(&mut name, "probe");
        }
        push_str(&mut name, "-");
        let pid_text = dec_exec(self.pid as u64);
        push_all(&mut name, &pid_text);
        push_str(&mut name, "-");
        let id_text = dec_exec(id);
        push_all(&mut name, &id_text);
        assert(name@ =~= probe_dir_name(self.pid, id, is_def));
        let name_s = string_from(&name);
        let dir = join_path(&temp, name_s.as_str());
        let src_dir = join_path(&dir, "src");
        let src = join_path(&src_dir, "main.rs");
        let (dot_line, dot_col) = dot_position();
        let probe = Probe { dot_line, dot_col, dir: string_from(&dir), src_path: string_from(&src) };
        let r = probe.duplicate();
        proof {
            let es = self.entries@;
            assert forall|i: int| 0 <= i < es.len() && es[i].owned && es[i].key@ != key@ implies es[i].id != id by {
                assert(es[i].id < self.next_id);
            }
        }
        self.next_id = self.next_id + 1;
        proof {
            let es = self.entries@;
            assert forall|i: int| 0 <= i < es.len() && es[i].owned implies es[i].id < self.next_id && laid_out(
                es[i].probe, self.temp_dir@, self.pid, es[i].id, es[i].key.method_name is Some) by {}
        }
        let ghost kv = key@;
        self.put(CachedProbe { key, probe, id, owned: true });
        r
    }

    /// Puts a probe found elsewhere (such as the persistent cache) in the
    /// cache under `key`. The cache does not count it as one it created.
    pub fn adopt(&mut self, key: CacheKey, probe: Probe)
        requires
            old(self).wf(),
        ensures
            final(self).wf(),
            final(self)@ == old(self)@.insert(key@, probe),
            final(self).created() == old(self).created().remove(key@),
            final(self).temp() == old(self).temp(),
            final(self).process() == old(self).process(),
            final(self).counter() == old(self).counter(),
    {
        self.put(CachedProbe { key, probe, id: 0, owned: false });
    }

    /// Removes every entry.
    pub fn clear(&mut self)
        requires
            old(self).wf(),
        ensures
            final(self).wf(),
            final(self)@ == Map::<KeyView, Probe>::empty(),
            final(self).created() == Set::<KeyView>::empty(),
            final(self).temp() == old(self).temp(),
            final(self).process() == old(self).process(),
            final(self).counter() == old(self).counter(),
    {
        self.entries = Vec::new();
        assert(self@ =~= Map::<KeyView, Probe>::empty());
        assert(self.created() =~= Set::<KeyView>::empty());
    }

    /// A snapshot of the entries.
    pub fn entries(&self) -> (r: Vec<CacheEntry>)
        requires
            self.wf(),
        ensures
            r@.len() == self@.dom().len(),
            forall|i: int| 0 <= i < r@.len() ==> entry_in(self@, #[trigger] r@[i]),
            forall|k: KeyView| #[trigger] self@.dom().contains(k) ==> exists|i: int| 0 <= i < r@.len() && entry_key(r@[i]) == k,
    {
        let mut r: Vec<CacheEntry> = Vec::new();
        let mut i: usize = 0;
        while i < self.entries.len()
            invariant
                self.wf(),
                i <= self.entries@.len(),
                r@.len() == i,
                forall|j: int| 0 <= j < i ==> entry_key(#[trigger] r@[j]) == self.entries@[j].key@ && r@[j].dir@ == self.entries@[j].probe.dir@,
            decreases self.entries@.len() - i,
        {
            let e = &self.entries[i];
            let k = e.key.duplicate();
            r.push(CacheEntry { type_expr: k.type_expr, deps: k.effective_deps, method_name: k.method_name, dir: e.probe.dir.clone() });
            i = i + 1;
        }
        proof {
            let es = self.entries@;
            assert forall|j: int| 0 <= j < r@.len() implies entry_in(self@, #[trigger] r@[j]) by {
                lemma_map_at(es, j);
            }
            assert forall|k: KeyView| #[trigger] self@.dom().contains(k) implies exists|j: int| 0 <= j < r@.len() && entry_key(r@[j]) == k by {
                let j = choose|j: int| 0 <= j < es.len() && es[j].key@ == k;
                assert(entry_key(r@[j]) == k);
            }
            lemma_dom_len(es);
        }
        r
    }
}

/// `e` describes an entry of the map `m`: its key is there, with its directory.
pub open spec fn entry_in(m: Map<KeyView, Probe>, e: CacheEntry) -> bool {
    m.dom().contains(entry_key(e)) && m[entry_key(e)].dir@ == e.dir@
}

/// The key a public cache entry describes.
pub open spec fn entry_key(e: CacheEntry) -> KeyView {
    (e.type_expr@, opt_view(e.deps), opt_view(e.method_name))
}

/// With unique keys, the map has one key per entry.
proof fn lemma_dom_len(es: Seq<CachedProbe>)
    requires
        keys_unique(es),
    ensures
        entries_map(es).dom().len() == es.len(),
        entries_map(es).dom().finite(),
    decreases es.len(),
{
    if es.len() == 0 {
        assert(entries_map(es).dom() =~= Set::<KeyView>::empty());
    } else {
        let init = es.drop_last();
        assert(keys_unique(init)) by {
            assert forall|i: int, j: int| 0 <= i < init.len() && 0 <= j < init.len() && i != j implies init[i].key@ != init[j].key@ by {
                assert(init[i] == es[i] && init[j] == es[j]);
            }
        }
        lemma_dom_len(init);
        let k = es.last().key@;
        assert forall|kk: KeyView| #![auto] entries_map(es).dom().contains(kk) == entries_map(init).dom().insert(k).contains(kk) by {
            if has_key(es, kk) {
                let j = choose|j: int| 0 <= j < es.len() && es[j].key@ == kk;
                if j < init.len() {
                    assert(init[j] == es[j]);
                }
            }
            if has_key(init, kk) {
                let j = choose|j: int| 0 <= j < init.len() && init[j].key@ == kk;
                assert(es[j] == init[j]);
            }
            if kk == k {
                assert(es[es.len() - 1].key@ == k);
            }
        }
        assert(entries_map(es).dom() =~= entries_map(init).dom().insert(k));
        assert(!entries_map(init).dom().contains(k)) by {
            if has_key(init, k) {
                let j = choose|j: int| 0 <= j < init.len() && init[j].key@ == k;
                assert(es[j] == init[j]);
            }
        }
    }
}


/// What obtaining a probe does to the cache: on a hit the cached probe
/// comes back and the cache is unchanged; on a miss a new probe laid out
/// with the next counter value comes back and is cached under the key.
pub open spec fn probe_query(
    before: ProbeCache,
    after: ProbeCache,
    ty: Seq<char>,
    method: Option<Seq<char>>,
    deps: Option<Seq<char>>,
    r: Probe,
) -> bool {
    let k = key_of(ty, method, deps);
    &&& after.wf()
    &&& after.temp() == before.temp()
    &&& after.process() == before.process()
    &&& before@.dom().contains(k) ==> {
        &&& r == before@[k]
        &&& after@ == before@
        &&& after.created() == before.created()
        &&& after.counter() == before.counter()
    }
    &&& !before@.dom().contains(k) ==> {
        &&& laid_out(r, before.temp(), before.process(), before.counter(), method is Some)
        &&& after@ == before@.insert(k, r)
        &&& after.created() == before.created().insert(k)
        &&& after.counter() == before.counter() + 1
    }
}

impl Probe {
    /// Obtains the probe for a query: from the cache when it holds one for
    /// the query's key, else a newly laid-out one that the cache then holds.
    /// The key's dependencies are the explicit ones, else those inferred
    /// from the type path.
    pub fn create_probe(
        cache: &mut ProbeCache,
        type_expr: &str,
        method_name: Option<&str>,
        deps: Option<&str>,
    ) -> (r: Probe)
        requires
            old(cache).wf(),
            old(cache).has_room(),
        ensures
            probe_query(*old(cache), *final(cache), type_expr@, opt_str_view(method_name), opt_str_view(deps), r),
    {
        let effective = match deps {
            Some(d) => Some(owned(d)),
            None => infer_dep(type_expr),
        };
        let key = CacheKey { type_expr: owned(type_expr), effective_deps: effective, method_name: opt_owned(method_name) };
        assert(key@ == key_of(type_expr@, opt_str_view(method_name), opt_str_view(deps)));
        match cache.lookup(&key) {
            Some(p) => p,
            None => cache.create(key),
        }
    }

    /// A completion probe for a type, with inferred dependencies.
    pub fn new(cache: &mut ProbeCache, type_expr: &str) -> (r: Probe)
        requires
            old(cache).wf(),
            old(cache).has_room(),
        ensures
            probe_query(*old(cache), *final(cache), type_expr@, None, None, r),
    {
        Self::create_probe(cache, type_expr, None, None)
    }

    /// A completion probe for a type with explicit dependencies (`None`
    /// infers them from the type path).
    pub fn new_with_deps(cache: &mut ProbeCache, type_expr: &str, deps: Option<&str>) -> (r: Probe)
        requires
            old(cache).wf(),
            old(cache).has_room(),
        ensures
            probe_query(*old(cache), *final(cache), type_expr@, None, opt_str_view(deps), r),
    {
        Self::create_probe(cache, type_expr, None, deps)
    }

    /// A go-to-definition probe calling `method_name` on the type.
    pub fn for_definition(cache: &mut ProbeCache, type_expr: &str, method_name: &str) -> (r: Probe)
        requires
            old(cache).wf(),
            old(cache).has_room(),
        ensures
            probe_query(*old(cache), *final(cache), type_expr@, Some(method_name@), None, r),
    {
        Self::create_probe(cache, type_expr, Some(method_name), None)
    }

    /// A go-to-definition probe with explicit dependencies.
    pub fn for_definition_with_deps(
        cache: &mut ProbeCache,
        type_expr: &str,
        method_name: &str,
        deps: Option<&str>,
    ) -> (r: Probe)
        requires
            old(cache).wf(),
            old(cache).has_room(),
        ensures
            probe_query(*old(cache), *final(cache), type_expr@, Some(method_name@), opt_str_view(deps), r),
    {
        Self::create_probe(cache, type_expr, Some(method_name), deps)
    }
}

/// What obtaining a probe does when a probe kept across runs may stand in
/// for a new one: on a hit the cached probe comes back and nothing changes;
/// on a miss the kept probe, when there is one, is adopted (no counter value
/// is used and the cache does not count it as created), else a new probe is
/// laid out as in [`probe_query`].
pub open spec fn probe_query_cached(
    before: ProbeCache,
    after: ProbeCache,
    ty: Seq<char>,
    method: Option<Seq<char>>,
    deps: Option<Seq<char>>,
    persisted: Option<Probe>,
    r: Probe,
) -> bool {
    let k = key_of(ty, method, deps);
    if before@.dom().contains(k) || persisted is None {
        probe_query(before, after, ty, method, deps, r)
    } else {
        &&& after.wf()
        &&& after.temp() == before.temp()
        &&& after.process() == before.process()
        &&& r == persisted->0
        &&& after@ == before@.insert(k, r)
        &&& after.created() == before.created().remove(k)
        &&& after.counter() == before.counter()
    }
}

impl Probe {
    /// Obtains the probe for a query, using `persisted` (a probe kept on disk
    /// from an earlier run, which the caller loaded) when the cache holds
    /// none for the key (see [`probe_query_cached`]).
    pub fn create_probe_cached(
        cache: &mut ProbeCache,
        type_expr: &str,
        method_name: Option<&str>,
        deps: Option<&str>,
        persisted: Option<Probe>,
    ) -> (r: Probe)
        requires
            old(cache).wf(),
            old(cache).has_room(),
        ensures
            probe_query_cached(
                *old(cache),
                *final(cache),
                type_expr@,
                opt_str_view(method_name),
                opt_str_view(deps),
                persisted,
                r,
            ),
    {
        let key = CacheKey {
            type_expr: owned(type_expr),
            effective_deps: effective_deps_of(type_expr, deps),
            method_name: opt_owned(method_name),
        };
        assert(key@ == key_of(type_expr@, opt_str_view(method_name), opt_str_view(deps)));
        match cache.lookup(&key) {
            Some(p) => p,
            None => match persisted {
                Some(p) => {
                    let r = p.duplicate();
                    cache.adopt(key, p);
                    r
                },
                None => cache.create(key),
            },
        }
    }

    /// A completion probe that may reuse a probe kept from an earlier run.
    pub fn new_with_deps_cached(
        cache: &mut ProbeCache,
        type_expr: &str,
        deps: Option<&str>,
        persisted: Option<Probe>,
    ) -> (r: Probe)
        requires
            old(cache).wf(),
            old(cache).has_room(),
        ensures
            probe_query_cached(*old(cache), *final(cache), type_expr@, None, opt_str_view(deps), persisted, r),
    {
        Self::create_probe_cached(cache, type_expr, None, deps, persisted)
    }

    /// A go-to-definition probe that may reuse a probe kept from an earlier
    /// run.
    pub fn for_definition_with_deps_cached(
        cache: &mut ProbeCache,
        type_expr: &str,
        method_name: &str,
        deps: Option<&str>,
        persisted: Option<Probe>,
    ) -> (r: Probe)
        requires
            old(cache).wf(),
            old(cache).has_room(),
        ensures
            probe_query_cached(
                *old(cache),
                *final(cache),
                type_expr@,
                Some(method_name@),
                opt_str_view(deps),
                persisted,
                r,
            ),
    {
        Self::create_probe_cached(cache, type_expr, Some(method_name), deps, persisted)
    }
}

/// A snapshot of every probe the cache holds.
pub fn cache_entries(cache: &ProbeCache) -> (r: Vec<CacheEntry>)
    requires
        cache.wf(),
    ensures
        r@.len() == cache@.dom().len(),
        forall|i: int| 0 <= i < r@.len() ==> entry_in(cache@, #[trigger] r@[i]),
        forall|k: KeyView| #[trigger] cache@.dom().contains(k) ==> exists|i: int| 0 <= i < r@.len() && entry_key(r@[i]) == k,
{
    cache.entries()
}

/// Evicts every entry from the cache.
pub fn clear_probe_cache(cache: &mut ProbeCache)
    requires
        old(cache).wf(),
    ensures
        final(cache).wf(),
        final(cache)@ == Map::<KeyView, Probe>::empty(),
        final(cache).created() == Set::<KeyView>::empty(),
        final(cache).temp() == old(cache).temp(),
        final(cache).process() == old(cache).process(),
        final(cache).counter() == old(cache).counter(),
{
    cache.clear()
}


/// Probe directories made with different counter values differ, whatever
/// their kinds.
pub proof fn lemma_probe_dir_injective(temp: Seq<char>, pid: u32, id1: u64, def1: bool, id2: u64, def2: bool)
    requires
        id1 != id2,
    ensures
        probe_dir(temp, pid, id1, def1) != probe_dir(temp, pid, id2, def2),
{
    let n1 = probe_dir_name(pid, id1, def1);
    let n2 = probe_dir_name(pid, id2, def2);
    let j = if temp.len() == 0 || temp.last() == '/' { temp } else { temp + "/"@ };
    assert(probe_dir(temp, pid, id1, def1) =~= j + n1);
    assert(probe_dir(temp, pid, id2, def2) =~= j + n2);
    if probe_dir(temp, pid, id1, def1) == probe_dir(temp, pid, id2, def2) {
        lemma_concat_cancel(j, n1, n2);
        reveal_strlit("rust-meth-");
        reveal_strlit("probe");
        reveal_strlit("probe-def");
        reveal_strlit("-");
        lemma_dec_shape(pid as nat);
        if def1 == def2 {
            let sfx = if def1 { "probe-def"@ } else { "probe"@ };
            let pre = "rust-meth-"@ + sfx + "-"@ + dec(pid as nat) + "-"@;
            assert(n1 =~= pre + dec(id1 as nat));
            assert(n2 =~= pre + dec(id2 as nat));
            lemma_concat_cancel(pre, dec(id1 as nat), dec(id2 as nat));
            lemma_dec_injective(id1 as nat, id2 as nat);
        } else {
            let short = probe_dir_name(pid, if def1 { id2 } else { id1 }, false);
            let long = probe_dir_name(pid, if def1 { id1 } else { id2 }, true);
            assert(short[16] == dec(pid as nat)[0]);
            assert(long[16] == 'd');
        }
    }
}

/// Two probes the cache created for different keys live in different
/// directories.
pub proof fn lemma_created_dirs_distinct(c: ProbeCache, k1: KeyView, k2: KeyView)
    requires
        c.wf(),
        c.created().contains(k1),
        c.created().contains(k2),
        k1 != k2,
    ensures
        c@.dom().contains(k1),
        c@.dom().contains(k2),
        c@[k1].dir@ != c@[k2].dir@,
{
    let es = c.entries@;
    let i1 = choose|i: int| 0 <= i < es.len() && es[i].key@ == k1 && es[i].owned;
    let i2 = choose|i: int| 0 <= i < es.len() && es[i].key@ == k2 && es[i].owned;
    lemma_map_at(es, i1);
    lemma_map_at(es, i2);
    lemma_probe_dir_injective(
        c.temp_dir@,
        c.pid,
        es[i1].id,
        es[i1].key.method_name is Some,
        es[i2].id,
        es[i2].key.method_name is Some,
    );
}

/// Asking twice for the same probe gives the same probe, and the second
/// request leaves the cache as the first left it.
pub proof fn lemma_repeat_query_hits(
    c0: ProbeCache,
    c1: ProbeCache,
    c2: ProbeCache,
    ty: Seq<char>,
    method: Option<Seq<char>>,
    deps: Option<Seq<char>>,
    p1: Probe,
    p2: Probe,
)
    requires
        probe_query(c0, c1, ty, method, deps, p1),
        probe_query(c1, c2, ty, method, deps, p2),
    ensures
        p2 == p1,
        c2@ == c1@,
        c1@.dom().contains(key_of(ty, method, deps)),
{
}

} // verus!
