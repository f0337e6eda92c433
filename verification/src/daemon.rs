//! The daemon: its wire protocol, the client's and the server's decisions,
//! where its files live, and how its workspaces are named.
//!
//! Sockets, processes and clocks stay with the caller; the functions here
//! take what those produced (a reply, whether the socket exists, an elapsed
//! time) and decide what it means.
use vstd::prelude::*;
use crate::analyzer::Method;
use crate::args::arg_views;
use crate::probe::{join_spec, join_path, path_to_uri, path_to_uri_spec};
use crate::text::{
    chars_of, push_str, push_all, string_from, owned, same_text, replace_char_exec, opt_view,
    replace_char, join, u64_literal, parse_u64, find_char, trim, split_char, split_char_exec,
    buffers_view, trim_exec, slice, find_char_exec, lemma_find_char,
};

verus! {

// ---------------------------------------------------------------------------
// Protocol
// ---------------------------------------------------------------------------

/// Parameters of a method query.
#[derive(Debug)]
pub struct QueryRequest {
    /// The type expression to query.
    pub type_expr: String,
    /// Cargo dependency lines for third-party types.
    pub deps: Option<String>,
}

/// A command from a client to the daemon.
#[derive(Debug)]
pub enum DaemonCommand {
    /// Query the methods of a type.
    Query(QueryRequest),
    /// Shut the daemon down.
    Stop,
    /// Report the daemon's status.
    Status,
}

/// A method as the daemon sends it.
#[derive(Debug)]
pub struct MethodData {
    /// The method's name.
    pub name: String,
    /// Its signature, when known.
    pub detail: Option<String>,
    /// Its documentation, when known.
    pub documentation: Option<String>,
}

/// The answer to a query.
#[derive(Debug)]
pub struct QueryResponse {
    /// The methods of the queried type.
    pub methods: Vec<MethodData>,
    /// Whether a running analyzer session served the query.
    pub session_reused: bool,
    /// Whether the answer came from the results cache.
    pub from_results_cache: bool,
    /// How long the query took, in milliseconds.
    pub elapsed_ms: u64,
}

/// The daemon's status.
#[derive(Debug)]
pub struct StatusResponse {
    /// Running analyzer sessions.
    pub active_sessions: usize,
    /// Seconds since the daemon started.
    pub uptime_secs: u64,
    /// The daemon's process id.
    pub pid: u32,
}

/// A reply from the daemon.
#[derive(Debug)]
pub enum DaemonResponse {
    /// The answer to a query.
    QueryResult(QueryResponse),
    /// The answer to a status request.
    Status(StatusResponse),
    /// The daemon acknowledged a stop request.
    Stopped,
    /// The command failed.
    Error { message: String },
}

/// The daemon's status as the client reports it.
#[derive(Debug)]
pub struct DaemonStatusInfo {
    /// Running analyzer sessions.
    pub active_sessions: usize,
    /// Seconds since the daemon started.
    pub uptime_secs: u64,
    /// The daemon's process id.
    pub pid: u32,
}

/// `d` carries the fields of `m`.
pub open spec fn carries(d: MethodData, m: Method) -> bool {
    &&& d.name@ == m.name@
    &&& opt_view(d.detail) == opt_view(m.detail)
    &&& opt_view(d.documentation) == opt_view(m.documentation)
}

/// A method in the daemon's wire form, carrying the same fields.
pub fn method_data(m: Method) -> (r: MethodData)
    ensures
        carries(r, m),
{
    MethodData { name: m.name, detail: m.detail, documentation: m.documentation }
}

/// The wire form of each method, in order.
pub fn methods_data(methods: Vec<Method>) -> (r: Vec<MethodData>)
    ensures
        r@.len() == methods@.len(),
        forall|i: int| 0 <= i < r@.len() ==> carries(#[trigger] r@[i], methods@[i]),
{
    let mut out: Vec<MethodData> = Vec::new();
    let ghost orig = methods@;
    let mut taken = crate::text::reversed(methods);
    assert(orig.subrange(0, orig.len() as int) =~= orig);
    while taken.len() > 0
        invariant
            out@.len() + taken@.len() == orig.len(),
            taken@ =~= orig.subrange(out@.len() as int, orig.len() as int).reverse(),
            forall|i: int| 0 <= i < out@.len() ==> carries(#[trigger] out@[i], orig[i]),
        decreases taken@.len(),
    {
        let ghost k = out@.len() as int;
        let m = taken.pop().unwrap();
        assert(m == orig[k]);
        out.push(method_data(m));
        assert(taken@ =~= orig.subrange(out@.len() as int, orig.len() as int).reverse());
    }
    out
}

/// The command that queries the methods of `type_expr`.
pub fn query_command(type_expr: &str, deps: Option<&str>) -> (r: DaemonCommand)
    ensures
        r matches DaemonCommand::Query(q) && q.type_expr@ == type_expr@ && opt_view(q.deps)
            == crate::text::opt_str_view(deps),
{
    DaemonCommand::Query(QueryRequest { type_expr: owned(type_expr), deps: crate::text::opt_owned(deps) })
}

// ---------------------------------------------------------------------------
// Client decisions
// ---------------------------------------------------------------------------

/// What a query through the daemon yields. `running` says whether the
/// daemon's socket exists; `reply` is the daemon's answer to the query
/// command, `None` when none could be had. No answer is `None` (the caller
/// queries directly instead); a failure the daemon reports is `Some(Err)`.
pub fn try_query(running: bool, reply: Option<DaemonResponse>) -> (r: Option<Result<QueryResponse, String>>)
    ensures
        !running ==> r is None,
        running ==> match reply {
            Some(DaemonResponse::QueryResult(q)) => r == Some(Ok::<QueryResponse, String>(q)),
            Some(DaemonResponse::Error { message }) => r matches Some(Err(m)) && m == message,
            _ => r is None,
        },
{
    if !running {
        return None;
    }
    match reply {
        Some(DaemonResponse::QueryResult(q)) => Some(Ok(q)),
        Some(DaemonResponse::Error { message }) => Some(Err(message)),
        _ => None,
    }
}

/// Whether the daemon acknowledged a stop request.
pub fn try_stop(reply: Option<DaemonResponse>) -> (r: bool)
    ensures
        r == (reply matches Some(DaemonResponse::Stopped)),
{
    match reply {
        Some(DaemonResponse::Stopped) => true,
        _ => false,
    }
}

/// The daemon's status, from its answer to a status request; `None` when it
/// is not running or gave no status.
pub fn try_status(running: bool, reply: Option<DaemonResponse>) -> (r: Option<DaemonStatusInfo>)
    ensures
        match r {
            Some(info) => running && (reply matches Some(DaemonResponse::Status(s))
                && info.active_sessions == s.active_sessions && info.uptime_secs == s.uptime_secs
                && info.pid == s.pid),
            None => !running || !(reply matches Some(DaemonResponse::Status(_))),
        },
{
    if !running {
        return None;
    }
    match reply {
        Some(DaemonResponse::Status(s)) => Some(
            DaemonStatusInfo {
                active_sessions: s.active_sessions,
                uptime_secs: s.uptime_secs,
                pid: s.pid,
            },
        ),
        _ => None,
    }
}

// ---------------------------------------------------------------------------
// Server decisions
// ---------------------------------------------------------------------------

/// The methods of a successful pool answer.
pub open spec fn pooled_methods(pooled: Option<Result<(Vec<Method>, bool), String>>) -> Seq<Method> {
    match pooled {
        Some(Ok((ms, _))) => ms@,
        _ => Seq::empty(),
    }
}

/// The daemon's answer to a query. `cached` is what the results cache held;
/// `pooled` what a pooled session answered (the methods, and whether the
/// session was reused), asked only when the cache held nothing. `None`
/// means the pool must be asked first.
pub fn query_reply(
    cached: Option<Vec<Method>>,
    pooled: Option<Result<(Vec<Method>, bool), String>>,
    elapsed_ms: u64,
) -> (r: Option<DaemonResponse>)
    ensures
        match cached {
            Some(ms) => r matches Some(DaemonResponse::QueryResult(q)) && q.methods@.len()
                == ms@.len() && q.from_results_cache && !q.session_reused && q.elapsed_ms
                == elapsed_ms,
            None => match pooled {
                None => r is None,
                Some(Ok((ms, reused))) => r matches Some(DaemonResponse::QueryResult(q))
                    && q.methods@.len() == ms@.len() && !q.from_results_cache && q.session_reused
                    == reused && q.elapsed_ms == elapsed_ms,
                Some(Err(e)) => r matches Some(DaemonResponse::Error { message }) && message == e,
            },
        },
        r matches Some(DaemonResponse::QueryResult(q)) ==> forall|i: int|
            0 <= i < q.methods@.len() ==> carries(
                #[trigger] q.methods@[i],
                match cached {
                    Some(ms) => ms@[i],
                    None => pooled_methods(pooled)[i],
                },
            ),
{
    match cached {
        Some(ms) => Some(
            DaemonResponse::QueryResult(
                QueryResponse {
                    methods: methods_data(ms),
                    session_reused: false,
                    from_results_cache: true,
                    elapsed_ms,
                },
            ),
        ),
        None => match pooled {
            None => None,
            Some(Ok((ms, reused))) => Some(
                DaemonResponse::QueryResult(
                    QueryResponse {
                        methods: methods_data(ms),
                        session_reused: reused,
                        from_results_cache: false,
                        elapsed_ms,
                    },
                ),
            ),
            Some(Err(e)) => Some(DaemonResponse::Error { message: e }),
        },
    }
}

/// Whether a session idle for `idle_secs` has outlived `ttl_secs`.
pub fn is_expired(idle_secs: u64, ttl_secs: u64) -> (r: bool)
    ensures
        r == (idle_secs > ttl_secs),
{
    idle_secs > ttl_secs
}

/// The positions of the sessions to evict, given how long each has been
/// idle: exactly those idle longer than `ttl_secs`, in order.
pub fn sessions_to_evict(idle_secs: &Vec<u64>, ttl_secs: u64) -> (r: Vec<usize>)
    ensures
        forall|k: int| 0 <= k < r@.len() ==> (#[trigger] r@[k]) < idle_secs@.len() && idle_secs@[r@[k] as int] > ttl_secs,
        forall|i: int| 0 <= i < idle_secs@.len() && idle_secs@[i] > ttl_secs ==> exists|k: int| 0 <= k < r@.len() && r@[k] == i,
        forall|a: int, b: int| 0 <= a < b < r@.len() ==> r@[a] < r@[b],
{
    let mut r: Vec<usize> = Vec::new();
    let mut i: usize = 0;
    while i < idle_secs.len()
        invariant
            i <= idle_secs@.len(),
            forall|k: int| 0 <= k < r@.len() ==> (#[trigger] r@[k]) < i && idle_secs@[r@[k] as int] > ttl_secs,
            forall|j: int| 0 <= j < i && idle_secs@[j] > ttl_secs ==> exists|k: int| 0 <= k < r@.len() && r@[k] == j,
            forall|a: int, b: int| 0 <= a < b < r@.len() ==> r@[a] < r@[b],
        decreases idle_secs@.len() - i,
    {
        let ghost old_r = r@;
        if is_expired(idle_secs[i], ttl_secs) {
            r.push(i);
            assert(r@[r@.len() - 1] == i);
            assert forall|j: int| 0 <= j < i + 1 && idle_secs@[j] > ttl_secs implies exists|k: int|
                0 <= k < r@.len() && r@[k] == j by {
                if j < i {
                    let k = choose|k: int| 0 <= k < old_r.len() && old_r[k] == j;
                    assert(r@[k] == old_r[k]);
                } else {
                    assert(r@[old_r.len() as int] == j);
                }
            }
        }
        i = i + 1;
    }
    r
}

/// Where a query's answer came from, as the daemon's query command says it.
pub fn answer_source(resp: &QueryResponse) -> (r: &'static str)
    ensures
        resp.from_results_cache ==> r@ == "results cache"@,
        !resp.from_results_cache && resp.session_reused ==> r@ == "warm session"@,
        !resp.from_results_cache && !resp.session_reused ==> r@ == "new session"@,
{
    if resp.from_results_cache {
        "results cache"
    } else if resp.session_reused {
        "warm session"
    } else {
        "new session"
    }
}

// ---------------------------------------------------------------------------
// Files
// ---------------------------------------------------------------------------

/// The base directory for runtime files: `$XDG_RUNTIME_DIR`, else
/// `$HOME/.cache`, else the temporary directory's `.cache`.
pub open spec fn runtime_base_spec(xdg: Option<Seq<char>>, home: Option<Seq<char>>, temp: Seq<char>) -> Seq<char> {
    match xdg {
        Some(x) => x,
        None => match home {
            Some(h) => join_spec(h, ".cache"@),
            None => join_spec(temp, ".cache"@),
        },
    }
}

/// The directory holding the daemon's socket and PID file.
pub open spec fn daemon_dir_spec(base: Seq<char>) -> Seq<char> {
    join_spec(base, "rust-meth"@)
}

/// See [`runtime_base_spec`]; `xdg_runtime_dir`, `home` and `temp_dir` are
/// the values of `$XDG_RUNTIME_DIR`, `$HOME` and the temporary directory.
pub fn runtime_base(xdg_runtime_dir: Option<&str>, home: Option<&str>, temp_dir: &str) -> (r: String)
    ensures
        r@ == runtime_base_spec(
            crate::text::opt_str_view(xdg_runtime_dir),
            crate::text::opt_str_view(home),
            temp_dir@,
        ),
{
    match xdg_runtime_dir {
        Some(x) => owned(x),
        None => match home {
            Some(h) => string_from(&join_path(&chars_of(h), ".cache")),
            None => string_from(&join_path(&chars_of(temp_dir), ".cache")),
        },
    }
}

/// The daemon's socket, under the runtime base directory `base`.
pub fn socket_path(base: &str) -> (r: String)
    ensures
        r@ == join_spec(daemon_dir_spec(base@), "daemon.sock"@),
{
    let dir = join_path(&chars_of(base), "rust-meth");
    string_from(&join_path(&dir, "daemon.sock"))
}

/// The daemon's PID file, beside its socket.
pub fn pid_path(base: &str) -> (r: String)
    ensures
        r@ == join_spec(daemon_dir_spec(base@), "daemon.pid"@),
{
    let dir = join_path(&chars_of(base), "rust-meth");
    string_from(&join_path(&dir, "daemon.pid"))
}

/// Law: the socket and the PID file lie in the same directory, and differ
/// only in their file names.
pub proof fn lemma_pid_beside_socket(base: Seq<char>)
    ensures
        ({
            let dir = daemon_dir_spec(base);
            let sep = if dir.len() == 0 || dir.last() == '/' { Seq::<char>::empty() } else { "/"@ };
            join_spec(dir, "daemon.sock"@) == dir + sep + "daemon.sock"@ && join_spec(dir, "daemon.pid"@)
                == dir + sep + "daemon.pid"@
        }),
{
    let dir = daemon_dir_spec(base);
    if !(dir.len() == 0 || dir.last() == '/') {
    } else {
        assert(dir + Seq::<char>::empty() =~= dir);
    }
}

// ---------------------------------------------------------------------------
// Workspaces
// ---------------------------------------------------------------------------

/// Why a daemon workspace could not be prepared.
#[derive(Debug)]
pub enum WorkspaceError {
    /// A file-system error.
    Io(std::io::Error),
    /// `cargo metadata` failed, with its message.
    CargoMetadata(String),
    /// The output of `cargo metadata` could not be read.
    MetadataParse,
}

/// What identifies an analyzer session: the locked dependency versions,
/// the analyzer's version and the toolchain.
pub struct SessionKey {
    /// `(crate, version)` pairs; empty for a standard-library-only session.
    pub locked_deps: Vec<(String, String)>,
    /// The analyzer's version string.
    pub ra_version: String,
    /// The active toolchain.
    pub toolchain: String,
}

/// The `crate@version` parts of a session's directory name.
pub open spec fn dep_parts(deps: Seq<(String, String)>) -> Seq<Seq<char>> {
    Seq::new(deps.len(), |i: int| deps[i].0@ + "@"@ + deps[i].1@)
}

/// A session's directory name.
pub open spec fn dir_name_spec(key: SessionKey) -> Seq<char> {
    let ra = replace_char(key.ra_version@, ' ', '_');
    if key.locked_deps@.len() == 0 {
        "stdlib-"@ + ra
    } else {
        join(dep_parts(key.locked_deps@), "+"@) + "-"@ + ra
    }
}

impl SessionKey {
    /// A file-system-safe directory name for this session: `stdlib-` and the
    /// analyzer's version for a standard-library session, else the
    /// `crate@version` pairs joined by `+`, a dash and the version; spaces
    /// in the version become underscores.
    pub fn dir_name(&self) -> (r: String)
        ensures
            r@ == dir_name_spec(*self),
    {
        let ra = replace_char_exec(&chars_of(self.ra_version.as_str()), ' ', '_');
        let mut v: Vec<char> = Vec::new();
        if self.locked_deps.len() == 0 {
            push_str(&mut v, "stdlib-");
        } else {
            let ghost parts = dep_parts(self.locked_deps@);
            let mut i: usize = 0;
            while i < self.locked_deps.len()
                invariant
                    i <= self.locked_deps@.len(),
                    parts == dep_parts(self.locked_deps@),
                    v@ == join(parts.subrange(0, i as int), "+"@),
                decreases self.locked_deps@.len() - i,
            {
                let ghost before = v@;
                if i > 0 {
                    push_str(&mut v, "+");
                }
                push_str(&mut v, self.locked_deps[i].0.as_str());
                push_str(&mut v, "@");
                push_str(&mut v, self.locked_deps[i].1.as_str());
                proof {
                    let sub = parts.subrange(0, i + 1);
                    assert(sub.drop_last() =~= parts.subrange(0, i as int));
                    assert(sub.last() == parts[i as int]);
                    if i == 0 {
                        assert(v@ =~= parts[0]);
                    } else {
                        assert(v@ =~= before + "+"@ + parts[i as int]);
                    }
                }
                i = i + 1;
            }
            assert(parts.subrange(0, i as int) =~= parts);
            push_str(&mut v, "-");
        }
        push_all(&mut v, &ra);
        string_from(&v)
    }
}

/// The `(crate, version)` pairs of a key, as text.
pub open spec fn pairs_view(v: Seq<(String, String)>) -> Seq<(Seq<char>, Seq<char>)> {
    Seq::new(v.len(), |i: int| (v[i].0@, v[i].1@))
}

/// One dependency line as a `(crate, requirement)` pair: the trimmed text
/// before and after the first `=`, or the trimmed line and nothing.
pub open spec fn dep_pair(line: Seq<char>) -> (Seq<char>, Seq<char>) {
    match find_char(line, '=') {
        Some(i) => (trim(line.subrange(0, i)), trim(line.subrange(i + 1, line.len() as int))),
        None => (trim(line), Seq::empty()),
    }
}

/// The pairs of the non-blank dependency lines, in order.
pub open spec fn dep_pairs(lines: Seq<Seq<char>>) -> Seq<(Seq<char>, Seq<char>)>
    decreases lines.len(),
{
    if lines.len() == 0 {
        Seq::empty()
    } else {
        let init = dep_pairs(lines.drop_last());
        if trim(lines.last()).len() == 0 {
            init
        } else {
            init.push(dep_pair(lines.last()))
        }
    }
}

/// The session key for a query's dependency lines: one pair per non-blank
/// line, the analyzer's version and the toolchain. Queries whose lines
/// agree share a session.
pub fn session_key(deps: Option<&str>, ra_version: &str, toolchain: &str) -> (r: SessionKey)
    ensures
        pairs_view(r.locked_deps@) == match deps {
            None => Seq::<(Seq<char>, Seq<char>)>::empty(),
            Some(d) => dep_pairs(split_char(d@, '\n')),
        },
        r.ra_version@ == ra_version@,
        r.toolchain@ == toolchain@,
{
    let mut pairs: Vec<(String, String)> = Vec::new();
    match deps {
        None => {
            assert(pairs_view(pairs@) =~= Seq::<(Seq<char>, Seq<char>)>::empty());
        },
        Some(d) => {
            let lines = split_char_exec(&chars_of(d), '\n');
            let ghost lv = buffers_view(lines@);
            let mut i: usize = 0;
            while i < lines.len()
                invariant
                    i <= lines@.len(),
                    lv == buffers_view(lines@),
                    pairs_view(pairs@) == dep_pairs(lv.subrange(0, i as int)),
                decreases lines@.len() - i,
            {
                let ghost sub = lv.subrange(0, i + 1);
                assert(sub.drop_last() =~= lv.subrange(0, i as int));
                assert(sub.last() == lines@[i as int]@);
                let line = &lines[i];
                let t = trim_exec(line);
                if t.len() > 0 {
                    let pair = match find_char_exec(line, '=') {
                        Some(k) => {
                            proof {
                                lemma_find_char(line@, '=');
                            }
                            let name = trim_exec(&slice(line, 0, k));
                            let value = trim_exec(&slice(line, k + 1, line.len()));
                            (string_from(&name), string_from(&value))
                        },
                        None => (string_from(&t), String::new()),
                    };
                    let ghost before = pairs@;
                    pairs.push(pair);
                    assert(pairs_view(pairs@) =~= pairs_view(before).push(dep_pair(line@)));
                }
                i = i + 1;
            }
            assert(lv.subrange(0, lines@.len() as int) =~= lv);
        },
    }
    SessionKey { locked_deps: pairs, ra_version: owned(ra_version), toolchain: owned(toolchain) }
}

/// A daemon session's on-disk Cargo workspace.
pub struct DaemonWorkspace {
    /// The workspace's root directory.
    pub dir: String,
    /// The scratch source file, rewritten for each query.
    pub scratch_path: String,
    /// Line of the completion trigger in the scratch file (from 0).
    pub dot_line: u32,
    /// Column of the completion trigger in the scratch file (from 0).
    pub dot_col: u32,
}

impl DaemonWorkspace {
    /// The workspace root as a `file://` URI.
    pub fn root_uri(&self) -> (r: String)
        ensures
            r@ == path_to_uri_spec(self.dir@),
    {
        path_to_uri(self.dir.as_str())
    }

    /// The scratch file as a `file://` URI.
    pub fn scratch_uri(&self) -> (r: String)
        ensures
            r@ == path_to_uri_spec(self.scratch_path@),
    {
        path_to_uri(self.scratch_path.as_str())
    }
}

/// The scratch file's source with `type_expr` at the completion trigger.
pub open spec fn scratch_source_spec(ty: Seq<char>) -> Seq<char> {
    "fn main() {\n    let _x: "@ + ty + " = todo!();\n    _x.\n}\n"@
}

/// The scratch file's source for a query on `type_expr`.
pub fn scratch_source(type_expr: &str) -> (r: String)
    ensures
        r@ == scratch_source_spec(type_expr@),
{
    let mut v: Vec<char> = Vec::new();
    push_str(&mut v, "fn main() {\n    let _x: ");
    push_str(&mut v, type_expr);
    push_str(&mut v, " = todo!();\n    _x.\n}\n");
    string_from(&v)
}

// ---------------------------------------------------------------------------
// The daemon's own command line
// ---------------------------------------------------------------------------

/// The word after the first `flag` that has a word after it.
pub open spec fn flag_value_spec(args: Seq<Seq<char>>, flag: Seq<char>) -> Option<Seq<char>>
    decreases args.len(),
{
    if args.len() < 2 {
        None
    } else if args[0] == flag {
        Some(args[1])
    } else {
        flag_value_spec(args.drop_first(), flag)
    }
}

/// The value given to `--flag` among `args` (the first `flag` followed by a
/// word).
pub fn parse_flag(args: &Vec<String>, flag: &str) -> (r: Option<String>)
    ensures
        opt_view(r) == flag_value_spec(arg_views(args@), flag@),
{
    let n = args.len();
    let mut i: usize = 0;
    assert(arg_views(args@).subrange(0, n as int) =~= arg_views(args@));
    while n >= 2 && i < n - 1
        invariant
            n == args@.len(),
            i <= n,
            flag_value_spec(arg_views(args@).subrange(i as int, n as int), flag@)
                == flag_value_spec(arg_views(args@), flag@),
        decreases n - i,
    {
        let ghost rest = arg_views(args@).subrange(i as int, n as int);
        assert(rest[0] == args@[i as int]@ && rest[1] == args@[i + 1]@);
        if same_text(args[i].as_str(), flag) {
            return Some(args[i + 1].clone());
        }
        assert(rest.drop_first() =~= arg_views(args@).subrange(i + 1, n as int));
        i = i + 1;
    }
    None
}

/// What the daemon's command line asks for.
#[derive(Debug)]
pub enum DaemonCli {
    /// Start serving, with this session lifetime in seconds.
    Start { ttl_secs: u64 },
    /// Stop a running daemon.
    Stop,
    /// Report the daemon's status.
    Status,
    /// Query a type through a running daemon.
    Query { type_expr: String, deps: Option<String> },
    /// A query without `--type`.
    MissingType,
    /// Print the help text.
    Help,
}

/// The session lifetime of `start`: `--ttl` when it is a `u64`, else 600.
pub open spec fn daemon_ttl_spec(rest: Seq<Seq<char>>) -> u64 {
    match flag_value_spec(rest, "--ttl"@) {
        Some(v) => match u64_literal(v) {
            Some(t) => t,
            None => 600,
        },
        None => 600,
    }
}

/// Reads the daemon's command line; `args` holds every word, the program's
/// name first.
pub fn daemon_cli(args: &Vec<String>) -> (r: DaemonCli)
    ensures
        ({
            let words = arg_views(args@);
            let rest = if words.len() >= 2 {
                words.subrange(2, words.len() as int)
            } else {
                Seq::empty()
            };
            if words.len() >= 2 && words[1] == "start"@ {
                r == DaemonCli::Start { ttl_secs: daemon_ttl_spec(rest) }
            } else if words.len() >= 2 && words[1] == "stop"@ {
                r is Stop
            } else if words.len() >= 2 && words[1] == "status"@ {
                r is Status
            } else if words.len() >= 2 && words[1] == "query"@ {
                match flag_value_spec(rest, "--type"@) {
                    Some(t) => r matches DaemonCli::Query { type_expr, deps } && type_expr@ == t
                        && opt_view(deps) == flag_value_spec(rest, "--deps"@),
                    None => r is MissingType,
                }
            } else {
                r is Help
            }
        }),
{
    let n = args.len();
    if n < 2 {
        return DaemonCli::Help;
    }
    let ghost words = arg_views(args@);
    assert(words[1] == args@[1]@);
    let mut rest: Vec<String> = Vec::new();
    let mut i: usize = 2;
    while i < n
        invariant
            2 <= i <= n,
            n == args@.len(),
            words == arg_views(args@),
            arg_views(rest@) =~= words.subrange(2, i as int),
        decreases n - i,
    {
        let ghost before = rest@;
        rest.push(args[i].clone());
        assert(arg_views(rest@) =~= arg_views(before).push(args@[i as int]@));
        assert(words.subrange(2, i + 1) =~= words.subrange(2, i as int).push(words[i as int]));
        i = i + 1;
    }
    let sub = args[1].as_str();
    if same_text(sub, "start") {
        let ttl_secs = match parse_flag(&rest, "--ttl") {
            Some(v) => match parse_u64(v.as_str()) {
                Some(t) => t,
                None => 600,
            },
            None => 600,
        };
        DaemonCli::Start { ttl_secs }
    } else if same_text(sub, "stop") {
        DaemonCli::Stop
    } else if same_text(sub, "status") {
        DaemonCli::Status
    } else if same_text(sub, "query") {
        match parse_flag(&rest, "--type") {
            Some(t) => DaemonCli::Query { type_expr: t, deps: parse_flag(&rest, "--deps") },
            None => DaemonCli::MissingType,
        }
    } else {
        DaemonCli::Help
    }
}

} // verus!
