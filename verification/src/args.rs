//! Command-line argument parsing.
//!
//! [`parse_args`] turns the program name and the arguments after it into a
//! [`ParseResult`]. Its contract is [`parse_spec`], a direct reading of the
//! command-line grammar: a first word that is a help, version or daemon
//! request, or a type followed by a filter and flags.
use vstd::prelude::*;
use crate::text::{
    chars_of, push_str, push_all, string_from, owned, opt_view, u64_literal, parse_u64, same_text,
    starts_with_char,
};

verus! {

/// The options of an ordinary query run.
#[derive(Debug)]
pub struct Opts {
    /// The name the program was invoked as.
    pub bin: String,
    /// The type expression to query (`Vec<u8>`, `serde_json::Value`, ...).
    pub type_expr: String,
    /// A pattern the method names are filtered by.
    pub filter: Option<String>,
    /// Pick a method interactively.
    pub interactive: bool,
    /// Print documentation next to each method.
    pub show_doc: bool,
    /// A method whose definition is looked up.
    pub goto_def: Option<String>,
    /// Open the definition in the editor.
    pub open_def: bool,
    /// Open the definition's documentation in the browser.
    pub open_doc: bool,
    /// Cargo dependency lines for third-party types.
    pub deps: Option<String>,
    /// Print call snippets.
    pub snippet: bool,
    /// Print the methods as JSON.
    pub json: bool,
    /// A method whose full documentation is printed.
    pub explain: Option<String>,
    /// Open the explained method's documentation in the browser.
    pub browser: bool,
}

/// Daemon management requests.
#[derive(Debug)]
pub enum DaemonSubcommand {
    /// Start the daemon in the foreground with the given session lifetime.
    Start { ttl_secs: u64 },
    /// Stop a running daemon.
    Stop,
    /// Report the daemon's status.
    Status,
}

/// What the command line asks for.
#[derive(Debug)]
pub enum ParseResult {
    /// An ordinary run.
    Opts(Opts),
    /// Print this help text and exit.
    Help(String),
    /// Print this version line and exit.
    Version(String),
    /// A daemon request.
    Daemon(DaemonSubcommand),
}

/// The mathematical content of [`Opts`].
pub struct OptsView {
    pub bin: Seq<char>,
    pub type_expr: Seq<char>,
    pub filter: Option<Seq<char>>,
    pub interactive: bool,
    pub show_doc: bool,
    pub goto_def: Option<Seq<char>>,
    pub open_def: bool,
    pub open_doc: bool,
    pub deps: Option<Seq<char>>,
    pub snippet: bool,
    pub json: bool,
    pub explain: Option<Seq<char>>,
    pub browser: bool,
}

impl View for Opts {
    type V = OptsView;

    open spec fn view(&self) -> OptsView {
        OptsView {
            bin: self.bin@,
            type_expr: self.type_expr@,
            filter: opt_view(self.filter),
            interactive: self.interactive,
            show_doc: self.show_doc,
            goto_def: opt_view(self.goto_def),
            open_def: self.open_def,
            open_doc: self.open_doc,
            deps: opt_view(self.deps),
            snippet: self.snippet,
            json: self.json,
            explain: opt_view(self.explain),
            browser: self.browser,
        }
    }
}

/// The mathematical content of [`ParseResult`].
pub enum ParseView {
    Opts(OptsView),
    Help(Seq<char>),
    Version(Seq<char>),
    Daemon(DaemonSubcommand),
}

/// The view of a parse result.
pub open spec fn parse_view(r: ParseResult) -> ParseView {
    match r {
        ParseResult::Opts(o) => ParseView::Opts(o@),
        ParseResult::Help(s) => ParseView::Help(s@),
        ParseResult::Version(s) => ParseView::Version(s@),
        ParseResult::Daemon(d) => ParseView::Daemon(d),
    }
}

/// The view of the outcome of [`parse_args`].
pub open spec fn outcome_view(r: Result<ParseResult, String>) -> Result<ParseView, Seq<char>> {
    match r {
        Ok(p) => Ok(parse_view(p)),
        Err(e) => Err(e@),
    }
}

// ---------------------------------------------------------------------------
// The help text
// ---------------------------------------------------------------------------

/// One example line of the help text: `"  " + bin + rest`, then a newline.
pub open spec fn example(bin: Seq<char>, rest: Seq<char>) -> Seq<char> {
    "  "@ + bin + rest + "\n"@
}

/// The help text for a program invoked as `bin`.
pub open spec fn usage_spec(bin: Seq<char>) -> Seq<char> {
    "Usage: "@ + bin + " <type> [filter] [-i] [--doc] [--gd <method>] [--open] [--open-doc]\n"@ + "\n"@
        + "\nExamples:\n"@
        + example(bin, " u8\n"@)
        + example(bin, " String\n"@)
        + example(bin, " \"Vec<i32>\"\n"@)
        + example(bin, " \"HashMap<String,u32>\"\n"@)
        + example(bin, " u8 wrapping                 # fuzzy filter\n"@)
        + example(bin, " u8 -i                       # interactive picker\n"@)
        + example(bin, " u8 --doc                    # show doc comments inline\n"@)
        + example(bin, " u8 checked --doc            # filter + docs\n"@)
        + example(bin, " String --gd len             # print definition location\n"@)
        + example(bin, " u8 --gd checked_add         # go to definition\n"@)
        + example(bin, " u8 --gd checked_add --open  # open in $EDITOR\n"@)
        + example(bin, " u8 --gd checked_add --open-doc  # open in browser\n"@)
        + "\n3rd party crates:\n"@
        + example(bin, " 'serde_json::Value' --deps 'serde_json = \"1.0\"'\n"@)
        + example(bin, " 'tokio::net::TcpStream' --deps 'tokio = { version = \"1.0\", features = [\"net\"] }'\n"@)
        + example(bin, " 'Result<u8,String>' --explain unwrap_unchecked   # print full docs\n"@)
        + example(bin, " 'Result<u8,String>' --explain unwrap_unchecked --browser  # open in browser\n"@)
        + example(bin, " --daemon start              # start the daemon\n"@)
        + example(bin, " --daemon start --ttl 300   # start with 5 min TTL\n"@)
        + example(bin, " --daemon stop               # stop the daemon\n"@)
        + example(bin, " --daemon status             # show daemon status\n"@)
}

fn push_example(buf: &mut Vec<char>, bin: &Vec<char>, rest: &str)
    ensures
        final(buf)@ == old(buf)@ + example(bin@, rest@),
{
    push_str(buf, "  ");
    push_all(buf, bin);
    push_str(buf, rest);
    push_str(buf, "\n");
    assert(final(buf)@ =~= old(buf)@ + example(bin@, rest@));
}

/// Builds the command-line help text.
pub fn usage(bin: &str) -> (r: String)
    ensures
        r@ == usage_spec(bin@),
{
    let b = chars_of(bin);
    let mut s: Vec<char> = Vec::new();
    push_str(&mut s, "Usage: ");
    push_all(&mut s, &b);
    push_str(&mut s, " <type> [filter] [-i] [--doc] [--gd <method>] [--open] [--open-doc]\n");
    push_str(&mut s, "\n");
    push_str(&mut s, "\nExamples:\n");
    push_example(&mut s, &b, " u8\n");
    push_example(&mut s, &b, " String\n");
    push_example(&mut s, &b, " \"Vec<i32>\"\n");
    push_example(&mut s, &b, " \"HashMap<String,u32>\"\n");
    push_example(&mut s, &b, " u8 wrapping                 # fuzzy filter\n");
    push_example(&mut s, &b, " u8 -i                       # interactive picker\n");
    push_example(&mut s, &b, " u8 --doc                    # show doc comments inline\n");
    push_example(&mut s, &b, " u8 checked --doc            # filter + docs\n");
    push_example(&mut s, &b, " String --gd len             # print definition location\n");
    push_example(&mut s, &b, " u8 --gd checked_add         # go to definition\n");
    push_example(&mut s, &b, " u8 --gd checked_add --open  # open in $EDITOR\n");
    push_example(&mut s, &b, " u8 --gd checked_add --open-doc  # open in browser\n");
    push_str(&mut s, "\n3rd party crates:\n");
    push_example(&mut s, &b, " 'serde_json::Value' --deps 'serde_json = \"1.0\"'\n");
    push_example(
        &mut s,
        &b,
        " 'tokio::net::TcpStream' --deps 'tokio = { version = \"1.0\", features = [\"net\"] }'\n",
    );
    push_example(&mut s, &b, " 'Result<u8,String>' --explain unwrap_unchecked   # print full docs\n");
    push_example(
        &mut s,
        &b,
        " 'Result<u8,String>' --explain unwrap_unchecked --browser  # open in browser\n",
    );
    push_example(&mut s, &b, " --daemon start              # start the daemon\n");
    push_example(&mut s, &b, " --daemon start --ttl 300   # start with 5 min TTL\n");
    push_example(&mut s, &b, " --daemon stop               # stop the daemon\n");
    push_example(&mut s, &b, " --daemon status             # show daemon status\n");
    string_from(&s)
}

// ---------------------------------------------------------------------------
// The grammar
// ---------------------------------------------------------------------------

/// The words of a command line.
pub open spec fn arg_views(args: Seq<String>) -> Seq<Seq<char>> {
    Seq::new(args.len(), |k: int| args[k]@)
}

/// A word that starts with `-`.
pub open spec fn is_flag(a: Seq<char>) -> bool {
    a.len() > 0 && a[0] == '-'
}

/// The options before any flag is read: only the binary and the type.
pub open spec fn initial_opts(bin: Seq<char>, ty: Seq<char>) -> OptsView {
    OptsView {
        bin,
        type_expr: ty,
        filter: None,
        interactive: false,
        show_doc: false,
        goto_def: None,
        open_def: false,
        open_doc: false,
        deps: None,
        snippet: false,
        json: false,
        explain: None,
        browser: false,
    }
}

/// Reads the words after the type, left to right, into `st`.
pub open spec fn scan(st: OptsView, rest: Seq<Seq<char>>) -> Result<OptsView, Seq<char>>
    decreases rest.len(),
{
    if rest.len() == 0 {
        Ok(st)
    } else {
        let a = rest[0];
        let tl = rest.drop_first();
        if a == "-i"@ || a == "--interactive"@ {
            scan(OptsView { interactive: true, ..st }, tl)
        } else if a == "-d"@ || a == "--doc"@ {
            scan(OptsView { show_doc: true, ..st }, tl)
        } else if a == "--gd"@ {
            if tl.len() == 0 {
                Err("--gd requires a method name"@)
            } else {
                scan(OptsView { goto_def: Some(tl[0]), ..st }, tl.drop_first())
            }
        } else if a == "--open"@ || a == "-o"@ {
            scan(OptsView { open_def: true, ..st }, tl)
        } else if a == "--open-doc"@ {
            scan(OptsView { open_doc: true, ..st }, tl)
        } else if a == "--deps"@ {
            if tl.len() == 0 {
                Err("--deps requires a dependency string (e.g., 'serde_json = \"1.0\"')"@)
            } else {
                scan(OptsView { deps: Some(tl[0]), ..st }, tl.drop_first())
            }
        } else if a == "--snippet"@ {
            scan(OptsView { snippet: true, ..st }, tl)
        } else if a == "--json"@ {
            scan(OptsView { json: true, ..st }, tl)
        } else if a == "--explain"@ {
            if tl.len() == 0 {
                Err("--explain requires a method name"@)
            } else {
                scan(OptsView { explain: Some(tl[0]), ..st }, tl.drop_first())
            }
        } else if a == "--browser"@ {
            scan(OptsView { browser: true, ..st }, tl)
        } else if is_flag(a) {
            Err("unexpected flag '"@ + a + "'"@)
        } else if st.filter is None {
            scan(OptsView { filter: Some(a), ..st }, tl)
        } else {
            Err("unexpected argument '"@ + a + "'"@)
        }
    }
}

/// The options once all words are read: an interactive run drops the
/// filter, and the flags that need another flag are checked.
pub open spec fn finish(st0: OptsView) -> Result<ParseView, Seq<char>> {
    let st = if st0.interactive { OptsView { filter: None, ..st0 } } else { st0 };
    if st.open_def && st.goto_def is None {
        Err("--open requires --gd <method>"@)
    } else if st.open_doc && st.goto_def is None {
        Err("--open-doc requires --gd <method>"@)
    } else if st.open_def && st.open_doc {
        Err("choose only one of --open or --open-doc"@)
    } else if st.browser && st.explain is None {
        Err("--browser requires --explain <method>"@)
    } else {
        Ok(ParseView::Opts(st))
    }
}

/// The session lifetime of `--daemon start`: the value after `--ttl` when
/// that is the next word and the value is a `u64`, else 600 seconds.
pub open spec fn ttl_spec(rest: Seq<Seq<char>>) -> u64 {
    if rest.len() >= 2 && rest[0] == "--ttl"@ && u64_literal(rest[1]) is Some {
        u64_literal(rest[1])->0
    } else {
        600
    }
}

/// The words after `--daemon`.
pub open spec fn daemon_spec(rest: Seq<Seq<char>>) -> Result<ParseView, Seq<char>> {
    if rest.len() == 0 {
        Err("--daemon requires a subcommand: start, stop, status"@)
    } else if rest[0] == "start"@ {
        Ok(ParseView::Daemon(DaemonSubcommand::Start { ttl_secs: ttl_spec(rest.drop_first()) }))
    } else if rest[0] == "stop"@ {
        Ok(ParseView::Daemon(DaemonSubcommand::Stop))
    } else if rest[0] == "status"@ {
        Ok(ParseView::Daemon(DaemonSubcommand::Status))
    } else {
        Err("unknown daemon subcommand '"@ + rest[0] + "'. Expected: start, stop, status"@)
    }
}

/// What a command line means: `bin` is the program's name, `args` the words
/// after it, `version` the version that `--version` reports.
pub open spec fn parse_spec(bin: Seq<char>, args: Seq<Seq<char>>, version: Seq<char>) -> Result<
    ParseView,
    Seq<char>,
> {
    if args.len() == 0 {
        Ok(ParseView::Help(usage_spec(bin)))
    } else if args[0] == "--help"@ || args[0] == "-h"@ {
        Ok(ParseView::Help(usage_spec(bin)))
    } else if args[0] == "--version"@ || args[0] == "-V"@ {
        Ok(ParseView::Version(bin + " "@ + version))
    } else if args[0] == "--daemon"@ {
        daemon_spec(args.drop_first())
    } else if is_flag(args[0]) {
        Err("unexpected argument '"@ + args[0] + "'\n\n"@ + usage_spec(bin))
    } else {
        match scan(initial_opts(bin, args[0]), args.drop_first()) {
            Ok(st) => finish(st),
            Err(e) => Err(e),
        }
    }
}

// ---------------------------------------------------------------------------
// The parser
// ---------------------------------------------------------------------------

/// `"pre" + w + "post"` as a `String`.
fn quoted(pre: &str, w: &str, post: &str) -> (r: String)
    ensures
        r@ == pre@ + w@ + post@,
{
    let mut v: Vec<char> = Vec::new();
    push_str(&mut v, pre);
    push_str(&mut v, w);
    push_str(&mut v, post);
    string_from(&v)
}

proof fn lemma_rest_step(args: Seq<String>, i: int)
    requires
        0 <= i < args.len(),
    ensures
        arg_views(args).subrange(i, args.len() as int).len() > 0,
        arg_views(args).subrange(i, args.len() as int)[0] == args[i]@,
        arg_views(args).subrange(i, args.len() as int).drop_first() == arg_views(args).subrange(
            i + 1,
            args.len() as int,
        ),
{
    assert(arg_views(args).subrange(i, args.len() as int).drop_first() =~= arg_views(
        args,
    ).subrange(i + 1, args.len() as int));
}

/// Reads the words after the daemon subcommand.
fn parse_daemon(args: &Vec<String>) -> (r: Result<ParseResult, String>)
    requires
        args@.len() >= 1,
    ensures
        outcome_view(r) == daemon_spec(arg_views(args@).drop_first()),
{
    let n = args.len();
    let ghost rest = arg_views(args@).drop_first();
    if n < 2 {
        return Err(owned("--daemon requires a subcommand: start, stop, status"));
    }
    assert(rest[0] == args@[1]@);
    let sub = args[1].as_str();
    if same_text(sub, "start") {
        let mut ttl_secs: u64 = 600;
        let ghost after = rest.drop_first();
        if n >= 4 && same_text(args[2].as_str(), "--ttl") {
            assert(after[0] == args@[2]@ && after[1] == args@[3]@);
            match parse_u64(args[3].as_str()) {
                Some(v) => {
                    ttl_secs = v;
                },
                None => {},
            }
        } else {
            assert(n >= 4 ==> after[0] == args@[2]@);
        }
        Ok(ParseResult::Daemon(DaemonSubcommand::Start { ttl_secs }))
    } else if same_text(sub, "stop") {
        Ok(ParseResult::Daemon(DaemonSubcommand::Stop))
    } else if same_text(sub, "status") {
        Ok(ParseResult::Daemon(DaemonSubcommand::Status))
    } else {
        Err(quoted("unknown daemon subcommand '", sub, "'. Expected: start, stop, status"))
    }
}

/// Applies the checks that end a parse (see [`finish`]).
fn finish_opts(st: Opts) -> (r: Result<ParseResult, String>)
    ensures
        outcome_view(r) == finish(st@),
{
    let mut st = st;
    if st.interactive {
        st.filter = None;
    }
    if st.open_def && st.goto_def.is_none() {
        return Err(owned("--open requires --gd <method>"));
    }
    if st.open_doc && st.goto_def.is_none() {
        return Err(owned("--open-doc requires --gd <method>"));
    }
    if st.open_def && st.open_doc {
        return Err(owned("choose only one of --open or --open-doc"));
    }
    if st.browser && st.explain.is_none() {
        return Err(owned("--browser requires --explain <method>"));
    }
    Ok(ParseResult::Opts(st))
}

/// Parses a command line: `bin` is the name the program was invoked as,
/// `args` the words after it, `version` what `--version` reports.
pub fn parse_args(bin: String, args: Vec<String>, version: &str) -> (r: Result<ParseResult, String>)
    ensures
        outcome_view(r) == parse_spec(bin@, arg_views(args@), version@),
{
    let n = args.len();
    let ghost words = arg_views(args@);
    if n == 0 {
        return Ok(ParseResult::Help(usage(bin.as_str())));
    }
    assert(words[0] == args@[0]@);
    let first = args[0].as_str();
    if same_text(first, "--help") || same_text(first, "-h") {
        return Ok(ParseResult::Help(usage(bin.as_str())));
    }
    if same_text(first, "--version") || same_text(first, "-V") {
        return Ok(ParseResult::Version(quoted(bin.as_str(), " ", version)));
    }
    if same_text(first, "--daemon") {
        return parse_daemon(&args);
    }
    if starts_with_char(first, '-') {
        let u = usage(bin.as_str());
        let mut v: Vec<char> = Vec::new();
        push_str(&mut v, "unexpected argument '");
        push_str(&mut v, first);
        push_str(&mut v, "'\n\n");
        push_str(&mut v, u.as_str());
        return Err(string_from(&v));
    }
    let mut st = Opts {
        bin: bin.clone(),
        type_expr: args[0].clone(),
        filter: None,
        interactive: false,
        show_doc: false,
        goto_def: None,
        open_def: false,
        open_doc: false,
        deps: None,
        snippet: false,
        json: false,
        explain: None,
        browser: false,
    };
    assert(words.drop_first() =~= words.subrange(1, n as int));
    let ghost total = scan(st@, words.subrange(1, n as int));
    let mut i: usize = 1;
    while i < n
        invariant
            1 <= i <= n,
            n == args@.len(),
            words == arg_views(args@),
            scan(st@, words.subrange(i as int, n as int)) == total,
            parse_spec(bin@, words, version@) == match total {
                Ok(o) => finish(o),
                Err(e) => Err(e),
            },
        decreases n - i,
    {
        proof {
            lemma_rest_step(args@, i as int);
        }
        let a = args[i].as_str();
        if same_text(a, "-i") || same_text(a, "--interactive") {
            st.interactive = true;
            i = i + 1;
        } else if same_text(a, "-d") || same_text(a, "--doc") {
            st.show_doc = true;
            i = i + 1;
        } else if same_text(a, "--gd") {
            if i + 1 >= n {
                return Err(owned("--gd requires a method name"));
            }
            proof {
                lemma_rest_step(args@, i + 1);
            }
            st.goto_def = Some(args[i + 1].clone());
            i = i + 2;
        } else if same_text(a, "--open") || same_text(a, "-o") {
            st.open_def = true;
            i = i + 1;
        } else if same_text(a, "--open-doc") {
            st.open_doc = true;
            i = i + 1;
        } else if same_text(a, "--deps") {
            if i + 1 >= n {
                return Err(
                    owned("--deps requires a dependency string (e.g., 'serde_json = \"1.0\"')"),
                );
            }
            proof {
                lemma_rest_step(args@, i + 1);
            }
            st.deps = Some(args[i + 1].clone());
            i = i + 2;
        } else if same_text(a, "--snippet") {
            st.snippet = true;
            i = i + 1;
        } else if same_text(a, "--json") {
            st.json = true;
            i = i + 1;
        } else if same_text(a, "--explain") {
            if i + 1 >= n {
                return Err(owned("--explain requires a method name"));
            }
            proof {
                lemma_rest_step(args@, i + 1);
            }
            st.explain = Some(args[i + 1].clone());
            i = i + 2;
        } else if same_text(a, "--browser") {
            st.browser = true;
            i = i + 1;
        } else if starts_with_char(a, '-') {
            return Err(quoted("unexpected flag '", a, "'"));
        } else if st.filter.is_none() {
            st.filter = Some(args[i].clone());
            i = i + 1;
        } else {
            return Err(quoted("unexpected argument '", a, "'"));
        }
    }
    assert(words.subrange(n as int, n as int).len() == 0);
    finish_opts(st)
}

/// Law: the options of a successful parse are consistent. An interactive
/// run has no filter, `--open` and `--open-doc` each come with `--gd` and
/// never together, and `--browser` comes with `--explain`.
pub proof fn lemma_parsed_opts_consistent(bin: Seq<char>, args: Seq<Seq<char>>, version: Seq<char>)
    ensures
        parse_spec(bin, args, version) matches Ok(ParseView::Opts(o)) ==> {
            &&& o.interactive ==> o.filter is None
            &&& o.open_def ==> o.goto_def is Some
            &&& o.open_doc ==> o.goto_def is Some
            &&& !(o.open_def && o.open_doc)
            &&& o.browser ==> o.explain is Some
        },
{
}

/// Two words that differ in length or at some position are different.
proof fn lemma_words_differ(a: Seq<char>, b: Seq<char>, i: int)
    requires
        a.len() != b.len() || (0 <= i < a.len() && i < b.len() && a[i] != b[i]),
    ensures
        a != b,
{
}

/// The option words that come before `--open` in the grammar are all
/// different from the short and long forms of `--doc`, `--interactive` and
/// `--open`, except where they are the same flag.
proof fn lemma_flag_words_distinct()
    ensures
        "-d"@ != "-i"@,
        "-d"@ != "--interactive"@,
        "--doc"@ != "-i"@,
        "--doc"@ != "--interactive"@,
        "-o"@ != "-i"@,
        "-o"@ != "--interactive"@,
        "-o"@ != "-d"@,
        "-o"@ != "--doc"@,
        "-o"@ != "--gd"@,
        "--open"@ != "-i"@,
        "--open"@ != "--interactive"@,
        "--open"@ != "-d"@,
        "--open"@ != "--doc"@,
        "--open"@ != "--gd"@,
        "--gd"@ != "-i"@,
        "--gd"@ != "--interactive"@,
        "--gd"@ != "-d"@,
        "--gd"@ != "--doc"@,
{
    reveal_strlit("-d");
    reveal_strlit("--doc");
    reveal_strlit("-i");
    reveal_strlit("--interactive");
    reveal_strlit("-o");
    reveal_strlit("--open");
    reveal_strlit("--gd");
    lemma_words_differ("-d"@, "-i"@, 1);
    lemma_words_differ("-d"@, "--interactive"@, 0);
    lemma_words_differ("--doc"@, "-i"@, 0);
    lemma_words_differ("--doc"@, "--interactive"@, 0);
    lemma_words_differ("-o"@, "-i"@, 1);
    lemma_words_differ("-o"@, "--interactive"@, 0);
    lemma_words_differ("-o"@, "-d"@, 1);
    lemma_words_differ("-o"@, "--doc"@, 0);
    lemma_words_differ("-o"@, "--gd"@, 0);
    lemma_words_differ("--open"@, "-i"@, 0);
    lemma_words_differ("--open"@, "--interactive"@, 0);
    lemma_words_differ("--open"@, "-d"@, 0);
    lemma_words_differ("--open"@, "--doc"@, 0);
    lemma_words_differ("--open"@, "--gd"@, 0);
    lemma_words_differ("--gd"@, "-i"@, 0);
    lemma_words_differ("--gd"@, "--interactive"@, 0);
    lemma_words_differ("--gd"@, "-d"@, 0);
    lemma_words_differ("--gd"@, "--doc"@, 3);
}

/// Two command lines that start with the same type word, and whose
/// remaining words read into the same options, mean the same.
proof fn lemma_same_type_same_parse(bin: Seq<char>, a1: Seq<Seq<char>>, a2: Seq<Seq<char>>, version: Seq<char>)
    requires
        a1.len() > 0,
        a2.len() > 0,
        a1[0] == a2[0],
        !is_flag(a1[0]),
        scan(initial_opts(bin, a1[0]), a1.drop_first()) == scan(initial_opts(bin, a2[0]), a2.drop_first()),
    ensures
        parse_spec(bin, a1, version) == parse_spec(bin, a2, version),
{
    reveal_strlit("--help");
    reveal_strlit("-h");
    reveal_strlit("--version");
    reveal_strlit("-V");
    reveal_strlit("--daemon");
    assert(a1[0] != "--help"@ && a1[0] != "-h"@ && a1[0] != "--version"@ && a1[0] != "-V"@ && a1[0] != "--daemon"@);
}

/// Law: the short flags are aliases of the long ones. Whatever the program
/// name, the type word (a word that is not a flag), the words that follow
/// and the version, writing
/// `-d` in place of `--doc`, `-i` in place of `--interactive` or `-o` in
/// place of `--open` right after the type means the same command line.
pub proof fn lemma_short_flags_are_aliases(
    bin: Seq<char>,
    ty: Seq<char>,
    rest: Seq<Seq<char>>,
    version: Seq<char>,
)
    requires
        !is_flag(ty),
    ensures
        parse_spec(bin, seq![ty, "-d"@] + rest, version) == parse_spec(bin, seq![ty, "--doc"@] + rest, version),
        parse_spec(bin, seq![ty, "-i"@] + rest, version) == parse_spec(
            bin,
            seq![ty, "--interactive"@] + rest,
            version,
        ),
        parse_spec(bin, seq![ty, "-o"@] + rest, version) == parse_spec(bin, seq![ty, "--open"@] + rest, version),
{
    reveal_strlit("-d");
    reveal_strlit("--doc");
    reveal_strlit("-i");
    reveal_strlit("--interactive");
    reveal_strlit("-o");
    reveal_strlit("--open");
    reveal_strlit("--gd");
    lemma_flag_words_distinct();
    let st = initial_opts(bin, ty);
    assert((seq![ty, "-d"@] + rest).drop_first() =~= seq!["-d"@] + rest);
    assert((seq![ty, "--doc"@] + rest).drop_first() =~= seq!["--doc"@] + rest);
    assert((seq![ty, "-i"@] + rest).drop_first() =~= seq!["-i"@] + rest);
    assert((seq![ty, "--interactive"@] + rest).drop_first() =~= seq!["--interactive"@] + rest);
    assert((seq![ty, "-o"@] + rest).drop_first() =~= seq!["-o"@] + rest);
    assert((seq![ty, "--open"@] + rest).drop_first() =~= seq!["--open"@] + rest);
    assert((seq!["-d"@] + rest).drop_first() =~= rest);
    assert((seq!["--doc"@] + rest).drop_first() =~= rest);
    assert((seq!["-i"@] + rest).drop_first() =~= rest);
    assert((seq!["--interactive"@] + rest).drop_first() =~= rest);
    assert((seq!["-o"@] + rest).drop_first() =~= rest);
    assert((seq!["--open"@] + rest).drop_first() =~= rest);
    assert(scan(st, seq!["-d"@] + rest) == scan(OptsView { show_doc: true, ..st }, rest));
    assert(scan(st, seq!["--doc"@] + rest) == scan(OptsView { show_doc: true, ..st }, rest));
    assert(scan(st, seq!["-i"@] + rest) == scan(OptsView { interactive: true, ..st }, rest));
    assert(scan(st, seq!["--interactive"@] + rest) == scan(OptsView { interactive: true, ..st }, rest));
    assert(scan(st, seq!["-o"@] + rest) == scan(OptsView { open_def: true, ..st }, rest));
    assert(scan(st, seq!["--open"@] + rest) == scan(OptsView { open_def: true, ..st }, rest));
    assert((seq![ty, "-d"@] + rest)[0] == ty);
    assert((seq![ty, "--doc"@] + rest)[0] == ty);
    assert((seq![ty, "-i"@] + rest)[0] == ty);
    assert((seq![ty, "--interactive"@] + rest)[0] == ty);
    assert((seq![ty, "-o"@] + rest)[0] == ty);
    assert((seq![ty, "--open"@] + rest)[0] == ty);
    lemma_same_type_same_parse(bin, seq![ty, "-d"@] + rest, seq![ty, "--doc"@] + rest, version);
    lemma_same_type_same_parse(bin, seq![ty, "-i"@] + rest, seq![ty, "--interactive"@] + rest, version);
    lemma_same_type_same_parse(bin, seq![ty, "-o"@] + rest, seq![ty, "--open"@] + rest, version);
}

/// Law: `--doc` (or `-d`), `--interactive` (or `-i`) and `--open` (or `-o`,
/// after `--gd <method>`) each set their option and nothing else: for any
/// type word that is not itself a flag, the command line is the type and
/// that flag alone gives the default options with just that option on.
pub proof fn lemma_flags_set_their_option(bin: Seq<char>, ty: Seq<char>, method: Seq<char>, version: Seq<char>)
    requires
        !is_flag(ty),
    ensures
        parse_spec(bin, seq![ty, "-d"@], version) == Ok::<ParseView, Seq<char>>(
            ParseView::Opts(OptsView { show_doc: true, ..initial_opts(bin, ty) }),
        ),
        parse_spec(bin, seq![ty, "--doc"@], version) == Ok::<ParseView, Seq<char>>(
            ParseView::Opts(OptsView { show_doc: true, ..initial_opts(bin, ty) }),
        ),
        parse_spec(bin, seq![ty, "-i"@], version) == Ok::<ParseView, Seq<char>>(
            ParseView::Opts(OptsView { interactive: true, ..initial_opts(bin, ty) }),
        ),
        parse_spec(bin, seq![ty, "--interactive"@], version) == Ok::<ParseView, Seq<char>>(
            ParseView::Opts(OptsView { interactive: true, ..initial_opts(bin, ty) }),
        ),
        parse_spec(bin, seq![ty, "--gd"@, method, "-o"@], version) == Ok::<ParseView, Seq<char>>(
            ParseView::Opts(OptsView { goto_def: Some(method), open_def: true, ..initial_opts(bin, ty) }),
        ),
        parse_spec(bin, seq![ty, "--gd"@, method, "--open"@], version) == Ok::<ParseView, Seq<char>>(
            ParseView::Opts(OptsView { goto_def: Some(method), open_def: true, ..initial_opts(bin, ty) }),
        ),
{
    reveal_strlit("-d");
    reveal_strlit("--doc");
    reveal_strlit("-i");
    reveal_strlit("--interactive");
    reveal_strlit("-o");
    reveal_strlit("--open");
    reveal_strlit("--gd");
    reveal_strlit("--help");
    reveal_strlit("-h");
    reveal_strlit("--version");
    reveal_strlit("-V");
    reveal_strlit("--daemon");
    lemma_flag_words_distinct();
    let st = initial_opts(bin, ty);
    let e = Seq::<Seq<char>>::empty();
    lemma_short_flags_are_aliases(bin, ty, e, version);
    assert(seq![ty, "-d"@] =~= seq![ty, "-d"@] + e);
    assert(seq![ty, "--doc"@] =~= seq![ty, "--doc"@] + e);
    assert(seq![ty, "-i"@] =~= seq![ty, "-i"@] + e);
    assert(seq![ty, "--interactive"@] =~= seq![ty, "--interactive"@] + e);
    assert(ty != "--help"@ && ty != "-h"@ && ty != "--version"@ && ty != "-V"@ && ty != "--daemon"@);
    assert(seq![ty, "--doc"@].drop_first() =~= seq!["--doc"@]);
    assert(seq!["--doc"@].drop_first() =~= e);
    assert(scan(st, seq!["--doc"@]) == scan(OptsView { show_doc: true, ..st }, e));
    assert(seq![ty, "--interactive"@].drop_first() =~= seq!["--interactive"@]);
    assert(seq!["--interactive"@].drop_first() =~= e);
    assert(scan(st, seq!["--interactive"@]) == scan(OptsView { interactive: true, ..st }, e));
    let g = OptsView { goto_def: Some(method), ..st };
    assert(seq![ty, "--gd"@, method, "-o"@].drop_first() =~= seq!["--gd"@, method, "-o"@]);
    assert(seq!["--gd"@, method, "-o"@].drop_first() =~= seq![method, "-o"@]);
    assert(seq![method, "-o"@].drop_first() =~= seq!["-o"@]);
    assert(seq!["-o"@].drop_first() =~= e);
    assert(scan(st, seq!["--gd"@, method, "-o"@]) == scan(g, seq!["-o"@]));
    assert(scan(g, seq!["-o"@]) == scan(OptsView { open_def: true, ..g }, e));
    assert(seq![ty, "--gd"@, method, "--open"@].drop_first() =~= seq!["--gd"@, method, "--open"@]);
    assert(seq!["--gd"@, method, "--open"@].drop_first() =~= seq![method, "--open"@]);
    assert(seq![method, "--open"@].drop_first() =~= seq!["--open"@]);
    assert(seq!["--open"@].drop_first() =~= e);
    assert(scan(st, seq!["--gd"@, method, "--open"@]) == scan(g, seq!["--open"@]));
    assert(scan(g, seq!["--open"@]) == scan(OptsView { open_def: true, ..g }, e));
}

} // verus!
