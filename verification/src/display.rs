//! The text of the method listing, apart from its colours: call snippets,
//! padded names, documentation previews and code fences.
use vstd::prelude::*;
use crate::analyzer::Method;
use crate::args::arg_views;
use crate::text::{
    chars_of, push_str, push_all, string_from, slice, find_char_exec, split_char_exec, trim_exec,
    eq_exec, buffers_view, find_char, split_char, trim, before_char, join, lemma_find_char,
    trim_start, has_prefix, starts_with_exec,
};

verus! {

// ---------------------------------------------------------------------------
// Call snippets
// ---------------------------------------------------------------------------

/// A receiver parameter, which a call does not pass.
pub open spec fn is_receiver(p: Seq<char>) -> bool {
    p == "self"@ || p == "&self"@ || p == "&mut self"@
}

/// The names of the parameters in `parts` (each trimmed, receivers left
/// out, type annotations cut at `:`).
pub open spec fn call_arg_names(parts: Seq<Seq<char>>) -> Seq<Seq<char>>
    decreases parts.len(),
{
    if parts.len() == 0 {
        Seq::empty()
    } else {
        let init = call_arg_names(parts.drop_last());
        let p = trim(parts.last());
        if is_receiver(p) {
            init
        } else {
            init.push(trim(before_char(p, ':')))
        }
    }
}

/// The end of a signature's parameter list: the first `)`, else the end.
pub open spec fn params_end(d: Seq<char>) -> int {
    match find_char(d, ')') {
        Some(e) => e,
        None => d.len() as int,
    }
}

/// A signature whose first `)` (if any) comes after its first `(` (if any);
/// the parameter list of any other is not a valid slice.
pub open spec fn well_bracketed(d: Seq<char>) -> bool {
    find_char(d, '(') matches Some(s) ==> s < params_end(d)
}

/// The argument list of a call to a method with signature `d`: the
/// parameter names, comma-separated, or nothing when `d` has no `(`.
pub open spec fn call_args_spec(d: Seq<char>) -> Seq<char> {
    match find_char(d, '(') {
        None => Seq::empty(),
        Some(s) => join(call_arg_names(split_char(d.subrange(s + 1, params_end(d)), ',')), ", "@),
    }
}

fn is_receiver_exec(p: &Vec<char>) -> (b: bool)
    ensures
        b == is_receiver(p@),
{
    eq_exec(p, &chars_of("self")) || eq_exec(p, &chars_of("&self")) || eq_exec(p, &chars_of("&mut self"))
}

/// The argument names of a signature, for the call form of a snippet:
/// `pub fn f(self, rhs: u8, other: u8)` gives `rhs, other`.
pub fn parse_call_args(detail: &str) -> (r: String)
    requires
        well_bracketed(detail@),
    ensures
        r@ == call_args_spec(detail@),
{
    let d = chars_of(detail);
    proof {
        lemma_find_char(d@, '(');
        lemma_find_char(d@, ')');
    }
    let start = match find_char_exec(&d, '(') {
        Some(s) => s,
        None => return string_from(&Vec::new()),
    };
    let end = match find_char_exec(&d, ')') {
        Some(e) => e,
        None => d.len(),
    };
    let params = slice(&d, start + 1, end);
    let parts = split_char_exec(&params, ',');
    let ghost pv = buffers_view(parts@);
    let mut out: Vec<char> = Vec::new();
    let mut count: usize = 0;
    let mut i: usize = 0;
    while i < parts.len()
        invariant
            i <= parts@.len(),
            pv == buffers_view(parts@),
            count == call_arg_names(pv.subrange(0, i as int)).len(),
            count <= i,
            out@ == join(call_arg_names(pv.subrange(0, i as int)), ", "@),
        decreases parts@.len() - i,
    {
        let p = trim_exec(&parts[i]);
        let ghost sub = pv.subrange(0, i + 1);
        assert(sub.drop_last() =~= pv.subrange(0, i as int));
        assert(sub.last() == parts@[i as int]@);
        if !is_receiver_exec(&p) {
            let head = match find_char_exec(&p, ':') {
                Some(k) => {
                    proof {
                        lemma_find_char(p@, ':');
                    }
                    slice(&p, 0, k)
                },
                None => {
                    assert(p@.subrange(0, p@.len() as int) =~= p@);
                    slice(&p, 0, p.len())
                },
            };
            let name = trim_exec(&head);
            let ghost before = out@;
            let ghost names = call_arg_names(pv.subrange(0, i as int));
            if count > 0 {
                push_str(&mut out, ", ");
            }
            push_all(&mut out, &name);
            proof {
                let grown = names.push(name@);
                assert(grown.drop_last() =~= names);
                if count == 0 {
                    assert(before =~= Seq::<char>::empty());
                    assert(out@ =~= name@);
                } else {
                    assert(out@ =~= before + ", "@ + name@);
                }
            }
            count = count + 1;
        }
        i = i + 1;
    }
    assert(pv.subrange(0, parts@.len() as int) =~= pv);
    string_from(&out)
}

/// How many leading characters of a signature are its visibility: `pub `,
/// or `pub(…)` and a space; 0 when it has none.
pub open spec fn visibility_len(d: Seq<char>) -> int {
    if has_prefix(d, "pub "@) {
        4
    } else if has_prefix(d, "pub("@) {
        match find_char(d, ')') {
            Some(k) => if k + 1 < d.len() && d[k + 1] == ' ' { k + 2 } else { 0 },
            None => 0,
        }
    } else {
        0
    }
}

/// A signature as a snippet shows it: where it starts with `fn `, after an
/// optional visibility, that head is dropped (`pub fn len(&self) -> usize`
/// shows as `len(&self) -> usize`); any other signature is shown whole.
pub open spec fn shown_signature(d: Seq<char>) -> Seq<char> {
    let rest = d.subrange(visibility_len(d), d.len() as int);
    if has_prefix(rest, "fn "@) {
        rest.subrange(3, rest.len() as int)
    } else {
        d
    }
}

/// See [`shown_signature`].
pub fn shown_signature_exec(d: &str) -> (r: Vec<char>)
    ensures
        r@ == shown_signature(d@),
{
    proof {
        reveal_strlit("pub ");
        reveal_strlit("pub(");
        reveal_strlit("fn ");
    }
    let v = chars_of(d);
    let vis: usize = if starts_with_exec(&v, &chars_of("pub ")) {
        4
    } else if starts_with_exec(&v, &chars_of("pub(")) {
        match find_char_exec(&v, ')') {
            Some(k) => {
                proof {
                    lemma_find_char(v@, ')');
                }
                if k < v.len() - 1 && v[k + 1] == ' ' {
                    k + 2
                } else {
                    0
                }
            },
            None => 0,
        }
    } else {
        0
    };
    assert(vis as int == visibility_len(d@));
    let rest = slice(&v, vis, v.len());
    if starts_with_exec(&rest, &chars_of("fn ")) {
        slice(&rest, 3, rest.len())
    } else {
        v
    }
}

/// The lines of a snippet for a method: its signature (see
/// [`shown_signature`]) and the call form, or just its name when the
/// signature is unknown.
pub open spec fn snippet_spec(m: Method) -> Seq<Seq<char>> {
    match m.detail {
        None => seq!["  "@ + m.name@],
        Some(d) => seq!["  "@ + shown_signature(d@), "  → x."@ + m.name@ + "("@ + call_args_spec(d@) + ")\n"@],
    }
}

/// The lines that `--snippet` prints for a method.
pub fn snippet_lines(m: &Method) -> (r: Vec<String>)
    requires
        m.detail matches Some(d) ==> well_bracketed(d@),
    ensures
        arg_views(r@) == snippet_spec(*m),
{
    let mut r: Vec<String> = Vec::new();
    match &m.detail {
        None => {
            let mut v: Vec<char> = Vec::new();
            push_str(&mut v, "  ");
            push_str(&mut v, m.name.as_str());
            r.push(string_from(&v));
        },
        Some(d) => {
            let mut first: Vec<char> = Vec::new();
            push_str(&mut first, "  ");
            push_all(&mut first, &shown_signature_exec(d.as_str()));
            r.push(string_from(&first));
            let args = parse_call_args(d.as_str());
            let mut second: Vec<char> = Vec::new();
            push_str(&mut second, "  → x.");
            push_str(&mut second, m.name.as_str());
            push_str(&mut second, "(");
            push_str(&mut second, args.as_str());
            push_str(&mut second, ")\n");
            r.push(string_from(&second));
        },
    }
    assert(arg_views(r@) =~= snippet_spec(*m));
    r
}

// ---------------------------------------------------------------------------
// Padding
// ---------------------------------------------------------------------------

/// `name` padded with spaces on the right to `width` characters.
pub open spec fn pad_spec(name: Seq<char>, width: nat) -> Seq<char> {
    if name.len() >= width {
        name
    } else {
        name + Seq::new((width - name.len()) as nat, |i: int| ' ')
    }
}

/// A method name padded for the listing's first column; a width of 0 leaves
/// it as it is.
pub fn pad_name(name: &str, width: usize) -> (r: String)
    ensures
        r@ == pad_spec(name@, width as nat),
{
    let mut v = chars_of(name);
    let ghost start = v@;
    let n = v.len();
    if n >= width {
        return string_from(&v);
    }
    let mut k: usize = n;
    while k < width
        invariant
            n <= k <= width,
            start == name@,
            n == start.len(),
            v@ == start + Seq::new((k - n) as nat, |i: int| ' '),
        decreases width - k,
    {
        v.push(' ');
        k = k + 1;
        assert(v@ =~= start + Seq::new((k - n) as nat, |i: int| ' '));
    }
    string_from(&v)
}

// ---------------------------------------------------------------------------
// Documentation
// ---------------------------------------------------------------------------

/// A line without the carriage return of a CRLF ending.
pub open spec fn without_cr(p: Seq<char>) -> Seq<char> {
    if p.len() > 0 && p.last() == '\r' {
        p.drop_last()
    } else {
        p
    }
}

/// The lines of `s` as `str::lines` yields them: split at `\n`, a `\r`
/// before the `\n` removed, and no empty last line after a final `\n`.
pub open spec fn lines_spec(s: Seq<char>) -> Seq<Seq<char>> {
    let parts = split_char(s, '\n');
    let body = parts.drop_last().map_values(|p: Seq<char>| without_cr(p));
    if parts.last().len() == 0 {
        body
    } else {
        body.push(parts.last())
    }
}

proof fn lemma_split_nonempty(s: Seq<char>, sep: char)
    ensures
        split_char(s, sep).len() > 0,
    decreases s.len(),
{
    lemma_find_char(s, sep);
    if let Some(i) = find_char(s, sep) {
        lemma_split_nonempty(s.subrange(i + 1, s.len() as int), sep);
    }
}

/// The lines of a documentation text (see [`lines_spec`]).
pub fn doc_lines(doc: &str) -> (r: Vec<String>)
    ensures
        arg_views(r@) == lines_spec(doc@),
{
    let parts = split_char_exec(&chars_of(doc), '\n');
    let ghost pv = buffers_view(parts@);
    proof {
        lemma_split_nonempty(doc@, '\n');
    }
    let n = parts.len();
    let mut out: Vec<String> = Vec::new();
    let mut i: usize = 0;
    while i + 1 < n
        invariant
            n == parts@.len(),
            n > 0,
            i < n,
            pv == buffers_view(parts@),
            arg_views(out@) == pv.subrange(0, i as int).map_values(|p: Seq<char>| without_cr(p)),
        decreases n - i,
    {
        let p = &parts[i];
        let line = if p.len() > 0 && p[p.len() - 1] == '\r' {
            slice(p, 0, p.len() - 1)
        } else {
            slice(p, 0, p.len())
        };
        assert(p@.subrange(0, p@.len() as int) =~= p@);
        assert(line@ == without_cr(pv[i as int]));
        let ghost before = out@;
        let ghost f = |p: Seq<char>| without_cr(p);
        out.push(string_from(&line));
        assert(arg_views(out@) =~= arg_views(before).push(line@));
        assert(pv.subrange(0, i + 1).map_values(f) =~= pv.subrange(0, i as int).map_values(f).push(
            f(pv[i as int]),
        ));
        i = i + 1;
    }
    assert(pv.drop_last() =~= pv.subrange(0, i as int));
    let last = &parts[n - 1];
    if last.len() > 0 {
        let ghost before = out@;
        out.push(string_from(last));
        assert(arg_views(out@) =~= arg_views(before).push(pv.last()));
    }
    out
}

/// How many lines of documentation the listing shows under a method.
pub const DOC_PREVIEW_LINES: usize = 6;

/// The documentation lines shown under a method in the listing, and whether
/// more follow (then an ellipsis line is printed).
pub fn doc_preview(doc: &str) -> (r: (Vec<String>, bool))
    ensures
        arg_views(r.0@) == lines_spec(doc@).take(
            if lines_spec(doc@).len() < DOC_PREVIEW_LINES { lines_spec(doc@).len() as int } else { DOC_PREVIEW_LINES as int },
        ),
        r.1 == (lines_spec(doc@).len() > DOC_PREVIEW_LINES),
{
    let all = doc_lines(doc);
    let more = all.len() > DOC_PREVIEW_LINES;
    let keep = if all.len() < DOC_PREVIEW_LINES { all.len() } else { DOC_PREVIEW_LINES };
    let mut shown: Vec<String> = Vec::new();
    let mut i: usize = 0;
    while i < keep
        invariant
            i <= keep <= all@.len(),
            arg_views(shown@) == arg_views(all@).take(i as int),
        decreases keep - i,
    {
        let ghost before = shown@;
        shown.push(all[i].clone());
        assert(arg_views(shown@) =~= arg_views(before).push(all@[i as int]@));
        assert(arg_views(all@).take(i + 1) =~= arg_views(all@).take(i as int).push(
            arg_views(all@)[i as int],
        ));
        i = i + 1;
    }
    (shown, more)
}

/// What a documentation line is to the code-fence reader.
#[derive(Debug, PartialEq, Eq, Structural)]
pub enum DocLine {
    /// Prose outside a code block.
    Text,
    /// The opening fence of a Rust code block.
    OpenFence,
    /// The closing fence of a code block.
    CloseFence,
    /// A line of Rust code inside a block.
    Code,
}

/// The kind of a documentation line, given whether a Rust block is open.
pub open spec fn doc_line_spec(in_block: bool, line: Seq<char>) -> DocLine {
    if !in_block {
        if has_prefix(trim_start(line), "```rust"@) {
            DocLine::OpenFence
        } else {
            DocLine::Text
        }
    } else if trim(line) == "```"@ {
        DocLine::CloseFence
    } else {
        DocLine::Code
    }
}

/// Classifies one documentation line and says whether a Rust block is open
/// after it: an opening fence opens one, a closing fence closes it.
pub fn classify_doc_line(in_block: bool, line: &str) -> (r: (DocLine, bool))
    ensures
        r.0 == doc_line_spec(in_block, line@),
        r.1 == (match r.0 {
            DocLine::OpenFence => true,
            DocLine::CloseFence => false,
            _ => in_block,
        }),
{
    let v = chars_of(line);
    if !in_block {
        let lead = crate::text::trim_start_exec(&v);
        if starts_with_exec(&lead, &chars_of("```rust")) {
            (DocLine::OpenFence, true)
        } else {
            (DocLine::Text, false)
        }
    } else if eq_exec(&trim_exec(&v), &chars_of("```")) {
        (DocLine::CloseFence, false)
    } else {
        (DocLine::Code, true)
    }
}

// ---------------------------------------------------------------------------
// Highlighting
// ---------------------------------------------------------------------------

/// The colour theme that Rust blocks are highlighted with.
pub const HIGHLIGHT_THEME: &'static str = "base16-ocean.dark";

/// What syntect's highlighter writes for the lines of one Rust code block,
/// highlighted in order with `theme`: for each line, the line (with a line
/// feed added) as 24-bit terminal colour escapes, or `None` where
/// highlighting failed.
pub uninterp spec fn highlighted_block(theme: Seq<char>, lines: Seq<Seq<char>>) -> Seq<Option<Seq<char>>>;

/// Highlights the lines of one Rust code block with syntect: the default
/// syntax set (Rust syntax), the default theme set's `theme`, one
/// `HighlightLines` run over the lines in order, and
/// `as_24_bit_terminal_escaped` without background. The contract names the
/// result; it depends on the theme and the lines alone.
#[verifier::external_body]
pub(crate) fn highlight_rust_block(theme: &str, lines: &Vec<String>) -> (r: Vec<Option<String>>)
    requires
        theme@ == HIGHLIGHT_THEME@,
    ensures
        r@.len() == lines@.len(),
        forall|i: int|
            0 <= i < r@.len() ==> (match #[trigger] r@[i] {
                Some(s) => highlighted_block(theme@, arg_views(lines@))[i] == Some(s@),
                None => highlighted_block(theme@, arg_views(lines@))[i] is None,
            }),
{
    let ps = syntect::parsing::SyntaxSet::load_defaults_newlines();
    let ts = syntect::highlighting::ThemeSet::load_defaults();
    let syntax = ps.find_syntax_by_extension("rs").unwrap_or_else(|| ps.find_syntax_plain_text());
    let mut h = syntect::easy::HighlightLines::new(syntax, &ts.themes[theme]);
    lines
        .iter()
        .map(|l| h.highlight_line(&format!("{l}\n"), &ps).ok().map(|r| syntect::util::as_24_bit_terminal_escaped(&r[..], false)))
        .collect()
}

/// `s` without its trailing line feeds.
pub open spec fn strip_newlines(s: Seq<char>) -> Seq<char>
    decreases s.len(),
{
    if s.len() > 0 && s.last() == '\n' {
        strip_newlines(s.drop_last())
    } else {
        s
    }
}

fn strip_newlines_exec(s: &String) -> (r: String)
    ensures
        r@ == strip_newlines(s@),
{
    let v = chars_of(s.as_str());
    let mut k = v.len();
    assert(v@.subrange(0, k as int) =~= v@);
    while k > 0 && v[k - 1] == '\n'
        invariant
            k <= v@.len(),
            strip_newlines(v@.subrange(0, k as int)) == strip_newlines(v@),
        decreases k,
    {
        assert(v@.subrange(0, k as int).drop_last() =~= v@.subrange(0, k - 1));
        k = k - 1;
    }
    string_from(&slice(&v, 0, k))
}

/// How many lines, from the first, belong to an open Rust block: those
/// before the closing fence.
pub open spec fn code_run(lines: Seq<Seq<char>>) -> nat
    decreases lines.len(),
{
    if lines.len() == 0 || trim(lines[0]) == "```"@ {
        0
    } else {
        1 + code_run(lines.drop_first())
    }
}

/// An open block holds at most the remaining lines.
pub proof fn lemma_code_run_bound(lines: Seq<Seq<char>>)
    ensures
        code_run(lines) <= lines.len(),
    decreases lines.len(),
{
    if lines.len() > 0 && trim(lines[0]) != "```"@ {
        lemma_code_run_bound(lines.drop_first());
    }
}

/// The shown form of the lines of a code block: each highlighted line
/// without its trailing line feeds, or the line itself where highlighting
/// failed.
pub open spec fn code_pieces(block: Seq<Seq<char>>, hs: Seq<Option<Seq<char>>>) -> Seq<(DocLine, Seq<char>)> {
    Seq::new(
        block.len(),
        |j: int|
            (DocLine::Code, match hs[j] {
                Some(h) => strip_newlines(h),
                None => block[j],
            }),
    )
}

/// What a documentation text shows, line by line, given whether a Rust
/// block is open: prose as it is, `` ```rust `` for an opening fence and
/// `` ``` `` for a closing one, and each Rust block highlighted as a whole.
pub open spec fn render_doc(lines: Seq<Seq<char>>, in_block: bool) -> Seq<(DocLine, Seq<char>)>
    decreases lines.len(),
{
    if lines.len() == 0 {
        Seq::empty()
    } else if in_block {
        let n = code_run(lines);
        proof {
            lemma_code_run_bound(lines);
        }
        if n > 0 {
            let block = lines.subrange(0, n as int);
            code_pieces(block, highlighted_block(HIGHLIGHT_THEME@, block)) + render_doc(
                lines.subrange(n as int, lines.len() as int),
                true,
            )
        } else {
            seq![(DocLine::CloseFence, "```"@)] + render_doc(lines.drop_first(), false)
        }
    } else if doc_line_spec(false, lines[0]) == DocLine::OpenFence {
        seq![(DocLine::OpenFence, "```rust"@)] + render_doc(lines.drop_first(), true)
    } else {
        seq![(DocLine::Text, lines[0])] + render_doc(lines.drop_first(), false)
    }
}

/// One shown line of a documentation text.
#[derive(Debug)]
pub struct DocPiece {
    /// What the line is.
    pub kind: DocLine,
    /// The text to show.
    pub text: String,
}

/// The view of shown lines.
pub open spec fn pieces_view(v: Seq<DocPiece>) -> Seq<(DocLine, Seq<char>)> {
    Seq::new(v.len(), |i: int| (v[i].kind, v[i].text@))
}

fn push_piece(out: &mut Vec<DocPiece>, kind: DocLine, text: String)
    ensures
        pieces_view(final(out)@) == pieces_view(old(out)@).push((kind, text@)),
{
    out.push(DocPiece { kind, text });
    assert(pieces_view(final(out)@) =~= pieces_view(old(out)@).push((kind, text@)));
}

/// The documentation of a method as it is shown, line by line, with its
/// Rust blocks highlighted (see [`render_doc`]).
pub fn highlight_doc(doc: &str) -> (r: Vec<DocPiece>)
    ensures
        pieces_view(r@) == render_doc(lines_spec(doc@), false),
{
    let lines = doc_lines(doc);
    let ghost all = arg_views(lines@);
    let n = lines.len();
    let mut out: Vec<DocPiece> = Vec::new();
    let mut in_block = false;
    let mut i: usize = 0;
    assert(all.subrange(0, n as int) =~= all);
    while i < n
        invariant
            i <= n,
            n == lines@.len(),
            all == arg_views(lines@),
            all == lines_spec(doc@),
            render_doc(all, false) == pieces_view(out@) + render_doc(all.subrange(i as int, n as int), in_block),
        decreases n - i,
    {
        let ghost rest = all.subrange(i as int, n as int);
        let ghost before = pieces_view(out@);
        assert(rest[0] == lines@[i as int]@);
        assert(rest.drop_first() =~= all.subrange(i + 1, n as int));
        if !in_block {
            let (kind, open) = classify_doc_line(false, lines[i].as_str());
            if open {
                push_piece(&mut out, DocLine::OpenFence, crate::text::owned("```rust"));
                in_block = true;
            } else {
                push_piece(&mut out, DocLine::Text, lines[i].clone());
            }
            i = i + 1;
            assert(pieces_view(out@) + render_doc(all.subrange(i as int, n as int), in_block) =~= before
                + render_doc(rest, false));
        } else {
            let start = i;
            let mut block: Vec<String> = Vec::new();
            loop
                invariant
                    start <= i <= n,
                    n == lines@.len(),
                    all == arg_views(lines@),
                    arg_views(block@) == all.subrange(start as int, i as int),
                    code_run(all.subrange(start as int, n as int)) == (i - start) + code_run(
                        all.subrange(i as int, n as int),
                    ),
                ensures
                    arg_views(block@) == all.subrange(start as int, i as int),
                    code_run(all.subrange(start as int, n as int)) == i - start,
                    i < n ==> trim(all[i as int]) == "```"@,
                decreases n - i,
            {
                if i >= n {
                    assert(all.subrange(i as int, n as int).len() == 0);
                    break;
                }
                let ghost sub = all.subrange(i as int, n as int);
                assert(sub[0] == all[i as int]);
                let (kind, _) = classify_doc_line(true, lines[i].as_str());
                if kind == DocLine::CloseFence {
                    break;
                }
                assert(sub.drop_first() =~= all.subrange(i + 1, n as int));
                let ghost b0 = block@;
                block.push(lines[i].clone());
                assert(arg_views(block@) =~= arg_views(b0).push(lines@[i as int]@));
                assert(all.subrange(start as int, i + 1) =~= all.subrange(start as int, i as int).push(
                    all[i as int],
                ));
                i = i + 1;
            }
            if block.len() > 0 {
                proof {
                    lemma_code_run_bound(rest);
                    assert(rest.subrange(0, (i - start) as int) =~= all.subrange(start as int, i as int));
                    assert(rest.subrange((i - start) as int, rest.len() as int) =~= all.subrange(
                        i as int,
                        n as int,
                    ));
                }
                let hs = highlight_rust_block(HIGHLIGHT_THEME, &block);
                let ghost blk = arg_views(block@);
                let ghost named = highlighted_block(HIGHLIGHT_THEME@, blk);
                let mut j: usize = 0;
                while j < block.len()
                    invariant
                        j <= block@.len(),
                        hs@.len() == block@.len(),
                        blk == arg_views(block@),
                        forall|t: int|
                            0 <= t < hs@.len() ==> (match #[trigger] hs@[t] {
                                Some(s) => named[t] == Some(s@),
                                None => named[t] is None,
                            }),
                        pieces_view(out@) == before + code_pieces(blk, named).take(j as int),
                    decreases block@.len() - j,
                {
                    let text = match &hs[j] {
                        Some(h) => strip_newlines_exec(h),
                        None => block[j].clone(),
                    };
                    assert(text@ == code_pieces(blk, named)[j as int].1);
                    push_piece(&mut out, DocLine::Code, text);
                    assert(code_pieces(blk, named).take(j + 1) =~= code_pieces(blk, named).take(
                        j as int,
                    ).push(code_pieces(blk, named)[j as int]));
                    j = j + 1;
                }
                assert(code_pieces(blk, named).take(block@.len() as int) =~= code_pieces(blk, named));
            } else {
                assert(i < n);
                assert(rest[0] == all[i as int]);
                push_piece(&mut out, DocLine::CloseFence, crate::text::owned("```"));
                in_block = false;
                i = i + 1;
                assert(pieces_view(out@) + render_doc(all.subrange(i as int, n as int), in_block) =~= before
                    + render_doc(rest, true));
            }
        }
    }
    assert(render_doc(all.subrange(n as int, n as int), in_block) =~= Seq::<(DocLine, Seq<char>)>::empty());
    assert(pieces_view(out@) + Seq::<(DocLine, Seq<char>)>::empty() =~= pieces_view(out@));
    out
}

} // verus!
