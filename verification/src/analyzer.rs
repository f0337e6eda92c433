//! Methods and definitions as reported by `rust-analyzer`, and the pure
//! parsing of its completion, definition and diagnostic responses.
use vstd::prelude::*;

use crate::error::RustMethError;
use crate::text::{before_char, find, find_exec, has_prefix, starts_with_exec, chars_of, compare_exec, find_char_exec, lemma_find_char, lemma_lex_trans, lex_lt, string_from, trim, trim_exec, slice};

verus! {

/// A method extracted from a `rust-analyzer` completion list.
#[derive(Debug)]
pub struct Method {
    /// The plain name of the method (e.g. `"len"`).
    pub name: String,
    /// The full signature hint provided by the server, if any.
    pub detail: Option<String>,
    /// Markdown or plaintext documentation, if any.
    pub documentation: Option<String>,
}

/// A source location returned by a `textDocument/definition` request.
#[derive(Debug)]
pub struct Definition {
    /// A shortened path for display, starting at `library/` or `src/`.
    pub path: String,
    /// The absolute path on the local filesystem.
    pub full_path: String,
    /// 0-indexed line of the declaration.
    pub line: u32,
}

/// A copy of an optional string.
pub fn clone_opt_string(s: &Option<String>) -> (r: Option<String>)
    ensures
        r == *s,
{
    match s {
        Some(x) => Some(x.clone()),
        None => None,
    }
}

impl Method {
    /// A field-for-field copy of this method.
    pub fn duplicate(&self) -> (r: Method)
        ensures
            r == *self,
    {
        Method {
            name: self.name.clone(),
            detail: clone_opt_string(&self.detail),
            documentation: clone_opt_string(&self.documentation),
        }
    }
}

impl Definition {
    /// A field-for-field copy of this definition.
    pub fn duplicate(&self) -> (r: Definition)
        ensures
            r == *self,
    {
        Definition { path: self.path.clone(), full_path: self.full_path.clone(), line: self.line }
    }
}


/// LSP `CompletionItemKind` for a method.
pub const KIND_METHOD: u64 = 2;

/// One entry of a completion list, reduced to the fields the parser reads:
/// `kind` as an unsigned integer, `label` and `detail` as strings, and the
/// string under `documentation.value`. A field that is absent or of another
/// JSON type is `None`.
pub struct CompletionItem {
    pub kind: Option<u64>,
    pub label: Option<String>,
    pub detail: Option<String>,
    pub documentation: Option<String>,
}

/// The `result` member of a completion response.
pub enum CompletionResult {
    /// `result` is a JSON array of items.
    Array(Vec<CompletionItem>),
    /// `result` is an object whose `items` member is an array.
    ItemList(Vec<CompletionItem>),
    /// Anything else.
    Other,
}

/// A completion response: its `result`, and the whole response as JSON text.
pub struct CompletionResponse {
    pub result: CompletionResult,
    pub text: String,
}

/// The label of an item, or the empty string when it has none.
pub open spec fn label_of(it: CompletionItem) -> Seq<char> {
    match it.label {
        Some(l) => l@,
        None => Seq::empty(),
    }
}

/// The method name an item carries: its label up to the first `(`, trimmed.
pub open spec fn item_name(it: CompletionItem) -> Seq<char> {
    trim(before_char(label_of(it), '('))
}

/// An item that yields a method: kind `Method` and a non-empty name.
pub open spec fn yields_method(it: CompletionItem) -> bool {
    it.kind == Some(KIND_METHOD) && item_name(it).len() > 0
}

/// `m` is the method built from `it`.
pub open spec fn method_of(it: CompletionItem, m: Method) -> bool {
    &&& yields_method(it)
    &&& m.name@ == item_name(it)
    &&& m.detail == it.detail
    &&& m.documentation == it.documentation
}

/// Names strictly increase along `ms`: sorted, no name twice.
pub open spec fn strictly_sorted(ms: Seq<Method>) -> bool {
    forall|a: int, b: int| 0 <= a < b < ms.len() ==> lex_lt(ms[a].name@, ms[b].name@)
}

/// `m` is the method built from some item of `items`.
pub open spec fn from_some_item(items: Seq<CompletionItem>, m: Method) -> bool {
    exists|j: int| 0 <= j < items.len() && method_of(items[j], m)
}

/// `ms` is what `parse_methods` makes of `items`: the method items, one per
/// distinct name, sorted by name.
pub open spec fn methods_from(items: Seq<CompletionItem>, ms: Seq<Method>) -> bool {
    &&& strictly_sorted(ms)
    &&& forall|k: int| 0 <= k < ms.len() ==> from_some_item(items, #[trigger] ms[k])
    &&& forall|j: int| 0 <= j < items.len() && yields_method(#[trigger] items[j]) ==> exists|k: int|
        0 <= k < ms.len() && ms[k].name@ == item_name(items[j])
}

/// The method name an item carries (see [`item_name`]).
fn item_name_exec(it: &CompletionItem) -> (r: Vec<char>)
    ensures
        r@ == item_name(*it),
{
    let label = match &it.label {
        Some(l) => chars_of(l.as_str()),
        None => Vec::new(),
    };
    assert(label@ == label_of(*it));
    let head = match find_char_exec(&label, '(') {
        Some(i) => {
            proof {
                lemma_find_char(label@, '(');
            }
            slice(&label, 0, i)
        },
        None => slice(&label, 0, label.len()),
    };
    assert(label@.subrange(0, label@.len() as int) =~= label@);
    trim_exec(&head)
}

/// Where `name` belongs in `out`, which is strictly sorted by name: every
/// name before `pos` is smaller; `found` tells whether `out[pos]` has it.
fn search_sorted(out: &Vec<Method>, name: &Vec<char>) -> (r: (usize, bool))
    requires
        strictly_sorted(out@),
    ensures
        r.0 <= out@.len(),
        forall|k: int| 0 <= k < r.0 ==> lex_lt(#[trigger] out@[k].name@, name@),
        r.1 ==> r.0 < out@.len() && out@[r.0 as int].name@ == name@,
        !r.1 ==> forall|k: int| r.0 <= k < out@.len() ==> lex_lt(name@, #[trigger] out@[k].name@),
{
    let mut pos: usize = 0;
    while pos < out.len()
        invariant
            strictly_sorted(out@),
            pos <= out@.len(),
            forall|k: int| 0 <= k < pos ==> lex_lt(#[trigger] out@[k].name@, name@),
        decreases out@.len() - pos,
    {
        let other = chars_of(out[pos].name.as_str());
        let c = compare_exec(&other, name);
        if c == -1 {
            pos = pos + 1;
        } else if c == 0 {
            return (pos, true);
        } else {
            proof {
                assert forall|k: int| pos <= k < out@.len() implies lex_lt(name@, #[trigger] out@[k].name@) by {
                    if k > pos {
                        lemma_lex_trans(name@, out@[pos as int].name@, out@[k].name@);
                    }
                }
            }
            return (pos, false);
        }
    }
    (pos, false)
}

/// Adds `m` to `out`, kept strictly sorted by name, unless a method of the
/// same name is already there.
fn insert_sorted(out: &mut Vec<Method>, m: Method)
    requires
        strictly_sorted(old(out)@),
    ensures
        strictly_sorted(final(out)@),
        forall|x: Method| #[trigger] final(out)@.contains(x) ==> old(out)@.contains(x) || x == m,
        forall|x: Method| #[trigger] old(out)@.contains(x) ==> final(out)@.contains(x),
        exists|k: int| 0 <= k < final(out)@.len() && #[trigger] final(out)@[k].name@ == m.name@,
{
    let name = chars_of(m.name.as_str());
    let (pos, found) = search_sorted(out, &name);
    if found {
        return;
    }
    let ghost before = out@;
    out.insert(pos, m);
    proof {
        assert(out@ =~= before.insert(pos as int, m));
        assert forall|a: int, b: int| 0 <= a < b < out@.len() implies lex_lt(out@[a].name@, out@[b].name@) by {
            if a < pos && b > pos {
                lemma_lex_trans(out@[a].name@, name@, out@[b].name@);
            } else if a < pos && b < pos {
                assert(out@[a] == before[a] && out@[b] == before[b]);
            } else if a > pos {
                assert(out@[a] == before[a - 1] && out@[b] == before[b - 1]);
            } else if a == pos {
                assert(out@[b] == before[b - 1]);
            } else {
                assert(out@[a] == before[a]);
            }
        }
        assert forall|x: Method| #[trigger] out@.contains(x) implies before.contains(x) || x == m by {
            let k = choose|k: int| 0 <= k < out@.len() && out@[k] == x;
            if k < pos {
                assert(before[k] == x);
            } else if k > pos {
                assert(before[k - 1] == x);
            }
        }
        assert forall|x: Method| #[trigger] before.contains(x) implies out@.contains(x) by {
            let k = choose|k: int| 0 <= k < before.len() && before[k] == x;
            if k < pos {
                assert(out@[k] == x);
            } else {
                assert(out@[k + 1] == x);
            }
        }
        assert(out@[pos as int].name@ == m.name@);
    }
}

/// Turns a completion response into its methods.
///
/// Items whose kind is not `Method`, or whose label yields an empty name,
/// are skipped. The name is the label up to the first `(`, trimmed. The
/// result is sorted by name with one method per name.
///
/// # Errors
///
/// `UnexpectedResponseShape` with the response's text when `result` is
/// neither an array nor an object with an `items` array.
pub fn parse_methods(response: &CompletionResponse) -> (r: Result<Vec<Method>, RustMethError>)
    ensures
        match response.result {
            CompletionResult::Array(items) => r matches Ok(ms) && methods_from(items@, ms@),
            CompletionResult::ItemList(items) => r matches Ok(ms) && methods_from(items@, ms@),
            CompletionResult::Other => r == Err::<Vec<Method>, RustMethError>(
                RustMethError::UnexpectedResponseShape(response.text),
            ),
        },
{
    match &response.result {
        CompletionResult::Array(items) => Ok(methods_of_items(items)),
        CompletionResult::ItemList(items) => Ok(methods_of_items(items)),
        CompletionResult::Other => Err(RustMethError::UnexpectedResponseShape(response.text.clone())),
    }
}

/// The methods of a completion list (see [`methods_from`]).
fn methods_of_items(items: &Vec<CompletionItem>) -> (r: Vec<Method>)
    ensures
        methods_from(items@, r@),
{
    let mut out: Vec<Method> = Vec::new();
    let mut j: usize = 0;
    while j < items.len()
        invariant
            j <= items@.len(),
            strictly_sorted(out@),
            forall|x: Method| #[trigger] out@.contains(x) ==> exists|i: int| 0 <= i < j && method_of(items@[i], x),
            forall|i: int| 0 <= i < j && yields_method(#[trigger] items@[i]) ==> exists|k: int|
                0 <= k < out@.len() && out@[k].name@ == item_name(items@[i]),
        decreases items@.len() - j,
    {
        let it = &items[j];
        if it.kind == Some(KIND_METHOD) {
            let name = item_name_exec(it);
            if name.len() > 0 {
                let m = Method {
                    name: string_from(&name),
                    detail: clone_opt_string(&it.detail),
                    documentation: clone_opt_string(&it.documentation),
                };
                assert(method_of(items@[j as int], m));
                let ghost before = out@;
                insert_sorted(&mut out, m);
                proof {
                    assert forall|x: Method| #[trigger] out@.contains(x) implies exists|i: int| 0 <= i < j + 1 && method_of(items@[i], x) by {
                        if before.contains(x) {
                            let i = choose|i: int| 0 <= i < j && method_of(items@[i], x);
                        } else {
                            assert(method_of(items@[j as int], x));
                        }
                    }
                    assert forall|i: int| 0 <= i < j + 1 && yields_method(#[trigger] items@[i]) implies exists|k: int|
                        0 <= k < out@.len() && out@[k].name@ == item_name(items@[i]) by {
                        if i < j {
                            let k0 = choose|k: int| 0 <= k < before.len() && before[k].name@ == item_name(items@[i]);
                            assert(before.contains(before[k0]));
                            assert(out@.contains(before[k0]));
                        }
                    }
                }
            }
        }
        j = j + 1;
    }
    assert forall|k: int| 0 <= k < out@.len() implies from_some_item(items@, #[trigger] out@[k]) by {
        assert(out@.contains(out@[k]));
        let i = choose|i: int| 0 <= i < j && method_of(items@[i], out@[k]);
        assert(0 <= i < items@.len() && method_of(items@[i], out@[k]));
    }
    out
}


/// A location entry of a definition response, reduced to what the parser
/// reads: the `uri` string and the `range.start.line` number.
pub struct Location {
    pub uri: Option<String>,
    pub line: Option<u64>,
}

/// The `result` member of a definition response.
pub enum DefinitionResult {
    /// `result` is a JSON array; its first element (if any) reduced to a location.
    Array(Vec<Location>),
    /// `result` is a single object.
    Object(Location),
    /// Anything else (`null`, a string, ...).
    Other,
}

/// The location a definition response designates, if any.
pub open spec fn chosen_location(r: DefinitionResult) -> Option<Location> {
    match r {
        DefinitionResult::Array(v) => if v@.len() > 0 { Some(v@[0]) } else { None },
        DefinitionResult::Object(l) => Some(l),
        DefinitionResult::Other => None,
    }
}

/// The line a location names (0 when absent).
pub open spec fn line_of(l: Location) -> u64 {
    match l.line {
        Some(n) => n,
        None => 0,
    }
}

/// A URI with its `file://` scheme removed, when it has one.
pub open spec fn strip_file_scheme(uri: Seq<char>) -> Seq<char> {
    if has_prefix(uri, "file://"@) {
        uri.subrange("file://"@.len() as int, uri.len() as int)
    } else {
        uri
    }
}

/// The display path: from just after the first `/library/`, else from just
/// after the first `/src/`, else the whole path.
pub open spec fn display_path(full: Seq<char>) -> Seq<char> {
    match find(full, "/library/"@) {
        Some(i) => full.subrange(i + 1, full.len() as int),
        None => match find(full, "/src/"@) {
            Some(i) => full.subrange(i + 1, full.len() as int),
            None => full,
        },
    }
}

/// The definition a response yields: none without a location or with an
/// empty or missing URI; otherwise the display path, the full path and the line.
pub open spec fn definition_spec(r: DefinitionResult, d: Option<Definition>) -> bool {
    match chosen_location(r) {
        None => d is None,
        Some(l) => match l.uri {
            None => d is None,
            Some(u) => if u@.len() == 0 {
                d is None
            } else {
                d matches Some(def) && def.full_path@ == strip_file_scheme(u@) && def.path@
                    == display_path(strip_file_scheme(u@)) && def.line as u64 == line_of(l)
            },
        },
    }
}

/// The line of the location the response designates fits in a `u32`,
/// when that location has a non-empty URI (only then is the line read).
pub open spec fn line_fits(r: DefinitionResult) -> bool {
    match chosen_location(r) {
        Some(l) => (l.uri matches Some(u) && u@.len() > 0) ==> line_of(l) <= u32::MAX,
        None => true,
    }
}

/// Turns a definition response into a [`Definition`].
///
/// The first location of an array result, or the single location of an
/// object result, is used. No definition comes back for any other result,
/// an empty array, or a missing or empty URI.
pub fn parse_definition(result: &DefinitionResult) -> (r: Option<Definition>)
    requires
        line_fits(*result),
    ensures
        definition_spec(*result, r),
{
    let loc = match result {
        DefinitionResult::Array(v) => {
            if v.len() == 0 {
                return None;
            }
            &v[0]
        },
        DefinitionResult::Object(l) => l,
        DefinitionResult::Other => {
            return None;
        },
    };
    let uri = match &loc.uri {
        Some(u) => chars_of(u.as_str()),
        None => {
            return None;
        },
    };
    if uri.len() == 0 {
        return None;
    }
    let line: u64 = match loc.line {
        Some(n) => n,
        None => 0,
    };
    let scheme = chars_of("file://");
    let full = if starts_with_exec(&uri, &scheme) {
        slice(&uri, scheme.len(), uri.len())
    } else {
        slice(&uri, 0, uri.len())
    };
    assert(uri@.subrange(0, uri@.len() as int) =~= uri@);
    let lib = chars_of("/library/");
    let src = chars_of("/src/");
    proof {
        reveal_strlit("/library/");
        reveal_strlit("/src/");
    }
    let path = match find_exec(&full, &lib) {
        Some(i) => {
            proof {
                crate::text::lemma_find(full@, lib@);
            }
            slice(&full, i + 1, full.len())
        },
        None => match find_exec(&full, &src) {
            Some(i) => {
                proof {
                    crate::text::lemma_find(full@, src@);
                }
                slice(&full, i + 1, full.len())
            },
            None => slice(&full, 0, full.len()),
        },
    };
    assert(full@.subrange(0, full@.len() as int) =~= full@);
    Some(Definition { path: string_from(&path), full_path: string_from(&full), line: line as u32 })
}

/// Law: the parser lists only what the analyzer offered as methods. Every
/// parsed method carries the name of a completion item of kind 2
/// (`CompletionItemKind::Method`); snippets (kind 15, such as the postfix
/// `dbg`, `match`, `if`), keywords, fields and the rest never become methods.
/// Conversely, every method item with a name is listed under that name.
pub proof fn lemma_parsed_methods_are_method_items(items: Seq<CompletionItem>, ms: Seq<Method>)
    requires
        methods_from(items, ms),
    ensures
        forall|k: int|
            0 <= k < ms.len() ==> exists|j: int|
                0 <= j < items.len() && items[j].kind == Some(2u64) && item_name(items[j]) == (
                #[trigger] ms[k]).name@,
        forall|j: int|
            0 <= j < items.len() && (#[trigger] items[j]).kind == Some(2u64) && item_name(items[j]).len() > 0
                ==> exists|k: int| 0 <= k < ms.len() && ms[k].name@ == item_name(items[j]),
        forall|j: int|
            0 <= j < items.len() && (#[trigger] items[j]).kind != Some(2u64) ==> forall|k: int|
                0 <= k < ms.len() && ms[k].name@ == item_name(items[j]) ==> exists|i: int|
                    0 <= i < items.len() && items[i].kind == Some(2u64) && item_name(items[i]) == item_name(
                        items[j],
                    ),
{
    assert forall|k: int| 0 <= k < ms.len() implies exists|j: int|
        0 <= j < items.len() && items[j].kind == Some(2u64) && item_name(items[j]) == (#[trigger] ms[k]).name@ by {
        assert(from_some_item(items, ms[k]));
        let j = choose|j: int| 0 <= j < items.len() && method_of(items[j], ms[k]);
        assert(items[j].kind == Some(2u64));
    }
}

} // verus!
