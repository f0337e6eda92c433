//! Documentation links and editor commands for a method's definition.
use vstd::prelude::*;
use crate::analyzer::Definition;
use crate::args::arg_views;
use crate::text::{
    chars_of, push_str, push_all, string_from, slice, find_exec, find_char_exec, contains_exec,
    replace_char_exec, dec_exec, same_text, before_char, find, find_char, contains, replace_char,
    is_ascii_digit, dec,
};

verus! {

// ---------------------------------------------------------------------------
// Specifications
// ---------------------------------------------------------------------------

/// A type expression without its generic arguments: the part before the
/// first `<`.
pub open spec fn bare_type(ty: Seq<char>) -> Seq<char> {
    before_char(ty, '<')
}

/// A path inside the standard library's sources.
pub open spec fn is_stdlib_path_spec(p: Seq<char>) -> bool {
    contains(p, "/library/core/"@) || contains(p, "/library/std/"@) || contains(p, "/library/alloc/"@)
}

/// The names of the primitive types. They are all lower case already.
pub open spec fn is_primitive(t: Seq<char>) -> bool {
    t == "u8"@ || t == "u16"@ || t == "u32"@ || t == "u64"@ || t == "u128"@ || t == "usize"@
        || t == "i8"@ || t == "i16"@ || t == "i32"@ || t == "i64"@ || t == "i128"@ || t
        == "isize"@ || t == "f32"@ || t == "f64"@ || t == "bool"@ || t == "char"@ || t == "str"@
}

/// The module path and item kind under which std documents a type.
pub open spec fn stdlib_info_spec(t: Seq<char>) -> (Seq<char>, Seq<char>) {
    if is_primitive(t) {
        ("primitive"@, "primitive"@)
    } else if t == "String"@ {
        ("string"@, "struct"@)
    } else if t == "Vec"@ {
        ("vec"@, "struct"@)
    } else if t == "Box"@ {
        ("boxed"@, "struct"@)
    } else if t == "Rc"@ {
        ("rc"@, "struct"@)
    } else if t == "Arc"@ {
        ("sync"@, "struct"@)
    } else if t == "HashMap"@ {
        ("collections/hash_map"@, "struct"@)
    } else if t == "HashSet"@ {
        ("collections/hash_set"@, "struct"@)
    } else if t == "BTreeMap"@ {
        ("collections/btree_map"@, "struct"@)
    } else if t == "BTreeSet"@ {
        ("collections/btree_set"@, "struct"@)
    } else if t == "VecDeque"@ {
        ("collections/vec_deque"@, "struct"@)
    } else if t == "LinkedList"@ {
        ("collections/linked_list"@, "struct"@)
    } else if t == "BinaryHeap"@ {
        ("collections/binary_heap"@, "struct"@)
    } else if t == "Option"@ {
        ("option"@, "enum"@)
    } else if t == "Result"@ {
        ("result"@, "enum"@)
    } else {
        (""@, "struct"@)
    }
}

/// Position of the last `c` in `s`.
pub open spec fn rfind_char(s: Seq<char>, c: char) -> Option<int>
    decreases s.len(),
{
    if s.len() == 0 {
        None
    } else if s.last() == c {
        Some(s.len() - 1)
    } else {
        rfind_char(s.drop_last(), c)
    }
}

/// `s` begins with an ASCII digit.
pub open spec fn starts_with_digit(s: Seq<char>) -> bool {
    s.len() > 0 && is_ascii_digit(s[0])
}

/// `s` with its trailing `-`-separated parts that begin with a digit removed,
/// reading at most `splits` further dashes from the right. A last part that
/// would be removed as well leaves nothing.
pub open spec fn strip_version_from(s: Seq<char>, splits: nat) -> Seq<char>
    decreases splits,
{
    match rfind_char(s, '-') {
        Some(p) if splits > 0 => {
            if starts_with_digit(s.subrange(p + 1, s.len() as int)) {
                strip_version_from(s.subrange(0, p), (splits - 1) as nat)
            } else {
                s
            }
        },
        _ => if starts_with_digit(s) {
            Seq::empty()
        } else {
            s
        },
    }
}

/// A crate directory name without its version: `serde_json-1.0.2` becomes
/// `serde_json`. The name is split at dashes from the right into at most
/// ten parts (`rsplitn(10, '-')`).
pub open spec fn strip_version_spec(s: Seq<char>) -> Seq<char> {
    strip_version_from(s, 9)
}

/// The crate that a path inside Cargo's registry sources belongs to, with
/// dashes turned into underscores.
pub open spec fn crate_name_spec(full: Seq<char>) -> Option<Seq<char>> {
    match find(full, "/registry/src/"@) {
        None => None,
        Some(idx) => {
            let after_registry = full.subrange(idx + "/registry/src/"@.len(), full.len() as int);
            match find_char(after_registry, '/') {
                None => None,
                Some(j) => {
                    let after_index = after_registry.subrange(j + 1, after_registry.len() as int);
                    let crate_dir = before_char(after_index, '/');
                    Some(replace_char(strip_version_spec(crate_dir), '-', '_'))
                },
            }
        },
    }
}

/// The documentation URL of a method whose definition is at `full`.
pub open spec fn doc_url_spec(ty: Seq<char>, method: Seq<char>, full: Seq<char>) -> Seq<char> {
    let bare = bare_type(ty);
    if is_stdlib_path_spec(full) {
        let (base, kind) = stdlib_info_spec(bare);
        if base == "primitive"@ {
            "https://doc.rust-lang.org/std/primitive."@ + bare + ".html#method."@ + method
        } else if base.len() == 0 {
            "https://doc.rust-lang.org/std/"@ + kind + "."@ + bare + ".html#method."@ + method
        } else {
            "https://doc.rust-lang.org/std/"@ + base + "/"@ + kind + "."@ + bare
                + ".html#method."@ + method
        }
    } else {
        match crate_name_spec(full) {
            Some(c) => "https://docs.rs/"@ + c + "/latest/"@ + c + "/"@ + "struct"@ + "."@ + bare
                + ".html#method."@ + method,
            None => "https://docs.rs/releases/search?query="@ + ty + "+"@ + method,
        }
    }
}

/// The documentation URL of a method found without a definition lookup.
pub open spec fn explain_url_spec(ty: Seq<char>, method: Seq<char>) -> Seq<char> {
    let bare = bare_type(ty);
    if is_primitive(bare) {
        "https://doc.rust-lang.org/std/primitive."@ + bare + ".html#method."@ + method
    } else if bare == "String"@ {
        "https://doc.rust-lang.org/std/string/struct.String.html#method."@ + method
    } else if bare == "Vec"@ {
        "https://doc.rust-lang.org/std/vec/struct.Vec.html#method."@ + method
    } else if bare == "Option"@ {
        "https://doc.rust-lang.org/std/option/enum.Option.html#method."@ + method
    } else if bare == "Result"@ {
        "https://doc.rust-lang.org/std/result/enum.Result.html#method."@ + method
    } else if bare == "HashMap"@ {
        "https://doc.rust-lang.org/std/collections/hash_map/struct.HashMap.html#method."@ + method
    } else if bare == "HashSet"@ {
        "https://doc.rust-lang.org/std/collections/hash_set/struct.HashSet.html#method."@ + method
    } else {
        "https://docs.rs/releases/search?query="@ + bare + "+"@ + method
    }
}

// ---------------------------------------------------------------------------
// Implementation
// ---------------------------------------------------------------------------

/// The part of `s` before the first `c`.
fn before_char_exec(s: &Vec<char>, c: char) -> (r: Vec<char>)
    ensures
        r@ == before_char(s@, c),
{
    match find_char_exec(s, c) {
        Some(i) => {
            proof {
                crate::text::lemma_find_char(s@, c);
            }
            slice(s, 0, i)
        },
        None => slice(s, 0, s.len()),
    }
}

/// Whether a path lies inside the standard library's sources.
pub fn is_stdlib_path(full_path: &str) -> (b: bool)
    ensures
        b == is_stdlib_path_spec(full_path@),
{
    let p = chars_of(full_path);
    contains_exec(&p, &chars_of("/library/core/")) || contains_exec(&p, &chars_of("/library/std/"))
        || contains_exec(&p, &chars_of("/library/alloc/"))
}

fn is_primitive_exec(t: &str) -> (b: bool)
    ensures
        b == is_primitive(t@),
{
    same_text(t, "u8") || same_text(t, "u16") || same_text(t, "u32") || same_text(t, "u64")
        || same_text(t, "u128") || same_text(t, "usize") || same_text(t, "i8") || same_text(t, "i16")
        || same_text(t, "i32") || same_text(t, "i64") || same_text(t, "i128") || same_text(
        t,
        "isize",
    ) || same_text(t, "f32") || same_text(t, "f64") || same_text(t, "bool") || same_text(t, "char")
        || same_text(t, "str")
}

/// The module path and item kind under which std documents `bare_type`.
pub fn stdlib_type_info(bare_type: &str) -> (r: (&'static str, &'static str))
    ensures
        (r.0@, r.1@) == stdlib_info_spec(bare_type@),
{
    if is_primitive_exec(bare_type) {
        ("primitive", "primitive")
    } else if same_text(bare_type, "String") {
        ("string", "struct")
    } else if same_text(bare_type, "Vec") {
        ("vec", "struct")
    } else if same_text(bare_type, "Box") {
        ("boxed", "struct")
    } else if same_text(bare_type, "Rc") {
        ("rc", "struct")
    } else if same_text(bare_type, "Arc") {
        ("sync", "struct")
    } else if same_text(bare_type, "HashMap") {
        ("collections/hash_map", "struct")
    } else if same_text(bare_type, "HashSet") {
        ("collections/hash_set", "struct")
    } else if same_text(bare_type, "BTreeMap") {
        ("collections/btree_map", "struct")
    } else if same_text(bare_type, "BTreeSet") {
        ("collections/btree_set", "struct")
    } else if same_text(bare_type, "VecDeque") {
        ("collections/vec_deque", "struct")
    } else if same_text(bare_type, "LinkedList") {
        ("collections/linked_list", "struct")
    } else if same_text(bare_type, "BinaryHeap") {
        ("collections/binary_heap", "struct")
    } else if same_text(bare_type, "Option") {
        ("option", "enum")
    } else if same_text(bare_type, "Result") {
        ("result", "enum")
    } else {
        ("", "struct")
    }
}

/// The item kind used for third-party types on docs.rs.
pub fn third_party_kind(bare_type: &str) -> (r: &'static str)
    ensures
        r@ == "struct"@,
{
    "struct"
}

/// Position of the last `c` in `s`.
fn rfind_char_exec(s: &Vec<char>, c: char) -> (r: Option<usize>)
    ensures
        r matches Some(k) ==> rfind_char(s@, c) == Some(k as int),
        r is None ==> rfind_char(s@, c) is None,
{
    let mut k = s.len();
    assert(s@.subrange(0, k as int) =~= s@);
    while k > 0
        invariant
            k <= s@.len(),
            rfind_char(s@.subrange(0, k as int), c) == rfind_char(s@, c),
        decreases k,
    {
        assert(s@.subrange(0, k as int).drop_last() =~= s@.subrange(0, k - 1));
        if s[k - 1] == c {
            return Some(k - 1);
        }
        k = k - 1;
    }
    None
}

/// A crate directory name without its version suffix (see
/// [`strip_version_spec`]).
pub fn strip_version_suffix(crate_dir: &str) -> (r: String)
    ensures
        r@ == strip_version_spec(crate_dir@),
{
    let mut cur = chars_of(crate_dir);
    let mut splits: u32 = 9;
    loop
        invariant
            splits <= 9,
            strip_version_from(cur@, splits as nat) == strip_version_spec(crate_dir@),
        decreases splits,
    {
        let dash = rfind_char_exec(&cur, '-');
        proof {
            lemma_rfind_in_bounds(cur@, '-');
        }
        match dash {
            Some(p) if splits > 0 => {
                assert(rfind_char(cur@, '-') == Some(p as int));
                assert(p < cur@.len());
                assert(p < cur.len());
                let tail_digit = p + 1 < cur.len() && '0' <= cur[p + 1] && cur[p + 1] <= '9';
                assert(tail_digit == starts_with_digit(cur@.subrange(p + 1, cur@.len() as int)));
                if tail_digit {
                    cur = slice(&cur, 0, p);
                    splits = splits - 1;
                } else {
                    return string_from(&cur);
                }
            },
            _ => {
                if cur.len() > 0 && '0' <= cur[0] && cur[0] <= '9' {
                    return string_from(&Vec::new());
                } else {
                    return string_from(&cur);
                }
            },
        }
    }
}

proof fn lemma_rfind_in_bounds(s: Seq<char>, c: char)
    ensures
        rfind_char(s, c) matches Some(p) ==> 0 <= p < s.len() && s[p] == c,
    decreases s.len(),
{
    if s.len() > 0 && s.last() != c {
        lemma_rfind_in_bounds(s.drop_last(), c);
    }
}

/// The crate that a registry source path belongs to (see
/// [`crate_name_spec`]).
pub fn cargo_crate_name(full_path: &str) -> (r: Option<String>)
    ensures
        r matches Some(c) ==> crate_name_spec(full_path@) == Some(c@),
        r is None ==> crate_name_spec(full_path@) is None,
{
    let full = chars_of(full_path);
    let marker = chars_of("/registry/src/");
    let found = find_exec(&full, &marker);
    if found.is_none() {
        return None;
    }
    let idx = found.unwrap();
    proof {
        crate::text::lemma_find(full@, marker@);
        assert(find(full@, marker@) == Some(idx as int));
        assert(crate::text::occurs_at(full@, marker@, idx as int));
        assert(idx + marker.len() <= full.len());
    }
    let after_registry = slice(&full, idx + marker.len(), full.len());
    let slash = find_char_exec(&after_registry, '/');
    if slash.is_none() {
        return None;
    }
    let j = slash.unwrap();
    proof {
        crate::text::lemma_find_char(after_registry@, '/');
    }
    let after_index = slice(&after_registry, j + 1, after_registry.len());
    let crate_dir = before_char_exec(&after_index, '/');
    let stripped = strip_version_suffix(string_from(&crate_dir).as_str());
    let name = replace_char_exec(&chars_of(stripped.as_str()), '-', '_');
    Some(string_from(&name))
}

/// The documentation URL for `method_name` on `type_expr`, given where the
/// method is defined: std's documentation for the standard library, docs.rs
/// for a registry crate, else a docs.rs search.
pub fn build_doc_url(type_expr: &str, method_name: &str, def: &Definition) -> (r: String)
    ensures
        r@ == doc_url_spec(type_expr@, method_name@, def.full_path@),
{
    let ty = chars_of(type_expr);
    let bare_v = before_char_exec(&ty, '<');
    let bare_s = string_from(&bare_v);
    let bare = bare_s.as_str();
    let mut v: Vec<char> = Vec::new();
    if is_stdlib_path(def.full_path.as_str()) {
        let (base, kind) = stdlib_type_info(bare);
        if same_text(base, "primitive") {
            push_str(&mut v, "https://doc.rust-lang.org/std/primitive.");
            push_str(&mut v, bare);
        } else if base.unicode_len() == 0 {
            push_str(&mut v, "https://doc.rust-lang.org/std/");
            push_str(&mut v, kind);
            push_str(&mut v, ".");
            push_str(&mut v, bare);
        } else {
            push_str(&mut v, "https://doc.rust-lang.org/std/");
            push_str(&mut v, base);
            push_str(&mut v, "/");
            push_str(&mut v, kind);
            push_str(&mut v, ".");
            push_str(&mut v, bare);
        }
        push_str(&mut v, ".html#method.");
        push_str(&mut v, method_name);
    } else {
        match cargo_crate_name(def.full_path.as_str()) {
            Some(c) => {
                let kind = third_party_kind(bare);
                push_str(&mut v, "https://docs.rs/");
                push_str(&mut v, c.as_str());
                push_str(&mut v, "/latest/");
                push_str(&mut v, c.as_str());
                push_str(&mut v, "/");
                push_str(&mut v, kind);
                push_str(&mut v, ".");
                push_str(&mut v, bare);
                push_str(&mut v, ".html#method.");
                push_str(&mut v, method_name);
            },
            None => {
                push_str(&mut v, "https://docs.rs/releases/search?query=");
                push_str(&mut v, type_expr);
                push_str(&mut v, "+");
                push_str(&mut v, method_name);
            },
        }
    }
    string_from(&v)
}

/// A best-effort documentation URL for `method_name` on `type_expr` that
/// needs no definition lookup.
pub fn build_explain_url(type_expr: &str, method_name: &str) -> (r: String)
    ensures
        r@ == explain_url_spec(type_expr@, method_name@),
{
    let ty = chars_of(type_expr);
    let bare_v = before_char_exec(&ty, '<');
    let bare_s = string_from(&bare_v);
    let bare = bare_s.as_str();
    let mut v: Vec<char> = Vec::new();
    if is_primitive_exec(bare) {
        push_str(&mut v, "https://doc.rust-lang.org/std/primitive.");
        push_str(&mut v, bare);
        push_str(&mut v, ".html#method.");
    } else if same_text(bare, "String") {
        push_str(&mut v, "https://doc.rust-lang.org/std/string/struct.String.html#method.");
    } else if same_text(bare, "Vec") {
        push_str(&mut v, "https://doc.rust-lang.org/std/vec/struct.Vec.html#method.");
    } else if same_text(bare, "Option") {
        push_str(&mut v, "https://doc.rust-lang.org/std/option/enum.Option.html#method.");
    } else if same_text(bare, "Result") {
        push_str(&mut v, "https://doc.rust-lang.org/std/result/enum.Result.html#method.");
    } else if same_text(bare, "HashMap") {
        push_str(
            &mut v,
            "https://doc.rust-lang.org/std/collections/hash_map/struct.HashMap.html#method.",
        );
    } else if same_text(bare, "HashSet") {
        push_str(
            &mut v,
            "https://doc.rust-lang.org/std/collections/hash_set/struct.HashSet.html#method.",
        );
    } else {
        push_str(&mut v, "https://docs.rs/releases/search?query=");
        push_str(&mut v, bare);
        push_str(&mut v, "+");
    }
    push_str(&mut v, method_name);
    string_from(&v)
}

/// The arguments that open `path` at the 0-based `line` in `editor`:
/// `path:line` for Helix, `--goto path:line` for VS Code, `+line path` for
/// anything else (lines counted from 1).
pub open spec fn editor_args_spec(editor: Seq<char>, path: Seq<char>, line: u32) -> Seq<Seq<char>> {
    let shown = dec(line as nat + 1);
    let at = path + ":"@ + shown;
    if editor == "hx"@ || editor == "helix"@ {
        seq![at]
    } else if editor == "code"@ || editor == "code-insiders"@ {
        seq!["--goto"@, at]
    } else {
        seq!["+"@ + shown, path]
    }
}

/// The editor to open a definition with, and its arguments. `editor_var`
/// and `visual_var` are the values of `$EDITOR` and `$VISUAL`; the first
/// that is set is used.
pub fn editor_command(editor_var: Option<String>, visual_var: Option<String>, def: &Definition) -> (r:
    Result<(String, Vec<String>), String>)
    ensures
        match r {
            Ok((editor, args)) => {
                &&& (editor_var matches Some(e) ==> editor@ == e@)
                &&& (editor_var is None ==> (visual_var matches Some(v) && editor@ == v@))
                &&& arg_views(args@) == editor_args_spec(editor@, def.full_path@, def.line)
            },
            Err(msg) => editor_var is None && visual_var is None && msg@
                == "$EDITOR and $VISUAL are not set"@,
        },
{
    let editor = match editor_var {
        Some(e) => e,
        None => match visual_var {
            Some(v) => v,
            None => return Err(crate::text::owned("$EDITOR and $VISUAL are not set")),
        },
    };
    let shown = dec_exec(def.line as u64 + 1);
    let mut at = chars_of(def.full_path.as_str());
    push_str(&mut at, ":");
    push_all(&mut at, &shown);
    let mut args: Vec<String> = Vec::new();
    if same_text(editor.as_str(), "hx") || same_text(editor.as_str(), "helix") {
        args.push(string_from(&at));
    } else if same_text(editor.as_str(), "code") || same_text(editor.as_str(), "code-insiders") {
        args.push(crate::text::owned("--goto"));
        args.push(string_from(&at));
    } else {
        let mut plus: Vec<char> = Vec::new();
        push_str(&mut plus, "+");
        push_all(&mut plus, &shown);
        args.push(string_from(&plus));
        args.push(def.full_path.clone());
    }
    assert(arg_views(args@) =~= editor_args_spec(editor@, def.full_path@, def.line));
    Ok((editor, args))
}

/// Law: stripping a version suffix keeps a prefix of the crate directory's
/// name.
pub proof fn lemma_strip_version_is_prefix(s: Seq<char>, splits: nat)
    ensures
        strip_version_from(s, splits).len() <= s.len(),
        strip_version_from(s, splits) == s.subrange(0, strip_version_from(s, splits).len() as int),
    decreases splits,
{
    lemma_rfind_in_bounds(s, '-');
    match rfind_char(s, '-') {
        Some(p) => {
            if splits > 0 && starts_with_digit(s.subrange(p + 1, s.len() as int)) {
                let t = s.subrange(0, p);
                lemma_strip_version_is_prefix(t, (splits - 1) as nat);
                let r = strip_version_from(t, (splits - 1) as nat);
                assert(r =~= s.subrange(0, r.len() as int));
            } else if splits > 0 {
                assert(s =~= s.subrange(0, s.len() as int));
            } else {
                assert(s =~= s.subrange(0, s.len() as int));
                assert(Seq::<char>::empty() =~= s.subrange(0, 0));
            }
        },
        None => {
            assert(s =~= s.subrange(0, s.len() as int));
            assert(Seq::<char>::empty() =~= s.subrange(0, 0));
        },
    }
}

/// Two words that differ in length or at some position are different.
proof fn lemma_words_differ(a: Seq<char>, b: Seq<char>, i: int)
    requires
        a.len() != b.len() || (0 <= i < a.len() && i < b.len() && a[i] != b[i]),
    ensures
        a != b,
{
}

/// The primitive type names all start with a lower-case letter, so a name
/// that starts with an upper-case one is not primitive.
proof fn lemma_capitalised_not_primitive(t: Seq<char>)
    requires
        t.len() > 0,
        'A' <= t[0] <= 'Z',
    ensures
        !is_primitive(t),
{
    reveal_strlit("u8");
    reveal_strlit("u16");
    reveal_strlit("u32");
    reveal_strlit("u64");
    reveal_strlit("u128");
    reveal_strlit("usize");
    reveal_strlit("i8");
    reveal_strlit("i16");
    reveal_strlit("i32");
    reveal_strlit("i64");
    reveal_strlit("i128");
    reveal_strlit("isize");
    reveal_strlit("f32");
    reveal_strlit("f64");
    reveal_strlit("bool");
    reveal_strlit("char");
    reveal_strlit("str");
    lemma_words_differ(t, "u8"@, 0);
    lemma_words_differ(t, "u16"@, 0);
    lemma_words_differ(t, "u32"@, 0);
    lemma_words_differ(t, "u64"@, 0);
    lemma_words_differ(t, "u128"@, 0);
    lemma_words_differ(t, "usize"@, 0);
    lemma_words_differ(t, "i8"@, 0);
    lemma_words_differ(t, "i16"@, 0);
    lemma_words_differ(t, "i32"@, 0);
    lemma_words_differ(t, "i64"@, 0);
    lemma_words_differ(t, "i128"@, 0);
    lemma_words_differ(t, "isize"@, 0);
    lemma_words_differ(t, "f32"@, 0);
    lemma_words_differ(t, "f64"@, 0);
    lemma_words_differ(t, "bool"@, 0);
    lemma_words_differ(t, "char"@, 0);
    lemma_words_differ(t, "str"@, 0);
}

/// std documents `String` in module `string` as a struct.
proof fn lemma_std_info_string()
    ensures
        stdlib_info_spec("String"@).0 == "string"@,
        stdlib_info_spec("String"@).1 == "struct"@,
        "string"@ != "primitive"@,
        "string"@.len() > 0,
{
    reveal_strlit("String");
    reveal_strlit("string");
    reveal_strlit("primitive");
    lemma_capitalised_not_primitive("String"@);
    lemma_words_differ("string"@, "primitive"@, 0);
}

/// std documents `Vec` in module `vec` as a struct.
proof fn lemma_std_info_vec()
    ensures
        stdlib_info_spec("Vec"@).0 == "vec"@,
        stdlib_info_spec("Vec"@).1 == "struct"@,
        "vec"@ != "primitive"@,
        "vec"@.len() > 0,
{
    reveal_strlit("Vec");
    reveal_strlit("vec");
    reveal_strlit("primitive");
    lemma_capitalised_not_primitive("Vec"@);
    reveal_strlit("String");
    lemma_words_differ("Vec"@, "String"@, 0);
    lemma_words_differ("vec"@, "primitive"@, 0);
}

/// std documents `Box` in module `boxed` as a struct.
proof fn lemma_std_info_box()
    ensures
        stdlib_info_spec("Box"@).0 == "boxed"@,
        stdlib_info_spec("Box"@).1 == "struct"@,
        "boxed"@ != "primitive"@,
        "boxed"@.len() > 0,
{
    reveal_strlit("Box");
    reveal_strlit("boxed");
    reveal_strlit("primitive");
    lemma_capitalised_not_primitive("Box"@);
    reveal_strlit("String");
    lemma_words_differ("Box"@, "String"@, 0);
    reveal_strlit("Vec");
    lemma_words_differ("Box"@, "Vec"@, 0);
    lemma_words_differ("boxed"@, "primitive"@, 0);
}

/// std documents `Rc` in module `rc` as a struct.
proof fn lemma_std_info_rc()
    ensures
        stdlib_info_spec("Rc"@).0 == "rc"@,
        stdlib_info_spec("Rc"@).1 == "struct"@,
        "rc"@ != "primitive"@,
        "rc"@.len() > 0,
{
    reveal_strlit("Rc");
    reveal_strlit("rc");
    reveal_strlit("primitive");
    lemma_capitalised_not_primitive("Rc"@);
    reveal_strlit("String");
    lemma_words_differ("Rc"@, "String"@, 0);
    reveal_strlit("Vec");
    lemma_words_differ("Rc"@, "Vec"@, 0);
    reveal_strlit("Box");
    lemma_words_differ("Rc"@, "Box"@, 0);
    lemma_words_differ("rc"@, "primitive"@, 0);
}

/// std documents `Arc` in module `sync` as a struct.
proof fn lemma_std_info_arc()
    ensures
        stdlib_info_spec("Arc"@).0 == "sync"@,
        stdlib_info_spec("Arc"@).1 == "struct"@,
        "sync"@ != "primitive"@,
        "sync"@.len() > 0,
{
    reveal_strlit("Arc");
    reveal_strlit("sync");
    reveal_strlit("primitive");
    lemma_capitalised_not_primitive("Arc"@);
    reveal_strlit("String");
    lemma_words_differ("Arc"@, "String"@, 0);
    reveal_strlit("Vec");
    lemma_words_differ("Arc"@, "Vec"@, 0);
    reveal_strlit("Box");
    lemma_words_differ("Arc"@, "Box"@, 0);
    reveal_strlit("Rc");
    lemma_words_differ("Arc"@, "Rc"@, 0);
    lemma_words_differ("sync"@, "primitive"@, 0);
}

/// std documents `HashMap` in module `collections/hash_map` as a struct.
proof fn lemma_std_info_hashmap()
    ensures
        stdlib_info_spec("HashMap"@).0 == "collections/hash_map"@,
        stdlib_info_spec("HashMap"@).1 == "struct"@,
        "collections/hash_map"@ != "primitive"@,
        "collections/hash_map"@.len() > 0,
{
    reveal_strlit("HashMap");
    reveal_strlit("collections/hash_map");
    reveal_strlit("primitive");
    lemma_capitalised_not_primitive("HashMap"@);
    reveal_strlit("String");
    lemma_words_differ("HashMap"@, "String"@, 0);
    reveal_strlit("Vec");
    lemma_words_differ("HashMap"@, "Vec"@, 0);
    reveal_strlit("Box");
    lemma_words_differ("HashMap"@, "Box"@, 0);
    reveal_strlit("Rc");
    lemma_words_differ("HashMap"@, "Rc"@, 0);
    reveal_strlit("Arc");
    lemma_words_differ("HashMap"@, "Arc"@, 0);
    lemma_words_differ("collections/hash_map"@, "primitive"@, 0);
}

/// std documents `HashSet` in module `collections/hash_set` as a struct.
proof fn lemma_std_info_hashset()
    ensures
        stdlib_info_spec("HashSet"@).0 == "collections/hash_set"@,
        stdlib_info_spec("HashSet"@).1 == "struct"@,
        "collections/hash_set"@ != "primitive"@,
        "collections/hash_set"@.len() > 0,
{
    reveal_strlit("HashSet");
    reveal_strlit("collections/hash_set");
    reveal_strlit("primitive");
    lemma_capitalised_not_primitive("HashSet"@);
    reveal_strlit("String");
    lemma_words_differ("HashSet"@, "String"@, 0);
    reveal_strlit("Vec");
    lemma_words_differ("HashSet"@, "Vec"@, 0);
    reveal_strlit("Box");
    lemma_words_differ("HashSet"@, "Box"@, 0);
    reveal_strlit("Rc");
    lemma_words_differ("HashSet"@, "Rc"@, 0);
    reveal_strlit("Arc");
    lemma_words_differ("HashSet"@, "Arc"@, 0);
    reveal_strlit("HashMap");
    lemma_words_differ("HashSet"@, "HashMap"@, 4);
    lemma_words_differ("collections/hash_set"@, "primitive"@, 0);
}

/// std documents `BTreeMap` in module `collections/btree_map` as a struct.
proof fn lemma_std_info_btreemap()
    ensures
        stdlib_info_spec("BTreeMap"@).0 == "collections/btree_map"@,
        stdlib_info_spec("BTreeMap"@).1 == "struct"@,
        "collections/btree_map"@ != "primitive"@,
        "collections/btree_map"@.len() > 0,
{
    reveal_strlit("BTreeMap");
    reveal_strlit("collections/btree_map");
    reveal_strlit("primitive");
    lemma_capitalised_not_primitive("BTreeMap"@);
    reveal_strlit("String");
    lemma_words_differ("BTreeMap"@, "String"@, 0);
    reveal_strlit("Vec");
    lemma_words_differ("BTreeMap"@, "Vec"@, 0);
    reveal_strlit("Box");
    lemma_words_differ("BTreeMap"@, "Box"@, 0);
    reveal_strlit("Rc");
    lemma_words_differ("BTreeMap"@, "Rc"@, 0);
    reveal_strlit("Arc");
    lemma_words_differ("BTreeMap"@, "Arc"@, 0);
    reveal_strlit("HashMap");
    lemma_words_differ("BTreeMap"@, "HashMap"@, 0);
    reveal_strlit("HashSet");
    lemma_words_differ("BTreeMap"@, "HashSet"@, 0);
    lemma_words_differ("collections/btree_map"@, "primitive"@, 0);
}

/// std documents `BTreeSet` in module `collections/btree_set` as a struct.
proof fn lemma_std_info_btreeset()
    ensures
        stdlib_info_spec("BTreeSet"@).0 == "collections/btree_set"@,
        stdlib_info_spec("BTreeSet"@).1 == "struct"@,
        "collections/btree_set"@ != "primitive"@,
        "collections/btree_set"@.len() > 0,
{
    reveal_strlit("BTreeSet");
    reveal_strlit("collections/btree_set");
    reveal_strlit("primitive");
    lemma_capitalised_not_primitive("BTreeSet"@);
    reveal_strlit("String");
    lemma_words_differ("BTreeSet"@, "String"@, 0);
    reveal_strlit("Vec");
    lemma_words_differ("BTreeSet"@, "Vec"@, 0);
    reveal_strlit("Box");
    lemma_words_differ("BTreeSet"@, "Box"@, 0);
    reveal_strlit("Rc");
    lemma_words_differ("BTreeSet"@, "Rc"@, 0);
    reveal_strlit("Arc");
    lemma_words_differ("BTreeSet"@, "Arc"@, 0);
    reveal_strlit("HashMap");
    lemma_words_differ("BTreeSet"@, "HashMap"@, 0);
    reveal_strlit("HashSet");
    lemma_words_differ("BTreeSet"@, "HashSet"@, 0);
    reveal_strlit("BTreeMap");
    lemma_words_differ("BTreeSet"@, "BTreeMap"@, 5);
    lemma_words_differ("collections/btree_set"@, "primitive"@, 0);
}

/// std documents `VecDeque` in module `collections/vec_deque` as a struct.
proof fn lemma_std_info_vecdeque()
    ensures
        stdlib_info_spec("VecDeque"@).0 == "collections/vec_deque"@,
        stdlib_info_spec("VecDeque"@).1 == "struct"@,
        "collections/vec_deque"@ != "primitive"@,
        "collections/vec_deque"@.len() > 0,
{
    reveal_strlit("VecDeque");
    reveal_strlit("collections/vec_deque");
    reveal_strlit("primitive");
    lemma_capitalised_not_primitive("VecDeque"@);
    reveal_strlit("String");
    lemma_words_differ("VecDeque"@, "String"@, 0);
    reveal_strlit("Vec");
    lemma_words_differ("VecDeque"@, "Vec"@, 0);
    reveal_strlit("Box");
    lemma_words_differ("VecDeque"@, "Box"@, 0);
    reveal_strlit("Rc");
    lemma_words_differ("VecDeque"@, "Rc"@, 0);
    reveal_strlit("Arc");
    lemma_words_differ("VecDeque"@, "Arc"@, 0);
    reveal_strlit("HashMap");
    lemma_words_differ("VecDeque"@, "HashMap"@, 0);
    reveal_strlit("HashSet");
    lemma_words_differ("VecDeque"@, "HashSet"@, 0);
    reveal_strlit("BTreeMap");
    lemma_words_differ("VecDeque"@, "BTreeMap"@, 0);
    reveal_strlit("BTreeSet");
    lemma_words_differ("VecDeque"@, "BTreeSet"@, 0);
    lemma_words_differ("collections/vec_deque"@, "primitive"@, 0);
}

/// std documents `LinkedList` in module `collections/linked_list` as a struct.
proof fn lemma_std_info_linkedlist()
    ensures
        stdlib_info_spec("LinkedList"@).0 == "collections/linked_list"@,
        stdlib_info_spec("LinkedList"@).1 == "struct"@,
        "collections/linked_list"@ != "primitive"@,
        "collections/linked_list"@.len() > 0,
{
    reveal_strlit("LinkedList");
    reveal_strlit("collections/linked_list");
    reveal_strlit("primitive");
    lemma_capitalised_not_primitive("LinkedList"@);
    reveal_strlit("String");
    lemma_words_differ("LinkedList"@, "String"@, 0);
    reveal_strlit("Vec");
    lemma_words_differ("LinkedList"@, "Vec"@, 0);
    reveal_strlit("Box");
    lemma_words_differ("LinkedList"@, "Box"@, 0);
    reveal_strlit("Rc");
    lemma_words_differ("LinkedList"@, "Rc"@, 0);
    reveal_strlit("Arc");
    lemma_words_differ("LinkedList"@, "Arc"@, 0);
    reveal_strlit("HashMap");
    lemma_words_differ("LinkedList"@, "HashMap"@, 0);
    reveal_strlit("HashSet");
    lemma_words_differ("LinkedList"@, "HashSet"@, 0);
    reveal_strlit("BTreeMap");
    lemma_words_differ("LinkedList"@, "BTreeMap"@, 0);
    reveal_strlit("BTreeSet");
    lemma_words_differ("LinkedList"@, "BTreeSet"@, 0);
    reveal_strlit("VecDeque");
    lemma_words_differ("LinkedList"@, "VecDeque"@, 0);
    lemma_words_differ("collections/linked_list"@, "primitive"@, 0);
}

/// std documents `BinaryHeap` in module `collections/binary_heap` as a struct.
proof fn lemma_std_info_binaryheap()
    ensures
        stdlib_info_spec("BinaryHeap"@).0 == "collections/binary_heap"@,
        stdlib_info_spec("BinaryHeap"@).1 == "struct"@,
        "collections/binary_heap"@ != "primitive"@,
        "collections/binary_heap"@.len() > 0,
{
    reveal_strlit("BinaryHeap");
    reveal_strlit("collections/binary_heap");
    reveal_strlit("primitive");
    lemma_capitalised_not_primitive("BinaryHeap"@);
    reveal_strlit("String");
    lemma_words_differ("BinaryHeap"@, "String"@, 0);
    reveal_strlit("Vec");
    lemma_words_differ("BinaryHeap"@, "Vec"@, 0);
    reveal_strlit("Box");
    lemma_words_differ("BinaryHeap"@, "Box"@, 0);
    reveal_strlit("Rc");
    lemma_words_differ("BinaryHeap"@, "Rc"@, 0);
    reveal_strlit("Arc");
    lemma_words_differ("BinaryHeap"@, "Arc"@, 0);
    reveal_strlit("HashMap");
    lemma_words_differ("BinaryHeap"@, "HashMap"@, 0);
    reveal_strlit("HashSet");
    lemma_words_differ("BinaryHeap"@, "HashSet"@, 0);
    reveal_strlit("BTreeMap");
    lemma_words_differ("BinaryHeap"@, "BTreeMap"@, 0);
    reveal_strlit("BTreeSet");
    lemma_words_differ("BinaryHeap"@, "BTreeSet"@, 0);
    reveal_strlit("VecDeque");
    lemma_words_differ("BinaryHeap"@, "VecDeque"@, 0);
    reveal_strlit("LinkedList");
    lemma_words_differ("BinaryHeap"@, "LinkedList"@, 0);
    lemma_words_differ("collections/binary_heap"@, "primitive"@, 0);
}

/// std documents `Option` in module `option` as a enum.
proof fn lemma_std_info_option()
    ensures
        stdlib_info_spec("Option"@).0 == "option"@,
        stdlib_info_spec("Option"@).1 == "enum"@,
        "option"@ != "primitive"@,
        "option"@.len() > 0,
{
    reveal_strlit("Option");
    reveal_strlit("option");
    reveal_strlit("primitive");
    lemma_capitalised_not_primitive("Option"@);
    reveal_strlit("String");
    lemma_words_differ("Option"@, "String"@, 0);
    reveal_strlit("Vec");
    lemma_words_differ("Option"@, "Vec"@, 0);
    reveal_strlit("Box");
    lemma_words_differ("Option"@, "Box"@, 0);
    reveal_strlit("Rc");
    lemma_words_differ("Option"@, "Rc"@, 0);
    reveal_strlit("Arc");
    lemma_words_differ("Option"@, "Arc"@, 0);
    reveal_strlit("HashMap");
    lemma_words_differ("Option"@, "HashMap"@, 0);
    reveal_strlit("HashSet");
    lemma_words_differ("Option"@, "HashSet"@, 0);
    reveal_strlit("BTreeMap");
    lemma_words_differ("Option"@, "BTreeMap"@, 0);
    reveal_strlit("BTreeSet");
    lemma_words_differ("Option"@, "BTreeSet"@, 0);
    reveal_strlit("VecDeque");
    lemma_words_differ("Option"@, "VecDeque"@, 0);
    reveal_strlit("LinkedList");
    lemma_words_differ("Option"@, "LinkedList"@, 0);
    reveal_strlit("BinaryHeap");
    lemma_words_differ("Option"@, "BinaryHeap"@, 0);
    lemma_words_differ("option"@, "primitive"@, 0);
}

/// std documents `Result` in module `result` as a enum.
proof fn lemma_std_info_result()
    ensures
        stdlib_info_spec("Result"@).0 == "result"@,
        stdlib_info_spec("Result"@).1 == "enum"@,
        "result"@ != "primitive"@,
        "result"@.len() > 0,
{
    reveal_strlit("Result");
    reveal_strlit("result");
    reveal_strlit("primitive");
    lemma_capitalised_not_primitive("Result"@);
    reveal_strlit("String");
    lemma_words_differ("Result"@, "String"@, 0);
    reveal_strlit("Vec");
    lemma_words_differ("Result"@, "Vec"@, 0);
    reveal_strlit("Box");
    lemma_words_differ("Result"@, "Box"@, 0);
    reveal_strlit("Rc");
    lemma_words_differ("Result"@, "Rc"@, 0);
    reveal_strlit("Arc");
    lemma_words_differ("Result"@, "Arc"@, 0);
    reveal_strlit("HashMap");
    lemma_words_differ("Result"@, "HashMap"@, 0);
    reveal_strlit("HashSet");
    lemma_words_differ("Result"@, "HashSet"@, 0);
    reveal_strlit("BTreeMap");
    lemma_words_differ("Result"@, "BTreeMap"@, 0);
    reveal_strlit("BTreeSet");
    lemma_words_differ("Result"@, "BTreeSet"@, 0);
    reveal_strlit("VecDeque");
    lemma_words_differ("Result"@, "VecDeque"@, 0);
    reveal_strlit("LinkedList");
    lemma_words_differ("Result"@, "LinkedList"@, 0);
    reveal_strlit("BinaryHeap");
    lemma_words_differ("Result"@, "BinaryHeap"@, 0);
    reveal_strlit("Option");
    lemma_words_differ("Result"@, "Option"@, 0);
    lemma_words_differ("result"@, "primitive"@, 0);
}

/// The page of `String`'s methods, spelled out.
proof fn lemma_std_url_string(method: Seq<char>)
    ensures
        "https://doc.rust-lang.org/std/"@ + "string"@ + "/"@ + "struct"@ + "."@ + "String"@ + ".html#method."@ + method
            == "https://doc.rust-lang.org/std/string/struct.String.html#method."@ + method,
{
    reveal_strlit("https://doc.rust-lang.org/std/");
    reveal_strlit("string");
    reveal_strlit("/");
    reveal_strlit("struct");
    reveal_strlit(".");
    reveal_strlit("String");
    reveal_strlit(".html#method.");
    reveal_strlit("https://doc.rust-lang.org/std/string/struct.String.html#method.");
    assert("https://doc.rust-lang.org/std/"@ + "string"@ + "/"@ + "struct"@ + "."@ + "String"@ + ".html#method."@
        =~= "https://doc.rust-lang.org/std/string/struct.String.html#method."@);
}

/// The page of `Vec`'s methods, spelled out.
proof fn lemma_std_url_vec(method: Seq<char>)
    ensures
        "https://doc.rust-lang.org/std/"@ + "vec"@ + "/"@ + "struct"@ + "."@ + "Vec"@ + ".html#method."@ + method
            == "https://doc.rust-lang.org/std/vec/struct.Vec.html#method."@ + method,
{
    reveal_strlit("https://doc.rust-lang.org/std/");
    reveal_strlit("vec");
    reveal_strlit("/");
    reveal_strlit("struct");
    reveal_strlit(".");
    reveal_strlit("Vec");
    reveal_strlit(".html#method.");
    reveal_strlit("https://doc.rust-lang.org/std/vec/struct.Vec.html#method.");
    assert("https://doc.rust-lang.org/std/"@ + "vec"@ + "/"@ + "struct"@ + "."@ + "Vec"@ + ".html#method."@
        =~= "https://doc.rust-lang.org/std/vec/struct.Vec.html#method."@);
}

/// The page of `Box`'s methods, spelled out.
proof fn lemma_std_url_box(method: Seq<char>)
    ensures
        "https://doc.rust-lang.org/std/"@ + "boxed"@ + "/"@ + "struct"@ + "."@ + "Box"@ + ".html#method."@ + method
            == "https://doc.rust-lang.org/std/boxed/struct.Box.html#method."@ + method,
{
    reveal_strlit("https://doc.rust-lang.org/std/");
    reveal_strlit("boxed");
    reveal_strlit("/");
    reveal_strlit("struct");
    reveal_strlit(".");
    reveal_strlit("Box");
    reveal_strlit(".html#method.");
    reveal_strlit("https://doc.rust-lang.org/std/boxed/struct.Box.html#method.");
    assert("https://doc.rust-lang.org/std/"@ + "boxed"@ + "/"@ + "struct"@ + "."@ + "Box"@ + ".html#method."@
        =~= "https://doc.rust-lang.org/std/boxed/struct.Box.html#method."@);
}

/// The page of `Rc`'s methods, spelled out.
proof fn lemma_std_url_rc(method: Seq<char>)
    ensures
        "https://doc.rust-lang.org/std/"@ + "rc"@ + "/"@ + "struct"@ + "."@ + "Rc"@ + ".html#method."@ + method
            == "https://doc.rust-lang.org/std/rc/struct.Rc.html#method."@ + method,
{
    reveal_strlit("https://doc.rust-lang.org/std/");
    reveal_strlit("rc");
    reveal_strlit("/");
    reveal_strlit("struct");
    reveal_strlit(".");
    reveal_strlit("Rc");
    reveal_strlit(".html#method.");
    reveal_strlit("https://doc.rust-lang.org/std/rc/struct.Rc.html#method.");
    assert("https://doc.rust-lang.org/std/"@ + "rc"@ + "/"@ + "struct"@ + "."@ + "Rc"@ + ".html#method."@
        =~= "https://doc.rust-lang.org/std/rc/struct.Rc.html#method."@);
}

/// The page of `Arc`'s methods, spelled out.
proof fn lemma_std_url_arc(method: Seq<char>)
    ensures
        "https://doc.rust-lang.org/std/"@ + "sync"@ + "/"@ + "struct"@ + "."@ + "Arc"@ + ".html#method."@ + method
            == "https://doc.rust-lang.org/std/sync/struct.Arc.html#method."@ + method,
{
    reveal_strlit("https://doc.rust-lang.org/std/");
    reveal_strlit("sync");
    reveal_strlit("/");
    reveal_strlit("struct");
    reveal_strlit(".");
    reveal_strlit("Arc");
    reveal_strlit(".html#method.");
    reveal_strlit("https://doc.rust-lang.org/std/sync/struct.Arc.html#method.");
    assert("https://doc.rust-lang.org/std/"@ + "sync"@ + "/"@ + "struct"@ + "."@ + "Arc"@ + ".html#method."@
        =~= "https://doc.rust-lang.org/std/sync/struct.Arc.html#method."@);
}

/// The page of `HashMap`'s methods, spelled out.
proof fn lemma_std_url_hashmap(method: Seq<char>)
    ensures
        "https://doc.rust-lang.org/std/"@ + "collections/hash_map"@ + "/"@ + "struct"@ + "."@ + "HashMap"@ + ".html#method."@ + method
            == "https://doc.rust-lang.org/std/collections/hash_map/struct.HashMap.html#method."@ + method,
{
    reveal_strlit("https://doc.rust-lang.org/std/");
    reveal_strlit("collections/hash_map");
    reveal_strlit("/");
    reveal_strlit("struct");
    reveal_strlit(".");
    reveal_strlit("HashMap");
    reveal_strlit(".html#method.");
    reveal_strlit("https://doc.rust-lang.org/std/collections/hash_map/struct.HashMap.html#method.");
    assert("https://doc.rust-lang.org/std/"@ + "collections/hash_map"@ + "/"@ + "struct"@ + "."@ + "HashMap"@ + ".html#method."@
        =~= "https://doc.rust-lang.org/std/collections/hash_map/struct.HashMap.html#method."@);
}

/// The page of `HashSet`'s methods, spelled out.
proof fn lemma_std_url_hashset(method: Seq<char>)
    ensures
        "https://doc.rust-lang.org/std/"@ + "collections/hash_set"@ + "/"@ + "struct"@ + "."@ + "HashSet"@ + ".html#method."@ + method
            == "https://doc.rust-lang.org/std/collections/hash_set/struct.HashSet.html#method."@ + method,
{
    reveal_strlit("https://doc.rust-lang.org/std/");
    reveal_strlit("collections/hash_set");
    reveal_strlit("/");
    reveal_strlit("struct");
    reveal_strlit(".");
    reveal_strlit("HashSet");
    reveal_strlit(".html#method.");
    reveal_strlit("https://doc.rust-lang.org/std/collections/hash_set/struct.HashSet.html#method.");
    assert("https://doc.rust-lang.org/std/"@ + "collections/hash_set"@ + "/"@ + "struct"@ + "."@ + "HashSet"@ + ".html#method."@
        =~= "https://doc.rust-lang.org/std/collections/hash_set/struct.HashSet.html#method."@);
}

/// The page of `BTreeMap`'s methods, spelled out.
proof fn lemma_std_url_btreemap(method: Seq<char>)
    ensures
        "https://doc.rust-lang.org/std/"@ + "collections/btree_map"@ + "/"@ + "struct"@ + "."@ + "BTreeMap"@ + ".html#method."@ + method
            == "https://doc.rust-lang.org/std/collections/btree_map/struct.BTreeMap.html#method."@ + method,
{
    reveal_strlit("https://doc.rust-lang.org/std/");
    reveal_strlit("collections/btree_map");
    reveal_strlit("/");
    reveal_strlit("struct");
    reveal_strlit(".");
    reveal_strlit("BTreeMap");
    reveal_strlit(".html#method.");
    reveal_strlit("https://doc.rust-lang.org/std/collections/btree_map/struct.BTreeMap.html#method.");
    assert("https://doc.rust-lang.org/std/"@ + "collections/btree_map"@ + "/"@ + "struct"@ + "."@ + "BTreeMap"@ + ".html#method."@
        =~= "https://doc.rust-lang.org/std/collections/btree_map/struct.BTreeMap.html#method."@);
}

/// The page of `BTreeSet`'s methods, spelled out.
proof fn lemma_std_url_btreeset(method: Seq<char>)
    ensures
        "https://doc.rust-lang.org/std/"@ + "collections/btree_set"@ + "/"@ + "struct"@ + "."@ + "BTreeSet"@ + ".html#method."@ + method
            == "https://doc.rust-lang.org/std/collections/btree_set/struct.BTreeSet.html#method."@ + method,
{
    reveal_strlit("https://doc.rust-lang.org/std/");
    reveal_strlit("collections/btree_set");
    reveal_strlit("/");
    reveal_strlit("struct");
    reveal_strlit(".");
    reveal_strlit("BTreeSet");
    reveal_strlit(".html#method.");
    reveal_strlit("https://doc.rust-lang.org/std/collections/btree_set/struct.BTreeSet.html#method.");
    assert("https://doc.rust-lang.org/std/"@ + "collections/btree_set"@ + "/"@ + "struct"@ + "."@ + "BTreeSet"@ + ".html#method."@
        =~= "https://doc.rust-lang.org/std/collections/btree_set/struct.BTreeSet.html#method."@);
}

/// The page of `VecDeque`'s methods, spelled out.
proof fn lemma_std_url_vecdeque(method: Seq<char>)
    ensures
        "https://doc.rust-lang.org/std/"@ + "collections/vec_deque"@ + "/"@ + "struct"@ + "."@ + "VecDeque"@ + ".html#method."@ + method
            == "https://doc.rust-lang.org/std/collections/vec_deque/struct.VecDeque.html#method."@ + method,
{
    reveal_strlit("https://doc.rust-lang.org/std/");
    reveal_strlit("collections/vec_deque");
    reveal_strlit("/");
    reveal_strlit("struct");
    reveal_strlit(".");
    reveal_strlit("VecDeque");
    reveal_strlit(".html#method.");
    reveal_strlit("https://doc.rust-lang.org/std/collections/vec_deque/struct.VecDeque.html#method.");
    assert("https://doc.rust-lang.org/std/"@ + "collections/vec_deque"@ + "/"@ + "struct"@ + "."@ + "VecDeque"@ + ".html#method."@
        =~= "https://doc.rust-lang.org/std/collections/vec_deque/struct.VecDeque.html#method."@);
}

/// The page of `LinkedList`'s methods, spelled out.
proof fn lemma_std_url_linkedlist(method: Seq<char>)
    ensures
        "https://doc.rust-lang.org/std/"@ + "collections/linked_list"@ + "/"@ + "struct"@ + "."@ + "LinkedList"@ + ".html#method."@ + method
            == "https://doc.rust-lang.org/std/collections/linked_list/struct.LinkedList.html#method."@ + method,
{
    reveal_strlit("https://doc.rust-lang.org/std/");
    reveal_strlit("collections/linked_list");
    reveal_strlit("/");
    reveal_strlit("struct");
    reveal_strlit(".");
    reveal_strlit("LinkedList");
    reveal_strlit(".html#method.");
    reveal_strlit("https://doc.rust-lang.org/std/collections/linked_list/struct.LinkedList.html#method.");
    assert("https://doc.rust-lang.org/std/"@ + "collections/linked_list"@ + "/"@ + "struct"@ + "."@ + "LinkedList"@ + ".html#method."@
        =~= "https://doc.rust-lang.org/std/collections/linked_list/struct.LinkedList.html#method."@);
}

/// The page of `BinaryHeap`'s methods, spelled out.
proof fn lemma_std_url_binaryheap(method: Seq<char>)
    ensures
        "https://doc.rust-lang.org/std/"@ + "collections/binary_heap"@ + "/"@ + "struct"@ + "."@ + "BinaryHeap"@ + ".html#method."@ + method
            == "https://doc.rust-lang.org/std/collections/binary_heap/struct.BinaryHeap.html#method."@ + method,
{
    reveal_strlit("https://doc.rust-lang.org/std/");
    reveal_strlit("collections/binary_heap");
    reveal_strlit("/");
    reveal_strlit("struct");
    reveal_strlit(".");
    reveal_strlit("BinaryHeap");
    reveal_strlit(".html#method.");
    reveal_strlit("https://doc.rust-lang.org/std/collections/binary_heap/struct.BinaryHeap.html#method.");
    assert("https://doc.rust-lang.org/std/"@ + "collections/binary_heap"@ + "/"@ + "struct"@ + "."@ + "BinaryHeap"@ + ".html#method."@
        =~= "https://doc.rust-lang.org/std/collections/binary_heap/struct.BinaryHeap.html#method."@);
}

/// The page of `Option`'s methods, spelled out.
proof fn lemma_std_url_option(method: Seq<char>)
    ensures
        "https://doc.rust-lang.org/std/"@ + "option"@ + "/"@ + "enum"@ + "."@ + "Option"@ + ".html#method."@ + method
            == "https://doc.rust-lang.org/std/option/enum.Option.html#method."@ + method,
{
    reveal_strlit("https://doc.rust-lang.org/std/");
    reveal_strlit("option");
    reveal_strlit("/");
    reveal_strlit("enum");
    reveal_strlit(".");
    reveal_strlit("Option");
    reveal_strlit(".html#method.");
    reveal_strlit("https://doc.rust-lang.org/std/option/enum.Option.html#method.");
    assert("https://doc.rust-lang.org/std/"@ + "option"@ + "/"@ + "enum"@ + "."@ + "Option"@ + ".html#method."@
        =~= "https://doc.rust-lang.org/std/option/enum.Option.html#method."@);
}

/// The page of `Result`'s methods, spelled out.
proof fn lemma_std_url_result(method: Seq<char>)
    ensures
        "https://doc.rust-lang.org/std/"@ + "result"@ + "/"@ + "enum"@ + "."@ + "Result"@ + ".html#method."@ + method
            == "https://doc.rust-lang.org/std/result/enum.Result.html#method."@ + method,
{
    reveal_strlit("https://doc.rust-lang.org/std/");
    reveal_strlit("result");
    reveal_strlit("/");
    reveal_strlit("enum");
    reveal_strlit(".");
    reveal_strlit("Result");
    reveal_strlit(".html#method.");
    reveal_strlit("https://doc.rust-lang.org/std/result/enum.Result.html#method.");
    assert("https://doc.rust-lang.org/std/"@ + "result"@ + "/"@ + "enum"@ + "."@ + "Result"@ + ".html#method."@
        =~= "https://doc.rust-lang.org/std/result/enum.Result.html#method."@);
}

/// Law: a method defined in the standard library's sources is linked to
/// the page of the module that documents its type, whatever the type's
/// generic arguments, the method and the place of the definition: `Arc`
/// under `std::sync`, `Box` under `std::boxed`, the maps and sets under
/// `std::collections`, `Option` and `Result` as enums, and so on; a
/// primitive type to its `primitive.` page.
pub proof fn lemma_std_doc_pages(ty: Seq<char>, method: Seq<char>, full: Seq<char>)
    requires
        is_stdlib_path_spec(full),
    ensures
        bare_type(ty) == "String"@ ==> doc_url_spec(ty, method, full) == "https://doc.rust-lang.org/std/string/struct.String.html#method."@ + method,
        bare_type(ty) == "Vec"@ ==> doc_url_spec(ty, method, full) == "https://doc.rust-lang.org/std/vec/struct.Vec.html#method."@ + method,
        bare_type(ty) == "Box"@ ==> doc_url_spec(ty, method, full) == "https://doc.rust-lang.org/std/boxed/struct.Box.html#method."@ + method,
        bare_type(ty) == "Rc"@ ==> doc_url_spec(ty, method, full) == "https://doc.rust-lang.org/std/rc/struct.Rc.html#method."@ + method,
        bare_type(ty) == "Arc"@ ==> doc_url_spec(ty, method, full) == "https://doc.rust-lang.org/std/sync/struct.Arc.html#method."@ + method,
        bare_type(ty) == "HashMap"@ ==> doc_url_spec(ty, method, full) == "https://doc.rust-lang.org/std/collections/hash_map/struct.HashMap.html#method."@ + method,
        bare_type(ty) == "HashSet"@ ==> doc_url_spec(ty, method, full) == "https://doc.rust-lang.org/std/collections/hash_set/struct.HashSet.html#method."@ + method,
        bare_type(ty) == "BTreeMap"@ ==> doc_url_spec(ty, method, full) == "https://doc.rust-lang.org/std/collections/btree_map/struct.BTreeMap.html#method."@ + method,
        bare_type(ty) == "BTreeSet"@ ==> doc_url_spec(ty, method, full) == "https://doc.rust-lang.org/std/collections/btree_set/struct.BTreeSet.html#method."@ + method,
        bare_type(ty) == "VecDeque"@ ==> doc_url_spec(ty, method, full) == "https://doc.rust-lang.org/std/collections/vec_deque/struct.VecDeque.html#method."@ + method,
        bare_type(ty) == "LinkedList"@ ==> doc_url_spec(ty, method, full) == "https://doc.rust-lang.org/std/collections/linked_list/struct.LinkedList.html#method."@ + method,
        bare_type(ty) == "BinaryHeap"@ ==> doc_url_spec(ty, method, full) == "https://doc.rust-lang.org/std/collections/binary_heap/struct.BinaryHeap.html#method."@ + method,
        bare_type(ty) == "Option"@ ==> doc_url_spec(ty, method, full) == "https://doc.rust-lang.org/std/option/enum.Option.html#method."@ + method,
        bare_type(ty) == "Result"@ ==> doc_url_spec(ty, method, full) == "https://doc.rust-lang.org/std/result/enum.Result.html#method."@ + method,
        is_primitive(bare_type(ty)) ==> doc_url_spec(ty, method, full) == "https://doc.rust-lang.org/std/primitive."@
            + bare_type(ty) + ".html#method."@ + method,
{
    if bare_type(ty) == "String"@ {
        lemma_std_info_string();
        lemma_std_url_string(method);
    }
    if bare_type(ty) == "Vec"@ {
        lemma_std_info_vec();
        lemma_std_url_vec(method);
    }
    if bare_type(ty) == "Box"@ {
        lemma_std_info_box();
        lemma_std_url_box(method);
    }
    if bare_type(ty) == "Rc"@ {
        lemma_std_info_rc();
        lemma_std_url_rc(method);
    }
    if bare_type(ty) == "Arc"@ {
        lemma_std_info_arc();
        lemma_std_url_arc(method);
    }
    if bare_type(ty) == "HashMap"@ {
        lemma_std_info_hashmap();
        lemma_std_url_hashmap(method);
    }
    if bare_type(ty) == "HashSet"@ {
        lemma_std_info_hashset();
        lemma_std_url_hashset(method);
    }
    if bare_type(ty) == "BTreeMap"@ {
        lemma_std_info_btreemap();
        lemma_std_url_btreemap(method);
    }
    if bare_type(ty) == "BTreeSet"@ {
        lemma_std_info_btreeset();
        lemma_std_url_btreeset(method);
    }
    if bare_type(ty) == "VecDeque"@ {
        lemma_std_info_vecdeque();
        lemma_std_url_vecdeque(method);
    }
    if bare_type(ty) == "LinkedList"@ {
        lemma_std_info_linkedlist();
        lemma_std_url_linkedlist(method);
    }
    if bare_type(ty) == "BinaryHeap"@ {
        lemma_std_info_binaryheap();
        lemma_std_url_binaryheap(method);
    }
    if bare_type(ty) == "Option"@ {
        lemma_std_info_option();
        lemma_std_url_option(method);
    }
    if bare_type(ty) == "Result"@ {
        lemma_std_info_result();
        lemma_std_url_result(method);
    }
}

/// Law: without a definition, `--explain --browser` links the same page
/// that a definition inside the standard library would: for a primitive
/// type, `String`, `Vec`, `Option`, `Result`, `HashMap` and `HashSet`, the
/// two URLs agree for every method and generic arguments. In particular
/// `Option` and `Result` are linked as enums.
pub proof fn lemma_explain_agrees_with_definition(ty: Seq<char>, method: Seq<char>, full: Seq<char>)
    requires
        is_stdlib_path_spec(full),
        is_primitive(bare_type(ty)) || bare_type(ty) == "String"@ || bare_type(ty) == "Vec"@ || bare_type(ty)
            == "Option"@ || bare_type(ty) == "Result"@ || bare_type(ty) == "HashMap"@ || bare_type(ty)
            == "HashSet"@,
    ensures
        explain_url_spec(ty, method) == doc_url_spec(ty, method, full),
        bare_type(ty) == "Option"@ ==> explain_url_spec(ty, method)
            == "https://doc.rust-lang.org/std/option/enum.Option.html#method."@ + method,
        bare_type(ty) == "Result"@ ==> explain_url_spec(ty, method)
            == "https://doc.rust-lang.org/std/result/enum.Result.html#method."@ + method,
{
    lemma_std_doc_pages(ty, method, full);
    let b = bare_type(ty);
    reveal_strlit("String");
    reveal_strlit("Vec");
    reveal_strlit("Option");
    reveal_strlit("Result");
    reveal_strlit("HashMap");
    reveal_strlit("HashSet");
    if b == "String"@ || b == "Vec"@ || b == "Option"@ || b == "Result"@ || b == "HashMap"@ || b == "HashSet"@ {
        lemma_capitalised_not_primitive(b);
    }
    lemma_words_differ("Vec"@, "String"@, 0);
    lemma_words_differ("Option"@, "String"@, 0);
    lemma_words_differ("Option"@, "Vec"@, 0);
    lemma_words_differ("Result"@, "String"@, 0);
    lemma_words_differ("Result"@, "Vec"@, 0);
    lemma_words_differ("Result"@, "Option"@, 0);
    lemma_words_differ("HashMap"@, "String"@, 0);
    lemma_words_differ("HashMap"@, "Vec"@, 0);
    lemma_words_differ("HashMap"@, "Option"@, 0);
    lemma_words_differ("HashMap"@, "Result"@, 0);
    lemma_words_differ("HashSet"@, "String"@, 0);
    lemma_words_differ("HashSet"@, "Vec"@, 0);
    lemma_words_differ("HashSet"@, "Option"@, 0);
    lemma_words_differ("HashSet"@, "Result"@, 0);
    lemma_words_differ("HashSet"@, "HashMap"@, 4);
    lemma_capitalised_not_primitive("String"@);
    lemma_capitalised_not_primitive("Vec"@);
}

/// Law: how each editor is told the line (shown from 1). VS Code and VS
/// Code Insiders (`code`, `code-insiders`) get `--goto path:line`; Helix
/// (`hx`, `helix`) gets `path:line`; every other editor gets `+line path`,
/// and all such editors get the same arguments as `vi`.
pub proof fn lemma_editor_line_arguments(editor: Seq<char>, path: Seq<char>, line: u32)
    ensures
        (editor == "code"@ || editor == "code-insiders"@) ==> editor_args_spec(editor, path, line) == seq![
            "--goto"@,
            path + ":"@ + dec(line as nat + 1),
        ],
        (editor == "hx"@ || editor == "helix"@) ==> editor_args_spec(editor, path, line) == seq![
            path + ":"@ + dec(line as nat + 1),
        ],
        !(editor == "code"@ || editor == "code-insiders"@ || editor == "hx"@ || editor == "helix"@)
            ==> editor_args_spec(editor, path, line) == seq!["+"@ + dec(line as nat + 1), path],
        !(editor == "code"@ || editor == "code-insiders"@ || editor == "hx"@ || editor == "helix"@)
            ==> editor_args_spec(editor, path, line) == editor_args_spec("vi"@, path, line),
{
    reveal_strlit("code");
    reveal_strlit("code-insiders");
    reveal_strlit("hx");
    reveal_strlit("helix");
    reveal_strlit("vi");
    lemma_words_differ("code"@, "hx"@, 0);
    lemma_words_differ("code"@, "helix"@, 0);
    lemma_words_differ("code-insiders"@, "hx"@, 0);
    lemma_words_differ("code-insiders"@, "helix"@, 0);
    lemma_words_differ("vi"@, "hx"@, 0);
    lemma_words_differ("vi"@, "helix"@, 0);
    lemma_words_differ("vi"@, "code"@, 0);
    lemma_words_differ("vi"@, "code-insiders"@, 0);
}

} // verus!
