//! The decisions of a command-line run that do not touch the terminal:
//! which methods to show or report missing, which method to explain, and
//! the text of the definition line and of the failures.
use vstd::prelude::*;
use crate::analyzer::{Definition, Method};
use crate::interactive::{filter_methods, fuzzy_matched, fuzzy_ranked, lemma_fuzzy_ranked_members};
use crate::query::targets;
use crate::text::{push_str, push_all, string_from, same_text, dec_exec, dec, opt_str_view};

verus! {

/// What `format!("{:?}", s)` writes for a string: the string quoted, with
/// its special characters escaped.
pub uninterp spec fn debug_text(s: Seq<char>) -> Seq<char>;

/// std's `Debug` formatting of a `str`, which quotes it and escapes it as
/// `char::escape_debug` does. The contract only names the result, as a
/// function of the text alone.
#[verifier::external_body]
fn debug_quote(s: &str) -> (r: String)
    ensures
        r@ == debug_text(s@),
{
    format!("{s:?}")
}

/// The methods a plain run shows: without a pattern all of them, with one
/// the fuzzy matches.
pub open spec fn shown_methods(ms: Seq<Method>, filter: Option<Seq<char>>) -> Seq<Method> {
    match filter {
        None => ms,
        Some(p) => fuzzy_matched(ms, p),
    }
}

/// The message when a run finds nothing to show.
pub open spec fn nothing_found_message(ty: Seq<char>, filter: Option<Seq<char>>) -> Seq<char> {
    match filter {
        None => "No methods found for type `"@ + ty + "`"@,
        Some(p) => "No methods on `"@ + ty + "` matching "@ + debug_text(p),
    }
}

/// Fuzzy-filters the methods of `type_expr` and fails, with a message, when
/// nothing is left.
pub fn filter_or_err<'a>(type_expr: &str, filter: Option<&str>, methods: &'a [Method]) -> (r: Result<
    Vec<&'a Method>,
    String,
>)
    ensures
        match r {
            Ok(v) => {
                &&& v@.len() > 0
                &&& filter is None ==> targets(v@) == methods@
                &&& filter matches Some(p) ==> fuzzy_ranked(targets(v@), methods@, p@)
            },
            Err(msg) => shown_methods(methods@, opt_str_view(filter)).len() == 0 && msg@
                == nothing_found_message(type_expr@, opt_str_view(filter)),
        },
{
    let matched = filter_methods(methods, filter);
    proof {
        if let Some(p) = filter {
            lemma_fuzzy_ranked_members(targets(matched@), methods@, p@);
        }
    }
    if matched.len() == 0 {
        let mut v: Vec<char> = Vec::new();
        match filter {
            None => {
                push_str(&mut v, "No methods found for type `");
                push_str(&mut v, type_expr);
                push_str(&mut v, "`");
            },
            Some(p) => {
                push_str(&mut v, "No methods on `");
                push_str(&mut v, type_expr);
                push_str(&mut v, "` matching ");
                let quoted = debug_quote(p);
                push_str(&mut v, quoted.as_str());
            },
        }
        return Err(string_from(&v));
    }
    Ok(matched)
}

/// The method that `--explain` asks for: the first one named `method_name`,
/// or a message saying the type has none.
pub fn find_method<'a>(methods: &'a [Method], method_name: &str, type_expr: &str) -> (r: Result<&'a Method, String>)
    ensures
        match r {
            Ok(m) => exists|i: int|
                0 <= i < methods@.len() && methods@[i] == *m && m.name@ == method_name@ && forall|j: int|
                    0 <= j < i ==> methods@[j].name@ != method_name@,
            Err(msg) => (forall|i: int| 0 <= i < methods@.len() ==> methods@[i].name@ != method_name@) && msg@
                == "method `"@ + method_name@ + "` not found on type `"@ + type_expr@ + "`"@,
        },
{
    let mut i: usize = 0;
    while i < methods.len()
        invariant
            i <= methods@.len(),
            forall|j: int| 0 <= j < i ==> methods@[j].name@ != method_name@,
        decreases methods@.len() - i,
    {
        if same_text(methods[i].name.as_str(), method_name) {
            return Ok(&methods[i]);
        }
        i = i + 1;
    }
    let mut v: Vec<char> = Vec::new();
    push_str(&mut v, "method `");
    push_str(&mut v, method_name);
    push_str(&mut v, "` not found on type `");
    push_str(&mut v, type_expr);
    push_str(&mut v, "`");
    Err(string_from(&v))
}

/// The line printed for a found definition: `Type::method  path:line`, the
/// line counted from 1.
pub fn definition_line(type_expr: &str, method_name: &str, def: &Definition) -> (r: String)
    ensures
        r@ == type_expr@ + "::"@ + method_name@ + "  "@ + def.path@ + ":"@ + dec(def.line as nat + 1),
{
    let mut v: Vec<char> = Vec::new();
    push_str(&mut v, type_expr);
    push_str(&mut v, "::");
    push_str(&mut v, method_name);
    push_str(&mut v, "  ");
    push_str(&mut v, def.path.as_str());
    push_str(&mut v, ":");
    push_all(&mut v, &dec_exec(def.line as u64 + 1));
    string_from(&v)
}

/// The failure of a definition lookup that found nothing.
pub fn no_definition_message(type_expr: &str, method_name: &str) -> (r: String)
    ensures
        r@ == "No definition found for `"@ + type_expr@ + "::"@ + method_name@
            + "` — is rust-src installed?\nRun: rustup component add rust-src"@,
{
    let mut v: Vec<char> = Vec::new();
    push_str(&mut v, "No definition found for `");
    push_str(&mut v, type_expr);
    push_str(&mut v, "::");
    push_str(&mut v, method_name);
    push_str(&mut v, "` — is rust-src installed?\nRun: rustup component add rust-src");
    string_from(&v)
}

} // verus!
