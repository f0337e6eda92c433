//! The decisions of an analyzer session: reading diagnostics, telling when
//! indexing is over, judging a completion answer, and retrying requests.
//!
//! The session itself (the child process and its pipes) stays with the
//! caller, which hands each message over in the plain form defined here.
use vstd::prelude::*;
use crate::error::RustMethError;
use crate::text::{chars_of, owned, same_text, contains_exec, trim_exec, contains, trim, before_char, find_char_exec, slice, eq_exec};

verus! {

/// One diagnostic as the analyzer publishes it.
#[derive(Debug)]
pub struct Diagnostic {
    /// The severity; 1 is an error.
    pub severity: Option<u64>,
    /// The rendered compiler message (`data.rendered`), when present.
    pub rendered: Option<String>,
    /// The short message, when present.
    pub message: Option<String>,
}

/// The text of an optional string, empty when absent.
pub open spec fn text_or_empty(s: Option<String>) -> Seq<char> {
    match s {
        Some(t) => t@,
        None => Seq::empty(),
    }
}

/// A rendered message saying the item was compiled out by a feature gate.
pub open spec fn says_gated(r: Seq<char>) -> bool {
    contains(r, "configured out"@) || contains(r, "gated behind"@)
}

/// A message saying the type does not exist.
pub open spec fn says_missing_type(m: Seq<char>) -> bool {
    contains(m, "cannot find type"@) || contains(m, "not found in"@)
}

/// What the diagnostics say about the queried type: the first error that
/// is feature-gated (`true`, with its rendered text) or names a missing
/// type (`false`, with its message).
pub open spec fn diagnostics_verdict(ds: Seq<Diagnostic>) -> Option<(bool, Seq<char>)>
    decreases ds.len(),
{
    if ds.len() == 0 {
        None
    } else {
        let d = ds[0];
        if d.severity != Some(1u64) {
            diagnostics_verdict(ds.drop_first())
        } else if d.rendered is Some && says_gated(d.rendered->0@) {
            Some((true, d.rendered->0@))
        } else if says_missing_type(text_or_empty(d.message)) {
            Some((false, text_or_empty(d.message)))
        } else {
            diagnostics_verdict(ds.drop_first())
        }
    }
}

fn says_gated_exec(r: &String) -> (b: bool)
    ensures
        b == says_gated(r@),
{
    let v = chars_of(r.as_str());
    contains_exec(&v, &chars_of("configured out")) || contains_exec(&v, &chars_of("gated behind"))
}

fn text_or_empty_exec(s: &Option<String>) -> (r: String)
    ensures
        r@ == text_or_empty(*s),
{
    match s {
        Some(t) => t.clone(),
        None => String::new(),
    }
}

fn first_type_error(type_expr: &str, ds: &Vec<Diagnostic>) -> (r: Result<(), RustMethError>)
    ensures
        match diagnostics_verdict(ds@) {
            None => r is Ok,
            Some((true, text)) => r matches Err(RustMethError::FeatureGated { type_expr: t, message: m })
                && t@ == type_expr@ && m@ == text,
            Some((false, text)) => r matches Err(RustMethError::TypeNotFound { type_expr: t, message: m })
                && t@ == type_expr@ && m@ == text,
        },
{
    let n = ds.len();
    let mut i: usize = 0;
    assert(ds@.subrange(0, n as int) =~= ds@);
    while i < n
        invariant
            i <= n,
            n == ds@.len(),
            diagnostics_verdict(ds@.subrange(i as int, n as int)) == diagnostics_verdict(ds@),
        decreases n - i,
    {
        let ghost rest = ds@.subrange(i as int, n as int);
        assert(rest[0] == ds@[i as int]);
        assert(rest.drop_first() =~= ds@.subrange(i + 1, n as int));
        let d = &ds[i];
        if d.severity == Some(1u64) {
            match &d.rendered {
                Some(rendered) => {
                    if says_gated_exec(rendered) {
                        return Err(
                            RustMethError::FeatureGated {
                                type_expr: owned(type_expr),
                                message: rendered.clone(),
                            },
                        );
                    }
                },
                None => {},
            }
            let message = text_or_empty_exec(&d.message);
            let mv = chars_of(message.as_str());
            if contains_exec(&mv, &chars_of("cannot find type")) || contains_exec(
                &mv,
                &chars_of("not found in"),
            ) {
                return Err(RustMethError::TypeNotFound { type_expr: owned(type_expr), message });
            }
        }
        i = i + 1;
    }
    Ok(())
}

/// Turns the diagnostics published for the probe file into the error they
/// report about `type_expr`, if any (see [`diagnostics_verdict`]); no
/// diagnostics report nothing.
pub fn check_diagnostics_for_type_error(type_expr: &str, diagnostics: Option<&Vec<Diagnostic>>) -> (r:
    Result<(), RustMethError>)
    ensures
        match diagnostics {
            None => r is Ok,
            Some(ds) => match diagnostics_verdict(ds@) {
                None => r is Ok,
                Some((true, text)) => r matches Err(RustMethError::FeatureGated { type_expr: t, message: m })
                    && t@ == type_expr@ && m@ == text,
                Some((false, text)) => r matches Err(RustMethError::TypeNotFound { type_expr: t, message: m })
                    && t@ == type_expr@ && m@ == text,
            },
        },
{
    match diagnostics {
        Some(ds) => first_type_error(type_expr, ds),
        None => Ok(()),
    }
}

// ---------------------------------------------------------------------------
// Completion answers
// ---------------------------------------------------------------------------

/// The methods every type gets from blanket implementations. A completion
/// answer listing exactly these comes from an analyzer that has not yet
/// resolved the type.
pub open spec fn blanket_names() -> Seq<Seq<char>> {
    seq![
        "clamp"@,
        "clone"@,
        "clone_from"@,
        "clone_into"@,
        "cmp"@,
        "eq"@,
        "ge"@,
        "gt"@,
        "into"@,
        "le"@,
        "lt"@,
        "max"@,
        "min"@,
        "ne"@,
        "not"@,
        "partial_cmp"@,
        "to_owned"@,
        "to_string"@,
        "try_into"@,
    ]
}

/// The name a completion label stands for: the text before `(`, trimmed.
pub open spec fn label_name(label: Seq<char>) -> Seq<char> {
    trim(before_char(label, '('))
}

/// The names of the labelled items.
pub open spec fn label_names(labels: Seq<Option<String>>) -> Set<Seq<char>> {
    Set::new(|n: Seq<char>| exists|i: int| 0 <= i < labels.len() && labels[i] is Some && n == label_name(labels[i]->0@))
}

/// Some collected name is `n`.
pub open spec fn collected(names_v: Seq<Vec<char>>, n: Seq<char>) -> bool {
    exists|j: int| 0 <= j < names_v.len() && names_v[j]@ == n
}

/// A completion answer whose items (given by their labels, `None` for an
/// item without one) name exactly the blanket methods, and at least one.
pub open spec fn is_blanket_fallback_spec(labels: Seq<Option<String>>) -> bool {
    let names = label_names(labels);
    !names.is_empty() && names == blanket_names().to_set()
}

/// A completion answer worth using: it has items, and they are not just the
/// blanket methods.
pub open spec fn completion_ready_spec(labels: Seq<Option<String>>) -> bool {
    labels.len() > 0 && !is_blanket_fallback_spec(labels)
}

fn blanket_list() -> (r: Vec<&'static str>)
    ensures
        r@.len() == blanket_names().len(),
        forall|i: int| 0 <= i < r@.len() ==> (#[trigger] r@[i])@ == blanket_names()[i],
{
    vec![
        "clamp",
        "clone",
        "clone_from",
        "clone_into",
        "cmp",
        "eq",
        "ge",
        "gt",
        "into",
        "le",
        "lt",
        "max",
        "min",
        "ne",
        "not",
        "partial_cmp",
        "to_owned",
        "to_string",
        "try_into",
    ]
}

fn label_name_exec(label: &String) -> (r: Vec<char>)
    ensures
        r@ == label_name(label@),
{
    let v = chars_of(label.as_str());
    let head = match find_char_exec(&v, '(') {
        Some(i) => {
            proof {
                crate::text::lemma_find_char(v@, '(');
            }
            slice(&v, 0, i)
        },
        None => {
            assert(v@.subrange(0, v@.len() as int) =~= v@);
            slice(&v, 0, v.len())
        },
    };
    trim_exec(&head)
}

/// Whether the completion items name exactly the blanket methods (see
/// [`is_blanket_fallback_spec`]); `labels` holds each item's label.
pub fn is_blanket_fallback(labels: &Vec<Option<String>>) -> (b: bool)
    ensures
        b == is_blanket_fallback_spec(labels@),
{
    let blanket = blanket_list();
    let ghost bset = blanket_names().to_set();
    let ghost names = label_names(labels@);
    let mut names_v: Vec<Vec<char>> = Vec::new();
    let mut idx: Vec<usize> = Vec::new();
    let mut i: usize = 0;
    // Collect the names of the labelled items.
    while i < labels.len()
        invariant
            i <= labels@.len(),
            names_v@.len() == idx@.len(),
            forall|k: int| 0 <= k < idx@.len() ==> (#[trigger] idx@[k]) < i && labels@[idx@[k] as int] is Some
                && names_v@[k]@ == label_name(labels@[idx@[k] as int]->0@),
            forall|j: int| 0 <= j < i && labels@[j] is Some ==> exists|k: int| 0 <= k < idx@.len() && idx@[k] == j,
        decreases labels@.len() - i,
    {
        match &labels[i] {
            Some(l) => {
                let ghost old_idx = idx@;
                names_v.push(label_name_exec(l));
                idx.push(i);
                assert forall|j: int| 0 <= j < i + 1 && labels@[j] is Some implies exists|k: int|
                    0 <= k < idx@.len() && idx@[k] == j by {
                    if j < i {
                        let k = choose|k: int| 0 <= k < old_idx.len() && old_idx[k] == j;
                        assert(idx@[k] == old_idx[k]);
                    } else {
                        assert(idx@[old_idx.len() as int] == j);
                    }
                }
            },
            None => {},
        }
        i = i + 1;
    }
    // `names` is exactly the set of collected names.
    assert forall|n: Seq<char>| names.contains(n) <==> collected(names_v@, n) by {
        if names.contains(n) {
            let j = choose|j: int| 0 <= j < labels@.len() && labels@[j] is Some && n == label_name(labels@[j]->0@);
            let k = choose|k: int| 0 <= k < idx@.len() && idx@[k] == j;
            assert(names_v@[k]@ == n);
        }
        if collected(names_v@, n) {
            let k = choose|k: int| 0 <= k < names_v@.len() && names_v@[k]@ == n;
            assert(names.contains(n)) by {
                let j = idx@[k] as int;
                assert(0 <= j < labels@.len() && labels@[j] is Some && n == label_name(labels@[j]->0@));
            }
        }
    }
    if names_v.len() == 0 {
        assert(names.is_empty()) by {
            assert forall|n: Seq<char>| !names.contains(n) by {}
            assert(names =~= Set::<Seq<char>>::empty());
        }
        return false;
    }
    assert(names.contains(names_v@[0]@));
    // Every collected name is a blanket name.
    let mut k: usize = 0;
    while k < names_v.len()
        invariant
            k <= names_v@.len(),
            blanket@.len() == blanket_names().len(),
            forall|t: int| 0 <= t < blanket@.len() ==> (#[trigger] blanket@[t])@ == blanket_names()[t],
            forall|t: int| 0 <= t < k ==> bset.contains(#[trigger] names_v@[t]@),
            bset == blanket_names().to_set(),
            forall|n: Seq<char>| names.contains(n) <==> collected(names_v@, n),
            names == label_names(labels@),
        decreases names_v@.len() - k,
    {
        let mut found = false;
        let mut t: usize = 0;
        while t < blanket.len()
            invariant
                t <= blanket@.len(),
                blanket@.len() == blanket_names().len(),
                forall|u: int| 0 <= u < blanket@.len() ==> (#[trigger] blanket@[u])@ == blanket_names()[u],
                found ==> bset.contains(names_v@[k as int]@),
                !found ==> forall|u: int| 0 <= u < t ==> blanket_names()[u] != names_v@[k as int]@,
                bset == blanket_names().to_set(),
                k < names_v@.len(),
            decreases blanket@.len() - t,
        {
            if eq_exec(&names_v[k], &chars_of(blanket[t])) {
                found = true;
                assert(blanket_names().contains(names_v@[k as int]@)) by {
                    assert(blanket_names()[t as int] == names_v@[k as int]@);
                }
            }
            t = t + 1;
        }
        if !found {
            assert(!bset.contains(names_v@[k as int]@)) by {
                if bset.contains(names_v@[k as int]@) {
                    let u = choose|u: int| 0 <= u < blanket_names().len() && blanket_names()[u] == names_v@[k as int]@;
                }
            }
            assert(collected(names_v@, names_v@[k as int]@));
            assert(names.contains(names_v@[k as int]@));
            assert(names != bset);
            return false;
        }
        k = k + 1;
    }
    // Every blanket name is among the collected names.
    let mut t: usize = 0;
    while t < blanket.len()
        invariant
            t <= blanket@.len(),
            blanket@.len() == blanket_names().len(),
            forall|u: int| 0 <= u < blanket@.len() ==> (#[trigger] blanket@[u])@ == blanket_names()[u],
            forall|u: int| 0 <= u < t ==> collected(names_v@, #[trigger] blanket_names()[u]),
            bset == blanket_names().to_set(),
            forall|n: Seq<char>| names.contains(n) <==> collected(names_v@, n),
            forall|q: int| 0 <= q < names_v@.len() ==> bset.contains(#[trigger] names_v@[q]@),
            names_v@.len() > 0,
            names == label_names(labels@),
        decreases blanket@.len() - t,
    {
        let want = chars_of(blanket[t]);
        let mut found = false;
        let mut k: usize = 0;
        while k < names_v.len()
            invariant
                k <= names_v@.len(),
                t < blanket_names().len(),
                want@ == blanket_names()[t as int],
                found ==> collected(names_v@, want@),
                !found ==> forall|j: int| 0 <= j < k ==> names_v@[j]@ != want@,
            decreases names_v@.len() - k,
        {
            if eq_exec(&names_v[k], &want) {
                found = true;
                assert(names_v@[k as int]@ == want@);
            }
            k = k + 1;
        }
        if !found {
            assert(bset.contains(want@)) by {
                assert(blanket_names()[t as int] == want@);
            }
            assert(!collected(names_v@, want@));
            assert(!names.contains(want@));
            assert(names != bset);
            return false;
        }
        t = t + 1;
    }
    assert(names =~= bset) by {
        assert forall|n: Seq<char>| names.contains(n) implies bset.contains(n) by {
            let k = choose|k: int| 0 <= k < names_v@.len() && names_v@[k]@ == n;
            assert(bset.contains(names_v@[k]@));
        }
        assert forall|n: Seq<char>| bset.contains(n) implies names.contains(n) by {
            let u = choose|u: int| 0 <= u < blanket_names().len() && blanket_names()[u] == n;
            assert(collected(names_v@, blanket_names()[u]));
        }
    }
    true
}

/// Whether a completion answer can be used (see [`completion_ready_spec`]).
pub fn completion_ready(labels: &Vec<Option<String>>) -> (b: bool)
    ensures
        b == completion_ready_spec(labels@),
{
    labels.len() > 0 && !is_blanket_fallback(labels)
}

/// Whether a definition answer can be used: it is not an error and its
/// result is not null.
pub fn definition_ready(has_error_code: bool, result_is_null: bool) -> (b: bool)
    ensures
        b == (!has_error_code && !result_is_null),
{
    !has_error_code && !result_is_null
}

// ---------------------------------------------------------------------------
// Retrying
// ---------------------------------------------------------------------------

/// What to do after an attempt of a retried request.
#[derive(Debug)]
pub enum RetryStep {
    /// Use this answer.
    Done,
    /// Wait and try again.
    Retry,
    /// Give up: report a timeout.
    GiveUp,
}

/// The step after attempt `attempt` (counted from 1) of at most
/// `max_attempts`, given whether its answer was usable.
pub fn retry_step(attempt: u64, max_attempts: u64, ready: bool) -> (r: RetryStep)
    ensures
        ready ==> r is Done,
        !ready && attempt < max_attempts ==> r is Retry,
        !ready && attempt >= max_attempts ==> r is GiveUp,
{
    if ready {
        RetryStep::Done
    } else if attempt < max_attempts {
        RetryStep::Retry
    } else {
        RetryStep::GiveUp
    }
}

/// The request id of attempt `attempt`: ids 1 and 2 belong to the
/// handshake, so attempts count on from 3.
pub fn request_id(attempt: u64) -> (r: u64)
    requires
        attempt <= u64::MAX - 2,
    ensures
        r == attempt + 2,
{
    attempt + 2
}

/// The error of a request that never got a usable answer.
pub fn timeout_error(type_expr: &str, waited_secs: u64) -> (r: RustMethError)
    ensures
        r matches RustMethError::Timeout { type_expr: t, waited_secs: w } && t@ == type_expr@ && w
            == waited_secs,
{
    RustMethError::Timeout { type_expr: owned(type_expr), waited_secs }
}

// ---------------------------------------------------------------------------
// Waiting for indexing
// ---------------------------------------------------------------------------

/// One message from the analyzer, as far as waiting for indexing needs it.
pub struct Notice {
    /// The notification's method, when it has one.
    pub method: Option<String>,
    /// A `$/progress` notification whose `value.kind` is `end`.
    pub progress_end: bool,
    /// A server status that says it is quiescent.
    pub quiescent: bool,
    /// The document a diagnostics notification is about.
    pub uri: Option<String>,
    /// The diagnostics it carries, when they form a list.
    pub diagnostics: Option<Vec<Diagnostic>>,
}

/// What to do with a message while waiting for indexing.
#[derive(Debug)]
pub struct IndexingStep {
    /// Indexing is over (or waiting has taken too long).
    pub stop: bool,
    /// Keep this message as the probe file's diagnostics.
    pub keep: bool,
}

/// An error diagnostic that names a missing type.
pub open spec fn is_type_error(d: Diagnostic) -> bool {
    d.severity == Some(1u64) && d.message is Some && says_missing_type(d.message->0@)
}

/// The decision for one message: stop on the end of progress, a quiescent
/// status, a diagnostics refresh or published diagnostics (any of them says
/// the server is ready); keep the probe file's diagnostics when they report
/// a missing type, or when none were kept yet.
pub open spec fn indexing_step_spec(n: Notice, probe_uri: Seq<char>, have_kept: bool, timed_out: bool) -> (bool, bool) {
    if timed_out {
        (true, false)
    } else {
        let m = text_or_empty(n.method);
        if n.method is Some && m == "$/progress"@ {
            (n.progress_end, false)
        } else if n.method is Some && m == "experimental/serverStatus"@ {
            (n.quiescent, false)
        } else if n.method is Some && m == "workspace/diagnostic/refresh"@ {
            (true, false)
        } else if n.method is Some && m == "textDocument/publishDiagnostics"@ {
            let is_probe = n.uri is Some && n.uri->0@ == probe_uri;
            let has_type_error = is_probe && n.diagnostics is Some && exists|i: int|
                0 <= i < n.diagnostics->0@.len() && is_type_error(#[trigger] n.diagnostics->0@[i]);
            (true, has_type_error || (is_probe && !have_kept))
        } else {
            (false, false)
        }
    }
}

/// Decides what to do with one message while waiting for indexing (see
/// [`indexing_step_spec`]). `timed_out` says that the wait has run too long.
pub fn indexing_step(notice: &Notice, probe_uri: &str, have_kept: bool, timed_out: bool) -> (r: IndexingStep)
    ensures
        (r.stop, r.keep) == indexing_step_spec(*notice, probe_uri@, have_kept, timed_out),
{
    if timed_out {
        return IndexingStep { stop: true, keep: false };
    }
    let method = match &notice.method {
        Some(m) => m,
        None => return IndexingStep { stop: false, keep: false },
    };
    let m = method.as_str();
    if same_text(m, "$/progress") {
        IndexingStep { stop: notice.progress_end, keep: false }
    } else if same_text(m, "experimental/serverStatus") {
        IndexingStep { stop: notice.quiescent, keep: false }
    } else if same_text(m, "workspace/diagnostic/refresh") {
        IndexingStep { stop: true, keep: false }
    } else if same_text(m, "textDocument/publishDiagnostics") {
        let is_probe = match &notice.uri {
            Some(u) => same_text(u.as_str(), probe_uri),
            None => false,
        };
        let mut has_type_error = false;
        if is_probe {
            match &notice.diagnostics {
                Some(ds) => {
                    let mut i: usize = 0;
                    while i < ds.len()
                        invariant
                            i <= ds@.len(),
                            has_type_error == exists|j: int| 0 <= j < i && is_type_error(#[trigger] ds@[j]),
                        decreases ds@.len() - i,
                    {
                        let d = &ds[i];
                        let hit = d.severity == Some(1u64) && match &d.message {
                            Some(msg) => {
                                let mv = chars_of(msg.as_str());
                                contains_exec(&mv, &chars_of("cannot find type")) || contains_exec(
                                    &mv,
                                    &chars_of("not found in"),
                                )
                            },
                            None => false,
                        };
                        assert(hit == is_type_error(ds@[i as int]));
                        if hit {
                            has_type_error = true;
                        }
                        i = i + 1;
                    }
                },
                None => {},
            }
        }
        IndexingStep { stop: true, keep: has_type_error || (is_probe && !have_kept) }
    } else {
        IndexingStep { stop: false, keep: false }
    }
}

} // verus!
