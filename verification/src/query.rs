//! Ranking methods against a query string, and the chainable query builder.
use vstd::prelude::*;

use crate::analyzer::{Definition, Method};
use crate::error::RustMethError;
use crate::text::{opt_str_view};
use crate::text::{chars_of, contains, contains_exec, eq_exec, has_prefix, starts_with_exec};

verus! {

/// Match quality of `name` against the query `q`: 3 for an exact match,
/// 2 for a prefix match, 1 for a substring match, 0 for no match.
pub open spec fn match_score(name: Seq<char>, q: Seq<char>) -> int {
    if name == q {
        3
    } else if has_prefix(name, q) {
        2
    } else if contains(name, q) {
        1
    } else {
        0
    }
}

/// The methods of `ms` whose name scores exactly `t` against `q`, in input order.
pub open spec fn tier(ms: Seq<Method>, q: Seq<char>, t: int) -> Seq<Method> {
    ms.filter(|m: Method| match_score(m.name@, q) == t)
}

/// The ranking `filter_methods` produces: every method when the query is
/// empty; otherwise exact matches, then prefix matches, then substring
/// matches, each tier in input order (a stable sort by descending score).
pub open spec fn ranked(ms: Seq<Method>, q: Seq<char>) -> Seq<Method> {
    if q.len() == 0 {
        ms
    } else {
        tier(ms, q, 3) + tier(ms, q, 2) + tier(ms, q, 1)
    }
}

/// The methods a sequence of references points at.
pub open spec fn targets(rs: Seq<&Method>) -> Seq<Method> {
    rs.map_values(|r: &Method| *r)
}

/// Scores one method name against the query (see [`match_score`]).
pub fn score_name(name: &String, q: &Vec<char>) -> (r: u8)
    ensures
        r as int == match_score(name@, q@),
{
    let n = chars_of(name.as_str());
    if eq_exec(&n, q) {
        3
    } else if starts_with_exec(&n, q) {
        2
    } else if contains_exec(&n, q) {
        1
    } else {
        0
    }
}

/// Appends to `out` the methods whose name scores exactly `t`, in input order.
fn push_tier<'a>(methods: &'a [Method], q: &Vec<char>, t: u8, out: &mut Vec<&'a Method>)
    ensures
        targets(final(out)@) == targets(old(out)@) + tier(methods@, q@, t as int),
{
    let ghost start = targets(out@);
    let ghost pred = |m: Method| match_score(m.name@, q@) == t as int;
    let mut i: usize = 0;
    while i < methods.len()
        invariant
            i <= methods@.len(),
            pred == (|m: Method| match_score(m.name@, q@) == t as int),
            targets(out@) == start + methods@.take(i as int).filter(pred),
        decreases methods@.len() - i,
    {
        let s = score_name(&methods[i].name, q);
        proof {
            assert(methods@.take(i + 1) =~= methods@.take(i as int).push(methods@[i as int]));
            methods@.take(i as int).lemma_filter_push(methods@[i as int], pred);
            assert(s as int == match_score(methods@[i as int].name@, q@));
            assert(pred(methods@[i as int]) == (s == t));
        }
        if s == t {
            let ghost prev = out@;
            out.push(&methods[i]);
            assert(targets(out@) =~= targets(prev).push(methods@[i as int]));
            assert(targets(out@) =~= start + methods@.take(i + 1).filter(pred));
        } else {
            assert(targets(out@) =~= start + methods@.take(i + 1).filter(pred));
        }
        i = i + 1;
    }
    assert(methods@.take(methods@.len() as int) =~= methods@);
}

/// Filters and ranks `methods` against `query`.
///
/// Exact matches come first, then prefix matches, then substring matches;
/// methods that do not match are left out, and each tier keeps the input
/// order. An empty query returns every method in input order.
pub fn filter_methods<'a>(methods: &'a [Method], query: &str) -> (r: Vec<&'a Method>)
    ensures
        targets(r@) == ranked(methods@, query@),
{
    let q = chars_of(query);
    let mut out: Vec<&'a Method> = Vec::new();
    if q.len() == 0 {
        let mut i: usize = 0;
        while i < methods.len()
            invariant
                i <= methods@.len(),
                targets(out@) == methods@.take(i as int),
            decreases methods@.len() - i,
        {
            let ghost prev = out@;
            out.push(&methods[i]);
            assert(targets(out@) =~= targets(prev).push(methods@[i as int]));
            i = i + 1;
            assert(targets(out@) =~= methods@.take(i as int));
        }
        assert(methods@.take(methods@.len() as int) =~= methods@);
        return out;
    }
    assert(targets(out@) =~= Seq::<Method>::empty());
    push_tier(methods, &q, 3, &mut out);
    push_tier(methods, &q, 2, &mut out);
    push_tier(methods, &q, 1, &mut out);
    assert(targets(out@) =~= ranked(methods@, query@));
    out
}

// ---------------------------------------------------------------------------
// Laws of the ranking
// ---------------------------------------------------------------------------

/// Law: an empty query keeps every method, in order.
pub proof fn lemma_empty_query_keeps_all(ms: Seq<Method>)
    ensures
        ranked(ms, Seq::empty()) == ms,
{
}

/// Law: with a non-empty query, every ranked method matches the query
/// (exactly, as a prefix or as a substring), and every method that matches
/// is ranked.
pub proof fn lemma_ranked_are_the_matches(ms: Seq<Method>, q: Seq<char>)
    requires
        q.len() > 0,
    ensures
        forall|i: int| 0 <= i < ranked(ms, q).len() ==> match_score(#[trigger] ranked(ms, q)[i].name@, q) > 0,
        forall|m: Method| ms.contains(m) && match_score(m.name@, q) > 0 ==> #[trigger] ranked(ms, q).contains(m),
{
    let p3 = |m: Method| match_score(m.name@, q) == 3;
    let p2 = |m: Method| match_score(m.name@, q) == 2;
    let p1 = |m: Method| match_score(m.name@, q) == 1;
    let t3 = ms.filter(p3);
    let t2 = ms.filter(p2);
    let t1 = ms.filter(p1);
    broadcast use vstd::seq_lib::group_filter_ensures;
    assert(ranked(ms, q) == t3 + t2 + t1);
    assert forall|i: int| 0 <= i < ranked(ms, q).len() implies match_score(
        #[trigger] ranked(ms, q)[i].name@,
        q,
    ) > 0 by {
        let r = ranked(ms, q);
        if i < t3.len() {
            assert(r[i] == t3[i]);
            assert(t3.contains(t3[i]));
        } else if i < t3.len() + t2.len() {
            assert(r[i] == t2[i - t3.len()]);
            assert(t2.contains(t2[i - t3.len()]));
        } else {
            assert(r[i] == t1[i - t3.len() - t2.len()]);
            assert(t1.contains(t1[i - t3.len() - t2.len()]));
        }
    }
    assert forall|m: Method| ms.contains(m) && match_score(m.name@, q) > 0 implies #[trigger] ranked(
        ms,
        q,
    ).contains(m) by {
        let r = ranked(ms, q);
        let s = match_score(m.name@, q);
        if s == 3 {
            assert(t3.contains(m));
            let k = choose|k: int| 0 <= k < t3.len() && t3[k] == m;
            assert(r[k] == m);
        } else if s == 2 {
            assert(t2.contains(m));
            let k = choose|k: int| 0 <= k < t2.len() && t2[k] == m;
            assert(r[t3.len() + k] == m);
        } else {
            assert(s == 1);
            assert(t1.contains(m));
            let k = choose|k: int| 0 <= k < t1.len() && t1[k] == m;
            assert(r[t3.len() + t2.len() + k] == m);
        }
    }
}

/// Law: the ranking never puts a weaker match before a stronger one.
pub proof fn lemma_ranked_scores_descend(ms: Seq<Method>, q: Seq<char>)
    requires
        q.len() > 0,
    ensures
        forall|i: int, j: int|
            0 <= i < j < ranked(ms, q).len() ==> match_score(#[trigger] ranked(ms, q)[i].name@, q)
                >= match_score(#[trigger] ranked(ms, q)[j].name@, q),
{
    let p3 = |m: Method| match_score(m.name@, q) == 3;
    let p2 = |m: Method| match_score(m.name@, q) == 2;
    let p1 = |m: Method| match_score(m.name@, q) == 1;
    let t3 = ms.filter(p3);
    let t2 = ms.filter(p2);
    let t1 = ms.filter(p1);
    broadcast use vstd::seq_lib::group_filter_ensures;
    let r = ranked(ms, q);
    assert(r == t3 + t2 + t1);
    assert forall|i: int| 0 <= i < r.len() implies #[trigger] match_score(r[i].name@, q) == (if i
        < t3.len() {
        3int
    } else if i < t3.len() + t2.len() {
        2int
    } else {
        1int
    }) by {
        if i < t3.len() {
            assert(r[i] == t3[i]);
        } else if i < t3.len() + t2.len() {
            assert(r[i] == t2[i - t3.len()]);
        } else {
            assert(r[i] == t1[i - t3.len() - t2.len()]);
        }
    }
}

// ---------------------------------------------------------------------------
// Results with definitions
// ---------------------------------------------------------------------------

/// A method with the place it is defined, when that is known.
#[derive(Debug)]
pub struct MethodResult {
    /// The method.
    pub method: Method,
    /// Where it is defined; `None` when the analyzer knows no location.
    pub definition: Option<Definition>,
}

/// Pairs each method with the outcome of its definition lookup, in order.
/// The first lookup that failed decides the error; lookups that found no
/// location give `definition: None`.
pub fn collect_definitions(
    methods: Vec<Method>,
    outcomes: Vec<Result<Option<Definition>, RustMethError>>,
) -> (r: Result<Vec<MethodResult>, RustMethError>)
    requires
        methods@.len() == outcomes@.len(),
    ensures
        match r {
            Ok(rs) => {
                &&& rs@.len() == methods@.len()
                &&& forall|i: int| 0 <= i < outcomes@.len() ==> (#[trigger] outcomes@[i]) is Ok
                &&& forall|i: int|
                    0 <= i < rs@.len() ==> (#[trigger] rs@[i]).method == methods@[i] && outcomes@[i]
                        == Ok::<Option<Definition>, RustMethError>(rs@[i].definition)
            },
            Err(e) => exists|i: int|
                0 <= i < outcomes@.len() && outcomes@[i] == Err::<Option<Definition>, RustMethError>(e)
                    && forall|j: int| 0 <= j < i ==> (#[trigger] outcomes@[j]) is Ok,
        },
{
    let ghost ms = methods@;
    let ghost os = outcomes@;
    let mut out: Vec<MethodResult> = Vec::new();
    let mut mrest = crate::text::reversed(methods);
    let mut orest = crate::text::reversed(outcomes);
    assert(ms.subrange(0, ms.len() as int) =~= ms);
    assert(os.subrange(0, os.len() as int) =~= os);
    let n = mrest.len();
    while mrest.len() > 0
        invariant
            n == ms.len(),
            mrest@.len() == orest@.len(),
            out@.len() + mrest@.len() == n,
            mrest@ == ms.subrange(out@.len() as int, n as int).reverse(),
            orest@ == os.subrange(out@.len() as int, n as int).reverse(),
            os.len() == n,
            os == outcomes@,
            ms == methods@,
            forall|i: int| 0 <= i < out@.len() ==> (#[trigger] os[i]) is Ok,
            forall|i: int|
                0 <= i < out@.len() ==> (#[trigger] out@[i]).method == ms[i] && os[i] == Ok::<
                    Option<Definition>,
                    RustMethError,
                >(out@[i].definition),
        decreases mrest@.len(),
    {
        let ghost k = out@.len() as int;
        let m = mrest.pop().unwrap();
        let o = orest.pop().unwrap();
        assert(m == ms[k]);
        assert(o == os[k]);
        match o {
            Ok(d) => {
                out.push(MethodResult { method: m, definition: d });
            },
            Err(e) => {
                assert(os[k] == Err::<Option<Definition>, RustMethError>(e));
                assert(forall|j: int| 0 <= j < k ==> (#[trigger] os[j]) is Ok);
                return Err(e);
            },
        }
        assert(mrest@ =~= ms.subrange(out@.len() as int, n as int).reverse());
        assert(orest@ =~= os.subrange(out@.len() as int, n as int).reverse());
    }
    Ok(out)
}

// ---------------------------------------------------------------------------
// The query builder
// ---------------------------------------------------------------------------

/// A chainable description of a method query: the type, the dependency
/// lines it needs, and a filter for the results.
pub struct MethodQuery<'a> {
    type_expr: &'a str,
    deps: Option<&'a str>,
    filter: Option<&'a str>,
}

impl<'a> View for MethodQuery<'a> {
    type V = (Seq<char>, Option<Seq<char>>, Option<Seq<char>>);

    closed spec fn view(&self) -> (Seq<char>, Option<Seq<char>>, Option<Seq<char>>) {
        (self.type_expr@, opt_str_view(self.deps), opt_str_view(self.filter))
    }
}

impl<'a> MethodQuery<'a> {
    /// A query for the methods of `type_expr`, with no dependencies and no
    /// filter.
    pub fn new(type_expr: &'a str) -> (r: Self)
        ensures
            r@ == (type_expr@, None::<Seq<char>>, None::<Seq<char>>),
    {
        MethodQuery { type_expr, deps: None, filter: None }
    }

    /// The same query with Cargo dependency lines for third-party types.
    pub fn deps(self, deps: &'a str) -> (r: Self)
        ensures
            r@ == (self@.0, Some(deps@), self@.2),
    {
        MethodQuery { type_expr: self.type_expr, deps: Some(deps), filter: self.filter }
    }

    /// The same query, keeping only the methods that match `query` (ranked
    /// as [`filter_methods`] ranks them).
    pub fn filter(self, query: &'a str) -> (r: Self)
        ensures
            r@ == (self@.0, self@.1, Some(query@)),
    {
        MethodQuery { type_expr: self.type_expr, deps: self.deps, filter: Some(query) }
    }

    /// The type this query is about.
    pub fn type_expr(&self) -> (r: &'a str)
        ensures
            r@ == self@.0,
    {
        self.type_expr
    }

    /// The dependency lines this query needs.
    pub fn dependencies(&self) -> (r: Option<&'a str>)
        ensures
            opt_str_view(r) == self@.1,
    {
        self.deps
    }

    /// Finishes the query on what the analyzer's method query gave for the
    /// type: its failure unchanged; else all methods without a filter, or
    /// the ranked matches of the filter, in ranked order.
    pub fn run(self, queried: Result<Vec<Method>, RustMethError>) -> (r: Result<Vec<Method>, RustMethError>)
        ensures
            match queried {
                Err(e) => r == Err::<Vec<Method>, RustMethError>(e),
                Ok(ms) => r matches Ok(v) && v@ == match self@.2 {
                    None => ms@,
                    Some(q) => ranked(ms@, q),
                },
            },
    {
        let methods = match queried {
            Ok(ms) => ms,
            Err(e) => return Err(e),
        };
        match self.filter {
            None => Ok(methods),
            Some(q) => {
                let picked = filter_methods(methods.as_slice(), q);
                let mut out: Vec<Method> = Vec::new();
                let mut i: usize = 0;
                while i < picked.len()
                    invariant
                        i <= picked@.len(),
                        out@ == targets(picked@).take(i as int),
                    decreases picked@.len() - i,
                {
                    out.push(picked[i].duplicate());
                    i = i + 1;
                    assert(out@ =~= targets(picked@).take(i as int));
                }
                assert(targets(picked@).take(picked@.len() as int) =~= targets(picked@));
                Ok(out)
            },
        }
    }
}

} // verus!
