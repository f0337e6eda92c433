//! Fuzzy filtering of methods, as used by the interactive picker and the
//! plain listing. Scores come from the `fuzzy-matcher` crate's skim matcher.
use fuzzy_matcher::FuzzyMatcher;
use vstd::prelude::*;

use crate::analyzer::Method;
use crate::query::targets;
use crate::text::{ascii_lower, is_ascii_upper};

verus! {

/// The score that `SkimMatcherV2::default().fuzzy_match(choice, pattern)`
/// reports when it reports one.
pub uninterp spec fn skim_score(choice: Seq<char>, pattern: Seq<char>) -> i64;

/// The default skim matcher matches case-sensitively exactly when the
/// pattern holds an ASCII upper-case letter ("smart case").
pub open spec fn smart_case_sensitive(pattern: Seq<char>) -> bool {
    exists|i: int| 0 <= i < pattern.len() && is_ascii_upper(pattern[i])
}

/// Character equality as the skim matcher applies it.
pub open spec fn chars_match(c: char, p: char, case_sensitive: bool) -> bool {
    if case_sensitive {
        c == p
    } else {
        ascii_lower(c) == ascii_lower(p)
    }
}

/// `pattern` occurs in `choice` as a (not necessarily contiguous)
/// subsequence under [`chars_match`], found greedily from the left.
pub open spec fn subsequence_match(choice: Seq<char>, pattern: Seq<char>, cs: bool) -> bool
    decreases choice.len(),
{
    if pattern.len() == 0 {
        true
    } else if choice.len() == 0 {
        false
    } else if chars_match(choice[0], pattern[0], cs) {
        subsequence_match(choice.drop_first(), pattern.drop_first(), cs)
    } else {
        subsequence_match(choice.drop_first(), pattern, cs)
    }
}

/// Whether the skim matcher accepts `choice` for `pattern`.
pub open spec fn fuzzy_matches(choice: Seq<char>, pattern: Seq<char>) -> bool {
    subsequence_match(choice, pattern, smart_case_sensitive(pattern))
}

/// What `SkimMatcherV2::default().fuzzy_match(choice, pattern)` returns.
pub open spec fn fuzzy_result(choice: Seq<char>, pattern: Seq<char>) -> Option<i64> {
    if pattern.len() == 0 {
        Some(0)
    } else if fuzzy_matches(choice, pattern) {
        Some(skim_score(choice, pattern))
    } else {
        None
    }
}

/// Calls `fuzzy_matcher::skim::SkimMatcherV2::default().fuzzy_match`.
///
/// Trusted: the crate returns `Some(0)` for an empty pattern, and otherwise
/// `Some(score)` exactly when its first greedy left-to-right pass finds every
/// pattern character in the choice (case-insensitively for ASCII unless the
/// pattern holds an ASCII capital). The score itself is left to the named
/// result [`skim_score`]: it comes from the crate's dynamic-programming
/// alignment and depends on the two strings alone.
#[verifier::external_body]
pub(crate) fn skim_fuzzy_match(choice: &str, pattern: &str) -> (r: Option<i64>)
    ensures
        pattern@.len() == 0 ==> r == Some(0i64),
        pattern@.len() > 0 && fuzzy_matches(choice@, pattern@) ==> r == Some(
            skim_score(choice@, pattern@),
        ),
        pattern@.len() > 0 && !fuzzy_matches(choice@, pattern@) ==> r is None,
{
    fuzzy_matcher::skim::SkimMatcherV2::default().fuzzy_match(choice, pattern)
}

/// The key by which a method is ranked against `pattern`: the score the
/// matcher reports for its name (0 when it reports none).
pub open spec fn fuzzy_key(m: Method, pattern: Seq<char>) -> i64 {
    match fuzzy_result(m.name@, pattern) {
        Some(s) => s,
        None => 0,
    }
}

/// The methods that the skim matcher accepts for `pattern`, in input order.
pub open spec fn fuzzy_matched(ms: Seq<Method>, pattern: Seq<char>) -> Seq<Method> {
    ms.filter(|m: Method| fuzzy_result(m.name@, pattern) is Some)
}

/// The methods of `ms` whose key against `pattern` is `v`, in order.
pub open spec fn with_key(ms: Seq<Method>, pattern: Seq<char>, v: i64) -> Seq<Method> {
    ms.filter(|m: Method| fuzzy_key(m, pattern) == v)
}

/// Keys never increase along `ms`.
pub open spec fn keys_descending(ms: Seq<Method>, pattern: Seq<char>) -> bool {
    forall|a: int, b: int|
        0 <= a < b < ms.len() ==> fuzzy_key(ms[a], pattern) >= fuzzy_key(ms[b], pattern)
}

/// `rs` is the stable sort of the accepted methods by descending score: the
/// keys never increase, and the methods sharing any one key keep the order
/// they have in the input.
pub open spec fn fuzzy_ranked(rs: Seq<Method>, ms: Seq<Method>, pattern: Seq<char>) -> bool {
    &&& keys_descending(rs, pattern)
    &&& forall|v: i64| with_key(rs, pattern, v) == with_key(fuzzy_matched(ms, pattern), pattern, v)
}

/// Filtering of `a + b` is the filtering of `a` followed by that of `b`.
proof fn lemma_filter_add(a: Seq<Method>, b: Seq<Method>, f: spec_fn(Method) -> bool)
    ensures
        (a + b).filter(f) == a.filter(f) + b.filter(f),
{
    Seq::filter_distributes_over_add(a, b, f);
}

/// A sequence none of whose elements passes `f` filters to nothing.
proof fn lemma_filter_none(a: Seq<Method>, f: spec_fn(Method) -> bool)
    requires
        forall|i: int| 0 <= i < a.len() ==> !f(a[i]),
    ensures
        a.filter(f) == Seq::<Method>::empty(),
    decreases a.len(),
{
    reveal(Seq::filter);
    if a.len() > 0 {
        lemma_filter_none(a.drop_last(), f);
    }
}

/// Inserting `x` after every element whose key is at least its own keeps the
/// keys descending and appends `x` to the group of its key.
proof fn lemma_insert_stable(rs: Seq<Method>, x: Method, pos: int, pattern: Seq<char>)
    requires
        keys_descending(rs, pattern),
        0 <= pos <= rs.len(),
        forall|j: int| 0 <= j < pos ==> fuzzy_key(rs[j], pattern) >= fuzzy_key(x, pattern),
        forall|j: int| pos <= j < rs.len() ==> fuzzy_key(rs[j], pattern) < fuzzy_key(x, pattern),
    ensures
        keys_descending(rs.insert(pos, x), pattern),
        forall|v: i64|
            with_key(rs.insert(pos, x), pattern, v) == if v == fuzzy_key(x, pattern) {
                with_key(rs, pattern, v).push(x)
            } else {
                with_key(rs, pattern, v)
            },
{
    let a = rs.subrange(0, pos);
    let b = rs.subrange(pos, rs.len() as int);
    let r2 = rs.insert(pos, x);
    assert(rs =~= a + b);
    assert(r2 =~= a + seq![x] + b);
    assert forall|v: i64|
        with_key(r2, pattern, v) == if v == fuzzy_key(x, pattern) {
            with_key(rs, pattern, v).push(x)
        } else {
            with_key(rs, pattern, v)
        } by {
        let f = |m: Method| fuzzy_key(m, pattern) == v;
        lemma_filter_add(a + seq![x], b, f);
        lemma_filter_add(a, seq![x], f);
        lemma_filter_add(a, b, f);
        reveal(Seq::filter);
        assert(seq![x].drop_last() =~= Seq::<Method>::empty());
        if v == fuzzy_key(x, pattern) {
            assert forall|i: int| 0 <= i < b.len() implies !f(b[i]) by {
                assert(b[i] == rs[pos + i]);
            }
            lemma_filter_none(b, f);
            assert(with_key(r2, pattern, v) =~= with_key(rs, pattern, v).push(x));
        } else {
            Seq::<Method>::empty().lemma_filter_push(x, f);
            assert(Seq::<Method>::empty().push(x) =~= seq![x]);
            assert(Seq::<Method>::empty().filter(f) =~= Seq::<Method>::empty());
            assert(seq![x].filter(f) =~= Seq::<Method>::empty());
            assert(with_key(r2, pattern, v) =~= with_key(rs, pattern, v));
        }
    }
}

/// Fuzzy-filters `methods` against an optional pattern.
///
/// Without a pattern every method is returned in input order. With one, the
/// methods the skim matcher rejects are dropped and the rest are sorted by
/// descending score, ties keeping their input order.
pub fn filter_methods<'a>(methods: &'a [Method], filter: Option<&str>) -> (r: Vec<&'a Method>)
    ensures
        filter is None ==> targets(r@) == methods@,
        filter matches Some(p) ==> fuzzy_ranked(targets(r@), methods@, p@),
{
    let mut out: Vec<&'a Method> = Vec::new();
    let mut keys: Vec<i64> = Vec::new();
    let mut i: usize = 0;
    match filter {
        None => {
            while i < methods.len()
                invariant
                    i <= methods@.len(),
                    targets(out@) == methods@.take(i as int),
                decreases methods@.len() - i,
            {
                let ghost prev = out@;
                out.push(&methods[i]);
                assert(targets(out@) =~= targets(prev).push(methods@[i as int]));
                i = i + 1;
                assert(targets(out@) =~= methods@.take(i as int));
            }
            assert(methods@.take(methods@.len() as int) =~= methods@);
            out
        },
        Some(pat) => {
            let ghost accept = |m: Method| fuzzy_result(m.name@, pat@) is Some;
            assert(targets(out@) =~= Seq::<Method>::empty());
            proof {
                assert forall|v: i64|
                    with_key(targets(out@), pat@, v) == with_key(
                        methods@.take(0).filter(accept),
                        pat@,
                        v,
                    ) by {
                    reveal(Seq::filter);
                    assert(methods@.take(0) =~= Seq::<Method>::empty());
                }
            }
            while i < methods.len()
                invariant
                    i <= methods@.len(),
                    accept == (|m: Method| fuzzy_result(m.name@, pat@) is Some),
                    keys@.len() == out@.len(),
                    forall|j: int|
                        0 <= j < out@.len() ==> keys@[j] == fuzzy_key(targets(out@)[j], pat@),
                    keys_descending(targets(out@), pat@),
                    forall|v: i64|
                        with_key(targets(out@), pat@, v) == with_key(
                            methods@.take(i as int).filter(accept),
                            pat@,
                            v,
                        ),
                decreases methods@.len() - i,
            {
                let m = &methods[i];
                let res = skim_fuzzy_match(m.name.as_str(), pat);
                proof {
                    assert(methods@.take(i + 1) =~= methods@.take(i as int).push(methods@[i as int]));
                    methods@.take(i as int).lemma_filter_push(methods@[i as int], accept);
                }
                match res {
                    Some(score) => {
                        // Insert after every element whose score is at least `score`.
                        let mut pos: usize = 0;
                        while pos < keys.len() && keys[pos] >= score
                            invariant
                                keys@.len() == out@.len(),
                                pos <= keys@.len(),
                                forall|j: int| 0 <= j < pos ==> keys@[j] >= score,
                            decreases keys@.len() - pos,
                        {
                            pos = pos + 1;
                        }
                        let ghost before = targets(out@);
                        proof {
                            assert(score == fuzzy_key(methods@[i as int], pat@));
                            assert forall|j: int| 0 <= j < pos implies fuzzy_key(before[j], pat@)
                                >= score by {
                                assert(keys@[j] >= score);
                                assert(keys@[j] == fuzzy_key(before[j], pat@));
                            }
                            assert forall|j: int| pos <= j < before.len() implies fuzzy_key(
                                before[j],
                                pat@,
                            ) < score by {
                                if pos < keys@.len() {
                                    assert(keys@[pos as int] < score);
                                    assert(keys@[pos as int] == fuzzy_key(before[pos as int], pat@));
                                }
                            }
                            lemma_insert_stable(before, methods@[i as int], pos as int, pat@);
                        }
                        let ghost prev_keys = keys@;
                        let ghost prev_out = out@;
                        out.insert(pos, m);
                        keys.insert(pos, score);
                        assert(targets(out@) =~= before.insert(pos as int, methods@[i as int]));
                        assert forall|j: int| 0 <= j < out@.len() implies keys@[j] == fuzzy_key(
                            targets(out@)[j],
                            pat@,
                        ) by {
                            if j < pos {
                                assert(keys@[j] == prev_keys[j]);
                            } else if j > pos {
                                assert(keys@[j] == prev_keys[j - 1]);
                                assert(targets(out@)[j] == before[j - 1]);
                            }
                        }
                        proof {
                            let x = methods@[i as int];
                            let done = methods@.take(i as int).filter(accept);
                            assert(accept(x));
                            assert(methods@.take(i + 1).filter(accept) == done.push(x));
                            assert forall|v: i64|
                                with_key(targets(out@), pat@, v) == with_key(
                                    methods@.take(i + 1).filter(accept),
                                    pat@,
                                    v,
                                ) by {
                                done.lemma_filter_push(x, |m: Method| fuzzy_key(m, pat@) == v);
                            }
                        }
                    },
                    None => {
                        proof {
                            let x = methods@[i as int];
                            assert(!accept(x));
                            assert(methods@.take(i + 1).filter(accept) == methods@.take(
                                i as int,
                            ).filter(accept));
                        }
                    },
                }
                i = i + 1;
            }
            assert(methods@.take(methods@.len() as int) =~= methods@);
            out
        },
    }
}

/// Law: a fuzzy ranking holds exactly the methods the matcher accepts: a
/// method is ranked if and only if it is among the input and the matcher
/// accepts its name. In particular the ranking is empty exactly when the
/// matcher accepts none of the methods.
pub proof fn lemma_fuzzy_ranked_members(rs: Seq<Method>, ms: Seq<Method>, pattern: Seq<char>)
    requires
        fuzzy_ranked(rs, ms, pattern),
    ensures
        forall|m: Method| #[trigger] rs.contains(m) <==> fuzzy_matched(ms, pattern).contains(m),
        rs.len() == 0 <==> fuzzy_matched(ms, pattern).len() == 0,
{
    broadcast use vstd::seq_lib::group_filter_ensures;
    let fm = fuzzy_matched(ms, pattern);
    assert forall|m: Method| #[trigger] rs.contains(m) <==> fm.contains(m) by {
        let v = fuzzy_key(m, pattern);
        let pred = |x: Method| fuzzy_key(x, pattern) == v;
        assert(with_key(rs, pattern, v) == with_key(fm, pattern, v));
        if rs.contains(m) {
            let i = choose|i: int| 0 <= i < rs.len() && rs[i] == m;
            rs.lemma_filter_contains(pred, i);
            assert(with_key(fm, pattern, v).contains(m));
            fm.lemma_filter_contains_rev(pred, m);
        }
        if fm.contains(m) {
            let i = choose|i: int| 0 <= i < fm.len() && fm[i] == m;
            fm.lemma_filter_contains(pred, i);
            assert(with_key(rs, pattern, v).contains(m));
            rs.lemma_filter_contains_rev(pred, m);
        }
    }
    if rs.len() > 0 {
        assert(rs.contains(rs[0]));
        assert(fm.contains(rs[0]));
    }
    if fm.len() > 0 {
        assert(fm.contains(fm[0]));
        assert(rs.contains(fm[0]));
    }
}

} // verus!
