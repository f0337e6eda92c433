//! Keys of the persistent caches: a 64-bit FNV-1a hash of a canonical
//! description of the query, written as 16 lower-case hex digits.
use vstd::prelude::*;
use vstd::string::*;

use crate::text::{opt_str_view, chars_of, hex_fixed, hex_fixed_exec, push_str, string_from};

verus! {

/// The version of this library, part of every persistent cache key.
pub const LIB_VERSION: &'static str = "0.4.0";

/// FNV-1a offset basis.
pub const FNV_OFFSET: u64 = 0xcbf2_9ce4_8422_2325;

/// FNV-1a prime.
pub const FNV_PRIME: u64 = 0x0100_0000_01b3;

/// 64-bit FNV-1a over `bytes`: start from the offset basis, then for each
/// byte xor it in and multiply by the prime, wrapping.
pub open spec fn fnv1a_spec(bytes: Seq<u8>) -> u64
    decreases bytes.len(),
{
    if bytes.len() == 0 {
        FNV_OFFSET
    } else {
        vstd::wrapping::u64_specs::wrapping_mul(
            fnv1a_spec(bytes.drop_last()) ^ (bytes.last() as u64),
            FNV_PRIME,
        )
    }
}

/// The FNV-1a hash of the UTF-8 bytes of `data`.
pub fn fnv1a(data: &str) -> (h: u64)
    ensures
        h == fnv1a_spec(data.spec_bytes()),
{
    let bytes = data.as_bytes();
    let mut hash: u64 = FNV_OFFSET;
    let mut i: usize = 0;
    while i < bytes.len()
        invariant
            bytes@ == data.spec_bytes(),
            i <= bytes@.len(),
            hash == fnv1a_spec(bytes@.subrange(0, i as int)),
        decreases bytes@.len() - i,
    {
        let b = bytes[i];
        assert(bytes@.subrange(0, i + 1).drop_last() =~= bytes@.subrange(0, i as int));
        hash = hash ^ (b as u64);
        hash = hash.wrapping_mul(FNV_PRIME);
        i = i + 1;
    }
    assert(bytes@.subrange(0, bytes@.len() as int) =~= bytes@);
    hash
}

/// The dependency line of the hashed text: `deps=` and the dependencies,
/// or `deps?` when there are none (so that no dependencies and an empty
/// dependency string are written differently).
pub open spec fn deps_text(deps: Option<Seq<char>>) -> Seq<char> {
    match deps {
        Some(d) => "\ndeps="@ + d,
        None => "\ndeps?"@,
    }
}

/// The method line of the hashed text: `method=` and the name, or
/// `method?` when there is none.
pub open spec fn method_text(method: Option<Seq<char>>) -> Seq<char> {
    match method {
        Some(m) => "\nmethod="@ + m,
        None => "\nmethod?"@,
    }
}

/// The text that is hashed for a cache key.
pub open spec fn canonical_key(
    ty: Seq<char>,
    deps: Option<Seq<char>>,
    method: Option<Seq<char>>,
    ra_version: Seq<char>,
) -> Seq<char> {
    "type="@ + ty + deps_text(deps) + method_text(method) + "\nra="@ + ra_version + "\nlib="@
        + LIB_VERSION@
}

/// The cache key for the given description: 16 hex digits of the hash.
pub open spec fn cache_key_spec(
    ty: Seq<char>,
    deps: Option<Seq<char>>,
    method: Option<Seq<char>>,
    ra_version: Seq<char>,
) -> Seq<char> {
    hex_fixed(fnv1a_spec(vstd::utf8::encode_utf8(canonical_key(ty, deps, method, ra_version))) as nat, 16)
}

/// Computes the persistent cache key for a probe configuration.
///
/// The key is 16 lower-case hex digits of the FNV-1a hash of a canonical
/// text made of the type, the effective dependencies, the method name, the
/// `rust-analyzer` version and the version of this library. An absent
/// dependency string or method name is written differently from an empty
/// one.
pub fn cache_key_hash(
    type_expr: &str,
    effective_deps: Option<&str>,
    method_name: Option<&str>,
    ra_version: &str,
) -> (r: String)
    ensures
        r@ == cache_key_spec(type_expr@, opt_str_view(effective_deps), opt_str_view(method_name), ra_version@),
{
    let mut text: Vec<char> = Vec::new();
    push_str(&mut text, "type=");
    push_str(&mut text, type_expr);
    match effective_deps {
        Some(d) => {
            push_str(&mut text, "\ndeps=");
            push_str(&mut text, d);
        },
        None => push_str(&mut text, "\ndeps?"),
    }
    match method_name {
        Some(m) => {
            push_str(&mut text, "\nmethod=");
            push_str(&mut text, m);
        },
        None => push_str(&mut text, "\nmethod?"),
    }
    push_str(&mut text, "\nra=");
    push_str(&mut text, ra_version);
    push_str(&mut text, "\nlib=");
    push_str(&mut text, LIB_VERSION);
    assert(text@ =~= canonical_key(
        type_expr@,
        opt_str_view(effective_deps),
        opt_str_view(method_name),
        ra_version@,
    ));
    let canonical = string_from(&text);
    let h = fnv1a(canonical.as_str());
    let digits = hex_fixed_exec(h, 16);
    string_from(&digits)
}

/// Texts that agree before and after a part agree on the part.
proof fn lemma_middle_cancel(p: Seq<char>, x: Seq<char>, y: Seq<char>, s: Seq<char>)
    requires
        p + x + s == p + y + s,
    ensures
        x == y,
{
    assert(p + x + s =~= p + (x + s));
    assert(p + y + s =~= p + (y + s));
    crate::text::lemma_concat_cancel(p, x + s, y + s);
    assert(x.len() == y.len());
    assert(x =~= (x + s).subrange(0, x.len() as int));
    assert(y =~= (y + s).subrange(0, y.len() as int));
}

/// Two optional parts written as `tag=` and the value, or as `tag?` (with
/// `some` and `none` the two spellings of the tag), differ when the parts
/// differ.
proof fn lemma_tagged_differ(
    p: Seq<char>,
    some: Seq<char>,
    none: Seq<char>,
    a: Option<Seq<char>>,
    b: Option<Seq<char>>,
    r: Seq<char>,
)
    requires
        some.len() == none.len(),
        some.len() > 0,
        some.last() != none.last(),
        some.subrange(0, some.len() - 1) == none.subrange(0, none.len() - 1),
        a != b,
    ensures
        p + (match a { Some(x) => some + x, None => none }) + r != p + (match b {
            Some(x) => some + x,
            None => none,
        }) + r,
{
    let ta = match a { Some(x) => some + x, None => none };
    let tb = match b { Some(x) => some + x, None => none };
    let k = p.len() + some.len() - 1;
    if p + ta + r == p + tb + r {
        match (a, b) {
            (Some(x), Some(y)) => {
                assert(p + ta + r =~= (p + some) + x + r);
                assert(p + tb + r =~= (p + some) + y + r);
                lemma_middle_cancel(p + some, x, y, r);
            },
            (Some(x), None) => {
                assert((p + ta + r)[k] == some.last());
                assert((p + tb + r)[k] == none.last());
            },
            (None, Some(y)) => {
                assert((p + ta + r)[k] == none.last());
                assert((p + tb + r)[k] == some.last());
            },
            (None, None) => {},
        }
    }
}

proof fn lemma_separates_type(ty: Seq<char>, deps: Option<Seq<char>>, method: Option<Seq<char>>, ra: Seq<char>, other: Seq<char>)
    requires
        canonical_key(other, deps, method, ra) == canonical_key(ty, deps, method, ra),
    ensures
        other == ty,
{
    let rest = deps_text(deps) + method_text(method) + "\nra="@ + ra + "\nlib="@ + LIB_VERSION@;
    assert(canonical_key(other, deps, method, ra) =~= "type="@ + other + rest);
    assert(canonical_key(ty, deps, method, ra) =~= "type="@ + ty + rest);
    lemma_middle_cancel("type="@, other, ty, rest);
}

proof fn lemma_separates_deps(ty: Seq<char>, deps: Option<Seq<char>>, method: Option<Seq<char>>, ra: Seq<char>, other: Option<Seq<char>>)
    requires
        other != deps,
    ensures
        canonical_key(ty, other, method, ra) != canonical_key(ty, deps, method, ra),
{
    reveal_strlit("\ndeps=");
    reveal_strlit("\ndeps?");
    let pre = "type="@ + ty;
    let rest = method_text(method) + "\nra="@ + ra + "\nlib="@ + LIB_VERSION@;
    assert("\ndeps="@.subrange(0, 5) =~= "\ndeps?"@.subrange(0, 5));
    lemma_tagged_differ(pre, "\ndeps="@, "\ndeps?"@, other, deps, rest);
    assert(canonical_key(ty, other, method, ra) =~= pre + deps_text(other) + rest);
    assert(canonical_key(ty, deps, method, ra) =~= pre + deps_text(deps) + rest);
}

proof fn lemma_separates_method(ty: Seq<char>, deps: Option<Seq<char>>, method: Option<Seq<char>>, ra: Seq<char>, other: Option<Seq<char>>)
    requires
        other != method,
    ensures
        canonical_key(ty, deps, other, ra) != canonical_key(ty, deps, method, ra),
{
    reveal_strlit("\nmethod=");
    reveal_strlit("\nmethod?");
    let pre = "type="@ + ty + deps_text(deps);
    let rest = "\nra="@ + ra + "\nlib="@ + LIB_VERSION@;
    assert("\nmethod="@.subrange(0, 7) =~= "\nmethod?"@.subrange(0, 7));
    lemma_tagged_differ(pre, "\nmethod="@, "\nmethod?"@, other, method, rest);
    assert(canonical_key(ty, deps, other, ra) =~= pre + method_text(other) + rest);
    assert(canonical_key(ty, deps, method, ra) =~= pre + method_text(method) + rest);
}

proof fn lemma_separates_ra(ty: Seq<char>, deps: Option<Seq<char>>, method: Option<Seq<char>>, ra: Seq<char>, other: Seq<char>)
    requires
        canonical_key(ty, deps, method, other) == canonical_key(ty, deps, method, ra),
    ensures
        other == ra,
{
    let pre = "type="@ + ty + deps_text(deps) + method_text(method) + "\nra="@;
    let lib = "\nlib="@ + LIB_VERSION@;
    assert(canonical_key(ty, deps, method, other) =~= pre + other + lib);
    assert(canonical_key(ty, deps, method, ra) =~= pre + ra + lib);
    lemma_middle_cancel(pre, other, ra, lib);
}

/// Law: the text a cache key is computed from tells apart any two queries
/// that differ in exactly one of the type, the dependencies (an absent
/// dependency string differing from an empty one), the method (likewise)
/// and the analyzer's version. Whether the 64-bit hashes of two such texts
/// differ is not stated: hashes can collide.
pub proof fn lemma_canonical_key_separates(
    ty: Seq<char>,
    deps: Option<Seq<char>>,
    method: Option<Seq<char>>,
    ra: Seq<char>,
    other_ty: Seq<char>,
    other_deps: Option<Seq<char>>,
    other_method: Option<Seq<char>>,
    other_ra: Seq<char>,
)
    ensures
        other_ty != ty ==> canonical_key(other_ty, deps, method, ra) != canonical_key(ty, deps, method, ra),
        other_deps != deps ==> canonical_key(ty, other_deps, method, ra) != canonical_key(ty, deps, method, ra),
        other_method != method ==> canonical_key(ty, deps, other_method, ra) != canonical_key(ty, deps, method, ra),
        other_ra != ra ==> canonical_key(ty, deps, method, other_ra) != canonical_key(ty, deps, method, ra),
{
    if canonical_key(other_ty, deps, method, ra) == canonical_key(ty, deps, method, ra) {
        lemma_separates_type(ty, deps, method, ra, other_ty);
    }
    if other_deps != deps {
        lemma_separates_deps(ty, deps, method, ra, other_deps);
    }
    if other_method != method {
        lemma_separates_method(ty, deps, method, ra, other_method);
    }
    if canonical_key(ty, deps, method, other_ra) == canonical_key(ty, deps, method, ra) {
        lemma_separates_ra(ty, deps, method, ra, other_ra);
    }
}

} // verus!
