//! Deterministic cache keys. Every leaderboard page is cached under a key
//! derived from its normalized query shape; all such keys share one
//! invalidatable prefix, and distinct shapes get distinct keys, which is
//! proved here from the injectivity of the decimal rendering.

use vstd::prelude::*;

use crate::shape::{QueryShape, SortBy, SortOrder, tok_asc, tok_desc, tok_pnl, tok_roi, tok_volume};
use crate::text::{dec_u64, is_digit_char, lemma_dec_digits, lemma_dec_val, spec_dec};

verus! {

/// The characters of the shared key prefix, `leaderboard:`. One pattern
/// delete under this prefix clears every cached page.
pub open spec fn key_prefix() -> Seq<char> {
    seq!['l', 'e', 'a', 'd', 'e', 'r', 'b', 'o', 'a', 'r', 'd', ':']
}

/// The token a sort field is written as inside a key.
pub open spec fn spec_sort_by_token(s: SortBy) -> Seq<char> {
    match s {
        SortBy::Pnl => tok_pnl(),
        SortBy::Roi => tok_roi(),
        SortBy::Volume => tok_volume(),
    }
}

/// The token a sort direction is written as inside a key.
pub open spec fn spec_sort_order_token(s: SortOrder) -> Seq<char> {
    match s {
        SortOrder::Asc => tok_asc(),
        SortOrder::Desc => tok_desc(),
    }
}

/// The trailing part of a key: sort field, colon, sort direction.
pub open spec fn spec_key_sorts(q: QueryShape) -> Seq<char> {
    spec_sort_by_token(q.sort_by) + seq![':'] + spec_sort_order_token(q.sort_order)
}

/// The part of a key after the offset: offset digits, colon, sorts.
pub open spec fn spec_key_from_offset(q: QueryShape) -> Seq<char> {
    spec_dec(q.offset as nat) + seq![':'] + spec_key_sorts(q)
}

/// The part of a key after the prefix: limit digits, colon, the rest.
pub open spec fn spec_key_body(q: QueryShape) -> Seq<char> {
    spec_dec(q.limit as nat) + seq![':'] + spec_key_from_offset(q)
}

/// The cache key of a normalized query shape:
/// `leaderboard:{limit}:{offset}:{sort_by}:{sort_order}`.
pub open spec fn spec_cache_key(q: QueryShape) -> Seq<char> {
    key_prefix() + spec_key_body(q)
}

/// The sort-field token as a string slice.
pub fn sort_by_token(s: SortBy) -> (r: &'static str)
    ensures
        r@ == spec_sort_by_token(s),
{
    proof {
        reveal_strlit("pnl");
        reveal_strlit("roi");
        reveal_strlit("volume");
        assert("pnl"@ =~= tok_pnl());
        assert("roi"@ =~= tok_roi());
        assert("volume"@ =~= tok_volume());
    }
    match s {
        SortBy::Pnl => "pnl",
        SortBy::Roi => "roi",
        SortBy::Volume => "volume",
    }
}

/// The sort-direction token as a string slice.
pub fn sort_order_token(s: SortOrder) -> (r: &'static str)
    ensures
        r@ == spec_sort_order_token(s),
{
    proof {
        reveal_strlit("asc");
        reveal_strlit("desc");
        assert("asc"@ =~= tok_asc());
        assert("desc"@ =~= tok_desc());
    }
    match s {
        SortOrder::Asc => "asc",
        SortOrder::Desc => "desc",
    }
}

/// The shared key prefix as a string slice.
pub fn key_prefix_str() -> (r: &'static str)
    ensures
        r@ == key_prefix(),
{
    proof {
        reveal_strlit("leaderboard:");
        assert("leaderboard:"@ =~= key_prefix());
    }
    "leaderboard:"
}

/// Builds the cache key of a normalized shape. The encoding is stable
/// across processes and, as `lemma_cache_key_injective` shows, injective
/// over distinct shapes.
pub fn cache_key(q: &QueryShape) -> (k: String)
    ensures
        k@ == spec_cache_key(*q),
        key_prefix().is_prefix_of(k@),
{
    proof {
        reveal_strlit(":");
        assert(":"@ =~= seq![':']);
    }
    let mut k = String::from_str(key_prefix_str());
    let limit_s = dec_u64(q.limit);
    k.append(limit_s.as_str());
    k.append(":");
    let offset_s = dec_u64(q.offset);
    k.append(offset_s.as_str());
    k.append(":");
    k.append(sort_by_token(q.sort_by));
    k.append(":");
    k.append(sort_order_token(q.sort_order));
    proof {
        assert(k@ =~= spec_cache_key(*q));
        assert(key_prefix() =~= k@.subrange(0, key_prefix().len() as int));
    }
    k
}

/// Splitting at a separator is unambiguous when neither left part
/// contains the separator.
proof fn lemma_sep_split(x1: Seq<char>, r1: Seq<char>, x2: Seq<char>, r2: Seq<char>, sep: char)
    requires
        x1 + seq![sep] + r1 == x2 + seq![sep] + r2,
        forall|i: int| 0 <= i < x1.len() ==> x1[i] != sep,
        forall|i: int| 0 <= i < x2.len() ==> x2[i] != sep,
    ensures
        x1 == x2,
        r1 == r2,
{
    let s1 = x1 + seq![sep] + r1;
    let s2 = x2 + seq![sep] + r2;
    assert(s1.len() == s2.len());
    if x1.len() < x2.len() {
        assert(s1[x1.len() as int] == sep);
        assert(s2[x1.len() as int] == x2[x1.len() as int]);
        assert(false);
    }
    if x2.len() < x1.len() {
        assert(s2[x2.len() as int] == sep);
        assert(s1[x2.len() as int] == x1[x2.len() as int]);
        assert(false);
    }
    assert(x1 =~= x2) by {
        assert(forall|i: int| 0 <= i < x1.len() ==> s1[i] == x1[i] && s2[i] == x2[i]);
    }
    assert(r1 =~= r2) by {
        assert(forall|i: int|
            0 <= i < r1.len() ==> s1[x1.len() + 1 + i] == r1[i] && s2[x2.len() + 1 + i] == r2[i]);
    }
}

/// A decimal numeral never contains a colon.
proof fn lemma_dec_no_colon(n: nat)
    ensures
        forall|i: int| 0 <= i < spec_dec(n).len() ==> spec_dec(n)[i] != ':',
{
    lemma_dec_digits(n);
    assert forall|i: int| 0 <= i < spec_dec(n).len() implies spec_dec(n)[i] != ':' by {
        assert(is_digit_char(spec_dec(n)[i]));
    }
}

/// A sort-field token never contains a colon.
proof fn lemma_sort_by_token_no_colon(s: SortBy)
    ensures
        forall|i: int|
            0 <= i < spec_sort_by_token(s).len() ==> #[trigger] spec_sort_by_token(s)[i] != ':',
{
}

/// Distinct sort fields and directions get distinct tokens.
proof fn lemma_tokens_injective(a: QueryShape, b: QueryShape)
    ensures
        spec_sort_by_token(a.sort_by) == spec_sort_by_token(b.sort_by) ==> a.sort_by == b.sort_by,
        spec_sort_order_token(a.sort_order) == spec_sort_order_token(b.sort_order)
            ==> a.sort_order == b.sort_order,
{
    if spec_sort_by_token(a.sort_by) == spec_sort_by_token(b.sort_by) && a.sort_by != b.sort_by {
        assert(tok_pnl()[0] == 'p' && tok_roi()[0] == 'r');
        assert(tok_pnl().len() == 3 && tok_roi().len() == 3 && tok_volume().len() == 6);
        assert(false);
    }
    if spec_sort_order_token(a.sort_order) == spec_sort_order_token(b.sort_order) && a.sort_order
        != b.sort_order {
        assert(tok_asc().len() == 3 && tok_desc().len() == 4);
        assert(false);
    }
}

/// Cache keys are injective: distinct normalized shapes are cached under
/// distinct keys, so a page can never be served for the wrong query.
pub proof fn lemma_cache_key_injective(a: QueryShape, b: QueryShape)
    ensures
        spec_cache_key(a) == spec_cache_key(b) ==> a == b,
{
    if spec_cache_key(a) == spec_cache_key(b) {
        let pl = key_prefix().len() as int;
        let ka = spec_cache_key(a);
        let kb = spec_cache_key(b);
        assert(ka.len() == pl + spec_key_body(a).len());
        assert(kb.len() == pl + spec_key_body(b).len());
        assert forall|i: int|
            0 <= i < spec_key_body(a).len() implies spec_key_body(a)[i] == spec_key_body(b)[i] by {
            assert(ka[pl + i] == spec_key_body(a)[i]);
            assert(kb[pl + i] == spec_key_body(b)[i]);
        }
        assert(spec_key_body(a) =~= spec_key_body(b));
        lemma_dec_no_colon(a.limit as nat);
        lemma_dec_no_colon(b.limit as nat);
        lemma_sep_split(
            spec_dec(a.limit as nat),
            spec_key_from_offset(a),
            spec_dec(b.limit as nat),
            spec_key_from_offset(b),
            ':',
        );
        lemma_dec_val(a.limit as nat);
        lemma_dec_val(b.limit as nat);
        lemma_dec_no_colon(a.offset as nat);
        lemma_dec_no_colon(b.offset as nat);
        lemma_sep_split(
            spec_dec(a.offset as nat),
            spec_key_sorts(a),
            spec_dec(b.offset as nat),
            spec_key_sorts(b),
            ':',
        );
        lemma_dec_val(a.offset as nat);
        lemma_dec_val(b.offset as nat);
        lemma_sort_by_token_no_colon(a.sort_by);
        lemma_sort_by_token_no_colon(b.sort_by);
        lemma_sep_split(
            spec_sort_by_token(a.sort_by),
            spec_sort_order_token(a.sort_order),
            spec_sort_by_token(b.sort_by),
            spec_sort_order_token(b.sort_order),
            ':',
        );
        lemma_tokens_injective(a, b);
    }
}

/// Every cache key carries the shared invalidatable prefix.
pub proof fn lemma_cache_key_prefixed(q: QueryShape)
    ensures
        key_prefix().is_prefix_of(spec_cache_key(q)),
{
    assert(key_prefix() =~= spec_cache_key(q).subrange(0, key_prefix().len() as int));
}

} // verus!
