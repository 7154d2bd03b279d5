//! Query shapes and their permissive normalization: raw request parameters
//! (limits, pages or offsets, sort field and direction as loose strings) are
//! folded into one canonical `QueryShape` by a single pure function. Invalid
//! sort fields and directions fall back to the defaults instead of erroring.

use vstd::prelude::*;

use crate::text::str_eq;

verus! {

/// Largest explicit offset the service accepts; deeper requests are clamped.
pub const MAX_OFFSET: u64 = 1_000_000_000;

/// Largest 1-based page number the service accepts; deeper pages are clamped.
pub const MAX_PAGE: u64 = 1_000_000;

/// Upper bound a configuration may choose for the page size.
pub const MAX_CONFIG_LIMIT: u64 = 1_000;

/// Longest time-to-live a configuration may choose, in seconds.
pub const MAX_CONFIG_TTL: u64 = 86_400;

/// The sort field of a leaderboard query.
#[derive(Clone, Copy, PartialEq, Eq, Structural, Debug)]
pub enum SortBy {
    Pnl,
    Roi,
    Volume,
}

/// The sort direction of a leaderboard query.
#[derive(Clone, Copy, PartialEq, Eq, Structural, Debug)]
pub enum SortOrder {
    Asc,
    Desc,
}

/// The characters of the `pnl` sort token.
pub open spec fn tok_pnl() -> Seq<char> {
    seq!['p', 'n', 'l']
}

/// The characters of the `roi` sort token.
pub open spec fn tok_roi() -> Seq<char> {
    seq!['r', 'o', 'i']
}

/// The characters of the `volume` sort token.
pub open spec fn tok_volume() -> Seq<char> {
    seq!['v', 'o', 'l', 'u', 'm', 'e']
}

/// The characters of the `asc` direction token.
pub open spec fn tok_asc() -> Seq<char> {
    seq!['a', 's', 'c']
}

/// The characters of the `desc` direction token.
pub open spec fn tok_desc() -> Seq<char> {
    seq!['d', 'e', 's', 'c']
}

/// How a raw sort-field string is read: the three known tokens name their
/// fields; anything else falls back to the default, `roi`.
pub open spec fn spec_parse_sort_by(s: Seq<char>) -> SortBy {
    if s == tok_pnl() {
        SortBy::Pnl
    } else if s == tok_volume() {
        SortBy::Volume
    } else {
        SortBy::Roi
    }
}

/// How a raw sort-direction string is read: `asc` is ascending; anything
/// else falls back to the default, `desc`.
pub open spec fn spec_parse_sort_order(s: Seq<char>) -> SortOrder {
    if s == tok_asc() {
        SortOrder::Asc
    } else {
        SortOrder::Desc
    }
}

/// Reads a sort-field string, falling back to `roi` on anything unknown.
pub fn parse_sort_by(s: &str) -> (r: SortBy)
    ensures
        r == spec_parse_sort_by(s@),
{
    proof {
        reveal_strlit("pnl");
        reveal_strlit("volume");
        assert("pnl"@ =~= tok_pnl());
        assert("volume"@ =~= tok_volume());
    }
    if str_eq(s, "pnl") {
        SortBy::Pnl
    } else if str_eq(s, "volume") {
        SortBy::Volume
    } else {
        SortBy::Roi
    }
}

/// Reads a sort-direction string, falling back to `desc` on anything unknown.
pub fn parse_sort_order(s: &str) -> (r: SortOrder)
    ensures
        r == spec_parse_sort_order(s@),
{
    proof {
        reveal_strlit("asc");
        assert("asc"@ =~= tok_asc());
    }
    if str_eq(s, "asc") {
        SortOrder::Asc
    } else {
        SortOrder::Desc
    }
}

/// Tunables of the leaderboard service: page-size bounds and the two
/// time-to-live values of the offset-dependent cache policy.
#[derive(Clone, Copy, PartialEq, Eq, Structural, Debug)]
pub struct ServiceConfig {
    /// Largest page size a request may ask for.
    pub max_limit: u64,
    /// Page size used when a request names none.
    pub default_limit: u64,
    /// Time-to-live, in seconds, for the first page (offset zero).
    pub ttl_first: u64,
    /// Time-to-live, in seconds, for deeper pages.
    pub ttl_deep: u64,
}

impl ServiceConfig {
    /// A configuration is well formed when its default page size fits under
    /// its maximum and both time-to-live values are positive and bounded.
    pub open spec fn wf(self) -> bool {
        &&& 1 <= self.default_limit <= self.max_limit <= MAX_CONFIG_LIMIT
        &&& 1 <= self.ttl_first <= MAX_CONFIG_TTL
        &&& 1 <= self.ttl_deep <= MAX_CONFIG_TTL
    }

    /// The stock configuration: pages of at most 30 entries, 10 by default;
    /// 10 seconds of freshness for the first page, 30 for deeper ones.
    pub fn standard() -> (c: Self)
        ensures
            c.wf(),
            c == (ServiceConfig { max_limit: 30, default_limit: 10, ttl_first: 10, ttl_deep: 30 }),
    {
        ServiceConfig { max_limit: 30, default_limit: 10, ttl_first: 10, ttl_deep: 30 }
    }
}

/// Raw request parameters with an explicit offset and loose sort strings,
/// as a query endpoint hands them over.
pub struct LeaderboardFilter {
    pub limit: Option<i64>,
    pub offset: Option<i64>,
    pub sort_by: Option<String>,
    pub sort_order: Option<String>,
}

impl Default for LeaderboardFilter {
    /// The empty filter: normalization supplies every default.
    fn default() -> (r: Self)
        ensures
            r.limit is None,
            r.offset is None,
            r.sort_by is None,
            r.sort_order is None,
    {
        LeaderboardFilter { limit: None, offset: None, sort_by: None, sort_order: None }
    }
}

/// Raw request parameters with a 1-based page number, as the page-oriented
/// endpoints hand them over.
#[derive(Clone, Copy, PartialEq, Eq, Structural, Debug)]
pub struct LeaderboardInput {
    pub limit: Option<i64>,
    pub page: Option<i64>,
}

/// A fully normalized query: the page size sits in `1 ..= max_limit`, the
/// offset under `MAX_OFFSET`, and the sort is one of the known fields and
/// directions. All cache keys and store reads are phrased over this type.
#[derive(Clone, Copy, PartialEq, Eq, Structural, Debug)]
pub struct QueryShape {
    pub limit: u64,
    pub offset: u64,
    pub sort_by: SortBy,
    pub sort_order: SortOrder,
}

impl QueryShape {
    /// Bounds every normalized shape satisfies under a well-formed config.
    pub open spec fn wf(self, c: ServiceConfig) -> bool {
        &&& 1 <= self.limit <= c.max_limit
        &&& self.offset <= MAX_OFFSET
    }
}

/// The normalized page size: the requested one clamped into
/// `1 ..= max_limit`, or the configured default when absent.
pub open spec fn spec_norm_limit(raw: Option<i64>, c: ServiceConfig) -> u64 {
    match raw {
        Some(v) => if v < 1 {
            1u64
        } else if v > c.max_limit as i64 {
            c.max_limit
        } else {
            v as u64
        },
        None => c.default_limit,
    }
}

/// The normalized explicit offset: clamped into `0 ..= MAX_OFFSET`, zero
/// when absent.
pub open spec fn spec_norm_offset(raw: Option<i64>) -> u64 {
    match raw {
        Some(v) => if v < 0 {
            0u64
        } else if v > MAX_OFFSET as i64 {
            MAX_OFFSET
        } else {
            v as u64
        },
        None => 0u64,
    }
}

/// The normalized 1-based page number: clamped into `1 ..= MAX_PAGE`, one
/// when absent.
pub open spec fn spec_norm_page(raw: Option<i64>) -> u64 {
    match raw {
        Some(v) => if v < 1 {
            1u64
        } else if v > MAX_PAGE as i64 {
            MAX_PAGE
        } else {
            v as u64
        },
        None => 1u64,
    }
}

/// The normalization of an offset-style filter.
pub open spec fn spec_normalize_filter(f: LeaderboardFilter, c: ServiceConfig) -> QueryShape {
    QueryShape {
        limit: spec_norm_limit(f.limit, c),
        offset: spec_norm_offset(f.offset),
        sort_by: match f.sort_by {
            Some(s) => spec_parse_sort_by(s@),
            None => SortBy::Roi,
        },
        sort_order: match f.sort_order {
            Some(s) => spec_parse_sort_order(s@),
            None => SortOrder::Desc,
        },
    }
}

/// The normalization of a page-style input: the offset is
/// `(page - 1) * limit`, always sorted by the default `(roi, desc)`.
pub open spec fn spec_normalize_input(i: LeaderboardInput, c: ServiceConfig) -> QueryShape {
    QueryShape {
        limit: spec_norm_limit(i.limit, c),
        offset: ((spec_norm_page(i.page) - 1) * spec_norm_limit(i.limit, c)) as u64,
        sort_by: SortBy::Roi,
        sort_order: SortOrder::Desc,
    }
}

/// Normalizes an offset-style filter into a canonical query shape.
pub fn normalize_filter(f: &LeaderboardFilter, c: &ServiceConfig) -> (s: QueryShape)
    requires
        c.wf(),
    ensures
        s == spec_normalize_filter(*f, *c),
        s.wf(*c),
{
    let limit: u64 = match f.limit {
        Some(v) => if v < 1 {
            1
        } else if v > c.max_limit as i64 {
            c.max_limit
        } else {
            v as u64
        },
        None => c.default_limit,
    };
    let offset: u64 = match f.offset {
        Some(v) => if v < 0 {
            0
        } else if v > MAX_OFFSET as i64 {
            MAX_OFFSET
        } else {
            v as u64
        },
        None => 0,
    };
    let sort_by: SortBy = match &f.sort_by {
        Some(s) => parse_sort_by(s.as_str()),
        None => SortBy::Roi,
    };
    let sort_order: SortOrder = match &f.sort_order {
        Some(s) => parse_sort_order(s.as_str()),
        None => SortOrder::Desc,
    };
    QueryShape { limit, offset, sort_by, sort_order }
}

/// Normalizes a page-style input into a canonical query shape.
pub fn normalize_input(i: &LeaderboardInput, c: &ServiceConfig) -> (s: QueryShape)
    requires
        c.wf(),
    ensures
        s == spec_normalize_input(*i, *c),
        s.wf(*c),
{
    let limit: u64 = match i.limit {
        Some(v) => if v < 1 {
            1
        } else if v > c.max_limit as i64 {
            c.max_limit
        } else {
            v as u64
        },
        None => c.default_limit,
    };
    let page: u64 = match i.page {
        Some(v) => if v < 1 {
            1
        } else if v > MAX_PAGE as i64 {
            MAX_PAGE
        } else {
            v as u64
        },
        None => 1,
    };
    proof {
        assert((page - 1) * limit <= (MAX_PAGE - 1) * MAX_CONFIG_LIMIT) by (nonlinear_arith)
            requires
                1 <= page <= MAX_PAGE,
                1 <= limit <= MAX_CONFIG_LIMIT,
        ;
    }
    let offset: u64 = (page - 1) * limit;
    QueryShape { limit, offset, sort_by: SortBy::Roi, sort_order: SortOrder::Desc }
}

/// Root of the query interface: turns raw page-style inputs into the
/// canonical shape the service and the cache keys are phrased over.
pub struct QueryRoot;

impl QueryRoot {
    /// Plans a leaderboard read for a raw input under a configuration.
    pub fn leaderboard(&self, input: &LeaderboardInput, c: &ServiceConfig) -> (s: QueryShape)
        requires
            c.wf(),
        ensures
            s == spec_normalize_input(*input, *c),
            s.wf(*c),
    {
        normalize_input(input, c)
    }
}

/// Unknown sort fields and directions never error: they normalize to the
/// defaults `(roi, desc)`.
pub proof fn lemma_sort_fallback(s: Seq<char>)
    ensures
        s != tok_pnl() && s != tok_volume() ==> spec_parse_sort_by(s) == SortBy::Roi,
        s != tok_asc() ==> spec_parse_sort_order(s) == SortOrder::Desc,
{
}

/// The page size of a normalized shape never exceeds the configured
/// maximum, whatever the raw request asked for.
pub proof fn lemma_limit_bounded(f: LeaderboardFilter, i: LeaderboardInput, c: ServiceConfig)
    requires
        c.wf(),
    ensures
        spec_normalize_filter(f, c).limit <= c.max_limit,
        spec_normalize_input(i, c).limit <= c.max_limit,
{
}

} // verus!
