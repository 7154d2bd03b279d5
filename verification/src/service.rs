//! The leaderboard service: read-through caching over the ranked store,
//! the offset-dependent time-to-live policy, and the refresh cycle that
//! ties the refresher's state machine to cache invalidation and the
//! freshness broadcast. The store itself is an external collaborator: the
//! surrounding loop performs its reads and refreshes and hands the results
//! back in, so everything decided here is checked.

use vstd::prelude::*;

use crate::cache::{spec_clear_prefix, spec_live, LeaderboardCache};
use crate::entry::LeaderboardEntry;
use crate::hub::{spec_queue_after_publish, BroadcastHub, FreshnessEvent};
use crate::keys::{cache_key, key_prefix, key_prefix_str, lemma_cache_key_prefixed, spec_cache_key};
use crate::refresher::{spec_step, step, RefreshAction, RefreshEvent, RefreshState};
use crate::shape::{
    spec_normalize_filter, LeaderboardFilter, QueryShape, ServiceConfig, MAX_CONFIG_LIMIT,
    MAX_CONFIG_TTL, MAX_OFFSET,
};

verus! {

/// The time-to-live of a page by its offset: the first page changes most
/// and is read most, so it stays fresh the shortest; deeper pages trade
/// staleness tolerance for hit rate.
pub open spec fn spec_ttl_for(c: ServiceConfig, offset: u64) -> u64 {
    if offset == 0 {
        c.ttl_first
    } else {
        c.ttl_deep
    }
}

/// Picks the time-to-live for a page at `offset`.
pub fn ttl_for_offset(c: &ServiceConfig, offset: u64) -> (t: u64)
    ensures
        t == spec_ttl_for(*c, offset),
{
    if offset == 0 {
        c.ttl_first
    } else {
        c.ttl_deep
    }
}

/// How many rows of a store result make it into the page.
pub open spec fn spec_page_len(rows: Seq<LeaderboardEntry>, limit: u64) -> int {
    if rows.len() <= limit {
        rows.len() as int
    } else {
        limit as int
    }
}

/// The served page: at most `limit` rows, each carrying the rank
/// `offset + position + 1`, so ranks run contiguously from `offset + 1`.
pub open spec fn spec_with_ranks(rows: Seq<LeaderboardEntry>, offset: u64, limit: u64) -> Seq<
    LeaderboardEntry,
> {
    Seq::new(
        spec_page_len(rows, limit) as nat,
        |i: int| LeaderboardEntry { rank: (offset + i + 1) as u64, ..rows[i] },
    )
}

/// Windows a store result to the page size and derives every rank anew.
pub fn assign_ranks(rows: &Vec<LeaderboardEntry>, shape: &QueryShape) -> (page: Vec<
    LeaderboardEntry,
>)
    requires
        shape.limit <= MAX_CONFIG_LIMIT,
        shape.offset <= MAX_OFFSET,
    ensures
        page@ == spec_with_ranks(rows@, shape.offset, shape.limit),
{
    let lim: usize = shape.limit as usize;
    let n: usize = if rows.len() <= lim {
        rows.len()
    } else {
        lim
    };
    let mut page: Vec<LeaderboardEntry> = Vec::new();
    let mut i: usize = 0;
    while i < n
        invariant
            n as int == spec_page_len(rows@, shape.limit),
            n <= rows@.len(),
            i <= n,
            n <= shape.limit,
            shape.limit <= MAX_CONFIG_LIMIT,
            shape.offset <= MAX_OFFSET,
            page@.len() == i,
            forall|j: int|
                0 <= j < i ==> page@[j] == (LeaderboardEntry {
                    rank: (shape.offset + j + 1) as u64,
                    ..rows@[j]
                }),
        decreases n - i,
    {
        let rank: u64 = shape.offset + (i as u64) + 1;
        page.push(rows[i].with_rank(rank));
        i += 1;
    }
    proof {
        assert(page@ =~= spec_with_ranks(rows@, shape.offset, shape.limit));
    }
    page
}

/// Everything the running service shares: its configuration, the cache,
/// the fan-out hub and the refresher's state. Constructed once and handed
/// to every component; there are no ambient singletons.
pub struct AppState {
    pub config: ServiceConfig,
    pub cache: LeaderboardCache,
    pub hub: BroadcastHub,
    pub refresher: RefreshState,
}

impl AppState {
    /// The configuration is sane and both stateful components hold their
    /// invariants.
    pub open spec fn wf(self) -> bool {
        self.config.wf() && self.cache.wf() && self.hub.wf()
    }

    /// A fresh service: empty cache, no subscribers, refresher idle.
    pub fn new(config: ServiceConfig) -> (s: Self)
        requires
            config.wf(),
        ensures
            s.wf(),
            s.config == config,
            s.cache.pages() == Map::<Seq<char>, (Seq<LeaderboardEntry>, u64)>::empty(),
            s.cache.counts() == Map::<Seq<char>, i64>::empty(),
            s.hub.subs@.len() == 0,
            s.hub.can_attach(),
            s.refresher == RefreshState::Idle,
    {
        AppState {
            config,
            cache: LeaderboardCache::new(),
            hub: BroadcastHub::new(),
            refresher: RefreshState::Idle,
        }
    }

    /// First half of a read: consult the cache under the shape's key.
    /// A hit returns the payload unchanged; a miss (absent or expired)
    /// means the caller must query the ranked store and hand the rows to
    /// `store_loaded`.
    pub fn lookup_page(&self, shape: &QueryShape, now: u64) -> (r: Option<Vec<LeaderboardEntry>>)
        requires
            self.wf(),
        ensures
            r is Some <==> spec_live(self.cache.pages(), spec_cache_key(*shape), now) is Some,
            r matches Some(p) ==> Some(p@) == spec_live(
                self.cache.pages(),
                spec_cache_key(*shape),
                now,
            ),
    {
        let key = cache_key(shape);
        self.cache.get_cached_leaderboard(key.as_str(), now)
    }

    /// Second half of a read after a miss: derives the page from the
    /// store's rows and populates the cache for the offset's
    /// time-to-live. Store failures are never cached: on failure the
    /// caller classifies the error instead of calling this.
    pub fn store_loaded(
        &mut self,
        shape: &QueryShape,
        rows: &Vec<LeaderboardEntry>,
        now: u64,
    ) -> (page: Vec<LeaderboardEntry>)
        requires
            old(self).wf(),
            shape.wf(old(self).config),
            now + MAX_CONFIG_TTL <= u64::MAX,
        ensures
            final(self).wf(),
            final(self).config == old(self).config,
            final(self).hub == old(self).hub,
            final(self).refresher == old(self).refresher,
            page@ == spec_with_ranks(rows@, shape.offset, shape.limit),
            final(self).cache.pages() == old(self).cache.pages().insert(
                spec_cache_key(*shape),
                (page@, (now + spec_ttl_for(old(self).config, shape.offset)) as u64),
            ),
            final(self).cache.counts() == old(self).cache.counts(),
    {
        let page = assign_ranks(rows, shape);
        let key = cache_key(shape);
        let ttl = ttl_for_offset(&self.config, shape.offset);
        self.cache.cache_leaderboard(key.as_str(), &page, ttl, now);
        page
    }

    /// The periodic timer fired: moves the refresher and says whether the
    /// caller must start a store refresh. Nothing else moves.
    pub fn on_timer_tick(&mut self) -> (start: bool)
        requires
            old(self).wf(),
        ensures
            final(self).wf(),
            final(self).config == old(self).config,
            final(self).cache == old(self).cache,
            final(self).hub == old(self).hub,
            final(self).refresher == spec_step(old(self).refresher, RefreshEvent::TimerTick).0,
            start == (spec_step(old(self).refresher, RefreshEvent::TimerTick).1
                == RefreshAction::StartRefresh),
    {
        let r = step(self.refresher, RefreshEvent::TimerTick);
        self.refresher = r.0;
        match r.1 {
            RefreshAction::StartRefresh => true,
            _ => false,
        }
    }

    /// A manual refresh was requested: while one is already in flight it
    /// coalesces into it and the caller starts nothing.
    pub fn trigger_refresh(&mut self) -> (start: bool)
        requires
            old(self).wf(),
        ensures
            final(self).wf(),
            final(self).config == old(self).config,
            final(self).cache == old(self).cache,
            final(self).hub == old(self).hub,
            final(self).refresher == spec_step(old(self).refresher, RefreshEvent::ManualTrigger).0,
            start == (spec_step(old(self).refresher, RefreshEvent::ManualTrigger).1
                == RefreshAction::StartRefresh),
    {
        let r = step(self.refresher, RefreshEvent::ManualTrigger);
        self.refresher = r.0;
        match r.1 {
            RefreshAction::StartRefresh => true,
            _ => false,
        }
    }

    /// The in-flight refresh finished. On success the whole leaderboard
    /// key space is invalidated in one pattern delete and one freshness
    /// event goes out to every attached subscriber with room; on failure
    /// nothing is touched and the next tick is the retry.
    pub fn complete_refresh(&mut self, success: bool, timestamp: u64) -> (published: bool)
        requires
            old(self).wf(),
        ensures
            final(self).wf(),
            final(self).config == old(self).config,
            final(self).refresher == spec_step(
                old(self).refresher,
                RefreshEvent::Completed { success },
            ).0,
            published == (spec_step(old(self).refresher, RefreshEvent::Completed { success }).1
                == RefreshAction::InvalidateAndBroadcast),
            !published ==> final(self).cache == old(self).cache && final(self).hub == old(
                self,
            ).hub,
            published ==> final(self).cache.pages() == spec_clear_prefix(
                old(self).cache.pages(),
                key_prefix(),
            ) && final(self).cache.counts() == old(self).cache.counts(),
            published ==> final(self).hub.next_id == old(self).hub.next_id
                && final(self).hub.subs@.len() == old(self).hub.subs@.len(),
            published ==> forall|i: int|
                0 <= i < old(self).hub.subs@.len() ==> (#[trigger] final(self).hub.sub(i)).id
                    == old(self).hub.sub(i).id && final(self).hub.sub(i).capacity == old(
                    self,
                ).hub.sub(i).capacity,
            published ==> forall|i: int|
                0 <= i < old(self).hub.subs@.len() ==> (#[trigger] final(self).hub.sub(i)).queue@
                    == spec_queue_after_publish(
                    old(self).hub.sub(i).queue@,
                    old(self).hub.sub(i).capacity as nat,
                    FreshnessEvent { timestamp },
                ),
    {
        let r = step(self.refresher, RefreshEvent::Completed { success });
        self.refresher = r.0;
        match r.1 {
            RefreshAction::InvalidateAndBroadcast => {
                self.cache.clear_pattern(key_prefix_str());
                self.hub.publish(FreshnessEvent { timestamp });
                true
            },
            _ => false,
        }
    }
}

/// A successful refresh cycle leaves every previously cached leaderboard
/// page a miss — every page key carries the invalidated prefix — while an
/// attached subscriber with room observes exactly one new freshness
/// event, appended last.
pub proof fn lemma_refresh_cycle(
    m: Map<Seq<char>, (Seq<LeaderboardEntry>, u64)>,
    q: QueryShape,
    now: u64,
    queue: Seq<FreshnessEvent>,
    capacity: nat,
    ev: FreshnessEvent,
)
    requires
        queue.len() < capacity,
    ensures
        spec_live(spec_clear_prefix(m, key_prefix()), spec_cache_key(q), now) is None,
        spec_queue_after_publish(queue, capacity, ev) == queue.push(ev),
        spec_queue_after_publish(queue, capacity, ev).len() == queue.len() + 1,
        spec_queue_after_publish(queue, capacity, ev).last() == ev,
{
    lemma_cache_key_prefixed(q);
}

/// Populating after a miss makes an identical request a hit for as long
/// as the page's time-to-live lasts, with the very payload that was
/// stored: the second of two back-to-back identical requests reads the
/// cache and asks the store nothing.
pub proof fn lemma_read_through(
    m: Map<Seq<char>, (Seq<LeaderboardEntry>, u64)>,
    q: QueryShape,
    c: ServiceConfig,
    page: Seq<LeaderboardEntry>,
    now: u64,
    later: u64,
)
    requires
        now + spec_ttl_for(c, q.offset) <= u64::MAX,
        now <= later,
        later < now + spec_ttl_for(c, q.offset),
    ensures
        spec_live(
            m.insert(spec_cache_key(q), (page, (now + spec_ttl_for(c, q.offset)) as u64)),
            spec_cache_key(q),
            later,
        ) == Some(page),
{
}

/// The response bounds: for every raw filter and every store result, the
/// served page never exceeds the configured maximum page size and its
/// ranks run contiguously from `offset + 1`.
pub proof fn lemma_response_bounds(rows: Seq<LeaderboardEntry>, f: LeaderboardFilter, c: ServiceConfig)
    requires
        c.wf(),
    ensures
        spec_with_ranks(
            rows,
            spec_normalize_filter(f, c).offset,
            spec_normalize_filter(f, c).limit,
        ).len() <= c.max_limit,
        forall|i: int|
            0 <= i < spec_with_ranks(
                rows,
                spec_normalize_filter(f, c).offset,
                spec_normalize_filter(f, c).limit,
            ).len() ==> spec_with_ranks(
                rows,
                spec_normalize_filter(f, c).offset,
                spec_normalize_filter(f, c).limit,
            )[i].rank == spec_normalize_filter(f, c).offset + i + 1,
{
}

} // verus!
