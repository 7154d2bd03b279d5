//! End-to-end read path and the subscriber session machine.

use leaderboard::entry::LeaderboardEntry;
use leaderboard::errors::{classify_store_error, ServiceError, StoreError};
use leaderboard::hub::FreshnessEvent;
use leaderboard::service::AppState;
use leaderboard::session::{
    freshness_marker, on_connect, push_tag, session_step, PushKind, SessionAction, SessionEvent,
    SessionState,
};
use leaderboard::shape::{normalize_input, LeaderboardInput, ServiceConfig, SortBy, SortOrder};

fn row(wallet: &str, pnl: &str) -> LeaderboardEntry {
    LeaderboardEntry {
        rank: 0,
        trader_wallet: String::from(wallet),
        account_value: String::from("10000"),
        pnl: String::from(pnl),
        roi: String::from("4.5"),
        volume: String::from("250000"),
        last_updated: 1_700_000_000,
    }
}

#[test]
fn miss_then_populate_then_hit() {
    let c = ServiceConfig::standard();
    let mut state = AppState::new(c);
    let mut shape = normalize_input(&LeaderboardInput { limit: Some(10), page: Some(1) }, &c);
    shape.sort_by = SortBy::Pnl;
    shape.sort_order = SortOrder::Desc;

    // Empty cache: the first request misses, so the store is queried once.
    assert!(state.lookup_page(&shape, 1000).is_none());

    // The store's rows come back; the page is derived and cached.
    let rows = vec![row("0xaaa", "900"), row("0xbbb", "450"), row("0xccc", "10")];
    let page = state.store_loaded(&shape, &rows, 1000);
    assert_eq!(page.len(), 3);
    assert_eq!(page[0].rank, 1);
    assert_eq!(page[1].rank, 2);
    assert_eq!(page[2].rank, 3);
    assert_eq!(page[0].trader_wallet, "0xaaa");

    // An identical immediate second request hits the cache: no store read.
    let hit = state.lookup_page(&shape, 1001).expect("second request must hit");
    assert_eq!(hit.len(), 3);
    assert_eq!(hit[0].trader_wallet, "0xaaa");
    assert_eq!(hit[2].trader_wallet, "0xccc");
}

#[test]
fn deep_pages_rank_from_their_offset_and_outlive_the_first() {
    let c = ServiceConfig::standard();
    let mut state = AppState::new(c);
    let first = normalize_input(&LeaderboardInput { limit: Some(10), page: Some(1) }, &c);
    let third = normalize_input(&LeaderboardInput { limit: Some(10), page: Some(3) }, &c);

    let rows: Vec<LeaderboardEntry> = (0..10).map(|i| row(&format!("0x{i}"), "1")).collect();
    let page = state.store_loaded(&third, &rows, 1000);
    assert_eq!(page[0].rank, 21);
    assert_eq!(page[9].rank, 30);

    state.store_loaded(&first, &rows, 1000);
    // First page: 10 s time-to-live; deeper page: 30 s.
    assert!(state.lookup_page(&first, 1009).is_some());
    assert!(state.lookup_page(&first, 1010).is_none());
    assert!(state.lookup_page(&third, 1029).is_some());
    assert!(state.lookup_page(&third, 1030).is_none());
}

#[test]
fn oversized_store_result_is_windowed_to_the_limit() {
    let c = ServiceConfig::standard();
    let mut state = AppState::new(c);
    let shape = normalize_input(&LeaderboardInput { limit: Some(2), page: Some(1) }, &c);
    let rows = vec![row("0xaaa", "3"), row("0xbbb", "2"), row("0xccc", "1")];
    let page = state.store_loaded(&shape, &rows, 1000);
    assert_eq!(page.len(), 2);
    assert!(page.len() as u64 <= c.max_limit);
}

#[test]
fn store_errors_classify_per_taxonomy() {
    assert_eq!(classify_store_error(StoreError::Transient), ServiceError::TemporarilyUnavailable);
    assert_eq!(classify_store_error(StoreError::Permanent), ServiceError::InvalidRequest);
}

#[test]
fn session_pushes_initial_snapshot_on_connect() {
    assert!(matches!(on_connect(), SessionAction::PushSnapshot(PushKind::Initial)));
}

#[test]
fn session_steps_follow_the_table() {
    let (s, a) = session_step(
        SessionState::Open,
        SessionEvent::BroadcastReceived(FreshnessEvent { timestamp: 9 }),
    );
    assert_eq!(s, SessionState::Open);
    assert!(matches!(a, SessionAction::ForwardEvent(FreshnessEvent { timestamp: 9 })));

    let (s, a) = session_step(SessionState::Open, SessionEvent::PeriodicTick);
    assert_eq!(s, SessionState::Open);
    assert!(matches!(a, SessionAction::PushSnapshot(PushKind::PeriodicUpdate)));

    let (s, a) = session_step(SessionState::Open, SessionEvent::ClientPing(vec![1, 2, 3]));
    assert_eq!(s, SessionState::Open);
    match a {
        SessionAction::Pong(payload) => assert_eq!(payload, vec![1, 2, 3]),
        _ => panic!("a ping must be answered in kind"),
    }

    let (s, a) = session_step(SessionState::Open, SessionEvent::ClientClose);
    assert_eq!(s, SessionState::Closed);
    assert!(matches!(a, SessionAction::EndSession));

    let (s, a) = session_step(SessionState::Open, SessionEvent::SendFailed);
    assert_eq!(s, SessionState::Closed);
    assert!(matches!(a, SessionAction::EndSession));

    let (s, a) = session_step(SessionState::Open, SessionEvent::ClientError);
    assert_eq!(s, SessionState::Closed);
    assert!(matches!(a, SessionAction::EndSession));

    let (s, a) = session_step(SessionState::Closed, SessionEvent::PeriodicTick);
    assert_eq!(s, SessionState::Closed);
    assert!(matches!(a, SessionAction::Ignore));
}

#[test]
fn wire_tags_are_stable() {
    assert_eq!(push_tag(PushKind::Initial), "initial");
    assert_eq!(push_tag(PushKind::PeriodicUpdate), "periodic_update");
    assert_eq!(freshness_marker(), "leaderboard_updated");
}
