//! The refresh cycle: trigger coalescing, invalidation on success, and the
//! freshness broadcast.

use leaderboard::entry::LeaderboardEntry;
use leaderboard::hub::FreshnessEvent;
use leaderboard::refresher::{step, RefreshAction, RefreshEvent, RefreshState};
use leaderboard::service::AppState;
use leaderboard::shape::{QueryShape, ServiceConfig, SortBy, SortOrder};

fn row(wallet: &str) -> LeaderboardEntry {
    LeaderboardEntry {
        rank: 0,
        trader_wallet: String::from(wallet),
        account_value: String::from("5000"),
        pnl: String::from("100"),
        roi: String::from("2.0"),
        volume: String::from("90000"),
        last_updated: 1_700_000_000,
    }
}

fn shape() -> QueryShape {
    QueryShape { limit: 10, offset: 0, sort_by: SortBy::Roi, sort_order: SortOrder::Desc }
}

#[test]
fn step_table() {
    assert_eq!(
        step(RefreshState::Idle, RefreshEvent::TimerTick),
        (RefreshState::Refreshing, RefreshAction::StartRefresh)
    );
    assert_eq!(
        step(RefreshState::Idle, RefreshEvent::ManualTrigger),
        (RefreshState::Refreshing, RefreshAction::StartRefresh)
    );
    assert_eq!(
        step(RefreshState::Refreshing, RefreshEvent::TimerTick),
        (RefreshState::Refreshing, RefreshAction::NoAction)
    );
    assert_eq!(
        step(RefreshState::Refreshing, RefreshEvent::ManualTrigger),
        (RefreshState::Refreshing, RefreshAction::NoAction)
    );
    assert_eq!(
        step(RefreshState::Refreshing, RefreshEvent::Completed { success: true }),
        (RefreshState::Idle, RefreshAction::InvalidateAndBroadcast)
    );
    assert_eq!(
        step(RefreshState::Refreshing, RefreshEvent::Completed { success: false }),
        (RefreshState::Idle, RefreshAction::NoAction)
    );
    assert_eq!(
        step(RefreshState::Idle, RefreshEvent::Completed { success: true }),
        (RefreshState::Idle, RefreshAction::NoAction)
    );
}

#[test]
fn concurrent_triggers_start_exactly_one_refresh() {
    let mut state = AppState::new(ServiceConfig::standard());
    let first = state.trigger_refresh();
    let second = state.trigger_refresh();
    let tick = state.on_timer_tick();
    assert!(first);
    assert!(!second);
    assert!(!tick);

    let published = state.complete_refresh(true, 42);
    assert!(published);

    let again = state.trigger_refresh();
    assert!(again);
}

#[test]
fn successful_refresh_invalidates_pages_and_broadcasts_once() {
    let mut state = AppState::new(ServiceConfig::standard());
    let rows = vec![row("0xaaa"), row("0xbbb")];
    let sh = shape();
    state.store_loaded(&sh, &rows, 1000);
    assert!(state.lookup_page(&sh, 1001).is_some());

    let sub = state.hub.subscribe(4);
    assert!(state.trigger_refresh());
    let published = state.complete_refresh(true, 1002);
    assert!(published);

    assert!(state.lookup_page(&sh, 1002).is_none());
    assert_eq!(state.hub.pop_event(sub), Some(FreshnessEvent { timestamp: 1002 }));
    assert_eq!(state.hub.pop_event(sub), None);
}

#[test]
fn failed_refresh_touches_nothing() {
    let mut state = AppState::new(ServiceConfig::standard());
    let rows = vec![row("0xaaa")];
    let sh = shape();
    state.store_loaded(&sh, &rows, 1000);
    let sub = state.hub.subscribe(4);

    assert!(state.trigger_refresh());
    let published = state.complete_refresh(false, 1003);
    assert!(!published);

    assert!(state.lookup_page(&sh, 1003).is_some());
    assert_eq!(state.hub.pop_event(sub), None);

    assert!(state.trigger_refresh());
}

#[test]
fn counters_survive_refresh_invalidation() {
    let mut state = AppState::new(ServiceConfig::standard());
    state.cache.increment_counter("leaderboard_requests");
    state.cache.increment_counter("leaderboard_requests");
    assert!(state.trigger_refresh());
    state.complete_refresh(true, 7);
    assert_eq!(state.cache.increment_counter("leaderboard_requests"), 3);
}
