//! The refresh cycle as a state machine. A timer tick or a manual trigger
//! moves the refresher from idle into a refresh; while one is in flight,
//! further triggers coalesce into it (never queued or stacked). Completion
//! returns to idle; only a successful completion asks for the cache
//! invalidation and the freshness broadcast.

use vstd::prelude::*;

verus! {

/// Where the refresher stands: waiting on the timer, or inside a cycle.
#[derive(Clone, Copy, PartialEq, Eq, Structural, Debug)]
pub enum RefreshState {
    Idle,
    Refreshing,
}

/// What can happen to the refresher.
#[derive(Clone, Copy, PartialEq, Eq, Structural, Debug)]
pub enum RefreshEvent {
    /// The periodic timer fired.
    TimerTick,
    /// An explicit refresh was requested.
    ManualTrigger,
    /// The in-flight refresh finished.
    Completed { success: bool },
}

/// What the surrounding loop must do after a step.
#[derive(Clone, Copy, PartialEq, Eq, Structural, Debug)]
pub enum RefreshAction {
    /// Ask the ranked store to recompute.
    StartRefresh,
    /// Drop the cached leaderboard key space and broadcast freshness.
    InvalidateAndBroadcast,
    /// Nothing to do.
    NoAction,
}

/// The transition relation. Triggers while refreshing are no-ops; a failed
/// completion changes nothing but the state, so the next tick retries.
pub open spec fn spec_step(s: RefreshState, e: RefreshEvent) -> (RefreshState, RefreshAction) {
    match (s, e) {
        (RefreshState::Idle, RefreshEvent::TimerTick) => (
            RefreshState::Refreshing,
            RefreshAction::StartRefresh,
        ),
        (RefreshState::Idle, RefreshEvent::ManualTrigger) => (
            RefreshState::Refreshing,
            RefreshAction::StartRefresh,
        ),
        (RefreshState::Idle, RefreshEvent::Completed { .. }) => (
            RefreshState::Idle,
            RefreshAction::NoAction,
        ),
        (RefreshState::Refreshing, RefreshEvent::TimerTick) => (
            RefreshState::Refreshing,
            RefreshAction::NoAction,
        ),
        (RefreshState::Refreshing, RefreshEvent::ManualTrigger) => (
            RefreshState::Refreshing,
            RefreshAction::NoAction,
        ),
        (RefreshState::Refreshing, RefreshEvent::Completed { success }) => (
            RefreshState::Idle,
            if success {
                RefreshAction::InvalidateAndBroadcast
            } else {
                RefreshAction::NoAction
            },
        ),
    }
}

/// One step of the refresher.
pub fn step(s: RefreshState, e: RefreshEvent) -> (r: (RefreshState, RefreshAction))
    ensures
        r == spec_step(s, e),
{
    match (s, e) {
        (RefreshState::Idle, RefreshEvent::TimerTick) => (
            RefreshState::Refreshing,
            RefreshAction::StartRefresh,
        ),
        (RefreshState::Idle, RefreshEvent::ManualTrigger) => (
            RefreshState::Refreshing,
            RefreshAction::StartRefresh,
        ),
        (RefreshState::Idle, RefreshEvent::Completed { .. }) => (
            RefreshState::Idle,
            RefreshAction::NoAction,
        ),
        (RefreshState::Refreshing, RefreshEvent::TimerTick) => (
            RefreshState::Refreshing,
            RefreshAction::NoAction,
        ),
        (RefreshState::Refreshing, RefreshEvent::ManualTrigger) => (
            RefreshState::Refreshing,
            RefreshAction::NoAction,
        ),
        (RefreshState::Refreshing, RefreshEvent::Completed { success }) => (
            RefreshState::Idle,
            if success {
                RefreshAction::InvalidateAndBroadcast
            } else {
                RefreshAction::NoAction
            },
        ),
    }
}

/// Whether an event asks for a refresh.
pub open spec fn is_trigger(e: RefreshEvent) -> bool {
    e == RefreshEvent::TimerTick || e == RefreshEvent::ManualTrigger
}

/// Runs the machine over a string of events; yields the final state and
/// how many refreshes were started along the way.
pub open spec fn spec_run(s: RefreshState, events: Seq<RefreshEvent>) -> (RefreshState, nat)
    decreases events.len(),
{
    if events.len() == 0 {
        (s, 0nat)
    } else {
        let first = spec_step(s, events[0]);
        let rest = spec_run(first.0, events.drop_first());
        (
            rest.0,
            rest.1 + if first.1 == RefreshAction::StartRefresh {
                1nat
            } else {
                0nat
            },
        )
    }
}

/// Concurrent triggers coalesce: any run of ticks and manual triggers
/// starts exactly one underlying refresh from idle, and none at all while
/// a refresh is already in flight.
pub proof fn lemma_triggers_coalesce(events: Seq<RefreshEvent>)
    requires
        forall|i: int| 0 <= i < events.len() ==> is_trigger(#[trigger] events[i]),
    ensures
        events.len() >= 1 ==> spec_run(RefreshState::Idle, events) == (
            RefreshState::Refreshing,
            1nat,
        ),
        spec_run(RefreshState::Refreshing, events) == (RefreshState::Refreshing, 0nat),
    decreases events.len(),
{
    if events.len() > 0 {
        assert(forall|i: int|
            0 <= i < events.drop_first().len() ==> #[trigger] events.drop_first()[i] == events[i
                + 1]);
        lemma_triggers_coalesce(events.drop_first());
    }
}

} // verus!
