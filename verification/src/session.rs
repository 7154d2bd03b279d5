//! One subscriber's live session as a state machine. The surrounding loop
//! multiplexes three sources — inbound broadcast events, the session's own
//! periodic timer, and client control frames — performs the returned
//! action, and feeds back what happened; any send failure or client close
//! ends exactly this session.

use vstd::prelude::*;

use crate::hub::FreshnessEvent;

verus! {

/// Whether the session still serves its client.
#[derive(Clone, Copy, PartialEq, Eq, Structural, Debug)]
pub enum SessionState {
    Open,
    Closed,
}

/// Which kind of page push a session sends.
#[derive(Clone, Copy, PartialEq, Eq, Structural, Debug)]
pub enum PushKind {
    /// The immediate snapshot sent on connect.
    Initial,
    /// A push from the session's own periodic timer.
    PeriodicUpdate,
}

/// What can happen to an open session.
pub enum SessionEvent {
    /// A freshness event arrived over the fan-out channel.
    BroadcastReceived(FreshnessEvent),
    /// The session's periodic timer fired.
    PeriodicTick,
    /// The client sent a liveness ping with this payload.
    ClientPing(Vec<u8>),
    /// The client closed the connection.
    ClientClose,
    /// The client's stream failed or overflowed.
    ClientError,
    /// A send to the client's transport failed.
    SendFailed,
}

/// What the session loop must do next.
pub enum SessionAction {
    /// Forward the freshness marker for this event to the client.
    ForwardEvent(FreshnessEvent),
    /// Fetch a fresh page and push it, tagged with the kind.
    PushSnapshot(PushKind),
    /// Answer a ping in kind, with the same payload.
    Pong(Vec<u8>),
    /// Tear this session down; nobody else is affected.
    EndSession,
    /// Nothing to do.
    Ignore,
}

/// The transition relation: broadcasts are forwarded, ticks push a page,
/// pings are answered with their own payload, and a close, a client error
/// or a send failure closes this session alone. A closed session absorbs
/// everything.
pub open spec fn spec_session_step(s: SessionState, e: SessionEvent) -> (
    SessionState,
    SessionAction,
) {
    match (s, e) {
        (SessionState::Closed, _) => (SessionState::Closed, SessionAction::Ignore),
        (SessionState::Open, SessionEvent::BroadcastReceived(ev)) => (
            SessionState::Open,
            SessionAction::ForwardEvent(ev),
        ),
        (SessionState::Open, SessionEvent::PeriodicTick) => (
            SessionState::Open,
            SessionAction::PushSnapshot(PushKind::PeriodicUpdate),
        ),
        (SessionState::Open, SessionEvent::ClientPing(b)) => (
            SessionState::Open,
            SessionAction::Pong(b),
        ),
        (SessionState::Open, SessionEvent::ClientClose) => (
            SessionState::Closed,
            SessionAction::EndSession,
        ),
        (SessionState::Open, SessionEvent::ClientError) => (
            SessionState::Closed,
            SessionAction::EndSession,
        ),
        (SessionState::Open, SessionEvent::SendFailed) => (
            SessionState::Closed,
            SessionAction::EndSession,
        ),
    }
}

/// One step of a session.
pub fn session_step(s: SessionState, e: SessionEvent) -> (r: (SessionState, SessionAction))
    ensures
        r == spec_session_step(s, e),
{
    match (s, e) {
        (SessionState::Closed, _) => (SessionState::Closed, SessionAction::Ignore),
        (SessionState::Open, SessionEvent::BroadcastReceived(ev)) => (
            SessionState::Open,
            SessionAction::ForwardEvent(ev),
        ),
        (SessionState::Open, SessionEvent::PeriodicTick) => (
            SessionState::Open,
            SessionAction::PushSnapshot(PushKind::PeriodicUpdate),
        ),
        (SessionState::Open, SessionEvent::ClientPing(b)) => (
            SessionState::Open,
            SessionAction::Pong(b),
        ),
        (SessionState::Open, SessionEvent::ClientClose) => (
            SessionState::Closed,
            SessionAction::EndSession,
        ),
        (SessionState::Open, SessionEvent::ClientError) => (
            SessionState::Closed,
            SessionAction::EndSession,
        ),
        (SessionState::Open, SessionEvent::SendFailed) => (
            SessionState::Closed,
            SessionAction::EndSession,
        ),
    }
}

/// On connect a session pushes one immediate full snapshot before
/// anything else.
pub fn on_connect() -> (a: SessionAction)
    ensures
        a == SessionAction::PushSnapshot(PushKind::Initial),
{
    SessionAction::PushSnapshot(PushKind::Initial)
}

/// The characters of the `initial` push tag.
pub open spec fn spec_tag_initial() -> Seq<char> {
    seq!['i', 'n', 'i', 't', 'i', 'a', 'l']
}

/// The characters of the `periodic_update` push tag.
pub open spec fn spec_tag_periodic() -> Seq<char> {
    seq!['p', 'e', 'r', 'i', 'o', 'd', 'i', 'c', '_', 'u', 'p', 'd', 'a', 't', 'e']
}

/// The characters of the plain freshness marker, `leaderboard_updated`.
pub open spec fn spec_freshness_marker() -> Seq<char> {
    seq![
        'l',
        'e',
        'a',
        'd',
        'e',
        'r',
        'b',
        'o',
        'a',
        'r',
        'd',
        '_',
        'u',
        'p',
        'd',
        'a',
        't',
        'e',
        'd',
    ]
}

/// The wire tag a push of the given kind carries.
pub fn push_tag(k: PushKind) -> (r: &'static str)
    ensures
        k == PushKind::Initial ==> r@ == spec_tag_initial(),
        k == PushKind::PeriodicUpdate ==> r@ == spec_tag_periodic(),
{
    proof {
        reveal_strlit("initial");
        reveal_strlit("periodic_update");
        assert("initial"@ =~= spec_tag_initial());
        assert("periodic_update"@ =~= spec_tag_periodic());
    }
    match k {
        PushKind::Initial => "initial",
        PushKind::PeriodicUpdate => "periodic_update",
    }
}

/// The marker string forwarded for a plain freshness event.
pub fn freshness_marker() -> (r: &'static str)
    ensures
        r@ == spec_freshness_marker(),
{
    proof {
        reveal_strlit("leaderboard_updated");
        assert("leaderboard_updated"@ =~= spec_freshness_marker());
    }
    "leaderboard_updated"
}

} // verus!
