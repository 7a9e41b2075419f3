//! The wireless-link state machine.
//!
//! One connect attempt runs `Disconnected -> Connecting -> Connected` or
//! `Connecting -> Failed`; `Failed` is terminal for the attempt and demands
//! the fatal-recovery action (a device restart) — there is no in-process
//! retry. A link loss observed after `Connected` is an asynchronous event
//! that is only recorded (back to `Disconnected`); the core loop notices it
//! indirectly through the next publish failure.
use vstd::prelude::*;

verus! {

/// Where one wireless connect attempt stands.
#[derive(Clone, Copy, Debug, PartialEq, Eq, Structural)]
pub enum ConnectionState {
    Disconnected,
    Connecting,
    Connected,
    Failed,
}

/// What the wireless driver reported.
#[derive(Clone, Copy, Debug, PartialEq, Eq, Structural)]
pub enum LinkEvent {
    /// A connect attempt was started.
    AttemptStarted,
    /// Association, authentication and address acquisition all succeeded.
    LinkEstablished,
    /// Some step of the attempt failed or timed out.
    AttemptFailed,
    /// The established link dropped afterwards.
    LinkLost,
}

/// The transition relation: next state, and whether the fatal-recovery
/// action is now required.
pub open spec fn spec_link_step(s: ConnectionState, e: LinkEvent) -> (ConnectionState, bool) {
    match (s, e) {
        (ConnectionState::Disconnected, LinkEvent::AttemptStarted)
            => (ConnectionState::Connecting, false),
        (ConnectionState::Connecting, LinkEvent::LinkEstablished)
            => (ConnectionState::Connected, false),
        (ConnectionState::Connecting, LinkEvent::AttemptFailed)
            => (ConnectionState::Failed, true),
        (ConnectionState::Connected, LinkEvent::LinkLost)
            => (ConnectionState::Disconnected, false),
        _ => (s, false),
    }
}

/// Advances the link state machine by one observed event. The returned flag
/// says whether the fatal-recovery action must be invoked now.
pub fn link_step(s: ConnectionState, e: LinkEvent) -> (r: (ConnectionState, bool))
    ensures
        r == spec_link_step(s, e),
{
    match (s, e) {
        (ConnectionState::Disconnected, LinkEvent::AttemptStarted)
            => (ConnectionState::Connecting, false),
        (ConnectionState::Connecting, LinkEvent::LinkEstablished)
            => (ConnectionState::Connected, false),
        (ConnectionState::Connecting, LinkEvent::AttemptFailed)
            => (ConnectionState::Failed, true),
        (ConnectionState::Connected, LinkEvent::LinkLost)
            => (ConnectionState::Disconnected, false),
        _ => (s, false),
    }
}

/// A failed attempt is terminal: no event leads out of `Failed`, and the
/// fatal flag is raised exactly on the step that enters it.
pub proof fn lemma_failed_is_terminal(e: LinkEvent)
    ensures
        spec_link_step(ConnectionState::Failed, e).0 == ConnectionState::Failed,
        forall|s: ConnectionState, ev: LinkEvent|
            (#[trigger] spec_link_step(s, ev)).1
                <==> s is Connecting && ev is AttemptFailed,
{
}

/// Transitions are one-directional: an attempt enters `Connecting` only
/// from `Disconnected`, and `Connected` only from `Connecting`.
pub proof fn lemma_one_directional(s: ConnectionState, e: LinkEvent)
    ensures
        spec_link_step(s, e).0 is Connecting ==> s is Disconnected || s is Connecting,
        spec_link_step(s, e).0 is Connected ==> s is Connecting || s is Connected,
{
}

} // verus!
