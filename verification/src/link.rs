//! The wireless-link supervisor: a state machine that keeps the interface
//! associated, retrying indefinitely with a fixed backoff on failure or
//! disconnect. The radio calls themselves (start, associate, wait for a
//! disconnect event) are performed by the task around this module; the
//! functions here decide what to do next and how the state advances.

use vstd::prelude::*;
use crate::config::RECONNECT_BACKOFF_MS;

verus! {

/// Where the supervisor stands in the link lifecycle.
#[derive(Clone, Copy, PartialEq, Eq, Structural, Debug)]
pub enum LinkState {
    /// The radio has not been started.
    Idle,
    /// The radio start has been issued and has not finished.
    Starting,
    /// The radio is started and not associated; an association attempt is
    /// due or in flight.
    Connecting,
    /// The interface is associated to the network.
    Connected,
}

/// What the supervisor does next in a given state.
#[derive(Clone, Copy, PartialEq, Eq, Structural, Debug)]
pub enum LinkAction {
    /// Start the radio and wait for the start to finish.
    StartRadio,
    /// Attempt an association using the configured credentials.
    Associate,
    /// Suspend until a disconnect event is observed.
    AwaitDisconnect,
}

/// The outcome the supervisor observes after performing an action.
#[derive(Clone, Copy, PartialEq, Eq, Structural, Debug)]
pub enum LinkEvent {
    /// The radio start finished.
    StartFinished,
    /// An association attempt succeeded.
    AssociationSucceeded,
    /// An association attempt failed.
    AssociationFailed,
    /// A disconnect event was observed while associated.
    DisconnectObserved,
}

/// The action due in each state.
pub open spec fn spec_next_action(state: LinkState) -> LinkAction {
    match state {
        LinkState::Idle => LinkAction::StartRadio,
        LinkState::Starting => LinkAction::StartRadio,
        LinkState::Connecting => LinkAction::Associate,
        LinkState::Connected => LinkAction::AwaitDisconnect,
    }
}

/// Which outcomes the action due in `state` can produce.
pub open spec fn event_fits(state: LinkState, event: LinkEvent) -> bool {
    match event {
        LinkEvent::StartFinished => state is Idle || state is Starting,
        LinkEvent::AssociationSucceeded => state is Connecting,
        LinkEvent::AssociationFailed => state is Connecting,
        LinkEvent::DisconnectObserved => state is Connected,
    }
}

/// The state after an observed outcome, and the backoff in milliseconds to
/// wait before acting again: a fixed delay after every failure and after
/// every disconnect, none otherwise.
pub open spec fn spec_apply_event(state: LinkState, event: LinkEvent) -> (LinkState, u64) {
    match event {
        LinkEvent::StartFinished => (LinkState::Connecting, 0),
        LinkEvent::AssociationSucceeded => (LinkState::Connected, 0),
        LinkEvent::AssociationFailed => (LinkState::Connecting, RECONNECT_BACKOFF_MS),
        LinkEvent::DisconnectObserved => (LinkState::Connecting, RECONNECT_BACKOFF_MS),
    }
}

/// The action the supervisor performs next in a given state. Defined for
/// every state: the supervisor never runs out of things to do.
pub fn next_action(state: LinkState) -> (a: LinkAction)
    ensures
        a == spec_next_action(state),
{
    match state {
        LinkState::Idle => LinkAction::StartRadio,
        LinkState::Starting => LinkAction::StartRadio,
        LinkState::Connecting => LinkAction::Associate,
        LinkState::Connected => LinkAction::AwaitDisconnect,
    }
}

/// Issuing the radio start moves an idle supervisor to `Starting`; every
/// other action leaves the state to be advanced by its outcome.
pub fn begin_action(state: LinkState) -> (r: LinkState)
    ensures
        r == (if state is Idle {
            LinkState::Starting
        } else {
            state
        }),
{
    match state {
        LinkState::Idle => LinkState::Starting,
        other => other,
    }
}

/// Advance the supervisor on an observed outcome, returning the next state
/// and the backoff to wait before the next action.
pub fn apply_event(state: LinkState, event: LinkEvent) -> (r: (LinkState, u64))
    requires
        event_fits(state, event),
    ensures
        r == spec_apply_event(state, event),
{
    match event {
        LinkEvent::StartFinished => (LinkState::Connecting, 0),
        LinkEvent::AssociationSucceeded => (LinkState::Connected, 0),
        LinkEvent::AssociationFailed => (LinkState::Connecting, RECONNECT_BACKOFF_MS),
        LinkEvent::DisconnectObserved => (LinkState::Connecting, RECONNECT_BACKOFF_MS),
    }
}

/// Once the radio has been started, no outcome ever returns the supervisor
/// to a state where the radio is unstarted: recovery never begins over from
/// scratch.
pub proof fn lemma_radio_start_is_permanent(state: LinkState, event: LinkEvent)
    requires
        event_fits(state, event),
    ensures
        spec_apply_event(state, event).0 is Connecting || spec_apply_event(state, event).0
            is Connected,
{
}

/// Every association failure and every disconnect leads back, after the
/// fixed backoff, to a state whose next action is another association
/// attempt: failures are retried indefinitely, with no retry limit and no
/// growing delay.
pub proof fn lemma_failure_leads_to_retry(state: LinkState, event: LinkEvent)
    requires
        event_fits(state, event),
        event is AssociationFailed || event is DisconnectObserved,
    ensures
        spec_apply_event(state, event).0 is Connecting,
        spec_apply_event(state, event).1 == RECONNECT_BACKOFF_MS,
        spec_next_action(spec_apply_event(state, event).0) is Associate,
{
}

} // verus!
