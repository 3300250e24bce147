//! The change-notification listener as a state machine.
//!
//! The process around it registers on the store's channel, polls for
//! notifications with a bounded wait, runs the handler, and reports back
//! what happened; each report yields the next state and the next thing to
//! do. A poll that fails or a handler that fails is only logged: listening
//! goes on until a shutdown request, which releases the connection.
use vstd::prelude::*;

verus! {

#[derive(Clone, Copy, Debug, PartialEq, Eq, Structural)]
pub enum BridgeState {
    Idle,
    Listening,
}

/// What the process around the listener reports.
#[derive(Clone, Debug, PartialEq, Eq)]
pub enum BridgeEvent {
    /// Begin listening.
    Start,
    /// A notification arrived on the channel, with its payload.
    Notification(String),
    /// The bounded wait ended with nothing received.
    PollTimeout,
    /// Waiting for a notification failed.
    PollFailed,
    /// The handler failed on the last notification.
    HandlerFailed,
    /// Shutdown was requested.
    Shutdown,
}

/// What the process around the listener does next.
#[derive(Clone, Debug, PartialEq, Eq)]
pub enum BridgeAction {
    /// Register interest in the channel, then poll.
    Register,
    /// Run the handler once on this payload, then poll again.
    Handle(String),
    /// Poll again (after checking for a shutdown request).
    Poll,
    /// Log the failure, then poll again.
    LogAndPoll,
    /// Release the store connection; listening is over.
    Release,
    /// Nothing to do.
    Stay,
}

/// The state after `event` in state `s`.
pub open spec fn next_state(s: BridgeState, event: BridgeEvent) -> BridgeState {
    match event {
        BridgeEvent::Start => BridgeState::Listening,
        BridgeEvent::Shutdown => BridgeState::Idle,
        _ => s,
    }
}

/// Takes one report and returns the next state and what to do.
pub fn step(s: BridgeState, event: BridgeEvent) -> (r: (BridgeState, BridgeAction))
    ensures
        r.0 == next_state(s, event),
        s == BridgeState::Idle ==> r.1 == match event {
            BridgeEvent::Start => BridgeAction::Register,
            _ => BridgeAction::Stay,
        },
        s == BridgeState::Listening ==> r.1 == match event {
            BridgeEvent::Start | BridgeEvent::PollTimeout => BridgeAction::Poll,
            BridgeEvent::Notification(p) => BridgeAction::Handle(p),
            BridgeEvent::PollFailed | BridgeEvent::HandlerFailed => BridgeAction::LogAndPoll,
            BridgeEvent::Shutdown => BridgeAction::Release,
        },
{
    match s {
        BridgeState::Idle => match event {
            BridgeEvent::Start => (BridgeState::Listening, BridgeAction::Register),
            BridgeEvent::Shutdown => (BridgeState::Idle, BridgeAction::Stay),
            _ => (BridgeState::Idle, BridgeAction::Stay),
        },
        BridgeState::Listening => match event {
            BridgeEvent::Start => (BridgeState::Listening, BridgeAction::Poll),
            BridgeEvent::PollTimeout => (BridgeState::Listening, BridgeAction::Poll),
            BridgeEvent::Notification(p) => (BridgeState::Listening, BridgeAction::Handle(p)),
            BridgeEvent::PollFailed => (BridgeState::Listening, BridgeAction::LogAndPoll),
            BridgeEvent::HandlerFailed => (BridgeState::Listening, BridgeAction::LogAndPoll),
            BridgeEvent::Shutdown => (BridgeState::Idle, BridgeAction::Release),
        },
    }
}

/// The state after the reports `events`, in order, starting from `s`.
pub open spec fn run(s: BridgeState, events: Seq<BridgeEvent>) -> BridgeState
    decreases events.len(),
{
    if events.len() == 0 {
        s
    } else {
        run(next_state(s, events[0]), events.drop_first())
    }
}

/// Listening goes on through any reports but a shutdown request: failed
/// polls and failed handlers do not end it.
pub proof fn lemma_listening_until_shutdown(events: Seq<BridgeEvent>)
    requires
        forall|i: int| 0 <= i < events.len() ==> events[i] != BridgeEvent::Shutdown,
    ensures
        run(BridgeState::Listening, events) == BridgeState::Listening,
    decreases events.len(),
{
    if events.len() > 0 {
        assert(events[0] != BridgeEvent::Shutdown);
        let rest = events.drop_first();
        assert forall|i: int| 0 <= i < rest.len() implies rest[i] != BridgeEvent::Shutdown by {
            assert(rest[i] == events[i + 1]);
        }
        lemma_listening_until_shutdown(rest);
    }
}

/// In any state, a shutdown request ends listening.
pub proof fn lemma_shutdown_stops(s: BridgeState)
    ensures
        next_state(s, BridgeEvent::Shutdown) == BridgeState::Idle,
{
}

} // verus!
