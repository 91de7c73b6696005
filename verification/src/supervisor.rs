//! The client's supervision of the daemon: making sure that one runs
//! before a request is sent.

use vstd::prelude::*;

verus! {

/// The pause between two probes of the endpoint, in milliseconds.
pub const POLL_MILLIS: u64 = 100;

/// How many times the client pauses and probes after starting a daemon.
pub const POLL_ATTEMPTS: u32 = 50;

/// Where the client stands.
#[derive(Debug, Clone, Copy, PartialEq, Eq, Structural)]
pub enum SupervisorState {
    /// The endpoint was not probed yet.
    Initial,
    /// A daemon is being launched.
    Launching,
    /// A daemon was launched; `polls` pauses were made since.
    Polling { polls: u32 },
    /// The last probe before the request is sent.
    Confirming,
    /// The client either connects or has given up.
    Finished,
}

/// What happened.
#[derive(Debug, Clone, Copy, PartialEq, Eq, Structural)]
pub enum SupervisorEvent {
    /// The endpoint was probed; `alive` says whether a daemon answered.
    Probed { alive: bool },
    /// A daemon process was launched.
    Launched,
}

/// What the client is to do next.
#[derive(Debug, Clone, Copy, PartialEq, Eq, Structural)]
pub enum SupervisorAction {
    /// Launch a detached daemon for the workspace.
    Launch,
    /// Wait `millis` milliseconds, then probe the endpoint.
    PauseAndProbe { millis: u64 },
    /// Probe the endpoint at once.
    Probe,
    /// Open the connection and send the request.
    Connect,
    /// Give up: no daemon could be reached.
    Fail,
}

/// The state after `event` in `state`, and the action it asks for.
///
/// A daemon that answers the first probe is used at once. Else one is
/// launched, and the endpoint is probed after each of up to
/// `POLL_ATTEMPTS` pauses, until a probe is answered. One more probe
/// confirms: answered, the client connects; not answered, it gives up.
pub open spec fn supervised(state: SupervisorState, event: SupervisorEvent) -> (
    SupervisorState,
    SupervisorAction,
) {
    match (state, event) {
        (SupervisorState::Initial, SupervisorEvent::Probed { alive }) => if alive {
            (SupervisorState::Finished, SupervisorAction::Connect)
        } else {
            (SupervisorState::Launching, SupervisorAction::Launch)
        },
        (SupervisorState::Launching, SupervisorEvent::Launched) => (
            SupervisorState::Polling { polls: 1 },
            SupervisorAction::PauseAndProbe { millis: POLL_MILLIS },
        ),
        (SupervisorState::Polling { polls }, SupervisorEvent::Probed { alive }) => if !alive
            && polls < POLL_ATTEMPTS {
            (
                SupervisorState::Polling { polls: (polls + 1) as u32 },
                SupervisorAction::PauseAndProbe { millis: POLL_MILLIS },
            )
        } else {
            (SupervisorState::Confirming, SupervisorAction::Probe)
        },
        (SupervisorState::Confirming, SupervisorEvent::Probed { alive }) => if alive {
            (SupervisorState::Finished, SupervisorAction::Connect)
        } else {
            (SupervisorState::Finished, SupervisorAction::Fail)
        },
        _ => (SupervisorState::Finished, SupervisorAction::Fail),
    }
}

/// Takes what happened and says what the client does next.
pub fn supervise(state: SupervisorState, event: SupervisorEvent) -> (r: (
    SupervisorState,
    SupervisorAction,
))
    ensures
        r == supervised(state, event),
{
    match (state, event) {
        (SupervisorState::Initial, SupervisorEvent::Probed { alive }) => {
            if alive {
                (SupervisorState::Finished, SupervisorAction::Connect)
            } else {
                (SupervisorState::Launching, SupervisorAction::Launch)
            }
        },
        (SupervisorState::Launching, SupervisorEvent::Launched) => (
            SupervisorState::Polling { polls: 1 },
            SupervisorAction::PauseAndProbe { millis: POLL_MILLIS },
        ),
        (SupervisorState::Polling { polls }, SupervisorEvent::Probed { alive }) => {
            if !alive && polls < POLL_ATTEMPTS {
                (
                    SupervisorState::Polling { polls: polls + 1 },
                    SupervisorAction::PauseAndProbe { millis: POLL_MILLIS },
                )
            } else {
                (SupervisorState::Confirming, SupervisorAction::Probe)
            }
        },
        (SupervisorState::Confirming, SupervisorEvent::Probed { alive }) => {
            if alive {
                (SupervisorState::Finished, SupervisorAction::Connect)
            } else {
                (SupervisorState::Finished, SupervisorAction::Fail)
            }
        },
        _ => (SupervisorState::Finished, SupervisorAction::Fail),
    }
}

/// A state reached by polling has made between 1 and `POLL_ATTEMPTS`
/// pauses.
pub open spec fn within_bounds(state: SupervisorState) -> bool {
    state matches SupervisorState::Polling { polls } ==> 1 <= polls <= POLL_ATTEMPTS
}

/// The number of pauses stays within `POLL_ATTEMPTS`, and the client
/// connects only after a probe that a daemon answered.
pub proof fn lemma_supervision_bounded(state: SupervisorState, event: SupervisorEvent)
    requires
        within_bounds(state),
    ensures
        within_bounds(supervised(state, event).0),
        supervised(state, event).1 == SupervisorAction::Connect ==> event == (
        SupervisorEvent::Probed { alive: true }),
{
}

} // verus!
