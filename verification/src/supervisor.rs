//! The supervisor: the serving loop's lifecycle as a state machine. A benign
//! client disconnect restarts the loop after a fixed backoff; a fatal fault
//! escalates and is terminal; a normal loop exit is surfaced as a warning.

use vstd::prelude::*;
use crate::classify::{FaultClass, classify, is_disconnect_message};

verus! {

/// How long the supervisor pauses before it rebuilds the serving loop after
/// a client-disconnect fault, in milliseconds.
pub const RESTART_BACKOFF_MS: u64 = 100;

/// The lifecycle of the serving loop. `Stopped` and `FatallyFaulted` are
/// terminal for the process.
#[derive(Clone, Copy, PartialEq, Eq, Structural, Debug)]
pub enum ServerState {
    /// The listening socket is being bound.
    Starting,
    /// The serving loop accepts and dispatches requests.
    Running,
    /// A disconnect-induced fault was absorbed; waiting out the backoff.
    RestartingAfterFault,
    /// The serving loop returned normally, which it should not.
    Stopped,
    /// A fatal fault escaped the serving loop; it is not masked.
    FatallyFaulted,
}

/// What the supervisor observes.
pub enum Event {
    /// The listening socket was bound.
    Bound,
    /// The serving loop returned normally.
    LoopReturned,
    /// An abrupt fault with this message escaped the serving loop.
    LoopFaulted(String),
    /// The restart backoff has elapsed.
    BackoffElapsed,
}

/// What the surrounding program must do after a step.
#[derive(Clone, Copy, PartialEq, Eq, Structural, Debug)]
pub enum Action {
    /// Bind the listening socket.
    Bind,
    /// Run the serving loop.
    Serve,
    /// Log that the loop exited unexpectedly.
    LogUnexpectedStop,
    /// Log the disconnect at warning level and pause this many milliseconds.
    LogDisconnectAndBackoff(u64),
    /// Re-raise the fault so the process terminates.
    Escalate,
    /// Nothing: the event does not apply to the state.
    Ignore,
}

/// The transition function: from a state and an observed event to the next
/// state and the action the surrounding program must perform.
pub open spec fn spec_step(s: ServerState, e: Event) -> (ServerState, Action) {
    match (s, e) {
        (ServerState::Starting, Event::Bound) => (ServerState::Running, Action::Serve),
        (ServerState::Running, Event::LoopReturned) => (
            ServerState::Stopped,
            Action::LogUnexpectedStop,
        ),
        (ServerState::Running, Event::LoopFaulted(m)) => if is_disconnect_message(m@) {
            (ServerState::RestartingAfterFault, Action::LogDisconnectAndBackoff(RESTART_BACKOFF_MS))
        } else {
            (ServerState::FatallyFaulted, Action::Escalate)
        },
        (ServerState::RestartingAfterFault, Event::BackoffElapsed) => (
            ServerState::Starting,
            Action::Bind,
        ),
        (_, _) => (s, Action::Ignore),
    }
}

/// Performs one supervisor step, classifying the fault message when one
/// arrives while the loop runs.
pub fn step(state: ServerState, event: &Event) -> (r: (ServerState, Action))
    ensures
        r == spec_step(state, *event),
{
    match state {
        ServerState::Starting => match event {
            Event::Bound => (ServerState::Running, Action::Serve),
            _ => (state, Action::Ignore),
        },
        ServerState::Running => match event {
            Event::LoopReturned => (ServerState::Stopped, Action::LogUnexpectedStop),
            Event::LoopFaulted(message) => match classify(message.as_str()) {
                FaultClass::ClientDisconnect => (
                    ServerState::RestartingAfterFault,
                    Action::LogDisconnectAndBackoff(RESTART_BACKOFF_MS),
                ),
                FaultClass::Fatal => (ServerState::FatallyFaulted, Action::Escalate),
            },
            _ => (state, Action::Ignore),
        },
        ServerState::RestartingAfterFault => match event {
            Event::BackoffElapsed => (ServerState::Starting, Action::Bind),
            _ => (state, Action::Ignore),
        },
        ServerState::Stopped => (state, Action::Ignore),
        ServerState::FatallyFaulted => (state, Action::Ignore),
    }
}

/// A disconnect-classified fault is absorbed, never escalated: the supervisor
/// logs, backs off for the fixed interval, rebinds, and is back in `Running`
/// after exactly three steps, ready to serve unrelated requests.
pub proof fn lemma_disconnect_recovery(message: String)
    requires
        is_disconnect_message(message@),
    ensures
        spec_step(ServerState::Running, Event::LoopFaulted(message)).0
            == ServerState::RestartingAfterFault,
        spec_step(ServerState::Running, Event::LoopFaulted(message)).1
            == Action::LogDisconnectAndBackoff(RESTART_BACKOFF_MS),
        spec_step(ServerState::RestartingAfterFault, Event::BackoffElapsed) == (
            ServerState::Starting,
            Action::Bind,
        ),
        spec_step(ServerState::Starting, Event::Bound) == (ServerState::Running, Action::Serve),
{
}

/// A fatal fault is never masked: it escalates, the machine enters
/// `FatallyFaulted`, and from there no event ever leads anywhere else — in
/// particular, never back to `Running`.
pub proof fn lemma_fatal_is_terminal(message: String, e: Event)
    requires
        !is_disconnect_message(message@),
    ensures
        spec_step(ServerState::Running, Event::LoopFaulted(message)).0
            == ServerState::FatallyFaulted,
        spec_step(ServerState::Running, Event::LoopFaulted(message)).1 == Action::Escalate,
        spec_step(ServerState::FatallyFaulted, e).0 == ServerState::FatallyFaulted,
{
}

} // verus!
