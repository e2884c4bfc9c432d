//! The foreground-window watcher's state machine.
//!
//! The watcher registers a hook for foreground-change notifications, pumps
//! the operating system's message loop, and lets each dispatched message run
//! the event handler. The handler resolves an application identity only for
//! events of the "foreground changed" kind; every other kind is ignored.
//! This module holds that control logic as an explicit transition function
//! from a state and an incoming event to the next state and the action the
//! loop must take; the loop that performs the actions stands outside this
//! crate.

use vstd::prelude::*;

verus! {

/// The event kind the operating system assigns to "a different window came
/// to the foreground".
pub const EVENT_SYSTEM_FOREGROUND: u32 = 0x0003;

/// Where the watcher stands in its lifecycle.
///
/// `Idle` is before hook registration; `Hooked` after a successful
/// registration and before the first message; `Pumping` inside the message
/// loop; `Unhooked` after an orderly shutdown (terminal); `HookFailed` after
/// a failed registration (terminal — foreground tracking stays disabled).
#[derive(Clone, Copy, PartialEq, Eq, Structural, Debug)]
pub enum WatcherState {
    Idle,
    Hooked,
    Pumping,
    Unhooked,
    HookFailed,
}

/// What the outside loop reports to the state machine.
#[derive(Clone, Copy, PartialEq, Eq, Structural, Debug)]
pub enum WatcherEvent {
    /// Hook registration finished; the payload says whether it succeeded.
    HookOutcome(bool),
    /// Message retrieval returned; `true` means the retrieval reported
    /// shutdown, `false` means an ordinary message was received.
    Message(bool),
    /// A dispatched message reached the event handler with this event kind.
    WindowEvent(u32),
}

/// What the outside loop must do next.
#[derive(Clone, Copy, PartialEq, Eq, Structural, Debug)]
pub enum WatcherAction {
    /// Nothing: the event is ignored.
    Ignore,
    /// Translate and dispatch the retrieved message, then retrieve the next.
    Dispatch,
    /// Resolve the application identity of the new foreground window and
    /// hand it to the registered callback.
    Resolve,
    /// Deregister the hook; the watcher is done.
    Unhook,
    /// Stop without ever pumping: registration failed.
    Stop,
}

/// The transition function of the watcher: from a state and an event to the
/// next state and the required action.
///
/// Registration moves `Idle` to `Hooked` on success and to the terminal
/// `HookFailed` on failure. While hooked or pumping, an ordinary message is
/// dispatched and a shutdown report unhooks. A window event asks for
/// resolution exactly when its kind is `EVENT_SYSTEM_FOREGROUND`. Events
/// that fit the current state in no other way are ignored.
pub open spec fn next(state: WatcherState, event: WatcherEvent) -> (WatcherState, WatcherAction) {
    match (state, event) {
        (WatcherState::Idle, WatcherEvent::HookOutcome(ok)) => if ok {
            (WatcherState::Hooked, WatcherAction::Ignore)
        } else {
            (WatcherState::HookFailed, WatcherAction::Stop)
        },
        (WatcherState::Hooked, WatcherEvent::Message(shutdown)) => if shutdown {
            (WatcherState::Unhooked, WatcherAction::Unhook)
        } else {
            (WatcherState::Pumping, WatcherAction::Dispatch)
        },
        (WatcherState::Pumping, WatcherEvent::Message(shutdown)) => if shutdown {
            (WatcherState::Unhooked, WatcherAction::Unhook)
        } else {
            (WatcherState::Pumping, WatcherAction::Dispatch)
        },
        (WatcherState::Hooked, WatcherEvent::WindowEvent(kind)) => if kind
            == EVENT_SYSTEM_FOREGROUND {
            (WatcherState::Hooked, WatcherAction::Resolve)
        } else {
            (WatcherState::Hooked, WatcherAction::Ignore)
        },
        (WatcherState::Pumping, WatcherEvent::WindowEvent(kind)) => if kind
            == EVENT_SYSTEM_FOREGROUND {
            (WatcherState::Pumping, WatcherAction::Resolve)
        } else {
            (WatcherState::Pumping, WatcherAction::Ignore)
        },
        _ => (state, WatcherAction::Ignore),
    }
}

/// Executable form of [`next`], for the loop that drives the watcher.
pub fn watcher_step(state: WatcherState, event: WatcherEvent) -> (r: (
    WatcherState,
    WatcherAction,
))
    ensures
        r == next(state, event),
{
    match (state, event) {
        (WatcherState::Idle, WatcherEvent::HookOutcome(ok)) => if ok {
            (WatcherState::Hooked, WatcherAction::Ignore)
        } else {
            (WatcherState::HookFailed, WatcherAction::Stop)
        },
        (WatcherState::Hooked, WatcherEvent::Message(shutdown)) => if shutdown {
            (WatcherState::Unhooked, WatcherAction::Unhook)
        } else {
            (WatcherState::Pumping, WatcherAction::Dispatch)
        },
        (WatcherState::Pumping, WatcherEvent::Message(shutdown)) => if shutdown {
            (WatcherState::Unhooked, WatcherAction::Unhook)
        } else {
            (WatcherState::Pumping, WatcherAction::Dispatch)
        },
        (WatcherState::Hooked, WatcherEvent::WindowEvent(kind)) => if kind
            == EVENT_SYSTEM_FOREGROUND {
            (WatcherState::Hooked, WatcherAction::Resolve)
        } else {
            (WatcherState::Hooked, WatcherAction::Ignore)
        },
        (WatcherState::Pumping, WatcherEvent::WindowEvent(kind)) => if kind
            == EVENT_SYSTEM_FOREGROUND {
            (WatcherState::Pumping, WatcherAction::Resolve)
        } else {
            (WatcherState::Pumping, WatcherAction::Ignore)
        },
        _ => (state, WatcherAction::Ignore),
    }
}

/// Resolution — the one action that leads to a callback invocation — is
/// asked for exactly when a hooked or pumping watcher receives a window
/// event of the "foreground changed" kind. In particular, a window event of
/// any other kind never triggers a callback, from any state.
pub proof fn lemma_resolve_only_for_foreground(state: WatcherState, event: WatcherEvent)
    ensures
        next(state, event).1 == WatcherAction::Resolve <==> ((state == WatcherState::Hooked
            || state == WatcherState::Pumping) && event == WatcherEvent::WindowEvent(
            EVENT_SYSTEM_FOREGROUND,
        )),
{
}

/// A window event moves the watcher to no other state: dispatching events
/// keeps the loop where it was.
pub proof fn lemma_window_event_preserves_state(state: WatcherState, kind: u32)
    ensures
        next(state, WatcherEvent::WindowEvent(kind)).0 == state,
{
}

} // verus!
