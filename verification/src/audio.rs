//! The audio-session watcher's forwarding rule.
//!
//! The operating system delivers audio-session notifications of several
//! kinds. Exactly one kind — a session's lifecycle state changing — is
//! forwarded to the registered callback, as a `(state, session name)` pair;
//! every other kind is ignored.

use vstd::prelude::*;

verus! {

/// Lifecycle state of an audio session, as the operating system reports it.
#[derive(Clone, Copy, PartialEq, Eq, Structural, Debug)]
pub enum AudioSessionState {
    Active,
    Inactive,
    Expired,
}

/// What the audio watcher hands to its callback: the session's new state and
/// the session's name.
pub struct AudioEvent {
    pub state: AudioSessionState,
    pub session_name: String,
}

/// An audio-session notification, reduced to what the forwarding rule reads:
/// either a state change carrying the new state, or a notification of any
/// other kind (volume, disconnect, ...), whose payload the monitor ignores.
pub enum AudioNotification {
    StateChanged(AudioSessionState),
    Other,
}

/// The forwarding rule of the audio watcher: a "state changed" notification
/// becomes exactly one `AudioEvent` carrying that state and the session's
/// name; any other notification kind produces nothing.
pub fn audio_forward(notification: &AudioNotification, session_name: String) -> (r: Option<
    AudioEvent,
>)
    ensures
        match notification {
            AudioNotification::StateChanged(s) => r matches Some(e) && e.state == s
                && e.session_name@ == session_name@,
            AudioNotification::Other => r is None,
        },
{
    match notification {
        AudioNotification::StateChanged(s) => Some(
            AudioEvent { state: *s, session_name },
        ),
        AudioNotification::Other => None,
    }
}

} // verus!
