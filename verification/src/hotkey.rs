//! Interpreting global hotkey notifications.
//!
//! Registering the hotkey with the operating system and receiving its
//! notifications is done by the caller; this module decides what a
//! notification means.

use vstd::prelude::*;

verus! {

/// What happened to the registered hotkey.
#[derive(Debug, Clone, Copy, PartialEq, Eq, Structural)]
pub enum HotkeyEvent {
    /// The hotkey went down (start recording).
    Pressed,
    /// The hotkey went up (stop recording).
    Released,
}

/// The key state carried by a global hotkey notification.
#[derive(Debug, Clone, Copy, PartialEq, Eq, Structural)]
pub enum KeyState {
    Pressed,
    Released,
}

/// The meaning of a notification about hotkey `event_id` in key state
/// `state`, when `registered_id` is the id of the registered hotkey (if any).
pub open spec fn hotkey_event_of(
    registered_id: Option<u32>,
    event_id: u32,
    state: KeyState,
) -> Option<HotkeyEvent> {
    if registered_id == Some(event_id) {
        match state {
            KeyState::Pressed => Some(HotkeyEvent::Pressed),
            KeyState::Released => Some(HotkeyEvent::Released),
        }
    } else {
        None
    }
}

/// Interprets a notification: notifications about other hotkeys (or any
/// notification while none is registered) are ignored.
pub fn classify_event(registered_id: Option<u32>, event_id: u32, state: KeyState) -> (r: Option<
    HotkeyEvent,
>)
    ensures
        r == hotkey_event_of(registered_id, event_id, state),
{
    match registered_id {
        Some(id) => {
            if id != event_id {
                return None;
            }
        },
        None => {
            return None;
        },
    }
    match state {
        KeyState::Pressed => Some(HotkeyEvent::Pressed),
        KeyState::Released => Some(HotkeyEvent::Released),
    }
}

} // verus!
