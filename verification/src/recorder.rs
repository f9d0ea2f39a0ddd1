//! The state of the audio recorder.

use vstd::prelude::*;

verus! {

/// Whether the recorder is capturing audio.
#[derive(Debug, Clone, Copy, PartialEq, Eq, Structural)]
pub enum RecorderState {
    /// Not capturing.
    Idle,
    /// Capturing from the microphone.
    Recording,
}

impl RecorderState {
    /// Whether this is `Recording`.
    pub fn is_recording(&self) -> (b: bool)
        ensures
            b == (*self == RecorderState::Recording),
    {
        *self == RecorderState::Recording
    }
}

} // verus!
