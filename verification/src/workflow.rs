//! Decisions of the dictation workflow around the state machine: what a
//! hotkey press starts, what a tray menu entry does, and which audio frames
//! are forwarded to the recording indicator.

use vstd::prelude::*;
use crate::state_machine::{AppState, StateError, StateEvent, StateMachine, accepts_hotkey, transition};
use crate::text::str_equal;
use vstd::arithmetic::div_mod::lemma_fundamental_div_mod_converse;

verus! {

/// What a hotkey press does.
#[derive(Debug, Clone, Copy, PartialEq, Eq, Structural)]
pub enum HotkeyAction {
    /// The press is ignored (the machine is busy).
    Ignore,
    /// Start recording.
    StartRecording,
    /// Stop recording and transcribe what was recorded.
    StopAndTranscribe,
}

/// The action of a hotkey press in state `s`.
pub open spec fn hotkey_action_of(s: AppState) -> HotkeyAction {
    if !accepts_hotkey(s) {
        HotkeyAction::Ignore
    } else if s is Idle {
        HotkeyAction::StartRecording
    } else {
        HotkeyAction::StopAndTranscribe
    }
}

/// What a hotkey press does in `state`: presses are only handled in `Idle`
/// (start) and `Recording` (stop and transcribe).
pub fn hotkey_action(state: AppState) -> (a: HotkeyAction)
    ensures
        a == hotkey_action_of(state),
{
    match state {
        AppState::Idle => HotkeyAction::StartRecording,
        AppState::Recording => HotkeyAction::StopAndTranscribe,
        _ => HotkeyAction::Ignore,
    }
}

/// The hotkey toggles recording: a press that is not ignored is accepted by
/// the state machine, starting a recording from `Idle` and ending it (moving
/// on to transcription) from `Recording`.
pub proof fn lemma_hotkey_toggles_recording(s: AppState)
    ensures
        hotkey_action_of(s) == HotkeyAction::StartRecording ==> transition(
            s,
            StateEvent::HotkeyPressed,
        ) == Some(AppState::Recording),
        hotkey_action_of(s) == HotkeyAction::StopAndTranscribe ==> transition(
            s,
            StateEvent::HotkeyPressed,
        ) == Some(AppState::Transcribing),
        hotkey_action_of(s) == HotkeyAction::Ignore <==> !accepts_hotkey(s),
{
}

/// What becomes of a recording when it stops.
#[derive(Debug, Clone, Copy, PartialEq, Eq, Structural)]
pub enum StopOutcome {
    /// Too short to transcribe: dropped, and the machine is back in `Idle`.
    Discarded,
    /// To be transcribed: the machine has moved on to `Transcribing`.
    Transcribe,
}

/// Ends a recording. A recording too short to be worth transcribing (the
/// caller measures it) resets the machine to `Idle`; otherwise the stopping
/// hotkey press is applied, which moves a recording machine on to
/// transcription.
pub fn finish_recording(sm: &mut StateMachine, too_short: bool) -> (r: Result<
    StopOutcome,
    StateError,
>)
    ensures
        too_short ==> r == Ok::<StopOutcome, StateError>(StopOutcome::Discarded) && final(sm)@
            == AppState::Idle,
        !too_short ==> match transition(old(sm)@, StateEvent::HotkeyPressed) {
            Some(next) => r == Ok::<StopOutcome, StateError>(StopOutcome::Transcribe)
                && final(sm)@ == next,
            None => r == Err::<StopOutcome, StateError>(
                StateError::InvalidTransition { from: old(sm)@, event: StateEvent::HotkeyPressed },
            ) && final(sm)@ == old(sm)@,
        },
{
    if too_short {
        sm.reset();
        return Ok(StopOutcome::Discarded);
    }
    match sm.handle_event(StateEvent::HotkeyPressed) {
        Ok(_) => Ok(StopOutcome::Transcribe),
        Err(e) => Err(e),
    }
}

/// Records the recognised `text` in the machine. On success the result says
/// whether there is anything to type: an empty transcription skips typing.
pub fn finish_transcription(sm: &mut StateMachine, text: &String) -> (r: Result<bool, StateError>)
    ensures
        match transition(old(sm)@, StateEvent::TranscriptionCompleted(*text)) {
            Some(next) => r == Ok::<bool, StateError>(text@.len() > 0) && final(sm)@ == next,
            None => r == Err::<bool, StateError>(
                StateError::InvalidTransition {
                    from: old(sm)@,
                    event: StateEvent::TranscriptionCompleted(*text),
                },
            ) && final(sm)@ == old(sm)@,
        },
{
    match sm.handle_event(StateEvent::TranscriptionCompleted(text.clone())) {
        Ok(_) => Ok(!text.as_str().is_empty()),
        Err(e) => Err(e),
    }
}

/// The entries of the tray menu.
#[derive(Debug, Clone, Copy, PartialEq, Eq, Structural)]
pub enum MenuAction {
    /// Start dictation (as if the hotkey were pressed).
    StartDictation,
    /// Show the settings window.
    OpenSettings,
    /// Ask the front end to check for updates.
    CheckUpdate,
    /// Quit the application.
    Quit,
    /// An id no entry has.
    Unknown,
}

/// The action of the menu entry with id `id`.
pub open spec fn menu_action_of(id: Seq<char>) -> MenuAction {
    if id == "start_dictation"@ {
        MenuAction::StartDictation
    } else if id == "settings"@ {
        MenuAction::OpenSettings
    } else if id == "check_update"@ {
        MenuAction::CheckUpdate
    } else if id == "quit"@ {
        MenuAction::Quit
    } else {
        MenuAction::Unknown
    }
}

/// The action of the tray menu entry `event_id`.
pub fn menu_action(event_id: &str) -> (a: MenuAction)
    ensures
        a == menu_action_of(event_id@),
{
    if str_equal(event_id, "start_dictation") {
        MenuAction::StartDictation
    } else if str_equal(event_id, "settings") {
        MenuAction::OpenSettings
    } else if str_equal(event_id, "check_update") {
        MenuAction::CheckUpdate
    } else if str_equal(event_id, "quit") {
        MenuAction::Quit
    } else {
        MenuAction::Unknown
    }
}

/// Counts audio frames and lets one in three through, so that the recording
/// indicator is updated at a steady pace.
pub struct FrameThrottle {
    count: u64,
}

impl View for FrameThrottle {
    type V = nat;

    closed spec fn view(&self) -> nat {
        self.count as nat
    }
}

impl FrameThrottle {
    /// A throttle that has seen no frame.
    pub fn new() -> (t: Self)
        ensures
            t@ == 0,
    {
        FrameThrottle { count: 0 }
    }

    /// Counts one more frame; true when the frame should be forwarded, that
    /// is when the number of frames seen is a multiple of three.
    pub fn tick(&mut self) -> (forward: bool)
        requires
            old(self)@ < u64::MAX,
        ensures
            final(self)@ == old(self)@ + 1,
            forward == (final(self)@ % 3 == 0),
    {
        self.count = self.count + 1;
        self.count % 3 == 0
    }

    /// The number of frames seen.
    pub fn frames(&self) -> (n: u64)
        ensures
            n == self@,
    {
        self.count
    }
}

/// The number of samples `decimate` keeps from `len` samples.
pub open spec fn decimated_len(len: nat, step: nat) -> nat {
    if len == 0 {
        0
    } else {
        ((len - 1) / (step as int) + 1) as nat
    }
}

/// Every `step`-th sample, starting with the first.
pub fn decimate<T: Copy>(samples: &[T], step: usize) -> (out: Vec<T>)
    requires
        step > 0,
    ensures
        out@.len() == decimated_len(samples@.len(), step as nat),
        forall|i: int| 0 <= i < out@.len() ==> #[trigger] out@[i] == samples@[i * step],
{
    let n = samples.len();
    let mut out: Vec<T> = Vec::new();
    let mut k: usize = 0;
    assert(0 * step == 0) by (nonlinear_arith);
    while k < n
        invariant
            n == samples@.len(),
            step > 0,
            k == out@.len() * step,
            out@.len() == 0 <==> k == 0,
            k == 0 || k < n,
            forall|i: int| 0 <= i < out@.len() ==> #[trigger] out@[i] == samples@[i * step],
        decreases n - k,
    {
        let ghost q = out@.len() as int;
        out.push(samples[k]);
        if n - k <= step {
            proof {
                lemma_fundamental_div_mod_converse(n - 1, step as int, q, n - 1 - k);
            }
            return out;
        }
        assert((q + 1) * step == q * step + step) by (nonlinear_arith);
        k = k + step;
    }
    out
}

} // verus!
