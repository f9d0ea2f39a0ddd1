//! The dictation state machine.
//!
//! A dictation runs `Idle -> Recording -> Transcribing -> Inputting -> Idle`.
//! An error event sends any state to `Error`, and any event received in
//! `Error` brings the machine back to `Idle`.

use vstd::prelude::*;

verus! {

/// The phase the application is in.
#[derive(Debug, Clone, Copy, PartialEq, Eq, Structural)]
pub enum AppState {
    /// Waiting for the hotkey.
    Idle,
    /// Capturing audio.
    Recording,
    /// Running speech recognition.
    Transcribing,
    /// Typing the recognised text.
    Inputting,
    /// Something went wrong; the next event recovers.
    Error,
}

/// The label shown to the user for each state.
pub open spec fn state_label(s: AppState) -> Seq<char> {
    match s {
        AppState::Idle => "空闲"@,
        AppState::Recording => "录音中"@,
        AppState::Transcribing => "转录中"@,
        AppState::Inputting => "输入中"@,
        AppState::Error => "错误"@,
    }
}

impl AppState {
    /// The user-facing label of the state.
    pub fn to_display_string(&self) -> (s: String)
        ensures
            s@ == state_label(*self),
    {
        match self {
            AppState::Idle => "空闲".to_owned(),
            AppState::Recording => "录音中".to_owned(),
            AppState::Transcribing => "转录中".to_owned(),
            AppState::Inputting => "输入中".to_owned(),
            AppState::Error => "错误".to_owned(),
        }
    }
}

/// Something that happened and may move the machine to another state.
///
/// Recorded audio travels as the IEEE-754 bit patterns of its samples.
#[derive(Debug, Clone)]
pub enum StateEvent {
    /// The dictation hotkey was pressed.
    HotkeyPressed,
    /// Recording stopped by itself, with the captured samples.
    RecordingCompleted(Vec<u32>),
    /// Recognition produced this text.
    TranscriptionCompleted(String),
    /// The text has been typed.
    InputCompleted,
    /// A failure, with its message.
    Error(String),
}

/// Why `handle_event` refused an event.
#[derive(Debug, Clone)]
pub enum StateError {
    /// `event` is not accepted in state `from`.
    InvalidTransition { from: AppState, event: StateEvent },
}

/// The state that `event` leads to from `s`, or `None` when the event is not
/// accepted there.
pub open spec fn transition(s: AppState, event: StateEvent) -> Option<AppState> {
    if s is Error {
        Some(AppState::Idle)
    } else if event is Error {
        Some(AppState::Error)
    } else {
        match (s, event) {
            (AppState::Idle, StateEvent::HotkeyPressed) => Some(AppState::Recording),
            (AppState::Recording, StateEvent::HotkeyPressed) => Some(AppState::Transcribing),
            (AppState::Recording, StateEvent::RecordingCompleted(_)) => Some(
                AppState::Transcribing,
            ),
            (AppState::Transcribing, StateEvent::TranscriptionCompleted(_)) => Some(
                AppState::Inputting,
            ),
            (AppState::Inputting, StateEvent::InputCompleted) => Some(AppState::Idle),
            _ => None,
        }
    }
}

/// Whether a hotkey press is meaningful in state `s`.
pub open spec fn accepts_hotkey(s: AppState) -> bool {
    s is Idle || s is Recording
}

/// The dictation state machine.
pub struct StateMachine {
    current_state: AppState,
}

impl View for StateMachine {
    type V = AppState;

    closed spec fn view(&self) -> AppState {
        self.current_state
    }
}

impl StateMachine {
    /// A machine in the `Idle` state.
    pub fn new() -> (sm: Self)
        ensures
            sm@ == AppState::Idle,
    {
        StateMachine { current_state: AppState::Idle }
    }

    /// The current state.
    pub fn current_state(&self) -> (s: AppState)
        ensures
            s == self@,
    {
        self.current_state
    }

    /// Applies `event`. On success the machine is in the returned state; a
    /// refused event leaves the state unchanged and is handed back in the error.
    pub fn handle_event(&mut self, event: StateEvent) -> (r: Result<AppState, StateError>)
        ensures
            match transition(old(self)@, event) {
                Some(next) => r == Ok::<AppState, StateError>(next) && final(self)@ == next,
                None => r == Err::<AppState, StateError>(
                    StateError::InvalidTransition { from: old(self)@, event: event },
                ) && final(self)@ == old(self)@,
            },
    {
        let old_state = self.current_state;
        let next = match old_state {
            AppState::Error => Some(AppState::Idle),
            _ => match &event {
                StateEvent::Error(_) => Some(AppState::Error),
                StateEvent::HotkeyPressed => match old_state {
                    AppState::Idle => Some(AppState::Recording),
                    AppState::Recording => Some(AppState::Transcribing),
                    _ => None,
                },
                StateEvent::RecordingCompleted(_) => match old_state {
                    AppState::Recording => Some(AppState::Transcribing),
                    _ => None,
                },
                StateEvent::TranscriptionCompleted(_) => match old_state {
                    AppState::Transcribing => Some(AppState::Inputting),
                    _ => None,
                },
                StateEvent::InputCompleted => match old_state {
                    AppState::Inputting => Some(AppState::Idle),
                    _ => None,
                },
            },
        };
        match next {
            Some(new_state) => {
                self.current_state = new_state;
                Ok(new_state)
            },
            None => Err(StateError::InvalidTransition { from: old_state, event }),
        }
    }

    /// Puts the machine back in `Idle`.
    pub fn reset(&mut self)
        ensures
            final(self)@ == AppState::Idle,
    {
        self.current_state = AppState::Idle;
    }

    /// Whether the hotkey can be handled now (only in `Idle` or `Recording`).
    pub fn can_handle_hotkey(&self) -> (b: bool)
        ensures
            b == accepts_hotkey(self@),
    {
        match self.current_state {
            AppState::Idle | AppState::Recording => true,
            _ => false,
        }
    }
}

impl Default for StateMachine {
    fn default() -> (sm: Self)
        ensures
            sm@ == AppState::Idle,
    {
        StateMachine::new()
    }
}

/// A full dictation: the hotkey starts recording, recording ends on a second
/// press or by itself, a transcription moves on to typing, and finishing the
/// typing brings the machine back to `Idle`.
pub proof fn lemma_dictation_cycle(samples: Vec<u32>, text: String)
    ensures
        transition(AppState::Idle, StateEvent::HotkeyPressed) == Some(AppState::Recording),
        transition(AppState::Recording, StateEvent::HotkeyPressed) == Some(
            AppState::Transcribing,
        ),
        transition(AppState::Recording, StateEvent::RecordingCompleted(samples)) == Some(
            AppState::Transcribing,
        ),
        transition(AppState::Transcribing, StateEvent::TranscriptionCompleted(text)) == Some(
            AppState::Inputting,
        ),
        transition(AppState::Inputting, StateEvent::InputCompleted) == Some(AppState::Idle),
{
}

/// The accepted transitions, completely: away from `Error` and apart from
/// error events, an event is accepted exactly for the hotkey in `Idle` and
/// `Recording`, a completed recording in `Recording`, a transcription in
/// `Transcribing` and the end of typing in `Inputting`. Everything else,
/// such as a transcription arriving while still recording, is refused.
pub proof fn lemma_accepted_transitions(s: AppState, event: StateEvent)
    requires
        s != AppState::Error,
        !(event is Error),
    ensures
        transition(s, event) is Some <==> {
            ||| s == AppState::Idle && event is HotkeyPressed
            ||| s == AppState::Recording && event is HotkeyPressed
            ||| s == AppState::Recording && event is RecordingCompleted
            ||| s == AppState::Transcribing && event is TranscriptionCompleted
            ||| s == AppState::Inputting && event is InputCompleted
        },
        s == AppState::Idle && event is HotkeyPressed ==> transition(s, event) == Some(
            AppState::Recording,
        ),
        s == AppState::Recording && (event is HotkeyPressed || event is RecordingCompleted)
            ==> transition(s, event) == Some(AppState::Transcribing),
        s == AppState::Transcribing && event is TranscriptionCompleted ==> transition(s, event)
            == Some(AppState::Inputting),
        s == AppState::Inputting && event is InputCompleted ==> transition(s, event) == Some(
            AppState::Idle,
        ),
{
}

/// An error event moves every state other than `Error` to `Error`.
pub proof fn lemma_error_from_any_state(s: AppState, message: String)
    requires
        s != AppState::Error,
    ensures
        transition(s, StateEvent::Error(message)) == Some(AppState::Error),
{
}

/// In `Error`, every event brings the machine back to `Idle`.
pub proof fn lemma_error_recovers(event: StateEvent)
    ensures
        transition(AppState::Error, event) == Some(AppState::Idle),
{
}

/// Outside `Error`, a hotkey press is accepted exactly in the states where
/// the hotkey can be handled, `Idle` and `Recording`.
pub proof fn lemma_hotkey_accepted_iff_handled(s: AppState)
    requires
        s != AppState::Error,
    ensures
        transition(s, StateEvent::HotkeyPressed) is Some <==> accepts_hotkey(s),
{
}

} // verus!
