use ta_ting::hotkey::{classify_event, HotkeyEvent, KeyState};
use ta_ting::recorder::RecorderState;
use ta_ting::settings::{default_model, AppConfig, AppSettings};
use ta_ting::state_machine::{AppState, StateEvent, StateMachine};
use ta_ting::workflow::{finish_recording, finish_transcription, StopOutcome, decimate, hotkey_action, menu_action, FrameThrottle, HotkeyAction, MenuAction};

#[test]
fn settings_defaults() {
    let s = AppSettings::default();
    assert_eq!(s.hotkey, "Ctrl+Shift+KeyV");
    assert!(s.auto_paste);
    assert_eq!(s.active_model, "sherpa-zh");
    assert_eq!(default_model(), "sherpa-zh");
    let c = AppConfig::default();
    assert_eq!(c.model_path, "resources/models/sherpa-zh/sherpa-onnx-zipformer-multi-zh-hans-2023-9-2");
    assert_eq!(c.sample_rate, 16000);
    assert!(c.punct_model_path.is_empty());
}

#[test]
fn hotkey_notifications() {
    assert_eq!(classify_event(Some(5), 5, KeyState::Pressed), Some(HotkeyEvent::Pressed));
    assert_eq!(classify_event(Some(5), 5, KeyState::Released), Some(HotkeyEvent::Released));
    assert_eq!(classify_event(Some(5), 6, KeyState::Pressed), None);
    assert_eq!(classify_event(None, 5, KeyState::Pressed), None);
}

#[test]
fn recorder_state() {
    assert!(RecorderState::Recording.is_recording());
    assert!(!RecorderState::Idle.is_recording());
}

#[test]
fn hotkey_actions() {
    assert_eq!(hotkey_action(AppState::Idle), HotkeyAction::StartRecording);
    assert_eq!(hotkey_action(AppState::Recording), HotkeyAction::StopAndTranscribe);
    assert_eq!(hotkey_action(AppState::Transcribing), HotkeyAction::Ignore);
    assert_eq!(hotkey_action(AppState::Inputting), HotkeyAction::Ignore);
    assert_eq!(hotkey_action(AppState::Error), HotkeyAction::Ignore);
}

#[test]
fn menu_actions() {
    assert_eq!(menu_action("start_dictation"), MenuAction::StartDictation);
    assert_eq!(menu_action("settings"), MenuAction::OpenSettings);
    assert_eq!(menu_action("check_update"), MenuAction::CheckUpdate);
    assert_eq!(menu_action("quit"), MenuAction::Quit);
    assert_eq!(menu_action("Quit"), MenuAction::Unknown);
    assert_eq!(menu_action(""), MenuAction::Unknown);
}

#[test]
fn throttle_lets_every_third_frame_through() {
    let mut t = FrameThrottle::new();
    let seen: Vec<bool> = (0..7).map(|_| t.tick()).collect();
    assert_eq!(seen, vec![false, false, true, false, false, true, false]);
    assert_eq!(t.frames(), 7);
}

#[test]
fn decimation_keeps_every_step() {
    let v: Vec<u32> = (0..45).collect();
    assert_eq!(decimate(&v, 20), vec![0, 20, 40]);
    assert_eq!(decimate(&v[..40], 20), vec![0, 20]);
    assert_eq!(decimate::<u32>(&[], 20), Vec::<u32>::new());
    let f: Vec<f32> = vec![0.5, 1.0, 1.5];
    assert_eq!(decimate(&f, 2), vec![0.5, 1.5]);
}

#[test]
fn finishing_a_recording() {
    let mut sm = StateMachine::new();
    sm.handle_event(StateEvent::HotkeyPressed).unwrap();
    assert!(matches!(finish_recording(&mut sm, true), Ok(StopOutcome::Discarded)));
    assert_eq!(sm.current_state(), AppState::Idle);
    sm.handle_event(StateEvent::HotkeyPressed).unwrap();
    assert!(matches!(finish_recording(&mut sm, false), Ok(StopOutcome::Transcribe)));
    assert_eq!(sm.current_state(), AppState::Transcribing);
    assert!(finish_recording(&mut sm, false).is_err());
    assert_eq!(sm.current_state(), AppState::Transcribing);
}

#[test]
fn finishing_a_transcription() {
    let mut sm = StateMachine::new();
    assert!(finish_transcription(&mut sm, &"你好".to_string()).is_err());
    assert_eq!(sm.current_state(), AppState::Idle);
    sm.handle_event(StateEvent::HotkeyPressed).unwrap();
    sm.handle_event(StateEvent::HotkeyPressed).unwrap();
    assert_eq!(finish_transcription(&mut sm, &"你好".to_string()).ok(), Some(true));
    assert_eq!(sm.current_state(), AppState::Inputting);
    sm.handle_event(StateEvent::InputCompleted).unwrap();
    sm.handle_event(StateEvent::HotkeyPressed).unwrap();
    sm.handle_event(StateEvent::HotkeyPressed).unwrap();
    assert_eq!(finish_transcription(&mut sm, &String::new()).ok(), Some(false));
    assert_eq!(sm.handle_event(StateEvent::InputCompleted).ok(), Some(AppState::Idle));
}
