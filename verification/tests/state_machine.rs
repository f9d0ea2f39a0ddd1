use ta_ting::state_machine::{AppState, StateError, StateEvent, StateMachine};

#[test]
fn test_state_machine_flow() {
    let mut sm = StateMachine::new();
    assert_eq!(sm.current_state(), AppState::Idle);

    sm.handle_event(StateEvent::HotkeyPressed).unwrap();
    assert_eq!(sm.current_state(), AppState::Recording);

    sm.handle_event(StateEvent::HotkeyPressed).unwrap();
    assert_eq!(sm.current_state(), AppState::Transcribing);

    sm.handle_event(StateEvent::TranscriptionCompleted("测试".to_string()))
        .unwrap();
    assert_eq!(sm.current_state(), AppState::Inputting);

    sm.handle_event(StateEvent::InputCompleted).unwrap();
    assert_eq!(sm.current_state(), AppState::Idle);
}

#[test]
fn test_invalid_transition() {
    let mut sm = StateMachine::new();
    let result = sm.handle_event(StateEvent::RecordingCompleted(vec![]));
    assert!(result.is_err());
}

#[test]
fn test_error_handling() {
    let mut sm = StateMachine::new();
    sm.handle_event(StateEvent::HotkeyPressed).unwrap();

    sm.handle_event(StateEvent::Error("测试错误".to_string()))
        .unwrap();
    assert_eq!(sm.current_state(), AppState::Error);

    sm.handle_event(StateEvent::HotkeyPressed).unwrap();
    assert_eq!(sm.current_state(), AppState::Idle);
}

#[test]
fn recording_completion_stops_recording() {
    let mut sm = StateMachine::new();
    sm.handle_event(StateEvent::HotkeyPressed).unwrap();
    let r = sm.handle_event(StateEvent::RecordingCompleted(vec![0x3f80_0000, 0]));
    assert!(matches!(r, Ok(AppState::Transcribing)));
    assert_eq!(sm.current_state(), AppState::Transcribing);
}

#[test]
fn refused_event_leaves_state_and_is_reported() {
    let mut sm = StateMachine::new();
    sm.handle_event(StateEvent::HotkeyPressed).unwrap();
    sm.handle_event(StateEvent::HotkeyPressed).unwrap();
    let r = sm.handle_event(StateEvent::HotkeyPressed);
    match r {
        Err(StateError::InvalidTransition { from, event }) => {
            assert_eq!(from, AppState::Transcribing);
            assert!(matches!(event, StateEvent::HotkeyPressed));
        }
        Ok(_) => panic!("hotkey accepted while transcribing"),
    }
    assert_eq!(sm.current_state(), AppState::Transcribing);
    assert!(sm.handle_event(StateEvent::InputCompleted).is_err());
    assert_eq!(sm.current_state(), AppState::Transcribing);
}

#[test]
fn error_from_every_state_and_recovery() {
    let prefixes: Vec<Vec<StateEvent>> = vec![
        vec![],
        vec![StateEvent::HotkeyPressed],
        vec![StateEvent::HotkeyPressed, StateEvent::HotkeyPressed],
        vec![
            StateEvent::HotkeyPressed,
            StateEvent::HotkeyPressed,
            StateEvent::TranscriptionCompleted("好".to_string()),
        ],
    ];
    for prefix in prefixes {
        let mut sm = StateMachine::new();
        for e in prefix {
            sm.handle_event(e).unwrap();
        }
        assert_eq!(sm.handle_event(StateEvent::Error("x".to_string())).unwrap(), AppState::Error);
        assert_eq!(sm.handle_event(StateEvent::InputCompleted).unwrap(), AppState::Idle);
    }
    let mut sm = StateMachine::new();
    sm.handle_event(StateEvent::Error("x".to_string())).unwrap();
    assert_eq!(sm.handle_event(StateEvent::Error("y".to_string())).unwrap(), AppState::Idle);
}

#[test]
fn hotkey_handling_states() {
    let mut sm = StateMachine::default();
    assert!(sm.can_handle_hotkey());
    sm.handle_event(StateEvent::HotkeyPressed).unwrap();
    assert!(sm.can_handle_hotkey());
    sm.handle_event(StateEvent::HotkeyPressed).unwrap();
    assert!(!sm.can_handle_hotkey());
    sm.handle_event(StateEvent::TranscriptionCompleted(String::new())).unwrap();
    assert!(!sm.can_handle_hotkey());
    sm.reset();
    assert_eq!(sm.current_state(), AppState::Idle);
    assert!(sm.can_handle_hotkey());
}

#[test]
fn state_labels() {
    assert_eq!(AppState::Idle.to_display_string(), "空闲");
    assert_eq!(AppState::Recording.to_display_string(), "录音中");
    assert_eq!(AppState::Transcribing.to_display_string(), "转录中");
    assert_eq!(AppState::Inputting.to_display_string(), "输入中");
    assert_eq!(AppState::Error.to_display_string(), "错误");
}
