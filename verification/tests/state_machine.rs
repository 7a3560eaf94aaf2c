use utter::commands::{get_status, start_dictation, stop_dictation};
use utter::hotkey::{handle_hotkey, HOTKEY};
use utter::{AppState, Status};

fn state(status: Status, session_id: Option<u64>) -> AppState {
    AppState { status, session_id }
}

#[test]
fn new_state_is_idle_without_session() {
    let s = AppState::new();
    assert_eq!(s.status, Status::Idle);
    assert_eq!(s.session_id, None);
}

#[test]
fn start_from_idle_listens() {
    let mut s = AppState::new();
    assert!(start_dictation(&mut s).is_ok());
    assert_eq!(s.status, Status::Listening);
}

#[test]
fn start_from_error_listens_and_keeps_session() {
    let mut s = state(Status::Error("boom".to_string()), Some(7));
    assert!(start_dictation(&mut s).is_ok());
    assert_eq!(s.status, Status::Listening);
    assert_eq!(s.session_id, Some(7));
}

#[test]
fn start_is_idempotent() {
    let mut s = AppState::new();
    start_dictation(&mut s).unwrap();
    start_dictation(&mut s).unwrap();
    assert_eq!(s.status, Status::Listening);
    let mut t = state(Status::Transcribing, Some(3));
    start_dictation(&mut t).unwrap();
    assert_eq!(t.status, Status::Transcribing);
    assert_eq!(t.session_id, Some(3));
}

#[test]
fn stop_from_listening_goes_idle_and_drops_session() {
    let mut s = state(Status::Listening, Some(9));
    assert!(stop_dictation(&mut s).is_ok());
    assert_eq!(s.status, Status::Idle);
    assert_eq!(s.session_id, None);
}

#[test]
fn stop_elsewhere_changes_nothing() {
    for st in [Status::Idle, Status::Transcribing, Status::Error("x".to_string())] {
        let mut s = state(st.clone(), Some(4));
        assert!(stop_dictation(&mut s).is_ok());
        assert_eq!(s.status, st);
        assert_eq!(s.session_id, Some(4));
    }
}

#[test]
fn start_then_stop_returns_to_idle() {
    let mut s = state(Status::Error("e".to_string()), Some(1));
    start_dictation(&mut s).unwrap();
    stop_dictation(&mut s).unwrap();
    assert_eq!(s.status, Status::Idle);
    assert_eq!(s.session_id, None);
}

#[test]
fn get_status_reports_current_status() {
    let s = state(Status::Error("mic".to_string()), None);
    assert_eq!(get_status(&s), Status::Error("mic".to_string()));
}

#[test]
fn hotkey_toggles_dictation() {
    let mut s = AppState::new();
    assert_eq!(handle_hotkey(&mut s), None);
    assert_eq!(s.status, Status::Listening);
    assert_eq!(handle_hotkey(&mut s), None);
    assert_eq!(s.status, Status::Idle);
    assert_eq!(s.session_id, None);
}

#[test]
fn hotkey_clears_error_and_announces_idle() {
    let mut s = state(Status::Error("bad".to_string()), Some(2));
    assert_eq!(handle_hotkey(&mut s), Some(Status::Idle));
    assert_eq!(s.status, Status::Idle);
    assert_eq!(s.session_id, Some(2));
}

#[test]
fn hotkey_ignored_while_transcribing() {
    let mut s = state(Status::Transcribing, Some(5));
    assert_eq!(handle_hotkey(&mut s), None);
    assert_eq!(s.status, Status::Transcribing);
    assert_eq!(s.session_id, Some(5));
}

#[test]
fn hotkey_string_is_cmd_or_ctrl_shift_d() {
    assert_eq!(HOTKEY, "CmdOrCtrl+Shift+D");
}
