use vstd::prelude::*;
use crate::commands::{start_dictation, start_transition, stop_dictation, stop_transition};
use crate::state::{AppState, AppStateView, Status, StatusView};

verus! {

/// The global hotkey accelerator string. `CmdOrCtrl` maps to Cmd on macOS
/// and Ctrl on Windows.
pub const HOTKEY: &'static str = "CmdOrCtrl+Shift+D";

/// What one press of the hotkey does: the next state, and the status to
/// announce as a `state_change` event, if any.
///
/// - Idle: start dictating.
/// - Listening: stop dictating.
/// - Transcribing: ignored (a transcription is already in flight).
/// - Error: the error is cleared and the app returns to Idle, announced.
pub open spec fn hotkey_transition(s: AppStateView) -> (AppStateView, Option<StatusView>) {
    match s.status {
        StatusView::Idle => (start_transition(s), None),
        StatusView::Listening => (stop_transition(s), None),
        StatusView::Transcribing => (s, None),
        StatusView::Error(_) => (
            AppStateView { status: StatusView::Idle, ..s },
            Some(StatusView::Idle),
        ),
    }
}

/// Toggle dictation on a key-press. Returns the status to announce to the
/// webview as a `state_change` event, if any. A failed start or stop puts
/// the app into `Error` with the failure's message and announces it.
pub fn handle_hotkey(state: &mut AppState) -> (event: Option<Status>)
    ensures
        (final(state)@, match event {
            Some(e) => Some(e@),
            None => None,
        }) == hotkey_transition(old(state)@),
{
    match state.status {
        Status::Idle => {
            match start_dictation(state) {
                Ok(()) => None,
                Err(e) => {
                    let msg = e.message();
                    state.status = Status::Error(msg.clone());
                    Some(Status::Error(msg))
                },
            }
        },
        Status::Listening => {
            match stop_dictation(state) {
                Ok(()) => None,
                Err(e) => {
                    let msg = e.message();
                    state.status = Status::Error(msg.clone());
                    Some(Status::Error(msg))
                },
            }
        },
        Status::Transcribing => None,
        Status::Error(_) => {
            state.status = Status::Idle;
            Some(Status::Idle)
        },
    }
}

/// Pressing the hotkey twice from Idle starts and then stops dictation,
/// leaving the app Idle with no session.
pub proof fn lemma_hotkey_toggles(s: AppStateView)
    requires
        s.status is Idle,
    ensures
        hotkey_transition(s).0.status is Listening,
        hotkey_transition(hotkey_transition(s).0).0 == (AppStateView {
            status: StatusView::Idle,
            session_id: None,
        }),
{
}

/// A press while an error is shown always clears it and announces Idle.
pub proof fn lemma_hotkey_clears_error(s: AppStateView)
    requires
        s.status is Error,
    ensures
        hotkey_transition(s).0.status is Idle,
        hotkey_transition(s).1 == Some(StatusView::Idle),
{
}

/// A press while transcribing changes nothing and announces nothing.
pub proof fn lemma_hotkey_ignored_while_transcribing(s: AppStateView)
    requires
        s.status is Transcribing,
    ensures
        hotkey_transition(s) == (s, None::<StatusView>),
{
}

/// No press of the hotkey ever leads into an `Error` state: in this
/// version starting and stopping cannot fail.
pub proof fn lemma_hotkey_never_errors(s: AppStateView)
    ensures
        !(hotkey_transition(s).0.status is Error),
{
}

} // verus!
