use vstd::prelude::*;

verus! {

/// Opaque session handle returned by an ASR engine's `start_session`.
pub type SessionId = u64;

/// The four states of the dictation state machine.
#[derive(Debug, PartialEq, Eq)]
pub enum Status {
    Idle,
    Listening,
    Transcribing,
    Error(String),
}

/// Mathematical model of a [`Status`].
pub enum StatusView {
    Idle,
    Listening,
    Transcribing,
    Error(Seq<char>),
}

impl View for Status {
    type V = StatusView;

    open spec fn view(&self) -> StatusView {
        match self {
            Status::Idle => StatusView::Idle,
            Status::Listening => StatusView::Listening,
            Status::Transcribing => StatusView::Transcribing,
            Status::Error(m) => StatusView::Error(m@),
        }
    }
}

impl Clone for Status {
    fn clone(&self) -> (r: Self)
        ensures
            r == *self,
    {
        match self {
            Status::Idle => Status::Idle,
            Status::Listening => Status::Listening,
            Status::Transcribing => Status::Transcribing,
            Status::Error(m) => Status::Error(m.clone()),
        }
    }
}

/// Full runtime state of the app.
pub struct AppState {
    pub status: Status,
    /// Active ASR session ID, if any.
    pub session_id: Option<SessionId>,
}

/// Mathematical model of an [`AppState`].
pub struct AppStateView {
    pub status: StatusView,
    pub session_id: Option<SessionId>,
}

impl View for AppState {
    type V = AppStateView;

    open spec fn view(&self) -> AppStateView {
        AppStateView { status: self.status@, session_id: self.session_id }
    }
}

/// The state a freshly started app is in.
pub open spec fn initial_state() -> AppStateView {
    AppStateView { status: StatusView::Idle, session_id: None }
}

impl AppState {
    /// A fresh state: idle, with no ASR session.
    pub fn new() -> (s: Self)
        ensures
            s@ == initial_state(),
    {
        AppState { status: Status::Idle, session_id: None }
    }
}

} // verus!
