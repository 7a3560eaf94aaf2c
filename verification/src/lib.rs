//! Core logic of the Utter dictation app: the dictation state machine, the
//! error taxonomy sent to the webview, settings, the cleanup-backend
//! selection and HTTP decision logic, the ASR engine session bookkeeping,
//! and the small text utilities they rely on.
use vstd::prelude::*;

pub mod cleanup;
pub mod commands;
pub mod engine;
pub mod error;
pub mod hotkey;
pub mod insert;
pub mod mic;
pub mod settings;
pub mod state;
pub mod text;

pub use error::{AppError, AppErrorView};
pub use state::{AppState, AppStateView, SessionId, Status, StatusView};

verus! {

/// Entry point for mobile builds; the mobile shell has no setup yet.
pub fn run() {
}

} // verus!
