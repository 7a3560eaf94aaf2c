//! whisper.cpp ASR engine (Intel Macs and Windows); its model
//! binding is not written yet, so every session operation reports that.
use vstd::prelude::*;
use vstd::string::*;
use crate::engine::{EngineError, EngineErrorView};
use crate::state::SessionId;

verus! {

/// The whisper.cpp engine. Loading its model is not implemented.
pub struct WhisperCppEngine {
    pub model_path: String,
}

impl WhisperCppEngine {
    /// Begin a new transcription session: not implemented.
    pub fn start_session(&self) -> (r: Result<SessionId, EngineError>)
        ensures
            r matches Err(e) && e@ == EngineErrorView::NotImplemented(
                "WhisperCppEngine::start_session \u{2014} Phase 3"@,
            ),
    {
        Err(EngineError::NotImplemented(String::from_str("WhisperCppEngine::start_session \u{2014} Phase 3")))
    }

    /// Feed audio to a session: not implemented (the samples are not read).
    pub fn feed_audio(&self, session: SessionId, samples: &[u32]) -> (r: Result<(), EngineError>)
        ensures
            r matches Err(e) && e@ == EngineErrorView::NotImplemented(
                "WhisperCppEngine::feed_audio \u{2014} Phase 3"@,
            ),
    {
        Err(EngineError::NotImplemented(String::from_str("WhisperCppEngine::feed_audio \u{2014} Phase 3")))
    }

    /// Poll for partial text: not implemented.
    pub fn poll_partial(&self, session: SessionId) -> (r: Result<Option<String>, EngineError>)
        ensures
            r matches Err(e) && e@ == EngineErrorView::NotImplemented(
                "WhisperCppEngine::poll_partial \u{2014} Phase 3"@,
            ),
    {
        Err(EngineError::NotImplemented(String::from_str("WhisperCppEngine::poll_partial \u{2014} Phase 3")))
    }

    /// End a session: not implemented.
    pub fn end_session(&self, session: SessionId) -> (r: Result<String, EngineError>)
        ensures
            r matches Err(e) && e@ == EngineErrorView::NotImplemented(
                "WhisperCppEngine::end_session \u{2014} Phase 3"@,
            ),
    {
        Err(EngineError::NotImplemented(String::from_str("WhisperCppEngine::end_session \u{2014} Phase 3")))
    }
}

} // verus!
