//! Apple Silicon ASR engine (FluidAudio + Parakeet TDT v3); its model
//! binding is not written yet, so every session operation reports that.
use vstd::prelude::*;
use vstd::string::*;
use crate::engine::{EngineError, EngineErrorView};
use crate::state::SessionId;

verus! {

/// The Apple Silicon engine. Loading its model is not implemented.
pub struct AppleSiliconEngine {
    pub model_path: String,
}

impl AppleSiliconEngine {
    /// Begin a new transcription session: not implemented.
    pub fn start_session(&self) -> (r: Result<SessionId, EngineError>)
        ensures
            r matches Err(e) && e@ == EngineErrorView::NotImplemented(
                "AppleSiliconEngine::start_session \u{2014} Phase 2"@,
            ),
    {
        Err(EngineError::NotImplemented(String::from_str("AppleSiliconEngine::start_session \u{2014} Phase 2")))
    }

    /// Feed audio to a session: not implemented (the samples are not read).
    pub fn feed_audio(&self, session: SessionId, samples: &[u32]) -> (r: Result<(), EngineError>)
        ensures
            r matches Err(e) && e@ == EngineErrorView::NotImplemented(
                "AppleSiliconEngine::feed_audio \u{2014} Phase 2"@,
            ),
    {
        Err(EngineError::NotImplemented(String::from_str("AppleSiliconEngine::feed_audio \u{2014} Phase 2")))
    }

    /// Poll for partial text: not implemented.
    pub fn poll_partial(&self, session: SessionId) -> (r: Result<Option<String>, EngineError>)
        ensures
            r matches Err(e) && e@ == EngineErrorView::NotImplemented(
                "AppleSiliconEngine::poll_partial \u{2014} Phase 2"@,
            ),
    {
        Err(EngineError::NotImplemented(String::from_str("AppleSiliconEngine::poll_partial \u{2014} Phase 2")))
    }

    /// End a session: not implemented.
    pub fn end_session(&self, session: SessionId) -> (r: Result<String, EngineError>)
        ensures
            r matches Err(e) && e@ == EngineErrorView::NotImplemented(
                "AppleSiliconEngine::end_session \u{2014} Phase 2"@,
            ),
    {
        Err(EngineError::NotImplemented(String::from_str("AppleSiliconEngine::end_session \u{2014} Phase 2")))
    }
}

} // verus!
