//! ASR engines: their configuration, their errors, and the platform engines'
//! session logic. Audio arrives as the bit patterns of 16 kHz mono `f32`
//! samples (`f32::to_bits`); the engines here never do arithmetic on them.
use vstd::prelude::*;
use vstd::string::*;
use crate::error::{AppError, AppErrorView, join_str};

pub mod apple_silicon;
pub mod macos_speech;
pub mod whisper_cpp;

verus! {

/// Configuration passed to an engine's `init`.
#[derive(Debug, Clone)]
pub struct EngineConfig {
    /// Path to the model file. If empty, the engine uses its bundled default.
    pub model_path: String,
}

/// Errors specific to the ASR engine layer.
#[derive(Debug, Clone, PartialEq, Eq)]
pub enum EngineError {
    ModelLoad(String),
    ModelNotFound(String),
    Session(String),
    AudioFeed(String),
    NotImplemented(String),
}

/// Mathematical model of an [`EngineError`].
pub enum EngineErrorView {
    ModelLoad(Seq<char>),
    ModelNotFound(Seq<char>),
    Session(Seq<char>),
    AudioFeed(Seq<char>),
    NotImplemented(Seq<char>),
}

impl View for EngineError {
    type V = EngineErrorView;

    open spec fn view(&self) -> EngineErrorView {
        match self {
            EngineError::ModelLoad(m) => EngineErrorView::ModelLoad(m@),
            EngineError::ModelNotFound(m) => EngineErrorView::ModelNotFound(m@),
            EngineError::Session(m) => EngineErrorView::Session(m@),
            EngineError::AudioFeed(m) => EngineErrorView::AudioFeed(m@),
            EngineError::NotImplemented(m) => EngineErrorView::NotImplemented(m@),
        }
    }
}

/// The human-readable message of an engine error.
pub open spec fn engine_error_message(e: EngineErrorView) -> Seq<char> {
    match e {
        EngineErrorView::ModelLoad(m) => "Model load failed: "@ + m,
        EngineErrorView::ModelNotFound(m) => "Model not found at path: "@ + m,
        EngineErrorView::Session(m) => "Session error: "@ + m,
        EngineErrorView::AudioFeed(m) => "Audio feed error: "@ + m,
        EngineErrorView::NotImplemented(m) => "Not implemented: "@ + m,
    }
}

/// The application error an engine error is reported as: model errors keep
/// their code, an unimplemented feature and every other failure become
/// internal errors.
pub open spec fn engine_to_app_error(e: EngineErrorView) -> AppErrorView {
    match e {
        EngineErrorView::ModelLoad(m) => AppErrorView::ModelLoad(m),
        EngineErrorView::ModelNotFound(m) => AppErrorView::ModelNotFound(m),
        EngineErrorView::NotImplemented(m) => AppErrorView::Internal("not implemented: "@ + m),
        other => AppErrorView::Internal(engine_error_message(other)),
    }
}

impl EngineError {
    /// The human-readable message of this error.
    pub fn message(&self) -> (r: String)
        ensures
            r@ == engine_error_message(self@),
    {
        match self {
            EngineError::ModelLoad(m) => join_str("Model load failed: ", m.as_str()),
            EngineError::ModelNotFound(m) => join_str("Model not found at path: ", m.as_str()),
            EngineError::Session(m) => join_str("Session error: ", m.as_str()),
            EngineError::AudioFeed(m) => join_str("Audio feed error: ", m.as_str()),
            EngineError::NotImplemented(m) => join_str("Not implemented: ", m.as_str()),
        }
    }
}

impl AppError {
    /// The application error an engine error is reported as.
    pub fn from_engine_error(e: EngineError) -> (r: AppError)
        ensures
            r@ == engine_to_app_error(e@),
    {
        match e {
            EngineError::ModelLoad(m) => AppError::ModelLoad(m),
            EngineError::ModelNotFound(m) => AppError::ModelNotFound(m),
            EngineError::NotImplemented(m) => AppError::Internal(
                join_str("not implemented: ", m.as_str()),
            ),
            other => AppError::Internal(other.message()),
        }
    }
}

/// An engine error reported to the webview keeps the engine's wording: its
/// message is the engine's message, or, for an unimplemented feature, names
/// the feature.
pub proof fn lemma_engine_errors_keep_their_text(e: EngineErrorView)
    ensures
        e is Session || e is AudioFeed ==> engine_to_app_error(e) == AppErrorView::Internal(
            engine_error_message(e),
        ),
        e is ModelLoad || e is ModelNotFound ==> !(engine_to_app_error(e) is Internal),
{
}

} // verus!
