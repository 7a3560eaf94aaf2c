use utter::cleanup::CleanupError;
use utter::engine::EngineError;
use utter::AppError;

fn all_errors() -> Vec<(AppError, &'static str, &'static str)> {
    vec![
        (AppError::MicPermission, "E_MIC_PERMISSION", "OS denied microphone access"),
        (AppError::MicBusy, "E_MIC_BUSY", "Another app holds the microphone"),
        (AppError::Accessibility, "E_ACCESSIBILITY", "macOS Accessibility permission not granted"),
        (AppError::ModelLoad("m".into()), "E_MODEL_LOAD", "ASR model failed to load: m"),
        (AppError::ModelNotFound("p".into()), "E_MODEL_NOT_FOUND", "Configured model file not found: p"),
        (AppError::CleanupUnreachable("u".into()), "E_CLEANUP_UNREACHABLE", "Cleanup endpoint not reachable: u"),
        (AppError::CleanupAuth, "E_CLEANUP_AUTH", "Cleanup endpoint returned 401/403"),
        (AppError::CleanupRate, "E_CLEANUP_RATE", "Cleanup endpoint rate-limited"),
        (AppError::InsertFailed, "E_INSERT_FAILED", "Could not insert text into focused app"),
        (AppError::Internal("i".into()), "E_INTERNAL", "Internal error \u{2014} see logs: i"),
    ]
}

#[test]
fn codes_and_messages() {
    for (e, code, msg) in all_errors() {
        assert_eq!(e.code(), code);
        assert_eq!(e.message(), msg);
    }
}

#[test]
fn codes_are_distinct() {
    let errs = all_errors();
    for (i, (a, _, _)) in errs.iter().enumerate() {
        for (j, (b, _, _)) in errs.iter().enumerate() {
            assert_eq!(a.code() == b.code(), i == j);
        }
    }
    assert_eq!(AppError::Internal("a".into()).code(), AppError::Internal("b".into()).code());
}

#[test]
fn cleanup_errors_convert() {
    assert_eq!(AppError::from(CleanupError::Unreachable("x".into())), AppError::CleanupUnreachable("x".into()));
    assert_eq!(AppError::from(CleanupError::Auth), AppError::CleanupAuth);
    assert_eq!(AppError::from(CleanupError::RateLimit), AppError::CleanupRate);
    assert_eq!(AppError::from(CleanupError::Request("HTTP 500".into())), AppError::Internal("HTTP 500".into()));
}

#[test]
fn cleanup_error_messages() {
    assert_eq!(CleanupError::Unreachable("u".into()).message(), "Endpoint not reachable: u");
    assert_eq!(CleanupError::Auth.message(), "Authentication failed (401/403)");
    assert_eq!(CleanupError::RateLimit.message(), "Rate limited");
    assert_eq!(CleanupError::Request("r".into()).message(), "Request failed: r");
}

#[test]
fn engine_error_messages() {
    assert_eq!(EngineError::ModelLoad("a".into()).message(), "Model load failed: a");
    assert_eq!(EngineError::ModelNotFound("b".into()).message(), "Model not found at path: b");
    assert_eq!(EngineError::Session("c".into()).message(), "Session error: c");
    assert_eq!(EngineError::AudioFeed("d".into()).message(), "Audio feed error: d");
    assert_eq!(EngineError::NotImplemented("e".into()).message(), "Not implemented: e");
}

#[test]
fn engine_errors_convert() {
    assert_eq!(AppError::from_engine_error(EngineError::ModelLoad("a".into())), AppError::ModelLoad("a".into()));
    assert_eq!(AppError::from_engine_error(EngineError::ModelNotFound("b".into())), AppError::ModelNotFound("b".into()));
    assert_eq!(
        AppError::from_engine_error(EngineError::NotImplemented("x".into())),
        AppError::Internal("not implemented: x".into())
    );
    assert_eq!(
        AppError::from_engine_error(EngineError::Session("unknown session 3".into())),
        AppError::Internal("Session error: unknown session 3".into())
    );
    assert_eq!(
        AppError::from_engine_error(EngineError::AudioFeed("f".into())),
        AppError::Internal("Audio feed error: f".into())
    );
}
