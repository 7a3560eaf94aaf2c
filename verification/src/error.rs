use vstd::prelude::*;
use vstd::string::*;

verus! {

/// All error codes that can be emitted to the webview.
#[derive(Debug, Clone, PartialEq, Eq)]
pub enum AppError {
    MicPermission,
    MicBusy,
    Accessibility,
    ModelLoad(String),
    ModelNotFound(String),
    CleanupUnreachable(String),
    CleanupAuth,
    CleanupRate,
    InsertFailed,
    Internal(String),
}

/// Mathematical model of an [`AppError`]: the same variants, with the
/// carried message taken as a character sequence.
pub enum AppErrorView {
    MicPermission,
    MicBusy,
    Accessibility,
    ModelLoad(Seq<char>),
    ModelNotFound(Seq<char>),
    CleanupUnreachable(Seq<char>),
    CleanupAuth,
    CleanupRate,
    InsertFailed,
    Internal(Seq<char>),
}

impl View for AppError {
    type V = AppErrorView;

    open spec fn view(&self) -> AppErrorView {
        match self {
            AppError::MicPermission => AppErrorView::MicPermission,
            AppError::MicBusy => AppErrorView::MicBusy,
            AppError::Accessibility => AppErrorView::Accessibility,
            AppError::ModelLoad(m) => AppErrorView::ModelLoad(m@),
            AppError::ModelNotFound(m) => AppErrorView::ModelNotFound(m@),
            AppError::CleanupUnreachable(m) => AppErrorView::CleanupUnreachable(m@),
            AppError::CleanupAuth => AppErrorView::CleanupAuth,
            AppError::CleanupRate => AppErrorView::CleanupRate,
            AppError::InsertFailed => AppErrorView::InsertFailed,
            AppError::Internal(m) => AppErrorView::Internal(m@),
        }
    }
}

/// The wire code of each error, as the webview matches on it.
pub open spec fn error_code(e: AppErrorView) -> Seq<char> {
    match e {
        AppErrorView::MicPermission => "E_MIC_PERMISSION"@,
        AppErrorView::MicBusy => "E_MIC_BUSY"@,
        AppErrorView::Accessibility => "E_ACCESSIBILITY"@,
        AppErrorView::ModelLoad(_) => "E_MODEL_LOAD"@,
        AppErrorView::ModelNotFound(_) => "E_MODEL_NOT_FOUND"@,
        AppErrorView::CleanupUnreachable(_) => "E_CLEANUP_UNREACHABLE"@,
        AppErrorView::CleanupAuth => "E_CLEANUP_AUTH"@,
        AppErrorView::CleanupRate => "E_CLEANUP_RATE"@,
        AppErrorView::InsertFailed => "E_INSERT_FAILED"@,
        AppErrorView::Internal(_) => "E_INTERNAL"@,
    }
}

/// The human-readable message of each error.
pub open spec fn error_message(e: AppErrorView) -> Seq<char> {
    match e {
        AppErrorView::MicPermission => "OS denied microphone access"@,
        AppErrorView::MicBusy => "Another app holds the microphone"@,
        AppErrorView::Accessibility => "macOS Accessibility permission not granted"@,
        AppErrorView::ModelLoad(m) => "ASR model failed to load: "@ + m,
        AppErrorView::ModelNotFound(m) => "Configured model file not found: "@ + m,
        AppErrorView::CleanupUnreachable(m) => "Cleanup endpoint not reachable: "@ + m,
        AppErrorView::CleanupAuth => "Cleanup endpoint returned 401/403"@,
        AppErrorView::CleanupRate => "Cleanup endpoint rate-limited"@,
        AppErrorView::InsertFailed => "Could not insert text into focused app"@,
        AppErrorView::Internal(m) => "Internal error \u{2014} see logs: "@ + m,
    }
}

/// `prefix` followed by `rest`, as a new string.
pub fn join_str(prefix: &str, rest: &str) -> (r: String)
    ensures
        r@ == prefix@ + rest@,
{
    let mut s = String::from_str(prefix);
    s.append(rest);
    s
}

impl AppError {
    /// The error code string as sent to the webview.
    pub fn code(&self) -> (r: &'static str)
        ensures
            r@ == error_code(self@),
    {
        match self {
            AppError::MicPermission => "E_MIC_PERMISSION",
            AppError::MicBusy => "E_MIC_BUSY",
            AppError::Accessibility => "E_ACCESSIBILITY",
            AppError::ModelLoad(_) => "E_MODEL_LOAD",
            AppError::ModelNotFound(_) => "E_MODEL_NOT_FOUND",
            AppError::CleanupUnreachable(_) => "E_CLEANUP_UNREACHABLE",
            AppError::CleanupAuth => "E_CLEANUP_AUTH",
            AppError::CleanupRate => "E_CLEANUP_RATE",
            AppError::InsertFailed => "E_INSERT_FAILED",
            AppError::Internal(_) => "E_INTERNAL",
        }
    }

    /// The human-readable message of this error (what the webview shows).
    pub fn message(&self) -> (r: String)
        ensures
            r@ == error_message(self@),
    {
        match self {
            AppError::MicPermission => String::from_str("OS denied microphone access"),
            AppError::MicBusy => String::from_str("Another app holds the microphone"),
            AppError::Accessibility => String::from_str("macOS Accessibility permission not granted"),
            AppError::ModelLoad(m) => join_str("ASR model failed to load: ", m.as_str()),
            AppError::ModelNotFound(m) => join_str("Configured model file not found: ", m.as_str()),
            AppError::CleanupUnreachable(m) => join_str("Cleanup endpoint not reachable: ", m.as_str()),
            AppError::CleanupAuth => String::from_str("Cleanup endpoint returned 401/403"),
            AppError::CleanupRate => String::from_str("Cleanup endpoint rate-limited"),
            AppError::InsertFailed => String::from_str("Could not insert text into focused app"),
            AppError::Internal(m) => join_str("Internal error \u{2014} see logs: ", m.as_str()),
        }
    }
}

/// Which of the ten kinds an error is, ignoring its message.
pub open spec fn error_kind(e: AppErrorView) -> int {
    match e {
        AppErrorView::MicPermission => 0,
        AppErrorView::MicBusy => 1,
        AppErrorView::Accessibility => 2,
        AppErrorView::ModelLoad(_) => 3,
        AppErrorView::ModelNotFound(_) => 4,
        AppErrorView::CleanupUnreachable(_) => 5,
        AppErrorView::CleanupAuth => 6,
        AppErrorView::CleanupRate => 7,
        AppErrorView::InsertFailed => 8,
        AppErrorView::Internal(_) => 9,
    }
}

/// The code identifies the kind of error: two errors have the same code
/// exactly when they are of the same kind, so the webview can match on it.
pub proof fn lemma_code_identifies_kind(a: AppErrorView, b: AppErrorView)
    ensures
        error_code(a) == error_code(b) <==> error_kind(a) == error_kind(b),
{
    reveal_strlit("E_MIC_PERMISSION");
    reveal_strlit("E_MIC_BUSY");
    reveal_strlit("E_ACCESSIBILITY");
    reveal_strlit("E_MODEL_LOAD");
    reveal_strlit("E_MODEL_NOT_FOUND");
    reveal_strlit("E_CLEANUP_UNREACHABLE");
    reveal_strlit("E_CLEANUP_AUTH");
    reveal_strlit("E_CLEANUP_RATE");
    reveal_strlit("E_INSERT_FAILED");
    reveal_strlit("E_INTERNAL");
    if error_code(a) == error_code(b) && error_kind(a) != error_kind(b) {
        let ca = error_code(a);
        let cb = error_code(b);
        assert(ca.len() == cb.len());
        assert(ca[2] == cb[2]);
        assert(ca[10] == cb[10]);
        assert(false);
    }
}

} // verus!
