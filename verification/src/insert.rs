//! Inserting the final text into the focused application. The per-OS
//! keyboard-injection back ends are not written yet.
use vstd::prelude::*;
use vstd::string::*;
use crate::error::{AppError, AppErrorView};

verus! {

/// The operating system the app was built for.
#[derive(Debug, Clone, Copy, PartialEq, Eq)]
pub enum Platform {
    MacOs,
    Windows,
    Other,
}

/// The macOS path (synthetic keyboard events) is not implemented yet.
pub fn insert_text_macos(text: &str) -> (r: Result<(), AppError>)
    ensures
        r matches Err(e) && e@ == AppErrorView::Internal(
            "insert_text_macos not yet implemented \u{2014} Phase 2"@,
        ),
{
    Err(AppError::Internal(String::from_str("insert_text_macos not yet implemented \u{2014} Phase 2")))
}

/// The Windows path (`SendInput`) is not implemented yet.
pub fn insert_text_windows(text: &str) -> (r: Result<(), AppError>)
    ensures
        r matches Err(e) && e@ == AppErrorView::Internal(
            "insert_text_windows not yet implemented \u{2014} Phase 3"@,
        ),
{
    Err(AppError::Internal(String::from_str("insert_text_windows not yet implemented \u{2014} Phase 3")))
}

/// Insert `text` into the currently focused application on `platform`.
/// Empty text is never inserted and never fails; on platforms other than
/// macOS and Windows insertion does nothing.
pub fn insert_text(text: &str, platform: Platform) -> (r: Result<(), AppError>)
    ensures
        text@.len() == 0 ==> r is Ok,
        text@.len() > 0 ==> match platform {
            Platform::MacOs => r matches Err(e) && e@ == AppErrorView::Internal(
                "insert_text_macos not yet implemented \u{2014} Phase 2"@,
            ),
            Platform::Windows => r matches Err(e) && e@ == AppErrorView::Internal(
                "insert_text_windows not yet implemented \u{2014} Phase 3"@,
            ),
            Platform::Other => r is Ok,
        },
{
    if text.is_empty() {
        return Ok(());
    }
    match platform {
        Platform::MacOs => insert_text_macos(text),
        Platform::Windows => insert_text_windows(text),
        Platform::Other => Ok(()),
    }
}

} // verus!
