use vstd::prelude::*;
use vstd::string::*;
use crate::cleanup::CleanupError;

verus! {

/// The default "no cleanup" backend: the raw transcript is returned
/// unchanged, with no network call.
pub struct NoOpCleanup;

impl NoOpCleanup {
    /// Pass-through: no modification, no network call.
    pub fn refine(&self, raw: &str) -> (r: Result<String, CleanupError>)
        ensures
            r matches Ok(s) && s@ == raw@,
    {
        Ok(String::from_str(raw))
    }
}

} // verus!
