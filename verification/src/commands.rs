use vstd::prelude::*;
use crate::error::AppError;
use crate::state::{AppState, AppStateView, Status, StatusView};

verus! {

/// What `start_dictation` does to the state: from `Idle` or `Error` it moves
/// to `Listening`; while already dictating it changes nothing.
pub open spec fn start_transition(s: AppStateView) -> AppStateView {
    match s.status {
        StatusView::Listening | StatusView::Transcribing => s,
        _ => AppStateView { status: StatusView::Listening, ..s },
    }
}

/// What `stop_dictation` does to the state: from `Listening` it returns to
/// `Idle` and forgets the session; in any other state it changes nothing.
pub open spec fn stop_transition(s: AppStateView) -> AppStateView {
    match s.status {
        StatusView::Listening => AppStateView { status: StatusView::Idle, session_id: None },
        _ => s,
    }
}

/// Start dictation. Transitions: Idle → Listening (also Error → Listening).
/// Calling it while dictating is not an error and changes nothing.
pub fn start_dictation(state: &mut AppState) -> (r: Result<(), AppError>)
    ensures
        r is Ok,
        final(state)@ == start_transition(old(state)@),
{
    match state.status {
        Status::Listening | Status::Transcribing => {
            return Ok(());
        },
        Status::Error(_) | Status::Idle => {},
    }
    state.status = Status::Listening;
    Ok(())
}

/// Stop dictation. Transitions: Listening → Idle, dropping the session.
/// Calling it in any other state is not an error and changes nothing.
pub fn stop_dictation(state: &mut AppState) -> (r: Result<(), AppError>)
    ensures
        r is Ok,
        final(state)@ == stop_transition(old(state)@),
{
    match state.status {
        Status::Listening => {},
        _ => {
            return Ok(());
        },
    }
    state.status = Status::Idle;
    state.session_id = None;
    Ok(())
}

/// The current dictation status.
pub fn get_status(state: &AppState) -> (r: Status)
    ensures
        r == state.status,
{
    state.status.clone()
}

/// Starting twice is the same as starting once.
pub proof fn lemma_start_idempotent(s: AppStateView)
    ensures
        start_transition(start_transition(s)) == start_transition(s),
{
}

/// Stopping twice is the same as stopping once.
pub proof fn lemma_stop_idempotent(s: AppStateView)
    ensures
        stop_transition(stop_transition(s)) == stop_transition(s),
{
}

/// After `start_dictation` the app is dictating: `Listening` or `Transcribing`.
pub proof fn lemma_start_dictates(s: AppStateView)
    ensures
        start_transition(s).status is Listening || start_transition(s).status is Transcribing,
{
}

/// Starting from `Idle` or `Error` and then stopping brings the app back to
/// `Idle` with no session.
pub proof fn lemma_start_then_stop_is_idle(s: AppStateView)
    requires
        s.status is Idle || s.status is Error,
    ensures
        stop_transition(start_transition(s)) == (AppStateView {
            status: StatusView::Idle,
            session_id: None,
        }),
{
}

/// After `stop_dictation` the app is never `Listening`.
pub proof fn lemma_stop_not_listening(s: AppStateView)
    ensures
        !(stop_transition(s).status is Listening),
{
}

} // verus!

verus! {

/// Information about a discoverable model file.
#[derive(Debug, Clone)]
pub struct ModelInfo {
    pub name: String,
    pub path: String,
    pub size_bytes: u64,
}

/// File-name suffixes of model files.
pub open spec fn is_model_file_name(name: Seq<char>) -> bool {
    crate::text::has_suffix(name, ".bin"@) || crate::text::has_suffix(name, ".gguf"@)
        || crate::text::has_suffix(name, ".mlmodelc"@)
}

/// Whether a file in the model directory is listed as a model: its name
/// ends in `.bin`, `.gguf` or `.mlmodelc`.
pub fn is_model_file(name: &str) -> (r: bool)
    ensures
        r == is_model_file_name(name@),
{
    crate::text::ends_with(name, ".bin") || crate::text::ends_with(name, ".gguf")
        || crate::text::ends_with(name, ".mlmodelc")
}

/// The model-directory entries (name, path, size in bytes) that are listed,
/// in directory order: those whose name is a model file name.
pub open spec fn listed_models(entries: Seq<(Seq<char>, Seq<char>, u64)>) -> Seq<(Seq<char>, Seq<char>, u64)>
    decreases entries.len(),
{
    if entries.len() == 0 {
        Seq::empty()
    } else {
        let rest = listed_models(entries.drop_last());
        if is_model_file_name(entries.last().0) {
            rest.push(entries.last())
        } else {
            rest
        }
    }
}

pub open spec fn entry_views(entries: Seq<(String, String, u64)>) -> Seq<(Seq<char>, Seq<char>, u64)> {
    entries.map_values(|e: (String, String, u64)| (e.0@, e.1@, e.2))
}

pub open spec fn model_info_views(infos: Seq<ModelInfo>) -> Seq<(Seq<char>, Seq<char>, u64)> {
    infos.map_values(|m: ModelInfo| (m.name@, m.path@, m.size_bytes))
}

/// The models found among the entries of the model directory, each given
/// as (file name, full path, size in bytes): the entries whose file name
/// ends in `.bin`, `.gguf` or `.mlmodelc`, in directory order.
pub fn model_infos(entries: Vec<(String, String, u64)>) -> (r: Vec<ModelInfo>)
    ensures
        model_info_views(r@) == listed_models(entry_views(entries@)),
{
    let mut out: Vec<ModelInfo> = Vec::new();
    let mut i: usize = 0;
    while i < entries.len()
        invariant
            i <= entries@.len(),
            model_info_views(out@) == listed_models(entry_views(entries@).take(i as int)),
        decreases entries@.len() - i,
    {
        assert(entry_views(entries@).take(i + 1).drop_last() == entry_views(entries@).take(i as int));
        let e = &entries[i];
        if is_model_file(e.0.as_str()) {
            let info = ModelInfo { name: e.0.clone(), path: e.1.clone(), size_bytes: e.2 };
            out.push(info);
            assert(model_info_views(out@) == listed_models(entry_views(entries@).take(i as int)).push(
                (e.0@, e.1@, e.2),
            ));
        }
        i = i + 1;
    }
    assert(entry_views(entries@).take(entries@.len() as int) == entry_views(entries@));
    out
}

/// The fixed input sent through a cleanup backend to test it.
pub const TEST_INPUT: &'static str = "um hello uh this is a test you know";

/// Result of a test cleanup round-trip.
#[derive(Debug, Clone)]
pub struct CleanupTestResult {
    pub input: String,
    pub output: String,
    pub latency_ms: u128,
}

/// A single structured log entry.
#[derive(Debug, Clone)]
pub struct LogEntry {
    pub timestamp: String,
    pub level: String,
    pub message: String,
}

/// The recent log entries. No log buffer is kept yet, so there are none.
pub fn get_logs() -> (r: Vec<LogEntry>)
    ensures
        r@.len() == 0,
{
    Vec::new()
}

} // verus!
