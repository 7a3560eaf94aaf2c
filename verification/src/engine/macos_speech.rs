//! macOS speech engine: audio is buffered per session and, when a session
//! ends, handed as raw little-endian `f32` PCM to the bundled
//! `utter-transcribe` helper, whose output is the transcript.
use vstd::prelude::*;
use vstd::string::*;
use std::collections::HashMap;
use crate::engine::{EngineError, EngineErrorView};
use crate::error::join_str;
use crate::state::SessionId;
use crate::text::{decimal, decimal_string, le_bytes, lossy_utf8, to_le_bytes, trim, trimmed, utf8_lossy};

verus! {

broadcast use vstd::std_specs::hash::group_hash_axioms;

/// File name of the helper binary.
pub const HELPER_NAME: &'static str = "utter-transcribe";

/// Where the helper is looked for in a development checkout, after the
/// directory of the running executable.
pub fn dev_helper_candidates() -> (r: Vec<&'static str>)
    ensures
        r@.len() == 2,
        r@[0]@ == "../../helpers/utter-transcribe"@,
        r@[1]@ == "apps/desktop/src-tauri/helpers/utter-transcribe"@,
{
    let mut v: Vec<&'static str> = Vec::new();
    v.push("../../helpers/utter-transcribe");
    v.push("apps/desktop/src-tauri/helpers/utter-transcribe");
    v
}

/// Message when no helper binary is found.
pub const HELPER_NOT_FOUND: &'static str = "utter-transcribe helper not found. In dev mode, run: swiftc -O -target arm64-apple-macos13.0 -framework Speech -framework AVFoundation -framework Foundation apps/desktop/src-tauri/helpers/utter-transcribe.swift -o apps/desktop/src-tauri/helpers/utter-transcribe";

/// The first candidate path that exists, if any.
pub open spec fn first_existing(c: Seq<(Seq<char>, bool)>) -> Option<Seq<char>>
    decreases c.len(),
{
    if c.len() == 0 {
        None
    } else if c[0].1 {
        Some(c[0].0)
    } else {
        first_existing(c.drop_first())
    }
}

/// Pick the helper: the first of the candidate paths (in the order given,
/// each with whether it exists) that exists.
pub fn resolve_helper_path(candidates: &Vec<(String, bool)>) -> (r: Result<String, EngineError>)
    ensures
        match first_existing(candidates@.map_values(|c: (String, bool)| (c.0@, c.1))) {
            Some(p) => r matches Ok(s) && s@ == p,
            None => r matches Err(e) && e@ == EngineErrorView::ModelNotFound(HELPER_NOT_FOUND@),
        },
        r matches Ok(p) ==> exists|i: int|
            0 <= i < candidates@.len() && #[trigger] candidates@[i].1 && p@ == candidates@[i].0@
                && forall|j: int| 0 <= j < i ==> !(#[trigger] candidates@[j].1),
        r is Err ==> forall|j: int| 0 <= j < candidates@.len() ==> !(#[trigger] candidates@[j].1),
        candidates@.len() > 0 && candidates@[0].1 ==> (r matches Ok(p) && p@ == candidates@[0].0@),
{
    let ghost all = candidates@.map_values(|c: (String, bool)| (c.0@, c.1));
    let mut i: usize = 0;
    assert(all.skip(0) == all);
    while i < candidates.len()
        invariant
            i <= candidates@.len(),
            all == candidates@.map_values(|c: (String, bool)| (c.0@, c.1)),
            forall|j: int| 0 <= j < i ==> !(#[trigger] candidates@[j].1),
            first_existing(all) == first_existing(all.skip(i as int)),
        decreases candidates@.len() - i,
    {
        assert(all.skip(i as int).drop_first() == all.skip(i + 1));
        assert(all.skip(i as int)[0] == (candidates@[i as int].0@, candidates@[i as int].1));
        if candidates[i].1 {
            return Ok(candidates[i].0.clone());
        }
        i = i + 1;
    }
    assert(all.skip(i as int).len() == 0);
    Err(EngineError::ModelNotFound(String::from_str(HELPER_NOT_FOUND)))
}

/// `first_existing` picks the candidate at the least index that exists, and
/// finds none only when no candidate exists.
pub proof fn lemma_first_existing_is_least(c: Seq<(Seq<char>, bool)>, i: int)
    ensures
        0 <= i < c.len() && c[i].1 && (forall|j: int| 0 <= j < i ==> !(#[trigger] c[j].1))
            ==> first_existing(c) == Some(c[i].0),
        (forall|j: int| 0 <= j < c.len() ==> !(#[trigger] c[j].1)) ==> first_existing(c) is None,
    decreases c.len(),
{
    if c.len() > 0 {
        let d = c.drop_first();
        lemma_first_existing_is_least(d, i - 1);
        if 0 < i < c.len() && c[i].1 && (forall|j: int| 0 <= j < i ==> !(#[trigger] c[j].1)) {
            assert(!c[0].1);
            assert(d[i - 1] == c[i]);
            assert forall|j: int| 0 <= j < i - 1 implies !(#[trigger] d[j].1) by {
                assert(d[j] == c[j + 1]);
            }
        }
        if forall|j: int| 0 <= j < c.len() ==> !(#[trigger] c[j].1) {
            assert(!c[0].1);
            assert forall|j: int| 0 <= j < d.len() implies !(#[trigger] d[j].1) by {
                assert(d[j] == c[j + 1]);
            }
        }
    }
}

/// Check the helper found at `helper_path`, given whether it is a regular
/// file (or why its metadata could not be read).
pub fn check_helper(helper_path: &str, metadata: Result<bool, String>) -> (r: Result<(), EngineError>)
    ensures
        match metadata {
            Ok(true) => r is Ok,
            Ok(false) => r matches Err(e) && e@ == EngineErrorView::ModelLoad(
                "helper path is not a file: "@ + helper_path@,
            ),
            Err(m) => r matches Err(e) && e@ == EngineErrorView::ModelLoad(
                "helper not accessible: "@ + m@,
            ),
        },
{
    match metadata {
        Ok(true) => Ok(()),
        Ok(false) => Err(EngineError::ModelLoad(join_str("helper path is not a file: ", helper_path))),
        Err(m) => Err(EngineError::ModelLoad(join_str("helper not accessible: ", m.as_str()))),
    }
}

/// The error for a session id the engine does not know.
pub open spec fn unknown_session(id: SessionId) -> EngineErrorView {
    EngineErrorView::Session("unknown session "@ + decimal(id as nat))
}

fn unknown_session_error(id: SessionId) -> (r: EngineError)
    ensures
        r@ == unknown_session(id),
{
    let n = decimal_string(id);
    EngineError::Session(join_str("unknown session ", n.as_str()))
}

/// The error for a failed step of running the helper: the step, then the
/// operating system's error text.
pub fn helper_error(step: &str, err: &str) -> (r: EngineError)
    ensures
        r@ == EngineErrorView::Session(step@ + ": "@ + err@),
{
    let mut s = join_str(step, ": ");
    s.append(err);
    EngineError::Session(s)
}

/// The macOS speech engine: a helper binary and the audio buffered for each
/// open session.
pub struct MacOsSpeechEngine {
    helper_path: String,
    sessions: HashMap<SessionId, Vec<u32>>,
    next_id: u64,
}

/// Mathematical model of a [`MacOsSpeechEngine`]: the helper path, each open
/// session's buffered samples (as `f32` bit patterns), and the next id.
pub struct MacOsSpeechEngineView {
    pub helper_path: Seq<char>,
    pub sessions: Map<SessionId, Seq<u32>>,
    pub next_id: u64,
}

impl View for MacOsSpeechEngine {
    type V = MacOsSpeechEngineView;

    closed spec fn view(&self) -> MacOsSpeechEngineView {
        MacOsSpeechEngineView {
            helper_path: self.helper_path@,
            sessions: self.sessions@.map_values(|v: Vec<u32>| v@),
            next_id: self.next_id,
        }
    }
}

/// The engine after one `start_session`: the next id is handed out with an
/// empty buffer, and the counter moves on (wrapping at `u64::MAX`).
pub open spec fn start_step(v: MacOsSpeechEngineView) -> MacOsSpeechEngineView {
    MacOsSpeechEngineView {
        helper_path: v.helper_path,
        sessions: v.sessions.insert(v.next_id, Seq::<u32>::empty()),
        next_id: v.next_id.wrapping_add(1),
    }
}

/// The engine after `k` calls of `start_session` and nothing else.
pub open spec fn start_steps(v: MacOsSpeechEngineView, k: nat) -> MacOsSpeechEngineView
    decreases k,
{
    if k == 0 {
        v
    } else {
        start_step(start_steps(v, (k - 1) as nat))
    }
}

/// The sessions a fresh engine has after `k` calls of `start_session`:
/// ids `1..=k`, each with an empty buffer.
pub open spec fn first_sessions(k: nat) -> Map<SessionId, Seq<u32>> {
    Map::new(|i: SessionId| 1 <= i <= k, |i: SessionId| Seq::<u32>::empty())
}

/// Whether every open session's id was handed out before the counter's
/// current value (no wrap-around yet).
pub open spec fn ids_below_counter(v: MacOsSpeechEngineView) -> bool {
    forall|i: SessionId| #[trigger] v.sessions.contains_key(i) ==> 1 <= i < v.next_id
}

/// While the counter has not wrapped, the id `start_session` hands out is
/// not the id of any open session, every earlier buffer is unchanged, and
/// the ids stay below the counter.
pub proof fn lemma_fresh_id_not_open(v: MacOsSpeechEngineView)
    requires
        ids_below_counter(v),
        1 <= v.next_id < u64::MAX,
    ensures
        !v.sessions.contains_key(v.next_id),
        forall|i: SessionId| #[trigger] v.sessions.contains_key(i) ==> start_step(v).sessions.contains_key(i)
            && start_step(v).sessions[i] == v.sessions[i],
        ids_below_counter(start_step(v)),
        start_step(v).next_id == v.next_id + 1,
{
    let w = start_step(v);
    assert(w.next_id == v.next_id + 1);
    assert forall|i: SessionId| #[trigger] w.sessions.contains_key(i) implies 1 <= i < w.next_id by {
        if i != v.next_id {
            assert(v.sessions.contains_key(i));
        }
    }
}

/// Session ids count up from 1: after `k` calls of `start_session` on a
/// freshly made engine (fewer than `u64::MAX - 1`), the open sessions are
/// `1..=k`, all with empty buffers, and the next call hands out `k + 1`,
/// an id no open session has.
pub proof fn lemma_session_ids_count_up(v: MacOsSpeechEngineView, k: nat)
    requires
        v.next_id == 1,
        v.sessions == Map::<SessionId, Seq<u32>>::empty(),
        k < u64::MAX - 1,
    ensures
        start_steps(v, k).next_id == k + 1,
        start_steps(v, k).sessions == first_sessions(k),
        !start_steps(v, k).sessions.contains_key((k + 1) as u64),
        start_steps(v, k).helper_path == v.helper_path,
    decreases k,
{
    if k == 0 {
        assert(first_sessions(0) =~= Map::<SessionId, Seq<u32>>::empty());
    } else {
        lemma_session_ids_count_up(v, (k - 1) as nat);
        let p = start_steps(v, (k - 1) as nat);
        assert(p.next_id == k);
        assert(start_steps(v, k).sessions =~= first_sessions(k));
    }
}

/// What ending a known session leads to.
pub enum SessionEnd {
    /// No audio was recorded: the transcript is empty.
    Transcript(String),
    /// Run the helper with these bytes on its standard input.
    RunHelper(Vec<u8>),
}

/// The transcript the helper's run yields: its standard output, decoded and
/// trimmed, when it exited successfully; otherwise a session error naming
/// its exit status and its trimmed standard error.
pub open spec fn helper_outcome(
    success: bool,
    status: Seq<char>,
    stdout: Seq<u8>,
    stderr: Seq<u8>,
) -> Result<Seq<char>, EngineErrorView> {
    if success {
        Ok(trimmed(utf8_lossy(stdout)))
    } else {
        Err(
            EngineErrorView::Session(
                "helper exited "@ + status + ": "@ + trimmed(utf8_lossy(stderr)),
            ),
        )
    }
}

impl MacOsSpeechEngine {
    /// An engine using the helper at `helper_path`, with no open session;
    /// ids start at 1.
    pub fn new(helper_path: String) -> (r: Self)
        ensures
            r@.helper_path == helper_path@,
            r@.sessions == Map::<SessionId, Seq<u32>>::empty(),
            r@.next_id == 1,
    {
        let r = MacOsSpeechEngine { helper_path, sessions: HashMap::new(), next_id: 1 };
        assert(r@.sessions =~= Map::<SessionId, Seq<u32>>::empty());
        r
    }

    /// Load the engine with the helper found at `helper_path`, given whether
    /// it is a regular file (or why its metadata could not be read).
    pub fn init(helper_path: String, metadata: Result<bool, String>) -> (r: Result<Self, EngineError>)
        ensures
            match metadata {
                Ok(true) => r matches Ok(eng) && eng@.helper_path == helper_path@
                    && eng@.sessions == Map::<SessionId, Seq<u32>>::empty() && eng@.next_id == 1,
                Ok(false) => r matches Err(e) && e@ == EngineErrorView::ModelLoad(
                    "helper path is not a file: "@ + helper_path@,
                ),
                Err(m) => r matches Err(e) && e@ == EngineErrorView::ModelLoad(
                    "helper not accessible: "@ + m@,
                ),
            },
    {
        match check_helper(helper_path.as_str(), metadata) {
            Ok(()) => Ok(MacOsSpeechEngine::new(helper_path)),
            Err(e) => Err(e),
        }
    }

    /// Path of the helper binary.
    pub fn helper_path(&self) -> (r: &str)
        ensures
            r@ == self@.helper_path,
    {
        self.helper_path.as_str()
    }

    /// Begin a new session with an empty buffer. Ids come from a counter
    /// that wraps around at `u64::MAX`.
    pub fn start_session(&mut self) -> (r: Result<SessionId, EngineError>)
        ensures
            r matches Ok(id) && id == old(self)@.next_id,
            final(self)@.next_id == old(self)@.next_id.wrapping_add(1),
            final(self)@.sessions == old(self)@.sessions.insert(
                old(self)@.next_id,
                Seq::<u32>::empty(),
            ),
            final(self)@.helper_path == old(self)@.helper_path,
            final(self)@ == start_step(old(self)@),
    {
        let id = self.next_id;
        self.next_id = self.next_id.wrapping_add(1);
        self.sessions.insert(id, Vec::new());
        proof {
            assert(self@.sessions =~= old(self)@.sessions.insert(id, Seq::<u32>::empty()));
        }
        Ok(id)
    }

    /// Append audio to a session's buffer.
    pub fn feed_audio(&mut self, session: SessionId, samples: &[u32]) -> (r: Result<(), EngineError>)
        ensures
            old(self)@.sessions.contains_key(session) ==> r is Ok && final(self)@.sessions
                == old(self)@.sessions.insert(session, old(self)@.sessions[session] + samples@),
            !old(self)@.sessions.contains_key(session) ==> (r matches Err(e) && e@
                == unknown_session(session)) && final(self)@.sessions == old(self)@.sessions,
            final(self)@.next_id == old(self)@.next_id,
            final(self)@.helper_path == old(self)@.helper_path,
    {
        match self.sessions.remove(&session) {
            Some(mut buf) => {
                let ghost before = buf@;
                let mut i: usize = 0;
                while i < samples.len()
                    invariant
                        i <= samples@.len(),
                        buf@ == before + samples@.take(i as int),
                    decreases samples@.len() - i,
                {
                    buf.push(samples[i]);
                    assert(samples@.take(i + 1) == samples@.take(i as int).push(samples@[i as int]));
                    i = i + 1;
                }
                assert(samples@.take(samples@.len() as int) == samples@);
                self.sessions.insert(session, buf);
                proof {
                    assert(self@.sessions =~= old(self)@.sessions.insert(
                        session,
                        old(self)@.sessions[session] + samples@,
                    ));
                }
                Ok(())
            },
            None => {
                proof {
                    assert(self@.sessions =~= old(self)@.sessions);
                }
                Err(unknown_session_error(session))
            },
        }
    }

    /// Partial transcripts are not produced: the helper transcribes the whole
    /// buffer when the session ends.
    pub fn poll_partial(&self, session: SessionId) -> (r: Result<Option<String>, EngineError>)
        ensures
            r matches Ok(p) && p is None,
    {
        Ok(None)
    }

    /// End a session and take its audio out of the engine: an empty buffer
    /// gives the empty transcript, otherwise the helper must be run with the
    /// samples as raw little-endian bytes.
    pub fn end_session(&mut self, session: SessionId) -> (r: Result<SessionEnd, EngineError>)
        ensures
            old(self)@.sessions.contains_key(session) ==> final(self)@.sessions == old(
                self,
            )@.sessions.remove(session) && (if old(self)@.sessions[session].len() == 0 {
                r matches Ok(SessionEnd::Transcript(t)) && t@.len() == 0
            } else {
                r matches Ok(SessionEnd::RunHelper(b)) && b@ == le_bytes(
                    old(self)@.sessions[session],
                )
            }),
            !old(self)@.sessions.contains_key(session) ==> (r matches Err(e) && e@
                == unknown_session(session)) && final(self)@.sessions == old(self)@.sessions,
            final(self)@.next_id == old(self)@.next_id,
            final(self)@.helper_path == old(self)@.helper_path,
    {
        match self.sessions.remove(&session) {
            Some(samples) => {
                proof {
                    assert(self@.sessions =~= old(self)@.sessions.remove(session));
                }
                if samples.len() == 0 {
                    Ok(SessionEnd::Transcript(String::new()))
                } else {
                    Ok(SessionEnd::RunHelper(to_le_bytes(samples.as_slice())))
                }
            },
            None => {
                proof {
                    assert(self@.sessions =~= old(self)@.sessions);
                }
                Err(unknown_session_error(session))
            },
        }
    }
}

/// The transcript of a finished helper run, given whether it exited
/// successfully, its exit status as text, and its standard output and error.
pub fn finish_transcript(success: bool, status: &str, stdout: &[u8], stderr: &[u8]) -> (r: Result<
    String,
    EngineError,
>)
    ensures
        match helper_outcome(success, status@, stdout@, stderr@) {
            Ok(t) => r matches Ok(s) && s@ == t,
            Err(e) => r matches Err(x) && x@ == e,
        },
        success ==> (r matches Ok(t) && t@ == trimmed(utf8_lossy(stdout@))),
        r is Err <==> !success,
{
    if !success {
        let err = lossy_utf8(stderr);
        let detail = trim(err.as_str());
        let mut msg = join_str("helper exited ", status);
        msg.append(": ");
        msg.append(detail.as_str());
        return Err(EngineError::Session(msg));
    }
    let out = lossy_utf8(stdout);
    Ok(trim(out.as_str()))
}

/// A helper that exits successfully always yields a transcript, the
/// decoded and trimmed standard output, even when that is empty; a failure
/// is reported only for an unsuccessful exit.
pub proof fn lemma_success_gives_transcript(
    success: bool,
    status: Seq<char>,
    stdout: Seq<u8>,
    stderr: Seq<u8>,
)
    ensures
        success ==> helper_outcome(success, status, stdout, stderr) == Ok::<
            Seq<char>,
            EngineErrorView,
        >(trimmed(utf8_lossy(stdout))),
        helper_outcome(success, status, stdout, stderr) is Err <==> !success,
{
}

/// The bytes handed to the helper when a session ends are the encodings of
/// the chunks fed to it, one after the other.
pub proof fn lemma_fed_audio_reaches_helper(chunks_before: Seq<u32>, chunk: Seq<u32>)
    ensures
        le_bytes(chunks_before + chunk) == le_bytes(chunks_before) + le_bytes(chunk),
{
    crate::text::lemma_le_bytes_concat(chunks_before, chunk);
}

/// Two sessions started one after the other get different ids.
pub proof fn lemma_consecutive_session_ids_differ(next_id: u64)
    ensures
        next_id.wrapping_add(1) != next_id,
{
}

} // verus!
