//! The capture sequencer: one recording session at a time, a fresh
//! timestamp-named directory per session, and one numbered capture request
//! per processed frame while a render surface is present.
//!
//! The sequencer itself does no I/O. The caller reads the clock, creates the
//! session directory and performs the captures; this module decides, names
//! and counts, and its decisions are verified: the directory is committed
//! only when its creation succeeded, frame numbers are contiguous from zero,
//! and no number is ever skipped or reused.

use crate::digits::{dec_rep, frame_label, u32_frame_label, u64_to_dec};
use vstd::prelude::*;
use vstd::string::StringExecFns;

verus! {

/// State of the capture sequencer, one instance per process.
pub struct RecordingState {
    /// Whether a recording session is currently engaged.
    pub is_recording: bool,
    /// Frames captured in the current session; advances by exactly one per
    /// capture request, and only on a capture request.
    pub frame_count: u32,
    /// Directory of the current session; empty until a session has started.
    pub session_dir: String,
}

/// Mathematical image of a `RecordingState`.
pub struct RecordingView {
    pub is_recording: bool,
    pub frame_count: nat,
    pub session_dir: Seq<char>,
}

impl View for RecordingState {
    type V = RecordingView;

    open spec fn view(&self) -> RecordingView {
        RecordingView {
            is_recording: self.is_recording,
            frame_count: self.frame_count as nat,
            session_dir: self.session_dir@,
        }
    }
}

/// The directory of a session started at `timestamp_secs` (seconds since the
/// Unix epoch): `out/rec_<timestamp_secs>`.
pub open spec fn session_dir_seq(timestamp_secs: nat) -> Seq<char> {
    "out/rec_"@ + dec_rep(timestamp_secs)
}

/// The destination of capture number `n` inside `dir`:
/// `<dir>/frame_<n, zero-padded to five digits>.png`.
pub open spec fn frame_path_seq(dir: Seq<char>, n: nat) -> Seq<char> {
    dir + "/frame_"@ + frame_label(n) + ".png"@
}

/// How one processed frame changes the sequencer: the counter advances
/// exactly when a session is active and a render surface is present.
pub open spec fn step_frame(s: RecordingView, surface_available: bool) -> RecordingView {
    if s.is_recording && surface_available {
        RecordingView { frame_count: s.frame_count + 1, ..s }
    } else {
        s
    }
}

/// The capture request one processed frame emits: the path of the current
/// frame number when a session is active and a surface is present, nothing
/// otherwise.
pub open spec fn frame_request(s: RecordingView, surface_available: bool) -> Option<Seq<char>> {
    if s.is_recording && surface_available {
        Some(frame_path_seq(s.session_dir, s.frame_count))
    } else {
        None
    }
}

/// The sequencer after processing one frame per entry of `avail`, where
/// `avail[i]` says whether a render surface was present on frame `i`.
pub open spec fn run_frames(s: RecordingView, avail: Seq<bool>) -> RecordingView
    decreases avail.len(),
{
    if avail.len() == 0 {
        s
    } else {
        run_frames(step_frame(s, avail[0]), avail.drop_first())
    }
}

/// The capture requests emitted while processing one frame per entry of
/// `avail`, in order of emission.
pub open spec fn run_requests(s: RecordingView, avail: Seq<bool>) -> Seq<Seq<char>>
    decreases avail.len(),
{
    if avail.len() == 0 {
        Seq::empty()
    } else {
        let rest = run_requests(step_frame(s, avail[0]), avail.drop_first());
        match frame_request(s, avail[0]) {
            Some(p) => seq![p] + rest,
            None => rest,
        }
    }
}

impl RecordingState {
    /// A sequencer that has never recorded: idle, zero frames, no directory.
    pub fn new() -> (r: RecordingState)
        ensures
            !r@.is_recording,
            r@.frame_count == 0,
            r@.session_dir == Seq::<char>::empty(),
    {
        RecordingState { is_recording: false, frame_count: 0, session_dir: String::new() }
    }

    /// Engages a session in `session_dir`, a directory the caller has just
    /// created: only with `dir_created` does anything change, so a failed
    /// directory creation aborts the start with no partial state, and a
    /// start while already recording is a no-op.
    pub fn start(&mut self, session_dir: String, dir_created: bool)
        ensures
            old(self)@.is_recording ==> final(self)@ == old(self)@,
            !old(self)@.is_recording && !dir_created ==> final(self)@ == old(self)@,
            !old(self)@.is_recording && dir_created ==> final(self)@ == (RecordingView {
                is_recording: true,
                frame_count: 0,
                session_dir: session_dir@,
            }),
    {
        if !self.is_recording && dir_created {
            self.is_recording = true;
            self.frame_count = 0;
            self.session_dir = session_dir;
        }
    }

    /// Disengages the session and reports how many frames it captured. The
    /// counter and the directory are left as they were, so the caller can
    /// still name them in its closing notification.
    pub fn stop(&mut self) -> (frames: u32)
        ensures
            !final(self)@.is_recording,
            final(self)@.frame_count == old(self)@.frame_count,
            final(self)@.session_dir == old(self)@.session_dir,
            frames == old(self)@.frame_count,
    {
        self.is_recording = false;
        self.frame_count
    }

    /// Processes one frame: while a session is active and a render surface
    /// is present, returns the capture request for the current frame number
    /// and advances the counter by exactly one; otherwise changes nothing
    /// and requests nothing.
    pub fn on_frame(&mut self, surface_available: bool) -> (r: Option<String>)
        requires
            old(self)@.is_recording ==> old(self)@.frame_count < u32::MAX,
        ensures
            final(self)@ == step_frame(old(self)@, surface_available),
            r is Some <==> frame_request(old(self)@, surface_available) is Some,
            (r matches Some(p) ==> p@ == frame_request(old(self)@, surface_available)->0),
    {
        if self.is_recording && surface_available {
            let label = u32_frame_label(self.frame_count);
            let mut path = self.session_dir.clone();
            path.append("/frame_");
            path.append(label.as_str());
            path.append(".png");
            self.frame_count = self.frame_count + 1;
            proof {
                assert(path@ =~= frame_path_seq(old(self)@.session_dir, old(self)@.frame_count));
            }
            Some(path)
        } else {
            None
        }
    }
}

/// With a render surface present on every one of `N` processed frames of an
/// active session, the counter ends at exactly `N` more than it began, and
/// exactly `N` capture requests go out, numbered contiguously upward from the
/// starting count, all under the session's one directory.
pub proof fn lemma_run_all_available(s: RecordingView, avail: Seq<bool>)
    requires
        s.is_recording,
        forall|i: int| 0 <= i < avail.len() ==> avail[i],
    ensures
        run_frames(s, avail).is_recording,
        run_frames(s, avail).session_dir == s.session_dir,
        run_frames(s, avail).frame_count == s.frame_count + avail.len(),
        run_requests(s, avail).len() == avail.len(),
        forall|i: int|
            0 <= i < avail.len() ==> run_requests(s, avail)[i] == frame_path_seq(
                s.session_dir,
                (s.frame_count + i) as nat,
            ),
    decreases avail.len(),
{
    if avail.len() > 0 {
        let s1 = step_frame(s, avail[0]);
        lemma_run_all_available(s1, avail.drop_first());
        assert forall|i: int| 0 <= i < avail.len() implies run_requests(s, avail)[i]
            == frame_path_seq(s.session_dir, (s.frame_count + i) as nat) by {
            if i > 0 {
                assert(run_requests(s, avail)[i] == run_requests(s1, avail.drop_first())[i - 1]);
            }
        }
    }
}

/// With the render surface absent on exactly frame `k` of `N` processed
/// frames of an active session, exactly `N - 1` capture requests go out, and
/// their numbers are still contiguous upward from the starting count: the
/// skipped frame leaves no gap and reuses no number.
pub proof fn lemma_run_one_missing(s: RecordingView, avail: Seq<bool>, k: int)
    requires
        s.is_recording,
        0 <= k < avail.len(),
        !avail[k],
        forall|i: int| 0 <= i < avail.len() && i != k ==> avail[i],
    ensures
        run_frames(s, avail).is_recording,
        run_frames(s, avail).session_dir == s.session_dir,
        run_frames(s, avail).frame_count == s.frame_count + avail.len() - 1,
        run_requests(s, avail).len() == avail.len() - 1,
        forall|i: int|
            0 <= i < avail.len() - 1 ==> run_requests(s, avail)[i] == frame_path_seq(
                s.session_dir,
                (s.frame_count + i) as nat,
            ),
    decreases avail.len(),
{
    if k == 0 {
        assert(step_frame(s, avail[0]) == s);
        lemma_run_all_available(s, avail.drop_first());
    } else {
        let s1 = step_frame(s, avail[0]);
        lemma_run_one_missing(s1, avail.drop_first(), k - 1);
        assert forall|i: int| 0 <= i < avail.len() - 1 implies run_requests(s, avail)[i]
            == frame_path_seq(s.session_dir, (s.frame_count + i) as nat) by {
            if i > 0 {
                assert(run_requests(s, avail)[i] == run_requests(s1, avail.drop_first())[i - 1]);
            }
        }
    }
}

/// While no session is active, processed frames change nothing and request
/// nothing, however many there are: after a failed start, zero captures are
/// issued until a successful start.
pub proof fn lemma_idle_run_is_inert(s: RecordingView, avail: Seq<bool>)
    requires
        !s.is_recording,
    ensures
        run_frames(s, avail) == s,
        run_requests(s, avail).len() == 0,
    decreases avail.len(),
{
    if avail.len() > 0 {
        lemma_idle_run_is_inert(s, avail.drop_first());
    }
}

/// The directory name of a session started at `timestamp_secs`.
pub fn session_dir_name(timestamp_secs: u64) -> (r: String)
    ensures
        r@ == session_dir_seq(timestamp_secs as nat),
{
    let mut s = String::from_str("out/rec_");
    let digits = u64_to_dec(timestamp_secs);
    s.append(digits.as_str());
    s
}

} // verus!
