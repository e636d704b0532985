//! Recording sessions: the parameters of one recording run and the count of
//! frames written so far on one side.

use vstd::prelude::*;

verus! {

/// Lowest frame rate a recording accepts, in frames per second.
pub const MIN_FPS: u32 = 1;

/// Highest frame rate a recording accepts, in frames per second.
pub const MAX_FPS: u32 = 60;

/// Shortest recording, in seconds.
pub const MIN_DURATION_SECONDS: u32 = 1;

/// Longest recording, in seconds.
pub const MAX_DURATION_SECONDS: u32 = 300;

/// A frame rate between 1 and 60 frames per second.
pub open spec fn valid_fps(fps: nat) -> bool {
    1 <= fps <= 60
}

/// A duration between 1 and 300 seconds.
pub open spec fn valid_duration(seconds: nat) -> bool {
    1 <= seconds <= 300
}

/// Number of frames that make up a whole recording.
pub open spec fn frame_budget(fps: nat, seconds: nat) -> nat {
    fps * seconds
}

/// The recording has run its time: the frames written so far, played back at
/// `fps`, last at least `seconds`.
pub open spec fn duration_elapsed(frames_written: nat, fps: nat, seconds: nat) -> bool {
    frames_written / fps >= seconds
}

/// Time between two frames at the given rate, in whole microseconds.
pub open spec fn frame_period_micros(fps: nat) -> nat {
    1_000_000nat / fps
}

/// The parameters and progress of a session, as plain values.
pub struct SessionView {
    pub output_dir: Seq<char>,
    pub fps: nat,
    pub duration_seconds: nat,
    pub frames_written: nat,
}

impl SessionView {
    /// Both parameters are in range and no more frames were written than the
    /// recording holds.
    pub open spec fn wf(self) -> bool {
        &&& valid_fps(self.fps)
        &&& valid_duration(self.duration_seconds)
        &&& self.frames_written <= frame_budget(self.fps, self.duration_seconds)
    }

    /// Frames the whole recording holds.
    pub open spec fn budget(self) -> nat {
        frame_budget(self.fps, self.duration_seconds)
    }

    /// Nothing is left to record.
    pub open spec fn complete(self) -> bool {
        self.frames_written >= self.budget()
    }

    /// The session after one more frame went to the sink. A complete session
    /// takes no further frame.
    pub open spec fn record_frame(self) -> SessionView {
        if self.complete() {
            self
        } else {
            SessionView { frames_written: self.frames_written + 1, ..self }
        }
    }
}

/// A session is complete exactly when its duration has elapsed at its frame
/// rate.
pub proof fn lemma_complete_iff_duration_elapsed(s: SessionView)
    requires
        valid_fps(s.fps),
    ensures
        s.complete() <==> duration_elapsed(s.frames_written, s.fps, s.duration_seconds),
{
    let f = s.fps as int;
    let d = s.duration_seconds as int;
    let w = s.frames_written as int;
    assert(w >= f * d <==> w / f >= d) by (nonlinear_arith)
        requires
            f >= 1,
            d >= 0,
            w >= 0,
    ;
}

/// A recording never holds more than 18000 frames.
pub proof fn lemma_budget_bound(fps: nat, seconds: nat)
    requires
        valid_fps(fps),
        valid_duration(seconds),
    ensures
        1 <= frame_budget(fps, seconds) <= 18000,
{
    assert(1 <= fps * seconds <= 18000) by (nonlinear_arith)
        requires
            1 <= fps <= 60,
            1 <= seconds <= 300,
    ;
}

/// Tells whether a frame rate and a duration are both in range.
pub fn valid_parameters(fps: u32, duration_seconds: u32) -> (ok: bool)
    ensures
        ok == (valid_fps(fps as nat) && valid_duration(duration_seconds as nat)),
{
    MIN_FPS <= fps && fps <= MAX_FPS && MIN_DURATION_SECONDS <= duration_seconds
        && duration_seconds <= MAX_DURATION_SECONDS
}

/// One side's share of a recording run.
#[derive(Debug)]
pub struct RecordingSession {
    output_dir: String,
    fps: u32,
    duration_seconds: u32,
    frames_written: u32,
}

impl View for RecordingSession {
    type V = SessionView;

    closed spec fn view(&self) -> SessionView {
        SessionView {
            output_dir: self.output_dir@,
            fps: self.fps as nat,
            duration_seconds: self.duration_seconds as nat,
            frames_written: self.frames_written as nat,
        }
    }
}

impl RecordingSession {
    #[verifier::type_invariant]
    pub(crate) open spec fn in_range(self) -> bool {
        self@.wf()
    }

    /// Opens a session with no frame written. Gives `None` unless
    /// `1 <= fps <= 60` and `1 <= duration_seconds <= 300`.
    pub fn new(output_dir: String, fps: u32, duration_seconds: u32) -> (session: Option<
        RecordingSession,
    >)
        ensures
            session is Some <==> valid_fps(fps as nat) && valid_duration(duration_seconds as nat),
            session matches Some(s) ==> s@ == (SessionView {
                output_dir: output_dir@,
                fps: fps as nat,
                duration_seconds: duration_seconds as nat,
                frames_written: 0,
            }) && s@.wf(),
    {
        if valid_parameters(fps, duration_seconds) {
            Some(RecordingSession { output_dir, fps, duration_seconds, frames_written: 0 })
        } else {
            None
        }
    }

    /// Directory the recording is written under.
    pub fn output_dir(&self) -> (dir: &String)
        ensures
            dir@ == self@.output_dir,
    {
        &self.output_dir
    }

    /// Frames per second.
    pub fn fps(&self) -> (fps: u32)
        ensures
            fps == self@.fps,
            valid_fps(fps as nat),
    {
        proof {
            use_type_invariant(self);
        }
        self.fps
    }

    /// Length of the recording in seconds.
    pub fn duration_seconds(&self) -> (seconds: u32)
        ensures
            seconds == self@.duration_seconds,
            valid_duration(seconds as nat),
    {
        proof {
            use_type_invariant(self);
        }
        self.duration_seconds
    }

    /// Frames written to the sink so far.
    pub fn frames_written(&self) -> (n: u32)
        ensures
            n == self@.frames_written,
            n <= self@.budget(),
    {
        proof {
            use_type_invariant(self);
        }
        self.frames_written
    }

    /// Frames the whole recording holds.
    pub fn budget(&self) -> (n: u32)
        ensures
            n == self@.budget(),
            1 <= n <= 18000,
    {
        proof {
            use_type_invariant(self);
            lemma_budget_bound(self.fps as nat, self.duration_seconds as nat);
        }
        self.fps * self.duration_seconds
    }

    /// Time between two frames, in whole microseconds.
    pub fn frame_period(&self) -> (micros: u32)
        ensures
            micros == frame_period_micros(self@.fps),
    {
        proof {
            use_type_invariant(self);
        }
        1_000_000u32 / self.fps
    }

    /// Tells whether the recording has run its time.
    pub fn is_complete(&self) -> (done: bool)
        ensures
            done == self@.complete(),
            done == duration_elapsed(
                self@.frames_written,
                self@.fps,
                self@.duration_seconds,
            ),
            self@.wf(),
    {
        proof {
            use_type_invariant(self);
            lemma_complete_iff_duration_elapsed(self@);
        }
        self.frames_written >= self.budget()
    }

    /// Counts one frame as written, unless the recording is complete.
    pub fn record_frame(&mut self)
        ensures
            final(self)@ == old(self)@.record_frame(),
            final(self)@.wf(),
    {
        proof {
            use_type_invariant(&*self);
            lemma_budget_bound(self.fps as nat, self.duration_seconds as nat);
        }
        if !self.is_complete() {
            self.frames_written = self.frames_written + 1;
        }
    }
}

impl Clone for RecordingSession {
    /// A session with the same parameters and the same count.
    fn clone(&self) -> (copy: RecordingSession)
        ensures
            copy@ == self@,
    {
        proof {
            use_type_invariant(self);
        }
        RecordingSession {
            output_dir: self.output_dir.clone(),
            fps: self.fps,
            duration_seconds: self.duration_seconds,
            frames_written: self.frames_written,
        }
    }
}

} // verus!
