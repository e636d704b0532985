//! The dual-camera recorder: one or two capture workers under a single
//! start and stop, with all-or-nothing activation of a pair.
//!
//! Like the workers it owns, the recorder only decides. Its surroundings
//! perform what it asks for, side by side, and report back through
//! [`DualCameraRecorder::handle`].

use vstd::prelude::*;
use crate::frame::{frame_view, Frame, FrameView};
use crate::session::{valid_duration, valid_fps, RecordingSession, SessionView};
use crate::worker::{
    session_view, CaptureWorker, SourceEvent, SourceEventView, SourceKind, WorkerAction,
    WorkerFault, WorkerOutput, WorkerState, WorkerView,
};

verus! {

/// Width in pixels of the frames a recorder made with `new` expects.
pub const DEFAULT_WIDTH: u32 = 640;

/// Height in pixels of the frames a recorder made with `new` expects.
pub const DEFAULT_HEIGHT: u32 = 480;

/// The devices to record from.
#[derive(Clone, Copy, PartialEq, Eq, Structural, Debug)]
pub enum CameraSource {
    /// One camera; it is the left side.
    Single(u32),
    /// Two cameras: the left one, then the right one.
    Dual(u32, u32),
}

/// One of the two sides of a recorder.
#[derive(Clone, Copy, PartialEq, Eq, Structural, Debug)]
pub enum Side {
    Left,
    Right,
}

/// Why a recording did not start.
#[derive(Clone, Copy, PartialEq, Eq, Structural, Debug)]
pub enum RecorderError {
    /// The frame rate or the duration is out of range.
    InvalidParameter,
    /// The device could not be opened, or the recorder is busy with it.
    SourceUnavailable(u32),
    /// The device was opened but delivered nothing in time.
    StartTimeout(u32),
    /// One device of a pair failed to start; the other was stopped.
    PartialStartFailure(u32),
}

impl CameraSource {
    /// The device of a side, if the source has that side.
    pub open spec fn device(self, side: Side) -> Option<u32> {
        match (self, side) {
            (CameraSource::Single(d), Side::Left) => Some(d),
            (CameraSource::Single(_), Side::Right) => None,
            (CameraSource::Dual(l, _), Side::Left) => Some(l),
            (CameraSource::Dual(_, r), Side::Right) => Some(r),
        }
    }

    /// The device that is opened first.
    pub open spec fn first_device(self) -> u32 {
        match self {
            CameraSource::Single(d) => d,
            CameraSource::Dual(l, _) => l,
        }
    }

    /// The device of a side, if the source has that side.
    pub fn device_of(&self, side: Side) -> (device: Option<u32>)
        ensures
            device == self.device(side),
    {
        match (*self, side) {
            (CameraSource::Single(d), Side::Left) => Some(d),
            (CameraSource::Single(_), Side::Right) => None,
            (CameraSource::Dual(l, _), Side::Left) => Some(l),
            (CameraSource::Dual(_, r), Side::Right) => Some(r),
        }
    }
}

/// The other side.
pub open spec fn opposite(side: Side) -> Side {
    match side {
        Side::Left => Side::Right,
        Side::Right => Side::Left,
    }
}

/// The error that reports a failed start of `side`: for a pair the partial
/// failure naming the device of that side, for a single camera what went
/// wrong with it.
pub open spec fn start_error(source: CameraSource, side: Side, fault: Option<WorkerFault>)
    -> RecorderError {
    match source {
        CameraSource::Single(d) => {
            if fault == Some(WorkerFault::StartTimeout) {
                RecorderError::StartTimeout(d)
            } else {
                RecorderError::SourceUnavailable(d)
            }
        },
        CameraSource::Dual(l, r) => match side {
            Side::Left => RecorderError::PartialStartFailure(l),
            Side::Right => RecorderError::PartialStartFailure(r),
        },
    }
}

/// A recorder as plain values.
pub struct RecorderView {
    pub left: WorkerView,
    pub right: WorkerView,
    /// The devices of the recording in progress.
    pub source: Option<CameraSource>,
    /// The side whose start is under way.
    pub activating: Option<Side>,
    /// The session kept for the right side until the left one runs.
    pub reserve: Option<SessionView>,
}

/// A recorder after a step, with what it asks for on each side, the frame
/// that goes to the sink of the side that reported, and the verdict on the
/// start where the step settles it.
pub struct RecorderStepView {
    pub recorder: RecorderView,
    pub left_action: WorkerAction,
    pub right_action: WorkerAction,
    pub to_sink: Option<FrameView>,
    pub verdict: Option<Result<(), RecorderError>>,
}

impl RecorderView {
    /// The worker of a side.
    pub open spec fn worker(self, side: Side) -> WorkerView {
        match side {
            Side::Left => self.left,
            Side::Right => self.right,
        }
    }

    /// The recorder with the worker of a side replaced.
    pub open spec fn with_worker(self, side: Side, worker: WorkerView) -> RecorderView {
        match side {
            Side::Left => RecorderView { left: worker, ..self },
            Side::Right => RecorderView { right: worker, ..self },
        }
    }

    /// A recorder that never recorded.
    pub open spec fn initial(width: nat, height: nat) -> RecorderView {
        RecorderView {
            left: WorkerView::initial(SourceKind::LiveCamera, width, height),
            right: WorkerView::initial(SourceKind::LiveCamera, width, height),
            source: None,
            activating: None,
            reserve: None,
        }
    }

    /// The states a recorder can be in.
    pub open spec fn wf(self) -> bool {
        &&& self.left.wf()
        &&& self.right.wf()
        &&& self.activating matches Some(side) ==> {
            &&& self.source is Some
            &&& self.worker(side).state == WorkerState::Starting
            &&& self.worker(side).session matches Some(s) && !s.complete()
        }
        &&& self.reserve matches Some(s) ==> {
            &&& s.wf()
            &&& !s.complete()
            &&& self.activating == Some(Side::Left)
            &&& self.source matches Some(CameraSource::Dual(_, _))
            &&& self.right.state == WorkerState::Idle
        }
    }

    /// Both workers are idle.
    pub open spec fn at_rest(self) -> bool {
        self.left.state == WorkerState::Idle && self.right.state == WorkerState::Idle
    }

    /// At least one worker is capturing into a recording that still takes
    /// frames.
    pub open spec fn is_recording(self) -> bool {
        self.left.is_recording() || self.right.is_recording()
    }

    /// The step that changes nothing and asks for nothing.
    pub open spec fn ignore(self) -> RecorderStepView {
        RecorderStepView {
            recorder: self,
            left_action: WorkerAction::Nothing,
            right_action: WorkerAction::Nothing,
            to_sink: None,
            verdict: None,
        }
    }

    /// The session a recording starts each side with.
    pub open spec fn fresh_session(output_dir: Seq<char>, fps: nat, duration_seconds: nat)
        -> SessionView {
        SessionView { output_dir, fps, duration_seconds, frames_written: 0 }
    }

    /// A request to record. Parameters out of range are refused before
    /// anything else is looked at, and a recorder with a worker not at rest
    /// is busy. Otherwise the left worker is started, and the session for the
    /// right one of a pair is put aside.
    pub open spec fn start_recording(
        self,
        source: CameraSource,
        output_dir: Seq<char>,
        fps: nat,
        duration_seconds: nat,
    ) -> Result<RecorderStepView, RecorderError> {
        if !(valid_fps(fps) && valid_duration(duration_seconds)) {
            Err(RecorderError::InvalidParameter)
        } else if !self.at_rest() {
            Err(RecorderError::SourceUnavailable(source.first_device()))
        } else {
            let session = Self::fresh_session(output_dir, fps, duration_seconds);
            let step = self.left.start(Some(session));
            Ok(
                RecorderStepView {
                    recorder: RecorderView {
                        left: step.worker,
                        right: self.right,
                        source: Some(source),
                        activating: Some(Side::Left),
                        reserve: if source is Dual {
                            Some(session)
                        } else {
                            None
                        },
                    },
                    left_action: step.action,
                    right_action: WorkerAction::Nothing,
                    to_sink: None,
                    verdict: None,
                },
            )
        }
    }

    /// A request to stop: both workers are asked to stop, the left one first,
    /// and a start under way is given up.
    pub open spec fn stop_recording(self) -> RecorderStepView {
        RecorderStepView {
            recorder: RecorderView {
                left: self.left.stop().worker,
                right: self.right.stop().worker,
                source: None,
                activating: None,
                reserve: None,
            },
            left_action: self.left.stop().action,
            right_action: self.right.stop().action,
            to_sink: None,
            verdict: None,
        }
    }

    /// The step for an event that only concerns the worker it is about.
    pub open spec fn pass_on(self, side: Side, event: SourceEventView) -> RecorderStepView {
        let step = self.worker(side).handle(event);
        RecorderStepView {
            recorder: self.with_worker(side, step.worker),
            left_action: if side == Side::Left {
                step.action
            } else {
                WorkerAction::Nothing
            },
            right_action: if side == Side::Right {
                step.action
            } else {
                WorkerAction::Nothing
            },
            to_sink: step.to_sink,
            verdict: None,
        }
    }

    /// What the recorder makes of an event on one side. Away from the side
    /// that is being started the event goes to its worker and that is all.
    /// On that side, a worker that now runs either lets the right one of a
    /// pair start or settles the start as a success; a worker that gave up
    /// settles it as a failure and has the other side stopped.
    pub open spec fn handle(self, side: Side, event: SourceEventView) -> RecorderStepView {
        let passed = self.pass_on(side, event);
        let worker = passed.recorder.worker(side);
        if self.activating != Some(side) || self.source is None {
            passed
        } else if worker.state == WorkerState::Starting {
            passed
        } else if worker.state == WorkerState::Running {
            if side == Side::Left && self.reserve is Some {
                let begun = self.right.start(self.reserve);
                RecorderStepView {
                    recorder: RecorderView {
                        right: begun.worker,
                        activating: Some(Side::Right),
                        reserve: None,
                        ..passed.recorder
                    },
                    right_action: begun.action,
                    ..passed
                }
            } else {
                RecorderStepView {
                    recorder: RecorderView { activating: None, reserve: None, ..passed.recorder },
                    verdict: Some(Ok(())),
                    ..passed
                }
            }
        } else {
            let other = self.worker(opposite(side)).stop();
            let halted = passed.recorder.with_worker(opposite(side), other.worker);
            RecorderStepView {
                recorder: RecorderView {
                    source: None,
                    activating: None,
                    reserve: None,
                    ..halted
                },
                left_action: if side == Side::Left {
                    passed.left_action
                } else {
                    other.action
                },
                right_action: if side == Side::Right {
                    passed.right_action
                } else {
                    other.action
                },
                to_sink: passed.to_sink,
                verdict: Some(Err(start_error(self.source->0, side, worker.fault))),
            }
        }
    }
}

impl RecorderView {
    /// The recorder after a run of pulls on one side that returned `frames`,
    /// first to last.
    pub open spec fn feed(self, side: Side, frames: Seq<Seq<u8>>) -> RecorderView
        decreases frames.len(),
    {
        if frames.len() == 0 {
            self
        } else {
            self.feed(side, frames.drop_last()).handle(
                side,
                SourceEventView::FramePulled(frames.last()),
            ).recorder
        }
    }

    /// The recorder once the start of every device of `source` went well: the
    /// request, then for each side in turn the reports that its source was
    /// opened and that it delivers.
    pub open spec fn activate(
        self,
        source: CameraSource,
        output_dir: Seq<char>,
        fps: nat,
        duration_seconds: nat,
    ) -> RecorderStepView
        recommends
            self.start_recording(source, output_dir, fps, duration_seconds) is Ok,
    {
        let asked = self.start_recording(source, output_dir, fps, duration_seconds)->Ok_0;
        let left_open = asked.recorder.handle(Side::Left, SourceEventView::Opened);
        let left_runs = left_open.recorder.handle(Side::Left, SourceEventView::Confirmed);
        if source is Dual {
            let right_open = left_runs.recorder.handle(Side::Right, SourceEventView::Opened);
            right_open.recorder.handle(Side::Right, SourceEventView::Confirmed)
        } else {
            left_runs
        }
    }
}

/// A recorder that never recorded is well formed, at rest, and shows no
/// frame on either side.
pub proof fn lemma_initial_recorder(width: nat, height: nat)
    ensures
        RecorderView::initial(width, height).wf(),
        RecorderView::initial(width, height).at_rest(),
        !RecorderView::initial(width, height).is_recording(),
        RecorderView::initial(width, height).left.slot is None,
        RecorderView::initial(width, height).right.slot is None,
{
}

/// A request to record succeeds exactly on parameters in range and a
/// recorder at rest, and then keeps the recorder well formed.
pub proof fn lemma_start_recording(
    r: RecorderView,
    source: CameraSource,
    output_dir: Seq<char>,
    fps: nat,
    duration_seconds: nat,
)
    requires
        r.wf(),
    ensures
        r.start_recording(source, output_dir, fps, duration_seconds) is Ok <==> valid_fps(fps)
            && valid_duration(duration_seconds) && r.at_rest(),
        !(valid_fps(fps) && valid_duration(duration_seconds)) ==> r.start_recording(
            source,
            output_dir,
            fps,
            duration_seconds,
        ) == Err::<RecorderStepView, RecorderError>(RecorderError::InvalidParameter),
        r.start_recording(source, output_dir, fps, duration_seconds) matches Ok(step) ==> {
            &&& step.recorder.wf()
            &&& step.left_action == WorkerAction::OpenSource
            &&& step.right_action == WorkerAction::Nothing
        },
{
    if valid_fps(fps) && valid_duration(duration_seconds) {
        crate::session::lemma_budget_bound(fps, duration_seconds);
    }
}

/// Whatever is reported on either side, the recorder stays well formed.
pub proof fn lemma_handle_preserves_wf(r: RecorderView, side: Side, event: SourceEventView)
    requires
        r.wf(),
    ensures
        r.handle(side, event).recorder.wf(),
{
    crate::worker::lemma_handle_preserves_wf(r.worker(side), event);
    crate::worker::lemma_stop_preserves_wf(r.worker(opposite(side)));
}

/// Stopping keeps the recorder well formed and leaves nothing recording and
/// no worker capturing or starting.
pub proof fn lemma_stop_recording(r: RecorderView)
    requires
        r.wf(),
    ensures
        r.stop_recording().recorder.wf(),
        !r.stop_recording().recorder.is_recording(),
        r.stop_recording().recorder.left.state == WorkerState::Idle
            || r.stop_recording().recorder.left.state == WorkerState::Stopping,
        r.stop_recording().recorder.right.state == WorkerState::Idle
            || r.stop_recording().recorder.right.state == WorkerState::Stopping,
        r.stop_recording().recorder.left.slot == r.left.slot,
        r.stop_recording().recorder.right.slot == r.right.slot,
{
}

/// Stopping twice in a row leaves the recorder as stopping once does, and
/// the second time asks for nothing.
pub proof fn lemma_stop_recording_idempotent(r: RecorderView)
    ensures
        r.stop_recording().recorder.stop_recording().recorder == r.stop_recording().recorder,
        r.stop_recording().recorder.stop_recording() == r.stop_recording().recorder.ignore(),
{
}

/// When a step settles the start as a success, the recorder is recording.
pub proof fn lemma_started_means_recording(r: RecorderView, side: Side, event: SourceEventView)
    requires
        r.wf(),
        r.handle(side, event).verdict == Some(Ok::<(), RecorderError>(())),
    ensures
        r.handle(side, event).recorder.is_recording(),
        r.handle(side, event).recorder.worker(side).is_recording(),
        r.handle(side, event).recorder.activating is None,
{
}

/// With a frame rate and a duration in range and every device starting
/// well, a recorder at rest ends up recording: the start is settled as a
/// success, each side of the source captures, and either side is asked to
/// pull.
pub proof fn lemma_activation_starts_recording(
    r: RecorderView,
    source: CameraSource,
    output_dir: Seq<char>,
    fps: nat,
    duration_seconds: nat,
)
    requires
        r.wf(),
        r.at_rest(),
        valid_fps(fps),
        valid_duration(duration_seconds),
    ensures
        r.start_recording(source, output_dir, fps, duration_seconds) is Ok,
        ({
            let done = r.activate(source, output_dir, fps, duration_seconds);
            &&& done.verdict == Some(Ok::<(), RecorderError>(()))
            &&& done.recorder.wf()
            &&& done.recorder.is_recording()
            &&& done.recorder.left.is_recording()
            &&& done.recorder.left.frames_left() == fps * duration_seconds
            &&& source is Dual ==> done.recorder.right.is_recording()
                && done.recorder.right.frames_left() == fps * duration_seconds
            &&& source is Single ==> done.recorder.right.state == WorkerState::Idle
            &&& done.recorder.source == Some(source)
            &&& done.recorder.activating is None
            &&& done.recorder.left.next_sequence == r.left.next_sequence
            &&& done.recorder.right.next_sequence == r.right.next_sequence
            &&& done.recorder.left.width == r.left.width
            &&& done.recorder.left.height == r.left.height
            &&& done.recorder.right.width == r.right.width
            &&& done.recorder.right.height == r.right.height
        }),
{
    crate::session::lemma_budget_bound(fps, duration_seconds);
}

/// A recording runs its time and no longer. On a recorder at rest, once
/// every device of the source started well, a side that pulls whole frames
/// records for as long as fewer frames came than the rate times the
/// duration, and no longer once that many came, though nobody asked it to
/// stop; with a single camera the recorder then records no more. The side
/// must have sequence numbers left for these frames.
pub proof fn lemma_recording_runs_its_time(
    r: RecorderView,
    source: CameraSource,
    output_dir: Seq<char>,
    fps: nat,
    duration_seconds: nat,
    side: Side,
    frames: Seq<Seq<u8>>,
)
    requires
        r.wf(),
        r.at_rest(),
        valid_fps(fps),
        valid_duration(duration_seconds),
        source.device(side) is Some,
        frames.len() == fps * duration_seconds,
        r.worker(side).next_sequence + frames.len() <= crate::worker::last_sequence() + 1,
        forall|i: int|
            0 <= i < frames.len() ==> (#[trigger] frames[i]).len() == crate::frame::frame_len(
                r.worker(side).width,
                r.worker(side).height,
            ),
    ensures
        ({
            let started = r.activate(source, output_dir, fps, duration_seconds).recorder;
            &&& started.is_recording()
            &&& forall|k: int|
                0 <= k < frames.len() ==> (#[trigger] started.feed(
                    side,
                    frames.take(k),
                )).is_recording()
            &&& !started.feed(side, frames).worker(side).is_recording()
            &&& source is Single ==> !started.feed(side, frames).is_recording()
        }),
{
    lemma_activation_starts_recording(r, source, output_dir, fps, duration_seconds);
    let started = r.activate(source, output_dir, fps, duration_seconds).recorder;
    lemma_recording_stops_by_itself(started, side, frames);
}

/// On a recorder that never recorded, a recording runs its time and no
/// longer, whatever the rate and the duration within their limits: no
/// sequence number can run out before the last frame.
pub proof fn lemma_first_recording_runs_its_time(
    width: nat,
    height: nat,
    source: CameraSource,
    output_dir: Seq<char>,
    fps: nat,
    duration_seconds: nat,
    side: Side,
    frames: Seq<Seq<u8>>,
)
    requires
        valid_fps(fps),
        valid_duration(duration_seconds),
        source.device(side) is Some,
        frames.len() == fps * duration_seconds,
        forall|i: int|
            0 <= i < frames.len() ==> (#[trigger] frames[i]).len() == crate::frame::frame_len(
                width,
                height,
            ),
    ensures
        ({
            let started = RecorderView::initial(width, height).activate(
                source,
                output_dir,
                fps,
                duration_seconds,
            ).recorder;
            &&& started.is_recording()
            &&& forall|k: int|
                0 <= k < frames.len() ==> (#[trigger] started.feed(
                    side,
                    frames.take(k),
                )).is_recording()
            &&& !started.feed(side, frames).worker(side).is_recording()
            &&& source is Single ==> !started.feed(side, frames).is_recording()
        }),
{
    crate::session::lemma_budget_bound(fps, duration_seconds);
    lemma_recording_runs_its_time(
        RecorderView::initial(width, height),
        source,
        output_dir,
        fps,
        duration_seconds,
        side,
        frames,
    );
}

/// All or nothing. When the start of one device of a pair fails, the start
/// is settled as a partial failure naming that device, the other side is
/// asked to stop, and nothing is left recording, capturing or starting: a
/// side that still holds its source is asked to release it, unless it was
/// asked before.
pub proof fn lemma_partial_start_failure(r: RecorderView, side: Side, event: SourceEventView)
    requires
        r.wf(),
        r.source matches Some(CameraSource::Dual(_, _)),
        r.activating == Some(side),
        event is OpenFailed || event is StartTimedOut,
        r.worker(side).holds_source == (event is StartTimedOut),
    ensures
        ({
            let step = r.handle(side, event);
            &&& r.source->0.device(side) matches Some(device) && step.verdict == Some(
                Err::<(), RecorderError>(RecorderError::PartialStartFailure(device)),
            )
            &&& !step.recorder.is_recording()
            &&& step.recorder.left.state == WorkerState::Idle || step.recorder.left.state
                == WorkerState::Stopping
            &&& step.recorder.right.state == WorkerState::Idle || step.recorder.right.state
                == WorkerState::Stopping
            &&& step.recorder.left.holds_source ==> step.left_action
                == WorkerAction::ReleaseSource || r.left.state == WorkerState::Stopping
            &&& step.recorder.right.holds_source ==> step.right_action
                == WorkerAction::ReleaseSource || r.right.state == WorkerState::Stopping
            &&& step.recorder.activating is None
        }),
{
}

/// A start that fails is always settled with an error that names a device
/// of the source, and leaves nothing recording.
pub proof fn lemma_failed_start_leaves_nothing_recording(
    r: RecorderView,
    side: Side,
    event: SourceEventView,
)
    requires
        r.wf(),
        r.handle(side, event).verdict matches Some(Err(_)),
    ensures
        !r.handle(side, event).recorder.is_recording(),
        r.handle(side, event).recorder.left.state != WorkerState::Running,
        r.handle(side, event).recorder.right.state != WorkerState::Running,
        r.handle(side, event).recorder.left.state != WorkerState::Starting,
        r.handle(side, event).recorder.right.state != WorkerState::Starting,
{
}

/// Away from a start under way, pulls on one side are the business of that
/// side's worker alone.
pub proof fn lemma_feed_is_worker_feed(r: RecorderView, side: Side, frames: Seq<Seq<u8>>)
    requires
        r.activating != Some(side),
    ensures
        r.feed(side, frames) == r.with_worker(side, r.worker(side).feed(frames)),
    decreases frames.len(),
{
    if frames.len() > 0 {
        lemma_feed_is_worker_feed(r, side, frames.drop_last());
        let mid = r.feed(side, frames.drop_last());
        assert(r.feed(side, frames) == mid.pass_on(
            side,
            SourceEventView::FramePulled(frames.last()),
        ).recorder);
    } else {
        assert(r.with_worker(side, r.worker(side)) == r);
    }
}

/// A recording ends by itself. Once a side has pulled as many whole frames
/// as its recording had left, that side records no longer, though nobody
/// asked it to stop; when the other side is not recording either, the
/// recorder is not.
pub proof fn lemma_recording_stops_by_itself(r: RecorderView, side: Side, frames: Seq<Seq<u8>>)
    requires
        r.wf(),
        r.activating != Some(side),
        r.worker(side).is_recording(),
        frames.len() == r.worker(side).frames_left(),
        r.worker(side).next_sequence + frames.len() <= crate::worker::last_sequence() + 1,
        forall|i: int|
            0 <= i < frames.len() ==> (#[trigger] frames[i]).len() == crate::frame::frame_len(
                r.worker(side).width,
                r.worker(side).height,
            ),
    ensures
        !r.feed(side, frames).worker(side).is_recording(),
        r.feed(side, frames).worker(side).state == WorkerState::Stopping,
        r.feed(side, frames).worker(opposite(side)) == r.worker(opposite(side)),
        !r.worker(opposite(side)).is_recording() ==> !r.feed(side, frames).is_recording(),
        forall|k: int|
            0 <= k < frames.len() ==> (#[trigger] r.feed(side, frames.take(k))).worker(
                side,
            ).is_recording(),
{
    lemma_feed_is_worker_feed(r, side, frames);
    crate::worker::lemma_recording_ends_with_budget(r.worker(side), frames);
    assert forall|k: int| 0 <= k < frames.len() implies (#[trigger] r.feed(
        side,
        frames.take(k),
    )).worker(side).is_recording() by {
        let head = frames.take(k);
        lemma_feed_is_worker_feed(r, side, head);
        assert forall|i: int| 0 <= i < head.len() implies (#[trigger] head[i]).len()
            == crate::frame::frame_len(r.worker(side).width, r.worker(side).height) by {
            assert(head[i] == frames[i]);
        }
        crate::worker::lemma_recording_ends_with_budget(r.worker(side), head);
    }
}

/// The frame a side shows changes only when that side pulls a frame.
pub proof fn lemma_preview_changes_only_on_pull(r: RecorderView, side: Side, event: SourceEventView)
    requires
        r.wf(),
    ensures
        r.handle(side, event).recorder.worker(opposite(side)).slot == r.worker(
            opposite(side),
        ).slot,
        !(event is FramePulled) || r.worker(side).state != WorkerState::Running ==> r.handle(
            side,
            event,
        ).recorder.worker(side).slot == r.worker(side).slot,
        r.stop_recording().recorder.left.slot == r.left.slot,
        r.stop_recording().recorder.right.slot == r.right.slot,
{
}

/// What a recorder answers to a step.
#[derive(Debug)]
pub struct RecorderOutput {
    /// What to do next on the left side.
    pub left_action: WorkerAction,
    /// What to do next on the right side.
    pub right_action: WorkerAction,
    /// The frame to append to the sink of the side that reported.
    pub to_sink: Option<Frame>,
    /// The outcome of the start, in the step that settles it.
    pub verdict: Option<Result<(), RecorderError>>,
}

impl RecorderOutput {
    /// This answer is the one the model gives.
    pub open spec fn agrees(self, step: RecorderStepView) -> bool {
        &&& self.left_action == step.left_action
        &&& self.right_action == step.right_action
        &&& frame_view(self.to_sink) == step.to_sink
        &&& self.to_sink matches Some(f) ==> f@.wf()
        &&& self.verdict == step.verdict
    }
}

/// Records from one camera or from a pair, and shows the latest frame of
/// each side.
pub struct DualCameraRecorder {
    left: CaptureWorker,
    right: CaptureWorker,
    source: Option<CameraSource>,
    activating: Option<Side>,
    reserve: Option<RecordingSession>,
}

impl View for DualCameraRecorder {
    type V = RecorderView;

    closed spec fn view(&self) -> RecorderView {
        RecorderView {
            left: self.left@,
            right: self.right@,
            source: self.source,
            activating: self.activating,
            reserve: session_view(self.reserve),
        }
    }
}

/// The error that reports a failed start of `side`.
pub fn start_error_for(source: CameraSource, side: Side, fault: Option<WorkerFault>) -> (error:
    RecorderError)
    ensures
        error == start_error(source, side, fault),
{
    match source {
        CameraSource::Single(d) => match fault {
            Some(WorkerFault::StartTimeout) => RecorderError::StartTimeout(d),
            _ => RecorderError::SourceUnavailable(d),
        },
        CameraSource::Dual(l, r) => match side {
            Side::Left => RecorderError::PartialStartFailure(l),
            Side::Right => RecorderError::PartialStartFailure(r),
        },
    }
}

impl DualCameraRecorder {
    #[verifier::type_invariant]
    spec fn well_formed(self) -> bool {
        self@.wf()
    }

    /// A recorder at rest for frames of 640 by 480 pixels.
    pub fn new() -> (recorder: DualCameraRecorder)
        ensures
            recorder@ == RecorderView::initial(DEFAULT_WIDTH as nat, DEFAULT_HEIGHT as nat),
            recorder@.wf(),
    {
        Self::with_resolution(DEFAULT_WIDTH, DEFAULT_HEIGHT)
    }

    /// A recorder at rest for frames of `width` by `height` pixels.
    pub fn with_resolution(width: u32, height: u32) -> (recorder: DualCameraRecorder)
        ensures
            recorder@ == RecorderView::initial(width as nat, height as nat),
            recorder@.wf(),
    {
        DualCameraRecorder {
            left: CaptureWorker::new(SourceKind::LiveCamera, width, height),
            right: CaptureWorker::new(SourceKind::LiveCamera, width, height),
            source: None,
            activating: None,
            reserve: None,
        }
    }

    /// Takes the recorder apart, leaving one at rest in its place until the
    /// parts are put back.
    fn take_apart(&mut self) -> (parts: (
        CaptureWorker,
        CaptureWorker,
        Option<CameraSource>,
        Option<Side>,
        Option<RecordingSession>,
    ))
        ensures
            old(self)@ == (RecorderView {
                left: parts.0@,
                right: parts.1@,
                source: parts.2,
                activating: parts.3,
                reserve: session_view(parts.4),
            }),
            old(self)@.wf(),
            parts.4 matches Some(s) ==> s@.wf(),
    {
        proof {
            use_type_invariant(&*self);
        }
        let mut taken = DualCameraRecorder::with_resolution(0, 0);
        std::mem::swap(self, &mut taken);
        let DualCameraRecorder { left, right, source, activating, reserve } = taken;
        (left, right, source, activating, reserve)
    }

    /// Asks for a recording from `source` of `duration_seconds` seconds at
    /// `fps` frames per second, written under `output_dir`. On success the
    /// answer says what to do first.
    pub fn start_recording(
        &mut self,
        source: CameraSource,
        output_dir: &str,
        fps: u32,
        duration_seconds: u32,
    ) -> (result: Result<RecorderOutput, RecorderError>)
        ensures
            match old(self)@.start_recording(
                source,
                output_dir@,
                fps as nat,
                duration_seconds as nat,
            ) {
                Ok(step) => {
                    &&& result matches Ok(out) && out.agrees(step)
                    &&& final(self)@ == step.recorder
                },
                Err(error) => {
                    &&& result matches Err(e) && e == error
                    &&& final(self)@ == old(self)@
                },
            },
            old(self)@.wf(),
            final(self)@.wf(),
    {
        proof {
            use_type_invariant(&*self);
            lemma_start_recording(
                self@,
                source,
                output_dir@,
                fps as nat,
                duration_seconds as nat,
            );
        }
        let first = match source {
            CameraSource::Single(d) => d,
            CameraSource::Dual(l, _) => l,
        };
        let at_rest = self.left.state() == WorkerState::Idle && self.right.state()
            == WorkerState::Idle;
        match RecordingSession::new(output_dir.to_owned(), fps, duration_seconds) {
            None => Err(RecorderError::InvalidParameter),
            Some(session) => {
                if !at_rest {
                    return Err(RecorderError::SourceUnavailable(first));
                }
                let reserve = match source {
                    CameraSource::Single(_) => None,
                    CameraSource::Dual(_, _) => Some(session.clone()),
                };
                let (mut left, right, _, _, _) = self.take_apart();
                let left_action = left.start(Some(session));
                *self = DualCameraRecorder {
                    left,
                    right,
                    source: Some(source),
                    activating: Some(Side::Left),
                    reserve,
                };
                Ok(
                    RecorderOutput {
                        left_action,
                        right_action: WorkerAction::Nothing,
                        to_sink: None,
                        verdict: None,
                    },
                )
            },
        }
    }

    /// Stops whatever is running, the left side first. Stopping again changes
    /// nothing.
    pub fn stop_recording(&mut self) -> (out: RecorderOutput)
        ensures
            final(self)@ == old(self)@.stop_recording().recorder,
            out.agrees(old(self)@.stop_recording()),
            old(self)@.wf(),
            final(self)@.wf(),
    {
        let (mut left, mut right, _, _, _) = self.take_apart();
        let left_action = left.stop();
        let right_action = right.stop();
        *self = DualCameraRecorder { left, right, source: None, activating: None, reserve: None };
        RecorderOutput { left_action, right_action, to_sink: None, verdict: None }
    }

    /// Tells whether at least one side is capturing into a recording that
    /// still takes frames. Every recorder is well formed, whatever was done
    /// with it.
    pub fn is_recording(&self) -> (recording: bool)
        ensures
            recording == self@.is_recording(),
            self@.wf(),
    {
        proof {
            use_type_invariant(self);
        }
        self.left.is_recording() || self.right.is_recording()
    }

    /// A copy of the latest frame of the left side, if there ever was one.
    pub fn get_left_frame(&self) -> (frame: Option<Frame>)
        ensures
            frame_view(frame) == self@.left.slot,
            frame matches Some(f) ==> f@.wf(),
            self@.wf(),
    {
        proof {
            use_type_invariant(self);
        }
        self.left.latest_frame()
    }

    /// A copy of the latest frame of the right side, if there ever was one.
    pub fn get_right_frame(&self) -> (frame: Option<Frame>)
        ensures
            frame_view(frame) == self@.right.slot,
            frame matches Some(f) ==> f@.wf(),
            self@.wf(),
    {
        proof {
            use_type_invariant(self);
        }
        self.right.latest_frame()
    }

    /// The device that a side of the recording in progress captures from.
    pub fn device(&self, side: Side) -> (device: Option<u32>)
        ensures
            device == match self@.source {
                Some(source) => source.device(side),
                None => None,
            },
    {
        match &self.source {
            Some(source) => source.device_of(side),
            None => None,
        }
    }

    /// Time between two frames of the recording of a side, in whole
    /// microseconds, if that side has a recording.
    pub fn frame_period(&self, side: Side) -> (micros: Option<u32>)
        ensures
            micros is Some <==> self@.worker(side).session is Some,
            micros matches Some(m) ==> m == crate::session::frame_period_micros(
                self@.worker(side).session->0.fps,
            ),
    {
        match side {
            Side::Left => self.left.frame_period(),
            Side::Right => self.right.frame_period(),
        }
    }

    /// Where the worker of a side stands.
    pub fn worker_state(&self, side: Side) -> (state: WorkerState)
        ensures
            state == self@.worker(side).state,
            self@.wf(),
    {
        proof {
            use_type_invariant(self);
        }
        match side {
            Side::Left => self.left.state(),
            Side::Right => self.right.state(),
        }
    }

    /// Why the last run of a side ended, if it ended badly.
    pub fn worker_fault(&self, side: Side) -> (fault: Option<WorkerFault>)
        ensures
            fault == self@.worker(side).fault,
    {
        match side {
            Side::Left => self.left.fault(),
            Side::Right => self.right.fault(),
        }
    }

    /// Tells the recorder what happened on one side and learns what to do
    /// next on each.
    pub fn handle(&mut self, side: Side, event: SourceEvent) -> (out: RecorderOutput)
        ensures
            final(self)@ == old(self)@.handle(side, event@).recorder,
            out.agrees(old(self)@.handle(side, event@)),
            old(self)@.wf(),
            final(self)@.wf(),
    {
        let (mut left, mut right, mut source, mut activating, mut reserve) = self.take_apart();
        proof {
            lemma_handle_preserves_wf(old(self)@, side, event@);
        }
        let starting_here = match activating {
            Some(s) => s == side,
            None => false,
        };
        let passed: WorkerOutput = match side {
            Side::Left => left.handle(event),
            Side::Right => right.handle(event),
        };
        let mut out = match side {
            Side::Left => RecorderOutput {
                left_action: passed.action,
                right_action: WorkerAction::Nothing,
                to_sink: passed.to_sink,
                verdict: None,
            },
            Side::Right => RecorderOutput {
                left_action: WorkerAction::Nothing,
                right_action: passed.action,
                to_sink: passed.to_sink,
                verdict: None,
            },
        };
        let state = match side {
            Side::Left => left.state(),
            Side::Right => right.state(),
        };
        match source {
            Some(devices) => {
                if starting_here && state == WorkerState::Running {
                    if side == Side::Left && reserve.is_some() {
                        let mut session: Option<RecordingSession> = None;
                        std::mem::swap(&mut session, &mut reserve);
                        out.right_action = right.start(session);
                        activating = Some(Side::Right);
                    } else {
                        activating = None;
                        reserve = None;
                        out.verdict = Some(Ok(()));
                    }
                } else if starting_here && state != WorkerState::Starting {
                    match side {
                        Side::Left => {
                            out.verdict = Some(
                                Err(start_error_for(devices, side, left.fault())),
                            );
                            out.right_action = right.stop();
                        },
                        Side::Right => {
                            out.verdict = Some(
                                Err(start_error_for(devices, side, right.fault())),
                            );
                            out.left_action = left.stop();
                        },
                    }
                    source = None;
                    activating = None;
                    reserve = None;
                }
            },
            None => {},
        }
        *self = DualCameraRecorder { left, right, source, activating, reserve };
        out
    }
}

} // verus!
