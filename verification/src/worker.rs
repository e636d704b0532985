//! The capture worker: the life cycle of one frame source, driven by the
//! events its surroundings report and answering each with the next thing to
//! do.
//!
//! The worker never touches a device or a file itself. Whoever runs it opens,
//! pulls from and releases the source, appends to the sink, and tells the
//! worker what happened; the worker decides what follows.

use vstd::prelude::*;
use crate::frame::{frame_len, frame_view, is_frame_len, Frame, FrameSlot, FrameView};
use crate::session::{RecordingSession, SessionView};

verus! {

/// Seconds a source is given to deliver its first frame once it is open.
pub const START_GRACE_SECONDS: u64 = 5;

/// The two kinds of frame source.
#[derive(Clone, Copy, PartialEq, Eq, Structural, Debug)]
pub enum SourceKind {
    /// A capture device.
    LiveCamera,
    /// A video file played in a loop.
    LoopingFile,
}

/// Where a worker stands in its life cycle.
#[derive(Clone, Copy, PartialEq, Eq, Structural, Debug)]
pub enum WorkerState {
    /// Not capturing; no source is held.
    Idle,
    /// Asked to start; the source is being opened or has yet to deliver.
    Starting,
    /// Capturing frames.
    Running,
    /// Asked to stop, or stopping by itself; the source is yet to be released.
    Stopping,
}

/// Why a pull from the source failed.
#[derive(Clone, Copy, PartialEq, Eq, Structural, Debug)]
pub enum PullError {
    /// A glitch that the next pull may not see.
    Transient,
    /// What came back is unreadable as a frame.
    CorruptMedia,
    /// The source is gone or exhausted for good.
    SourceLost,
}

/// Why a worker's last run ended, where it did not end by request or by
/// running its time.
#[derive(Clone, Copy, PartialEq, Eq, Structural, Debug)]
pub enum WorkerFault {
    /// The source could not be opened.
    SourceUnavailable,
    /// The source was opened but delivered nothing within the grace period.
    StartTimeout,
    /// A pull failed in a way the worker does not absorb.
    SourceFailed,
    /// The sink refused a frame.
    SinkError,
    /// No sequence number is left for another frame.
    SequenceExhausted,
}

/// What the worker asks of its surroundings next.
#[derive(Clone, Copy, PartialEq, Eq, Structural, Debug)]
pub enum WorkerAction {
    /// Nothing.
    Nothing,
    /// Open the source, then report `Opened` or `OpenFailed`.
    OpenSource,
    /// Wait, within the grace period, for the source to deliver, then report
    /// `Confirmed` or `StartTimedOut`.
    AwaitFirstFrame,
    /// Pull the next frame, then report `FramePulled` or `PullFailed`.
    PullFrame,
    /// Release the source, close the sink if one was opened, then report
    /// `Released`.
    ReleaseSource,
}

/// What the surroundings report to a worker.
#[derive(Debug)]
pub enum SourceEvent {
    /// The source was opened.
    Opened,
    /// The source could not be opened.
    OpenFailed,
    /// The source delivers frames.
    Confirmed,
    /// The grace period ran out before the source delivered.
    StartTimedOut,
    /// A pull returned these pixel bytes.
    FramePulled(Vec<u8>),
    /// A pull failed.
    PullFailed(PullError),
    /// The sink refused the frame handed to it last.
    SinkFailed,
    /// The source was released.
    Released,
}

/// A source event as plain values.
pub enum SourceEventView {
    Opened,
    OpenFailed,
    Confirmed,
    StartTimedOut,
    FramePulled(Seq<u8>),
    PullFailed(PullError),
    SinkFailed,
    Released,
}

impl View for SourceEvent {
    type V = SourceEventView;

    open spec fn view(&self) -> SourceEventView {
        match self {
            SourceEvent::Opened => SourceEventView::Opened,
            SourceEvent::OpenFailed => SourceEventView::OpenFailed,
            SourceEvent::Confirmed => SourceEventView::Confirmed,
            SourceEvent::StartTimedOut => SourceEventView::StartTimedOut,
            SourceEvent::FramePulled(data) => SourceEventView::FramePulled(data@),
            SourceEvent::PullFailed(e) => SourceEventView::PullFailed(*e),
            SourceEvent::SinkFailed => SourceEventView::SinkFailed,
            SourceEvent::Released => SourceEventView::Released,
        }
    }
}

/// The model of a session that may be absent.
pub open spec fn session_view(session: Option<RecordingSession>) -> Option<SessionView> {
    match session {
        Some(s) => Some(s@),
        None => None,
    }
}

/// Whether a worker on a source of this kind carries on after such a failed
/// pull. A glitch is a dropped frame for either kind. An unreadable frame is
/// a dropped frame for a camera, but the end for a file, which is all the
/// data there is. A lost source is the end for either.
pub open spec fn absorbs(kind: SourceKind, error: PullError) -> bool {
    match error {
        PullError::Transient => true,
        PullError::CorruptMedia => kind == SourceKind::LiveCamera,
        PullError::SourceLost => false,
    }
}

/// The largest sequence number a frame can carry. The counter that follows it
/// has to fit as well.
pub open spec fn last_sequence() -> nat {
    (u64::MAX - 1) as nat
}

/// A worker as plain values.
pub struct WorkerView {
    pub kind: SourceKind,
    pub width: nat,
    pub height: nat,
    pub state: WorkerState,
    /// A source is open and in the worker's charge.
    pub holds_source: bool,
    /// The recording this worker writes, if any.
    pub session: Option<SessionView>,
    /// The number the next frame will carry.
    pub next_sequence: nat,
    /// The latest frame captured.
    pub slot: Option<FrameView>,
    /// Why the last run ended, if it ended badly.
    pub fault: Option<WorkerFault>,
}

/// A worker after a step, with what it asks for and the frame, if any, that
/// goes to the sink.
pub struct StepView {
    pub worker: WorkerView,
    pub action: WorkerAction,
    pub to_sink: Option<FrameView>,
}

impl WorkerView {
    /// The states a worker can be in.
    pub open spec fn wf(self) -> bool {
        &&& self.state == WorkerState::Idle ==> !self.holds_source && self.session is None
        &&& self.state == WorkerState::Running ==> self.holds_source
        &&& self.session matches Some(s) ==> s.wf()
        &&& self.slot matches Some(f) ==> {
            &&& f.wf()
            &&& f.width == self.width
            &&& f.height == self.height
            &&& f.sequence < self.next_sequence
        }
        &&& self.next_sequence <= u64::MAX
    }

    /// A worker that was never started.
    pub open spec fn initial(kind: SourceKind, width: nat, height: nat) -> WorkerView {
        WorkerView {
            kind,
            width,
            height,
            state: WorkerState::Idle,
            holds_source: false,
            session: None,
            next_sequence: 0,
            slot: None,
            fault: None,
        }
    }

    /// Capturing into a recording that still takes frames.
    pub open spec fn is_recording(self) -> bool {
        &&& self.state == WorkerState::Running
        &&& self.session matches Some(s) && !s.complete()
    }

    /// The step that changes nothing and asks for nothing.
    pub open spec fn ignore(self) -> StepView {
        StepView { worker: self, action: WorkerAction::Nothing, to_sink: None }
    }

    /// The step into `Stopping` that asks for the source to be released.
    pub open spec fn wind_down(self, fault: Option<WorkerFault>) -> StepView {
        StepView {
            worker: WorkerView { state: WorkerState::Stopping, fault, ..self },
            action: WorkerAction::ReleaseSource,
            to_sink: None,
        }
    }

    /// The worker at rest again: nothing held, no session.
    pub open spec fn at_rest(self, fault: Option<WorkerFault>) -> WorkerView {
        WorkerView {
            state: WorkerState::Idle,
            holds_source: false,
            session: None,
            fault,
            ..self
        }
    }

    /// A request to start, with the recording to write or none for preview
    /// only. An idle worker goes to `Starting` and asks for its source to be
    /// opened; any other worker takes no notice.
    pub open spec fn start(self, session: Option<SessionView>) -> StepView {
        if self.state == WorkerState::Idle {
            StepView {
                worker: WorkerView {
                    state: WorkerState::Starting,
                    holds_source: false,
                    session,
                    fault: None,
                    ..self
                },
                action: WorkerAction::OpenSource,
                to_sink: None,
            }
        } else {
            self.ignore()
        }
    }

    /// A request to stop. An idle or stopping worker takes no notice. A worker
    /// that holds its source asks for the release. A worker still waiting for
    /// its source to open goes to `Stopping` and waits for that answer.
    pub open spec fn stop(self) -> StepView {
        match self.state {
            WorkerState::Idle | WorkerState::Stopping => self.ignore(),
            WorkerState::Starting | WorkerState::Running => {
                if self.holds_source {
                    self.wind_down(self.fault)
                } else {
                    StepView {
                        worker: WorkerView { state: WorkerState::Stopping, ..self },
                        action: WorkerAction::Nothing,
                        to_sink: None,
                    }
                }
            },
        }
    }

    /// The source was opened.
    pub open spec fn on_opened(self) -> StepView {
        if self.holds_source {
            self.ignore()
        } else if self.state == WorkerState::Starting {
            StepView {
                worker: WorkerView { holds_source: true, ..self },
                action: WorkerAction::AwaitFirstFrame,
                to_sink: None,
            }
        } else if self.state == WorkerState::Stopping {
            StepView {
                worker: WorkerView { holds_source: true, ..self },
                action: WorkerAction::ReleaseSource,
                to_sink: None,
            }
        } else {
            self.ignore()
        }
    }

    /// The source could not be opened.
    pub open spec fn on_open_failed(self) -> StepView {
        if !self.holds_source && (self.state == WorkerState::Starting || self.state
            == WorkerState::Stopping) {
            StepView {
                worker: self.at_rest(Some(WorkerFault::SourceUnavailable)),
                action: WorkerAction::Nothing,
                to_sink: None,
            }
        } else {
            self.ignore()
        }
    }

    /// The source delivers.
    pub open spec fn on_confirmed(self) -> StepView {
        if self.holds_source && self.state == WorkerState::Starting {
            StepView {
                worker: WorkerView { state: WorkerState::Running, ..self },
                action: WorkerAction::PullFrame,
                to_sink: None,
            }
        } else {
            self.ignore()
        }
    }

    /// The grace period ran out.
    pub open spec fn on_start_timed_out(self) -> StepView {
        if self.holds_source && self.state == WorkerState::Starting {
            self.wind_down(Some(WorkerFault::StartTimeout))
        } else {
            self.ignore()
        }
    }

    /// A pull failed.
    pub open spec fn on_pull_failed(self, error: PullError) -> StepView {
        if self.state == WorkerState::Running {
            if absorbs(self.kind, error) {
                StepView { worker: self, action: WorkerAction::PullFrame, to_sink: None }
            } else {
                self.wind_down(Some(WorkerFault::SourceFailed))
            }
        } else {
            self.ignore()
        }
    }

    /// The frame that a running worker makes of a buffer of the right length.
    pub open spec fn stamp(self, pixels: Seq<u8>) -> FrameView {
        FrameView {
            pixels,
            width: self.width,
            height: self.height,
            sequence: self.next_sequence,
        }
    }

    /// A pull returned `pixels`. A worker that is not running drops them. A
    /// buffer of the wrong length counts as a failed pull with unreadable
    /// media. Otherwise the frame gets the next sequence number and becomes
    /// the latest frame; with a recording that still takes frames it also goes
    /// to the sink, and the worker winds down once the recording is complete.
    pub open spec fn on_frame_pulled(self, pixels: Seq<u8>) -> StepView {
        if self.state != WorkerState::Running {
            self.ignore()
        } else if pixels.len() != frame_len(self.width, self.height) {
            self.on_pull_failed(PullError::CorruptMedia)
        } else if self.next_sequence > last_sequence() {
            self.wind_down(Some(WorkerFault::SequenceExhausted))
        } else {
            let frame = self.stamp(pixels);
            let shown = WorkerView {
                slot: Some(frame),
                next_sequence: self.next_sequence + 1,
                ..self
            };
            match self.session {
                None => StepView { worker: shown, action: WorkerAction::PullFrame, to_sink: None },
                Some(s) => {
                    if s.complete() {
                        shown.wind_down(self.fault)
                    } else {
                        let written = WorkerView { session: Some(s.record_frame()), ..shown };
                        if s.record_frame().complete() {
                            StepView { to_sink: Some(frame), ..written.wind_down(self.fault) }
                        } else {
                            StepView {
                                worker: written,
                                action: WorkerAction::PullFrame,
                                to_sink: Some(frame),
                            }
                        }
                    }
                },
            }
        }
    }

    /// The sink refused a frame. That ends a running recording. It is noted
    /// on a worker that is already winding down, and of no interest
    /// otherwise.
    pub open spec fn on_sink_failed(self) -> StepView {
        if self.session is None || !self.holds_source {
            self.ignore()
        } else if self.state == WorkerState::Running {
            self.wind_down(Some(WorkerFault::SinkError))
        } else if self.state == WorkerState::Stopping {
            StepView {
                worker: WorkerView { fault: Some(WorkerFault::SinkError), ..self },
                action: WorkerAction::Nothing,
                to_sink: None,
            }
        } else {
            self.ignore()
        }
    }

    /// The source was released.
    pub open spec fn on_released(self) -> StepView {
        if self.holds_source && self.state == WorkerState::Stopping {
            StepView {
                worker: self.at_rest(self.fault),
                action: WorkerAction::Nothing,
                to_sink: None,
            }
        } else {
            self.ignore()
        }
    }

    /// What a worker makes of an event.
    pub open spec fn handle(self, event: SourceEventView) -> StepView {
        match event {
            SourceEventView::Opened => self.on_opened(),
            SourceEventView::OpenFailed => self.on_open_failed(),
            SourceEventView::Confirmed => self.on_confirmed(),
            SourceEventView::StartTimedOut => self.on_start_timed_out(),
            SourceEventView::FramePulled(pixels) => self.on_frame_pulled(pixels),
            SourceEventView::PullFailed(error) => self.on_pull_failed(error),
            SourceEventView::SinkFailed => self.on_sink_failed(),
            SourceEventView::Released => self.on_released(),
        }
    }
}

impl WorkerView {
    /// The worker after a run of pulls that returned `frames`, first to last.
    pub open spec fn feed(self, frames: Seq<Seq<u8>>) -> WorkerView
        decreases frames.len(),
    {
        if frames.len() == 0 {
            self
        } else {
            self.feed(frames.drop_last()).on_frame_pulled(frames.last()).worker
        }
    }

    /// Frames the recording still takes; zero without a recording.
    pub open spec fn frames_left(self) -> nat {
        match self.session {
            Some(s) => if s.complete() {
                0
            } else {
                (s.budget() - s.frames_written) as nat
            },
            None => 0,
        }
    }
}

/// Starting keeps a worker well formed.
pub proof fn lemma_start_preserves_wf(w: WorkerView, session: Option<SessionView>)
    requires
        w.wf(),
        session matches Some(s) ==> s.wf(),
    ensures
        w.start(session).worker.wf(),
{
}

/// Stopping keeps a worker well formed.
pub proof fn lemma_stop_preserves_wf(w: WorkerView)
    requires
        w.wf(),
    ensures
        w.stop().worker.wf(),
{
}

/// Whatever is reported, the worker stays well formed. In particular an idle
/// worker never holds a source.
pub proof fn lemma_handle_preserves_wf(w: WorkerView, event: SourceEventView)
    requires
        w.wf(),
    ensures
        w.handle(event).worker.wf(),
{
}

/// A second request to stop changes nothing and asks for nothing.
pub proof fn lemma_stop_idempotent(w: WorkerView)
    ensures
        w.stop().worker.stop().worker == w.stop().worker,
        w.stop().worker.stop().action == WorkerAction::Nothing,
        w.state == WorkerState::Idle ==> w.stop() == w.ignore(),
{
}

/// A request to stop leaves no worker capturing: it is idle already, or on
/// its way there with the release of its source asked for or pending.
pub proof fn lemma_stop_ends_capture(w: WorkerView)
    requires
        w.wf(),
    ensures
        w.stop().worker.state == WorkerState::Idle || w.stop().worker.state
            == WorkerState::Stopping,
        !w.stop().worker.is_recording(),
        w.holds_source && w.state != WorkerState::Stopping ==> w.stop().action
            == WorkerAction::ReleaseSource,
        w.stop().worker.slot == w.slot,
{
}

/// A worker that stops capturing on its own account asks for its source to
/// be released, and only the report of that release, or of a failed open,
/// brings a worker to rest.
pub proof fn lemma_release_on_every_exit(w: WorkerView, event: SourceEventView)
    requires
        w.wf(),
    ensures
        w.state == WorkerState::Running ==> {
            let step = w.handle(event);
            ||| step.worker.state == WorkerState::Running
            ||| step.worker.state == WorkerState::Stopping && step.action
                == WorkerAction::ReleaseSource && step.worker.holds_source
        },
        w.state != WorkerState::Idle && w.handle(event).worker.state == WorkerState::Idle ==> {
            ||| event is Released && w.holds_source
            ||| event is OpenFailed && !w.holds_source
        },
        w.state == WorkerState::Stopping && w.holds_source ==> w.handle(
            SourceEventView::Released,
        ).worker.state == WorkerState::Idle,
{
}

/// Sequence numbers only go up. A frame that reaches the slot carries the
/// number that was next, which is above that of every frame before it, and a
/// frame that goes to the sink is the one that reached the slot.
pub proof fn lemma_sequence_strictly_increases(w: WorkerView, event: SourceEventView)
    requires
        w.wf(),
    ensures
        w.handle(event).worker.next_sequence >= w.next_sequence,
        w.handle(event).worker.slot != w.slot ==> {
            &&& w.handle(event).worker.slot matches Some(f)
            &&& f.sequence == w.next_sequence
            &&& w.handle(event).worker.next_sequence == w.next_sequence + 1
            &&& w.slot matches Some(g) ==> g.sequence < f.sequence
        },
        w.handle(event).to_sink matches Some(f) ==> {
            &&& w.handle(event).worker.slot == Some(f)
            &&& f.sequence == w.next_sequence
            &&& w.is_recording()
        },
{
}

/// A frame goes to the sink exactly when a recording worker pulls a whole
/// frame and a sequence number is left for it.
pub proof fn lemma_sink_iff_recording(w: WorkerView, pixels: Seq<u8>)
    requires
        w.wf(),
    ensures
        w.on_frame_pulled(pixels).to_sink is Some <==> {
            &&& w.is_recording()
            &&& pixels.len() == frame_len(w.width, w.height)
            &&& w.next_sequence <= last_sequence()
        },
        w.on_frame_pulled(pixels).to_sink matches Some(f) ==> f == w.stamp(pixels) && f.wf(),
{
}

/// A recording runs for exactly its budget of frames. Fed whole frames, a
/// recording worker is still recording as long as fewer frames came than
/// were left, with each of them counted; with the frame that uses up the
/// budget it winds down without being asked to stop.
pub proof fn lemma_recording_ends_with_budget(w: WorkerView, frames: Seq<Seq<u8>>)
    requires
        w.wf(),
        w.is_recording(),
        frames.len() <= w.frames_left(),
        w.next_sequence + frames.len() <= last_sequence() + 1,
        forall|i: int|
            0 <= i < frames.len() ==> (#[trigger] frames[i]).len() == frame_len(w.width, w.height),
    ensures
        w.feed(frames).wf(),
        w.feed(frames).session == Some(
            SessionView {
                frames_written: w.session->0.frames_written + frames.len(),
                ..w.session->0
            },
        ),
        w.feed(frames).next_sequence == w.next_sequence + frames.len(),
        frames.len() < w.frames_left() ==> w.feed(frames).is_recording(),
        frames.len() == w.frames_left() ==> {
            &&& !w.feed(frames).is_recording()
            &&& w.feed(frames).state == WorkerState::Stopping
            &&& w.feed(frames).session->0.complete()
        },
    decreases frames.len(),
{
    if frames.len() > 0 {
        let head = frames.drop_last();
        assert forall|i: int| 0 <= i < head.len() implies (#[trigger] head[i]).len() == frame_len(
            w.width,
            w.height,
        ) by {
            assert(head[i] == frames[i]);
        }
        lemma_recording_ends_with_budget(w, head);
        lemma_feed_keeps_shape(w, head);
        assert(frames.last() == frames[frames.len() - 1]);
    }
}

/// Pulls change neither the kind of the source nor the size of its frames.
pub proof fn lemma_feed_keeps_shape(w: WorkerView, frames: Seq<Seq<u8>>)
    ensures
        w.feed(frames).kind == w.kind,
        w.feed(frames).width == w.width,
        w.feed(frames).height == w.height,
    decreases frames.len(),
{
    if frames.len() > 0 {
        lemma_feed_keeps_shape(w, frames.drop_last());
    }
}

/// What a worker answers to a step: the next thing to do and, while
/// recording, the frame to append to the sink first.
#[derive(Debug)]
pub struct WorkerOutput {
    pub action: WorkerAction,
    pub to_sink: Option<Frame>,
}

impl WorkerOutput {
    /// This answer is the one the model gives.
    pub open spec fn agrees(self, step: StepView) -> bool {
        &&& self.action == step.action
        &&& frame_view(self.to_sink) == step.to_sink
        &&& self.to_sink matches Some(f) ==> f@.wf()
    }
}

/// Drives one frame source through `Idle`, `Starting`, `Running` and
/// `Stopping`, and keeps the latest frame for whoever polls it.
pub struct CaptureWorker {
    kind: SourceKind,
    width: u32,
    height: u32,
    state: WorkerState,
    holds_source: bool,
    session: Option<RecordingSession>,
    next_sequence: u64,
    slot: FrameSlot,
    fault: Option<WorkerFault>,
}

impl View for CaptureWorker {
    type V = WorkerView;

    closed spec fn view(&self) -> WorkerView {
        WorkerView {
            kind: self.kind,
            width: self.width as nat,
            height: self.height as nat,
            state: self.state,
            holds_source: self.holds_source,
            session: session_view(self.session),
            next_sequence: self.next_sequence as nat,
            slot: self.slot@,
            fault: self.fault,
        }
    }
}

/// Tells whether a worker on a source of this kind carries on after such a
/// failed pull.
pub fn absorbs_error(kind: SourceKind, error: PullError) -> (carry_on: bool)
    ensures
        carry_on == absorbs(kind, error),
{
    match error {
        PullError::Transient => true,
        PullError::CorruptMedia => kind == SourceKind::LiveCamera,
        PullError::SourceLost => false,
    }
}

impl CaptureWorker {
    #[verifier::type_invariant]
    spec fn well_formed(self) -> bool {
        self@.wf()
    }

    /// An idle worker for a source of the given kind that delivers frames of
    /// `width` by `height` pixels.
    pub fn new(kind: SourceKind, width: u32, height: u32) -> (worker: CaptureWorker)
        ensures
            worker@ == WorkerView::initial(kind, width as nat, height as nat),
            worker@.wf(),
    {
        CaptureWorker {
            kind,
            width,
            height,
            state: WorkerState::Idle,
            holds_source: false,
            session: None,
            next_sequence: 0,
            slot: FrameSlot::new(),
            fault: None,
        }
    }

    /// An idle worker that numbers its frames from `first_sequence` on.
    pub fn numbering_from(kind: SourceKind, width: u32, height: u32, first_sequence: u64) -> (worker:
        CaptureWorker)
        ensures
            worker@ == (WorkerView {
                next_sequence: first_sequence as nat,
                ..WorkerView::initial(kind, width as nat, height as nat)
            }),
            worker@.wf(),
    {
        CaptureWorker {
            kind,
            width,
            height,
            state: WorkerState::Idle,
            holds_source: false,
            session: None,
            next_sequence: first_sequence,
            slot: FrameSlot::new(),
            fault: None,
        }
    }

    /// Where the worker stands. Every worker is well formed, whatever was
    /// done with it.
    pub fn state(&self) -> (state: WorkerState)
        ensures
            state == self@.state,
            self@.wf(),
    {
        proof {
            use_type_invariant(self);
        }
        self.state
    }

    /// The kind of source the worker drives.
    pub fn kind(&self) -> (kind: SourceKind)
        ensures
            kind == self@.kind,
    {
        self.kind
    }

    /// Tells whether the worker is capturing.
    pub fn is_running(&self) -> (running: bool)
        ensures
            running == (self@.state == WorkerState::Running),
            self@.wf(),
    {
        proof {
            use_type_invariant(self);
        }
        self.state == WorkerState::Running
    }

    /// Tells whether the worker is capturing into a recording that still
    /// takes frames.
    pub fn is_recording(&self) -> (recording: bool)
        ensures
            recording == self@.is_recording(),
            self@.wf(),
    {
        proof {
            use_type_invariant(self);
        }
        if self.state == WorkerState::Running {
            match &self.session {
                Some(s) => !s.is_complete(),
                None => false,
            }
        } else {
            false
        }
    }

    /// Tells whether a source is open and in the worker's charge.
    pub fn holds_source(&self) -> (held: bool)
        ensures
            held == self@.holds_source,
            self@.wf(),
    {
        proof {
            use_type_invariant(self);
        }
        self.holds_source
    }

    /// Why the last run ended, if it ended badly.
    pub fn fault(&self) -> (fault: Option<WorkerFault>)
        ensures
            fault == self@.fault,
    {
        self.fault
    }

    /// Frames written to the sink in the current recording, if there is one.
    pub fn frames_written(&self) -> (n: Option<u32>)
        ensures
            n is Some <==> self@.session is Some,
            n matches Some(k) ==> k == self@.session->0.frames_written,
    {
        match &self.session {
            Some(s) => Some(s.frames_written()),
            None => None,
        }
    }

    /// Time between two frames of the current recording, in whole
    /// microseconds, if there is a recording.
    pub fn frame_period(&self) -> (micros: Option<u32>)
        ensures
            micros is Some <==> self@.session is Some,
            micros matches Some(m) ==> m == crate::session::frame_period_micros(
                self@.session->0.fps,
            ),
    {
        match &self.session {
            Some(s) => Some(s.frame_period()),
            None => None,
        }
    }

    /// A copy of the latest frame captured, or `None` if there never was one.
    pub fn latest_frame(&self) -> (frame: Option<Frame>)
        ensures
            frame_view(frame) == self@.slot,
            frame matches Some(f) ==> f@.wf(),
            self@.wf(),
    {
        proof {
            use_type_invariant(self);
        }
        self.slot.read()
    }

    /// Asks the worker to start, writing `session` if one is given.
    pub fn start(&mut self, session: Option<RecordingSession>) -> (action: WorkerAction)
        ensures
            final(self)@ == old(self)@.start(session_view(session)).worker,
            action == old(self)@.start(session_view(session)).action,
            old(self)@.wf(),
            final(self)@.wf(),
    {
        proof {
            use_type_invariant(&*self);
            if let Some(s) = &session {
                use_type_invariant(s);
            }
        }
        if self.state == WorkerState::Idle {
            self.state = WorkerState::Starting;
            self.session = session;
            self.fault = None;
            WorkerAction::OpenSource
        } else {
            WorkerAction::Nothing
        }
    }

    /// Asks the worker to stop. Asking again changes nothing.
    pub fn stop(&mut self) -> (action: WorkerAction)
        ensures
            final(self)@ == old(self)@.stop().worker,
            action == old(self)@.stop().action,
            old(self)@.wf(),
            final(self)@.wf(),
    {
        proof {
            use_type_invariant(&*self);
        }
        match self.state {
            WorkerState::Idle | WorkerState::Stopping => WorkerAction::Nothing,
            WorkerState::Starting | WorkerState::Running => {
                self.state = WorkerState::Stopping;
                if self.holds_source {
                    WorkerAction::ReleaseSource
                } else {
                    WorkerAction::Nothing
                }
            },
        }
    }

    fn wind_down(&mut self, fault: Option<WorkerFault>) -> (action: WorkerAction)
        ensures
            final(self)@ == old(self)@.wind_down(fault).worker,
            action == old(self)@.wind_down(fault).action,
    {
        proof {
            use_type_invariant(&*self);
        }
        self.state = WorkerState::Stopping;
        self.fault = fault;
        WorkerAction::ReleaseSource
    }

    fn come_to_rest(&mut self, fault: Option<WorkerFault>)
        requires
            old(self)@.state != WorkerState::Running,
        ensures
            final(self)@ == old(self)@.at_rest(fault),
    {
        proof {
            use_type_invariant(&*self);
        }
        self.holds_source = false;
        self.session = None;
        self.state = WorkerState::Idle;
        self.fault = fault;
    }

    fn on_opened(&mut self) -> (action: WorkerAction)
        ensures
            final(self)@ == old(self)@.on_opened().worker,
            action == old(self)@.on_opened().action,
    {
        proof {
            use_type_invariant(&*self);
        }
        if self.holds_source {
            WorkerAction::Nothing
        } else if self.state == WorkerState::Starting {
            self.holds_source = true;
            WorkerAction::AwaitFirstFrame
        } else if self.state == WorkerState::Stopping {
            self.holds_source = true;
            WorkerAction::ReleaseSource
        } else {
            WorkerAction::Nothing
        }
    }

    fn on_open_failed(&mut self) -> (action: WorkerAction)
        ensures
            final(self)@ == old(self)@.on_open_failed().worker,
            action == old(self)@.on_open_failed().action,
    {
        if !self.holds_source && (self.state == WorkerState::Starting || self.state
            == WorkerState::Stopping) {
            self.come_to_rest(Some(WorkerFault::SourceUnavailable));
        }
        WorkerAction::Nothing
    }

    fn on_confirmed(&mut self) -> (action: WorkerAction)
        ensures
            final(self)@ == old(self)@.on_confirmed().worker,
            action == old(self)@.on_confirmed().action,
    {
        proof {
            use_type_invariant(&*self);
        }
        if self.holds_source && self.state == WorkerState::Starting {
            self.state = WorkerState::Running;
            WorkerAction::PullFrame
        } else {
            WorkerAction::Nothing
        }
    }

    fn on_start_timed_out(&mut self) -> (action: WorkerAction)
        ensures
            final(self)@ == old(self)@.on_start_timed_out().worker,
            action == old(self)@.on_start_timed_out().action,
    {
        if self.holds_source && self.state == WorkerState::Starting {
            self.wind_down(Some(WorkerFault::StartTimeout))
        } else {
            WorkerAction::Nothing
        }
    }

    fn on_pull_failed(&mut self, error: PullError) -> (action: WorkerAction)
        ensures
            final(self)@ == old(self)@.on_pull_failed(error).worker,
            action == old(self)@.on_pull_failed(error).action,
            old(self)@.on_pull_failed(error).to_sink is None,
    {
        if self.state == WorkerState::Running {
            if absorbs_error(self.kind, error) {
                WorkerAction::PullFrame
            } else {
                self.wind_down(Some(WorkerFault::SourceFailed))
            }
        } else {
            WorkerAction::Nothing
        }
    }

    fn on_sink_failed(&mut self) -> (action: WorkerAction)
        ensures
            final(self)@ == old(self)@.on_sink_failed().worker,
            action == old(self)@.on_sink_failed().action,
    {
        proof {
            use_type_invariant(&*self);
        }
        if self.session.is_none() || !self.holds_source {
            WorkerAction::Nothing
        } else if self.state == WorkerState::Running {
            self.wind_down(Some(WorkerFault::SinkError))
        } else if self.state == WorkerState::Stopping {
            self.fault = Some(WorkerFault::SinkError);
            WorkerAction::Nothing
        } else {
            WorkerAction::Nothing
        }
    }

    fn on_released(&mut self) -> (action: WorkerAction)
        ensures
            final(self)@ == old(self)@.on_released().worker,
            action == old(self)@.on_released().action,
    {
        if self.holds_source && self.state == WorkerState::Stopping {
            let fault = self.fault;
            self.come_to_rest(fault);
        }
        WorkerAction::Nothing
    }

    fn on_frame_pulled(&mut self, data: Vec<u8>) -> (out: WorkerOutput)
        ensures
            final(self)@ == old(self)@.on_frame_pulled(data@).worker,
            out.agrees(old(self)@.on_frame_pulled(data@)),
    {
        proof {
            use_type_invariant(&*self);
        }
        if self.state != WorkerState::Running {
            return WorkerOutput { action: WorkerAction::Nothing, to_sink: None };
        }
        if !is_frame_len(data.len(), self.width, self.height) {
            let action = self.on_pull_failed(PullError::CorruptMedia);
            return WorkerOutput { action, to_sink: None };
        }
        if self.next_sequence > u64::MAX - 1 {
            let action = self.wind_down(Some(WorkerFault::SequenceExhausted));
            return WorkerOutput { action, to_sink: None };
        }
        match Frame::new(data, self.width, self.height, self.next_sequence) {
            None => WorkerOutput { action: WorkerAction::Nothing, to_sink: None },
            Some(frame) => {
                let copy = frame.clone();
                let mut shown = FrameSlot::new();
                shown.write(frame);
                // The counter moves on before the frame shows: the frame in
                // the slot always carries a number below the next one.
                self.next_sequence = self.next_sequence + 1;
                self.slot = shown;
                let mut session: Option<RecordingSession> = None;
                std::mem::swap(&mut session, &mut self.session);
                match session {
                    None => WorkerOutput { action: WorkerAction::PullFrame, to_sink: None },
                    Some(mut s) => {
                        if s.is_complete() {
                            self.session = Some(s);
                            self.state = WorkerState::Stopping;
                            WorkerOutput { action: WorkerAction::ReleaseSource, to_sink: None }
                        } else {
                            s.record_frame();
                            let complete = s.is_complete();
                            self.session = Some(s);
                            if complete {
                                self.state = WorkerState::Stopping;
                                WorkerOutput {
                                    action: WorkerAction::ReleaseSource,
                                    to_sink: Some(copy),
                                }
                            } else {
                                WorkerOutput {
                                    action: WorkerAction::PullFrame,
                                    to_sink: Some(copy),
                                }
                            }
                        }
                    },
                }
            },
        }
    }

    /// Tells the worker what happened and learns what to do next.
    pub fn handle(&mut self, event: SourceEvent) -> (out: WorkerOutput)
        ensures
            final(self)@ == old(self)@.handle(event@).worker,
            out.agrees(old(self)@.handle(event@)),
            old(self)@.wf(),
            final(self)@.wf(),
    {
        proof {
            use_type_invariant(&*self);
        }
        let out = match event {
            SourceEvent::Opened => WorkerOutput { action: self.on_opened(), to_sink: None },
            SourceEvent::OpenFailed => WorkerOutput {
                action: self.on_open_failed(),
                to_sink: None,
            },
            SourceEvent::Confirmed => WorkerOutput { action: self.on_confirmed(), to_sink: None },
            SourceEvent::StartTimedOut => WorkerOutput {
                action: self.on_start_timed_out(),
                to_sink: None,
            },
            SourceEvent::FramePulled(data) => self.on_frame_pulled(data),
            SourceEvent::PullFailed(error) => WorkerOutput {
                action: self.on_pull_failed(error),
                to_sink: None,
            },
            SourceEvent::SinkFailed => WorkerOutput {
                action: self.on_sink_failed(),
                to_sink: None,
            },
            SourceEvent::Released => WorkerOutput { action: self.on_released(), to_sink: None },
        };
        proof {
            use_type_invariant(&*self);
        }
        out
    }
}

} // verus!
