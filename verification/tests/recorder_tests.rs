use cam_record_sim::recorder::{
    start_error_for, CameraSource, DualCameraRecorder, RecorderError, RecorderOutput, Side,
    DEFAULT_HEIGHT, DEFAULT_WIDTH,
};
use cam_record_sim::worker::{PullError, SourceEvent, WorkerAction, WorkerFault, WorkerState};

fn small() -> DualCameraRecorder {
    DualCameraRecorder::with_resolution(2, 1)
}

fn frame() -> Vec<u8> {
    vec![5u8; 6]
}

fn bring_up(recorder: &mut DualCameraRecorder, side: Side) -> RecorderOutput {
    recorder.handle(side, SourceEvent::Opened);
    recorder.handle(side, SourceEvent::Confirmed)
}

fn start_single(recorder: &mut DualCameraRecorder, fps: u32, seconds: u32) {
    let asked = recorder.start_recording(CameraSource::Single(0), "out", fps, seconds).unwrap();
    assert_eq!(asked.left_action, WorkerAction::OpenSource);
    assert_eq!(asked.right_action, WorkerAction::Nothing);
    assert!(asked.verdict.is_none());
    let done = bring_up(recorder, Side::Left);
    assert_eq!(done.verdict, Some(Ok(())));
    assert_eq!(done.left_action, WorkerAction::PullFrame);
}

fn start_dual(recorder: &mut DualCameraRecorder, fps: u32, seconds: u32) {
    recorder.start_recording(CameraSource::Dual(0, 1), "out", fps, seconds).unwrap();
    let left = bring_up(recorder, Side::Left);
    assert_eq!(left.verdict, None);
    assert_eq!(left.left_action, WorkerAction::PullFrame);
    assert_eq!(left.right_action, WorkerAction::OpenSource);
    let right = bring_up(recorder, Side::Right);
    assert_eq!(right.verdict, Some(Ok(())));
    assert_eq!(right.right_action, WorkerAction::PullFrame);
}

#[test]
fn new_recorder_is_at_rest() {
    let recorder = DualCameraRecorder::new();
    assert!(!recorder.is_recording());
    assert!(recorder.get_left_frame().is_none());
    assert!(recorder.get_right_frame().is_none());
    assert_eq!(recorder.worker_state(Side::Left), WorkerState::Idle);
    assert_eq!(recorder.worker_state(Side::Right), WorkerState::Idle);
    assert_eq!(recorder.device(Side::Left), None);
    assert_eq!(recorder.device(Side::Right), None);
}

#[test]
fn default_resolution_is_640_by_480() {
    assert_eq!(DEFAULT_WIDTH, 640);
    assert_eq!(DEFAULT_HEIGHT, 480);
    let mut recorder = DualCameraRecorder::new();
    recorder.start_recording(CameraSource::Single(0), "out", 30, 10).unwrap();
    bring_up(&mut recorder, Side::Left);
    recorder.handle(Side::Left, SourceEvent::FramePulled(vec![0u8; 640 * 480 * 3]));
    assert_eq!(recorder.get_left_frame().unwrap().data().len(), 921_600);
    recorder.handle(Side::Left, SourceEvent::FramePulled(vec![0u8; 640 * 480]));
    assert_eq!(recorder.get_left_frame().unwrap().sequence(), 0);
}

#[test]
fn polling_a_recorder_at_rest_gives_nothing_a_thousand_times() {
    let recorder = DualCameraRecorder::new();
    for _ in 0..1000 {
        assert!(recorder.get_left_frame().is_none());
    }
    for _ in 0..1000 {
        assert!(recorder.get_right_frame().is_none());
    }
    assert!(!recorder.is_recording());
}

#[test]
fn invalid_parameters_are_refused_and_touch_nothing() {
    let mut recorder = small();
    for (fps, seconds) in [(0, 10), (61, 10), (30, 0), (30, 301), (0, 0), (u32::MAX, 1)] {
        let result = recorder.start_recording(CameraSource::Dual(0, 1), "out", fps, seconds);
        assert_eq!(result.err(), Some(RecorderError::InvalidParameter));
        assert!(!recorder.is_recording());
        assert_eq!(recorder.worker_state(Side::Left), WorkerState::Idle);
        assert_eq!(recorder.worker_state(Side::Right), WorkerState::Idle);
        assert_eq!(recorder.device(Side::Left), None);
    }
}

#[test]
fn recording_starts_for_every_valid_limit() {
    for (fps, seconds) in [(1, 1), (60, 300), (1, 300), (60, 1), (30, 10)] {
        let mut recorder = small();
        start_single(&mut recorder, fps, seconds);
        assert!(recorder.is_recording());
        assert_eq!(recorder.worker_state(Side::Left), WorkerState::Running);
        assert_eq!(recorder.worker_state(Side::Right), WorkerState::Idle);
        assert_eq!(recorder.device(Side::Left), Some(0));
        assert_eq!(recorder.device(Side::Right), None);
    }
}

#[test]
fn recording_is_not_under_way_before_the_source_delivers() {
    let mut recorder = small();
    recorder.start_recording(CameraSource::Single(3), "out", 30, 10).unwrap();
    assert!(!recorder.is_recording());
    assert_eq!(recorder.worker_state(Side::Left), WorkerState::Starting);
    let opened = recorder.handle(Side::Left, SourceEvent::Opened);
    assert_eq!(opened.left_action, WorkerAction::AwaitFirstFrame);
    assert_eq!(opened.verdict, None);
    assert!(!recorder.is_recording());
}

#[test]
fn single_recording_ends_by_itself_after_fps_times_duration_frames() {
    let mut recorder = small();
    start_single(&mut recorder, 3, 2);
    for n in 0..5u64 {
        let out = recorder.handle(Side::Left, SourceEvent::FramePulled(frame()));
        assert_eq!(out.left_action, WorkerAction::PullFrame);
        assert_eq!(out.to_sink.unwrap().sequence(), n);
        assert!(recorder.is_recording());
    }
    let last = recorder.handle(Side::Left, SourceEvent::FramePulled(frame()));
    assert_eq!(last.left_action, WorkerAction::ReleaseSource);
    assert_eq!(last.to_sink.unwrap().sequence(), 5);
    assert!(!recorder.is_recording());
    recorder.handle(Side::Left, SourceEvent::Released);
    assert_eq!(recorder.worker_state(Side::Left), WorkerState::Idle);
    assert!(!recorder.is_recording());
    assert_eq!(recorder.get_left_frame().unwrap().sequence(), 5);
}

#[test]
fn dual_recording_runs_until_both_sides_are_done() {
    let mut recorder = small();
    start_dual(&mut recorder, 1, 2);
    assert!(recorder.is_recording());
    assert_eq!(recorder.device(Side::Left), Some(0));
    assert_eq!(recorder.device(Side::Right), Some(1));
    recorder.handle(Side::Left, SourceEvent::FramePulled(frame()));
    let left_done = recorder.handle(Side::Left, SourceEvent::FramePulled(frame()));
    assert_eq!(left_done.left_action, WorkerAction::ReleaseSource);
    assert_eq!(left_done.right_action, WorkerAction::Nothing);
    assert!(recorder.is_recording());
    recorder.handle(Side::Right, SourceEvent::FramePulled(frame()));
    assert!(recorder.is_recording());
    let right_done = recorder.handle(Side::Right, SourceEvent::FramePulled(frame()));
    assert_eq!(right_done.right_action, WorkerAction::ReleaseSource);
    assert!(!recorder.is_recording());
    assert_eq!(recorder.get_left_frame().unwrap().sequence(), 1);
    assert_eq!(recorder.get_right_frame().unwrap().sequence(), 1);
}

#[test]
fn frames_of_one_side_do_not_show_on_the_other() {
    let mut recorder = small();
    start_dual(&mut recorder, 30, 10);
    recorder.handle(Side::Right, SourceEvent::FramePulled(vec![8u8; 6]));
    assert!(recorder.get_left_frame().is_none());
    assert_eq!(recorder.get_right_frame().unwrap().data(), &vec![8u8; 6]);
    recorder.handle(Side::Left, SourceEvent::FramePulled(vec![4u8; 6]));
    assert_eq!(recorder.get_left_frame().unwrap().data(), &vec![4u8; 6]);
    assert_eq!(recorder.get_right_frame().unwrap().data(), &vec![8u8; 6]);
}

#[test]
fn dual_start_with_an_invalid_right_device_fails_as_a_whole() {
    let mut recorder = small();
    recorder.start_recording(CameraSource::Dual(0, 99), "out", 30, 10).unwrap();
    let left = bring_up(&mut recorder, Side::Left);
    assert_eq!(left.right_action, WorkerAction::OpenSource);
    let failed = recorder.handle(Side::Right, SourceEvent::OpenFailed);
    assert_eq!(failed.verdict, Some(Err(RecorderError::PartialStartFailure(99))));
    assert_eq!(failed.left_action, WorkerAction::ReleaseSource);
    assert_eq!(failed.right_action, WorkerAction::Nothing);
    assert!(!recorder.is_recording());
    assert_eq!(recorder.worker_state(Side::Left), WorkerState::Stopping);
    assert_eq!(recorder.worker_state(Side::Right), WorkerState::Idle);
    recorder.handle(Side::Left, SourceEvent::Released);
    assert_eq!(recorder.worker_state(Side::Left), WorkerState::Idle);
    assert!(!recorder.is_recording());
    assert_eq!(recorder.device(Side::Left), None);
}

#[test]
fn dual_start_with_an_invalid_left_device_never_opens_the_right_one() {
    let mut recorder = small();
    recorder.start_recording(CameraSource::Dual(77, 1), "out", 30, 10).unwrap();
    let failed = recorder.handle(Side::Left, SourceEvent::OpenFailed);
    assert_eq!(failed.verdict, Some(Err(RecorderError::PartialStartFailure(77))));
    assert_eq!(failed.left_action, WorkerAction::Nothing);
    assert_eq!(failed.right_action, WorkerAction::Nothing);
    assert!(!recorder.is_recording());
    assert_eq!(recorder.worker_state(Side::Left), WorkerState::Idle);
    assert_eq!(recorder.worker_state(Side::Right), WorkerState::Idle);
    assert_eq!(recorder.worker_fault(Side::Left), Some(WorkerFault::SourceUnavailable));
}

#[test]
fn dual_start_with_a_silent_right_device_stops_both() {
    let mut recorder = small();
    recorder.start_recording(CameraSource::Dual(0, 1), "out", 30, 10).unwrap();
    bring_up(&mut recorder, Side::Left);
    recorder.handle(Side::Right, SourceEvent::Opened);
    let failed = recorder.handle(Side::Right, SourceEvent::StartTimedOut);
    assert_eq!(failed.verdict, Some(Err(RecorderError::PartialStartFailure(1))));
    assert_eq!(failed.left_action, WorkerAction::ReleaseSource);
    assert_eq!(failed.right_action, WorkerAction::ReleaseSource);
    assert!(!recorder.is_recording());
    assert_eq!(recorder.worker_state(Side::Left), WorkerState::Stopping);
    assert_eq!(recorder.worker_state(Side::Right), WorkerState::Stopping);
}

#[test]
fn single_start_reports_what_went_wrong_with_the_device() {
    let mut recorder = small();
    recorder.start_recording(CameraSource::Single(4), "out", 30, 10).unwrap();
    let failed = recorder.handle(Side::Left, SourceEvent::OpenFailed);
    assert_eq!(failed.verdict, Some(Err(RecorderError::SourceUnavailable(4))));
    assert!(!recorder.is_recording());

    let mut slow = small();
    slow.start_recording(CameraSource::Single(5), "out", 30, 10).unwrap();
    slow.handle(Side::Left, SourceEvent::Opened);
    let timed_out = slow.handle(Side::Left, SourceEvent::StartTimedOut);
    assert_eq!(timed_out.verdict, Some(Err(RecorderError::StartTimeout(5))));
    assert_eq!(timed_out.left_action, WorkerAction::ReleaseSource);
    assert!(!slow.is_recording());
}

#[test]
fn start_errors_name_the_device_of_the_failed_side() {
    assert_eq!(
        start_error_for(CameraSource::Dual(10, 20), Side::Left, Some(WorkerFault::StartTimeout)),
        RecorderError::PartialStartFailure(10)
    );
    assert_eq!(
        start_error_for(CameraSource::Dual(10, 20), Side::Right, None),
        RecorderError::PartialStartFailure(20)
    );
    assert_eq!(
        start_error_for(CameraSource::Single(7), Side::Left, Some(WorkerFault::StartTimeout)),
        RecorderError::StartTimeout(7)
    );
    assert_eq!(
        start_error_for(CameraSource::Single(7), Side::Left, Some(WorkerFault::SourceUnavailable)),
        RecorderError::SourceUnavailable(7)
    );
}

#[test]
fn recorder_can_start_again_after_a_failed_start() {
    let mut recorder = small();
    recorder.start_recording(CameraSource::Single(4), "out", 30, 10).unwrap();
    recorder.handle(Side::Left, SourceEvent::OpenFailed);
    start_single(&mut recorder, 30, 10);
    assert!(recorder.is_recording());
}

#[test]
fn busy_recorder_refuses_a_second_start() {
    let mut recorder = small();
    start_single(&mut recorder, 30, 10);
    let again = recorder.start_recording(CameraSource::Dual(6, 7), "other", 30, 10);
    assert_eq!(again.err(), Some(RecorderError::SourceUnavailable(6)));
    assert!(recorder.is_recording());
    assert_eq!(recorder.device(Side::Left), Some(0));
    let invalid = recorder.start_recording(CameraSource::Single(6), "other", 0, 10);
    assert_eq!(invalid.err(), Some(RecorderError::InvalidParameter));
}

#[test]
fn stop_recording_stops_the_left_side_then_the_right() {
    let mut recorder = small();
    start_dual(&mut recorder, 30, 10);
    let out = recorder.stop_recording();
    assert_eq!(out.left_action, WorkerAction::ReleaseSource);
    assert_eq!(out.right_action, WorkerAction::ReleaseSource);
    assert!(out.to_sink.is_none());
    assert!(out.verdict.is_none());
    assert!(!recorder.is_recording());
    assert_eq!(recorder.worker_state(Side::Left), WorkerState::Stopping);
    assert_eq!(recorder.worker_state(Side::Right), WorkerState::Stopping);
    recorder.handle(Side::Left, SourceEvent::Released);
    recorder.handle(Side::Right, SourceEvent::Released);
    assert_eq!(recorder.worker_state(Side::Left), WorkerState::Idle);
    assert_eq!(recorder.worker_state(Side::Right), WorkerState::Idle);
}

#[test]
fn stop_recording_twice_is_the_same_as_once() {
    let mut recorder = small();
    start_dual(&mut recorder, 30, 10);
    recorder.handle(Side::Left, SourceEvent::FramePulled(frame()));
    recorder.stop_recording();
    let left = recorder.worker_state(Side::Left);
    let right = recorder.worker_state(Side::Right);
    let shown = recorder.get_left_frame().unwrap().sequence();
    let again = recorder.stop_recording();
    assert_eq!(again.left_action, WorkerAction::Nothing);
    assert_eq!(again.right_action, WorkerAction::Nothing);
    assert_eq!(recorder.worker_state(Side::Left), left);
    assert_eq!(recorder.worker_state(Side::Right), right);
    assert_eq!(recorder.get_left_frame().unwrap().sequence(), shown);
    assert!(recorder.get_right_frame().is_none());
    assert!(!recorder.is_recording());
    assert_eq!(recorder.device(Side::Left), None);
}

#[test]
fn stop_recording_on_a_recorder_at_rest_does_nothing() {
    let mut recorder = small();
    let out = recorder.stop_recording();
    assert_eq!(out.left_action, WorkerAction::Nothing);
    assert_eq!(out.right_action, WorkerAction::Nothing);
    assert!(!recorder.is_recording());
    assert_eq!(recorder.worker_state(Side::Left), WorkerState::Idle);
}

#[test]
fn stop_during_a_start_gives_the_start_up() {
    let mut recorder = small();
    recorder.start_recording(CameraSource::Dual(0, 1), "out", 30, 10).unwrap();
    recorder.handle(Side::Left, SourceEvent::Opened);
    let out = recorder.stop_recording();
    assert_eq!(out.left_action, WorkerAction::ReleaseSource);
    assert_eq!(out.right_action, WorkerAction::Nothing);
    let late = recorder.handle(Side::Left, SourceEvent::Confirmed);
    assert_eq!(late.verdict, None);
    assert_eq!(late.right_action, WorkerAction::Nothing);
    assert!(!recorder.is_recording());
    assert_eq!(recorder.worker_state(Side::Right), WorkerState::Idle);
}

#[test]
fn one_side_failing_during_a_recording_leaves_the_other_running() {
    let mut recorder = small();
    start_dual(&mut recorder, 30, 10);
    let lost = recorder.handle(Side::Left, SourceEvent::PullFailed(PullError::SourceLost));
    assert_eq!(lost.left_action, WorkerAction::ReleaseSource);
    assert_eq!(lost.right_action, WorkerAction::Nothing);
    assert_eq!(lost.verdict, None);
    assert!(recorder.is_recording());
    assert_eq!(recorder.worker_state(Side::Right), WorkerState::Running);
    let out = recorder.handle(Side::Right, SourceEvent::FramePulled(frame()));
    assert!(out.to_sink.is_some());
}

#[test]
fn transient_glitch_does_not_abort_the_session() {
    let mut recorder = small();
    start_single(&mut recorder, 30, 10);
    let out = recorder.handle(Side::Left, SourceEvent::PullFailed(PullError::Transient));
    assert_eq!(out.left_action, WorkerAction::PullFrame);
    assert!(recorder.is_recording());
}

#[test]
fn sink_failure_stops_only_its_own_side() {
    let mut recorder = small();
    start_dual(&mut recorder, 30, 10);
    recorder.handle(Side::Right, SourceEvent::FramePulled(frame()));
    let failed = recorder.handle(Side::Right, SourceEvent::SinkFailed);
    assert_eq!(failed.right_action, WorkerAction::ReleaseSource);
    assert_eq!(failed.left_action, WorkerAction::Nothing);
    assert_eq!(recorder.worker_fault(Side::Right), Some(WorkerFault::SinkError));
    assert_eq!(recorder.worker_state(Side::Left), WorkerState::Running);
    assert!(recorder.is_recording());
}

#[test]
fn last_frame_stays_visible_after_the_recording_stopped() {
    let mut recorder = small();
    start_single(&mut recorder, 30, 10);
    recorder.handle(Side::Left, SourceEvent::FramePulled(vec![1u8; 6]));
    recorder.stop_recording();
    recorder.handle(Side::Left, SourceEvent::Released);
    let shown = recorder.get_left_frame().unwrap();
    assert_eq!(shown.sequence(), 0);
    assert_eq!(shown.data(), &vec![1u8; 6]);
}

#[test]
fn frame_period_is_that_of_the_side() {
    let mut recorder = small();
    assert_eq!(recorder.frame_period(Side::Left), None);
    start_single(&mut recorder, 25, 10);
    assert_eq!(recorder.frame_period(Side::Left), Some(40_000));
    assert_eq!(recorder.frame_period(Side::Right), None);
}

#[test]
fn every_valid_pair_of_rate_and_duration_starts_recording() {
    for fps in 1..=60u32 {
        for seconds in 1..=300u32 {
            let mut recorder = small();
            let asked = recorder.start_recording(CameraSource::Single(0), "out", fps, seconds);
            assert!(asked.is_ok(), "{} fps, {} s", fps, seconds);
            let done = bring_up(&mut recorder, Side::Left);
            assert_eq!(done.verdict, Some(Ok(())), "{} fps, {} s", fps, seconds);
            assert!(recorder.is_recording(), "{} fps, {} s", fps, seconds);
        }
    }
}

#[test]
fn recording_lasts_exactly_its_budget_for_several_rates() {
    for (fps, seconds) in [(1u32, 1u32), (1, 7), (7, 1), (30, 2), (60, 3), (13, 11)] {
        let mut recorder = small();
        start_single(&mut recorder, fps, seconds);
        let budget = fps * seconds;
        for written in 1..=budget {
            assert!(recorder.is_recording());
            let out = recorder.handle(Side::Left, SourceEvent::FramePulled(frame()));
            assert!(out.to_sink.is_some());
            assert_eq!(recorder.is_recording(), written < budget);
        }
        let late = recorder.handle(Side::Left, SourceEvent::FramePulled(frame()));
        assert!(late.to_sink.is_none());
        assert_eq!(late.left_action, WorkerAction::Nothing);
        assert!(!recorder.is_recording());
    }
}
