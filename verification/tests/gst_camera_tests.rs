use cam_record_sim::worker::{PullError, SourceEvent};
use cam_record_sim::gst_camera::{
    describe_pipeline, device_path, is_bayer_camera, FormatProbe, GstCamera, GstCameraError,
    LaunchOutcome, SampleOutcome,
};

fn camera() -> GstCamera {
    GstCamera::new(0, 640, 480, 30, LaunchOutcome::Launched).unwrap()
}

fn answered(success: bool, listing: &str) -> FormatProbe {
    FormatProbe::Answered { success, listing: String::from(listing) }
}

#[test]
fn pipeline_line_names_device_size_and_rate() {
    assert_eq!(
        describe_pipeline(0, 640, 480, 30),
        "v4l2src device=/dev/video0 ! video/x-bayer,format=rggb,width=640,height=480,framerate=30/1 ! bayer2rgb ! videoconvert ! video/x-raw,format=RGB ! appsink name=sink emit-signals=true sync=false max-buffers=1 drop=true"
    );
}

#[test]
fn pipeline_line_writes_numbers_in_full() {
    let line = describe_pipeline(12, 1920, 1080, 60);
    assert!(line.starts_with("v4l2src device=/dev/video12 ! "));
    assert!(line.contains(",width=1920,height=1080,framerate=60/1 ! "));
    let largest = describe_pipeline(u32::MAX, u32::MAX, 0, 1);
    assert!(largest.starts_with("v4l2src device=/dev/video4294967295 ! "));
    assert!(largest.contains(",width=4294967295,height=0,framerate=1/1 ! "));
}

#[test]
fn camera_gives_the_line_of_its_own_pipeline() {
    let camera = GstCamera::new(3, 320, 240, 15, LaunchOutcome::Launched).unwrap();
    assert_eq!(camera.pipeline(), describe_pipeline(3, 320, 240, 15));
}

#[test]
fn device_path_is_the_video_node() {
    assert_eq!(device_path(0), "/dev/video0");
    assert_eq!(device_path(7), "/dev/video7");
    assert_eq!(device_path(10), "/dev/video10");
    assert_eq!(device_path(4_294_967_295), "/dev/video4294967295");
}

#[test]
fn error_messages_name_the_stage_that_failed() {
    assert_eq!(
        GstCameraError::InitError(String::from("no plugins")).message(),
        "GStreamer initialization failed: no plugins"
    );
    assert_eq!(
        GstCameraError::PipelineError(String::from("bad caps")).message(),
        "Pipeline creation failed: bad caps"
    );
    assert_eq!(
        GstCameraError::FrameError(String::from("eos")).message(),
        "Frame capture failed: eos"
    );
    assert_eq!(GstCameraError::FrameError(String::new()).message(), "Frame capture failed: ");
}

#[test]
fn launched_pipeline_gives_a_camera_of_the_asked_resolution() {
    let camera = GstCamera::new(1, 800, 600, 25, LaunchOutcome::Launched).unwrap();
    assert_eq!(camera.get_resolution(), (800, 600));
    assert_eq!(camera.pipeline(), describe_pipeline(1, 800, 600, 25));
}

#[test]
fn failed_launch_gives_the_matching_error() {
    let init = GstCamera::new(0, 1, 1, 1, LaunchOutcome::InitFailed(String::from("boom")));
    assert_eq!(init.err().unwrap().message(), "GStreamer initialization failed: boom");
    let parse = GstCamera::new(0, 1, 1, 1, LaunchOutcome::ParseFailed(String::from("syntax")));
    assert_eq!(parse.err().unwrap().message(), "Pipeline creation failed: syntax");
    let kind = GstCamera::new(0, 1, 1, 1, LaunchOutcome::NotAPipeline);
    assert_eq!(kind.err().unwrap().message(), "Pipeline creation failed: Not a pipeline");
    let missing = GstCamera::new(0, 1, 1, 1, LaunchOutcome::SinkMissing);
    assert_eq!(missing.err().unwrap().message(), "Pipeline creation failed: No appsink found");
    let wrong = GstCamera::new(0, 1, 1, 1, LaunchOutcome::NotAnAppSink);
    assert_eq!(wrong.err().unwrap().message(), "Pipeline creation failed: Not an appsink");
}

#[test]
fn failed_launch_keeps_the_kind_of_error() {
    let init = GstCamera::new(0, 1, 1, 1, LaunchOutcome::InitFailed(String::from("x")));
    assert!(matches!(init, Err(GstCameraError::InitError(ref m)) if m == "x"));
    let parse = GstCamera::new(0, 1, 1, 1, LaunchOutcome::ParseFailed(String::from("y")));
    assert!(matches!(parse, Err(GstCameraError::PipelineError(ref m)) if m == "y"));
}

#[test]
fn start_and_stop_succeed_when_the_pipeline_switched() {
    let camera = camera();
    assert!(camera.start(Ok(())).is_ok());
    assert!(camera.stop(Ok(())).is_ok());
    assert!(camera.stop(Ok(())).is_ok());
}

#[test]
fn refused_start_is_a_pipeline_error() {
    let camera = camera();
    let refused = camera.start(Err(String::from("device busy")));
    assert_eq!(
        refused.err().unwrap().message(),
        "Pipeline creation failed: Failed to start: device busy"
    );
}

#[test]
fn refused_stop_is_a_pipeline_error() {
    let camera = camera();
    camera.start(Ok(())).unwrap();
    let refused = camera.stop(Err(String::from("stuck")));
    assert!(
        matches!(refused, Err(GstCameraError::PipelineError(ref m)) if m == "Failed to stop: stuck")
    );
}

#[test]
fn pulled_bytes_are_handed_on_as_they_came() {
    let camera = camera();
    let whole = vec![1u8; 640 * 480 * 3];
    assert_eq!(camera.get_frame(SampleOutcome::Data(whole.clone())).unwrap(), whole);
    assert_eq!(camera.get_frame(SampleOutcome::Data(vec![1, 2, 3])).unwrap(), vec![1, 2, 3]);
    assert_eq!(camera.get_frame(SampleOutcome::Data(Vec::new())).unwrap(), Vec::<u8>::new());
}

#[test]
fn failed_pull_is_a_frame_error() {
    let camera = camera();
    let pull = camera.get_frame(SampleOutcome::PullFailed(String::from("eos")));
    assert_eq!(pull.err().unwrap().message(), "Frame capture failed: Failed to pull sample: eos");
    let empty = camera.get_frame(SampleOutcome::NoBuffer);
    assert_eq!(empty.err().unwrap().message(), "Frame capture failed: No buffer in sample");
    let map = camera.get_frame(SampleOutcome::MapFailed(String::from("locked")));
    assert!(matches!(map, Err(GstCameraError::FrameError(ref m)) if m == "Failed to map buffer: locked"));
}

#[test]
fn whole_frame_is_width_times_height_times_three() {
    let camera = camera();
    assert!(camera.is_whole_frame(921_600));
    assert!(!camera.is_whole_frame(921_601));
    assert!(!camera.is_whole_frame(0));
}

#[test]
fn bayer_camera_is_told_by_the_format_listing() {
    assert!(is_bayer_camera(&answered(true, "[0]: 'RGGB' (8-bit Bayer RGRG/GBGB)")));
    assert!(is_bayer_camera(&answered(true, "Pixel Format: 'RG16'")));
    assert!(is_bayer_camera(&answered(true, "RGGB")));
    assert!(is_bayer_camera(&answered(true, "16-bit Bayer")));
    assert!(is_bayer_camera(&answered(true, "xxBayer")));
}

#[test]
fn other_listings_are_no_bayer_camera() {
    assert!(!is_bayer_camera(&answered(true, "[0]: 'YUYV' (YUYV 4:2:2)\n[1]: 'MJPG' (Motion-JPEG)")));
    assert!(!is_bayer_camera(&answered(true, "")));
    assert!(!is_bayer_camera(&answered(true, "bayer rggb rg16")));
    assert!(!is_bayer_camera(&answered(true, "RGG")));
    assert!(!is_bayer_camera(&answered(true, "RG 16, Baye r, R-GGB")));
}

#[test]
fn failed_probe_is_no_bayer_camera() {
    assert!(!is_bayer_camera(&FormatProbe::Failed));
    assert!(!is_bayer_camera(&answered(false, "[0]: 'RGGB' (8-bit Bayer RGRG/GBGB)")));
}

#[test]
fn listing_beyond_ascii_is_searched_all_the_same() {
    assert!(is_bayer_camera(&answered(true, "Kamera \u{2014} na\u{ef}ve \u{fffd} RG16 \u{fffd}")));
    assert!(!is_bayer_camera(&answered(true, "R\u{fffd}GGB Bay\u{e9}r")));
}

#[test]
fn pulled_bytes_are_a_frame_for_the_worker() {
    let event = SampleOutcome::Data(vec![1, 2, 3]).into_event(false);
    assert!(matches!(event, SourceEvent::FramePulled(ref bytes) if bytes == &vec![1, 2, 3]));
    let at_end = SampleOutcome::Data(vec![4]).into_event(true);
    assert!(matches!(at_end, SourceEvent::FramePulled(ref bytes) if bytes == &vec![4]));
}

#[test]
fn missing_sample_is_a_glitch_until_the_stream_ends() {
    let glitch = SampleOutcome::PullFailed(String::from("flushing")).into_event(false);
    assert!(matches!(glitch, SourceEvent::PullFailed(PullError::Transient)));
    let lost = SampleOutcome::PullFailed(String::from("eos")).into_event(true);
    assert!(matches!(lost, SourceEvent::PullFailed(PullError::SourceLost)));
}

#[test]
fn sample_that_cannot_be_read_is_corrupt_media() {
    for end_of_stream in [false, true] {
        let empty = SampleOutcome::NoBuffer.into_event(end_of_stream);
        assert!(matches!(empty, SourceEvent::PullFailed(PullError::CorruptMedia)));
        let locked = SampleOutcome::MapFailed(String::from("locked")).into_event(end_of_stream);
        assert!(matches!(locked, SourceEvent::PullFailed(PullError::CorruptMedia)));
    }
}
