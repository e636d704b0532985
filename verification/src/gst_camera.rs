//! A Bayer camera behind a GStreamer pipeline: how the pipeline is
//! described, what each of its failures is reported as, and how a device is
//! told to be a Bayer camera.
//!
//! The pipeline itself is run elsewhere. What it answered comes in as plain
//! values.

use vstd::prelude::*;
use vstd::string::*;
use crate::frame::{frame_len, is_frame_len};
use crate::text::{append_decimal, decimal, str_contains, text_contains};
use crate::worker::{PullError, SourceEvent, SourceEventView};

verus! {

/// What went wrong with a camera.
#[derive(Debug)]
pub enum GstCameraError {
    /// GStreamer could not be set up.
    InitError(String),
    /// The pipeline could not be built or switched.
    PipelineError(String),
    /// No frame could be had.
    FrameError(String),
}

/// A camera error as plain values.
pub enum GstCameraErrorView {
    InitError(Seq<char>),
    PipelineError(Seq<char>),
    FrameError(Seq<char>),
}

impl View for GstCameraError {
    type V = GstCameraErrorView;

    open spec fn view(&self) -> GstCameraErrorView {
        match self {
            GstCameraError::InitError(m) => GstCameraErrorView::InitError(m@),
            GstCameraError::PipelineError(m) => GstCameraErrorView::PipelineError(m@),
            GstCameraError::FrameError(m) => GstCameraErrorView::FrameError(m@),
        }
    }
}

impl GstCameraErrorView {
    /// The error in words.
    pub open spec fn message(self) -> Seq<char> {
        match self {
            GstCameraErrorView::InitError(m) => "GStreamer initialization failed: "@ + m,
            GstCameraErrorView::PipelineError(m) => "Pipeline creation failed: "@ + m,
            GstCameraErrorView::FrameError(m) => "Frame capture failed: "@ + m,
        }
    }
}

/// Joins a fixed opening and a detail into one text.
fn joined(opening: &str, detail: &str) -> (text: String)
    ensures
        text@ == opening@ + detail@,
{
    let mut text = String::from_str(opening);
    text.append(detail);
    text
}

impl GstCameraError {
    /// The error in words.
    pub fn message(&self) -> (text: String)
        ensures
            text@ == self@.message(),
    {
        match self {
            GstCameraError::InitError(m) => joined("GStreamer initialization failed: ", m.as_str()),
            GstCameraError::PipelineError(m) => joined("Pipeline creation failed: ", m.as_str()),
            GstCameraError::FrameError(m) => joined("Frame capture failed: ", m.as_str()),
        }
    }
}

/// The launch line of the capture pipeline for video device `index`: raw
/// Bayer frames of the given size and rate, turned into packed RGB and handed
/// to a sink named `sink` that keeps only the newest frame.
pub open spec fn pipeline_description(index: nat, width: nat, height: nat, fps: nat) -> Seq<char> {
    "v4l2src device=/dev/video"@ + decimal(index) + " ! video/x-bayer,format=rggb,width="@
        + decimal(width) + ",height="@ + decimal(height) + ",framerate="@ + decimal(fps)
        + "/1 ! bayer2rgb ! videoconvert ! video/x-raw,format=RGB ! appsink name=sink emit-signals=true sync=false max-buffers=1 drop=true"@
}

/// Writes the launch line of the capture pipeline for video device `index`.
pub fn describe_pipeline(index: u32, width: u32, height: u32, fps: u32) -> (line: String)
    ensures
        line@ == pipeline_description(index as nat, width as nat, height as nat, fps as nat),
{
    let mut line = String::from_str("v4l2src device=/dev/video");
    append_decimal(&mut line, index as u64);
    line.append(" ! video/x-bayer,format=rggb,width=");
    append_decimal(&mut line, width as u64);
    line.append(",height=");
    append_decimal(&mut line, height as u64);
    line.append(",framerate=");
    append_decimal(&mut line, fps as u64);
    line.append(
        "/1 ! bayer2rgb ! videoconvert ! video/x-raw,format=RGB ! appsink name=sink emit-signals=true sync=false max-buffers=1 drop=true",
    );
    assert(line@ =~= pipeline_description(
        index as nat,
        width as nat,
        height as nat,
        fps as nat,
    ));
    line
}

/// The path of video device `index`.
pub open spec fn device_path_of(index: nat) -> Seq<char> {
    "/dev/video"@ + decimal(index)
}

/// Writes the path of video device `index`.
pub fn device_path(index: u32) -> (path: String)
    ensures
        path@ == device_path_of(index as nat),
{
    let mut path = String::from_str("/dev/video");
    append_decimal(&mut path, index as u64);
    path
}

/// How the launch of a pipeline went.
#[derive(Debug)]
pub enum LaunchOutcome {
    /// GStreamer could not be set up; the reason.
    InitFailed(String),
    /// The launch line was refused; the reason.
    ParseFailed(String),
    /// What was launched is no pipeline.
    NotAPipeline,
    /// The pipeline has no element named `sink`.
    SinkMissing,
    /// The element named `sink` is no application sink.
    NotAnAppSink,
    /// The pipeline stands.
    Launched,
}

/// How a pull from the sink went.
#[derive(Debug)]
pub enum SampleOutcome {
    /// No sample came; the reason.
    PullFailed(String),
    /// The sample holds no buffer.
    NoBuffer,
    /// The buffer could not be read; the reason.
    MapFailed(String),
    /// The bytes of the buffer.
    Data(Vec<u8>),
}

/// A camera as plain values.
pub struct GstCameraView {
    pub index: nat,
    pub width: nat,
    pub height: nat,
    pub fps: nat,
}

/// The error that a failed launch is reported as, or `None` where the
/// pipeline stands.
pub open spec fn launch_error(outcome: LaunchOutcome) -> Option<GstCameraErrorView> {
    match outcome {
        LaunchOutcome::InitFailed(why) => Some(GstCameraErrorView::InitError(why@)),
        LaunchOutcome::ParseFailed(why) => Some(GstCameraErrorView::PipelineError(why@)),
        LaunchOutcome::NotAPipeline => Some(GstCameraErrorView::PipelineError("Not a pipeline"@)),
        LaunchOutcome::SinkMissing => Some(GstCameraErrorView::PipelineError("No appsink found"@)),
        LaunchOutcome::NotAnAppSink => Some(GstCameraErrorView::PipelineError("Not an appsink"@)),
        LaunchOutcome::Launched => None,
    }
}

/// What a pull is reported as: the bytes as they came, or the error.
pub open spec fn sample_result(sample: SampleOutcome) -> Result<Seq<u8>, GstCameraErrorView> {
    match sample {
        SampleOutcome::PullFailed(why) => Err(
            GstCameraErrorView::FrameError("Failed to pull sample: "@ + why@),
        ),
        SampleOutcome::NoBuffer => Err(GstCameraErrorView::FrameError("No buffer in sample"@)),
        SampleOutcome::MapFailed(why) => Err(
            GstCameraErrorView::FrameError("Failed to map buffer: "@ + why@),
        ),
        SampleOutcome::Data(bytes) => Ok(bytes@),
    }
}

/// What a capture worker is told of a pull, given whether the sink has
/// reached the end of its stream. Bytes are a pulled frame. No sample is a
/// lost source at the end of the stream and a glitch before it. A sample
/// without a buffer, or with one that cannot be read, is unreadable media.
pub open spec fn pull_event(sample: SampleOutcome, end_of_stream: bool) -> SourceEventView {
    match sample {
        SampleOutcome::PullFailed(_) => SourceEventView::PullFailed(
            if end_of_stream {
                PullError::SourceLost
            } else {
                PullError::Transient
            },
        ),
        SampleOutcome::NoBuffer => SourceEventView::PullFailed(PullError::CorruptMedia),
        SampleOutcome::MapFailed(_) => SourceEventView::PullFailed(PullError::CorruptMedia),
        SampleOutcome::Data(bytes) => SourceEventView::FramePulled(bytes@),
    }
}

impl SampleOutcome {
    /// Turns the outcome of a pull into what a capture worker is told.
    pub fn into_event(self, end_of_stream: bool) -> (event: SourceEvent)
        ensures
            event@ == pull_event(self, end_of_stream),
    {
        match self {
            SampleOutcome::PullFailed(_) => SourceEvent::PullFailed(
                if end_of_stream {
                    PullError::SourceLost
                } else {
                    PullError::Transient
                },
            ),
            SampleOutcome::NoBuffer => SourceEvent::PullFailed(PullError::CorruptMedia),
            SampleOutcome::MapFailed(_) => SourceEvent::PullFailed(PullError::CorruptMedia),
            SampleOutcome::Data(bytes) => SourceEvent::FramePulled(bytes),
        }
    }
}

/// The model of the outcome of a pull.
pub open spec fn frame_result_view(result: Result<Vec<u8>, GstCameraError>) -> Result<
    Seq<u8>,
    GstCameraErrorView,
> {
    match result {
        Ok(bytes) => Ok(bytes@),
        Err(error) => Err(error@),
    }
}

/// A Bayer camera and the state of its pipeline.
#[derive(Debug)]
pub struct GstCamera {
    index: u32,
    width: u32,
    height: u32,
    fps: u32,
}

impl View for GstCamera {
    type V = GstCameraView;

    closed spec fn view(&self) -> GstCameraView {
        GstCameraView {
            index: self.index as nat,
            width: self.width as nat,
            height: self.height as nat,
            fps: self.fps as nat,
        }
    }
}

impl GstCamera {
    /// The camera on video device `index`, given how the launch of its
    /// pipeline went. A pipeline that stands gives the camera; every failure
    /// gives its error.
    pub fn new(index: u32, width: u32, height: u32, fps: u32, launch: LaunchOutcome) -> (result:
        Result<GstCamera, GstCameraError>)
        ensures
            match launch_error(launch) {
                Some(error) => result matches Err(e) && e@ == error,
                None => result matches Ok(camera) && camera@ == (GstCameraView {
                    index: index as nat,
                    width: width as nat,
                    height: height as nat,
                    fps: fps as nat,
                }),
            },
    {
        match launch {
            LaunchOutcome::InitFailed(why) => Err(GstCameraError::InitError(why)),
            LaunchOutcome::ParseFailed(why) => Err(GstCameraError::PipelineError(why)),
            LaunchOutcome::NotAPipeline => Err(
                GstCameraError::PipelineError(String::from_str("Not a pipeline")),
            ),
            LaunchOutcome::SinkMissing => Err(
                GstCameraError::PipelineError(String::from_str("No appsink found")),
            ),
            LaunchOutcome::NotAnAppSink => Err(
                GstCameraError::PipelineError(String::from_str("Not an appsink")),
            ),
            LaunchOutcome::Launched => Ok(GstCamera { index, width, height, fps }),
        }
    }

    /// The launch line of this camera's pipeline.
    pub fn pipeline(&self) -> (line: String)
        ensures
            line@ == pipeline_description(self@.index, self@.width, self@.height, self@.fps),
    {
        describe_pipeline(self.index, self.width, self.height, self.fps)
    }

    /// Reports how switching the pipeline to playing went: a refusal is a
    /// pipeline error.
    pub fn start(&self, switched: Result<(), String>) -> (result: Result<(), GstCameraError>)
        ensures
            match switched {
                Ok(_) => result is Ok,
                Err(why) => result matches Err(e) && e@ == GstCameraErrorView::PipelineError(
                    "Failed to start: "@ + why@,
                ),
            },
    {
        match switched {
            Ok(_) => Ok(()),
            Err(why) => Err(GstCameraError::PipelineError(joined("Failed to start: ", why.as_str()))),
        }
    }

    /// Reports a pull from the sink: the bytes as they came, whatever their
    /// number, or the error.
    pub fn get_frame(&self, sample: SampleOutcome) -> (result: Result<Vec<u8>, GstCameraError>)
        ensures
            frame_result_view(result) == sample_result(sample),
    {
        match sample {
            SampleOutcome::PullFailed(why) => Err(
                GstCameraError::FrameError(joined("Failed to pull sample: ", why.as_str())),
            ),
            SampleOutcome::NoBuffer => Err(
                GstCameraError::FrameError(String::from_str("No buffer in sample")),
            ),
            SampleOutcome::MapFailed(why) => Err(
                GstCameraError::FrameError(joined("Failed to map buffer: ", why.as_str())),
            ),
            SampleOutcome::Data(bytes) => Ok(bytes),
        }
    }

    /// Tells whether a buffer of `len` bytes is a whole RGB frame of this
    /// camera.
    pub fn is_whole_frame(&self, len: usize) -> (whole: bool)
        ensures
            whole == (len as nat == frame_len(self@.width, self@.height)),
    {
        is_frame_len(len, self.width, self.height)
    }

    /// Reports how switching the pipeline to rest went: a refusal is a
    /// pipeline error.
    pub fn stop(&self, switched: Result<(), String>) -> (result: Result<(), GstCameraError>)
        ensures
            match switched {
                Ok(_) => result is Ok,
                Err(why) => result matches Err(e) && e@ == GstCameraErrorView::PipelineError(
                    "Failed to stop: "@ + why@,
                ),
            },
    {
        match switched {
            Ok(_) => Ok(()),
            Err(why) => Err(GstCameraError::PipelineError(joined("Failed to stop: ", why.as_str()))),
        }
    }

    /// Width and height of the frames, in pixels.
    pub fn get_resolution(&self) -> (size: (u32, u32))
        ensures
            size.0 == self@.width,
            size.1 == self@.height,
    {
        (self.width, self.height)
    }
}

/// What asking a device for its formats gave.
#[derive(Debug)]
pub enum FormatProbe {
    /// The question could not be asked.
    Failed,
    /// The answer: whether the tool reported success, and what it printed.
    Answered { success: bool, listing: String },
}

/// The listing names a Bayer format.
pub open spec fn names_bayer_format(listing: Seq<char>) -> bool {
    ||| text_contains(listing, "Bayer"@)
    ||| text_contains(listing, "RGGB"@)
    ||| text_contains(listing, "RG16"@)
    ||| text_contains(listing, "'RGGB'"@)
}

/// Tells whether a device is a Bayer camera, from what asking it for its
/// formats gave: the tool must have succeeded and must have printed the name
/// of a Bayer format.
pub fn is_bayer_camera(probe: &FormatProbe) -> (bayer: bool)
    ensures
        bayer == (probe matches FormatProbe::Answered { success, listing } && *success
            && names_bayer_format(listing@)),
{
    match probe {
        FormatProbe::Failed => false,
        FormatProbe::Answered { success, listing } => {
            if *success {
                let info = listing.as_str();
                str_contains(info, "Bayer") || str_contains(info, "RGGB") || str_contains(
                    info,
                    "RG16",
                ) || str_contains(info, "'RGGB'")
            } else {
                false
            }
        },
    }
}

} // verus!
