//! Capture, preview and playback for one or two cameras.
//!
//! The library holds every decision and none of the devices. A capture
//! worker is driven by the events that its surroundings report and answers
//! each with what to do next; the recorder runs one or two workers under a
//! single start and stop; the playback system loops recordings as virtual
//! cameras. Opening devices, decoding files, threads and windows are left to
//! the program around the library.

pub mod frame;
pub mod gst_camera;
pub mod gui;
pub mod playback;
pub mod recorder;
pub mod session;
pub mod text;
pub mod worker;
