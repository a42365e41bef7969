//! Supervision core of a small audio/video recording rig: bounded output
//! buffers, process status, capture-device resolution and the decoding of
//! the remote-control protocol.

pub mod directory_shenanigans;
pub mod gst_viewer_dumper;
pub mod number;
pub mod process;
pub mod qpwgraph;
pub mod reaper;
pub mod space_available_watcher;
pub mod state;
pub mod text;
pub mod utils;
pub mod video_capture;
