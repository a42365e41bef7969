//! Recording without a session: one device to one file.

use vstd::prelude::*;
use crate::video_capture::{CaptureError, CaptureFailure, VideoDevice, paths};

verus! {

/// What the recording is started with.
#[derive(Debug, Clone, PartialEq, Eq)]
pub struct Args {
    /// The capture device to record.
    pub video_device: VideoDevice,
    /// The path of the file to record to.
    pub output_path: String,
}

impl Args {
    /// The arguments for the device at `video_device`, which has to be
    /// one of the capture devices `present`, and the file at
    /// `output_path`.
    pub fn new(video_device: &str, output_path: String, present: &Vec<VideoDevice>) -> (args: Result<
        Args,
        CaptureError,
    >)
        ensures
            match args {
                Ok(a) => paths(present@).contains(video_device@) && a.video_device@
                    == video_device@ && a.output_path == output_path,
                Err(e) => !paths(present@).contains(video_device@) && e@
                    == CaptureFailure::NotPresent(video_device@),
            },
    {
        match VideoDevice::new_checked(video_device, present) {
            Ok(device) => Ok(Args { video_device: device, output_path }),
            Err(e) => Err(e),
        }
    }
}

} // verus!
