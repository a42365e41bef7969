//! The capture pipeline: its description, what it does on the messages of
//! its bus, and whether it got going.

use vstd::prelude::*;
use crate::text::{push_str, string_of};
use crate::video_capture::{binary_size_text, file_size, VideoDevice};

verus! {

/// The name of the pipeline's source element, which gets the
/// end-of-stream event when the recording is cancelled.
pub const VIDEO_SOURCE: &'static str = "video-source";

/// How often the cancellation flag is looked at, in milliseconds.
pub const CANCEL_POLL_MS: u64 = 100;

/// How long the pipeline gets before it is asked whether it still runs,
/// in milliseconds.
pub const STARTUP_DELAY_MS: u64 = 1000;

/// The description of the pipeline that shows the picture of the device
/// at `device` and records it to the file at `output_file`.
pub open spec fn pipeline_description_of(device: Seq<char>, output_file: Seq<char>) -> Seq<char> {
    "v4l2src device="@ + device
        + " name=\"video-source\" ! capsfilter caps=\"video/x-raw, width=1920, height=1080, format=YUY2, framerate=25/1\" ! tee name=t t. ! queue ! autovideosink t. ! queue ! videoconvert ! x264enc bitrate=8000 speed-preset=ultrafast tune=zerolatency ! video/x-h264 ! matroskamux ! filesink location="@
        + output_file
}

/// The description of the pipeline for `device` and `output_file`.
pub fn pipeline_description(device: &VideoDevice, output_file: &str) -> (description: String)
    ensures
        description@ == pipeline_description_of(device@, output_file@),
{
    let mut out: Vec<char> = Vec::new();
    push_str(&mut out, "v4l2src device=");
    push_str(&mut out, device.path());
    push_str(
        &mut out,
        " name=\"video-source\" ! capsfilter caps=\"video/x-raw, width=1920, height=1080, format=YUY2, framerate=25/1\" ! tee name=t t. ! queue ! autovideosink t. ! queue ! videoconvert ! x264enc bitrate=8000 speed-preset=ultrafast tune=zerolatency ! video/x-h264 ! matroskamux ! filesink location=",
    );
    push_str(&mut out, output_file);
    let description = string_of(&out);
    assert(description@ =~= pipeline_description_of(device@, output_file@));
    description
}

/// A message on the pipeline's bus, as far as the recording cares.
#[derive(Debug, Clone, Copy, PartialEq, Eq, Structural)]
pub enum BusMessage {
    /// An element failed.
    Error,
    /// The stream has ended.
    Eos,
    /// The pipeline lost its clock.
    ClockLost,
    /// Anything else.
    Other,
}

/// A state of the pipeline.
#[derive(Debug, Clone, Copy, PartialEq, Eq, Structural)]
pub enum PipelineState {
    Ready,
    Paused,
    Playing,
}

/// What to do on a bus message: the states to put the pipeline in, in
/// order, and whether to leave the main loop.
#[derive(Debug, Clone, PartialEq, Eq)]
pub struct BusReaction {
    pub states: Vec<PipelineState>,
    pub quit: bool,
}

/// The states to put the pipeline in on a bus message: a failure and the
/// end of the stream make it ready; a lost clock pauses and restarts it.
pub open spec fn states_on(message: BusMessage) -> Seq<PipelineState> {
    match message {
        BusMessage::Error => seq![PipelineState::Ready],
        BusMessage::Eos => seq![PipelineState::Ready],
        BusMessage::ClockLost => seq![PipelineState::Paused, PipelineState::Playing],
        BusMessage::Other => Seq::empty(),
    }
}

/// Whether a bus message ends the main loop: a failure and the end of the
/// stream do.
pub open spec fn quits_on(message: BusMessage) -> bool {
    message == BusMessage::Error || message == BusMessage::Eos
}

/// What to do on a bus message.
pub fn on_bus_message(message: BusMessage) -> (reaction: BusReaction)
    ensures
        reaction.states@ == states_on(message),
        reaction.quit == quits_on(message),
{
    let mut states: Vec<PipelineState> = Vec::new();
    match message {
        BusMessage::Error => {
            states.push(PipelineState::Ready);
            BusReaction { states, quit: true }
        },
        BusMessage::Eos => {
            states.push(PipelineState::Ready);
            BusReaction { states, quit: true }
        },
        BusMessage::ClockLost => {
            states.push(PipelineState::Paused);
            states.push(PipelineState::Playing);
            BusReaction { states, quit: false }
        },
        BusMessage::Other => BusReaction { states, quit: false },
    }
}

/// How the pipeline's thread ended, where it has.
#[derive(Debug, Clone, PartialEq, Eq)]
pub enum Finished {
    /// The recording stopped by itself.
    Stopped,
    /// The recording failed, for the reason given.
    Failed(String),
}

/// Why the recording did not get going.
#[derive(Debug, Clone, PartialEq, Eq)]
pub enum StartupError {
    /// The recording stopped by itself within the startup delay.
    StoppedAtOnce,
    /// The recording failed within the startup delay.
    Failed(String),
}

/// Whether the recording got going, given how its thread ended within
/// the startup delay, if it did.
pub open spec fn startup_verdict(finished: Option<Finished>) -> Result<(), StartupError> {
    match finished {
        None => Ok(()),
        Some(Finished::Stopped) => Err(StartupError::StoppedAtOnce),
        Some(Finished::Failed(why)) => Err(StartupError::Failed(why)),
    }
}

/// The recording in progress: the device, the file, and whether it was
/// asked to stop.
#[derive(Debug, Clone, PartialEq, Eq)]
pub struct GstreamerInstance {
    pub video_device: VideoDevice,
    pub video_file_path: String,
    pub cancelled: bool,
}

impl GstreamerInstance {
    /// The recording of `video_device` to `output_file_path`, where it got
    /// going.
    pub fn new(video_device: VideoDevice, output_file_path: String, finished: Option<Finished>) -> (instance:
        Result<GstreamerInstance, StartupError>)
        ensures
            match instance {
                Ok(i) => startup_verdict(finished) is Ok && i.video_device == video_device
                    && i.video_file_path == output_file_path && !i.cancelled,
                Err(e) => startup_verdict(finished) == Err::<(), StartupError>(e),
            },
    {
        match finished {
            None => Ok(
                GstreamerInstance {
                    video_device,
                    video_file_path: output_file_path,
                    cancelled: false,
                },
            ),
            Some(Finished::Stopped) => Err(StartupError::StoppedAtOnce),
            Some(Finished::Failed(why)) => Err(StartupError::Failed(why)),
        }
    }

    /// The size of the recording's file for display, given its length or
    /// why the length could not be read.
    pub fn file_size(&self, length: Result<u64, String>) -> (size: Result<String, String>)
        ensures
            match length {
                Ok(bytes) => size matches Ok(text) && text@ == binary_size_text(bytes),
                Err(why) => size matches Err(e) && e@ == "reading file metadata: "@ + why@,
            },
    {
        file_size(length)
    }

    /// Marks the recording as asked to stop.
    pub fn cancel(&mut self)
        ensures
            final(self).cancelled,
            final(self).video_device == old(self).video_device,
            final(self).video_file_path == old(self).video_file_path,
    {
        self.cancelled = true;
    }

    /// Whether the recording runs: it was not asked to stop, and its
    /// thread has not ended.
    pub fn is_running(&self, finished: bool) -> (running: bool)
        ensures
            running == !(self.cancelled || finished),
    {
        !(self.cancelled || finished)
    }
}

impl StartupError {
    /// The error in words.
    pub fn message(&self) -> (text: String)
        ensures
            text@ == (match *self {
                StartupError::StoppedAtOnce => "the recording stopped at once"@,
                StartupError::Failed(why) => why@,
            }),
    {
        match self {
            StartupError::StoppedAtOnce => "the recording stopped at once".to_owned(),
            StartupError::Failed(why) => why.clone(),
        }
    }
}

} // verus!
