//! The space left where the sessions are kept.

use vstd::prelude::*;
use crate::text::{push_str, push_text, string_of, texts};
use crate::video_capture::CommandOutput;

verus! {

/// The program that reports the space left.
pub const PROGRAM: &'static str = "df";

/// How long to wait between two reports, in milliseconds.
pub const INTERVAL_MS: u64 = 1000;

/// The arguments that report the space left in `directory`.
pub fn arguments(directory: &str) -> (arguments: Vec<String>)
    ensures
        texts(arguments@) == seq!["-P"@, "-h"@, directory@],
{
    let mut arguments: Vec<String> = Vec::new();
    assert(texts(arguments@) =~= Seq::<Seq<char>>::empty());
    push_text(&mut arguments, "-P");
    push_text(&mut arguments, "-h");
    push_text(&mut arguments, directory);
    assert(texts(arguments@) =~= seq!["-P"@, "-h"@, directory@]);
    arguments
}

/// What the panel shows after a report: what the program wrote where it
/// succeeded, and else why there is no report.
pub open spec fn report_of(outcome: Result<CommandOutput, String>) -> Seq<char> {
    match outcome {
        Err(why) => "process failed: "@ + why@,
        Ok(output) => if output.success {
            output.stdout@
        } else {
            "exited ["@ + output.status@ + "]"@
        },
    }
}

/// The space left where the sessions are kept, as the panel shows it.
#[derive(Debug, Clone, PartialEq, Eq)]
pub struct SpaceAvailableWatcher {
    pub directory: String,
    pub stdout: String,
}

impl SpaceAvailableWatcher {
    /// The panel for `target_directory`, before the first report.
    pub fn new(target_directory: String) -> (watcher: SpaceAvailableWatcher)
        ensures
            watcher.directory == target_directory,
            watcher.stdout@ == Seq::<char>::empty(),
    {
        SpaceAvailableWatcher { directory: target_directory, stdout: String::new() }
    }

    /// Takes a report: it replaces what the panel showed.
    pub fn report(&mut self, outcome: Result<CommandOutput, String>)
        ensures
            final(self).directory == old(self).directory,
            final(self).stdout@ == report_of(outcome),
    {
        let mut out: Vec<char> = Vec::new();
        match outcome {
            Err(why) => {
                push_str(&mut out, "process failed: ");
                push_str(&mut out, why.as_str());
            },
            Ok(output) => {
                if output.success {
                    push_str(&mut out, output.stdout.as_str());
                } else {
                    push_str(&mut out, "exited [");
                    push_str(&mut out, output.status.as_str());
                    push_str(&mut out, "]");
                }
            },
        }
        self.stdout = string_of(&out);
        assert(self.stdout@ =~= report_of(outcome));
    }

    /// The panel's title.
    pub fn title(&self) -> (title: String)
        ensures
            title@ == "available: ["@ + self.directory@ + "]"@,
    {
        let mut out: Vec<char> = Vec::new();
        push_str(&mut out, "available: [");
        push_str(&mut out, self.directory.as_str());
        push_str(&mut out, "]");
        string_of(&out)
    }
}

} // verus!
