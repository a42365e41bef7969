//! The session: what it is made of, the order in which it is set up, and
//! what the events of its loop call for.

use vstd::prelude::*;
use crate::directory_shenanigans::ExistingDirectory;
use crate::video_capture::VideoDevice;

verus! {

/// How long the supervised processes get to end after the session, in
/// seconds.
pub const CLEANUP_DEADLINE_SECONDS: u64 = 5;

/// Where sessions are kept unless told otherwise.
pub const DEFAULT_SESSIONS_DIRECTORY: &'static str = "/mnt/md0/manual-backup/reaper-sessions";

/// The name of a project.
#[derive(Debug, Clone, PartialEq, Eq)]
pub struct ProjectName(pub String);

impl View for ProjectName {
    type V = Seq<char>;

    open spec fn view(&self) -> Seq<char> {
        self.0@
    }
}

impl ProjectName {
    /// The project called `name`. Every text is a name.
    pub fn from_str(name: &str) -> (project: ProjectName)
        ensures
            project@ == name@,
    {
        ProjectName(name.to_owned())
    }

    /// The name as text.
    pub fn as_str(&self) -> (name: &str)
        ensures
            name@ == self@,
    {
        self.0.as_str()
    }
}

/// The directory that holds all sessions.
#[derive(Debug, Clone, PartialEq, Eq)]
pub struct SessionsDirectory(pub ExistingDirectory);

/// What a recording session is started with.
#[derive(Debug, Clone, PartialEq, Eq)]
pub struct MainConfig {
    /// The directory that holds all sessions.
    pub sessions_directory: SessionsDirectory,
    /// The project to create or to open.
    pub project_name: ProjectName,
    /// The path of the project template.
    pub template: String,
    /// The address of the workstation's remote control.
    pub reaper_web_base_url: String,
    /// The capture device to record.
    pub video_device: VideoDevice,
}

/// Where the session's log goes.
#[derive(Debug, Clone, Copy, PartialEq, Eq, Structural)]
pub enum TracingKind {
    FileBased,
    TerminalBased,
}

impl TracingKind {
    /// Where the log goes: to a file while the terminal shows the
    /// dashboard of a recording, else to the terminal.
    pub fn of_command(records: bool) -> (kind: TracingKind)
        ensures
            kind == if records {
                TracingKind::FileBased
            } else {
                TracingKind::TerminalBased
            },
    {
        if records {
            TracingKind::FileBased
        } else {
            TracingKind::TerminalBased
        }
    }
}

/// What the terminal reports, as far as the session's loop cares.
#[derive(Debug, Clone, Copy, PartialEq, Eq, Structural)]
pub enum TerminalEvent {
    /// A key was pressed: the character that it stands for, if it stands
    /// for one.
    Key(Option<char>),
    FocusGained,
    FocusLost,
    Resize,
    Mouse,
    Paste,
}

/// What the session's loop wakes up for.
#[derive(Debug, Clone, Copy, PartialEq, Eq, Structural)]
pub enum AppEvent {
    /// The terminal reported something.
    Terminal(TerminalEvent),
    /// The event bus woke the loop: shared state has changed.
    StateUpdated,
}

/// What the session's loop does on an event.
#[derive(Debug, Clone, Copy, PartialEq, Eq, Structural)]
pub enum AppAction {
    Redraw,
    Quit,
    Nothing,
}

/// What an event calls for: `q` ends the session, whatever modifier keys
/// are held; changed state, regained focus and a new size call for a new
/// picture; nothing else calls for anything.
pub open spec fn action_on(event: AppEvent) -> AppAction {
    match event {
        AppEvent::StateUpdated => AppAction::Redraw,
        AppEvent::Terminal(TerminalEvent::Key(Some(c))) => if c == 'q' {
            AppAction::Quit
        } else {
            AppAction::Nothing
        },
        AppEvent::Terminal(TerminalEvent::FocusGained) => AppAction::Redraw,
        AppEvent::Terminal(TerminalEvent::Resize) => AppAction::Redraw,
        AppEvent::Terminal(_) => AppAction::Nothing,
    }
}

/// What the session's loop does on `event`.
pub fn run_app(event: AppEvent) -> (action: AppAction)
    ensures
        action == action_on(event),
{
    match event {
        AppEvent::StateUpdated => AppAction::Redraw,
        AppEvent::Terminal(terminal) => match terminal {
            TerminalEvent::Key(key) => match key {
                Some(c) => if c == 'q' {
                    AppAction::Quit
                } else {
                    AppAction::Nothing
                },
                None => AppAction::Nothing,
            },
            TerminalEvent::FocusGained => AppAction::Redraw,
            TerminalEvent::Resize => AppAction::Redraw,
            TerminalEvent::FocusLost => AppAction::Nothing,
            TerminalEvent::Mouse => AppAction::Nothing,
            TerminalEvent::Paste => AppAction::Nothing,
        },
    }
}

/// A part of the session, in the order in which the parts are started.
#[derive(Debug, Clone, Copy, PartialEq, Eq, Structural)]
pub enum SetupStep {
    /// The patchbay.
    Patchbay,
    /// The video recorder.
    Recorder,
    /// The project template with the video track.
    Template,
    /// The audio workstation.
    Workstation,
}

/// Where the setup of a session stands.
#[derive(Debug, Clone, Copy, PartialEq, Eq, Structural)]
pub enum SetupProgress {
    /// This part is started next.
    Next(SetupStep),
    /// Every part runs: the session starts.
    Ready,
    /// This part failed: no session starts.
    Aborted(SetupStep),
}

impl SetupStep {
    /// The part that is started after this one.
    pub open spec fn following(self) -> Option<SetupStep> {
        match self {
            SetupStep::Patchbay => Some(SetupStep::Recorder),
            SetupStep::Recorder => Some(SetupStep::Template),
            SetupStep::Template => Some(SetupStep::Workstation),
            SetupStep::Workstation => None,
        }
    }

    /// Where the setup stands once this part was tried: a failure aborts
    /// it, and after the last part the session is ready.
    pub open spec fn progress_after(self, started: bool) -> SetupProgress {
        if !started {
            SetupProgress::Aborted(self)
        } else {
            match self.following() {
                Some(step) => SetupProgress::Next(step),
                None => SetupProgress::Ready,
            }
        }
    }

    /// What the failure of this part is called.
    pub open spec fn context_spec(self) -> Seq<char> {
        match self {
            SetupStep::Patchbay => "Spawning qpwgraph"@,
            SetupStep::Recorder => "spawning video recorder"@,
            SetupStep::Template => "preparing the project template"@,
            SetupStep::Workstation => "starting reaper"@,
        }
    }

    /// What the failure of this part is called.
    pub fn context(self) -> (context: &'static str)
        ensures
            context@ == self.context_spec(),
    {
        match self {
            SetupStep::Patchbay => "Spawning qpwgraph",
            SetupStep::Recorder => "spawning video recorder",
            SetupStep::Template => "preparing the project template",
            SetupStep::Workstation => "starting reaper",
        }
    }
}

/// The setup of a session, part by part.
#[derive(Debug, Clone, Copy, PartialEq, Eq, Structural)]
pub struct StudioState {
    pub progress: SetupProgress,
}

impl StudioState {
    /// The setup before any part is started.
    pub fn new() -> (state: StudioState)
        ensures
            state.progress == SetupProgress::Next(SetupStep::Patchbay),
    {
        StudioState { progress: SetupProgress::Next(SetupStep::Patchbay) }
    }

    /// Takes whether the part that was due could be started. Once the
    /// setup is ready or aborted, nothing changes it.
    pub fn started(&mut self, started: bool)
        ensures
            final(self).progress == match old(self).progress {
                SetupProgress::Next(step) => step.progress_after(started),
                done => done,
            },
    {
        self.progress = match self.progress {
            SetupProgress::Next(step) => {
                if !started {
                    SetupProgress::Aborted(step)
                } else {
                    match step {
                        SetupStep::Patchbay => SetupProgress::Next(SetupStep::Recorder),
                        SetupStep::Recorder => SetupProgress::Next(SetupStep::Template),
                        SetupStep::Template => SetupProgress::Next(SetupStep::Workstation),
                        SetupStep::Workstation => SetupProgress::Ready,
                    }
                }
            },
            done => done,
        };
    }
}

/// Where the setup stands after the parts that were due came out as
/// `outcomes` tell, in order.
pub open spec fn progress_after_all(outcomes: Seq<bool>) -> SetupProgress
    decreases outcomes.len(),
{
    if outcomes.len() == 0 {
        SetupProgress::Next(SetupStep::Patchbay)
    } else {
        match progress_after_all(outcomes.drop_last()) {
            SetupProgress::Next(step) => step.progress_after(outcomes.last()),
            done => done,
        }
    }
}

/// No partial session starts: the setup is ready exactly when four parts
/// were tried and the first four all started; a part that fails aborts
/// the setup for good.
pub proof fn law_session_starts_whole_or_not_at_all(outcomes: Seq<bool>)
    ensures
        progress_after_all(outcomes) is Ready <==> outcomes.len() >= 4 && outcomes[0]
            && outcomes[1] && outcomes[2] && outcomes[3],
        progress_after_all(outcomes) is Aborted <==> exists|i: int|
            0 <= i < outcomes.len() && i < 4 && !#[trigger] outcomes[i],
    decreases outcomes.len(),
{
    if outcomes.len() > 0 {
        let before = outcomes.drop_last();
        law_session_starts_whole_or_not_at_all(before);
        lemma_progress_counts(before);
        lemma_progress_counts(outcomes);
        let last = outcomes.len() - 1;
        assert(forall|i: int| 0 <= i < before.len() ==> before[i] == outcomes[i]);
        if progress_after_all(outcomes) is Aborted {
            if progress_after_all(before) is Aborted {
                let i = choose|i: int| 0 <= i < before.len() && i < 4 && !#[trigger] before[i];
                assert(!outcomes[i]);
            } else {
                assert(!outcomes[last]);
            }
        }
        if exists|i: int| 0 <= i < outcomes.len() && i < 4 && !#[trigger] outcomes[i] {
            let i = choose|i: int| 0 <= i < outcomes.len() && i < 4 && !#[trigger] outcomes[i];
            if i < last {
                assert(!before[i]);
            }
        }
    }
}

/// While no part has failed, the part that is due is the one after the
/// parts that were tried.
proof fn lemma_progress_counts(outcomes: Seq<bool>)
    ensures
        match progress_after_all(outcomes) {
            SetupProgress::Next(SetupStep::Patchbay) => outcomes.len() == 0,
            SetupProgress::Next(SetupStep::Recorder) => outcomes.len() == 1,
            SetupProgress::Next(SetupStep::Template) => outcomes.len() == 2,
            SetupProgress::Next(SetupStep::Workstation) => outcomes.len() == 3,
            SetupProgress::Ready => outcomes.len() >= 4,
            SetupProgress::Aborted(_) => outcomes.len() >= 1,
        },
        !(progress_after_all(outcomes) is Aborted) ==> forall|i: int|
            0 <= i < outcomes.len() && i < 4 ==> outcomes[i],
    decreases outcomes.len(),
{
    if outcomes.len() > 0 {
        let before = outcomes.drop_last();
        lemma_progress_counts(before);
        assert(forall|i: int| 0 <= i < before.len() ==> before[i] == outcomes[i]);
    }
}

} // verus!
