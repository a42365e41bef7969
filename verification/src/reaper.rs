//! The audio workstation: its flags, its command line and the polling of
//! its transport state.

use vstd::prelude::*;
use crate::directory_shenanigans::{joined, join, ExistingDirectory};
use crate::process::ProcessEvent;
use crate::reaper::reaper_web_client::{
    interpreted, run_single, ActionId, Reply, RequestError, RequestFailure, TransportResponse,
    TransportState,
};
use crate::text::{push_str, push_text, string_of, texts};

pub mod reaper_web_client;

verus! {

/// A flag as the workstation's remote-control protocol writes it.
#[derive(Debug, Clone, Copy, PartialEq, Eq, Structural)]
pub enum ReaperBool {
    False,
    True,
}

impl ReaperBool {
    /// The flag that the protocol writes as `n`.
    pub open spec fn of_repr(n: nat) -> Option<ReaperBool> {
        if n == 0 {
            Some(ReaperBool::False)
        } else if n == 1 {
            Some(ReaperBool::True)
        } else {
            None
        }
    }

    /// The number that the protocol writes for this flag.
    pub open spec fn repr_spec(self) -> nat {
        match self {
            ReaperBool::False => 0,
            ReaperBool::True => 1,
        }
    }

    /// The flag that the protocol writes as `n`, if there is one.
    pub fn from_repr(n: usize) -> (flag: Option<ReaperBool>)
        ensures
            flag == Self::of_repr(n as nat),
    {
        if n == 0 {
            Some(ReaperBool::False)
        } else if n == 1 {
            Some(ReaperBool::True)
        } else {
            None
        }
    }

    /// The number that the protocol writes for this flag.
    pub fn repr(self) -> (n: usize)
        ensures
            n == self.repr_spec(),
            Self::of_repr(n as nat) == Some(self),
    {
        match self {
            ReaperBool::False => 0,
            ReaperBool::True => 1,
        }
    }

    /// The flag as a truth value.
    pub fn is_true(self) -> (yes: bool)
        ensures
            yes == (self == ReaperBool::True),
    {
        match self {
            ReaperBool::False => false,
            ReaperBool::True => true,
        }
    }

    /// The flag's name: `False` or `True`.
    pub fn name(self) -> (name: String)
        ensures
            name@ == (match self {
                ReaperBool::False => "False"@,
                ReaperBool::True => "True"@,
            }),
    {
        match self {
            ReaperBool::False => "False".to_owned(),
            ReaperBool::True => "True".to_owned(),
        }
    }
}

/// The name of the environment variable that sets the audio latency of a
/// supervised process.
pub const LATENCY_VARIABLE: &'static str = "PIPEWIRE_LATENCY";

/// The audio latency that is asked for: frames to the rate.
pub const LATENCY: &'static str = "128/48000";

/// How long to wait between two polls of the transport, in milliseconds.
pub const POLL_INTERVAL_MS: u64 = 1000;

/// The path of a project's file: in the project's directory, the
/// project's name with the ending `.rpp`.
pub open spec fn project_file_of(directory: Seq<char>, project_name: Seq<char>) -> Seq<char> {
    joined(directory, project_name + ".rpp"@)
}

/// The path of a project's file.
pub fn project_file_path(directory: &ExistingDirectory, project_name: &str) -> (path: String)
    ensures
        path@ == project_file_of(directory@, project_name@),
{
    let mut name: Vec<char> = Vec::new();
    push_str(&mut name, project_name);
    push_str(&mut name, ".rpp");
    let name = string_of(&name);
    assert(name@ =~= project_name@ + ".rpp"@);
    join(directory.path(), name.as_str())
}

/// The workstation's arguments: an existing project is opened; a new one
/// is made from the template and saved under the project's path.
pub open spec fn launch_arguments_of(
    project_file: Seq<char>,
    template: Seq<char>,
    already_exists: bool,
) -> Seq<Seq<char>> {
    if already_exists {
        seq!["-nosplash"@, project_file]
    } else {
        seq!["-nosplash"@, "-new"@, "-saveas"@, project_file, "-template"@, template]
    }
}

/// The workstation's arguments.
pub fn launch_arguments(project_file: &str, template: &str, already_exists: bool) -> (arguments:
    Vec<String>)
    ensures
        texts(arguments@) == launch_arguments_of(project_file@, template@, already_exists),
{
    let mut arguments: Vec<String> = Vec::new();
    assert(texts(arguments@) =~= Seq::<Seq<char>>::empty());
    push_text(&mut arguments, "-nosplash");
    if already_exists {
        push_text(&mut arguments, project_file);
    } else {
        push_text(&mut arguments, "-new");
        push_text(&mut arguments, "-saveas");
        push_text(&mut arguments, project_file);
        push_text(&mut arguments, "-template");
        push_text(&mut arguments, template);
    }
    assert(texts(arguments@) =~= launch_arguments_of(project_file@, template@, already_exists));
    arguments
}

/// What is asked of the workstation once it answers: to record, where
/// the project is new.
pub fn startup_action(already_exists: bool) -> (action: Option<ActionId>)
    ensures
        action == if already_exists {
            None
        } else {
            Some(ActionId::TransportRecord)
        },
{
    if already_exists {
        None
    } else {
        Some(ActionId::TransportRecord)
    }
}

/// What is asked of the workstation when the session ends, in order: to
/// stop, then to save the project.
pub fn cleanup_actions() -> (actions: Vec<ActionId>)
    ensures
        actions@ == seq![ActionId::TransportStop, ActionId::SaveProject],
{
    let mut actions: Vec<ActionId> = Vec::new();
    actions.push(ActionId::TransportStop);
    actions.push(ActionId::SaveProject);
    actions
}

/// What is known of the workstation's transport: nothing before the first
/// poll, then what the last poll brought.
#[derive(Debug, Clone, PartialEq, Eq)]
pub struct ReaperInstance {
    state: Option<Result<TransportResponse, RequestError>>,
}

impl View for ReaperInstance {
    type V = Option<Result<TransportState, RequestFailure>>;

    closed spec fn view(&self) -> Option<Result<TransportState, RequestFailure>> {
        match self.state {
            None => None,
            Some(Ok(transport)) => Some(Ok(transport@)),
            Some(Err(e)) => Some(Err(e@)),
        }
    }
}

impl ReaperInstance {
    /// The state before the first poll.
    pub fn new() -> (instance: ReaperInstance)
        ensures
            instance@ is None,
    {
        ReaperInstance { state: None }
    }

    /// Takes what a poll of the transport brought: it replaces what was
    /// known, whole, whether it is a state or a failure. Returns the
    /// event to send.
    pub fn poll(&mut self, reply: Reply) -> (event: ProcessEvent)
        ensures
            final(self)@ == Some(interpreted::<TransportResponse>(reply)),
            event == ProcessEvent::NewOutput,
    {
        self.state = Some(run_single::<TransportResponse>(reply));
        ProcessEvent::NewOutput
    }

    /// What the last poll brought, if there was one.
    pub fn state(&self) -> (state: &Option<Result<TransportResponse, RequestError>>)
        ensures
            match *state {
                None => self@ is None,
                Some(Ok(transport)) => self@ == Some(
                    Ok::<TransportState, RequestFailure>(transport@),
                ),
                Some(Err(e)) => self@ == Some(Err::<TransportState, RequestFailure>(e@)),
            },
    {
        &self.state
    }
}

} // verus!
