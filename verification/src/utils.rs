//! Small tools of the supervision: pairing results, the health check of a
//! freshly started process, and the signal that ends it.

use vstd::prelude::*;
use crate::text::{contains, occurs_at, push_str, string_of};

verus! {

/// Both values where both results are; else the first error.
pub open spec fn zipped<T, U, E>(first: Result<T, E>, second: Result<U, E>) -> Result<(T, U), E> {
    match first {
        Ok(one) => match second {
            Ok(other) => Ok((one, other)),
            Err(message) => Err(message),
        },
        Err(message) => Err(message),
    }
}

/// Pairing two results.
pub trait ResultZipExt<T, E>: Sized {
    /// This value as a result.
    spec fn as_result(self) -> Result<T, E>;

    /// Both values where both results are; else the first error.
    fn zip<U>(self, other: Result<U, E>) -> (both: Result<(T, U), E>)
        ensures
            both == zipped(self.as_result(), other),
    ;
}

impl<T, E> ResultZipExt<T, E> for Result<T, E> {
    open spec fn as_result(self) -> Result<T, E> {
        self
    }

    fn zip<U>(self, other: Result<U, E>) -> (both: Result<(T, U), E>) {
        match self {
            Ok(one) => match other {
                Ok(other) => Ok((one, other)),
                Err(message) => Err(message),
            },
            Err(message) => Err(message),
        }
    }
}

/// How long to wait after starting a process before checking that it
/// still runs, in milliseconds.
pub const HEALTHCHECK_DELAY_MS: u64 = 50;

/// What was drained from an output stream of a process that ended.
#[derive(Debug, Clone, PartialEq, Eq)]
pub enum Capture {
    /// The text that the stream held.
    Text(String),
    /// The process has no such stream.
    NoStdio,
    /// Reading the stream failed, for the reason given.
    Unreadable(String),
}

/// What the health check saw of a freshly started process.
#[derive(Debug, Clone, PartialEq, Eq)]
pub enum Health {
    /// The process runs.
    Running,
    /// The process has ended with this exit status; the captures are what
    /// its output streams held.
    Exited(String, Capture, Capture),
    /// Asking failed, for the reason given.
    Unknown(String),
}

impl Capture {
    /// The text that was available of the stream: what it held, and
    /// nothing where the stream is not there or could not be read.
    pub open spec fn available(self) -> Seq<char> {
        match self {
            Capture::Text(text) => text@,
            Capture::NoStdio => Seq::empty(),
            Capture::Unreadable(_) => Seq::empty(),
        }
    }

    /// The text that was available of the stream.
    pub fn text(self) -> (text: String)
        ensures
            text@ == self.available(),
    {
        match self {
            Capture::Text(text) => text,
            Capture::NoStdio => String::new(),
            Capture::Unreadable(_) => String::new(),
        }
    }
}

/// Why a freshly started process is not supervised.
#[derive(Debug, Clone, PartialEq, Eq)]
pub enum LaunchError {
    /// The health check itself failed.
    HealthCheck(String),
    /// The process ended at once: its exit status, and what was available
    /// of its output and of its error stream.
    Exited(String, String, String),
}

/// The mathematical content of a [`LaunchError`].
pub enum LaunchFailure {
    HealthCheck(Seq<char>),
    Exited(Seq<char>, Seq<char>, Seq<char>),
}

impl View for LaunchError {
    type V = LaunchFailure;

    open spec fn view(&self) -> LaunchFailure {
        match self {
            LaunchError::HealthCheck(why) => LaunchFailure::HealthCheck(why@),
            LaunchError::Exited(code, stdout, stderr) => LaunchFailure::Exited(
                code@,
                stdout@,
                stderr@,
            ),
        }
    }
}

/// The message for a process that ended at once.
pub open spec fn exit_message(code: Seq<char>, stdout: Seq<char>, stderr: Seq<char>) -> Seq<char> {
    "\ncode: "@ + code + "\nstdout: "@ + stdout + "\n\nstderr: "@ + stderr
}

impl LaunchFailure {
    /// The failure in words.
    pub open spec fn message(self) -> Seq<char> {
        match self {
            LaunchFailure::HealthCheck(why) => "healthchecking process: "@ + why,
            LaunchFailure::Exited(code, stdout, stderr) => exit_message(code, stdout, stderr),
        }
    }
}

impl LaunchError {
    /// The failure in words.
    pub fn message(&self) -> (text: String)
        ensures
            text@ == self@.message(),
    {
        let mut out: Vec<char> = Vec::new();
        match self {
            LaunchError::HealthCheck(why) => {
                push_str(&mut out, "healthchecking process: ");
                push_str(&mut out, why.as_str());
            },
            LaunchError::Exited(code, stdout, stderr) => {
                push_str(&mut out, "\ncode: ");
                push_str(&mut out, code.as_str());
                push_str(&mut out, "\nstdout: ");
                push_str(&mut out, stdout.as_str());
                push_str(&mut out, "\n\nstderr: ");
                push_str(&mut out, stderr.as_str());
            },
        }
        let text = string_of(&out);
        assert(text@ =~= self@.message());
        text
    }
}

/// What the health check comes to: a running process passes; one that
/// ended fails with its exit status and with what was available of its
/// output and of its error stream.
pub open spec fn health_verdict(health: Health) -> Result<(), LaunchFailure> {
    match health {
        Health::Running => Ok(()),
        Health::Unknown(why) => Err(LaunchFailure::HealthCheck(why@)),
        Health::Exited(code, stdout, stderr) => Err(
            LaunchFailure::Exited(code@, stdout.available(), stderr.available()),
        ),
    }
}

/// The process id to which the signal to end goes for a process with id
/// `pid`: that id, where it is known and a signal can name it.
pub open spec fn signal_target(pid: Option<u32>) -> Option<i32> {
    match pid {
        Some(id) => if id <= i32::MAX {
            Some(id as i32)
        } else {
            None
        },
        None => None,
    }
}

/// A started process that passed its health check. When it is let go, it
/// is asked to end by a signal and is not waited for.
#[derive(Debug, PartialEq, Eq)]
pub struct GracefullyShutdownChild {
    pid: Option<u32>,
}

impl GracefullyShutdownChild {
    /// The id of the process, where it is known.
    pub closed spec fn pid_spec(&self) -> Option<u32> {
        self.pid
    }

    /// Takes charge of the process with id `pid`, given what the health
    /// check saw of it after the delay.
    pub fn gracefully_shutdown_on_drop(pid: Option<u32>, health: Health) -> (child: Result<
        GracefullyShutdownChild,
        LaunchError,
    >)
        ensures
            match child {
                Ok(c) => health_verdict(health) is Ok && c.pid_spec() == pid,
                Err(e) => health_verdict(health) == Err::<(), LaunchFailure>(e@),
            },
    {
        match health {
            Health::Running => Ok(GracefullyShutdownChild { pid }),
            Health::Unknown(why) => Err(LaunchError::HealthCheck(why)),
            Health::Exited(code, stdout, stderr) => Err(
                LaunchError::Exited(code, stdout.text(), stderr.text()),
            ),
        }
    }

    /// The id of the process, where it is known.
    pub fn pid(&self) -> (pid: Option<u32>)
        ensures
            pid == self.pid_spec(),
    {
        self.pid
    }

    /// The process ids that get the signal to end when this process is
    /// let go: its own, once, and no other.
    pub fn signals_on_drop(&self) -> (targets: Vec<i32>)
        ensures
            targets@ == match signal_target(self.pid_spec()) {
                Some(id) => seq![id],
                None => Seq::<i32>::empty(),
            },
    {
        let mut targets: Vec<i32> = Vec::new();
        match self.pid {
            Some(id) => {
                if id <= 2147483647 {
                    targets.push(id as i32);
                }
            },
            None => {},
        }
        targets
    }
}

/// The message for a process that ended at once holds its exit status and
/// what it wrote to either stream.
pub proof fn law_exit_message_holds_status_and_output(
    code: Seq<char>,
    stdout: Seq<char>,
    stderr: Seq<char>,
)
    ensures
        contains(exit_message(code, stdout, stderr), code),
        contains(exit_message(code, stdout, stderr), stdout),
        contains(exit_message(code, stdout, stderr), stderr),
{
    let message = exit_message(code, stdout, stderr);
    let a = "\ncode: "@;
    let b = "\nstdout: "@;
    let c = "\n\nstderr: "@;
    let at_code = a.len() as int;
    let at_stdout = at_code + code.len() + b.len();
    let at_stderr = at_stdout + stdout.len() + c.len();
    assert(message.subrange(at_code, at_code + code.len()) =~= code);
    assert(message.subrange(at_stdout, at_stdout + stdout.len()) =~= stdout);
    assert(message.subrange(at_stderr, at_stderr + stderr.len()) =~= stderr);
    assert(occurs_at(message, code, at_code));
    assert(occurs_at(message, stdout, at_stdout));
    assert(occurs_at(message, stderr, at_stderr));
}

/// Every failure of a process that ended within the health check names
/// its exit status and holds what was available of its error stream and
/// of its output.
pub proof fn law_launch_failure_names_status_and_output(
    code: String,
    stdout: Capture,
    stderr: Capture,
)
    ensures
        health_verdict(Health::Exited(code, stdout, stderr)) matches Err(failure) && contains(
            failure.message(),
            code@,
        ) && contains(failure.message(), stderr.available()) && contains(
            failure.message(),
            stdout.available(),
        ),
{
    law_exit_message_holds_status_and_output(code@, stdout.available(), stderr.available());
}

} // verus!
