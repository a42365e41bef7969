//! Supervised processes: their output, kept in bounded buffers, and their
//! status.

use std::collections::VecDeque;
use vstd::prelude::*;
use itertools::Itertools;
use crate::text::{push_str, string_of};

verus! {

/// What wakes the consumer of the event bus. An event carries no data:
/// the consumer reads the shared state again.
#[derive(Debug, Clone, Copy, PartialEq, Eq, Structural)]
pub enum ProcessEvent {
    /// A process wrote a line, or polled state was replaced.
    NewOutput,
    /// A process ended.
    ProcessExited,
}

/// A point in time: whole seconds since the Unix epoch, and the
/// nanoseconds since the last whole second.
#[derive(Debug, Clone, Copy, PartialEq, Eq, Structural)]
pub struct ProjectTime {
    pub seconds: i64,
    pub nanos: u32,
}

impl ProjectTime {
    /// The pair by which points in time are ordered.
    pub fn key(&self) -> (key: (i64, u32))
        ensures
            key == (self.seconds, self.nanos),
    {
        (self.seconds, self.nanos)
    }

    /// This point in time is not after `other`.
    pub open spec fn not_after(self, other: ProjectTime) -> bool {
        self.seconds < other.seconds || (self.seconds == other.seconds && self.nanos
            <= other.nanos)
    }
}

/// The current time, from `chrono::Local::now`: what `DateTime::timestamp`
/// and `DateTime::timestamp_subsec_nanos` give for it. Nothing is claimed
/// of the value.
#[verifier::external_body]
pub fn now() -> (time: ProjectTime) {
    let now = chrono::Local::now();
    ProjectTime { seconds: now.timestamp(), nanos: now.timestamp_subsec_nanos() }
}

/// A line of a process's output, with the time at which it was read.
#[derive(Debug, Clone, PartialEq, Eq)]
pub struct StdioMessage {
    pub time: ProjectTime,
    pub line: String,
}

impl StdioMessage {
    /// The line `line`, read at `time`.
    pub fn at(time: ProjectTime, line: String) -> (message: StdioMessage)
        ensures
            message.time == time,
            message.line == line,
    {
        StdioMessage { time, line }
    }

    /// The line `line`, read now.
    pub fn new(line: String) -> (message: StdioMessage)
        ensures
            message.line == line,
    {
        Self::at(now(), line)
    }

    /// A copy of this message.
    pub fn duplicate(&self) -> (copy: StdioMessage)
        ensures
            copy == *self,
    {
        StdioMessage { time: self.time, line: self.line.clone() }
    }
}

/// What a buffer of capacity `capacity` holds after `message` arrives:
/// the message in front of what it held, without the oldest message where
/// that would be one too many.
pub open spec fn pushed(held: Seq<StdioMessage>, message: StdioMessage, capacity: nat) -> Seq<
    StdioMessage,
> {
    if held.len() + 1 > capacity {
        (seq![message] + held).take(capacity as int)
    } else {
        seq![message] + held
    }
}

/// A bounded buffer of the most recent lines of one output stream, the
/// newest first.
#[derive(Debug)]
pub struct StdioWatcher {
    inner: VecDeque<StdioMessage>,
    capacity: usize,
}

impl View for StdioWatcher {
    type V = Seq<StdioMessage>;

    closed spec fn view(&self) -> Seq<StdioMessage> {
        self.inner@
    }
}

impl StdioWatcher {
    /// The number of lines that a buffer keeps unless told otherwise.
    pub const MESSAGE_CAPACITY: usize = 200;

    #[verifier::type_invariant]
    spec fn within_capacity(&self) -> bool {
        self.inner@.len() <= self.capacity
    }

    /// The most lines that this buffer keeps.
    pub closed spec fn capacity_spec(&self) -> nat {
        self.capacity as nat
    }

    /// An empty buffer that keeps 200 lines.
    pub fn new() -> (watcher: StdioWatcher)
        ensures
            watcher@ == Seq::<StdioMessage>::empty(),
            watcher.capacity_spec() == 200,
    {
        Self::with_capacity(Self::MESSAGE_CAPACITY)
    }

    /// An empty buffer that keeps `capacity` lines.
    pub fn with_capacity(capacity: usize) -> (watcher: StdioWatcher)
        ensures
            watcher@ == Seq::<StdioMessage>::empty(),
            watcher.capacity_spec() == capacity,
    {
        StdioWatcher { inner: VecDeque::new(), capacity }
    }

    /// The most lines that this buffer keeps.
    pub fn capacity(&self) -> (capacity: usize)
        ensures
            capacity == self.capacity_spec(),
    {
        self.capacity
    }

    /// The number of lines held, which is never above the capacity.
    pub fn len(&self) -> (len: usize)
        ensures
            len == self@.len(),
            len <= self.capacity_spec(),
    {
        proof {
            use_type_invariant(self);
        }
        self.inner.len()
    }

    /// Puts `message` in front, and drops the oldest message where the
    /// buffer would hold more than its capacity.
    pub fn push(&mut self, message: StdioMessage)
        ensures
            final(self)@ == pushed(old(self)@, message, old(self).capacity_spec()),
            final(self).capacity_spec() == old(self).capacity_spec(),
            final(self)@.len() <= final(self).capacity_spec(),
    {
        proof {
            use_type_invariant(&*self);
        }
        if self.capacity == 0 {
            assert(pushed(self@, message, 0) =~= self@);
            return ;
        }
        let mut inner: VecDeque<StdioMessage> = VecDeque::new();
        std::mem::swap(&mut inner, &mut self.inner);
        if inner.len() >= self.capacity {
            inner.pop_back();
        }
        inner.push_front(message);
        self.inner = inner;
        assert(self@ =~= pushed(old(self)@, message, old(self).capacity_spec()));
    }

    /// A copy of the lines held, the newest first.
    pub fn snapshot(&self) -> (lines: Vec<StdioMessage>)
        ensures
            lines@ == self@,
            lines@.len() <= self.capacity_spec(),
    {
        proof {
            use_type_invariant(self);
        }
        let mut lines: Vec<StdioMessage> = Vec::new();
        let mut i: usize = 0;
        while i < self.inner.len()
            invariant
                i <= self.inner@.len(),
                lines@ == self.inner@.take(i as int),
            decreases self.inner@.len() - i,
        {
            lines.push(self.inner[i].duplicate());
            i += 1;
        }
        assert(self.inner@.take(self.inner@.len() as int) =~= self.inner@);
        lines
    }

    /// One step of tailing a stream: a line was read at `time`, and
    /// `notified` says whether the event for it could be sent. The line is
    /// kept either way, and the tailing goes on: a send that failed is
    /// for the caller to log, and ends nothing. Returns whether to go on
    /// reading, which is always so.
    pub fn watching(&mut self, line: String, notified: bool, time: ProjectTime) -> (go_on: bool)
        ensures
            go_on,
            final(self).capacity_spec() == old(self).capacity_spec(),
            final(self)@ == pushed(
                old(self)@,
                StdioMessage { time, line },
                old(self).capacity_spec(),
            ),
    {
        self.push(StdioMessage::at(time, line));
        true
    }
}

/// The messages of `messages` that were read at `time`, in their order.
pub open spec fn read_at(messages: Seq<StdioMessage>, time: ProjectTime) -> Seq<StdioMessage> {
    messages.filter(|m: StdioMessage| m.time == time)
}

/// No message of `messages` stands before one that was read earlier.
pub open spec fn ordered_by_time(messages: Seq<StdioMessage>) -> bool {
    forall|i: int, j: int|
        0 <= i <= j < messages.len() ==> (#[trigger] messages[i]).time.not_after(
            (#[trigger] messages[j]).time,
        )
}

/// `ordered` holds the messages of `messages` by the time at which they
/// were read, and those read at the same time in the order in which
/// `messages` holds them.
pub open spec fn is_time_ordering_of(ordered: Seq<StdioMessage>, messages: Seq<StdioMessage>) -> bool {
    &&& ordered.len() == messages.len()
    &&& ordered_by_time(ordered)
    &&& forall|time: ProjectTime| #[trigger] read_at(ordered, time) == read_at(messages, time)
}

/// `Itertools::sorted_by_key` on the messages, with the time's pair of
/// numbers as the key: a stable sort, so the result holds the same
/// messages in ascending order of time, and messages of equal time keep
/// their order.
#[verifier::external_body]
fn sorted_by_time(messages: Vec<StdioMessage>) -> (ordered: Vec<StdioMessage>)
    ensures
        is_time_ordering_of(ordered@, messages@),
{
    messages.into_iter().sorted_by_key(|m| m.time.key()).collect()
}

/// The lines of two streams as one, ordered by the time at which they
/// were read. Lines read at the same time keep their order, those of
/// `first` before those of `second`.
pub fn merged(first: Vec<StdioMessage>, second: Vec<StdioMessage>) -> (ordered: Vec<StdioMessage>)
    ensures
        is_time_ordering_of(ordered@, first@ + second@),
{
    let mut all = first;
    let mut rest = second;
    all.append(&mut rest);
    sorted_by_time(all)
}

/// The text of each message, in order.
pub fn lines_of(messages: &Vec<StdioMessage>) -> (lines: Vec<String>)
    ensures
        lines@.len() == messages@.len(),
        forall|i: int| 0 <= i < lines@.len() ==> lines@[i] == messages@[i].line,
{
    let mut lines: Vec<String> = Vec::new();
    let mut i: usize = 0;
    while i < messages.len()
        invariant
            i <= messages.len(),
            lines@.len() == i,
            forall|j: int| 0 <= j < i ==> lines@[j] == messages@[j].line,
        decreases messages.len() - i,
    {
        lines.push(messages[i].line.clone());
        i += 1;
    }
    lines
}

/// Whether a process runs, or how it ended.
#[derive(Debug, Clone, PartialEq, Eq)]
pub enum ProcessStatus {
    Running,
    Exited(String),
}

/// The mathematical content of a [`ProcessStatus`].
pub enum Status {
    Running,
    Exited(Seq<char>),
}

impl View for ProcessStatus {
    type V = Status;

    open spec fn view(&self) -> Status {
        match self {
            ProcessStatus::Running => Status::Running,
            ProcessStatus::Exited(how) => Status::Exited(how@),
        }
    }
}

/// One of the two output streams of a process.
#[derive(Debug, Clone, Copy, PartialEq, Eq, Structural)]
pub enum Stream {
    Stdout,
    Stderr,
}

/// A supervised process: its name, the buffers of its output streams, and
/// how it ended once it has.
#[derive(Debug)]
pub struct ProcessWatcher {
    name: String,
    stdout: Option<StdioWatcher>,
    stderr: Option<StdioWatcher>,
    status: Option<String>,
}

/// The status after an exit is reported: the first report stays.
pub open spec fn after_exit(status: Status, how: Seq<char>) -> Status {
    match status {
        Status::Running => Status::Exited(how),
        Status::Exited(first) => Status::Exited(first),
    }
}

/// The title of a process's panel: its name, and how it ended once it has.
pub open spec fn title_of(name: Seq<char>, status: Status) -> Seq<char> {
    match status {
        Status::Running => name,
        Status::Exited(how) => name + " (exited: "@ + how + ")"@,
    }
}

/// The lines of an output stream, or none where the stream is not there.
pub open spec fn lines_or_none(lines: Option<Seq<StdioMessage>>) -> Seq<StdioMessage> {
    match lines {
        Some(held) => held,
        None => Seq::empty(),
    }
}

impl ProcessWatcher {
    /// The name of the process.
    pub closed spec fn name_spec(&self) -> Seq<char> {
        self.name@
    }

    /// The status of the process.
    pub closed spec fn status_spec(&self) -> Status {
        match self.status {
            None => Status::Running,
            Some(how) => Status::Exited(how@),
        }
    }

    /// The lines held of an output stream, the newest first, where the
    /// process has that stream.
    pub closed spec fn lines(&self, stream: Stream) -> Option<Seq<StdioMessage>> {
        match stream {
            Stream::Stdout => match self.stdout {
                Some(buffer) => Some(buffer@),
                None => None,
            },
            Stream::Stderr => match self.stderr {
                Some(buffer) => Some(buffer@),
                None => None,
            },
        }
    }

    /// The most lines kept of an output stream.
    pub closed spec fn capacity(&self, stream: Stream) -> nat {
        match stream {
            Stream::Stdout => match self.stdout {
                Some(buffer) => buffer.capacity_spec(),
                None => 0,
            },
            Stream::Stderr => match self.stderr {
                Some(buffer) => buffer.capacity_spec(),
                None => 0,
            },
        }
    }

    /// The supervision of a running process called `name`, with an empty
    /// buffer of 200 lines for each output stream that it has.
    pub fn new(name: String, has_stdout: bool, has_stderr: bool) -> (watcher: ProcessWatcher)
        ensures
            watcher.name_spec() == name@,
            has_stdout ==> watcher.capacity(Stream::Stdout) == 200,
            has_stderr ==> watcher.capacity(Stream::Stderr) == 200,
            watcher.status_spec() == Status::Running,
            watcher.lines(Stream::Stdout) == if has_stdout {
                Some(Seq::<StdioMessage>::empty())
            } else {
                None
            },
            watcher.lines(Stream::Stderr) == if has_stderr {
                Some(Seq::<StdioMessage>::empty())
            } else {
                None
            },
    {
        ProcessWatcher {
            name,
            stdout: if has_stdout {
                Some(StdioWatcher::new())
            } else {
                None
            },
            stderr: if has_stderr {
                Some(StdioWatcher::new())
            } else {
                None
            },
            status: None,
        }
    }

    /// The name of the process.
    pub fn name(&self) -> (name: &str)
        ensures
            name@ == self.name_spec(),
    {
        self.name.as_str()
    }

    /// Whether the process runs, or how it ended.
    pub fn status(&self) -> (status: ProcessStatus)
        ensures
            status@ == self.status_spec(),
    {
        match &self.status {
            Some(how) => ProcessStatus::Exited(how.clone()),
            None => ProcessStatus::Running,
        }
    }

    /// One step of tailing an output stream: a line was read at `time`,
    /// and `notified` says whether the event for it could be sent. The
    /// line is kept either way where the process has that stream: a send
    /// that failed is for the caller to log, and ends nothing. Returns
    /// whether to go on reading, which is so where the process has that
    /// stream.
    pub fn watching(
        &mut self,
        stream: Stream,
        line: String,
        notified: bool,
        time: ProjectTime,
    ) -> (go_on: bool)
        ensures
            go_on == (old(self).lines(stream) is Some),
            final(self).name_spec() == old(self).name_spec(),
            final(self).status_spec() == old(self).status_spec(),
            forall|any: Stream| final(self).capacity(any) == old(self).capacity(any),
            forall|other: Stream|
                other != stream ==> final(self).lines(other) == old(self).lines(other),
            final(self).lines(stream) == match old(self).lines(stream) {
                Some(held) => Some(
                    pushed(held, StdioMessage { time, line }, old(self).capacity(stream)),
                ),
                None => None,
            },
    {
        match stream {
            Stream::Stdout => match &mut self.stdout {
                Some(buffer) => buffer.watching(line, notified, time),
                None => false,
            },
            Stream::Stderr => match &mut self.stderr {
                Some(buffer) => buffer.watching(line, notified, time),
                None => false,
            },
        }
    }

    /// Records that the process ended, and how. Only the first report
    /// counts: it is returned as the event to send, and any later one
    /// changes nothing and sends nothing.
    pub fn exited(&mut self, how: String) -> (event: Option<ProcessEvent>)
        ensures
            final(self).status_spec() == after_exit(old(self).status_spec(), how@),
            final(self).name_spec() == old(self).name_spec(),
            forall|stream: Stream| final(self).lines(stream) == old(self).lines(stream),
            forall|stream: Stream| final(self).capacity(stream) == old(self).capacity(stream),
            event == if old(self).status_spec() is Running {
                Some(ProcessEvent::ProcessExited)
            } else {
                None
            },
    {
        if self.status.is_none() {
            self.status = Some(how);
            Some(ProcessEvent::ProcessExited)
        } else {
            None
        }
    }

    /// The title of the process's panel.
    pub fn title(&self) -> (title: String)
        ensures
            title@ == title_of(self.name_spec(), self.status_spec()),
    {
        let mut out: Vec<char> = Vec::new();
        push_str(&mut out, self.name.as_str());
        match &self.status {
            Some(how) => {
                push_str(&mut out, " (exited: ");
                push_str(&mut out, how.as_str());
                push_str(&mut out, ")");
            },
            None => {},
        }
        let title = string_of(&out);
        assert(title@ =~= title_of(self.name_spec(), self.status_spec()));
        title
    }

    /// The lines of both output streams as one, ordered by the time at
    /// which they were read.
    pub fn messages(&self) -> (ordered: Vec<StdioMessage>)
        ensures
            is_time_ordering_of(
                ordered@,
                lines_or_none(self.lines(Stream::Stdout)) + lines_or_none(
                    self.lines(Stream::Stderr),
                ),
            ),
    {
        let first = match &self.stdout {
            Some(buffer) => buffer.snapshot(),
            None => Vec::new(),
        };
        let second = match &self.stderr {
            Some(buffer) => buffer.snapshot(),
            None => Vec::new(),
        };
        merged(first, second)
    }
}

/// Once a process has ended, its status never changes again.
pub proof fn law_exit_is_terminal(status: Status, first: Seq<char>, later: Seq<char>)
    ensures
        after_exit(after_exit(status, first), later) == after_exit(status, first),
        after_exit(status, first) is Exited,
{
}

/// A buffer never holds more lines than its capacity, whatever arrives,
/// and the line that arrived last is its first unless it keeps none.
pub proof fn law_buffer_stays_within_capacity(
    held: Seq<StdioMessage>,
    message: StdioMessage,
    capacity: nat,
)
    requires
        held.len() <= capacity,
    ensures
        pushed(held, message, capacity).len() <= capacity,
        capacity > 0 ==> pushed(held, message, capacity).first() == message,
        held.len() < capacity ==> pushed(held, message, capacity) == seq![message] + held,
        held.len() == capacity > 0 ==> pushed(held, message, capacity) == seq![message]
            + held.drop_last(),
{
    if held.len() == capacity && capacity > 0 {
        assert(pushed(held, message, capacity) =~= seq![message] + held.drop_last());
    }
}

} // verus!
