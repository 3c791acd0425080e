//! The sink that keeps an `arbtt-import` process fed.
//!
//! `ArbttImporter` never touches a process. It says what is to be done next
//! (make a directory, start the consumer, ask whether it still runs, write a
//! line) and takes the report of how that went. The caller owns the process
//! handle and does as it is told.

use vstd::prelude::*;
use vstd::string::StringExecFns;
use crate::backend::{CaptureState, CaptureStateView};
use crate::entry::{LogEntry, Timestamp, MAX_RATE, entry_line, entry_of, rfc3339_text};
use crate::text::optional_text;

verus! {

/// What the sink knows of its consumer process.
#[derive(Debug, Clone, Copy, PartialEq, Eq, Structural)]
pub enum ChildStatus {
    /// No process is held.
    Unstarted,
    /// A process is held and was running when last heard of.
    Running,
    /// A process is held and was seen to have exited, or a write to it failed.
    Dead,
    /// The sink was torn down.
    Terminated,
}

/// Whether a process handle is held in this status.
pub open spec fn holds_handle(status: ChildStatus) -> bool {
    status == ChildStatus::Running || status == ChildStatus::Dead
}

/// What went wrong in the sink.
#[derive(Debug, Clone, Copy, PartialEq, Eq, Structural)]
pub enum SinkErrorKind {
    /// The log directory could not be made.
    Directory,
    /// The consumer could not be started.
    Spawn,
    /// The consumer's state could not be asked for.
    Poll,
    /// The line could not be written.
    Write,
    /// The line was written but could not be flushed.
    Flush,
    /// The time of the sample cannot be written as a date.
    Timestamp,
    /// The sink was torn down before.
    Terminated,
    /// The caller reported something that the sink was not waiting for.
    OutOfTurn,
}

/// A failure of the sink: its kind, and the text that came with it from
/// outside (empty where there is none).
#[derive(Debug, Clone, PartialEq, Eq)]
pub struct SinkError {
    pub kind: SinkErrorKind,
    pub detail: String,
}

/// What a `SinkError` stands for.
pub ghost struct SinkErrorView {
    pub kind: SinkErrorKind,
    pub detail: Seq<char>,
}

impl View for SinkError {
    type V = SinkErrorView;

    open spec fn view(&self) -> SinkErrorView {
        SinkErrorView { kind: self.kind, detail: self.detail@ }
    }
}

/// The directory that must exist before the consumer is started.
#[derive(Debug, Clone, PartialEq, Eq)]
pub enum LogDirectory {
    /// The directory that holds the file of this path, if the path names one.
    ParentOf(String),
    /// The directory of this name under the user's home directory, if the
    /// home directory is known.
    UnderHome(String),
}

/// What a `LogDirectory` stands for.
pub ghost enum LogDirectoryView {
    ParentOf(Seq<char>),
    UnderHome(Seq<char>),
}

impl View for LogDirectory {
    type V = LogDirectoryView;

    open spec fn view(&self) -> LogDirectoryView {
        match *self {
            LogDirectory::ParentOf(path) => LogDirectoryView::ParentOf(path@),
            LogDirectory::UnderHome(name) => LogDirectoryView::UnderHome(name@),
        }
    }
}

/// What the sink asks of its caller.
#[derive(Debug, Clone, PartialEq, Eq)]
pub enum SinkRequest {
    /// Make the directory, with its parents, unless it exists.
    EnsureDirectory(LogDirectory),
    /// Print the warning, if there is one, then start the program with these
    /// arguments and a pipe to its standard input.
    Spawn { program: String, args: Vec<String>, warning: Option<String> },
    /// Ask, without waiting, whether the process has exited.
    Poll,
    /// Close the input of the process held, wait for it to end, and let go of it.
    Reap,
    /// Write the line to the input of the process held, and flush.
    Write(String),
}

/// How a request ended.
#[derive(Debug, Clone, PartialEq, Eq)]
pub enum SinkEvent {
    DirectoryReady,
    DirectoryFailed(String),
    Spawned,
    SpawnFailed(String),
    /// The process has not exited.
    Alive,
    /// The process has exited.
    Exited,
    PollFailed(String),
    Reaped,
    Written,
    WriteFailed(String),
    FlushFailed(String),
}

/// What the caller does next.
#[derive(Debug, PartialEq, Eq)]
pub enum SinkStep {
    /// Perform this request and report how it ended to `accept`.
    Perform(SinkRequest),
    /// The operation is over.
    Done(Result<(), SinkError>),
}

/// The texts of a list of strings.
pub open spec fn texts(strings: Seq<String>) -> Seq<Seq<char>> {
    Seq::new(strings.len(), |i: int| strings[i]@)
}

/// What a `SinkStep` stands for.
pub ghost enum SinkStepView {
    EnsureDirectory(LogDirectoryView),
    Spawn { program: Seq<char>, args: Seq<Seq<char>>, warning: Option<Seq<char>> },
    Poll,
    Reap,
    Write(Seq<char>),
    Finished,
    Failed(SinkErrorView),
}

impl View for SinkStep {
    type V = SinkStepView;

    open spec fn view(&self) -> SinkStepView {
        match *self {
            SinkStep::Perform(SinkRequest::EnsureDirectory(directory)) => {
                SinkStepView::EnsureDirectory(directory@)
            },
            SinkStep::Perform(SinkRequest::Spawn { program, args, warning }) => {
                SinkStepView::Spawn {
                    program: program@,
                    args: texts(args@),
                    warning: optional_text(warning),
                }
            },
            SinkStep::Perform(SinkRequest::Poll) => SinkStepView::Poll,
            SinkStep::Perform(SinkRequest::Reap) => SinkStepView::Reap,
            SinkStep::Perform(SinkRequest::Write(line)) => SinkStepView::Write(line@),
            SinkStep::Done(Ok(_)) => SinkStepView::Finished,
            SinkStep::Done(Err(error)) => SinkStepView::Failed(error@),
        }
    }
}

/// The request whose outcome the sink waits for.
#[derive(Debug, Clone, Copy, PartialEq, Eq, Structural)]
pub enum SinkAwait {
    Directory,
    /// The start of the consumer at construction.
    FirstSpawn,
    Poll,
    Reap,
    /// The start of a new consumer before a write.
    Respawn,
    Write,
}

/// The state of the sink.
pub ghost struct SinkModel {
    pub status: ChildStatus,
    pub awaiting: Option<SinkAwait>,
    /// The line that the write under way is to deliver.
    pub pending: Seq<char>,
    /// The log file that the consumer is told to use, if one was named.
    pub logfile: Option<Seq<char>>,
    /// The sampling interval in seconds.
    pub rate: nat,
}

/// The arguments that the consumer is started with: JSON input, appended to
/// the log, and the log file where one was named.
pub open spec fn spawn_args(logfile: Option<Seq<char>>) -> Seq<Seq<char>> {
    match logfile {
        Some(path) => seq!["--format"@, "JSON"@, "--append"@, "--logfile"@, path],
        None => seq!["--format"@, "JSON"@, "--append"@],
    }
}

/// The directory that must exist for a log file: its own where one was
/// named, else `.arbtt` under the home directory.
pub open spec fn log_directory(logfile: Option<Seq<char>>) -> LogDirectoryView {
    match logfile {
        Some(path) => LogDirectoryView::ParentOf(path),
        None => LogDirectoryView::UnderHome(".arbtt"@),
    }
}

/// The request to start the consumer; before a restart it carries a warning.
pub open spec fn spawn_step(logfile: Option<Seq<char>>, restart: bool) -> SinkStepView {
    SinkStepView::Spawn {
        program: "arbtt-import"@,
        args: spawn_args(logfile),
        warning: if restart {
            Some("arbtt-capture-wl: restarting arbtt-import"@)
        } else {
            None
        },
    }
}

/// A failure without a text.
pub open spec fn bare_failure(kind: SinkErrorKind) -> SinkStepView {
    SinkStepView::Failed(SinkErrorView { kind: kind, detail: Seq::empty() })
}

/// The state of a new sink: nothing started, the directory asked for.
pub open spec fn sink_start(logfile: Option<Seq<char>>, rate: nat) -> SinkModel {
    SinkModel {
        status: ChildStatus::Unstarted,
        awaiting: Some(SinkAwait::Directory),
        pending: Seq::empty(),
        logfile: logfile,
        rate: rate,
    }
}

/// The state after the report of an event.
pub open spec fn sink_next(before: SinkModel, event: SinkEvent) -> SinkModel {
    match (before.awaiting, event) {
        (Some(SinkAwait::Directory), SinkEvent::DirectoryReady) => SinkModel {
            awaiting: Some(SinkAwait::FirstSpawn),
            ..before
        },
        (Some(SinkAwait::FirstSpawn), SinkEvent::Spawned) => SinkModel {
            status: ChildStatus::Running,
            awaiting: None,
            ..before
        },
        (Some(SinkAwait::FirstSpawn), SinkEvent::SpawnFailed(_)) => SinkModel {
            status: ChildStatus::Unstarted,
            awaiting: None,
            ..before
        },
        (Some(SinkAwait::Poll), SinkEvent::Alive) => SinkModel {
            status: ChildStatus::Running,
            awaiting: Some(SinkAwait::Write),
            pending: Seq::empty(),
            ..before
        },
        (Some(SinkAwait::Poll), SinkEvent::Exited) => SinkModel {
            status: ChildStatus::Dead,
            awaiting: Some(SinkAwait::Reap),
            ..before
        },
        (Some(SinkAwait::Reap), SinkEvent::Reaped) => SinkModel {
            status: ChildStatus::Unstarted,
            awaiting: Some(SinkAwait::Respawn),
            ..before
        },
        (Some(SinkAwait::Respawn), SinkEvent::Spawned) => SinkModel {
            status: ChildStatus::Running,
            awaiting: Some(SinkAwait::Write),
            pending: Seq::empty(),
            ..before
        },
        (Some(SinkAwait::Respawn), SinkEvent::SpawnFailed(_)) => SinkModel {
            status: ChildStatus::Unstarted,
            awaiting: None,
            ..before
        },
        (Some(SinkAwait::Write), SinkEvent::Written) => SinkModel { awaiting: None, ..before },
        (Some(SinkAwait::Write), SinkEvent::WriteFailed(_)) => SinkModel {
            status: ChildStatus::Dead,
            awaiting: None,
            ..before
        },
        (Some(SinkAwait::Write), SinkEvent::FlushFailed(_)) => SinkModel {
            status: ChildStatus::Dead,
            awaiting: None,
            ..before
        },
        _ => SinkModel { awaiting: None, ..before },
    }
}

/// What the caller is told after the report of an event.
pub open spec fn sink_output(before: SinkModel, event: SinkEvent) -> SinkStepView {
    match (before.awaiting, event) {
        (Some(SinkAwait::Directory), SinkEvent::DirectoryReady) => spawn_step(
            before.logfile,
            false,
        ),
        (Some(SinkAwait::Directory), SinkEvent::DirectoryFailed(cause)) => SinkStepView::Failed(
            SinkErrorView { kind: SinkErrorKind::Directory, detail: cause@ },
        ),
        (Some(SinkAwait::FirstSpawn), SinkEvent::Spawned) => SinkStepView::Finished,
        (Some(SinkAwait::FirstSpawn), SinkEvent::SpawnFailed(cause)) => SinkStepView::Failed(
            SinkErrorView { kind: SinkErrorKind::Spawn, detail: cause@ },
        ),
        (Some(SinkAwait::Poll), SinkEvent::Alive) => SinkStepView::Write(before.pending),
        (Some(SinkAwait::Poll), SinkEvent::Exited) => SinkStepView::Reap,
        (Some(SinkAwait::Poll), SinkEvent::PollFailed(cause)) => SinkStepView::Failed(
            SinkErrorView { kind: SinkErrorKind::Poll, detail: cause@ },
        ),
        (Some(SinkAwait::Reap), SinkEvent::Reaped) => spawn_step(before.logfile, true),
        (Some(SinkAwait::Respawn), SinkEvent::Spawned) => SinkStepView::Write(before.pending),
        (Some(SinkAwait::Respawn), SinkEvent::SpawnFailed(cause)) => SinkStepView::Failed(
            SinkErrorView { kind: SinkErrorKind::Spawn, detail: cause@ },
        ),
        (Some(SinkAwait::Write), SinkEvent::Written) => SinkStepView::Finished,
        (Some(SinkAwait::Write), SinkEvent::WriteFailed(cause)) => SinkStepView::Failed(
            SinkErrorView { kind: SinkErrorKind::Write, detail: cause@ },
        ),
        (Some(SinkAwait::Write), SinkEvent::FlushFailed(cause)) => SinkStepView::Failed(
            SinkErrorView { kind: SinkErrorKind::Flush, detail: cause@ },
        ),
        _ => bare_failure(SinkErrorKind::OutOfTurn),
    }
}

/// The state after a write was begun.
pub open spec fn write_next(before: SinkModel, snapshot: CaptureStateView, time: Timestamp)
    -> SinkModel {
    if before.status == ChildStatus::Terminated {
        SinkModel { awaiting: None, ..before }
    } else {
        match rfc3339_text(time.secs as int, time.nanos as int) {
            None => SinkModel { awaiting: None, ..before },
            Some(date) => SinkModel {
                awaiting: Some(
                    if holds_handle(before.status) {
                        SinkAwait::Poll
                    } else {
                        SinkAwait::Respawn
                    },
                ),
                pending: entry_line(entry_of(snapshot, date, before.rate)),
                ..before
            },
        }
    }
}

/// What the caller is told when a write is begun: the process held is asked
/// after first; where none is held, one is started.
pub open spec fn write_output(before: SinkModel, snapshot: CaptureStateView, time: Timestamp)
    -> SinkStepView {
    if before.status == ChildStatus::Terminated {
        bare_failure(SinkErrorKind::Terminated)
    } else if rfc3339_text(time.secs as int, time.nanos as int) is None {
        bare_failure(SinkErrorKind::Timestamp)
    } else if holds_handle(before.status) {
        SinkStepView::Poll
    } else {
        spawn_step(before.logfile, true)
    }
}

/// The state after teardown.
pub open spec fn torn_down(before: SinkModel) -> SinkModel {
    SinkModel { status: ChildStatus::Terminated, awaiting: None, ..before }
}

/// The sink: the state of the consumer process and what it was set up with.
#[derive(Debug)]
pub struct ArbttImporter {
    status: ChildStatus,
    awaiting: Option<SinkAwait>,
    pending: String,
    logfile: Option<String>,
    rate: u64,
}

impl View for ArbttImporter {
    type V = SinkModel;

    closed spec fn view(&self) -> SinkModel {
        SinkModel {
            status: self.status,
            awaiting: self.awaiting,
            pending: self.pending@,
            logfile: optional_text(self.logfile),
            rate: self.rate as nat,
        }
    }
}

/// A failure without a text.
pub fn failure(kind: SinkErrorKind) -> (step: SinkStep)
    ensures
        step@ == bare_failure(kind),
{
    SinkStep::Done(Err(SinkError { kind, detail: String::new() }))
}

/// A failure with the text that came with it.
pub fn failure_with(kind: SinkErrorKind, detail: String) -> (step: SinkStep)
    ensures
        step@ == SinkStepView::Failed(SinkErrorView { kind: kind, detail: detail@ }),
{
    SinkStep::Done(Err(SinkError { kind, detail }))
}

impl ArbttImporter {
    /// Whether the sampling interval is one whose milliseconds can be written.
    #[verifier::type_invariant]
    spec fn rate_fits(&self) -> bool {
        self.rate <= MAX_RATE
    }

    /// A sink for this log file (the consumer's default where none is named)
    /// and this sampling interval in seconds, with the first thing to do for
    /// it: the log directory is made before the consumer is started.
    pub fn new(logfile: Option<&str>, rate: u64) -> (out: (ArbttImporter, SinkStep))
        requires
            rate <= MAX_RATE,
        ensures
            out.0@ == sink_start(optional_slice(logfile), rate as nat),
            out.1@ == SinkStepView::EnsureDirectory(log_directory(optional_slice(logfile))),
    {
        let (path, directory) = match logfile {
            Some(path) => (Some(String::from_str(path)), LogDirectory::ParentOf(String::from_str(path))),
            None => (None, LogDirectory::UnderHome(String::from_str(".arbtt"))),
        };
        let importer = ArbttImporter {
            status: ChildStatus::Unstarted,
            awaiting: Some(SinkAwait::Directory),
            pending: String::new(),
            logfile: path,
            rate,
        };
        (importer, SinkStep::Perform(SinkRequest::EnsureDirectory(directory)))
    }

    /// What the sink knows of its consumer process.
    pub fn status(&self) -> (status: ChildStatus)
        ensures
            status == self@.status,
    {
        self.status
    }

    /// The sampling interval in seconds.
    pub fn rate(&self) -> (rate: u64)
        ensures
            rate == self@.rate,
            rate <= MAX_RATE,
    {
        proof {
            use_type_invariant(self);
        }
        self.rate
    }

    /// The request to start the consumer.
    fn spawn_request(&self, restart: bool) -> (step: SinkStep)
        ensures
            step@ == spawn_step(self@.logfile, restart),
    {
        let mut args: Vec<String> = Vec::new();
        args.push(String::from_str("--format"));
        args.push(String::from_str("JSON"));
        args.push(String::from_str("--append"));
        match &self.logfile {
            Some(path) => {
                args.push(String::from_str("--logfile"));
                args.push(path.clone());
            },
            None => {},
        }
        let warning = if restart {
            Some(String::from_str("arbtt-capture-wl: restarting arbtt-import"))
        } else {
            None
        };
        assert(texts(args@) =~= spawn_args(self@.logfile));
        SinkStep::Perform(
            SinkRequest::Spawn { program: String::from_str("arbtt-import"), args, warning },
        )
    }

    /// The request to write the pending line, which is handed over.
    fn write_request(&mut self) -> (step: SinkStep)
        ensures
            step@ == SinkStepView::Write(old(self)@.pending),
            final(self)@ == (SinkModel { pending: Seq::empty(), ..old(self)@ }),
    {
        proof {
            use_type_invariant(&*self);
        }
        let mut line = String::new();
        std::mem::swap(&mut line, &mut self.pending);
        SinkStep::Perform(SinkRequest::Write(line))
    }

    /// Begins the delivery of one sample. A sink that was torn down, and a
    /// time that cannot be written as a date, end it at once; a time in the
    /// years 1970 to 9999 can always be written. Else the line is made
    /// ready, and the consumer is asked after, or started where none is held.
    pub fn write_entry(&mut self, state: CaptureState, timestamp: Timestamp) -> (step: SinkStep)
        ensures
            final(self)@ == write_next(old(self)@, state@, timestamp),
            step@ == write_output(old(self)@, state@, timestamp),
            timestamp.in_common_era() ==> rfc3339_text(
                timestamp.secs as int,
                timestamp.nanos as int,
            ) is Some,
    {
        proof {
            use_type_invariant(&*self);
        }
        self.awaiting = None;
        let rendered = timestamp.to_rfc3339();
        match self.status {
            ChildStatus::Terminated => {
                return failure(SinkErrorKind::Terminated);
            },
            _ => {},
        }
        let date = match rendered {
            Some(date) => date,
            None => {
                return failure(SinkErrorKind::Timestamp);
            },
        };
        let entry = LogEntry::build(state, date, self.rate);
        self.pending = entry.to_line();
        match self.status {
            ChildStatus::Unstarted => {
                self.awaiting = Some(SinkAwait::Respawn);
                self.spawn_request(true)
            },
            _ => {
                self.awaiting = Some(SinkAwait::Poll);
                SinkStep::Perform(SinkRequest::Poll)
            },
        }
    }

    /// Takes the report of how the request last handed out ended, and says
    /// what is next. A consumer that has exited is let go of and replaced
    /// before the line is written; a failure ends the operation with its
    /// error, and nothing is tried again.
    pub fn accept(&mut self, event: SinkEvent) -> (step: SinkStep)
        ensures
            final(self)@ == sink_next(old(self)@, event),
            step@ == sink_output(old(self)@, event),
    {
        proof {
            use_type_invariant(&*self);
        }
        let awaiting = self.awaiting;
        self.awaiting = None;
        match (awaiting, event) {
            (Some(SinkAwait::Directory), SinkEvent::DirectoryReady) => {
                self.awaiting = Some(SinkAwait::FirstSpawn);
                self.spawn_request(false)
            },
            (Some(SinkAwait::Directory), SinkEvent::DirectoryFailed(cause)) => {
                failure_with(SinkErrorKind::Directory, cause)
            },
            (Some(SinkAwait::FirstSpawn), SinkEvent::Spawned) => {
                self.status = ChildStatus::Running;
                SinkStep::Done(Ok(()))
            },
            (Some(SinkAwait::FirstSpawn), SinkEvent::SpawnFailed(cause)) => {
                self.status = ChildStatus::Unstarted;
                failure_with(SinkErrorKind::Spawn, cause)
            },
            (Some(SinkAwait::Poll), SinkEvent::Alive) => {
                self.status = ChildStatus::Running;
                self.awaiting = Some(SinkAwait::Write);
                self.write_request()
            },
            (Some(SinkAwait::Poll), SinkEvent::Exited) => {
                self.status = ChildStatus::Dead;
                self.awaiting = Some(SinkAwait::Reap);
                SinkStep::Perform(SinkRequest::Reap)
            },
            (Some(SinkAwait::Poll), SinkEvent::PollFailed(cause)) => {
                failure_with(SinkErrorKind::Poll, cause)
            },
            (Some(SinkAwait::Reap), SinkEvent::Reaped) => {
                self.status = ChildStatus::Unstarted;
                self.awaiting = Some(SinkAwait::Respawn);
                self.spawn_request(true)
            },
            (Some(SinkAwait::Respawn), SinkEvent::Spawned) => {
                self.status = ChildStatus::Running;
                self.awaiting = Some(SinkAwait::Write);
                self.write_request()
            },
            (Some(SinkAwait::Respawn), SinkEvent::SpawnFailed(cause)) => {
                self.status = ChildStatus::Unstarted;
                failure_with(SinkErrorKind::Spawn, cause)
            },
            (Some(SinkAwait::Write), SinkEvent::Written) => SinkStep::Done(Ok(())),
            (Some(SinkAwait::Write), SinkEvent::WriteFailed(cause)) => {
                self.status = ChildStatus::Dead;
                failure_with(SinkErrorKind::Write, cause)
            },
            (Some(SinkAwait::Write), SinkEvent::FlushFailed(cause)) => {
                self.status = ChildStatus::Dead;
                failure_with(SinkErrorKind::Flush, cause)
            },
            (_, _) => failure(SinkErrorKind::OutOfTurn),
        }
    }

    /// Ends the sink. Says whether a process is held, whose input the caller
    /// then closes and whose end it waits for; a second teardown finds none.
    pub fn teardown(&mut self) -> (reap: bool)
        ensures
            reap == holds_handle(old(self)@.status),
            final(self)@ == torn_down(old(self)@),
    {
        proof {
            use_type_invariant(&*self);
        }
        let reap = match self.status {
            ChildStatus::Running => true,
            ChildStatus::Dead => true,
            _ => false,
        };
        self.status = ChildStatus::Terminated;
        self.awaiting = None;
        reap
    }
}

/// The text of an optional string slice.
pub open spec fn optional_slice(text: Option<&str>) -> Option<Seq<char>> {
    match text {
        Some(t) => Some(t@),
        None => None,
    }
}

/// The headline of a failure.
pub open spec fn sink_message(error: SinkErrorView) -> Seq<char> {
    match error.kind {
        SinkErrorKind::Directory => "failed to create directory"@,
        SinkErrorKind::Spawn => "failed to start arbtt-import (is arbtt installed?)"@,
        SinkErrorKind::Poll => error.detail,
        SinkErrorKind::Write => error.detail,
        SinkErrorKind::Flush => "arbtt-import write failed (process may have crashed)"@,
        SinkErrorKind::Timestamp => "timestamp out of range"@,
        SinkErrorKind::Terminated => "arbtt-import not running"@,
        SinkErrorKind::OutOfTurn => "report without a request"@,
    }
}

/// What lies behind a failure, where its headline does not say so itself.
pub open spec fn sink_cause(error: SinkErrorView) -> Option<Seq<char>> {
    match error.kind {
        SinkErrorKind::Directory => Some(error.detail),
        SinkErrorKind::Spawn => Some(error.detail),
        SinkErrorKind::Flush => Some(error.detail),
        _ => None,
    }
}

impl SinkError {
    /// What lies behind the failure, where the headline does not say so
    /// itself.
    pub fn cause(&self) -> (cause: Option<String>)
        ensures
            optional_text(cause) == sink_cause(self@),
    {
        match self.kind {
            SinkErrorKind::Directory => Some(self.detail.clone()),
            SinkErrorKind::Spawn => Some(self.detail.clone()),
            SinkErrorKind::Flush => Some(self.detail.clone()),
            _ => None,
        }
    }

    /// The headline of the failure, as it is shown to the operator.
    pub fn message(&self) -> (text: String)
        ensures
            text@ == sink_message(self@),
    {
        match self.kind {
            SinkErrorKind::Directory => String::from_str("failed to create directory"),
            SinkErrorKind::Spawn => String::from_str(
                "failed to start arbtt-import (is arbtt installed?)",
            ),
            SinkErrorKind::Poll => self.detail.clone(),
            SinkErrorKind::Write => self.detail.clone(),
            SinkErrorKind::Flush => String::from_str(
                "arbtt-import write failed (process may have crashed)",
            ),
            SinkErrorKind::Timestamp => String::from_str("timestamp out of range"),
            SinkErrorKind::Terminated => String::from_str("arbtt-import not running"),
            SinkErrorKind::OutOfTurn => String::from_str("report without a request"),
        }
    }
}

/// Construction makes the directory, then starts the consumer without a
/// warning, and ends with a running consumer. Where the directory cannot be
/// made, or the consumer cannot be started, it ends in that error and no
/// process is held.
pub proof fn law_construction(logfile: Option<Seq<char>>, rate: nat, cause: String)
    ensures
        ({
            let start = sink_start(logfile, rate);
            let spawning = sink_next(start, SinkEvent::DirectoryReady);
            let end = sink_next(spawning, SinkEvent::Spawned);
            &&& sink_output(start, SinkEvent::DirectoryReady) == spawn_step(logfile, false)
            &&& sink_output(spawning, SinkEvent::Spawned) == SinkStepView::Finished
            &&& end.status == ChildStatus::Running
            &&& end.awaiting.is_none()
            &&& sink_output(start, SinkEvent::DirectoryFailed(cause)) == SinkStepView::Failed(
                SinkErrorView { kind: SinkErrorKind::Directory, detail: cause@ },
            )
            &&& sink_next(start, SinkEvent::DirectoryFailed(cause)).awaiting.is_none()
            &&& !holds_handle(sink_next(start, SinkEvent::DirectoryFailed(cause)).status)
            &&& sink_output(spawning, SinkEvent::SpawnFailed(cause)) == SinkStepView::Failed(
                SinkErrorView { kind: SinkErrorKind::Spawn, detail: cause@ },
            )
            &&& !holds_handle(sink_next(spawning, SinkEvent::SpawnFailed(cause)).status)
        }),
{
}

/// The line of a sample: the record of the snapshot at the date of `time`,
/// with the sink's sampling interval.
pub open spec fn sample_line(before: SinkModel, snapshot: CaptureStateView, time: Timestamp)
    -> Seq<char>
    recommends
        rfc3339_text(time.secs as int, time.nanos as int) is Some,
{
    entry_line(
        entry_of(snapshot, rfc3339_text(time.secs as int, time.nanos as int)->Some_0, before.rate),
    )
}

/// With a consumer that still runs, a write asks after it once and then has
/// the sample's line written; when that is done the write has succeeded.
pub proof fn law_write_to_live_consumer(
    before: SinkModel,
    snapshot: CaptureStateView,
    time: Timestamp,
)
    requires
        holds_handle(before.status),
        rfc3339_text(time.secs as int, time.nanos as int) is Some,
    ensures
        ({
            let polling = write_next(before, snapshot, time);
            let writing = sink_next(polling, SinkEvent::Alive);
            let end = sink_next(writing, SinkEvent::Written);
            &&& write_output(before, snapshot, time) == SinkStepView::Poll
            &&& sink_output(polling, SinkEvent::Alive) == SinkStepView::Write(
                sample_line(before, snapshot, time),
            )
            &&& sink_output(writing, SinkEvent::Written) == SinkStepView::Finished
            &&& end.status == ChildStatus::Running
            &&& end.awaiting.is_none()
        }),
{
}

/// Where the consumer is seen to have exited, that very write lets go of it,
/// warns, starts a new consumer with the same arguments and has the sample's
/// line written to it; it ends with a running consumer.
pub proof fn law_respawn_delivers(before: SinkModel, snapshot: CaptureStateView, time: Timestamp)
    requires
        holds_handle(before.status),
        rfc3339_text(time.secs as int, time.nanos as int) is Some,
    ensures
        ({
            let polling = write_next(before, snapshot, time);
            let reaping = sink_next(polling, SinkEvent::Exited);
            let respawning = sink_next(reaping, SinkEvent::Reaped);
            let writing = sink_next(respawning, SinkEvent::Spawned);
            let end = sink_next(writing, SinkEvent::Written);
            &&& write_output(before, snapshot, time) == SinkStepView::Poll
            &&& sink_output(polling, SinkEvent::Exited) == SinkStepView::Reap
            &&& sink_output(reaping, SinkEvent::Reaped) == spawn_step(before.logfile, true)
            &&& sink_output(respawning, SinkEvent::Spawned) == SinkStepView::Write(
                sample_line(before, snapshot, time),
            )
            &&& sink_output(writing, SinkEvent::Written) == SinkStepView::Finished
            &&& end.status == ChildStatus::Running
            &&& end.awaiting.is_none()
        }),
{
}

/// Where no consumer is held, a write warns and starts one without asking
/// first, and has the sample's line written to it.
pub proof fn law_write_starts_missing_consumer(
    before: SinkModel,
    snapshot: CaptureStateView,
    time: Timestamp,
)
    requires
        before.status == ChildStatus::Unstarted,
        rfc3339_text(time.secs as int, time.nanos as int) is Some,
    ensures
        ({
            let respawning = write_next(before, snapshot, time);
            let writing = sink_next(respawning, SinkEvent::Spawned);
            &&& write_output(before, snapshot, time) == spawn_step(before.logfile, true)
            &&& sink_output(respawning, SinkEvent::Spawned) == SinkStepView::Write(
                sample_line(before, snapshot, time),
            )
            &&& sink_next(writing, SinkEvent::Written).status == ChildStatus::Running
        }),
{
}

/// A write or a flush that fails ends the operation with that error: nothing
/// is asked for again, the line is gone, and the consumer counts as dead
/// until the next write asks after it.
pub proof fn law_failed_write_is_not_retried(before: SinkModel, cause: String)
    requires
        before.awaiting == Some(SinkAwait::Write),
    ensures
        sink_output(before, SinkEvent::FlushFailed(cause)) == SinkStepView::Failed(
            SinkErrorView { kind: SinkErrorKind::Flush, detail: cause@ },
        ),
        sink_output(before, SinkEvent::WriteFailed(cause)) == SinkStepView::Failed(
            SinkErrorView { kind: SinkErrorKind::Write, detail: cause@ },
        ),
        sink_next(before, SinkEvent::FlushFailed(cause)).awaiting.is_none(),
        sink_next(before, SinkEvent::WriteFailed(cause)).awaiting.is_none(),
        sink_next(before, SinkEvent::FlushFailed(cause)).status == ChildStatus::Dead,
        sink_next(before, SinkEvent::WriteFailed(cause)).status == ChildStatus::Dead,
{
}

/// Teardown is final and can be repeated: the first lets go of the process
/// held, if any, whether it still runs or has exited; after it none is held,
/// so that a second changes nothing and asks for nothing, and a write is
/// answered with an error at once.
pub proof fn law_teardown_is_idempotent(
    before: SinkModel,
    snapshot: CaptureStateView,
    time: Timestamp,
)
    ensures
        torn_down(before).status == ChildStatus::Terminated,
        !holds_handle(torn_down(before).status),
        torn_down(torn_down(before)) == torn_down(before),
        write_output(torn_down(before), snapshot, time) == bare_failure(
            SinkErrorKind::Terminated,
        ),
        write_next(torn_down(before), snapshot, time) == torn_down(before),
{
}

} // verus!
