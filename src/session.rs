use vstd::prelude::*;
use crate::progress::{after_report, finished, observed, ProgressTracker};
use crate::watchdog::{stale, Watchdog};

verus! {

/// Why a transfer failed.
#[derive(Clone, Copy, Debug, PartialEq, Eq, Structural)]
pub enum FailureKind {
    /// Connection or status failure before streaming began.
    SourceUnavailable,
    /// Mid-transfer failure reported by the remote source.
    StreamError,
    /// No chunk arrived within the watchdog threshold.
    Timeout,
    /// The local sink could not be written or flushed.
    SinkError,
    /// The session was abandoned before it finished.
    Cancelled,
}

/// Name of a kind of failure, as shown to a user.
pub open spec fn kind_name(kind: FailureKind) -> Seq<char> {
    match kind {
        FailureKind::SourceUnavailable => "Source unavailable"@,
        FailureKind::StreamError => "Stream error"@,
        FailureKind::Timeout => "Timed out"@,
        FailureKind::SinkError => "Could not write the output"@,
        FailureKind::Cancelled => "Cancelled"@,
    }
}

/// The message reported for a failure: its kind, then its cause.
pub fn describe_failure(kind: FailureKind, cause: &str) -> (r: String)
    ensures
        r@ == kind_name(kind) + ": "@ + cause@,
{
    let name = match kind {
        FailureKind::SourceUnavailable => "Source unavailable",
        FailureKind::StreamError => "Stream error",
        FailureKind::Timeout => "Timed out",
        FailureKind::SinkError => "Could not write the output",
        FailureKind::Cancelled => "Cancelled",
    };
    let mut message = String::from_str(name);
    message.append(": ");
    message.append(cause);
    message
}

/// Where the transferred data goes.
#[derive(Clone, Copy, Debug, PartialEq, Eq, Structural)]
pub enum SinkKind {
    /// A file, created on the first write; removed again on failure.
    File,
    /// An in-memory buffer; nothing persists, and each non-empty chunk is
    /// forwarded to the observer as a content delta.
    Accumulator,
}

/// Lifecycle of a session: `Idle`, `Opening`, `Streaming`, `Finalizing`, then
/// `Completed` or `Failed`, which are final.
#[derive(Clone, Copy, Debug, PartialEq, Eq, Structural)]
pub enum Phase {
    Idle,
    Opening,
    Streaming,
    Finalizing,
    Completed,
    Failed(FailureKind),
}

/// Terminal result of a session.
#[derive(Clone, Copy, Debug, PartialEq, Eq, Structural)]
pub enum Outcome {
    Completed,
    Failed { kind: FailureKind, cleanup_performed: bool },
}

/// What the driver of a session observed. Times are plain numbers read from
/// the driver's clock.
#[derive(Clone, Copy, Debug, PartialEq, Eq, Structural)]
pub enum Event {
    /// Start requested; `already_complete` tells whether the destination
    /// already holds a completed transfer with the same identity.
    Start { already_complete: bool },
    /// The remote source answered, declaring its total size if it knows it.
    Opened { total: Option<u64>, now: u64 },
    /// The remote source could not be reached or reported a non-success status.
    OpenFailed,
    /// A chunk of `units` units arrived at time `now`.
    Chunk { units: u64, now: u64 },
    /// The source reported cumulative progress: `completed` units so far, out
    /// of `total` when it is known. A known total replaces the declared one.
    Progress { completed: u64, total: Option<u64>, now: u64 },
    /// A bounded wait for the next chunk ended at `now` without a chunk.
    WaitExpired { now: u64 },
    /// The remote stream ended cleanly.
    StreamEnded,
    /// The remote stream reported an error.
    StreamFailed,
    /// Writing to or flushing the sink failed.
    SinkFailed,
    /// The sink was flushed.
    Flushed,
    /// The session is being abandoned.
    Cancelled,
}

/// What the driver of a session must do next, in order.
#[derive(Clone, Copy, Debug, PartialEq, Eq, Structural)]
pub enum Command {
    /// Connect to the remote source.
    Open,
    /// Wait for the next chunk, no later than the watchdog deadline.
    ReadNext,
    /// Commit the chunk just received to the sink.
    Write,
    /// Notify the observer of a new percentage.
    EmitPercent(u64),
    /// Forward the content of the chunk just received to the observer.
    EmitDelta,
    /// Flush the sink.
    Flush,
    /// Delete the destination file, ignoring a failure to do so.
    RemoveDestination,
    /// Report the terminal outcome; nothing follows.
    Finish(Outcome),
}

/// Abstract state of a transfer session.
pub struct SessionView {
    pub phase: Phase,
    pub sink: SinkKind,
    pub total: Option<u64>,
    pub transferred: u64,
    pub last_percent: u64,
    pub last_activity: u64,
    pub threshold: u64,
    /// Whether a destination file may exist because this session wrote it.
    pub dest_present: bool,
    /// Every percentage emitted so far, in order.
    pub emitted: Seq<u64>,
}

pub open spec fn known_total(t: Option<u64>) -> bool {
    match t {
        Some(v) => v > 0,
        None => false,
    }
}

pub open spec fn initial(sink: SinkKind, threshold: u64) -> SessionView {
    SessionView {
        phase: Phase::Idle,
        sink,
        total: None,
        transferred: 0,
        last_percent: 0,
        last_activity: 0,
        threshold,
        dest_present: false,
        emitted: Seq::empty(),
    }
}

pub open spec fn is_terminal(p: Phase) -> bool {
    p is Completed || p is Failed
}

/// Cleanup policy: only a file this session may have written is removed.
pub open spec fn cleanup_needed(sink: SinkKind, dest_present: bool) -> bool {
    sink == SinkKind::File && dest_present
}

pub open spec fn saturating_sum(a: u64, b: u64) -> u64 {
    if a + b > u64::MAX {
        u64::MAX
    } else {
        (a + b) as u64
    }
}

pub open spec fn report_commands(r: Option<u64>) -> Seq<Command> {
    match r {
        Some(p) => seq![Command::EmitPercent(p)],
        None => Seq::empty(),
    }
}

pub open spec fn emitted_after(emitted: Seq<u64>, r: Option<u64>) -> Seq<u64> {
    match r {
        Some(p) => emitted.push(p),
        None => emitted,
    }
}

pub open spec fn delta_commands(sink: SinkKind, units: u64) -> Seq<Command> {
    if sink == SinkKind::Accumulator && units > 0 {
        seq![Command::EmitDelta]
    } else {
        Seq::empty()
    }
}

pub open spec fn fail_step(s: SessionView, kind: FailureKind) -> (SessionView, Seq<Command>) {
    let cleanup = cleanup_needed(s.sink, s.dest_present);
    let outcome = Outcome::Failed { kind, cleanup_performed: cleanup };
    (
        SessionView { phase: Phase::Failed(kind), dest_present: false, ..s },
        if cleanup {
            seq![Command::RemoveDestination, Command::Finish(outcome)]
        } else {
            seq![Command::Finish(outcome)]
        },
    )
}

pub open spec fn chunk_step(s: SessionView, units: u64, now: u64) -> (SessionView, Seq<Command>) {
    let transferred = saturating_sum(s.transferred, units);
    let r = observed(s.last_percent, transferred, s.total);
    (
        SessionView {
            transferred,
            last_activity: now,
            dest_present: s.dest_present || s.sink == SinkKind::File,
            last_percent: after_report(s.last_percent, r),
            emitted: emitted_after(s.emitted, r),
            ..s
        },
        seq![Command::Write] + report_commands(r) + delta_commands(s.sink, units) + seq![
            Command::ReadNext,
        ],
    )
}

pub open spec fn progress_step(
    s: SessionView,
    completed: u64,
    total: Option<u64>,
    now: u64,
) -> (SessionView, Seq<Command>) {
    let total = if known_total(total) {
        total
    } else {
        s.total
    };
    let transferred = if completed > s.transferred {
        completed
    } else {
        s.transferred
    };
    let r = observed(s.last_percent, transferred, total);
    (
        SessionView {
            total,
            transferred,
            last_activity: now,
            last_percent: after_report(s.last_percent, r),
            emitted: emitted_after(s.emitted, r),
            ..s
        },
        report_commands(r) + seq![Command::ReadNext],
    )
}

pub open spec fn complete_step(s: SessionView) -> (SessionView, Seq<Command>) {
    let r = finished(s.last_percent, s.total);
    (
        SessionView {
            phase: Phase::Completed,
            last_percent: after_report(s.last_percent, r),
            emitted: emitted_after(s.emitted, r),
            ..s
        },
        report_commands(r) + seq![Command::Finish(Outcome::Completed)],
    )
}

/// One transition of the session: the next state and the commands to carry out.
/// An event that does not fit the phase changes nothing and asks for nothing.
pub open spec fn next(s: SessionView, e: Event) -> (SessionView, Seq<Command>) {
    if is_terminal(s.phase) {
        (s, Seq::empty())
    } else if e is Cancelled {
        fail_step(s, FailureKind::Cancelled)
    } else {
        match s.phase {
            Phase::Idle => match e {
                Event::Start { already_complete } => if already_complete {
                    (
                        SessionView { phase: Phase::Completed, ..s },
                        seq![Command::Finish(Outcome::Completed)],
                    )
                } else {
                    (SessionView { phase: Phase::Opening, ..s }, seq![Command::Open])
                },
                _ => (s, Seq::empty()),
            },
            Phase::Opening => match e {
                Event::Opened { total, now } => (
                    SessionView { phase: Phase::Streaming, total, last_activity: now, ..s },
                    seq![Command::ReadNext],
                ),
                Event::OpenFailed => fail_step(s, FailureKind::SourceUnavailable),
                _ => (s, Seq::empty()),
            },
            Phase::Streaming => match e {
                Event::Chunk { units, now } => if stale(s.last_activity, s.threshold, now) {
                    fail_step(s, FailureKind::Timeout)
                } else {
                    chunk_step(s, units, now)
                },
                Event::Progress { completed, total, now } => if stale(
                    s.last_activity,
                    s.threshold,
                    now,
                ) {
                    fail_step(s, FailureKind::Timeout)
                } else {
                    progress_step(s, completed, total, now)
                },
                Event::WaitExpired { now } => if stale(s.last_activity, s.threshold, now) {
                    fail_step(s, FailureKind::Timeout)
                } else {
                    (s, seq![Command::ReadNext])
                },
                Event::StreamEnded => (
                    SessionView { phase: Phase::Finalizing, ..s },
                    seq![Command::Flush],
                ),
                Event::StreamFailed => fail_step(s, FailureKind::StreamError),
                Event::SinkFailed => fail_step(s, FailureKind::SinkError),
                _ => (s, Seq::empty()),
            },
            Phase::Finalizing => match e {
                Event::Flushed => complete_step(s),
                Event::SinkFailed => fail_step(s, FailureKind::SinkError),
                _ => (s, Seq::empty()),
            },
            _ => (s, Seq::empty()),
        }
    }
}

/// One logical transfer, driven by events; single use.
pub struct TransferSession {
    phase: Phase,
    sink: SinkKind,
    total: Option<u64>,
    transferred: u64,
    tracker: ProgressTracker,
    watchdog: Watchdog,
    dest_present: bool,
    emitted: Ghost<Seq<u64>>,
}

impl View for TransferSession {
    type V = SessionView;

    closed spec fn view(&self) -> SessionView {
        SessionView {
            phase: self.phase,
            sink: self.sink,
            total: self.total,
            transferred: self.transferred,
            last_percent: self.tracker@,
            last_activity: self.watchdog@.0,
            threshold: self.watchdog@.1,
            dest_present: self.dest_present,
            emitted: self.emitted@,
        }
    }
}

/// Cleanup policy: whether a failed transfer must delete its destination.
pub fn needs_cleanup(sink: SinkKind, dest_present: bool) -> (r: bool)
    ensures
        r == cleanup_needed(sink, dest_present),
{
    match sink {
        SinkKind::File => dest_present,
        SinkKind::Accumulator => false,
    }
}

impl TransferSession {
    /// A fresh session in `Idle`, with the given sink and watchdog threshold.
    pub fn new(sink: SinkKind, threshold: u64) -> (r: TransferSession)
        ensures
            r@ == initial(sink, threshold),
    {
        TransferSession {
            phase: Phase::Idle,
            sink,
            total: None,
            transferred: 0,
            tracker: ProgressTracker::new(),
            watchdog: Watchdog::new(0, threshold),
            dest_present: false,
            emitted: Ghost(Seq::empty()),
        }
    }

    pub fn phase(&self) -> (r: Phase)
        ensures
            r == self@.phase,
    {
        self.phase
    }

    pub fn transferred(&self) -> (r: u64)
        ensures
            r == self@.transferred,
    {
        self.transferred
    }

    pub fn total(&self) -> (r: Option<u64>)
        ensures
            r == self@.total,
    {
        self.total
    }

    pub fn last_percent(&self) -> (r: u64)
        ensures
            r == self@.last_percent,
    {
        self.tracker.last_reported()
    }

    /// The latest time at which the next chunk still counts as on time.
    pub fn deadline(&self) -> (r: u64)
        ensures
            r as int == if self@.last_activity + self@.threshold > u64::MAX {
                u64::MAX as int
            } else {
                self@.last_activity + self@.threshold
            },
    {
        self.watchdog.deadline()
    }

    pub fn is_finished(&self) -> (r: bool)
        ensures
            r == is_terminal(self@.phase),
    {
        match self.phase {
            Phase::Completed => true,
            Phase::Failed(_) => true,
            _ => false,
        }
    }

    fn fail(&mut self, kind: FailureKind) -> (r: Vec<Command>)
        ensures
            final(self)@ == fail_step(old(self)@, kind).0,
            r@ == fail_step(old(self)@, kind).1,
    {
        let cleanup = needs_cleanup(self.sink, self.dest_present);
        let outcome = Outcome::Failed { kind, cleanup_performed: cleanup };
        let mut cmds: Vec<Command> = Vec::new();
        if cleanup {
            cmds.push(Command::RemoveDestination);
        }
        cmds.push(Command::Finish(outcome));
        self.phase = Phase::Failed(kind);
        self.dest_present = false;
        proof {
            if cleanup {
                assert(cmds@ =~= seq![Command::RemoveDestination, Command::Finish(outcome)]);
            } else {
                assert(cmds@ =~= seq![Command::Finish(outcome)]);
            }
        }
        cmds
    }

    fn accept_chunk(&mut self, units: u64, now: u64) -> (r: Vec<Command>)
        ensures
            final(self)@ == chunk_step(old(self)@, units, now).0,
            r@ == chunk_step(old(self)@, units, now).1,
    {
        let ghost s = self@;
        let mut cmds: Vec<Command> = Vec::new();
        cmds.push(Command::Write);
        self.transferred = self.transferred.saturating_add(units);
        self.watchdog.touch(now);
        if let SinkKind::File = self.sink {
            self.dest_present = true;
        }
        let r = self.tracker.observe(self.transferred, self.total);
        if let Some(p) = r {
            cmds.push(Command::EmitPercent(p));
            self.emitted = Ghost(self.emitted@.push(p));
        }
        let ghost with_report = cmds@;
        if let SinkKind::Accumulator = self.sink {
            if units > 0 {
                cmds.push(Command::EmitDelta);
            }
        }
        let ghost with_delta = cmds@;
        cmds.push(Command::ReadNext);
        proof {
            assert(with_report =~= seq![Command::Write] + report_commands(r));
            assert(with_delta =~= seq![Command::Write] + report_commands(r) + delta_commands(
                s.sink,
                units,
            ));
            assert(cmds@ =~= chunk_step(s, units, now).1);
            assert(self@ == chunk_step(s, units, now).0);
        }
        cmds
    }

    fn accept_progress(&mut self, completed: u64, total: Option<u64>, now: u64) -> (r: Vec<Command>)
        ensures
            final(self)@ == progress_step(old(self)@, completed, total, now).0,
            r@ == progress_step(old(self)@, completed, total, now).1,
    {
        let ghost s = self@;
        let mut cmds: Vec<Command> = Vec::new();
        if let Some(t) = total {
            if t > 0 {
                self.total = total;
            }
        }
        if completed > self.transferred {
            self.transferred = completed;
        }
        self.watchdog.touch(now);
        let r = self.tracker.observe(self.transferred, self.total);
        if let Some(p) = r {
            cmds.push(Command::EmitPercent(p));
            self.emitted = Ghost(self.emitted@.push(p));
        }
        cmds.push(Command::ReadNext);
        proof {
            assert(cmds@ =~= progress_step(s, completed, total, now).1);
        }
        cmds
    }

    fn complete(&mut self) -> (r: Vec<Command>)
        ensures
            final(self)@ == complete_step(old(self)@).0,
            r@ == complete_step(old(self)@).1,
    {
        let ghost s = self@;
        let mut cmds: Vec<Command> = Vec::new();
        let r = self.tracker.finish(self.total);
        if let Some(p) = r {
            cmds.push(Command::EmitPercent(p));
            self.emitted = Ghost(self.emitted@.push(p));
        }
        cmds.push(Command::Finish(Outcome::Completed));
        self.phase = Phase::Completed;
        proof {
            assert(cmds@ =~= complete_step(s).1);
        }
        cmds
    }

    /// Applies one observed event and returns the commands to carry out, in order.
    pub fn step(&mut self, event: Event) -> (r: Vec<Command>)
        ensures
            final(self)@ == next(old(self)@, event).0,
            r@ == next(old(self)@, event).1,
    {
        let ghost s = self@;
        let mut none: Vec<Command> = Vec::new();
        proof {
            assert(none@ =~= Seq::<Command>::empty());
        }
        if self.is_finished() {
            return none;
        }
        if let Event::Cancelled = event {
            return self.fail(FailureKind::Cancelled);
        }
        match self.phase {
            Phase::Idle => match event {
                Event::Start { already_complete } => {
                    if already_complete {
                        self.phase = Phase::Completed;
                        none.push(Command::Finish(Outcome::Completed));
                    } else {
                        self.phase = Phase::Opening;
                        none.push(Command::Open);
                    }
                    proof {
                        assert(none@ =~= next(s, event).1);
                    }
                    none
                },
                _ => none,
            },
            Phase::Opening => match event {
                Event::Opened { total, now } => {
                    self.phase = Phase::Streaming;
                    self.total = total;
                    self.watchdog.touch(now);
                    none.push(Command::ReadNext);
                    proof {
                        assert(none@ =~= next(s, event).1);
                    }
                    none
                },
                Event::OpenFailed => self.fail(FailureKind::SourceUnavailable),
                _ => none,
            },
            Phase::Streaming => match event {
                Event::Chunk { units, now } => {
                    if self.watchdog.is_stale(now) {
                        self.fail(FailureKind::Timeout)
                    } else {
                        self.accept_chunk(units, now)
                    }
                },
                Event::Progress { completed, total, now } => {
                    if self.watchdog.is_stale(now) {
                        self.fail(FailureKind::Timeout)
                    } else {
                        self.accept_progress(completed, total, now)
                    }
                },
                Event::WaitExpired { now } => {
                    if self.watchdog.is_stale(now) {
                        self.fail(FailureKind::Timeout)
                    } else {
                        none.push(Command::ReadNext);
                        proof {
                            assert(none@ =~= next(s, event).1);
                        }
                        none
                    }
                },
                Event::StreamEnded => {
                    self.phase = Phase::Finalizing;
                    none.push(Command::Flush);
                    proof {
                        assert(none@ =~= next(s, event).1);
                    }
                    none
                },
                Event::StreamFailed => self.fail(FailureKind::StreamError),
                Event::SinkFailed => self.fail(FailureKind::SinkError),
                _ => none,
            },
            Phase::Finalizing => match event {
                Event::Flushed => self.complete(),
                Event::SinkFailed => self.fail(FailureKind::SinkError),
                _ => none,
            },
            _ => none,
        }
    }
}

} // verus!
