//! The decisions of the graceful shutdown of the server process. On Unix the
//! process is sent `SIGTERM`, given a bounded time to exit and killed
//! otherwise; where there is no such signal it is killed, waited for a
//! bounded time and killed again should it still run.

use vstd::prelude::*;

verus! {

/// The shortest graceful shutdown timeout accepted, in seconds.
pub const MIN_SHUTDOWN_TIMEOUT_SECS: u64 = 5;
/// The longest graceful shutdown timeout accepted, in seconds.
pub const MAX_SHUTDOWN_TIMEOUT_SECS: u64 = 300;

/// Whether a graceful shutdown timeout lies in the accepted range of 5 to 300 seconds.
pub fn valid_shutdown_timeout(secs: u64) -> (r: bool)
    ensures
        r == (MIN_SHUTDOWN_TIMEOUT_SECS <= secs <= MAX_SHUTDOWN_TIMEOUT_SECS),
{
    MIN_SHUTDOWN_TIMEOUT_SECS <= secs && secs <= MAX_SHUTDOWN_TIMEOUT_SECS
}

/// Where the shutdown stands.
#[derive(Debug, Clone, Copy, PartialEq, Eq, Structural)]
pub enum ShutdownPhase {
    /// Not started.
    Idle,
    /// `SIGTERM` is being sent.
    Signalling,
    /// The process is being killed first (no `SIGTERM` available).
    Terminating,
    /// Waiting for the process to exit.
    Waiting,
    /// The process is being killed after the wait ran out.
    Killing,
    /// Over.
    Finished,
}

/// What the runner observed after the shutdown's last action.
#[derive(Debug, Clone, Copy, PartialEq, Eq, Structural)]
pub enum ShutdownEvent {
    /// Begin the shutdown: whether a server process is held, and its id if known.
    Begin { has_child: bool, pid: Option<u32> },
    /// The `kill -TERM` command could not be started.
    SignalFailed,
    /// The `kill -TERM` command was started.
    SignalSent,
    /// The process exited.
    Exited,
    /// Waiting for the process failed.
    WaitFailed,
    /// The process did not exit in time.
    TimedOut,
    /// The kill completed (or failed).
    KillDone,
}

/// What the runner does next.
#[derive(Debug, Clone, Copy, PartialEq, Eq, Structural)]
pub enum ShutdownAction {
    /// Send `SIGTERM` to this process id.
    SendTerm { pid: u32 },
    /// Wait this many seconds at most for the process to exit.
    WaitFor { secs: u64 },
    /// Kill the process.
    ForceKill,
    /// Drop the process handle: the shutdown is over.
    Release,
    /// A held process has no id: the shutdown cannot go on and the handle is kept.
    Abandon,
    /// The event does not fit the phase; nothing changes.
    Ignore,
}

/// The shutdown's transitions: from `phase`, on `event`, to `next` with
/// `action`, for a shutdown that waits `timeout_secs` seconds and that sends
/// `SIGTERM` first when `signals` holds.
pub open spec fn shutdown_transition(
    signals: bool,
    phase: ShutdownPhase,
    timeout_secs: u64,
    event: ShutdownEvent,
    next: ShutdownPhase,
    action: ShutdownAction,
) -> bool {
    match (phase, event) {
        (ShutdownPhase::Idle, ShutdownEvent::Begin { has_child, pid }) => if !has_child {
            next == ShutdownPhase::Finished && action == ShutdownAction::Release
        } else if !signals {
            next == ShutdownPhase::Terminating && action == ShutdownAction::ForceKill
        } else {
            match pid {
                None => next == ShutdownPhase::Finished && action == ShutdownAction::Abandon,
                Some(p) => next == ShutdownPhase::Signalling && action == (ShutdownAction::SendTerm { pid: p }),
            }
        },
        (ShutdownPhase::Signalling, ShutdownEvent::SignalFailed) => next == ShutdownPhase::Finished && action
            == ShutdownAction::Release,
        (ShutdownPhase::Signalling, ShutdownEvent::SignalSent) => next == ShutdownPhase::Waiting && action
            == (ShutdownAction::WaitFor { secs: timeout_secs }),
        (ShutdownPhase::Terminating, ShutdownEvent::KillDone) => next == ShutdownPhase::Waiting && action
            == (ShutdownAction::WaitFor { secs: timeout_secs }),
        (ShutdownPhase::Waiting, ShutdownEvent::Exited) => next == ShutdownPhase::Finished && action
            == ShutdownAction::Release,
        (ShutdownPhase::Waiting, ShutdownEvent::WaitFailed) => next == ShutdownPhase::Finished && action
            == ShutdownAction::Release,
        (ShutdownPhase::Waiting, ShutdownEvent::TimedOut) => next == ShutdownPhase::Killing && action
            == ShutdownAction::ForceKill,
        (ShutdownPhase::Killing, ShutdownEvent::KillDone) => next == ShutdownPhase::Finished && action
            == ShutdownAction::Release,
        _ => next == phase && action == ShutdownAction::Ignore,
    }
}

/// How far the shutdown is from its end.
pub open spec fn shutdown_distance(phase: ShutdownPhase) -> int {
    match phase {
        ShutdownPhase::Idle => 4,
        ShutdownPhase::Signalling => 3,
        ShutdownPhase::Terminating => 3,
        ShutdownPhase::Waiting => 2,
        ShutdownPhase::Killing => 1,
        ShutdownPhase::Finished => 0,
    }
}

/// The graceful shutdown of the server process.
pub struct Shutdown {
    signals: bool,
    phase: ShutdownPhase,
    timeout_secs: u64,
}

impl Shutdown {
    /// The shutdown's phase.
    pub closed spec fn phase_spec(&self) -> ShutdownPhase {
        self.phase
    }

    /// Seconds the shutdown waits for the process to exit.
    pub closed spec fn timeout_spec(&self) -> u64 {
        self.timeout_secs
    }

    /// Whether the shutdown sends `SIGTERM` before anything else.
    pub closed spec fn signals_spec(&self) -> bool {
        self.signals
    }

    /// A shutdown that has not started, waits `timeout_secs` seconds (within
    /// the accepted 5 to 300) and sends `SIGTERM` first (Unix).
    pub fn new(timeout_secs: u64) -> (r: Shutdown)
        requires
            MIN_SHUTDOWN_TIMEOUT_SECS <= timeout_secs <= MAX_SHUTDOWN_TIMEOUT_SECS,
        ensures
            r.phase_spec() == ShutdownPhase::Idle,
            r.timeout_spec() == timeout_secs,
            r.signals_spec(),
    {
        Shutdown { signals: true, phase: ShutdownPhase::Idle, timeout_secs }
    }

    /// A shutdown that has not started, waits `timeout_secs` seconds (within
    /// the accepted 5 to 300) and, having no `SIGTERM` to send, kills the
    /// process first.
    pub fn without_signals(timeout_secs: u64) -> (r: Shutdown)
        requires
            MIN_SHUTDOWN_TIMEOUT_SECS <= timeout_secs <= MAX_SHUTDOWN_TIMEOUT_SECS,
        ensures
            r.phase_spec() == ShutdownPhase::Idle,
            r.timeout_spec() == timeout_secs,
            !r.signals_spec(),
    {
        Shutdown { signals: false, phase: ShutdownPhase::Idle, timeout_secs }
    }

    /// The shutdown's phase.
    pub fn phase(&self) -> (r: ShutdownPhase)
        ensures
            r == self.phase_spec(),
    {
        self.phase
    }

    /// Takes in what the runner observed and says what it does next.
    pub fn step(&mut self, event: ShutdownEvent) -> (r: ShutdownAction)
        ensures
            final(self).timeout_spec() == old(self).timeout_spec(),
            final(self).signals_spec() == old(self).signals_spec(),
            shutdown_transition(
                old(self).signals_spec(),
                old(self).phase_spec(),
                old(self).timeout_spec(),
                event,
                final(self).phase_spec(),
                r,
            ),
    {
        let (next, action) = match (self.phase, event) {
            (ShutdownPhase::Idle, ShutdownEvent::Begin { has_child, pid }) => if !has_child {
                (ShutdownPhase::Finished, ShutdownAction::Release)
            } else if !self.signals {
                (ShutdownPhase::Terminating, ShutdownAction::ForceKill)
            } else {
                match pid {
                    None => (ShutdownPhase::Finished, ShutdownAction::Abandon),
                    Some(p) => (ShutdownPhase::Signalling, ShutdownAction::SendTerm { pid: p }),
                }
            },
            (ShutdownPhase::Signalling, ShutdownEvent::SignalFailed) => (ShutdownPhase::Finished, ShutdownAction::Release),
            (ShutdownPhase::Signalling, ShutdownEvent::SignalSent) => (
                ShutdownPhase::Waiting,
                ShutdownAction::WaitFor { secs: self.timeout_secs },
            ),
            (ShutdownPhase::Terminating, ShutdownEvent::KillDone) => (
                ShutdownPhase::Waiting,
                ShutdownAction::WaitFor { secs: self.timeout_secs },
            ),
            (ShutdownPhase::Waiting, ShutdownEvent::Exited) => (ShutdownPhase::Finished, ShutdownAction::Release),
            (ShutdownPhase::Waiting, ShutdownEvent::WaitFailed) => (ShutdownPhase::Finished, ShutdownAction::Release),
            (ShutdownPhase::Waiting, ShutdownEvent::TimedOut) => (ShutdownPhase::Killing, ShutdownAction::ForceKill),
            (ShutdownPhase::Killing, ShutdownEvent::KillDone) => (ShutdownPhase::Finished, ShutdownAction::Release),
            (phase, _) => (phase, ShutdownAction::Ignore),
        };
        self.phase = next;
        action
    }
}

/// Every step of the shutdown that is not ignored brings it closer to its
/// end, so it is over after at most four steps.
pub proof fn shutdown_progresses(
    signals: bool,
    phase: ShutdownPhase,
    timeout_secs: u64,
    event: ShutdownEvent,
    next: ShutdownPhase,
    action: ShutdownAction,
)
    requires
        shutdown_transition(signals, phase, timeout_secs, event, next, action),
        action != ShutdownAction::Ignore,
    ensures
        0 <= shutdown_distance(next) < shutdown_distance(phase),
{
}

/// When `SIGTERM` can be sent, the process is only killed after it was
/// signalled and did not exit within the timeout. Either way the shutdown
/// only ends by dropping the process handle, or by keeping it when a process
/// to be signalled has no id, and the wait always lasts the configured timeout.
pub proof fn shutdown_kills_only_after_timeout(
    signals: bool,
    phase: ShutdownPhase,
    timeout_secs: u64,
    event: ShutdownEvent,
    next: ShutdownPhase,
    action: ShutdownAction,
)
    requires
        shutdown_transition(signals, phase, timeout_secs, event, next, action),
    ensures
        signals && action == ShutdownAction::ForceKill ==> phase == ShutdownPhase::Waiting && event
            == ShutdownEvent::TimedOut,
        next == ShutdownPhase::Finished && phase != ShutdownPhase::Finished ==> action == ShutdownAction::Release
            || action == ShutdownAction::Abandon,
        action == ShutdownAction::Abandon ==> signals && event == (ShutdownEvent::Begin { has_child: true, pid: None }),
        action matches ShutdownAction::WaitFor { secs } ==> secs == timeout_secs,
{
}

} // verus!

verus! {

/// Where signals cannot be sent, a held process is killed first, whatever
/// its id, and then waited for; and `SIGTERM` is only ever sent where
/// signals can be sent, to the process id the shutdown began with.
pub proof fn shutdown_without_signals_kills_first(
    signals: bool,
    phase: ShutdownPhase,
    timeout_secs: u64,
    event: ShutdownEvent,
    next: ShutdownPhase,
    action: ShutdownAction,
)
    requires
        shutdown_transition(signals, phase, timeout_secs, event, next, action),
    ensures
        event matches ShutdownEvent::Begin { has_child, .. } ==> (!signals && phase == ShutdownPhase::Idle
            && has_child ==> next == ShutdownPhase::Terminating && action == ShutdownAction::ForceKill),
        !signals && phase == ShutdownPhase::Terminating && event == ShutdownEvent::KillDone ==> next
            == ShutdownPhase::Waiting && action == (ShutdownAction::WaitFor { secs: timeout_secs }),
        action matches ShutdownAction::SendTerm { pid } ==> signals && phase == ShutdownPhase::Idle
            && event == (ShutdownEvent::Begin { has_child: true, pid: Some(pid) }),
        phase == ShutdownPhase::Waiting && event == ShutdownEvent::TimedOut ==> action
            == ShutdownAction::ForceKill,
        phase == ShutdownPhase::Waiting && (event == ShutdownEvent::Exited || event == ShutdownEvent::WaitFailed)
            ==> action == ShutdownAction::Release && next == ShutdownPhase::Finished,
        signals && phase == ShutdownPhase::Signalling && event == ShutdownEvent::SignalSent ==> action == (
        ShutdownAction::WaitFor { secs: timeout_secs }),
{
}

} // verus!
