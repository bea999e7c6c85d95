//! What the outside work reports, and what the probe makes of it.
//!
//! A connection attempt and a run of the SSH client process are made by the
//! caller. Each is reported as one plain value, and a total function gives the
//! outcome that the report stands for.

use vstd::prelude::*;

verus! {

/// Why a host counts as unreachable. Neither is a fault: both are ordinary
/// negative answers of a probe.
#[derive(Clone, Copy, Debug, PartialEq, Eq, Structural)]
pub enum UnreachableReason {
    /// Nothing came back before the time allowed ran out.
    TimedOut,
    /// The host answered and turned the connection down.
    Refused,
}

/// The kind of fault that kept a reachability check from giving an answer.
#[derive(Clone, Copy, Debug, PartialEq, Eq, Structural)]
pub enum FaultKind {
    /// The host and port could not be turned into an address to connect to.
    AddressResolution,
    /// The transport failed in some way other than a refusal or a timeout.
    Transport,
}

/// What the caller saw when it tried to connect.
#[derive(Clone, Debug, PartialEq, Eq)]
pub enum ConnectAttempt {
    /// No address was found for the host and port; no connection was tried.
    ResolutionFailed { detail: String },
    /// The connection was established.
    Connected,
    /// The host turned the connection down.
    Refused,
    /// The time allowed ran out before the host answered.
    TimedOut,
    /// Any other failure of the transport.
    Failed { detail: String },
}

/// A connection attempt, as contracts see it.
pub enum ConnectAttemptView {
    ResolutionFailed { detail: Seq<char> },
    Connected,
    Refused,
    TimedOut,
    Failed { detail: Seq<char> },
}

impl View for ConnectAttempt {
    type V = ConnectAttemptView;

    open spec fn view(&self) -> ConnectAttemptView {
        match *self {
            ConnectAttempt::ResolutionFailed { detail } => ConnectAttemptView::ResolutionFailed {
                detail: detail@,
            },
            ConnectAttempt::Connected => ConnectAttemptView::Connected,
            ConnectAttempt::Refused => ConnectAttemptView::Refused,
            ConnectAttempt::TimedOut => ConnectAttemptView::TimedOut,
            ConnectAttempt::Failed { detail } => ConnectAttemptView::Failed { detail: detail@ },
        }
    }
}

/// The outcome of one reachability check.
#[derive(Clone, Debug, PartialEq, Eq)]
pub enum ProbeResult {
    /// Something listens on the port.
    Reachable,
    /// Nothing could be reached, for the reason given.
    Unreachable { reason: UnreachableReason },
    /// The check could not be carried out.
    Error { kind: FaultKind, detail: String },
}

/// The outcome of a reachability check, as contracts see it.
pub enum ProbeResultView {
    Reachable,
    Unreachable { reason: UnreachableReason },
    Error { kind: FaultKind, detail: Seq<char> },
}

impl View for ProbeResult {
    type V = ProbeResultView;

    open spec fn view(&self) -> ProbeResultView {
        match *self {
            ProbeResult::Reachable => ProbeResultView::Reachable,
            ProbeResult::Unreachable { reason } => ProbeResultView::Unreachable { reason },
            ProbeResult::Error { kind, detail } => ProbeResultView::Error { kind, detail: detail@ },
        }
    }
}

/// The outcome that a connection attempt stands for. An established connection
/// is the only way to `Reachable`; a refusal and a timeout are the only ways to
/// `Unreachable`; every other report is an error that keeps its detail.
pub open spec fn probe_result_of(attempt: ConnectAttemptView) -> ProbeResultView {
    match attempt {
        ConnectAttemptView::ResolutionFailed { detail } => ProbeResultView::Error {
            kind: FaultKind::AddressResolution,
            detail,
        },
        ConnectAttemptView::Connected => ProbeResultView::Reachable,
        ConnectAttemptView::Refused => ProbeResultView::Unreachable {
            reason: UnreachableReason::Refused,
        },
        ConnectAttemptView::TimedOut => ProbeResultView::Unreachable {
            reason: UnreachableReason::TimedOut,
        },
        ConnectAttemptView::Failed { detail } => ProbeResultView::Error {
            kind: FaultKind::Transport,
            detail,
        },
    }
}

impl ProbeResult {
    /// Whether the host was reached.
    pub fn is_reachable(&self) -> (reached: bool)
        ensures
            reached == (self@ == ProbeResultView::Reachable),
    {
        match self {
            ProbeResult::Reachable => true,
            _ => false,
        }
    }
}

/// How a failed run of a remote command failed.
#[derive(Clone, Copy, Debug, PartialEq, Eq, Structural)]
pub enum FailureKind {
    /// The client process ran and ended with a status other than zero.
    RemoteCommand,
    /// The client process could not be started.
    Spawn,
    /// The client process was still running when its time was up.
    TimedOut,
}

/// What the caller saw when it ran the SSH client process.
#[derive(Clone, Debug, PartialEq, Eq)]
pub enum ProcessExit {
    /// The process ended with an exit code.
    Exited { code: i32, stdout: String, stderr: String },
    /// The process ended without an exit code, as one that a signal ended.
    Terminated { stdout: String, stderr: String },
    /// The process could not be started.
    SpawnFailed { detail: String },
    /// The process did not end within the time allowed and was stopped.
    TimedOut { stderr: String },
}

/// A run of the client process, as contracts see it.
pub enum ProcessExitView {
    Exited { code: i32, stdout: Seq<char>, stderr: Seq<char> },
    Terminated { stdout: Seq<char>, stderr: Seq<char> },
    SpawnFailed { detail: Seq<char> },
    TimedOut { stderr: Seq<char> },
}

impl View for ProcessExit {
    type V = ProcessExitView;

    open spec fn view(&self) -> ProcessExitView {
        match *self {
            ProcessExit::Exited { code, stdout, stderr } => ProcessExitView::Exited {
                code,
                stdout: stdout@,
                stderr: stderr@,
            },
            ProcessExit::Terminated { stdout, stderr } => ProcessExitView::Terminated {
                stdout: stdout@,
                stderr: stderr@,
            },
            ProcessExit::SpawnFailed { detail } => ProcessExitView::SpawnFailed { detail: detail@ },
            ProcessExit::TimedOut { stderr } => ProcessExitView::TimedOut { stderr: stderr@ },
        }
    }
}

/// The outcome of one remote command.
#[derive(Clone, Debug, PartialEq, Eq)]
pub enum CommandOutcome {
    /// The command ran and ended with status zero; its standard output.
    Success { stdout: String },
    /// The command failed; what there is to say of it.
    Failure { kind: FailureKind, stderr: String },
}

/// The outcome of a remote command, as contracts see it.
pub enum CommandOutcomeView {
    Success { stdout: Seq<char> },
    Failure { kind: FailureKind, stderr: Seq<char> },
}

impl View for CommandOutcome {
    type V = CommandOutcomeView;

    open spec fn view(&self) -> CommandOutcomeView {
        match *self {
            CommandOutcome::Success { stdout } => CommandOutcomeView::Success { stdout: stdout@ },
            CommandOutcome::Failure { kind, stderr } => CommandOutcomeView::Failure {
                kind,
                stderr: stderr@,
            },
        }
    }
}

/// The outcome that a run of the client process stands for. Exit code zero is
/// the only success and carries the standard output; every other ending is a
/// failure that carries the standard error, or the reason why nothing ran.
pub open spec fn command_outcome_of(exit: ProcessExitView) -> CommandOutcomeView {
    match exit {
        ProcessExitView::Exited { code, stdout, stderr } => if code == 0 {
            CommandOutcomeView::Success { stdout }
        } else {
            CommandOutcomeView::Failure { kind: FailureKind::RemoteCommand, stderr }
        },
        ProcessExitView::Terminated { stdout, stderr } => CommandOutcomeView::Failure {
            kind: FailureKind::RemoteCommand,
            stderr,
        },
        ProcessExitView::SpawnFailed { detail } => CommandOutcomeView::Failure {
            kind: FailureKind::Spawn,
            stderr: detail,
        },
        ProcessExitView::TimedOut { stderr } => CommandOutcomeView::Failure {
            kind: FailureKind::TimedOut,
            stderr,
        },
    }
}

impl CommandOutcome {
    /// Whether the command succeeded.
    pub fn is_success(&self) -> (succeeded: bool)
        ensures
            succeeded == (self@ is Success),
    {
        match self {
            CommandOutcome::Success { .. } => true,
            CommandOutcome::Failure { .. } => false,
        }
    }
}

} // verus!
