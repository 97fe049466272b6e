//! Reaching a server that is starting and greeting it.

use vstd::prelude::*;

use crate::api::{failure, ErrorClass, ErrorView, FilePeekerError};
use crate::io_error::{IoError, IoErrorKind};
use crate::startup::diagnostics::server_exited_error;
use crate::startup::runtime::start_failure;
use crate::startup::ssh::AUTHENTICATION_TIMEOUT_MS;
use crate::startup::STARTUP_TIMEOUT_MS;
use crate::text::{concat2, concat4, decimal, decimal_text};

verus! {

/// The error of having waited `ms` milliseconds in vain.
pub open spec fn timed_out(ms: u64, what: Seq<char>) -> ErrorView {
    start_failure("timed out after "@ + decimal_text(ms as nat) + " ms "@ + what)
}

fn timed_out_error(ms: u64, what: &str) -> (r: FilePeekerError)
    ensures
        r@ == timed_out(ms, what@),
{
    let number = decimal(ms);
    FilePeekerError::ServerStart { message: concat4("timed out after ", &number, " ms ", what) }
}

/// What is seen of a process that should be running.
#[derive(Debug, PartialEq, Eq)]
pub struct ProcessCheck {
    /// The exit status in words where it has ended.
    pub exited: Result<Option<String>, IoError>,
    pub deadline_passed: bool,
}

/// What waiting for a server's socket comes to next.
#[derive(Debug, PartialEq, Eq)]
pub enum ConnectPhase {
    /// Look whether the server still runs.
    Inspect,
    /// Try the socket.
    Connect,
    /// Wait before looking again.
    Delay,
    Connected,
    Failed(FilePeekerError),
}

/// What came of the last step.
#[derive(Debug, PartialEq, Eq)]
pub enum ConnectEvent {
    Inspected(ProcessCheck),
    Tried(Result<(), IoError>),
    Waited,
}

/// Whether `phase` is the failure described.
pub open spec fn connect_failed(phase: ConnectPhase, e: ErrorView) -> bool {
    phase matches ConnectPhase::Failed(error) && error@ == e
}

/// The error of a server that ended with `status` while it was starting.
pub open spec fn exited_failure(status: Seq<char>) -> ErrorView {
    failure(ErrorClass::ServerExited, "server exited with "@ + status)
}

/// Whether waiting for the socket goes from `phase` to `after` when `event` comes. A server that
/// has ended is reported before the deadline is, and only a socket that is not there or not yet
/// listening is tried again.
pub open spec fn connect_next(phase: ConnectPhase, event: ConnectEvent, after: ConnectPhase) -> bool {
    match (phase, event) {
        (ConnectPhase::Inspect, ConnectEvent::Inspected(check)) => match check.exited {
            Err(e) => connect_failed(
                after,
                start_failure("cannot inspect server process: "@ + e@.message),
            ),
            Ok(Some(status)) => connect_failed(after, exited_failure(status@)),
            Ok(None) => if check.deadline_passed {
                connect_failed(
                    after,
                    timed_out(STARTUP_TIMEOUT_MS, "waiting for the server socket"@),
                )
            } else {
                after is Connect
            },
        },
        (ConnectPhase::Connect, ConnectEvent::Tried(Ok(_))) => after is Connected,
        (ConnectPhase::Connect, ConnectEvent::Tried(Err(e))) => if e.kind == IoErrorKind::NotFound
            || e.kind == IoErrorKind::ConnectionRefused {
            after is Delay
        } else {
            connect_failed(
                after,
                start_failure("cannot connect to server socket: "@ + e@.message),
            )
        },
        (ConnectPhase::Delay, ConnectEvent::Waited) => after is Inspect,
        (phase, _) => after == phase,
    }
}

/// Takes in what came of the last step of waiting for the socket.
pub fn connect_control(phase: ConnectPhase, event: ConnectEvent) -> (r: ConnectPhase)
    ensures
        connect_next(phase, event, r),
{
    match (phase, event) {
        (ConnectPhase::Inspect, ConnectEvent::Inspected(check)) => match check.exited {
            Err(e) => ConnectPhase::Failed(
                FilePeekerError::ServerStart {
                    message: concat2("cannot inspect server process: ", &e.message),
                },
            ),
            Ok(Some(status)) => ConnectPhase::Failed(server_exited_error(&status, None)),
            Ok(None) => {
                if check.deadline_passed {
                    ConnectPhase::Failed(
                        timed_out_error(STARTUP_TIMEOUT_MS, "waiting for the server socket"),
                    )
                } else {
                    ConnectPhase::Connect
                }
            },
        },
        (ConnectPhase::Connect, ConnectEvent::Tried(Ok(_))) => ConnectPhase::Connected,
        (ConnectPhase::Connect, ConnectEvent::Tried(Err(e))) => {
            if e.kind == IoErrorKind::NotFound || e.kind == IoErrorKind::ConnectionRefused {
                ConnectPhase::Delay
            } else {
                ConnectPhase::Failed(
                    FilePeekerError::ServerStart {
                        message: concat2("cannot connect to server socket: ", &e.message),
                    },
                )
            }
        },
        (ConnectPhase::Delay, ConnectEvent::Waited) => ConnectPhase::Inspect,
        (phase, _) => phase,
    }
}

/// What ended the wait for the answer to a greeting.
#[derive(Debug, PartialEq, Eq)]
pub enum HandshakeOutcome {
    Answered(Result<(), FilePeekerError>),
    TimedOut,
    /// The process ended first; its status in words.
    Exited(Result<String, IoError>),
}

/// Why a greeting did not succeed, if it did not.
pub open spec fn handshake_error(outcome: HandshakeOutcome) -> Option<ErrorView> {
    match outcome {
        HandshakeOutcome::Answered(Ok(_)) => None,
        HandshakeOutcome::Answered(Err(e)) => Some(e@),
        HandshakeOutcome::TimedOut => Some(
            timed_out(STARTUP_TIMEOUT_MS, "during the control handshake"@),
        ),
        HandshakeOutcome::Exited(Ok(status)) => Some(exited_failure(status@)),
        HandshakeOutcome::Exited(Err(e)) => Some(
            start_failure("cannot wait for server process: "@ + e@.message),
        ),
    }
}

/// Reads off whether a greeting has succeeded.
pub fn complete_handshake(outcome: HandshakeOutcome) -> (r: Result<(), FilePeekerError>)
    ensures
        match r {
            Ok(_) => handshake_error(outcome) is None,
            Err(e) => handshake_error(outcome) == Some(e@),
        },
{
    match outcome {
        HandshakeOutcome::Answered(result) => result,
        HandshakeOutcome::TimedOut => Err(
            timed_out_error(STARTUP_TIMEOUT_MS, "during the control handshake"),
        ),
        HandshakeOutcome::Exited(Ok(status)) => Err(server_exited_error(&status, None)),
        HandshakeOutcome::Exited(Err(e)) => Err(
            FilePeekerError::ServerStart {
                message: concat2("cannot wait for server process: ", &e.message),
            },
        ),
    }
}

/// What waiting for the SSH control master comes to next.
#[derive(Debug, PartialEq, Eq)]
pub enum MasterPhase {
    /// Look whether the master still runs.
    Inspect,
    /// Ask the master whether it is ready.
    Check,
    /// Wait before looking again.
    Delay,
    Ready,
    Failed(FilePeekerError),
}

/// What came of the last step.
#[derive(Debug, PartialEq, Eq)]
pub enum MasterEvent {
    Inspected(ProcessCheck),
    /// Whether the control socket is there and the master answered in time that it is ready.
    Checked(bool),
    Waited,
}

/// Whether `phase` is the failure described.
pub open spec fn master_failed(phase: MasterPhase, e: ErrorView) -> bool {
    phase matches MasterPhase::Failed(error) && error@ == e
}

/// Whether waiting for the master goes from `phase` to `after` when `event` comes.
pub open spec fn master_next(phase: MasterPhase, event: MasterEvent, after: MasterPhase) -> bool {
    match (phase, event) {
        (MasterPhase::Inspect, MasterEvent::Inspected(check)) => match check.exited {
            Err(e) => master_failed(
                after,
                start_failure("cannot inspect SSH control master: "@ + e@.message),
            ),
            Ok(Some(status)) => master_failed(
                after,
                failure(ErrorClass::ServerExited, "SSH control master exited with "@ + status@),
            ),
            Ok(None) => if check.deadline_passed {
                master_failed(
                    after,
                    timed_out(AUTHENTICATION_TIMEOUT_MS, "waiting for SSH authentication"@),
                )
            } else {
                after is Check
            },
        },
        (MasterPhase::Check, MasterEvent::Checked(ready)) => if ready {
            after is Ready
        } else {
            after is Delay
        },
        (MasterPhase::Delay, MasterEvent::Waited) => after is Inspect,
        (phase, _) => after == phase,
    }
}

/// Takes in what came of the last step of waiting for the master.
pub fn wait_for_master(phase: MasterPhase, event: MasterEvent) -> (r: MasterPhase)
    ensures
        master_next(phase, event, r),
{
    match (phase, event) {
        (MasterPhase::Inspect, MasterEvent::Inspected(check)) => match check.exited {
            Err(e) => MasterPhase::Failed(
                FilePeekerError::ServerStart {
                    message: concat2("cannot inspect SSH control master: ", &e.message),
                },
            ),
            Ok(Some(status)) => MasterPhase::Failed(
                FilePeekerError::ServerExited {
                    message: concat2("SSH control master exited with ", &status),
                },
            ),
            Ok(None) => {
                if check.deadline_passed {
                    MasterPhase::Failed(
                        timed_out_error(AUTHENTICATION_TIMEOUT_MS, "waiting for SSH authentication"),
                    )
                } else {
                    MasterPhase::Check
                }
            },
        },
        (MasterPhase::Check, MasterEvent::Checked(ready)) => {
            if ready {
                MasterPhase::Ready
            } else {
                MasterPhase::Delay
            }
        },
        (MasterPhase::Delay, MasterEvent::Waited) => MasterPhase::Inspect,
        (phase, _) => phase,
    }
}

} // verus!
