//! Starting servers and supervising them.

pub mod child;
pub mod child_laws;
pub mod control;
pub mod diagnostics;
pub mod hello;
pub mod logs;
pub mod owned_directory;
pub mod remote;
pub mod remote_laws;
pub mod runtime;
pub mod session_setup;
pub mod setup_laws;
pub mod ssh;

use vstd::prelude::*;

use crate::api::{failure, ErrorClass, FilePeekerError};

verus! {

/// The version of this client, and of the servers that it starts.
pub const PACKAGE_VERSION: &'static str = "0.1.0";

/// How long a server may take to start, in milliseconds.
pub const STARTUP_TIMEOUT_MS: u64 = 5000;

/// How long a process may take to end by itself, in milliseconds.
pub const SHUTDOWN_TIMEOUT_MS: u64 = 2000;

/// How long to wait between two attempts to reach a server on this machine, in milliseconds.
pub const LOCAL_CONNECT_RETRY_DELAY_MS: u64 = 20;

/// How long to wait between two attempts to reach a server, in milliseconds.
pub const CONNECT_RETRY_DELAY_MS: u64 = 100;

/// What closing a session's lifecycle does next.
#[derive(Debug, PartialEq, Eq)]
pub enum CloseStep {
    /// The supervision has ended.
    Closed,
    /// Ask for the shutdown and look again.
    RequestShutdown,
    /// Wait for the supervision to end.
    Wait,
    Failed(FilePeekerError),
}

/// What is known when the next step is chosen.
#[derive(Clone, Copy, Debug, PartialEq, Eq, Structural)]
pub enum CloseEvent {
    /// Whether the supervision had ended before a shutdown was asked for.
    Looked { closed: bool },
    /// Whether it had ended right after a shutdown was asked for.
    Requested { closed: bool },
    /// Whether it ended while it was waited for.
    Waited { closed: bool },
}

/// How long closing waits for the supervision to end, in milliseconds.
pub const CLOSE_TIMEOUT_MS: u64 = 3000;

/// Chooses the next step of closing a session's lifecycle.
pub fn close(event: CloseEvent) -> (r: CloseStep)
    ensures
        match event {
            CloseEvent::Looked { closed } => if closed {
                r is Closed
            } else {
                r is RequestShutdown
            },
            CloseEvent::Requested { closed } => if closed {
                r is Closed
            } else {
                r is Wait
            },
            CloseEvent::Waited { closed } => if closed {
                r is Closed
            } else {
                r matches CloseStep::Failed(e) && e@ == failure(
                    ErrorClass::ConnectionClosed,
                    "timed out waiting for server shutdown"@,
                )
            },
        },
{
    match event {
        CloseEvent::Looked { closed } => {
            if closed {
                CloseStep::Closed
            } else {
                CloseStep::RequestShutdown
            }
        },
        CloseEvent::Requested { closed } => {
            if closed {
                CloseStep::Closed
            } else {
                CloseStep::Wait
            }
        },
        CloseEvent::Waited { closed } => {
            if closed {
                CloseStep::Closed
            } else {
                CloseStep::Failed(
                    FilePeekerError::ConnectionClosed {
                        message: "timed out waiting for server shutdown".to_owned(),
                    },
                )
            }
        },
    }
}

} // verus!
