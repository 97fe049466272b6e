//! Sessions: independent connections to a target, each with its own life.

pub mod entries;
pub mod entry_laws;
pub mod life_laws;
pub mod listing;
pub mod open;
pub mod stage;
pub mod stage_laws;
pub mod streams;

use vstd::prelude::*;

use crate::connection::launch::ConnectionConfig;
use crate::io_error::{io_failure, IoError, IoErrorKind, IoErrorView};
use crate::text::concat2;

verus! {

/// Where a session works.
#[derive(Debug, PartialEq, Eq)]
pub enum SessionTarget {
    Local,
    Remote { destination: String },
}

impl Clone for SessionTarget {
    fn clone(&self) -> (r: Self)
        ensures
            r == *self,
    {
        match self {
            SessionTarget::Local => SessionTarget::Local,
            SessionTarget::Remote { destination } => SessionTarget::Remote {
                destination: destination.clone(),
            },
        }
    }
}

/// How a session is set up.
#[derive(Debug, PartialEq, Eq)]
pub struct SessionConfig {
    pub target: SessionTarget,
}

/// The connection that a session to `config`'s target needs: nothing is installed over what is
/// there.
pub fn connection_config(config: SessionConfig) -> (r: ConnectionConfig)
    ensures
        match config.target {
            SessionTarget::Local => r == (ConnectionConfig::Local { force_install: false }),
            SessionTarget::Remote { destination } => r == (ConnectionConfig::Remote {
                destination,
                force_install: false,
            }),
        },
{
    match config.target {
        SessionTarget::Local => ConnectionConfig::Local { force_install: false },
        SessionTarget::Remote { destination } => ConnectionConfig::Remote {
            destination,
            force_install: false,
        },
    }
}

/// Failure to start the server behind a session.
#[derive(Debug, PartialEq, Eq)]
pub enum ConnectError {
    ServerStart { message: String },
}

impl ConnectError {
    /// The text that the error is shown as.
    pub fn to_string(&self) -> (r: String)
        ensures
            self matches ConnectError::ServerStart { message } && r@ == "failed to start server: "@
                + message@,
    {
        match self {
            ConnectError::ServerStart { message } => concat2("failed to start server: ", message),
        }
    }
}

/// Failure to shut down the server behind a session.
#[derive(Debug, PartialEq, Eq)]
pub enum CloseError {
    ServerShutdown { message: String },
}

impl CloseError {
    /// The text that the error is shown as.
    pub fn to_string(&self) -> (r: String)
        ensures
            self matches CloseError::ServerShutdown { message } && r@
                == "failed to shut down server: "@ + message@,
    {
        match self {
            CloseError::ServerShutdown { message } => concat2(
                "failed to shut down server: ",
                message,
            ),
        }
    }
}

/// Failure to start what a session works with.
#[derive(Debug, PartialEq, Eq)]
pub enum SessionStartError {
    Backend { message: String },
}

impl SessionStartError {
    /// The text that the error is shown as.
    pub fn to_string(&self) -> (r: String)
        ensures
            self matches SessionStartError::Backend { message } && r@
                == "failed to start session backend: "@ + message@,
    {
        match self {
            SessionStartError::Backend { message } => concat2(
                "failed to start session backend: ",
                message,
            ),
        }
    }
}

/// Failure to shut down what a session works with.
#[derive(Debug, PartialEq, Eq)]
pub enum SessionShutdownError {
    Backend { message: String },
}

impl SessionShutdownError {
    /// The text that the error is shown as.
    pub fn to_string(&self) -> (r: String)
        ensures
            self matches SessionShutdownError::Backend { message } && r@
                == "failed to shut down session backend: "@ + message@,
    {
        match self {
            SessionShutdownError::Backend { message } => concat2(
                "failed to shut down session backend: ",
                message,
            ),
        }
    }
}

/// Failure to resolve a path.
#[derive(Debug, PartialEq, Eq)]
pub enum ResolvePathError {
    Operation { message: String },
}

impl From<IoError> for ResolvePathError {
    fn from(error: IoError) -> (r: Self) {
        ResolvePathError::Operation { message: error.message }
    }
}

impl vstd::std_specs::convert::FromSpecImpl<IoError> for ResolvePathError {
    open spec fn obeys_from_spec() -> bool {
        true
    }

    open spec fn from_spec(error: IoError) -> Self {
        ResolvePathError::Operation { message: error.message }
    }
}

impl ResolvePathError {
    /// The text that the error is shown as.
    pub fn to_string(&self) -> (r: String)
        ensures
            self matches ResolvePathError::Operation { message } && r@
                == "resolve-path operation failed: "@ + message@,
    {
        match self {
            ResolvePathError::Operation { message } => concat2(
                "resolve-path operation failed: ",
                message,
            ),
        }
    }
}

/// The error of using a session that is closed.
pub open spec fn closed_session() -> IoErrorView {
    io_failure(IoErrorKind::NotConnected, "session is closed"@)
}

/// The error of using a session that is closed.
pub fn session_closed() -> (r: IoError)
    ensures
        r@ == closed_session(),
{
    IoError::new(IoErrorKind::NotConnected, "session is closed")
}

/// A session: its name and target never change, and what it works with is there until it is
/// closed.
#[derive(Debug)]
pub struct Session<B> {
    id: String,
    target: SessionTarget,
    backend: Option<B>,
}

impl<B> Session<B> {
    /// The name of the session.
    pub closed spec fn spec_id(self) -> String {
        self.id
    }

    /// Where the session works.
    pub closed spec fn spec_target(self) -> SessionTarget {
        self.target
    }

    /// What the session works with, while it is open.
    pub closed spec fn spec_backend(self) -> Option<B> {
        self.backend
    }

    /// A session that is open, given what came of starting what it works with.
    pub fn start(id: String, target: SessionTarget, backend: Result<B, IoError>) -> (r: Result<
        Self,
        SessionStartError,
    >)
        ensures
            match (backend, r) {
                (Ok(backend), Ok(session)) => {
                    &&& session.spec_id() == id
                    &&& session.spec_target() == target
                    &&& session.spec_backend() == Some(backend)
                },
                (Err(error), Err(e)) => e == (SessionStartError::Backend { message: error.message }),
                _ => false,
            },
    {
        match backend {
            Ok(backend) => Ok(Session { id, target, backend: Some(backend) }),
            Err(error) => Err(SessionStartError::Backend { message: error.message }),
        }
    }

    /// A session to the server of `config`'s target, given what came of connecting to it.
    pub fn connect(id: String, config: SessionConfig, connection: Result<B, IoError>) -> (r: Result<
        Self,
        ConnectError,
    >)
        ensures
            match (connection, r) {
                (Ok(connection), Ok(session)) => {
                    &&& session.spec_id() == id
                    &&& session.spec_target() == config.target
                    &&& session.spec_backend() == Some(connection)
                },
                (Err(error), Err(e)) => e == (ConnectError::ServerStart { message: error.message }),
                _ => false,
            },
    {
        match connection {
            Ok(connection) => Ok(
                Session { id, target: config.target, backend: Some(connection) },
            ),
            Err(error) => Err(ConnectError::ServerStart { message: error.message }),
        }
    }

    /// A session that is closed from the start.
    pub fn closed(id: String, target: SessionTarget) -> (r: Self)
        ensures
            r.spec_id() == id,
            r.spec_target() == target,
            r.spec_backend() is None,
    {
        Session { id, target, backend: None }
    }

    /// The name of the session.
    pub fn id(&self) -> (r: String)
        ensures
            r == self.spec_id(),
    {
        self.id.clone()
    }

    /// Where the session works.
    pub fn target(&self) -> (r: SessionTarget)
        ensures
            r == self.spec_target(),
    {
        self.target.clone()
    }

    /// What the session works with, or the error of its being closed.
    pub fn backend(&self) -> (r: Result<&B, IoError>)
        ensures
            match r {
                Ok(backend) => self.spec_backend() == Some(*backend),
                Err(e) => self.spec_backend() is None && e@ == closed_session(),
            },
    {
        match &self.backend {
            Some(backend) => Ok(backend),
            None => Err(session_closed()),
        }
    }

    /// Closes the session. What it worked with is handed out to be shut down; a session that is
    /// closed already hands out nothing.
    pub fn take_backend(&mut self) -> (r: Option<B>)
        ensures
            r == old(self).spec_backend(),
            final(self).spec_backend() is None,
            final(self).spec_id() == old(self).spec_id(),
            final(self).spec_target() == old(self).spec_target(),
    {
        self.backend.take()
    }
}

/// What closing a session reports, given what came of shutting down what it worked with; nothing
/// where it was closed already.
pub fn close(shutdown: Option<Result<(), IoError>>) -> (r: Result<(), SessionShutdownError>)
    ensures
        match shutdown {
            Some(Err(error)) => r == Err::<(), SessionShutdownError>(
                (SessionShutdownError::Backend { message: error.message }),
            ),
            _ => r is Ok,
        },
{
    match shutdown {
        Some(Err(error)) => Err(SessionShutdownError::Backend { message: error.message }),
        _ => Ok(()),
    }
}

/// What closing a session to a server reports, given what came of shutting that down; nothing
/// where it was closed already.
pub fn close_connection(shutdown: Option<Result<(), IoError>>) -> (r: Result<(), CloseError>)
    ensures
        match shutdown {
            Some(Err(error)) => r == Err::<(), CloseError>(
                (CloseError::ServerShutdown { message: error.message }),
            ),
            _ => r is Ok,
        },
{
    match shutdown {
        Some(Err(error)) => Err(CloseError::ServerShutdown { message: error.message }),
        _ => Ok(()),
    }
}

} // verus!
