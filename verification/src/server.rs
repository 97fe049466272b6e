//! A server on this machine that this client owns.

use vstd::prelude::*;

use crate::connection::control::{heartbeat_server, ControlRequest};
use crate::connection::lines::ConnectionInfo;
use crate::io_error::{io_failure, IoError, IoErrorKind, IoErrorView};

verus! {

/// How a started server is reached.
#[derive(Debug, PartialEq, Eq)]
pub struct RemoteServerStartup {
    pub forward_port: u16,
    pub token: String,
}

/// A server on this machine.
#[derive(Debug, PartialEq, Eq)]
pub struct LocalServer {
    executable: Option<String>,
    startup: Option<RemoteServerStartup>,
    running: bool,
}

/// The error of connecting to a server twice.
pub open spec fn already_connected() -> IoErrorView {
    io_failure(IoErrorKind::AlreadyExists, "local server is already connected"@)
}

/// The error of working with a server that is not connected: one that was never started, or was
/// shut down since.
pub open spec fn not_started() -> IoErrorView {
    io_failure(IoErrorKind::NotConnected, "server is not started"@)
}

impl Default for LocalServer {
    fn default() -> (r: Self)
        ensures
            r.spec_executable() is None,
            r.spec_startup() is None,
            !r.is_running(),
    {
        LocalServer { executable: None, startup: None, running: false }
    }
}

impl LocalServer {
    /// The server's executable, once it was started.
    pub closed spec fn spec_executable(self) -> Option<String> {
        self.executable
    }

    /// How the server is reached, once it was started.
    pub closed spec fn spec_startup(self) -> Option<RemoteServerStartup> {
        self.startup
    }

    /// Whether the server's process is owned.
    pub closed spec fn is_running(self) -> bool {
        self.running
    }

    /// Whether a connection may be made: a server that runs has one already.
    pub fn connect(&self) -> (r: Result<(), IoError>)
        ensures
            match r {
                Ok(_) => !self.is_running(),
                Err(e) => self.is_running() && e@ == already_connected(),
            },
    {
        if self.running {
            Err(IoError::new(IoErrorKind::AlreadyExists, "local server is already connected"))
        } else {
            Ok(())
        }
    }

    /// Takes over a server that was launched.
    pub fn connected(&mut self, executable: String, info: ConnectionInfo)
        ensures
            final(self).is_running(),
            final(self).spec_executable() == Some(executable),
            final(self).spec_startup() == Some(
                (RemoteServerStartup { forward_port: info.server_port, token: info.token }),
            ),
    {
        self.executable = Some(executable);
        self.startup = Some(
            RemoteServerStartup { forward_port: info.server_port, token: info.token },
        );
        self.running = true;
    }

    /// How one operation reaches the server, while it is connected. A server that was shut down
    /// is not, though what it once reported is still known.
    pub fn operate(&self) -> (r: Result<&RemoteServerStartup, IoError>)
        ensures
            match r {
                Ok(startup) => self.is_running() && self.spec_startup() == Some(*startup),
                Err(e) => !(self.is_running() && self.spec_startup() is Some) && e@
                    == not_started(),
            },
    {
        if self.running {
            if let Some(startup) = &self.startup {
                return Ok(startup);
            }
        }
        Err(IoError::new(IoErrorKind::NotConnected, "server is not started"))
    }

    /// The request that checks whether the server answers, while it is connected.
    pub fn heartbeat(&self) -> (r: Result<ControlRequest, IoError>)
        ensures
            match r {
                Ok(request) => self.is_running() && request == ControlRequest::Heartbeat,
                Err(e) => !self.is_running() && e@ == io_failure(
                    IoErrorKind::NotConnected,
                    "control stream is not connected"@,
                ),
            },
    {
        heartbeat_server(self.running)
    }

    /// Lets the server's process go, to be shut down: whether there was one.
    pub fn shutdown(&mut self) -> (r: bool)
        ensures
            r == old(self).is_running(),
            !final(self).is_running(),
            final(self).spec_executable() == old(self).spec_executable(),
            final(self).spec_startup() == old(self).spec_startup(),
    {
        let was_running = self.running;
        self.running = false;
        was_running
    }

    /// The server's executable, once it was started.
    pub fn server_executable(&self) -> (r: Option<&String>)
        ensures
            match r {
                Some(path) => self.spec_executable() == Some(*path),
                None => self.spec_executable() is None,
            },
    {
        match &self.executable {
            Some(path) => Some(path),
            None => None,
        }
    }

    /// How the server is reached, once it was started.
    pub fn startup(&self) -> (r: Option<&RemoteServerStartup>)
        ensures
            match r {
                Some(startup) => self.spec_startup() == Some(*startup),
                None => self.spec_startup() is None,
            },
    {
        match &self.startup {
            Some(startup) => Some(startup),
            None => None,
        }
    }
}

} // verus!
