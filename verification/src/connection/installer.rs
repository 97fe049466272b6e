//! Making sure that the server's executable is installed on this machine, by a shell of our own.

use vstd::prelude::*;
use vstd::utf8::{decode_utf8, valid_utf8};

use crate::bytes::utf8;
use crate::cli::install::{source_command_text, source_install_command};
use crate::connection::lines::{
    ensure_command_text, ensure_server_command, ensure_server_executable, is_whole, reported,
    silent_installer, InstallerLine, SERVER_ERROR_PREFIX, SERVER_READY_PREFIX,
};
use crate::io_error::{io_failure, IoError, IoErrorKind, IoErrorView};
use crate::text::concat2;

verus! {

/// How a server on this machine is installed.
#[derive(Debug, PartialEq, Eq, Default)]
pub struct LocalServerConfig {
    pub force_install: bool,
    /// The directory of the server's sources, where it is to be built from them.
    pub local_source_path: Option<Vec<u8>>,
}

/// The source path in `config` as a text.
pub fn local_source(config: &LocalServerConfig) -> (r: Result<Option<String>, IoError>)
    ensures
        match config.local_source_path {
            None => r matches Ok(None),
            Some(bytes) => if valid_utf8(bytes@) {
                r matches Ok(Some(text)) && text@ == decode_utf8(bytes@)
            } else {
                r matches Err(e) && e@ == io_failure(
                    IoErrorKind::InvalidInput,
                    "local server source path must be valid UTF-8"@,
                )
            },
        },
{
    match &config.local_source_path {
        None => Ok(None),
        Some(bytes) => match utf8(bytes.as_slice()) {
            Ok(text) => Ok(Some(text)),
            Err(_) => Err(
                IoError::new(
                    IoErrorKind::InvalidInput,
                    "local server source path must be valid UTF-8",
                ),
            ),
        },
    }
}

/// The command that installs the server as configured, or what is wrong with the configuration: the
/// server is built from the sources that are named, else the released one is installed.
pub open spec fn installer_text(config: LocalServerConfig) -> Result<Seq<char>, IoErrorView> {
    match config.local_source_path {
        None => Ok(ensure_command_text(config.force_install)),
        Some(bytes) => if valid_utf8(bytes@) {
            Ok(source_command_text(config.force_install, decode_utf8(bytes@)))
        } else {
            Err(
                io_failure(
                    IoErrorKind::InvalidInput,
                    "local server source path must be valid UTF-8"@,
                ),
            )
        },
    }
}

/// The command that installs the server as configured.
pub fn installer_command(config: &LocalServerConfig) -> (r: Result<String, IoError>)
    ensures
        match r {
            Ok(command) => installer_text(*config) == Ok::<Seq<char>, IoErrorView>(command@),
            Err(e) => installer_text(*config) == Err::<Seq<char>, IoErrorView>(e@),
        },
{
    match local_source(config) {
        Err(e) => Err(e),
        Ok(Some(source)) => Ok(source_install_command(config.force_install, &source)),
        Ok(None) => Ok(ensure_server_command(config.force_install)),
    }
}

/// Which pipes a started process offers.
#[derive(Clone, Copy, Debug, PartialEq, Eq, Structural)]
pub struct Pipes {
    pub stdin: bool,
    pub stdout: bool,
}

/// How far the installation has come.
#[derive(Debug, PartialEq, Eq)]
pub enum InstallerPhase {
    /// Start a shell, for this command.
    Spawn(String),
    /// Send the command to the shell.
    Send(String),
    ReadLine,
    /// Show a line, then read the next.
    Show(String),
    /// Wait for the shell to end; the executable was reported.
    Await(String),
    /// Stop the shell, then report the error.
    Stop(IoError),
    Done(String),
    Failed(IoError),
}

/// What came of the last step.
#[derive(Debug, PartialEq, Eq)]
pub enum InstallerEvent {
    Spawned(Result<Pipes, IoError>),
    Sent(Result<(), IoError>),
    Line(Result<String, IoError>),
    Shown(Result<(), IoError>),
    /// Whether the shell succeeded, and its status in words.
    Exited(Result<(bool, String), IoError>),
    Stopped,
}

/// Whether `phase` stops the shell because of this failure.
pub open spec fn installer_stops(phase: InstallerPhase, e: IoErrorView) -> bool {
    phase matches InstallerPhase::Stop(error) && error@ == e
}

/// Whether `phase` is this failure.
pub open spec fn installer_failed(phase: InstallerPhase, e: IoErrorView) -> bool {
    phase matches InstallerPhase::Failed(error) && error@ == e
}

/// An I/O failure of no particular kind.
pub open spec fn other_failure(message: Seq<char>) -> IoErrorView {
    io_failure(IoErrorKind::Other, message)
}

/// Where the installation goes by a line of the shell's output.
pub open spec fn after_line(line: String, after: InstallerPhase) -> bool {
    if !is_whole(line@) {
        installer_stops(after, silent_installer())
    } else {
        match reported(line@, SERVER_READY_PREFIX@) {
            Some(executable) => after matches InstallerPhase::Await(found) && found@ == executable,
            None => match reported(line@, SERVER_ERROR_PREFIX@) {
                Some(message) => installer_stops(after, other_failure(message)),
                None => after == InstallerPhase::Show(line),
            },
        }
    }
}

/// Whether the installation moves from `phase` to `after` when `event` comes.
pub open spec fn installer_next(
    phase: InstallerPhase,
    event: InstallerEvent,
    after: InstallerPhase,
) -> bool {
    match (phase, event) {
        (InstallerPhase::Spawn(_), InstallerEvent::Spawned(Err(e))) => after
            == InstallerPhase::Failed(e),
        (InstallerPhase::Spawn(command), InstallerEvent::Spawned(Ok(pipes))) => if !pipes.stdin {
            installer_stops(after, other_failure("server installer standard input is unavailable"@))
        } else if !pipes.stdout {
            installer_stops(
                after,
                other_failure("server installer standard output is unavailable"@),
            )
        } else {
            after == InstallerPhase::Send(command)
        },
        (InstallerPhase::Send(_), InstallerEvent::Sent(Ok(_))) => after is ReadLine,
        (InstallerPhase::Send(_), InstallerEvent::Sent(Err(e))) => after == InstallerPhase::Stop(e),
        (InstallerPhase::ReadLine, InstallerEvent::Line(Ok(line))) => after_line(line, after),
        (InstallerPhase::ReadLine, InstallerEvent::Line(Err(e))) => after == InstallerPhase::Stop(e),
        (InstallerPhase::Show(_), InstallerEvent::Shown(Ok(_))) => after is ReadLine,
        (InstallerPhase::Show(_), InstallerEvent::Shown(Err(e))) => after == InstallerPhase::Stop(e),
        (InstallerPhase::Await(_), InstallerEvent::Exited(Err(e))) => after
            == InstallerPhase::Failed(e),
        (InstallerPhase::Await(executable), InstallerEvent::Exited(Ok((success, status)))) => {
            if success {
                after == InstallerPhase::Done(executable)
            } else {
                installer_failed(after, other_failure("server installer failed with "@ + status@))
            }
        },
        (InstallerPhase::Stop(e), InstallerEvent::Stopped) => after == InstallerPhase::Failed(e),
        (phase, _) => after == phase,
    }
}

/// Starts an installation as configured.
pub fn start_installer(config: &LocalServerConfig) -> (r: Result<InstallerPhase, IoError>)
    ensures
        match r {
            Ok(phase) => phase matches InstallerPhase::Spawn(command) && installer_text(*config)
                == Ok::<Seq<char>, IoErrorView>(command@),
            Err(e) => installer_text(*config) == Err::<Seq<char>, IoErrorView>(e@),
        },
{
    match installer_command(config) {
        Ok(command) => Ok(InstallerPhase::Spawn(command)),
        Err(e) => Err(e),
    }
}

/// Takes in what came of the last step.
pub fn get_server_executable(phase: InstallerPhase, event: InstallerEvent) -> (r: InstallerPhase)
    ensures
        installer_next(phase, event, r),
{
    match (phase, event) {
        (InstallerPhase::Spawn(_), InstallerEvent::Spawned(Err(e))) => InstallerPhase::Failed(e),
        (InstallerPhase::Spawn(command), InstallerEvent::Spawned(Ok(pipes))) => {
            if !pipes.stdin {
                InstallerPhase::Stop(
                    IoError::other("server installer standard input is unavailable"),
                )
            } else if !pipes.stdout {
                InstallerPhase::Stop(
                    IoError::other("server installer standard output is unavailable"),
                )
            } else {
                InstallerPhase::Send(command)
            }
        },
        (InstallerPhase::Send(_), InstallerEvent::Sent(Ok(_))) => InstallerPhase::ReadLine,
        (InstallerPhase::Send(_), InstallerEvent::Sent(Err(e))) => InstallerPhase::Stop(e),
        (InstallerPhase::ReadLine, InstallerEvent::Line(Ok(line))) => {
            match ensure_server_executable(&line) {
                Err(e) => InstallerPhase::Stop(e),
                Ok(InstallerLine::Ready(executable)) => InstallerPhase::Await(executable),
                Ok(InstallerLine::Show) => InstallerPhase::Show(line),
            }
        },
        (InstallerPhase::ReadLine, InstallerEvent::Line(Err(e))) => InstallerPhase::Stop(e),
        (InstallerPhase::Show(_), InstallerEvent::Shown(Ok(_))) => InstallerPhase::ReadLine,
        (InstallerPhase::Show(_), InstallerEvent::Shown(Err(e))) => InstallerPhase::Stop(e),
        (InstallerPhase::Await(_), InstallerEvent::Exited(Err(e))) => InstallerPhase::Failed(e),
        (InstallerPhase::Await(executable), InstallerEvent::Exited(Ok((success, status)))) => {
            if success {
                InstallerPhase::Done(executable)
            } else {
                InstallerPhase::Failed(
                    IoError {
                        kind: IoErrorKind::Other,
                        message: concat2("server installer failed with ", &status),
                    },
                )
            }
        },
        (InstallerPhase::Stop(e), InstallerEvent::Stopped) => InstallerPhase::Failed(e),
        (phase, _) => phase,
    }
}

/// The shell never outlives the installation: between its start and the report of the executable
/// every failure stops it, and what is reported then is that failure. An executable is handed out
/// only once the shell has ended successfully.
pub proof fn law_installers_are_stopped(
    phase: InstallerPhase,
    event: InstallerEvent,
    after: InstallerPhase,
)
    requires
        installer_next(phase, event, after),
    ensures
        phase is Send || phase is ReadLine || phase is Show ==> !(after is Failed) && !(
        after is Done),
        phase matches InstallerPhase::Stop(e) && after is Failed ==> after == InstallerPhase::Failed(
            phase->Stop_0,
        ),
        after is Done && !(phase is Done) ==> phase is Await && (event matches
            InstallerEvent::Exited(Ok((true, _)))),
{
}

} // verus!
