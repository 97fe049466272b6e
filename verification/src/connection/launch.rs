//! Launching a server process, on this machine or behind `ssh`, up to a working control
//! connection.

use vstd::prelude::*;

use crate::connection::installer::{other_failure, LocalServerConfig, Pipes};
use crate::connection::lines::{
    ensure_command_text, ensure_server_command, ensure_server_executable, is_whole, read_server_startup,
    read_startup_line, reported, silent_installer, silent_server, startup_error, ConnectionInfo,
    InstallerLine, StartupDocument, SERVER_ERROR_PREFIX, SERVER_READY_PREFIX, SERVER_STARTUP_PREFIX,
};
use crate::io_error::{io_failure, IoError, IoErrorKind, IoErrorView};
use crate::shell::{quoted, shell_quote};
use crate::text::{concat2, concat3, decimal, decimal_text, push_text, texts};

verus! {

/// Configuration used to create a managed connection.
#[derive(Debug, PartialEq, Eq)]
pub enum ConnectionConfig {
    Local { force_install: bool },
    Remote { destination: String, force_install: bool },
}

/// The arguments that make a server's executable serve.
pub fn local_server_arguments() -> (r: Vec<String>)
    ensures
        texts(r@) == seq!["serve"@],
{
    let mut v: Vec<String> = Vec::new();
    push_text(&mut v, "serve");
    proof {
        assert(texts(v@) =~= seq!["serve"@]);
    }
    v
}

/// The arguments that make `ssh` forward connections through a proxy at `port` of this machine.
pub fn ssh_arguments(port: u16, remote_server: &str) -> (r: Vec<String>)
    ensures
        texts(r@) == seq!["-T"@, "-D"@, "127.0.0.1:"@ + decimal_text(port as nat), remote_server@],
{
    let number = decimal(port as u64);
    let address = concat2("127.0.0.1:", &number);
    let mut v: Vec<String> = Vec::new();
    push_text(&mut v, "-T");
    push_text(&mut v, "-D");
    push_text(&mut v, &address);
    push_text(&mut v, remote_server);
    proof {
        assert(texts(v@) =~= seq!["-T"@, "-D"@, address@, remote_server@]);
    }
    v
}

/// The arguments that connect `ssh` to a destination, which has to be named.
pub fn create_ssh_connection(port: u16, remote_server: &str) -> (r: Result<Vec<String>, IoError>)
    ensures
        match r {
            Ok(arguments) => {
                &&& remote_server@.len() > 0
                &&& texts(arguments@) == seq![
                    "-T"@,
                    "-D"@,
                    "127.0.0.1:"@ + decimal_text(port as nat),
                    remote_server@,
                ]
            },
            Err(e) => remote_server@.len() == 0 && e@ == no_destination(),
        },
{
    if remote_server.is_empty() {
        return Err(IoError::new(IoErrorKind::InvalidInput, "remote server is required"));
    }
    Ok(ssh_arguments(port, remote_server))
}

/// The command that replaces a shell on the other machine by the server.
pub open spec fn start_command_text(executable: Seq<char>) -> Seq<char> {
    "exec "@ + quoted(executable) + " serve\n"@
}

/// The command that replaces a shell on the other machine by the server.
pub fn start_server(server_executable: &str) -> (r: Result<String, IoError>)
    ensures
        match r {
            Ok(command) => server_executable@.len() > 0 && command@ == start_command_text(
                server_executable@,
            ),
            Err(e) => server_executable@.len() == 0 && e@ == no_executable(),
        },
{
    if server_executable.is_empty() {
        return Err(IoError::new(IoErrorKind::InvalidInput, "server executable is required"));
    }
    let quoted = shell_quote(server_executable);
    Ok(concat3("exec ", &quoted, " serve\n"))
}

/// The error of a missing executable.
pub open spec fn no_executable() -> IoErrorView {
    io_failure(IoErrorKind::InvalidInput, "server executable is required"@)
}

/// The error of a missing destination.
pub open spec fn no_destination() -> IoErrorView {
    io_failure(IoErrorKind::InvalidInput, "remote server is required"@)
}

/// How far a launch has come.
#[derive(Debug, PartialEq, Eq)]
pub enum LaunchPhase {
    /// Install the executable on this machine, as configured here.
    Install(LocalServerConfig),
    Spawn,
    /// Send this command, which installs the executable, to the other machine.
    SendInstaller(String),
    ReadInstaller,
    /// Show a line of the installer, then read the next.
    ShowInstaller(String),
    /// Send the command that starts the server.
    SendStart(String),
    ReadStartup,
    /// Decode the startup document.
    Decode(String),
    /// Connect to the server.
    Open(ConnectionInfo),
    /// Exchange the first messages.
    Greet(ConnectionInfo),
    /// Stop the process, then report the error.
    Stop(IoError),
    Connected(ConnectionInfo),
    Failed(IoError),
}

/// What came of the last step.
#[derive(Debug, PartialEq, Eq)]
pub enum LaunchEvent {
    Installed(Result<String, IoError>),
    Spawned(Result<Pipes, IoError>),
    Sent(Result<(), IoError>),
    Line(Result<String, IoError>),
    Shown(Result<(), IoError>),
    Decoded(Result<StartupDocument, String>),
    Opened(Result<(), IoError>),
    Greeted(Result<(), IoError>),
    Stopped,
}

/// A server being launched.
#[derive(Debug, PartialEq, Eq)]
pub struct Launch {
    pub config: ConnectionConfig,
    /// The executable on this machine, once it is installed.
    pub executable: Option<String>,
    pub phase: LaunchPhase,
}

/// Whether `phase` stops the process because of this failure.
pub open spec fn launch_stops(phase: LaunchPhase, e: IoErrorView) -> bool {
    phase matches LaunchPhase::Stop(error) && error@ == e
}

/// What is wrong with the pipes of a started process, if anything.
pub open spec fn pipes_error(config: ConnectionConfig, pipes: Pipes) -> Option<IoErrorView> {
    match config {
        ConnectionConfig::Local { .. } => if !pipes.stdin {
            Some(other_failure("server process did not provide its piped standard input"@))
        } else if !pipes.stdout {
            Some(other_failure("server process did not provide its piped standard output"@))
        } else {
            None
        },
        ConnectionConfig::Remote { .. } => if !pipes.stdin {
            Some(other_failure("SSH process did not provide its piped standard input"@))
        } else if !pipes.stdout {
            Some(other_failure("SSH process did not provide its piped standard output"@))
        } else {
            None
        },
    }
}

/// Where a launch goes by a line of the installer's output on the other machine.
pub open spec fn after_installer_line(line: String, after: LaunchPhase) -> bool {
    if !is_whole(line@) {
        launch_stops(after, silent_installer())
    } else {
        match reported(line@, SERVER_READY_PREFIX@) {
            Some(executable) => if executable.len() == 0 {
                launch_stops(after, no_executable())
            } else {
                after matches LaunchPhase::SendStart(command) && command@ == start_command_text(
                    executable,
                )
            },
            None => match reported(line@, SERVER_ERROR_PREFIX@) {
                Some(message) => launch_stops(after, other_failure(message)),
                None => after == LaunchPhase::ShowInstaller(line),
            },
        }
    }
}

/// Where a launch goes by a line of the server's output.
pub open spec fn after_startup_line(line: String, after: LaunchPhase) -> bool {
    if !is_whole(line@) {
        launch_stops(after, silent_server())
    } else {
        match reported(line@, SERVER_STARTUP_PREFIX@) {
            Some(json) => after matches LaunchPhase::Decode(found) && found@ == json,
            None => after is ReadStartup,
        }
    }
}

impl Launch {
    /// Whether the launch moves from `self` to `after` when `event` comes.
    pub open spec fn next(self, event: LaunchEvent, after: Self) -> bool {
        &&& after.config == self.config
        &&& match (self.phase, event) {
            (LaunchPhase::Install(_), LaunchEvent::Installed(Ok(executable))) => {
                &&& after.executable == Some(executable)
                &&& after.phase is Spawn
            },
            (LaunchPhase::Install(_), LaunchEvent::Installed(Err(e))) => {
                &&& after.executable == self.executable
                &&& after.phase == LaunchPhase::Failed(e)
            },
            (phase, event) => {
                &&& after.executable == self.executable
                &&& launch_next(self.config, phase, event, after.phase)
            },
        }
    }
}

/// Whether a launch moves from `phase` to `after` when `event` comes, once the executable on this
/// machine is settled.
pub open spec fn launch_next(
    config: ConnectionConfig,
    phase: LaunchPhase,
    event: LaunchEvent,
    after: LaunchPhase,
) -> bool {
    match (phase, event) {
        (LaunchPhase::Spawn, LaunchEvent::Spawned(Err(e))) => after == LaunchPhase::Failed(e),
        (LaunchPhase::Spawn, LaunchEvent::Spawned(Ok(pipes))) => match pipes_error(config, pipes) {
            Some(e) => launch_stops(after, e),
            None => match config {
                ConnectionConfig::Local { .. } => after is ReadStartup,
                ConnectionConfig::Remote { force_install, .. } => {
                    after matches LaunchPhase::SendInstaller(command) && command@
                        == ensure_command_text(force_install)
                },
            },
        },
        (LaunchPhase::SendInstaller(_), LaunchEvent::Sent(Ok(_))) => after is ReadInstaller,
        (LaunchPhase::SendInstaller(_), LaunchEvent::Sent(Err(e))) => after == LaunchPhase::Stop(e),
        (LaunchPhase::ReadInstaller, LaunchEvent::Line(Ok(line))) => after_installer_line(
            line,
            after,
        ),
        (LaunchPhase::ReadInstaller, LaunchEvent::Line(Err(e))) => after == LaunchPhase::Stop(e),
        (LaunchPhase::ShowInstaller(_), LaunchEvent::Shown(Ok(_))) => after is ReadInstaller,
        (LaunchPhase::ShowInstaller(_), LaunchEvent::Shown(Err(e))) => after == LaunchPhase::Stop(e),
        (LaunchPhase::SendStart(_), LaunchEvent::Sent(Ok(_))) => after is ReadStartup,
        (LaunchPhase::SendStart(_), LaunchEvent::Sent(Err(e))) => after == LaunchPhase::Stop(e),
        (LaunchPhase::ReadStartup, LaunchEvent::Line(Ok(line))) => after_startup_line(line, after),
        (LaunchPhase::ReadStartup, LaunchEvent::Line(Err(e))) => after == LaunchPhase::Stop(e),
        (LaunchPhase::Decode(_), LaunchEvent::Decoded(document)) => match startup_error(document) {
            Some(e) => launch_stops(after, e),
            None => after matches LaunchPhase::Open(info) && document matches Ok(d)
                && info.server_port == d.port && info.token == d.token,
        },
        (LaunchPhase::Open(info), LaunchEvent::Opened(Ok(_))) => after == LaunchPhase::Greet(info),
        (LaunchPhase::Open(_), LaunchEvent::Opened(Err(e))) => after == LaunchPhase::Stop(e),
        (LaunchPhase::Greet(info), LaunchEvent::Greeted(Ok(_))) => after == LaunchPhase::Connected(
            info,
        ),
        (LaunchPhase::Greet(_), LaunchEvent::Greeted(Err(e))) => after == LaunchPhase::Stop(e),
        (LaunchPhase::Stop(e), LaunchEvent::Stopped) => after == LaunchPhase::Failed(e),
        (phase, _) => after == phase,
    }
}

/// Judges the pipes of a started process.
fn check_pipes(config: &ConnectionConfig, pipes: Pipes) -> (r: Option<IoError>)
    ensures
        match r {
            None => pipes_error(*config, pipes) is None,
            Some(e) => pipes_error(*config, pipes) == Some(e@),
        },
{
    match config {
        ConnectionConfig::Local { .. } => {
            if !pipes.stdin {
                Some(IoError::other("server process did not provide its piped standard input"))
            } else if !pipes.stdout {
                Some(IoError::other("server process did not provide its piped standard output"))
            } else {
                None
            }
        },
        ConnectionConfig::Remote { .. } => {
            if !pipes.stdin {
                Some(IoError::other("SSH process did not provide its piped standard input"))
            } else if !pipes.stdout {
                Some(IoError::other("SSH process did not provide its piped standard output"))
            } else {
                None
            }
        },
    }
}

fn read_installer(line: String) -> (r: LaunchPhase)
    ensures
        after_installer_line(line, r),
{
    match ensure_server_executable(&line) {
        Err(e) => LaunchPhase::Stop(e),
        Ok(InstallerLine::Show) => LaunchPhase::ShowInstaller(line),
        Ok(InstallerLine::Ready(executable)) => match start_server(&executable) {
            Ok(command) => LaunchPhase::SendStart(command),
            Err(e) => LaunchPhase::Stop(e),
        },
    }
}

fn read_startup(line: String) -> (r: LaunchPhase)
    ensures
        after_startup_line(line, r),
{
    match read_startup_line(&line) {
        Err(e) => LaunchPhase::Stop(e),
        Ok(Some(json)) => LaunchPhase::Decode(json),
        Ok(None) => LaunchPhase::ReadStartup,
    }
}

fn advance_phase(config: &ConnectionConfig, phase: LaunchPhase, event: LaunchEvent) -> (r: LaunchPhase)
    ensures
        launch_next(*config, phase, event, r),
{
    match (phase, event) {
        (LaunchPhase::Spawn, LaunchEvent::Spawned(Err(e))) => LaunchPhase::Failed(e),
        (LaunchPhase::Spawn, LaunchEvent::Spawned(Ok(pipes))) => match check_pipes(config, pipes) {
            Some(e) => LaunchPhase::Stop(e),
            None => match config {
                ConnectionConfig::Local { .. } => LaunchPhase::ReadStartup,
                ConnectionConfig::Remote { force_install, .. } => LaunchPhase::SendInstaller(
                    ensure_server_command(*force_install),
                ),
            },
        },
        (LaunchPhase::SendInstaller(_), LaunchEvent::Sent(Ok(_))) => LaunchPhase::ReadInstaller,
        (LaunchPhase::SendInstaller(_), LaunchEvent::Sent(Err(e))) => LaunchPhase::Stop(e),
        (LaunchPhase::ReadInstaller, LaunchEvent::Line(Ok(line))) => read_installer(line),
        (LaunchPhase::ReadInstaller, LaunchEvent::Line(Err(e))) => LaunchPhase::Stop(e),
        (LaunchPhase::ShowInstaller(_), LaunchEvent::Shown(Ok(_))) => LaunchPhase::ReadInstaller,
        (LaunchPhase::ShowInstaller(_), LaunchEvent::Shown(Err(e))) => LaunchPhase::Stop(e),
        (LaunchPhase::SendStart(_), LaunchEvent::Sent(Ok(_))) => LaunchPhase::ReadStartup,
        (LaunchPhase::SendStart(_), LaunchEvent::Sent(Err(e))) => LaunchPhase::Stop(e),
        (LaunchPhase::ReadStartup, LaunchEvent::Line(Ok(line))) => read_startup(line),
        (LaunchPhase::ReadStartup, LaunchEvent::Line(Err(e))) => LaunchPhase::Stop(e),
        (LaunchPhase::Decode(_), LaunchEvent::Decoded(document)) => {
            match read_server_startup(document) {
                Ok(info) => LaunchPhase::Open(info),
                Err(e) => LaunchPhase::Stop(e),
            }
        },
        (LaunchPhase::Open(info), LaunchEvent::Opened(Ok(_))) => LaunchPhase::Greet(info),
        (LaunchPhase::Open(_), LaunchEvent::Opened(Err(e))) => LaunchPhase::Stop(e),
        (LaunchPhase::Greet(info), LaunchEvent::Greeted(Ok(_))) => LaunchPhase::Connected(info),
        (LaunchPhase::Greet(_), LaunchEvent::Greeted(Err(e))) => LaunchPhase::Stop(e),
        (LaunchPhase::Stop(e), LaunchEvent::Stopped) => LaunchPhase::Failed(e),
        (phase, _) => phase,
    }
}

impl Launch {
    /// Starts a launch.
    pub fn from(config: ConnectionConfig) -> (r: Result<Self, IoError>)
        ensures
            match config {
                ConnectionConfig::Local { force_install } => {
                    &&& r matches Ok(launch) && launch.config == config && launch.executable is None
                    &&& r->Ok_0.phase matches LaunchPhase::Install(installer)
                        && installer.force_install == force_install
                        && installer.local_source_path is None
                },
                ConnectionConfig::Remote { destination, .. } => if destination@.len() == 0 {
                    r matches Err(e) && e@ == no_destination()
                } else {
                    r matches Ok(launch) && launch.config == config && launch.executable is None
                        && launch.phase is Spawn
                },
            },
    {
        match config {
            ConnectionConfig::Local { force_install } => Ok(
                Launch {
                    config: ConnectionConfig::Local { force_install },
                    executable: None,
                    phase: LaunchPhase::Install(
                        LocalServerConfig { force_install, local_source_path: None },
                    ),
                },
            ),
            ConnectionConfig::Remote { destination, force_install } => {
                if destination.as_str().is_empty() {
                    return Err(
                        IoError::new(IoErrorKind::InvalidInput, "remote server is required"),
                    );
                }
                Ok(
                    Launch {
                        config: ConnectionConfig::Remote { destination, force_install },
                        executable: None,
                        phase: LaunchPhase::Spawn,
                    },
                )
            },
        }
    }

    /// Takes in what came of the last step.
    pub fn advance(self, event: LaunchEvent) -> (r: Self)
        ensures
            self.next(event, r),
    {
        let Launch { config, executable, phase } = self;
        match (phase, event) {
            (LaunchPhase::Install(_), LaunchEvent::Installed(Ok(installed))) => Launch {
                config,
                executable: Some(installed),
                phase: LaunchPhase::Spawn,
            },
            (LaunchPhase::Install(_), LaunchEvent::Installed(Err(e))) => Launch {
                config,
                executable,
                phase: LaunchPhase::Failed(e),
            },
            (phase, event) => {
                let after = advance_phase(&config, phase, event);
                Launch { config, executable, phase: after }
            },
        }
    }
}

/// A process to start.
#[derive(Debug, PartialEq, Eq)]
pub struct ServerProcess {
    pub program: String,
    pub arguments: Vec<String>,
}

impl Launch {
    /// The process that the server runs in or is reached through: the executable on this machine, once
    /// it is installed, or `ssh` with a proxy at `socks_port` of this machine.
    pub fn server_process(&self, socks_port: u16) -> (r: Option<ServerProcess>)
        ensures
            match self.config {
                ConnectionConfig::Local { .. } => match self.executable {
                    Some(executable) => r matches Some(process) && process.program@ == executable@
                        && texts(process.arguments@) == seq!["serve"@],
                    None => r is None,
                },
                ConnectionConfig::Remote { destination, .. } => {
                    r matches Some(process) && process.program@ == "ssh"@ && texts(
                        process.arguments@,
                    ) == seq![
                        "-T"@,
                        "-D"@,
                        "127.0.0.1:"@ + decimal_text(socks_port as nat),
                        destination@,
                    ]
                },
            },
    {
        match &self.config {
            ConnectionConfig::Local { .. } => match &self.executable {
                Some(executable) => Some(
                    ServerProcess {
                        program: executable.clone(),
                        arguments: local_server_arguments(),
                    },
                ),
                None => None,
            },
            ConnectionConfig::Remote { destination, .. } => Some(
                ServerProcess {
                    program: "ssh".to_owned(),
                    arguments: ssh_arguments(socks_port, destination),
                },
            ),
        }
    }
}

/// A launch leaves no process behind: once one was started, every failure stops it before it is
/// reported, and the report is the failure itself. A launch ends connected only after the server
/// answered the first messages.
pub proof fn law_failed_launches_stop_the_process(before: Launch, event: LaunchEvent, after: Launch)
    requires
        before.next(event, after),
    ensures
        after.phase is Failed && !(before.phase is Failed) ==> before.phase is Install
            || before.phase is Stop || (before.phase is Spawn && event matches LaunchEvent::Spawned(
            Err(_),
        )),
        before.phase is Stop && after.phase is Failed ==> after.phase == LaunchPhase::Failed(
            before.phase->Stop_0,
        ),
        after.phase is Connected && !(before.phase is Connected) ==> before.phase
            == LaunchPhase::Greet(after.phase->Connected_0),
{
}

} // verus!
