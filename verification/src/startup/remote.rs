//! Starting a server on another machine through an SSH control master.

use vstd::prelude::*;

use crate::api::{ErrorClass, ErrorView, FilePeekerError};
use crate::install::RemoteInstallPolicy;
use crate::io_error::IoError;
use crate::shell::{quoted, shell_quote};
use crate::startup::diagnostics::{add_named_stderr_context, with_stderr};
use crate::startup::runtime::{
    socket_path_error, start_failure, validate_socket_path, SessionDirectory,
};
use crate::startup::ssh::{
    control_arguments, forward_arguments, home_query_arguments, is_destination, launcher_arguments,
    master_arguments, multiplex_arguments, multiplex_words, validate_destination, HOME_QUERY,
};
use crate::startup::PACKAGE_VERSION;
use crate::text::{concat2, concat3, concat5, texts};
use crate::unix_path::{is_plain_name, join, joined, law_parent_undoes_join, parent, parent_path};

verus! {

/// The shell program that runs a server on the other machine. Its arguments are the session's
/// directory, the directory above it and the version of the server.
pub const REMOTE_LAUNCH_SCRIPT: &'static str = "set -eu
runtime=$1
run_root=$2
server_version=$3
umask 077
mkdir -p \"$run_root\"
mkdir -m 700 \"$runtime\"
server=\"$HOME/.file-peeker/servers/$server_version/bin/file-peeker-server\"
\"$server\" serve --socket \"$runtime/server.sock\" --remove-parent-on-exit &
server_pid=$!
(cat >/dev/null; kill \"$server_pid\" 2>/dev/null || :) &
monitor_pid=$!
cleanup() {
    kill \"$server_pid\" \"$monitor_pid\" 2>/dev/null || :
    rm -rf \"$runtime\"
}
trap cleanup EXIT HUP INT TERM
set +e
wait \"$server_pid\"
status=$?
kill \"$monitor_pid\" 2>/dev/null || :
wait \"$monitor_pid\" 2>/dev/null
exit \"$status\"
";

/// The command line that runs the launch program for a session directory.
pub open spec fn remote_script(directory: Seq<char>, above: Seq<char>) -> Seq<char> {
    "sh -c "@ + quoted(REMOTE_LAUNCH_SCRIPT@) + " -- "@ + quoted(directory) + " "@ + (quoted(above)
        + " "@ + quoted(PACKAGE_VERSION@))
}

/// The command line that runs the launch program for a session directory, which has one above it.
pub fn build_remote_script(remote_directory: &str) -> (r: String)
    requires
        parent_path(remote_directory@) is Some,
    ensures
        r@ == remote_script(remote_directory@, parent_path(remote_directory@)->Some_0),
{
    let above = match parent(remote_directory) {
        Some(above) => above,
        None => String::new(),
    };
    let script = shell_quote(REMOTE_LAUNCH_SCRIPT);
    let directory = shell_quote(remote_directory);
    let above = shell_quote(&above);
    let version = shell_quote(PACKAGE_VERSION);
    let head = concat5("sh -c ", &script, " -- ", &directory, " ");
    let tail = concat3(&above, " ", &version);
    concat2(&head, &tail)
}

/// Where a session's files stand below the home directory of the other machine.
pub open spec fn remote_directory_of(home: Seq<char>, id: Seq<char>) -> Seq<char> {
    joined(joined(joined(home, ".file-peeker"@), "run"@), id)
}

/// How far the start has come.
#[derive(Debug, PartialEq, Eq)]
pub enum RemotePhase {
    CreateDirectory,
    SpawnMaster,
    WaitForMaster,
    Install,
    QueryHome,
    SpawnLauncher,
    Forward,
    Connect,
    Greet,
    Delay,
    /// Stop the master, then report the error.
    StopMaster(FilePeekerError),
    /// Stop the launcher and the master, then report the error.
    StopBoth(FilePeekerError),
    Ready,
    Failed(FilePeekerError),
}

/// What came of the last step. The processes report whether their error output can be read.
#[derive(Debug, PartialEq, Eq)]
pub enum RemoteEvent {
    DirectoryCreated(Result<SessionDirectory, FilePeekerError>),
    MasterSpawned(Result<bool, IoError>),
    MasterWaited(Result<(), FilePeekerError>),
    Installed(Result<(), String>),
    HomeQueried(Result<String, FilePeekerError>),
    LauncherSpawned(Result<bool, IoError>),
    Forwarded(Result<(), FilePeekerError>),
    Connected(Result<(), FilePeekerError>),
    Greeted { result: Result<(), FilePeekerError>, deadline_passed: bool },
    Waited,
    MasterStopped { master_stderr: Option<Vec<u8>> },
    BothStopped { launcher_stderr: Option<Vec<u8>>, master_stderr: Option<Vec<u8>> },
}

/// A server on another machine on its way to running.
#[derive(Debug, PartialEq, Eq)]
pub struct RemoteStart {
    pub destination: String,
    pub endpoint: Option<SessionDirectory>,
    pub remote_home: Option<String>,
    pub phase: RemotePhase,
}

/// The bytes behind `v`, if there are any.
pub open spec fn stderr_view(v: Option<Vec<u8>>) -> Option<Seq<u8>> {
    match v {
        Some(bytes) => Some(bytes@),
        None => None,
    }
}

/// Whether `phase` is this failure.
pub open spec fn remote_failed(phase: RemotePhase, e: ErrorView) -> bool {
    phase matches RemotePhase::Failed(error) && error@ == e
}

/// Whether `phase` stops the master because of this failure.
pub open spec fn stops_master(phase: RemotePhase, e: ErrorView) -> bool {
    phase matches RemotePhase::StopMaster(error) && error@ == e
}

/// Whether `phase` stops both processes because of this failure.
pub open spec fn stops_both(phase: RemotePhase, e: ErrorView) -> bool {
    phase matches RemotePhase::StopBoth(error) && error@ == e
}

/// What is wrong with the sockets of a session on this machine, if anything.
pub open spec fn endpoint_error(endpoint: SessionDirectory) -> Option<ErrorView> {
    match socket_path_error(joined(endpoint.spec_path(), "server.sock"@)) {
        Some(e) => Some(e),
        None => socket_path_error(joined(endpoint.spec_path(), "cm.sock"@)),
    }
}

impl RemoteStart {
    /// The destination is one that `ssh` takes, and what a step needs is there by then.
    pub open spec fn wf(self) -> bool {
        &&& is_destination(self.destination@)
        &&& self.endpoint matches Some(endpoint) ==> is_plain_name(endpoint.spec_id())
        &&& match self.phase {
            RemotePhase::CreateDirectory | RemotePhase::Failed(_) => true,
            RemotePhase::SpawnLauncher | RemotePhase::Forward | RemotePhase::Connect
            | RemotePhase::Greet | RemotePhase::Delay | RemotePhase::StopBoth(_)
            | RemotePhase::Ready => self.endpoint is Some && self.remote_home is Some,
            _ => self.endpoint is Some,
        }
    }

    /// The session's directory on the other machine.
    pub open spec fn spec_remote_directory(self) -> Seq<char> {
        remote_directory_of(self.remote_home->Some_0@, self.endpoint->Some_0.spec_id())
    }

    /// Everything but the phase stays as it is.
    pub open spec fn same_plan(self, after: Self) -> bool {
        after.destination == self.destination && after.endpoint == self.endpoint
            && after.remote_home == self.remote_home
    }

    /// Whether the start moves from `self` to `after` when `event` comes.
    pub open spec fn next(self, event: RemoteEvent, after: Self) -> bool {
        match (self.phase, event) {
            (RemotePhase::CreateDirectory, RemoteEvent::DirectoryCreated(Err(e))) => {
                &&& self.same_plan(after)
                &&& remote_failed(after.phase, e@)
            },
            (RemotePhase::CreateDirectory, RemoteEvent::DirectoryCreated(Ok(endpoint))) => {
                &&& after.destination == self.destination
                &&& after.endpoint == Some(endpoint)
                &&& after.remote_home == self.remote_home
                &&& match endpoint_error(endpoint) {
                    Some(e) => remote_failed(after.phase, e),
                    None => after.phase is SpawnMaster,
                }
            },
            (RemotePhase::SpawnMaster, RemoteEvent::MasterSpawned(Err(e))) => {
                &&& self.same_plan(after)
                &&& remote_failed(
                    after.phase,
                    start_failure("cannot launch SSH control master: "@ + e@.message),
                )
            },
            (RemotePhase::SpawnMaster, RemoteEvent::MasterSpawned(Ok(has_stderr))) => {
                &&& self.same_plan(after)
                &&& if has_stderr {
                    after.phase is WaitForMaster
                } else {
                    remote_failed(
                        after.phase,
                        start_failure("SSH control master stderr was not available"@),
                    )
                }
            },
            (RemotePhase::WaitForMaster, RemoteEvent::MasterWaited(result)) => {
                &&& self.same_plan(after)
                &&& match result {
                    Ok(_) => after.phase is Install,
                    Err(e) => stops_master(after.phase, e@),
                }
            },
            (RemotePhase::Install, RemoteEvent::Installed(result)) => {
                &&& self.same_plan(after)
                &&& match result {
                    Ok(_) => after.phase is QueryHome,
                    Err(words) => stops_master(after.phase, start_failure(words@)),
                }
            },
            (RemotePhase::QueryHome, RemoteEvent::HomeQueried(Err(e))) => {
                &&& self.same_plan(after)
                &&& stops_master(after.phase, e@)
            },
            (RemotePhase::QueryHome, RemoteEvent::HomeQueried(Ok(home))) => {
                &&& after.destination == self.destination
                &&& after.endpoint == self.endpoint
                &&& after.remote_home == Some(home)
                &&& match socket_path_error(
                    joined(after.spec_remote_directory(), "server.sock"@),
                ) {
                    Some(e) => remote_failed(after.phase, e),
                    None => after.phase is SpawnLauncher,
                }
            },
            (RemotePhase::SpawnLauncher, RemoteEvent::LauncherSpawned(Err(e))) => {
                &&& self.same_plan(after)
                &&& stops_master(
                    after.phase,
                    start_failure("cannot launch SSH remote server: "@ + e@.message),
                )
            },
            (RemotePhase::SpawnLauncher, RemoteEvent::LauncherSpawned(Ok(has_stderr))) => {
                &&& self.same_plan(after)
                &&& if has_stderr {
                    after.phase is Forward
                } else {
                    remote_failed(
                        after.phase,
                        start_failure("SSH remote server stderr was not available"@),
                    )
                }
            },
            (RemotePhase::Forward, RemoteEvent::Forwarded(result)) => {
                &&& self.same_plan(after)
                &&& match result {
                    Ok(_) => after.phase is Connect,
                    Err(e) => stops_both(after.phase, e@),
                }
            },
            (RemotePhase::Connect, RemoteEvent::Connected(result)) => {
                &&& self.same_plan(after)
                &&& match result {
                    Ok(_) => after.phase is Greet,
                    Err(e) => stops_both(after.phase, e@),
                }
            },
            (RemotePhase::Greet, RemoteEvent::Greeted { result, deadline_passed }) => {
                &&& self.same_plan(after)
                &&& match result {
                    Ok(_) => after.phase is Ready,
                    Err(e) => if e@.class == ErrorClass::ConnectionClosed && !deadline_passed {
                        after.phase is Delay
                    } else {
                        stops_both(after.phase, e@)
                    },
                }
            },
            (RemotePhase::Delay, RemoteEvent::Waited) => {
                &&& self.same_plan(after)
                &&& after.phase is Connect
            },
            (RemotePhase::StopMaster(e), RemoteEvent::MasterStopped { master_stderr }) => {
                &&& self.same_plan(after)
                &&& remote_failed(
                    after.phase,
                    with_stderr(e@, "SSH control master"@, stderr_view(master_stderr)),
                )
            },
            (
                RemotePhase::StopBoth(e),
                RemoteEvent::BothStopped { launcher_stderr, master_stderr },
            ) => {
                &&& self.same_plan(after)
                &&& remote_failed(
                    after.phase,
                    with_stderr(
                        with_stderr(e@, "SSH remote server"@, stderr_view(launcher_stderr)),
                        "SSH control master"@,
                        stderr_view(master_stderr),
                    ),
                )
            },
            (phase, _) => self.same_plan(after) && after.phase == phase,
        }
    }
}

/// Adds what a process printed to `error`.
fn explained(error: FilePeekerError, source: &str, stderr: &Option<Vec<u8>>) -> (r: FilePeekerError)
    ensures
        r@ == with_stderr(error@, source@, stderr_view(*stderr)),
{
    match stderr {
        Some(bytes) => add_named_stderr_context(error, source, Some(bytes.as_slice())),
        None => add_named_stderr_context(error, source, None),
    }
}

fn start_error(message: String) -> (r: FilePeekerError)
    ensures
        r@ == start_failure(message@),
{
    FilePeekerError::ServerStart { message }
}

/// The session's directory on the other machine.
fn remote_directory(home: &str, id: &str) -> (r: String)
    ensures
        r@ == remote_directory_of(home@, id@),
{
    let root = join(home, ".file-peeker");
    let run = join(&root, "run");
    join(&run, id)
}

impl RemoteStart {
    /// The start of a server at `destination`.
    pub fn start(destination: String) -> (r: Result<Self, FilePeekerError>)
        ensures
            r is Ok <==> is_destination(destination@),
            r matches Ok(s) ==> s.wf() && s.destination == destination && s.phase is CreateDirectory
                && s.endpoint is None && s.remote_home is None,
            r matches Err(e) ==> e@ == start_failure(
                "SSH destination is required and must not begin with `-`"@,
            ),
    {
        match validate_destination(&destination) {
            Ok(_) => Ok(
                RemoteStart {
                    destination,
                    endpoint: None,
                    remote_home: None,
                    phase: RemotePhase::CreateDirectory,
                },
            ),
            Err(e) => Err(e),
        }
    }

    /// Takes in what came of the last step.
    pub fn advance(self, event: RemoteEvent) -> (r: Self)
        requires
            self.wf(),
        ensures
            self.next(event, r),
            r.wf(),
    {
        let RemoteStart { destination, endpoint, remote_home, phase } = self;
        let mut endpoint = endpoint;
        let mut remote_home = remote_home;
        let after = match (phase, event) {
            (RemotePhase::CreateDirectory, RemoteEvent::DirectoryCreated(Err(e))) => {
                RemotePhase::Failed(e)
            },
            (RemotePhase::CreateDirectory, RemoteEvent::DirectoryCreated(Ok(created))) => {
                proof {
                    use_type_invariant(&created);
                }
                let socket = created.socket_path();
                let control = created.control_socket_path();
                endpoint = Some(created);
                match validate_socket_path(&socket) {
                    Err(e) => RemotePhase::Failed(e),
                    Ok(_) => match validate_socket_path(&control) {
                        Err(e) => RemotePhase::Failed(e),
                        Ok(_) => RemotePhase::SpawnMaster,
                    },
                }
            },
            (RemotePhase::SpawnMaster, RemoteEvent::MasterSpawned(Err(e))) => RemotePhase::Failed(
                start_error(concat2("cannot launch SSH control master: ", &e.message)),
            ),
            (RemotePhase::SpawnMaster, RemoteEvent::MasterSpawned(Ok(has_stderr))) => {
                if has_stderr {
                    RemotePhase::WaitForMaster
                } else {
                    RemotePhase::Failed(
                        start_error("SSH control master stderr was not available".to_owned()),
                    )
                }
            },
            (RemotePhase::WaitForMaster, RemoteEvent::MasterWaited(result)) => match result {
                Ok(_) => RemotePhase::Install,
                Err(e) => RemotePhase::StopMaster(e),
            },
            (RemotePhase::Install, RemoteEvent::Installed(result)) => match result {
                Ok(_) => RemotePhase::QueryHome,
                Err(words) => RemotePhase::StopMaster(start_error(words)),
            },
            (RemotePhase::QueryHome, RemoteEvent::HomeQueried(Err(e))) => {
                RemotePhase::StopMaster(e)
            },
            (RemotePhase::QueryHome, RemoteEvent::HomeQueried(Ok(home))) => {
                let directory = match &endpoint {
                    Some(endpoint) => remote_directory(&home, endpoint.id()),
                    None => String::new(),
                };
                let socket = join(&directory, "server.sock");
                remote_home = Some(home);
                match validate_socket_path(&socket) {
                    Err(e) => RemotePhase::Failed(e),
                    Ok(_) => RemotePhase::SpawnLauncher,
                }
            },
            (RemotePhase::SpawnLauncher, RemoteEvent::LauncherSpawned(Err(e))) => {
                RemotePhase::StopMaster(
                    start_error(concat2("cannot launch SSH remote server: ", &e.message)),
                )
            },
            (RemotePhase::SpawnLauncher, RemoteEvent::LauncherSpawned(Ok(has_stderr))) => {
                if has_stderr {
                    RemotePhase::Forward
                } else {
                    RemotePhase::Failed(
                        start_error("SSH remote server stderr was not available".to_owned()),
                    )
                }
            },
            (RemotePhase::Forward, RemoteEvent::Forwarded(result)) => match result {
                Ok(_) => RemotePhase::Connect,
                Err(e) => RemotePhase::StopBoth(e),
            },
            (RemotePhase::Connect, RemoteEvent::Connected(result)) => match result {
                Ok(_) => RemotePhase::Greet,
                Err(e) => RemotePhase::StopBoth(e),
            },
            (RemotePhase::Greet, RemoteEvent::Greeted { result, deadline_passed }) => match result {
                Ok(_) => RemotePhase::Ready,
                Err(FilePeekerError::ConnectionClosed { message }) => {
                    if deadline_passed {
                        RemotePhase::StopBoth(FilePeekerError::ConnectionClosed { message })
                    } else {
                        RemotePhase::Delay
                    }
                },
                Err(e) => RemotePhase::StopBoth(e),
            },
            (RemotePhase::Delay, RemoteEvent::Waited) => RemotePhase::Connect,
            (RemotePhase::StopMaster(e), RemoteEvent::MasterStopped { master_stderr }) => {
                RemotePhase::Failed(explained(e, "SSH control master", &master_stderr))
            },
            (
                RemotePhase::StopBoth(e),
                RemoteEvent::BothStopped { launcher_stderr, master_stderr },
            ) => {
                let e = explained(e, "SSH remote server", &launcher_stderr);
                RemotePhase::Failed(explained(e, "SSH control master", &master_stderr))
            },
            (phase, _) => phase,
        };
        RemoteStart { destination, endpoint, remote_home, phase: after }
    }
}

/// What has to be done next for a start.
#[derive(Debug, PartialEq, Eq)]
pub enum RemoteAction {
    CreateDirectory,
    SpawnMaster { arguments: Vec<String> },
    WaitForMaster { control_socket: String, check_arguments: Vec<String> },
    Install { policy: RemoteInstallPolicy, ssh_arguments: Vec<String>, log_path: String },
    QueryHome { arguments: Vec<String> },
    SpawnLauncher { arguments: Vec<String> },
    Forward { arguments: Vec<String> },
    Connect { socket_path: String },
    Greet,
    Delay,
    StopMaster,
    StopBoth { exit_arguments: Vec<String> },
    Nothing,
}

/// What a forwarding joins: the socket on this machine and the one on the other.
pub open spec fn forward_text(local: Seq<char>, remote: Seq<char>) -> Seq<char> {
    local + ":"@ + remote
}

impl RemoteStart {
    /// The socket that is forwarded to the server.
    pub open spec fn spec_socket(self) -> Seq<char> {
        joined(self.endpoint->Some_0.spec_path(), "server.sock"@)
    }

    /// The socket of the control master.
    pub open spec fn spec_control_socket(self) -> Seq<char> {
        joined(self.endpoint->Some_0.spec_path(), "cm.sock"@)
    }

    /// The forwarding between the two sockets of the session.
    pub open spec fn spec_forward(self) -> Seq<char> {
        forward_text(self.spec_socket(), joined(self.spec_remote_directory(), "server.sock"@))
    }

    /// Whether `action` is what has to be done next.
    pub open spec fn asks(self, action: RemoteAction) -> bool {
        match self.phase {
            RemotePhase::CreateDirectory => action is CreateDirectory,
            RemotePhase::SpawnMaster => action matches RemoteAction::SpawnMaster { arguments }
                && texts(arguments@) == seq![
                "-M"@,
                "-S"@,
                self.spec_control_socket(),
                "-o"@,
                "ControlPersist=no"@,
                "-N"@,
                "-T"@,
                self.destination@,
            ],
            RemotePhase::WaitForMaster => action matches RemoteAction::WaitForMaster {
                control_socket,
                check_arguments,
            } && control_socket@ == self.spec_control_socket() && texts(check_arguments@) == seq![
                "-S"@,
                self.spec_control_socket(),
                "-O"@,
                "check"@,
                self.destination@,
            ],
            RemotePhase::Install => action matches RemoteAction::Install { policy, ssh_arguments, log_path }
                && policy == RemoteInstallPolicy::ReuseExisting && texts(ssh_arguments@) == multiplex_words(self.spec_control_socket()) && log_path@
                == self.endpoint->Some_0.spec_log_path(),
            RemotePhase::QueryHome => action matches RemoteAction::QueryHome { arguments } && texts(
                arguments@,
            ) == multiplex_words(self.spec_control_socket()).push(self.destination@).push(
                HOME_QUERY@,
            ),
            RemotePhase::SpawnLauncher => action matches RemoteAction::SpawnLauncher { arguments }
                && texts(arguments@) == multiplex_words(self.spec_control_socket()).push("-T"@).push(
                self.destination@,
            ).push(
                remote_script(
                    self.spec_remote_directory(),
                    parent_path(self.spec_remote_directory())->Some_0,
                ),
            ),
            RemotePhase::Forward => action matches RemoteAction::Forward { arguments } && texts(
                arguments@,
            ) == seq![
                "-S"@,
                self.spec_control_socket(),
                "-O"@,
                "forward"@,
                "-o"@,
                "ExitOnForwardFailure=yes"@,
                "-o"@,
                "StreamLocalBindUnlink=yes"@,
                "-L"@,
                self.spec_forward(),
                self.destination@,
            ],
            RemotePhase::Connect => action matches RemoteAction::Connect { socket_path }
                && socket_path@ == self.spec_socket(),
            RemotePhase::Greet => action is Greet,
            RemotePhase::Delay => action is Delay,
            RemotePhase::StopMaster(_) => action is StopMaster,
            RemotePhase::StopBoth(_) => action matches RemoteAction::StopBoth { exit_arguments }
                && texts(exit_arguments@) == seq![
                "-S"@,
                self.spec_control_socket(),
                "-O"@,
                "exit"@,
                self.destination@,
            ],
            RemotePhase::Ready | RemotePhase::Failed(_) => action is Nothing,
        }
    }

    /// The forwarding between the two sockets of the session.
    pub fn forward(&self) -> (r: Option<String>)
        ensures
            match r {
                Some(text) => self.endpoint is Some && self.remote_home is Some && text@
                    == self.spec_forward(),
                None => self.endpoint is None || self.remote_home is None,
            },
    {
        match (&self.endpoint, &self.remote_home) {
            (Some(endpoint), Some(home)) => {
                let local = endpoint.socket_path();
                let directory = remote_directory(home, endpoint.id());
                let remote = join(&directory, "server.sock");
                Some(concat3(&local, ":", &remote))
            },
            _ => None,
        }
    }

    /// What has to be done next.
    pub fn action(&self) -> (r: RemoteAction)
        requires
            self.wf(),
        ensures
            self.asks(r),
    {
        let endpoint = match &self.endpoint {
            Some(endpoint) => endpoint,
            None => {
                return match self.phase {
                    RemotePhase::CreateDirectory => RemoteAction::CreateDirectory,
                    _ => RemoteAction::Nothing,
                };
            },
        };
        let control = endpoint.control_socket_path();
        match &self.phase {
            RemotePhase::CreateDirectory => RemoteAction::CreateDirectory,
            RemotePhase::SpawnMaster => RemoteAction::SpawnMaster {
                arguments: master_arguments(&control, &self.destination),
            },
            RemotePhase::WaitForMaster => {
                let check_arguments = control_arguments(&control, "check", &self.destination);
                RemoteAction::WaitForMaster { control_socket: control, check_arguments }
            },
            RemotePhase::Install => RemoteAction::Install {
                policy: RemoteInstallPolicy::ReuseExisting,
                ssh_arguments: multiplex_arguments(&control),
                log_path: endpoint.log_path().to_owned(),
            },
            RemotePhase::QueryHome => RemoteAction::QueryHome {
                arguments: home_query_arguments(&control, &self.destination),
            },
            RemotePhase::SpawnLauncher => match &self.remote_home {
                Some(home) => {
                    let directory = remote_directory(home, endpoint.id());
                    proof {
                        law_parent_undoes_join(
                            joined(joined(home@, ".file-peeker"@), "run"@),
                            endpoint.spec_id(),
                        );
                    }
                    let script = build_remote_script(&directory);
                    RemoteAction::SpawnLauncher {
                        arguments: launcher_arguments(&control, &self.destination, &script),
                    }
                },
                None => RemoteAction::Nothing,
            },
            RemotePhase::Forward => match self.forward() {
                Some(forward) => RemoteAction::Forward {
                    arguments: forward_arguments("forward", &control, &forward, &self.destination),
                },
                None => RemoteAction::Nothing,
            },
            RemotePhase::Connect => RemoteAction::Connect { socket_path: endpoint.socket_path() },
            RemotePhase::Greet => RemoteAction::Greet,
            RemotePhase::Delay => RemoteAction::Delay,
            RemotePhase::StopMaster(_) => RemoteAction::StopMaster,
            RemotePhase::StopBoth(_) => RemoteAction::StopBoth {
                exit_arguments: control_arguments(&control, "exit", &self.destination),
            },
            RemotePhase::Ready | RemotePhase::Failed(_) => RemoteAction::Nothing,
        }
    }
}

/// A start that has failed or is ready stays so, and is ready only by a greeting that succeeded.
pub proof fn law_start_ends_once(before: RemoteStart, event: RemoteEvent, after: RemoteStart)
    requires
        before.next(event, after),
    ensures
        before.phase is Failed || before.phase is Ready ==> after == before,
        (after.phase is Ready && !(before.phase is Ready)) ==> before.phase is Greet && event matches
            RemoteEvent::Greeted { result: Ok(_), .. },
{
}

/// While the start waits for the master, installs, asks for the home directory, forwards, connects
/// or greets, no failure to do so ends it directly: the processes are stopped first.
pub proof fn law_failures_stop_processes(before: RemoteStart, event: RemoteEvent, after: RemoteStart)
    requires
        before.next(event, after),
        before.phase is WaitForMaster || before.phase is Install || before.phase is Forward
            || before.phase is Connect || before.phase is Greet || before.phase is Delay || (
        before.phase is QueryHome && event matches RemoteEvent::HomeQueried(Err(_))) || (
        before.phase is SpawnLauncher && event matches RemoteEvent::LauncherSpawned(Err(_))),
    ensures
        !(after.phase is Failed),
        before.phase is Forward || before.phase is Connect || before.phase is Greet
            || before.phase is Delay ==> !(after.phase is StopMaster),
{
}

/// Stopping the processes changes nothing about why the start failed: the error keeps its class,
/// and its text is only added to.
pub proof fn law_stopping_keeps_the_error(
    before: RemoteStart,
    event: RemoteEvent,
    after: RemoteStart,
    e: FilePeekerError,
)
    requires
        before.next(event, after),
        before.phase == RemotePhase::StopMaster(e) || before.phase == RemotePhase::StopBoth(e),
        after.phase is Failed,
    ensures
        after.phase matches RemotePhase::Failed(reported) && {
            &&& reported@.class == e@.class
            &&& e@.message.len() <= reported@.message.len()
            &&& reported@.message.take(e@.message.len() as int) == e@.message
        },
{
    let reported = after.phase->Failed_0@;
    if before.phase is StopMaster {
        assert(reported.message.take(e@.message.len() as int) =~= e@.message);
    } else if let RemoteEvent::BothStopped { launcher_stderr, master_stderr } = event {
        let first = with_stderr(e@, "SSH remote server"@, stderr_view(launcher_stderr));
        assert(first.message.take(e@.message.len() as int) =~= e@.message);
        assert(reported.message.take(e@.message.len() as int) =~= e@.message);
    }
}

/// What ends the life of a running session.
#[derive(Clone, Copy, Debug, PartialEq, Eq, Structural)]
pub enum Trigger {
    ShutdownRequested,
    MasterExited,
    LauncherExited,
    ControlClosed,
}

/// How far the supervision of a running session has come.
#[derive(Clone, Copy, Debug, PartialEq, Eq, Structural)]
pub enum SupervisePhase {
    Watching,
    CloseControl(Trigger),
    CloseInput(Trigger),
    AwaitLauncher,
    KillLauncher,
    CancelForward,
    RequestExit,
    AwaitMaster,
    KillMaster,
    CollectOutput,
    Closed,
}

/// What happened.
#[derive(Clone, Copy, Debug, PartialEq, Eq, Structural)]
pub enum SuperviseEvent {
    Triggered(Trigger),
    /// The step was done.
    Done,
    /// The awaited process did not end in time.
    TimedOut,
}

/// Where supervision goes from `phase` when `event` comes.
pub open spec fn supervise_next(phase: SupervisePhase, event: SuperviseEvent) -> SupervisePhase {
    match (phase, event) {
        (SupervisePhase::Watching, SuperviseEvent::Triggered(t)) => if t == Trigger::ControlClosed {
            SupervisePhase::CloseInput(t)
        } else {
            SupervisePhase::CloseControl(t)
        },
        (SupervisePhase::CloseControl(t), SuperviseEvent::Done) => if t
            == Trigger::LauncherExited {
            SupervisePhase::CancelForward
        } else {
            SupervisePhase::CloseInput(t)
        },
        (SupervisePhase::CloseInput(t), SuperviseEvent::Done) => if t == Trigger::MasterExited {
            SupervisePhase::KillLauncher
        } else {
            SupervisePhase::AwaitLauncher
        },
        (SupervisePhase::AwaitLauncher, SuperviseEvent::Done) => SupervisePhase::CancelForward,
        (SupervisePhase::AwaitLauncher, SuperviseEvent::TimedOut) => SupervisePhase::KillLauncher,
        (SupervisePhase::KillLauncher, SuperviseEvent::Done) => SupervisePhase::CancelForward,
        (SupervisePhase::CancelForward, SuperviseEvent::Done) => SupervisePhase::RequestExit,
        (SupervisePhase::RequestExit, SuperviseEvent::Done) => SupervisePhase::AwaitMaster,
        (SupervisePhase::AwaitMaster, SuperviseEvent::Done) => SupervisePhase::CollectOutput,
        (SupervisePhase::AwaitMaster, SuperviseEvent::TimedOut) => SupervisePhase::KillMaster,
        (SupervisePhase::KillMaster, SuperviseEvent::Done) => SupervisePhase::CollectOutput,
        (SupervisePhase::CollectOutput, SuperviseEvent::Done) => SupervisePhase::Closed,
        (phase, _) => phase,
    }
}

/// Takes in what happened to a running session.
pub fn supervise(phase: SupervisePhase, event: SuperviseEvent) -> (r: SupervisePhase)
    ensures
        r == supervise_next(phase, event),
{
    match (phase, event) {
        (SupervisePhase::Watching, SuperviseEvent::Triggered(t)) => {
            if t == Trigger::ControlClosed {
                SupervisePhase::CloseInput(t)
            } else {
                SupervisePhase::CloseControl(t)
            }
        },
        (SupervisePhase::CloseControl(t), SuperviseEvent::Done) => {
            if t == Trigger::LauncherExited {
                SupervisePhase::CancelForward
            } else {
                SupervisePhase::CloseInput(t)
            }
        },
        (SupervisePhase::CloseInput(t), SuperviseEvent::Done) => {
            if t == Trigger::MasterExited {
                SupervisePhase::KillLauncher
            } else {
                SupervisePhase::AwaitLauncher
            }
        },
        (SupervisePhase::AwaitLauncher, SuperviseEvent::Done) => SupervisePhase::CancelForward,
        (SupervisePhase::AwaitLauncher, SuperviseEvent::TimedOut) => SupervisePhase::KillLauncher,
        (SupervisePhase::KillLauncher, SuperviseEvent::Done) => SupervisePhase::CancelForward,
        (SupervisePhase::CancelForward, SuperviseEvent::Done) => SupervisePhase::RequestExit,
        (SupervisePhase::RequestExit, SuperviseEvent::Done) => SupervisePhase::AwaitMaster,
        (SupervisePhase::AwaitMaster, SuperviseEvent::Done) => SupervisePhase::CollectOutput,
        (SupervisePhase::AwaitMaster, SuperviseEvent::TimedOut) => SupervisePhase::KillMaster,
        (SupervisePhase::KillMaster, SuperviseEvent::Done) => SupervisePhase::CollectOutput,
        (SupervisePhase::CollectOutput, SuperviseEvent::Done) => SupervisePhase::Closed,
        (phase, _) => phase,
    }
}

/// How many steps a session has left at most.
pub open spec fn supervise_rank(phase: SupervisePhase) -> nat {
    match phase {
        SupervisePhase::Watching => 10,
        SupervisePhase::CloseControl(_) => 9,
        SupervisePhase::CloseInput(_) => 8,
        SupervisePhase::AwaitLauncher => 7,
        SupervisePhase::KillLauncher => 6,
        SupervisePhase::CancelForward => 5,
        SupervisePhase::RequestExit => 4,
        SupervisePhase::AwaitMaster => 3,
        SupervisePhase::KillMaster => 2,
        SupervisePhase::CollectOutput => 1,
        SupervisePhase::Closed => 0,
    }
}

/// Whether the launcher has ended by the time of `phase`.
pub open spec fn launcher_ended(phase: SupervisePhase) -> bool {
    supervise_rank(phase) <= 5
}

/// Once triggered, the supervision of a session comes to an end: every step that is done brings it
/// closer, and none takes it back. The forwarding is cancelled and the master asked to leave only
/// after the launcher has exited, ended in time or been killed, and the session is closed only
/// after the master has.
pub proof fn law_supervision_ends(phase: SupervisePhase, event: SuperviseEvent)
    ensures
        supervise_rank(supervise_next(phase, event)) <= supervise_rank(phase),
        event is Done && !(phase is Watching) && !(phase is Closed) ==> supervise_rank(
            supervise_next(phase, event),
        ) < supervise_rank(phase),
        launcher_ended(supervise_next(phase, event)) && !launcher_ended(phase) ==> event is Done && (
        phase is AwaitLauncher || phase is KillLauncher || phase == SupervisePhase::CloseControl(
            Trigger::LauncherExited,
        )),
        supervise_next(phase, event) is CollectOutput && !(phase is CollectOutput) ==> event is Done
            && (phase is AwaitMaster || phase is KillMaster),
{
}

} // verus!
