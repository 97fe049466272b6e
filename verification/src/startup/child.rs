//! Starting a server as one child process: on this machine directly, or on another through a
//! single `ssh`.

use vstd::prelude::*;
use vstd::utf8::encode_utf8;

use crate::api::{ErrorClass, ErrorView, FilePeekerError, SessionConfig, SessionTarget};
use crate::bytes::{lossy, lossy_text};
use crate::install::{RemoteInstallConfig, RemoteInstallPolicy, RemoteInstallSource};
use crate::io_error::IoError;
use crate::shell::{quoted, shell_quote};
use crate::startup::diagnostics::{add_suffix, with_suffix, BoundedOutput};
use crate::startup::runtime::{start_failure, MAX_SOCKET_PATH_BYTES};
use crate::startup::session_setup::PRIVATE_DIRECTORY_MODE;
use crate::startup::ssh::{is_destination, validate_destination};
use crate::startup::PACKAGE_VERSION;
use crate::text::{
    concat2, concat3, concat4, concat5, decimal, decimal_text, push_text, texts, trim, trimmed,
};
use crate::unix_path::{file_name, file_name_of, join, joined};

verus! {

/// How many bytes of a child's error output are kept.
pub const STDERR_LIMIT: usize = 65536;

/// Accepts the path of the server's executable.
pub fn validate_local_executable(server_executable_path: &str) -> (r: Result<String, FilePeekerError>)
    ensures
        match r {
            Ok(path) => server_executable_path@.len() > 0 && path@ == server_executable_path@,
            Err(e) => server_executable_path@.len() == 0 && e@ == start_failure(
                "server executable path is required"@,
            ),
        },
{
    if server_executable_path.is_empty() {
        return Err(
            FilePeekerError::ServerStart { message: "server executable path is required".to_owned() },
        );
    }
    Ok(server_executable_path.to_owned())
}

/// The error of a socket path that is too long.
pub open spec fn overlong_failure() -> ErrorView {
    start_failure(
        "generated server socket path exceeds "@ + decimal_text(MAX_SOCKET_PATH_BYTES as nat)
            + " bytes"@,
    )
}

/// Accepts the path of a socket that is not too long.
pub fn validate_socket_length(socket_path: &str) -> (r: Result<(), FilePeekerError>)
    ensures
        r is Ok <==> encode_utf8(socket_path@).len() <= MAX_SOCKET_PATH_BYTES,
        r matches Err(e) ==> e@ == overlong_failure(),
{
    if socket_path.as_bytes().len() > MAX_SOCKET_PATH_BYTES {
        let limit = decimal(MAX_SOCKET_PATH_BYTES as u64);
        return Err(
            FilePeekerError::ServerStart {
                message: concat3("generated server socket path exceeds ", &limit, " bytes"),
            },
        );
    }
    Ok(())
}

/// How the private directory for the socket is to be created.
#[derive(Debug, PartialEq, Eq)]
pub struct EndpointPlan {
    /// The directory that it stands in.
    pub parent: String,
    /// What its name starts with.
    pub prefix: String,
    /// The permissions that it is given.
    pub mode: u32,
}

/// How the private directory for the socket is to be created: closed to everybody but its owner.
pub fn plan_endpoint() -> (r: EndpointPlan)
    ensures
        r.parent@ == "/tmp"@,
        r.prefix@ == "fp-"@,
        r.mode == 448,
{
    EndpointPlan {
        parent: "/tmp".to_owned(),
        prefix: "fp-".to_owned(),
        mode: PRIVATE_DIRECTORY_MODE,
    }
}

/// What came of creating a private directory for the socket.
#[derive(Debug, PartialEq, Eq)]
pub enum EndpointOutcome {
    Created(String),
    NotCreated(IoError),
    NotInspected(IoError),
    NotSecured(IoError),
}

/// Why there is no private directory, if there is none.
pub open spec fn endpoint_error(outcome: EndpointOutcome) -> Option<ErrorView> {
    match outcome {
        EndpointOutcome::Created(_) => None,
        EndpointOutcome::NotCreated(e) => Some(
            start_failure("cannot create private server directory: "@ + e@.message),
        ),
        EndpointOutcome::NotInspected(e) => Some(
            start_failure("cannot inspect private server directory: "@ + e@.message),
        ),
        EndpointOutcome::NotSecured(e) => Some(
            start_failure("cannot secure private server directory: "@ + e@.message),
        ),
    }
}

/// The private directory, or why there is none.
pub fn create_endpoint(outcome: EndpointOutcome) -> (r: Result<String, FilePeekerError>)
    ensures
        match r {
            Ok(path) => outcome == EndpointOutcome::Created(path),
            Err(e) => endpoint_error(outcome) == Some(e@),
        },
{
    match outcome {
        EndpointOutcome::Created(path) => Ok(path),
        EndpointOutcome::NotCreated(e) => Err(
            FilePeekerError::ServerStart {
                message: concat2("cannot create private server directory: ", &e.message),
            },
        ),
        EndpointOutcome::NotInspected(e) => Err(
            FilePeekerError::ServerStart {
                message: concat2("cannot inspect private server directory: ", &e.message),
            },
        ),
        EndpointOutcome::NotSecured(e) => Err(
            FilePeekerError::ServerStart {
                message: concat2("cannot secure private server directory: ", &e.message),
            },
        ),
    }
}

/// What is added to an error about a server that printed this, with a note where part of it was
/// not kept.
pub open spec fn bounded_suffix(stderr: BoundedOutput) -> Seq<char> {
    let note = if stderr.truncated {
        " [truncated]"@
    } else {
        ""@
    };
    "; server stderr: "@ + trimmed(lossy_text(stderr.bytes@)) + note
}

/// `e` with what the server printed, if it printed anything.
pub open spec fn with_bounded(e: ErrorView, stderr: Option<BoundedOutput>) -> ErrorView {
    match stderr {
        Some(output) => if output.bytes@.len() > 0 {
            with_suffix(e, bounded_suffix(output))
        } else {
            e
        },
        None => e,
    }
}

/// Adds what the server printed to an error about its start or exit.
pub fn add_stderr_context(error: FilePeekerError, stderr: &Option<BoundedOutput>) -> (r:
    FilePeekerError)
    ensures
        r@ == with_bounded(error@, *stderr),
{
    match stderr {
        Some(output) => {
            if output.bytes.len() == 0 {
                return error;
            }
            let text = lossy(output.bytes.as_slice());
            let shown = trim(&text);
            let note = if output.truncated {
                " [truncated]"
            } else {
                ""
            };
            let suffix = concat3("; server stderr: ", &shown, note);
            add_suffix(error, &suffix)
        },
        None => error,
    }
}

/// The shell program that runs a server below `directory` on the other machine.
pub open spec fn one_shot_script(directory: Seq<char>) -> Seq<char> {
    "set -eu; runtime="@ + quoted(directory)
        + "; mkdir -m 700 \"$runtime\"; server=\"$HOME/.file-peeker/servers/"@ + PACKAGE_VERSION@
        + "/bin/file-peeker-server\"; \"$server\" serve --socket \"$runtime/server.sock\" --remove-parent-on-exit & server_pid=$!; (cat >/dev/null; kill \"$server_pid\" 2>/dev/null || :) & monitor_pid=$!; cleanup() { kill \"$server_pid\" \"$monitor_pid\" 2>/dev/null || :; rm -rf \"$runtime\"; }; trap cleanup EXIT HUP INT TERM; set +e; wait \"$server_pid\"; status=$?; kill \"$monitor_pid\" 2>/dev/null || :; wait \"$monitor_pid\" 2>/dev/null; exit \"$status\""@
}

fn build_one_shot_script(directory: &str) -> (r: String)
    ensures
        r@ == one_shot_script(directory@),
{
    let runtime = shell_quote(directory);
    concat5(
        "set -eu; runtime=",
        &runtime,
        "; mkdir -m 700 \"$runtime\"; server=\"$HOME/.file-peeker/servers/",
        PACKAGE_VERSION,
        "/bin/file-peeker-server\"; \"$server\" serve --socket \"$runtime/server.sock\" --remove-parent-on-exit & server_pid=$!; (cat >/dev/null; kill \"$server_pid\" 2>/dev/null || :) & monitor_pid=$!; cleanup() { kill \"$server_pid\" \"$monitor_pid\" 2>/dev/null || :; rm -rf \"$runtime\"; }; trap cleanup EXIT HUP INT TERM; set +e; wait \"$server_pid\"; status=$?; kill \"$monitor_pid\" 2>/dev/null || :; wait \"$monitor_pid\" 2>/dev/null; exit \"$status\"",
    )
}

/// Where the server is to run.
#[derive(Debug, PartialEq, Eq)]
pub enum ChildKind {
    Local { executable: String },
    Remote { destination: String },
}

/// How far the start has come.
#[derive(Debug, PartialEq, Eq)]
pub enum ChildPhase {
    Install,
    CreateEndpoint,
    Spawn,
    Connect,
    Greet,
    Delay,
    /// Stop the child, then report the error.
    Stop(FilePeekerError),
    Ready,
    Failed(FilePeekerError),
}

/// What came of the last step. A spawned child reports whether its error output can be read.
#[derive(Debug, PartialEq, Eq)]
pub enum ChildEvent {
    Installed(Result<(), String>),
    EndpointCreated(EndpointOutcome),
    Spawned(Result<bool, IoError>),
    Connected(Result<(), FilePeekerError>),
    Greeted { result: Result<(), FilePeekerError>, deadline_passed: bool },
    Waited,
    Stopped { stderr: Option<BoundedOutput> },
}

/// A server on its way to running.
#[derive(Debug, PartialEq, Eq)]
pub struct ChildStart {
    pub kind: ChildKind,
    pub endpoint: Option<String>,
    pub phase: ChildPhase,
}

/// Whether `phase` is this failure.
pub open spec fn child_failed(phase: ChildPhase, e: ErrorView) -> bool {
    phase matches ChildPhase::Failed(error) && error@ == e
}

/// Whether `phase` stops the child because of this failure.
pub open spec fn child_stops(phase: ChildPhase, e: ErrorView) -> bool {
    phase matches ChildPhase::Stop(error) && error@ == e
}

/// What is wrong with `endpoint` as the directory of the socket, if anything.
pub open spec fn directory_error(kind: ChildKind, endpoint: Seq<char>) -> Option<ErrorView> {
    if encode_utf8(joined(endpoint, "server.sock"@)).len() > MAX_SOCKET_PATH_BYTES {
        Some(overlong_failure())
    } else if kind is Remote && file_name_of(endpoint) is None {
        Some(start_failure("generated endpoint name is not valid UTF-8"@))
    } else {
        None
    }
}

/// The error of a child that could not be launched.
pub open spec fn launch_failure(kind: ChildKind, reason: Seq<char>) -> ErrorView {
    match kind {
        ChildKind::Local { executable } => start_failure(
            "cannot launch `"@ + executable@ + "`: "@ + reason,
        ),
        ChildKind::Remote { .. } => start_failure("cannot launch SSH remote server: "@ + reason),
    }
}

/// The error of a child whose error output cannot be read.
pub open spec fn mute_failure(kind: ChildKind) -> ErrorView {
    match kind {
        ChildKind::Local { .. } => start_failure("server stderr was not available"@),
        ChildKind::Remote { .. } => start_failure("SSH remote server stderr was not available"@),
    }
}

impl ChildStart {
    /// What a step needs is there by then.
    pub open spec fn wf(self) -> bool {
        &&& match self.kind {
            ChildKind::Local { executable } => executable@.len() > 0 && !(self.phase is Install),
            ChildKind::Remote { destination } => is_destination(destination@),
        }
        &&& match self.phase {
            ChildPhase::Install | ChildPhase::CreateEndpoint | ChildPhase::Failed(_) => true,
            _ => self.endpoint matches Some(path) && directory_error(self.kind, path@) is None,
        }
    }

    /// Whether the start moves from `self` to `after` when `event` comes. Only a server behind
    /// `ssh` is greeted again after it hung up.
    pub open spec fn next(self, event: ChildEvent, after: Self) -> bool {
        &&& after.kind == self.kind
        &&& match (self.phase, event) {
            (ChildPhase::Install, ChildEvent::Installed(result)) => {
                &&& after.endpoint == self.endpoint
                &&& match result {
                    Ok(_) => after.phase is CreateEndpoint,
                    Err(words) => child_failed(after.phase, start_failure(words@)),
                }
            },
            (ChildPhase::CreateEndpoint, ChildEvent::EndpointCreated(outcome)) => match outcome {
                EndpointOutcome::Created(path) => {
                    &&& after.endpoint == Some(path)
                    &&& match directory_error(self.kind, path@) {
                        Some(e) => child_failed(after.phase, e),
                        None => after.phase is Spawn,
                    }
                },
                _ => {
                    &&& after.endpoint == self.endpoint
                    &&& child_failed(after.phase, endpoint_error(outcome)->Some_0)
                },
            },
            (ChildPhase::Spawn, ChildEvent::Spawned(result)) => {
                &&& after.endpoint == self.endpoint
                &&& match result {
                    Err(e) => child_failed(after.phase, launch_failure(self.kind, e@.message)),
                    Ok(has_stderr) => if has_stderr {
                        after.phase is Connect
                    } else {
                        child_failed(after.phase, mute_failure(self.kind))
                    },
                }
            },
            (ChildPhase::Connect, ChildEvent::Connected(result)) => {
                &&& after.endpoint == self.endpoint
                &&& match result {
                    Ok(_) => after.phase is Greet,
                    Err(e) => child_stops(after.phase, e@),
                }
            },
            (ChildPhase::Greet, ChildEvent::Greeted { result, deadline_passed }) => {
                &&& after.endpoint == self.endpoint
                &&& match result {
                    Ok(_) => after.phase is Ready,
                    Err(e) => if self.kind is Remote && e@.class == ErrorClass::ConnectionClosed
                        && !deadline_passed {
                        after.phase is Delay
                    } else {
                        child_stops(after.phase, e@)
                    },
                }
            },
            (ChildPhase::Delay, ChildEvent::Waited) => {
                &&& after.endpoint == self.endpoint
                &&& after.phase is Connect
            },
            (ChildPhase::Stop(e), ChildEvent::Stopped { stderr }) => {
                &&& after.endpoint == self.endpoint
                &&& child_failed(after.phase, with_bounded(e@, stderr))
            },
            (phase, _) => after.endpoint == self.endpoint && after.phase == phase,
        }
    }
}

/// Judges `endpoint` as the directory of the socket.
fn check_directory(kind: &ChildKind, endpoint: &str) -> (r: Option<FilePeekerError>)
    ensures
        match r {
            None => directory_error(*kind, endpoint@) is None,
            Some(e) => directory_error(*kind, endpoint@) == Some(e@),
        },
{
    let socket = join(endpoint, "server.sock");
    match validate_socket_length(&socket) {
        Err(e) => {
            return Some(e);
        },
        Ok(_) => {},
    }
    match kind {
        ChildKind::Local { .. } => None,
        ChildKind::Remote { .. } => match file_name(endpoint) {
            Some(_) => None,
            None => Some(
                FilePeekerError::ServerStart {
                    message: "generated endpoint name is not valid UTF-8".to_owned(),
                },
            ),
        },
    }
}

fn launch_error(kind: &ChildKind, reason: &str) -> (r: FilePeekerError)
    ensures
        r@ == launch_failure(*kind, reason@),
{
    let message = match kind {
        ChildKind::Local { executable } => concat4("cannot launch `", executable, "`: ", reason),
        ChildKind::Remote { .. } => concat2("cannot launch SSH remote server: ", reason),
    };
    FilePeekerError::ServerStart { message }
}

fn mute_error(kind: &ChildKind) -> (r: FilePeekerError)
    ensures
        r@ == mute_failure(*kind),
{
    let message = match kind {
        ChildKind::Local { .. } => "server stderr was not available".to_owned(),
        ChildKind::Remote { .. } => "SSH remote server stderr was not available".to_owned(),
    };
    FilePeekerError::ServerStart { message }
}

impl ChildStart {
    /// The start of the server at `server_executable_path` on this machine.
    pub fn start_local(server_executable_path: &str) -> (r: Result<Self, FilePeekerError>)
        ensures
            match r {
                Ok(s) => {
                    &&& s.wf()
                    &&& s.kind matches ChildKind::Local { executable } && executable@
                        == server_executable_path@
                    &&& s.endpoint is None
                    &&& s.phase is CreateEndpoint
                },
                Err(e) => server_executable_path@.len() == 0 && e@ == start_failure(
                    "server executable path is required"@,
                ),
            },
    {
        match validate_local_executable(server_executable_path) {
            Ok(executable) => Ok(
                ChildStart {
                    kind: ChildKind::Local { executable },
                    endpoint: None,
                    phase: ChildPhase::CreateEndpoint,
                },
            ),
            Err(e) => Err(e),
        }
    }

    /// The start of a server at `destination`.
    pub fn start_remote(destination: String) -> (r: Result<Self, FilePeekerError>)
        ensures
            r is Ok <==> is_destination(destination@),
            r matches Ok(s) ==> s.wf() && s.kind == (ChildKind::Remote { destination })
                && s.endpoint is None && s.phase is Install,
            r matches Err(e) ==> e@ == start_failure(
                "SSH destination is required and must not begin with `-`"@,
            ),
    {
        match validate_destination(&destination) {
            Ok(_) => Ok(
                ChildStart {
                    kind: ChildKind::Remote { destination },
                    endpoint: None,
                    phase: ChildPhase::Install,
                },
            ),
            Err(e) => Err(e),
        }
    }

    /// The start of the server that a session of this configuration needs.
    pub fn start(config: SessionConfig) -> (r: Result<Self, FilePeekerError>)
        ensures
            match config.target {
                SessionTarget::Local { server_executable_path } => match r {
                    Ok(s) => {
                        &&& s.wf()
                        &&& s.kind matches ChildKind::Local { executable } && executable@
                            == server_executable_path@
                        &&& s.endpoint is None
                        &&& s.phase is CreateEndpoint
                    },
                    Err(e) => server_executable_path@.len() == 0 && e@ == start_failure(
                        "server executable path is required"@,
                    ),
                },
                SessionTarget::Ssh { destination } => match r {
                    Ok(s) => s.wf() && s.kind == (ChildKind::Remote { destination })
                        && s.endpoint is None && s.phase is Install,
                    Err(e) => !is_destination(destination@) && e@ == start_failure(
                        "SSH destination is required and must not begin with `-`"@,
                    ),
                },
            },
    {
        match config.target {
            SessionTarget::Local { server_executable_path } => ChildStart::start_local(
                &server_executable_path,
            ),
            SessionTarget::Ssh { destination } => ChildStart::start_remote(destination),
        }
    }

    /// Takes in what came of the last step.
    pub fn start_child(self, event: ChildEvent) -> (r: Self)
        requires
            self.wf(),
        ensures
            self.next(event, r),
            r.wf(),
    {
        let ChildStart { kind, endpoint, phase } = self;
        let mut endpoint = endpoint;
        let after = match (phase, event) {
            (ChildPhase::Install, ChildEvent::Installed(result)) => match result {
                Ok(_) => ChildPhase::CreateEndpoint,
                Err(words) => ChildPhase::Failed(FilePeekerError::ServerStart { message: words }),
            },
            (ChildPhase::CreateEndpoint, ChildEvent::EndpointCreated(outcome)) => {
                match create_endpoint(outcome) {
                    Err(e) => ChildPhase::Failed(e),
                    Ok(path) => {
                        let error = check_directory(&kind, &path);
                        endpoint = Some(path);
                        match error {
                            Some(e) => ChildPhase::Failed(e),
                            None => ChildPhase::Spawn,
                        }
                    },
                }
            },
            (ChildPhase::Spawn, ChildEvent::Spawned(result)) => match result {
                Err(e) => ChildPhase::Failed(launch_error(&kind, &e.message)),
                Ok(has_stderr) => {
                    if has_stderr {
                        ChildPhase::Connect
                    } else {
                        ChildPhase::Failed(mute_error(&kind))
                    }
                },
            },
            (ChildPhase::Connect, ChildEvent::Connected(result)) => match result {
                Ok(_) => ChildPhase::Greet,
                Err(e) => ChildPhase::Stop(e),
            },
            (ChildPhase::Greet, ChildEvent::Greeted { result, deadline_passed }) => match result {
                Ok(_) => ChildPhase::Ready,
                Err(FilePeekerError::ConnectionClosed { message }) => {
                    if deadline_passed || matches!(kind, ChildKind::Local { .. }) {
                        ChildPhase::Stop(FilePeekerError::ConnectionClosed { message })
                    } else {
                        ChildPhase::Delay
                    }
                },
                Err(e) => ChildPhase::Stop(e),
            },
            (ChildPhase::Delay, ChildEvent::Waited) => ChildPhase::Connect,
            (ChildPhase::Stop(e), ChildEvent::Stopped { stderr }) => ChildPhase::Failed(
                add_stderr_context(e, &stderr),
            ),
            (phase, _) => phase,
        };
        ChildStart { kind, endpoint, phase: after }
    }
}

/// A command to run.
#[derive(Debug, PartialEq, Eq)]
pub struct ChildCommand {
    pub program: String,
    pub arguments: Vec<String>,
    /// Whether the child keeps an input open, by which it is told to end.
    pub has_input: bool,
}

/// The directory of the server that is started from the private directory `endpoint`.
pub open spec fn one_shot_directory(endpoint: Seq<char>) -> Seq<char> {
    "/tmp/"@ + file_name_of(endpoint)->Some_0 + "-remote"@
}

/// Whether `command` starts a server whose socket appears below `endpoint`.
pub open spec fn starts_child(kind: ChildKind, endpoint: Seq<char>, command: ChildCommand) -> bool {
    let socket = joined(endpoint, "server.sock"@);
    match kind {
        ChildKind::Local { executable } => {
            &&& command.program@ == executable@
            &&& !command.has_input
            &&& texts(command.arguments@) == seq!["serve"@, "--socket"@, socket]
        },
        ChildKind::Remote { destination } => {
            let directory = one_shot_directory(endpoint);
            &&& command.program@ == "ssh"@
            &&& command.has_input
            &&& texts(command.arguments@) == seq![
                "-T"@,
                "-o"@,
                "ExitOnForwardFailure=yes"@,
                "-o"@,
                "StreamLocalBindUnlink=yes"@,
                "-L"@,
                socket + ":"@ + directory + "/server.sock"@,
                destination@,
                one_shot_script(directory),
            ]
        },
    }
}

impl ChildStart {
    /// How a server is installed at the destination; one that is there already is reused. There is
    /// nothing to install for a server on this machine.
    pub fn install_config(&self, development: bool) -> (r: Option<RemoteInstallConfig>)
        ensures
            match self.kind {
                ChildKind::Local { .. } => r is None,
                ChildKind::Remote { destination } => {
                    &&& r matches Some(config) && config.destination@ == destination@
                        && config.server_version@ == PACKAGE_VERSION@ && config.ssh_executable@ == "ssh"@
                        && config.ssh_arguments@ == Seq::<String>::empty() && config.remote_cargo is None
                        && config.timeout_nanos == 300_000_000_000 && config.output_limit == 65536
                        && config.policy == RemoteInstallPolicy::ReuseExisting && config.source == (
                    if development {
                        RemoteInstallSource::Workspace
                    } else {
                        RemoteInstallSource::CratesIo
                    })
                },
            },
    {
        match &self.kind {
            ChildKind::Local { .. } => None,
            ChildKind::Remote { destination } => Some(
                RemoteInstallConfig::for_current_build(
                    destination.clone(),
                    RemoteInstallPolicy::ReuseExisting,
                    development,
                ),
            ),
        }
    }

    /// The socket that the server is reached by, once it has a directory.
    pub fn socket_path(&self) -> (r: Option<String>)
        ensures
            match self.endpoint {
                Some(endpoint) => r matches Some(path) && path@ == joined(endpoint@, "server.sock"@),
                None => r is None,
            },
    {
        match &self.endpoint {
            Some(endpoint) => Some(join(endpoint, "server.sock")),
            None => None,
        }
    }

    /// The command that starts the child, once it has a directory for its socket.
    pub fn command(&self) -> (r: Option<ChildCommand>)
        requires
            self.wf(),
        ensures
            self.phase is Spawn ==> r is Some,
            r is None ==> self.endpoint is None || (self.kind is Remote && file_name_of(
                self.endpoint->Some_0@,
            ) is None),
            r matches Some(command) ==> self.endpoint matches Some(path) && starts_child(
                self.kind,
                path@,
                command,
            ),
    {
        let endpoint = match &self.endpoint {
            Some(endpoint) => endpoint,
            None => {
                return None;
            },
        };
        let socket = join(endpoint, "server.sock");
        let mut arguments: Vec<String> = Vec::new();
        match &self.kind {
            ChildKind::Local { executable } => {
                push_text(&mut arguments, "serve");
                push_text(&mut arguments, "--socket");
                push_text(&mut arguments, &socket);
                proof {
                    assert(texts(arguments@) =~= seq!["serve"@, "--socket"@, socket@]);
                }
                Some(ChildCommand { program: executable.clone(), arguments, has_input: false })
            },
            ChildKind::Remote { destination } => {
                let token = match file_name(endpoint) {
                    Some(token) => token,
                    None => {
                        return None;
                    },
                };
                let directory = concat3("/tmp/", &token, "-remote");
                let forward = concat4(&socket, ":", &directory, "/server.sock");
                let script = build_one_shot_script(&directory);
                push_text(&mut arguments, "-T");
                push_text(&mut arguments, "-o");
                push_text(&mut arguments, "ExitOnForwardFailure=yes");
                push_text(&mut arguments, "-o");
                push_text(&mut arguments, "StreamLocalBindUnlink=yes");
                push_text(&mut arguments, "-L");
                push_text(&mut arguments, &forward);
                push_text(&mut arguments, destination);
                push_text(&mut arguments, &script);
                proof {
                    assert(texts(arguments@) =~= seq![
                        "-T"@,
                        "-o"@,
                        "ExitOnForwardFailure=yes"@,
                        "-o"@,
                        "StreamLocalBindUnlink=yes"@,
                        "-L"@,
                        forward@,
                        destination@,
                        script@,
                    ]);
                }
                Some(ChildCommand { program: "ssh".to_owned(), arguments, has_input: true })
            },
        }
    }
}

/// Once the child runs, no failure to reach or greet it ends the start directly: the child is
/// stopped first. The error then keeps its class, and its text is only added to.
pub proof fn law_failures_stop_the_child(before: ChildStart, event: ChildEvent, after: ChildStart)
    requires
        before.next(event, after),
    ensures
        before.phase is Connect || before.phase is Greet || before.phase is Delay ==> !(
        after.phase is Failed),
        before.phase is Failed || before.phase is Ready ==> after == before,
        before.phase is Stop && after.phase is Failed ==> {
            let e = before.phase->Stop_0;
            let reported = after.phase->Failed_0@;
            &&& reported.class == e@.class
            &&& e@.message.len() <= reported.message.len()
            &&& reported.message.take(e@.message.len() as int) == e@.message
        },
{
    if let ChildPhase::Stop(e) = before.phase {
        if after.phase is Failed {
            let reported = after.phase->Failed_0@;
            assert(reported.message.take(e@.message.len() as int) =~= e@.message);
        }
    }
}

/// How far the supervision of a running child has come.
#[derive(Clone, Copy, Debug, PartialEq, Eq, Structural)]
pub enum WatchPhase {
    Watching,
    CloseControl,
    CloseInput,
    Await,
    Kill,
    Closed,
}

/// What happened to a running child.
#[derive(Clone, Copy, Debug, PartialEq, Eq, Structural)]
pub enum WatchEvent {
    ShutdownRequested,
    ChildExited,
    ControlClosed,
    /// The step was done.
    Done,
    /// The child did not end in time.
    TimedOut,
}

/// Where supervision goes from `phase` when `event` comes.
pub open spec fn watch_next(phase: WatchPhase, event: WatchEvent) -> WatchPhase {
    match (phase, event) {
        (WatchPhase::Watching, WatchEvent::ShutdownRequested) => WatchPhase::CloseControl,
        (WatchPhase::Watching, WatchEvent::ChildExited) => WatchPhase::Closed,
        (WatchPhase::Watching, WatchEvent::ControlClosed) => WatchPhase::Await,
        (WatchPhase::CloseControl, WatchEvent::Done) => WatchPhase::CloseInput,
        (WatchPhase::CloseInput, WatchEvent::Done) => WatchPhase::Await,
        (WatchPhase::Await, WatchEvent::Done) => WatchPhase::Closed,
        (WatchPhase::Await, WatchEvent::TimedOut) => WatchPhase::Kill,
        (WatchPhase::Kill, WatchEvent::Done) => WatchPhase::Closed,
        (phase, _) => phase,
    }
}

/// Takes in what happened to a running child.
pub fn supervise(phase: WatchPhase, event: WatchEvent) -> (r: WatchPhase)
    ensures
        r == watch_next(phase, event),
{
    match (phase, event) {
        (WatchPhase::Watching, WatchEvent::ShutdownRequested) => WatchPhase::CloseControl,
        (WatchPhase::Watching, WatchEvent::ChildExited) => WatchPhase::Closed,
        (WatchPhase::Watching, WatchEvent::ControlClosed) => WatchPhase::Await,
        (WatchPhase::CloseControl, WatchEvent::Done) => WatchPhase::CloseInput,
        (WatchPhase::CloseInput, WatchEvent::Done) => WatchPhase::Await,
        (WatchPhase::Await, WatchEvent::Done) => WatchPhase::Closed,
        (WatchPhase::Await, WatchEvent::TimedOut) => WatchPhase::Kill,
        (WatchPhase::Kill, WatchEvent::Done) => WatchPhase::Closed,
        (phase, _) => phase,
    }
}

/// A supervised child counts as closed only once it has exited, ended in time or been killed, and
/// stays closed.
pub proof fn law_closed_children_have_ended(phase: WatchPhase, event: WatchEvent)
    ensures
        watch_next(WatchPhase::Closed, event) is Closed,
        watch_next(phase, event) is Closed && !(phase is Closed) ==> (phase is Watching
            && event is ChildExited) || (event is Done && (phase is Await || phase is Kill)),
{
}

} // verus!
