//! The steps of an installation, in order: check, package, transfer, install, clean up.

use vstd::prelude::*;

use crate::install::run::{
    cargo_error, package_protocol_arguments, package_server_arguments, run_local_cargo, run_remote_script,
    run_workspace_ssh, script_error, ssh_error, workspace_of, workspace_root, CargoOutcome, ScriptOutcome,
    SshOutcome,
};
use crate::install::{
    build_remote_command, check_outcome, config_error, install_words, parse_success_response,
    remote_server_is_compatible, response_outcome, validate_config, InstallErrorView, RemoteInstallConfig,
    RemoteInstallError, RemoteInstallOutcome, RemoteInstallPolicy, RemoteInstallSource,
};
use crate::shell::quoted_words;
use crate::text::{concat3, concat4, decimal, decimal_long, decimal_text, texts, text_of};
use crate::unix_path::{join, joined};

verus! {

/// How far an installation has come.
#[derive(Debug, PartialEq, Eq)]
pub enum InstallPhase {
    Check,
    PackageProtocol,
    PackageServer,
    NameRoot,
    MakeRoot,
    SendProtocol,
    SendServer,
    Install,
    /// Remove what was transferred, then report this.
    CleanUp(Result<RemoteInstallOutcome, RemoteInstallError>),
    Finished(Result<RemoteInstallOutcome, RemoteInstallError>),
}

/// What came of the last step.
#[derive(Debug, PartialEq, Eq)]
pub enum InstallEvent {
    Script(ScriptOutcome),
    Cargo(CargoOutcome),
    /// The number of this process, and the nanoseconds on the clock or why it cannot be read.
    Named { pid: u32, nanos: Result<u128, String> },
    Ssh(SshOutcome),
}

/// An installation under way.
#[derive(Debug, PartialEq, Eq)]
pub struct InstallCourse {
    pub config: RemoteInstallConfig,
    pub manifest_dir: String,
    pub workspace: Option<String>,
    pub remote_root: Option<String>,
    pub phase: InstallPhase,
}

/// A result over the views of errors.
pub open spec fn result_view(r: Result<RemoteInstallOutcome, RemoteInstallError>) -> Result<
    RemoteInstallOutcome,
    InstallErrorView,
> {
    match r {
        Ok(outcome) => Ok(outcome),
        Err(e) => Err(e@),
    }
}

/// Whether `phase` ends the installation with this result.
pub open spec fn finishes(
    phase: InstallPhase,
    result: Result<RemoteInstallOutcome, InstallErrorView>,
) -> bool {
    phase matches InstallPhase::Finished(r) && result_view(r) == result
}

/// Whether `phase` cleans up and then ends the installation with this result.
pub open spec fn cleans_up(
    phase: InstallPhase,
    result: Result<RemoteInstallOutcome, InstallErrorView>,
) -> bool {
    phase matches InstallPhase::CleanUp(r) && result_view(r) == result
}

/// Why an installation failed.
pub open spec fn failed(e: InstallErrorView) -> Result<RemoteInstallOutcome, InstallErrorView> {
    Err(e)
}

/// What a program's output says about the installation.
pub open spec fn installed(config: RemoteInstallConfig, outcome: ScriptOutcome) -> Result<
    RemoteInstallOutcome,
    InstallErrorView,
> {
    match script_error(config, outcome) {
        Some(e) => Err(e),
        None => {
            let stdout = outcome->Exited_stdout;
            match response_outcome(stdout.bytes@, stdout.truncated, config.server_version@) {
                Ok(found) => Ok(found),
                Err(m) => Err(InstallErrorView::InvalidResponse(m)),
            }
        },
    }
}

/// The directory on the other machine that packages are transferred to.
pub open spec fn root_text(pid: u32, nanos: u128) -> Seq<char> {
    "/tmp/file-peeker-dev-install-"@ + decimal_text(pid as nat) + "-"@ + decimal_text(nanos as nat)
}

impl InstallCourse {
    /// What a step needs is there by then.
    pub open spec fn wf(self) -> bool {
        &&& match self.phase {
            InstallPhase::PackageProtocol | InstallPhase::PackageServer | InstallPhase::NameRoot => {
                self.workspace is Some && self.remote_root is None
            },
            InstallPhase::MakeRoot | InstallPhase::SendProtocol | InstallPhase::SendServer
            | InstallPhase::CleanUp(_) => self.workspace is Some && self.remote_root is Some,
            InstallPhase::Install => self.config.source == (if self.remote_root is Some {
                RemoteInstallSource::Workspace
            } else {
                RemoteInstallSource::CratesIo
            }),
            InstallPhase::Check => self.remote_root is None,
            InstallPhase::Finished(_) => true,
        }
        &&& self.workspace is Some ==> self.config.source == RemoteInstallSource::Workspace
        &&& self.remote_root is Some ==> self.workspace is Some
    }

    /// Everything but the phase stays as it is.
    pub open spec fn same_plan(self, after: Self) -> bool {
        &&& after.config == self.config
        &&& after.manifest_dir == self.manifest_dir
        &&& after.workspace == self.workspace
        &&& after.remote_root == self.remote_root
    }

    /// Whether `after` sets about installing from the configured source.
    pub open spec fn proceeds(self, after: Self) -> bool {
        &&& after.config == self.config
        &&& after.manifest_dir == self.manifest_dir
        &&& after.remote_root == self.remote_root
        &&& match self.config.source {
            RemoteInstallSource::CratesIo => {
                &&& after.workspace == self.workspace
                &&& after.phase is Install
            },
            RemoteInstallSource::Workspace => match workspace_of(self.manifest_dir@) {
                Some(root) => {
                    &&& after.workspace matches Some(w) && w@ == root
                    &&& after.phase is PackageProtocol
                },
                None => {
                    &&& after.workspace == self.workspace
                    &&& finishes(
                        after.phase,
                        failed(InstallErrorView::InvalidConfig("cannot locate workspace root"@)),
                    )
                },
            },
        }
    }

    /// Whether the installation moves from `self` to `after` when `event` comes.
    pub open spec fn next(self, event: InstallEvent, after: Self) -> bool {
        match (self.phase, event) {
            (InstallPhase::Check, InstallEvent::Script(outcome)) => match script_error(
                self.config,
                outcome,
            ) {
                Some(e) => self.same_plan(after) && finishes(after.phase, failed(e)),
                None => {
                    let stdout = outcome->Exited_stdout;
                    match check_outcome(
                        stdout.bytes@,
                        stdout.truncated,
                        self.config.server_version@,
                    ) {
                        Err(m) => self.same_plan(after) && finishes(
                            after.phase,
                            failed(InstallErrorView::InvalidResponse(m)),
                        ),
                        Ok(true) => self.same_plan(after) && finishes(
                            after.phase,
                            Ok(RemoteInstallOutcome::AlreadyInstalled),
                        ),
                        Ok(false) => self.proceeds(after),
                    }
                },
            },
            (InstallPhase::PackageProtocol, InstallEvent::Cargo(outcome)) => {
                &&& self.same_plan(after)
                &&& match cargo_error(outcome, "package protocol crate"@) {
                    Some(e) => finishes(after.phase, failed(e)),
                    None => after.phase is PackageServer,
                }
            },
            (InstallPhase::PackageServer, InstallEvent::Cargo(outcome)) => {
                &&& self.same_plan(after)
                &&& match cargo_error(outcome, "package server crate"@) {
                    Some(e) => finishes(after.phase, failed(e)),
                    None => after.phase is NameRoot,
                }
            },
            (InstallPhase::NameRoot, InstallEvent::Named { pid, nanos }) => match nanos {
                Err(words) => self.same_plan(after) && finishes(
                    after.phase,
                    failed(InstallErrorView::Io(words@)),
                ),
                Ok(nanos) => {
                    &&& after.config == self.config
                    &&& after.manifest_dir == self.manifest_dir
                    &&& after.workspace == self.workspace
                    &&& after.remote_root matches Some(root) && root@ == root_text(pid, nanos)
                    &&& after.phase is MakeRoot
                },
            },
            (InstallPhase::MakeRoot, InstallEvent::Ssh(outcome)) => {
                &&& self.same_plan(after)
                &&& match ssh_error(self.config, outcome) {
                    Some(e) => finishes(after.phase, failed(e)),
                    None => after.phase is SendProtocol,
                }
            },
            (InstallPhase::SendProtocol, InstallEvent::Ssh(outcome)) => {
                &&& self.same_plan(after)
                &&& match ssh_error(self.config, outcome) {
                    Some(e) => cleans_up(after.phase, failed(e)),
                    None => after.phase is SendServer,
                }
            },
            (InstallPhase::SendServer, InstallEvent::Ssh(outcome)) => {
                &&& self.same_plan(after)
                &&& match ssh_error(self.config, outcome) {
                    Some(e) => cleans_up(after.phase, failed(e)),
                    None => after.phase is Install,
                }
            },
            (InstallPhase::Install, InstallEvent::Script(outcome)) => {
                &&& self.same_plan(after)
                &&& if self.remote_root is Some {
                    cleans_up(after.phase, installed(self.config, outcome))
                } else {
                    finishes(after.phase, installed(self.config, outcome))
                }
            },
            (InstallPhase::CleanUp(result), InstallEvent::Ssh(outcome)) => {
                &&& self.same_plan(after)
                &&& match (result, ssh_error(self.config, outcome)) {
                    (Ok(_), Some(e)) => finishes(after.phase, failed(e)),
                    _ => finishes(after.phase, result_view(result)),
                }
            },
            (phase, _) => self.same_plan(after) && after.phase == phase,
        }
    }
}

/// Reads off what an installation came to.
fn read_outcome(config: &RemoteInstallConfig, outcome: ScriptOutcome) -> (r: Result<
    RemoteInstallOutcome,
    RemoteInstallError,
>)
    ensures
        result_view(r) == installed(*config, outcome),
{
    match run_remote_script(config, outcome) {
        Err(e) => Err(e),
        Ok(stdout) => parse_success_response(
            stdout.bytes.as_slice(),
            stdout.truncated,
            &config.server_version,
        ),
    }
}

impl InstallCourse {
    /// Starts an installation. `manifest_dir` is where the sources of this client stand.
    pub fn install_remote_server(config: RemoteInstallConfig, manifest_dir: String) -> (r: Result<
        Self,
        RemoteInstallError,
    >)
        ensures
            match r {
                Err(e) => config_error(config) matches Some(m) && e@
                    == InstallErrorView::InvalidConfig(m),
                Ok(course) => {
                    &&& config_error(config) is None
                    &&& course.wf()
                    &&& course.config == config
                    &&& course.manifest_dir == manifest_dir
                    &&& starts(config, manifest_dir, course)
                },
            },
    {
        match validate_config(&config) {
            Err(e) => {
                return Err(e);
            },
            Ok(_) => {},
        }
        let reuse = config.policy == RemoteInstallPolicy::ReuseExisting;
        let course = InstallCourse {
            config,
            manifest_dir,
            workspace: None,
            remote_root: None,
            phase: InstallPhase::Check,
        };
        if reuse {
            Ok(course)
        } else {
            Ok(course.proceed())
        }
    }

    /// Sets about installing from the configured source.
    fn proceed(self) -> (r: Self)
        requires
            self.phase is Check,
            self.wf(),
        ensures
            self.proceeds(r),
            r.wf(),
    {
        let InstallCourse { config, manifest_dir, workspace, remote_root, phase } = self;
        match config.source {
            RemoteInstallSource::CratesIo => InstallCourse {
                config,
                manifest_dir,
                workspace,
                remote_root,
                phase: InstallPhase::Install,
            },
            RemoteInstallSource::Workspace => match workspace_root(&manifest_dir) {
                Ok(root) => InstallCourse {
                    config,
                    manifest_dir,
                    workspace: Some(root),
                    remote_root,
                    phase: InstallPhase::PackageProtocol,
                },
                Err(e) => InstallCourse {
                    config,
                    manifest_dir,
                    workspace,
                    remote_root,
                    phase: InstallPhase::Finished(Err(e)),
                },
            },
        }
    }

    /// Takes in what came of the last step.
    pub fn advance(self, event: InstallEvent) -> (r: Self)
        requires
            self.wf(),
        ensures
            self.next(event, r),
            r.wf(),
    {
        let InstallCourse { config, manifest_dir, workspace, remote_root, phase } = self;
        let mut remote_root = remote_root;
        let after = match (phase, event) {
            (InstallPhase::Check, InstallEvent::Script(outcome)) => {
                match run_remote_script(&config, outcome) {
                    Err(e) => InstallPhase::Finished(Err(e)),
                    Ok(stdout) => {
                        match remote_server_is_compatible(
                            stdout.bytes.as_slice(),
                            stdout.truncated,
                            &config.server_version,
                        ) {
                            Err(e) => InstallPhase::Finished(Err(e)),
                            Ok(true) => InstallPhase::Finished(
                                Ok(RemoteInstallOutcome::AlreadyInstalled),
                            ),
                            Ok(false) => {
                                let course = InstallCourse {
                                    config,
                                    manifest_dir,
                                    workspace,
                                    remote_root,
                                    phase: InstallPhase::Check,
                                };
                                return course.proceed();
                            },
                        }
                    },
                }
            },
            (InstallPhase::PackageProtocol, InstallEvent::Cargo(outcome)) => {
                match run_local_cargo(outcome, "package protocol crate") {
                    Err(e) => InstallPhase::Finished(Err(e)),
                    Ok(_) => InstallPhase::PackageServer,
                }
            },
            (InstallPhase::PackageServer, InstallEvent::Cargo(outcome)) => {
                match run_local_cargo(outcome, "package server crate") {
                    Err(e) => InstallPhase::Finished(Err(e)),
                    Ok(_) => InstallPhase::NameRoot,
                }
            },
            (InstallPhase::NameRoot, InstallEvent::Named { pid, nanos }) => match nanos {
                Err(words) => InstallPhase::Finished(Err(RemoteInstallError::Io(words))),
                Ok(nanos) => {
                    let pid = decimal(pid as u64);
                    let nanos = decimal_long(nanos);
                    remote_root = Some(concat4("/tmp/file-peeker-dev-install-", &pid, "-", &nanos));
                    InstallPhase::MakeRoot
                },
            },
            (InstallPhase::MakeRoot, InstallEvent::Ssh(outcome)) => {
                match run_workspace_ssh(&config, outcome) {
                    Err(e) => InstallPhase::Finished(Err(e)),
                    Ok(_) => InstallPhase::SendProtocol,
                }
            },
            (InstallPhase::SendProtocol, InstallEvent::Ssh(outcome)) => {
                match run_workspace_ssh(&config, outcome) {
                    Err(e) => InstallPhase::CleanUp(Err(e)),
                    Ok(_) => InstallPhase::SendServer,
                }
            },
            (InstallPhase::SendServer, InstallEvent::Ssh(outcome)) => {
                match run_workspace_ssh(&config, outcome) {
                    Err(e) => InstallPhase::CleanUp(Err(e)),
                    Ok(_) => InstallPhase::Install,
                }
            },
            (InstallPhase::Install, InstallEvent::Script(outcome)) => {
                let result = read_outcome(&config, outcome);
                match &remote_root {
                    Some(_) => InstallPhase::CleanUp(result),
                    None => InstallPhase::Finished(result),
                }
            },
            (InstallPhase::CleanUp(result), InstallEvent::Ssh(outcome)) => {
                match (result, run_workspace_ssh(&config, outcome)) {
                    (Ok(_), Err(e)) => InstallPhase::Finished(Err(e)),
                    (result, _) => InstallPhase::Finished(result),
                }
            },
            (phase, _) => phase,
        };
        InstallCourse { config, manifest_dir, workspace, remote_root, phase: after }
    }
}

/// An installation of which nothing was done yet.
pub open spec fn fresh_course(config: RemoteInstallConfig, manifest_dir: String) -> InstallCourse {
    InstallCourse {
        config,
        manifest_dir,
        workspace: None,
        remote_root: None,
        phase: InstallPhase::Check,
    }
}

/// Whether an installation starts as `course`: with a check where a server that is there already may
/// be reused, else by setting about installing.
pub open spec fn starts(
    config: RemoteInstallConfig,
    manifest_dir: String,
    course: InstallCourse,
) -> bool {
    match config.policy {
        RemoteInstallPolicy::ReuseExisting => course == fresh_course(config, manifest_dir),
        RemoteInstallPolicy::Overwrite => fresh_course(config, manifest_dir).proceeds(course),
    }
}

/// Once a directory was made on the other machine, the installation ends only by removing it, and
/// removing it can turn a success into a failure but never one failure into another.
pub proof fn law_transferred_packages_are_removed(
    before: InstallCourse,
    event: InstallEvent,
    after: InstallCourse,
)
    requires
        before.wf(),
        before.next(event, after),
    ensures
        before.remote_root is Some && after.phase is Finished && !(before.phase is Finished)
            ==> before.phase is MakeRoot || before.phase is CleanUp,
        before.phase is CleanUp && after.phase is Finished ==> {
            let carried = before.phase->CleanUp_0;
            let reported = after.phase->Finished_0;
            &&& carried is Err ==> result_view(reported) == result_view(carried)
            &&& reported is Ok ==> result_view(reported) == result_view(carried)
        },
{
}

/// What has to be done next for an installation.
#[derive(Debug, PartialEq, Eq)]
pub enum InstallAction {
    /// Feed the installation program to this command on the other machine.
    RunScript { command: String },
    /// Run `cargo` on this machine.
    Cargo { arguments: Vec<String> },
    NameRoot,
    /// Run this command on the other machine, with the file as its input where there is one.
    Ssh { command: String, input: Option<String> },
    Nothing,
}

/// The package of a crate in `workspace`.
pub open spec fn package_path(workspace: Seq<char>, name: Seq<char>, version: Seq<char>) -> Seq<char> {
    joined(joined(workspace, "target/package"@), name + version + ".crate"@)
}

/// Whether `action` runs a command on the other machine, with the given input.
pub open spec fn asks_ssh(action: InstallAction, command: Seq<char>, input: Option<Seq<char>>) -> bool {
    action matches InstallAction::Ssh { command: c, input: i } && c@ == command
        && text_of(i) == input
}

impl InstallCourse {
    /// Whether `action` is what has to be done next.
    pub open spec fn asks(self, action: InstallAction) -> bool {
        let workspace = self.workspace->Some_0@;
        let root = self.remote_root->Some_0@;
        let version = self.config.server_version@;
        match self.phase {
            InstallPhase::Check => action matches InstallAction::RunScript { command } && command@
                == quoted_words(install_words(self.config, ""@, true)),
            InstallPhase::PackageProtocol => action matches InstallAction::Cargo { arguments }
                && texts(arguments@) == seq![
                "package"@,
                "--manifest-path"@,
                joined(workspace, "crates/file-peeker-protocol/Cargo.toml"@),
                "--allow-dirty"@,
                "--no-verify"@,
            ],
            InstallPhase::PackageServer => action matches InstallAction::Cargo { arguments }
                && texts(arguments@) == seq![
                "package"@,
                "--manifest-path"@,
                joined(workspace, "crates/file-peeker-server/Cargo.toml"@),
                "--allow-dirty"@,
                "--no-verify"@,
                "--config"@,
                "patch.crates-io.file-peeker-protocol.path='"@ + joined(
                    workspace,
                    "crates/file-peeker-protocol"@,
                ) + "'"@,
            ],
            InstallPhase::NameRoot => action is NameRoot,
            InstallPhase::MakeRoot => asks_ssh(action, "mkdir -m 700 '"@ + root + "'"@, None),
            InstallPhase::SendProtocol => asks_ssh(
                action,
                "cat > '"@ + root + "/protocol.crate"@ + "'"@,
                Some(package_path(workspace, "file-peeker-protocol-"@, version)),
            ),
            InstallPhase::SendServer => asks_ssh(
                action,
                "cat > '"@ + root + "/server.crate"@ + "'"@,
                Some(package_path(workspace, "file-peeker-server-"@, version)),
            ),
            InstallPhase::Install => action matches InstallAction::RunScript { command } && command@
                == quoted_words(
                install_words(
                    self.config,
                    if self.remote_root is Some {
                        root
                    } else {
                        ""@
                    },
                    false,
                ),
            ),
            InstallPhase::CleanUp(_) => asks_ssh(action, "rm -rf '"@ + root + "'"@, None),
            InstallPhase::Finished(_) => action is Nothing,
        }
    }

    /// What has to be done next.
    pub fn action(&self) -> (r: InstallAction)
        requires
            self.wf(),
        ensures
            self.asks(r),
    {
        let workspace = match &self.workspace {
            Some(workspace) => workspace.as_str(),
            None => "",
        };
        let root = match &self.remote_root {
            Some(root) => root.as_str(),
            None => "",
        };
        match &self.phase {
            InstallPhase::Check => InstallAction::RunScript {
                command: build_remote_command(&self.config, "", true),
            },
            InstallPhase::PackageProtocol => InstallAction::Cargo {
                arguments: package_protocol_arguments(workspace),
            },
            InstallPhase::PackageServer => InstallAction::Cargo {
                arguments: package_server_arguments(workspace),
            },
            InstallPhase::NameRoot => InstallAction::NameRoot,
            InstallPhase::MakeRoot => InstallAction::Ssh {
                command: concat3("mkdir -m 700 '", root, "'"),
                input: None,
            },
            InstallPhase::SendProtocol => {
                let name = concat3("file-peeker-protocol-", &self.config.server_version, ".crate");
                let packages = join(workspace, "target/package");
                InstallAction::Ssh {
                    command: concat4("cat > '", root, "/protocol.crate", "'"),
                    input: Some(join(&packages, &name)),
                }
            },
            InstallPhase::SendServer => {
                let name = concat3("file-peeker-server-", &self.config.server_version, ".crate");
                let packages = join(workspace, "target/package");
                InstallAction::Ssh {
                    command: concat4("cat > '", root, "/server.crate", "'"),
                    input: Some(join(&packages, &name)),
                }
            },
            InstallPhase::Install => InstallAction::RunScript {
                command: build_remote_command(&self.config, root, false),
            },
            InstallPhase::CleanUp(_) => InstallAction::Ssh {
                command: concat3("rm -rf '", root, "'"),
                input: None,
            },
            InstallPhase::Finished(_) => InstallAction::Nothing,
        }
    }
}

} // verus!
