//! The course of an installation: check, package, transfer, install, clean up.

use vstd::prelude::*;

use crate::install::{
    diagnostics_text, format_diagnostics, InstallErrorView, RemoteInstallConfig, RemoteInstallError,
};
use crate::startup::diagnostics::BoundedOutput;
use crate::text::{concat2, concat3, concat4, push_text, texts};
use crate::unix_path::{join, joined, parent, parent_path};

verus! {

/// What came of feeding a program to a shell on the other machine.
#[derive(Debug, PartialEq, Eq)]
pub enum ScriptOutcome {
    NotSpawned(String),
    NoStdin,
    NoStdout,
    NoStderr,
    NotWritten(String),
    NotAwaited(String),
    TimedOut,
    NotRead(String),
    Exited { success: bool, code: Option<i32>, stdout: BoundedOutput, stderr: BoundedOutput },
}

/// The time allowed by a configuration, in whole milliseconds.
pub open spec fn timeout_millis(config: RemoteInstallConfig) -> u128 {
    (config.timeout_nanos / 1_000_000) as u128
}

/// Why feeding a program to a shell did not succeed, if it did not.
pub open spec fn script_error(config: RemoteInstallConfig, outcome: ScriptOutcome) -> Option<
    InstallErrorView,
> {
    match outcome {
        ScriptOutcome::NotSpawned(words) => Some(InstallErrorView::Spawn(words@)),
        ScriptOutcome::NoStdin => Some(InstallErrorView::Io("SSH stdin was not available"@)),
        ScriptOutcome::NoStdout => Some(InstallErrorView::Io("SSH stdout was not available"@)),
        ScriptOutcome::NoStderr => Some(InstallErrorView::Io("SSH stderr was not available"@)),
        ScriptOutcome::NotWritten(words) => Some(InstallErrorView::Io(words@)),
        ScriptOutcome::NotAwaited(words) => Some(InstallErrorView::Io(words@)),
        ScriptOutcome::TimedOut => Some(InstallErrorView::Timeout(timeout_millis(config))),
        ScriptOutcome::NotRead(words) => Some(InstallErrorView::Io(words@)),
        ScriptOutcome::Exited { success, code, stdout, stderr } => if success {
            None
        } else {
            Some(InstallErrorView::Failed(diagnostics_text(code, stdout, stderr)))
        },
    }
}

/// The output of the program, or why there is none.
pub fn run_remote_script(config: &RemoteInstallConfig, outcome: ScriptOutcome) -> (r: Result<
    BoundedOutput,
    RemoteInstallError,
>)
    ensures
        match r {
            Ok(output) => script_error(*config, outcome) is None && outcome is Exited && output
                == outcome->Exited_stdout,
            Err(e) => script_error(*config, outcome) == Some(e@),
        },
{
    match outcome {
        ScriptOutcome::NotSpawned(words) => Err(RemoteInstallError::Spawn(words)),
        ScriptOutcome::NoStdin => Err(
            RemoteInstallError::Io("SSH stdin was not available".to_owned()),
        ),
        ScriptOutcome::NoStdout => Err(
            RemoteInstallError::Io("SSH stdout was not available".to_owned()),
        ),
        ScriptOutcome::NoStderr => Err(
            RemoteInstallError::Io("SSH stderr was not available".to_owned()),
        ),
        ScriptOutcome::NotWritten(words) => Err(RemoteInstallError::Io(words)),
        ScriptOutcome::NotAwaited(words) => Err(RemoteInstallError::Io(words)),
        ScriptOutcome::TimedOut => Err(
            RemoteInstallError::Timeout(config.timeout_nanos / 1_000_000),
        ),
        ScriptOutcome::NotRead(words) => Err(RemoteInstallError::Io(words)),
        ScriptOutcome::Exited { success, code, stdout, stderr } => {
            if success {
                Ok(stdout)
            } else {
                Err(
                    RemoteInstallError::Failed {
                        diagnostics: format_diagnostics(code, &stdout, &stderr),
                    },
                )
            }
        },
    }
}

/// What came of a plain command on the other machine.
#[derive(Debug, PartialEq, Eq)]
pub enum SshOutcome {
    /// The file to send could not be read.
    NoInput { path: String, words: String },
    NotSpawned(String),
    NoStdin,
    NotWritten(String),
    TimedOut,
    NotAwaited(String),
    Exited { success: bool, status: String },
}

/// Why a plain command did not succeed, if it did not.
pub open spec fn ssh_error(config: RemoteInstallConfig, outcome: SshOutcome) -> Option<
    InstallErrorView,
> {
    match outcome {
        SshOutcome::NoInput { path, words } => Some(
            InstallErrorView::Io("cannot read "@ + path@ + ": "@ + words@),
        ),
        SshOutcome::NotSpawned(words) => Some(InstallErrorView::Spawn(words@)),
        SshOutcome::NoStdin => Some(InstallErrorView::Io("SSH stdin was not available"@)),
        SshOutcome::NotWritten(words) => Some(InstallErrorView::Io(words@)),
        SshOutcome::TimedOut => Some(InstallErrorView::Timeout(timeout_millis(config))),
        SshOutcome::NotAwaited(words) => Some(InstallErrorView::Io(words@)),
        SshOutcome::Exited { success, status } => if success {
            None
        } else {
            Some(InstallErrorView::Failed("SSH exited with "@ + status@))
        },
    }
}

/// Reads off whether a plain command has succeeded.
pub fn run_workspace_ssh(config: &RemoteInstallConfig, outcome: SshOutcome) -> (r: Result<
    (),
    RemoteInstallError,
>)
    ensures
        match r {
            Ok(_) => ssh_error(*config, outcome) is None,
            Err(e) => ssh_error(*config, outcome) == Some(e@),
        },
{
    match outcome {
        SshOutcome::NoInput { path, words } => Err(
            RemoteInstallError::Io(concat4("cannot read ", &path, ": ", &words)),
        ),
        SshOutcome::NotSpawned(words) => Err(RemoteInstallError::Spawn(words)),
        SshOutcome::NoStdin => Err(
            RemoteInstallError::Io("SSH stdin was not available".to_owned()),
        ),
        SshOutcome::NotWritten(words) => Err(RemoteInstallError::Io(words)),
        SshOutcome::TimedOut => Err(
            RemoteInstallError::Timeout(config.timeout_nanos / 1_000_000),
        ),
        SshOutcome::NotAwaited(words) => Err(RemoteInstallError::Io(words)),
        SshOutcome::Exited { success, status } => {
            if success {
                Ok(())
            } else {
                Err(RemoteInstallError::Failed { diagnostics: concat2("SSH exited with ", &status) })
            }
        },
    }
}

/// What came of a `cargo` command on this machine.
#[derive(Debug, PartialEq, Eq)]
pub enum CargoOutcome {
    NotSpawned(String),
    Exited { success: bool, status: String },
}

/// Why a `cargo` command did not succeed, if it did not.
pub open spec fn cargo_error(outcome: CargoOutcome, action: Seq<char>) -> Option<InstallErrorView> {
    match outcome {
        CargoOutcome::NotSpawned(words) => Some(
            InstallErrorView::Spawn("cannot "@ + action + ": "@ + words@),
        ),
        CargoOutcome::Exited { success, status } => if success {
            None
        } else {
            Some(InstallErrorView::Failed("failed to "@ + action + ": "@ + status@))
        },
    }
}

/// Reads off whether a `cargo` command has succeeded.
pub fn run_local_cargo(outcome: CargoOutcome, action: &str) -> (r: Result<(), RemoteInstallError>)
    ensures
        match r {
            Ok(_) => cargo_error(outcome, action@) is None,
            Err(e) => cargo_error(outcome, action@) == Some(e@),
        },
{
    match outcome {
        CargoOutcome::NotSpawned(words) => Err(
            RemoteInstallError::Spawn(concat4("cannot ", action, ": ", &words)),
        ),
        CargoOutcome::Exited { success, status } => {
            if success {
                Ok(())
            } else {
                Err(
                    RemoteInstallError::Failed {
                        diagnostics: concat4("failed to ", action, ": ", &status),
                    },
                )
            }
        },
    }
}

/// The directory two levels above a package's.
pub open spec fn workspace_of(manifest_dir: Seq<char>) -> Option<Seq<char>> {
    match parent_path(manifest_dir) {
        Some(above) => parent_path(above),
        None => None,
    }
}

/// The workspace that the package at `manifest_dir` belongs to.
pub fn workspace_root(manifest_dir: &str) -> (r: Result<String, RemoteInstallError>)
    ensures
        match r {
            Ok(root) => workspace_of(manifest_dir@) == Some(root@),
            Err(e) => workspace_of(manifest_dir@) is None && e@ == InstallErrorView::InvalidConfig(
                "cannot locate workspace root"@,
            ),
        },
{
    let root = match parent(manifest_dir) {
        Some(above) => parent(&above),
        None => None,
    };
    match root {
        Some(root) => Ok(root),
        None => Err(RemoteInstallError::InvalidConfig("cannot locate workspace root".to_owned())),
    }
}

/// The arguments for `cargo` that package the protocol.
pub fn package_protocol_arguments(workspace: &str) -> (r: Vec<String>)
    ensures
        texts(r@) == seq![
            "package"@,
            "--manifest-path"@,
            joined(workspace@, "crates/file-peeker-protocol/Cargo.toml"@),
            "--allow-dirty"@,
            "--no-verify"@,
        ],
{
    let manifest = join(workspace, "crates/file-peeker-protocol/Cargo.toml");
    let mut v: Vec<String> = Vec::new();
    push_text(&mut v, "package");
    push_text(&mut v, "--manifest-path");
    push_text(&mut v, &manifest);
    push_text(&mut v, "--allow-dirty");
    push_text(&mut v, "--no-verify");
    proof {
        assert(texts(v@) =~= seq![
            "package"@,
            "--manifest-path"@,
            manifest@,
            "--allow-dirty"@,
            "--no-verify"@,
        ]);
    }
    v
}

/// The arguments for `cargo` that package the server.
pub fn package_server_arguments(workspace: &str) -> (r: Vec<String>)
    ensures
        texts(r@) == seq![
            "package"@,
            "--manifest-path"@,
            joined(workspace@, "crates/file-peeker-server/Cargo.toml"@),
            "--allow-dirty"@,
            "--no-verify"@,
            "--config"@,
            "patch.crates-io.file-peeker-protocol.path='"@ + joined(
                workspace@,
                "crates/file-peeker-protocol"@,
            ) + "'"@,
        ],
{
    let manifest = join(workspace, "crates/file-peeker-server/Cargo.toml");
    let protocol = join(workspace, "crates/file-peeker-protocol");
    let patch = concat3("patch.crates-io.file-peeker-protocol.path='", &protocol, "'");
    let mut v: Vec<String> = Vec::new();
    push_text(&mut v, "package");
    push_text(&mut v, "--manifest-path");
    push_text(&mut v, &manifest);
    push_text(&mut v, "--allow-dirty");
    push_text(&mut v, "--no-verify");
    push_text(&mut v, "--config");
    push_text(&mut v, &patch);
    proof {
        assert(texts(v@) =~= seq![
            "package"@,
            "--manifest-path"@,
            manifest@,
            "--allow-dirty"@,
            "--no-verify"@,
            "--config"@,
            patch@,
        ]);
    }
    v
}

} // verus!
