//! Installing a server on another machine, from a release or from a project directory.

use vstd::prelude::*;

use crate::connection::lines::{
    ensure_command_text, ensure_server_command, is_whole, reported, InstallerLine, SERVER_ERROR_PREFIX,
    SERVER_READY_PREFIX,
};
use crate::io_error::{io_failure, IoError, IoErrorKind, IoErrorView};
use crate::shell::{quoted, shell_quote};
use crate::startup::PACKAGE_VERSION;
use crate::text::{
    concat2, concat4, concat5, ends_with_char, strip_prefix, trim_end, CharClass,
};

verus! {

/// Where a project directory is copied to on the other machine.
pub const DEFAULT_REMOTE_PROJECT_DIR: &'static str = ".file-peeker/debug/repo";

/// What ends the installer program in the command that carries it.
pub const SOURCE_INSTALL_HEREDOC: &'static str = "FILE_PEEKER_SOURCE_INSTALL_SCRIPT";

/// The shell program that installs a server from a project directory. Its arguments are the
/// version, whether to install it in any case, and the directory.
pub const SOURCE_INSTALL_SCRIPT: &'static str = "set -u

server_version=$1
force_install=$2
source_root=$3
server_root=\"$HOME/.file-peeker/servers/$server_version\"
server_executable=\"$server_root/bin/file-peeker-server\"

if [ \"$force_install\" != true ] && [ -x \"$server_executable\" ]; then
    printf '%s\\n' \"FILE_PEEKER_SERVER_READY=$server_executable\"
    exit 0
fi

if ! command -v cargo >/dev/null 2>&1; then
    printf '%s\\n' 'FILE_PEEKER_SERVER_ERROR=cargo was not found'
    exit 1
fi

if ! cargo install \\
    --path \"$source_root/crates/file-peeker-server\" \\
    --root \"$server_root\" \\
    --force 2>&1; then
    printf '%s\\n' 'FILE_PEEKER_SERVER_ERROR=server installation failed'
    exit 1
fi

if [ -x \"$server_executable\" ]; then
    printf '%s\\n' \"FILE_PEEKER_SERVER_READY=$server_executable\"
else
    printf '%s\\n' 'FILE_PEEKER_SERVER_ERROR=server executable was not installed'
    exit 1
fi
";

/// The command that hands the installer program to a shell.
pub open spec fn source_command_text(force_install: bool, source: Seq<char>) -> Seq<char> {
    let force = if force_install {
        "true"@
    } else {
        "false"@
    };
    "sh -s -- '"@ + PACKAGE_VERSION@ + "' '"@ + force + "' "@ + (quoted(source) + " <<'"@
        + SOURCE_INSTALL_HEREDOC@ + "'\n"@) + (SOURCE_INSTALL_SCRIPT@ + SOURCE_INSTALL_HEREDOC@
        + "\n"@)
}

/// The command that hands the installer program to a shell.
pub fn source_install_command(force_install: bool, source: &str) -> (r: String)
    ensures
        r@ == source_command_text(force_install, source@),
{
    let force = if force_install {
        "true"
    } else {
        "false"
    };
    let source = shell_quote(source);
    let head = concat5("sh -s -- '", PACKAGE_VERSION, "' '", force, "' ");
    let middle = concat4(&source, " <<'", SOURCE_INSTALL_HEREDOC, "'\n");
    let body = concat2(SOURCE_INSTALL_SCRIPT, SOURCE_INSTALL_HEREDOC);
    let tail = concat2(&body, "\n");
    let front = concat2(&head, &middle);
    concat2(&front, &tail)
}

/// The command that installs a server on another machine: from the sources that were uploaded to it,
/// else the released one.
pub fn remote_installer_command(force_install: bool, from_source: bool) -> (r: String)
    ensures
        r@ == (if from_source {
            source_command_text(force_install, DEFAULT_REMOTE_PROJECT_DIR@)
        } else {
            ensure_command_text(force_install)
        }),
{
    if from_source {
        source_install_command(force_install, DEFAULT_REMOTE_PROJECT_DIR)
    } else {
        ensure_server_command(force_install)
    }
}

/// The command that unpacks an archive below `directory`.
pub open spec fn extract_text(directory: Seq<char>) -> Seq<char> {
    "mkdir -p "@ + quoted(directory) + " && tar -xzf - -C "@ + quoted(directory)
}

/// The command that unpacks an archive below `remote_project_dir`.
pub fn remote_extract_command(remote_project_dir: &str) -> (r: String)
    ensures
        r@ == extract_text(remote_project_dir@),
{
    let directory = shell_quote(remote_project_dir);
    concat4("mkdir -p ", &directory, " && tar -xzf - -C ", &directory)
}

/// The error of an installer that stopped printing before it reported a result.
pub open spec fn silent_source_installer() -> IoErrorView {
    io_failure(
        IoErrorKind::UnexpectedEof,
        "source installer closed stdout before reporting a result"@,
    )
}

/// Reads one line of the output of an installation from a project directory.
pub fn run_source_installer(line: &str) -> (r: Result<InstallerLine, IoError>)
    ensures
        if !is_whole(line@) {
            r matches Err(e) && e@ == silent_source_installer()
        } else {
            match reported(line@, SERVER_READY_PREFIX@) {
                Some(executable) => r matches Ok(InstallerLine::Ready(found)) && found@
                    == executable,
                None => match reported(line@, SERVER_ERROR_PREFIX@) {
                    Some(message) => r matches Err(e) && e@ == io_failure(
                        IoErrorKind::Other,
                        message,
                    ),
                    None => r matches Ok(InstallerLine::Show),
                },
            }
        },
{
    if !ends_with_char(line, '\n') {
        return Err(
            IoError::new(
                IoErrorKind::UnexpectedEof,
                "source installer closed stdout before reporting a result",
            ),
        );
    }
    let text = trim_end(line, CharClass::LineEnd);
    match strip_prefix(&text, SERVER_READY_PREFIX) {
        Some(executable) => {
            return Ok(InstallerLine::Ready(executable));
        },
        None => {},
    }
    match strip_prefix(&text, SERVER_ERROR_PREFIX) {
        Some(message) => Err(IoError { kind: IoErrorKind::Other, message }),
        None => Ok(InstallerLine::Show),
    }
}

/// What an installation reports once its shell was told to leave and has ended: a failure of that
/// first, then what the installer came to.
pub fn finish_installer(
    executable: Result<String, IoError>,
    told: Result<(), IoError>,
    ended: Result<(), IoError>,
) -> (r: Result<String, IoError>)
    ensures
        r == (match (told, ended) {
            (Err(e), _) => Err(e),
            (Ok(_), Err(e)) => Err(e),
            (Ok(_), Ok(_)) => executable,
        }),
{
    match (told, ended) {
        (Err(e), _) => Err(e),
        (Ok(_), Err(e)) => Err(e),
        (Ok(_), Ok(_)) => executable,
    }
}

} // verus!
