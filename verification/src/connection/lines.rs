//! What servers and their installers print: lines that report something, among others.

use vstd::prelude::*;

use crate::io_error::{io_failure, IoError, IoErrorKind, IoErrorView};
use crate::startup::PACKAGE_VERSION;
use crate::text::{
    concat2, concat5, ends_with_char, has_prefix, strip_prefix, trim_end, trimmed_end, CharClass,
};

verus! {

/// What a server's startup report starts with.
pub const SERVER_STARTUP_PREFIX: &'static str = "FILE_PEEKER_SERVER_STARTUP=";

/// What an installer's report of the executable starts with.
pub const SERVER_READY_PREFIX: &'static str = "FILE_PEEKER_SERVER_READY=";

/// What an installer's report of a failure starts with.
pub const SERVER_ERROR_PREFIX: &'static str = "FILE_PEEKER_SERVER_ERROR=";

/// What ends the installer program in the command that carries it.
pub const ENSURE_SERVER_HEREDOC: &'static str = "FILE_PEEKER_ENSURE_SERVER_SCRIPT";

/// The shell program that makes sure that a server is installed. Its arguments are the version and
/// whether to install it in any case.
pub const ENSURE_SERVER_SCRIPT: &'static str = "set -u

server_version=$1
force_install=$2
server_root=\"$HOME/.file-peeker/servers/$server_version\"
server_executable=\"$server_root/bin/file-peeker-server\"

if [ \"$force_install\" != true ] && [ -x \"$server_executable\" ]; then
    printf '%s\\n' \"FILE_PEEKER_SERVER_READY=$server_executable\"
    exit 0
fi

if ! command -v cargo >/dev/null 2>&1; then
    printf '%s\\n' 'FILE_PEEKER_SERVER_ERROR=cargo was not found'
    exit 1
fi

if ! cargo install \\
    --git https://github.com/tanchihpin0517/file-peeker.git \\
    --locked \\
    --force \\
    --root \"$server_root\" \\
    --version \"$server_version\" \\
    --bin file-peeker-server \\
    file-peeker-server 2>&1; then
    printf '%s\\n' 'FILE_PEEKER_SERVER_ERROR=server installation failed'
    exit 1
fi

if [ -x \"$server_executable\" ]; then
    printf '%s\\n' \"FILE_PEEKER_SERVER_READY=$server_executable\"
else
    printf '%s\\n' 'FILE_PEEKER_SERVER_ERROR=server executable was not installed'
    exit 1
fi
";

/// The command that hands the installer program to a shell.
pub open spec fn ensure_command_text(force_install: bool) -> Seq<char> {
    let force = if force_install {
        "true"@
    } else {
        "false"@
    };
    "sh -s -- '"@ + PACKAGE_VERSION@ + "' '"@ + force + "' <<'"@ + (ENSURE_SERVER_HEREDOC@ + "'\n"@
        + ENSURE_SERVER_SCRIPT@ + ENSURE_SERVER_HEREDOC@ + "\n"@)
}

/// The command that hands the installer program to a shell.
pub fn ensure_server_command(force_install: bool) -> (r: String)
    ensures
        r@ == ensure_command_text(force_install),
{
    let force = if force_install {
        "true"
    } else {
        "false"
    };
    let head = concat5("sh -s -- '", PACKAGE_VERSION, "' '", force, "' <<'");
    let body = concat5(
        ENSURE_SERVER_HEREDOC,
        "'\n",
        ENSURE_SERVER_SCRIPT,
        ENSURE_SERVER_HEREDOC,
        "\n",
    );
    concat2(&head, &body)
}

/// Whether `line`, read up to and including the next line feed, is whole: the output did not end
/// before or in it.
pub open spec fn is_whole(line: Seq<char>) -> bool {
    line.len() > 0 && line.last() == '\n'
}

/// What `line` reports under `prefix`, if it does.
pub open spec fn reported(line: Seq<char>, prefix: Seq<char>) -> Option<Seq<char>> {
    let text = trimmed_end(line, CharClass::LineEnd);
    if has_prefix(text, prefix) {
        Some(text.skip(prefix.len() as int))
    } else {
        None
    }
}

/// What `line` reports under `prefix`, if it does.
fn report(line: &str, prefix: &str) -> (r: Option<String>)
    ensures
        match r {
            Some(text) => reported(line@, prefix@) == Some(text@),
            None => reported(line@, prefix@) is None,
        },
{
    let text = trim_end(line, CharClass::LineEnd);
    strip_prefix(&text, prefix)
}

/// The error of a server that stopped printing before it reported its startup.
pub open spec fn silent_server() -> IoErrorView {
    io_failure(IoErrorKind::UnexpectedEof, "server closed stdout before reporting startup"@)
}

/// The startup document that a server reports by `lines`: the one of the first line that reports
/// one, if the output does not end before. Nothing is said while the lines so far report nothing.
pub open spec fn startup_document(lines: Seq<Seq<char>>) -> Option<Result<Seq<char>, IoErrorView>>
    decreases lines.len(),
{
    if lines.len() == 0 {
        None
    } else if !is_whole(lines[0]) {
        Some(Err(silent_server()))
    } else {
        match reported(lines[0], SERVER_STARTUP_PREFIX@) {
            Some(json) => Some(Ok(json)),
            None => startup_document(lines.skip(1)),
        }
    }
}

/// Reads one line of a server's output: its startup document, if it reports it, or nothing.
pub fn read_startup_line(line: &str) -> (r: Result<Option<String>, IoError>)
    ensures
        match r {
            Err(e) => !is_whole(line@) && e@ == silent_server(),
            Ok(Some(json)) => is_whole(line@) && reported(line@, SERVER_STARTUP_PREFIX@) == Some(
                json@,
            ),
            Ok(None) => is_whole(line@) && reported(line@, SERVER_STARTUP_PREFIX@) is None,
        },
{
    if !ends_with_char(line, '\n') {
        return Err(
            IoError::new(
                IoErrorKind::UnexpectedEof,
                "server closed stdout before reporting startup",
            ),
        );
    }
    Ok(report(line, SERVER_STARTUP_PREFIX))
}

/// Whatever a server prints before its startup report is ignored.
pub proof fn law_output_before_startup_is_ignored(noise: Seq<Seq<char>>, rest: Seq<Seq<char>>)
    requires
        forall|i: int|
            0 <= i < noise.len() ==> is_whole(#[trigger] noise[i]) && reported(
                noise[i],
                SERVER_STARTUP_PREFIX@,
            ) is None,
    ensures
        startup_document(noise + rest) == startup_document(rest),
    decreases noise.len(),
{
    if noise.len() == 0 {
        assert(noise + rest =~= rest);
    } else {
        let tail = noise.skip(1);
        assert((noise + rest)[0] == noise[0]);
        assert((noise + rest).skip(1) =~= tail + rest);
        assert forall|i: int| 0 <= i < tail.len() implies is_whole(#[trigger] tail[i]) && reported(
            tail[i],
            SERVER_STARTUP_PREFIX@,
        ) is None by {
            assert(tail[i] == noise[i + 1]);
        }
        law_output_before_startup_is_ignored(tail, rest);
    }
}

/// Information reported by a server that has started.
#[derive(Debug, PartialEq, Eq)]
pub struct ConnectionInfo {
    pub server_port: u16,
    pub token: String,
}

impl Clone for ConnectionInfo {
    fn clone(&self) -> (r: Self)
        ensures
            r == *self,
    {
        ConnectionInfo { server_port: self.server_port, token: self.token.clone() }
    }
}

/// The members of a startup document, or the words about why it is none.
#[derive(Debug, PartialEq, Eq)]
pub struct StartupDocument {
    pub port: u16,
    pub token: String,
}

/// What is wrong with a startup document, if anything.
pub open spec fn startup_error(document: Result<StartupDocument, String>) -> Option<IoErrorView> {
    match document {
        Err(words) => Some(
            io_failure(
                IoErrorKind::InvalidData,
                "server reported invalid startup JSON: "@ + words@,
            ),
        ),
        Ok(document) => if document.token@.len() == 0 {
            Some(io_failure(IoErrorKind::InvalidData, "server reported an empty token"@))
        } else {
            None
        },
    }
}

/// Reads a decoded startup document.
pub fn read_server_startup(document: Result<StartupDocument, String>) -> (r: Result<
    ConnectionInfo,
    IoError,
>)
    ensures
        match r {
            Ok(info) => {
                &&& startup_error(document) is None
                &&& document matches Ok(d) && info.server_port == d.port && info.token == d.token
            },
            Err(e) => startup_error(document) == Some(e@),
        },
{
    match document {
        Err(words) => Err(
            IoError {
                kind: IoErrorKind::InvalidData,
                message: concat2("server reported invalid startup JSON: ", &words),
            },
        ),
        Ok(document) => {
            if document.token.as_str().is_empty() {
                return Err(
                    IoError::new(IoErrorKind::InvalidData, "server reported an empty token"),
                );
            }
            Ok(ConnectionInfo { server_port: document.port, token: document.token })
        },
    }
}

/// The error of an installer that stopped printing before it reported a result.
pub open spec fn silent_installer() -> IoErrorView {
    io_failure(
        IoErrorKind::UnexpectedEof,
        "server installer closed stdout before reporting a result"@,
    )
}

/// What a line of an installer's output comes to.
#[derive(Debug, PartialEq, Eq)]
pub enum InstallerLine {
    /// The server's executable.
    Ready(String),
    /// The line reports nothing and is to be shown.
    Show,
}

/// Reads one line of an installer's output.
pub fn ensure_server_executable(line: &str) -> (r: Result<InstallerLine, IoError>)
    ensures
        if !is_whole(line@) {
            r matches Err(e) && e@ == silent_installer()
        } else {
            match reported(line@, SERVER_READY_PREFIX@) {
                Some(executable) => r matches Ok(InstallerLine::Ready(found)) && found@
                    == executable,
                None => match reported(line@, SERVER_ERROR_PREFIX@) {
                    Some(message) => r matches Err(e) && e@ == io_failure(
                        IoErrorKind::Other,
                        message,
                    ),
                    None => r matches Ok(InstallerLine::Show),
                },
            }
        },
{
    if !ends_with_char(line, '\n') {
        return Err(
            IoError::new(
                IoErrorKind::UnexpectedEof,
                "server installer closed stdout before reporting a result",
            ),
        );
    }
    match report(line, SERVER_READY_PREFIX) {
        Some(executable) => {
            return Ok(InstallerLine::Ready(executable));
        },
        None => {},
    }
    match report(line, SERVER_ERROR_PREFIX) {
        Some(message) => Err(IoError { kind: IoErrorKind::Other, message }),
        None => Ok(InstallerLine::Show),
    }
}

} // verus!
