//! What is asked of `ssh`, and what its answers mean.

use vstd::prelude::*;
use vstd::utf8::{decode_utf8, valid_utf8};

use crate::api::{ErrorView, FilePeekerError};
use crate::bytes::{lossy, lossy_text, utf8, utf8_error_text};
use crate::io_error::IoError;
use crate::startup::runtime::start_failure;
use crate::text::{
    concat2, concat3, concat5, contains_char, push_text, starts_with_char, texts, trim, trim_end,
    trimmed, trimmed_end, CharClass,
};
use crate::unix_path::{is_absolute, is_absolute_path};

verus! {

/// How long a person may take to authenticate, in milliseconds.
pub const AUTHENTICATION_TIMEOUT_MS: u64 = 300000;

/// How long one check of the control master may take, in milliseconds.
pub const MASTER_CHECK_TIMEOUT_MS: u64 = 1000;

/// The command that prints the home directory on the other machine.
pub const HOME_QUERY: &'static str = "printf '%s\\n' \"$HOME\"";

/// Whether `destination` can be handed to `ssh` as a destination, not as an option.
pub open spec fn is_destination(destination: Seq<char>) -> bool {
    destination.len() > 0 && destination[0] != '-'
}

/// Accepts what `ssh` will take as a destination.
pub fn validate_destination(destination: &str) -> (r: Result<(), FilePeekerError>)
    ensures
        r is Ok <==> is_destination(destination@),
        r matches Err(e) ==> e@ == start_failure(
            "SSH destination is required and must not begin with `-`"@,
        ),
{
    if destination.is_empty() || starts_with_char(destination, '-') {
        return Err(
            FilePeekerError::ServerStart {
                message: "SSH destination is required and must not begin with `-`".to_owned(),
            },
        );
    }
    Ok(())
}

/// The arguments that make `ssh` use a control master and never ask anything.
pub open spec fn multiplex_words(control_socket: Seq<char>) -> Seq<Seq<char>> {
    seq!["-S"@, control_socket, "-o"@, "ControlMaster=no"@, "-o"@, "BatchMode=yes"@]
}

/// The arguments that make `ssh` use a control master and never ask anything.
pub fn multiplex_arguments(control_socket: &str) -> (r: Vec<String>)
    ensures
        texts(r@) == multiplex_words(control_socket@),
{
    let mut v: Vec<String> = Vec::new();
    push_text(&mut v, "-S");
    push_text(&mut v, control_socket);
    push_text(&mut v, "-o");
    push_text(&mut v, "ControlMaster=no");
    push_text(&mut v, "-o");
    push_text(&mut v, "BatchMode=yes");
    proof {
        assert(texts(v@) =~= multiplex_words(control_socket@));
    }
    v
}

/// The arguments that start a control master.
pub fn master_arguments(control_socket: &str, destination: &str) -> (r: Vec<String>)
    ensures
        texts(r@) == seq![
            "-M"@,
            "-S"@,
            control_socket@,
            "-o"@,
            "ControlPersist=no"@,
            "-N"@,
            "-T"@,
            destination@,
        ],
{
    let mut v: Vec<String> = Vec::new();
    push_text(&mut v, "-M");
    push_text(&mut v, "-S");
    push_text(&mut v, control_socket);
    push_text(&mut v, "-o");
    push_text(&mut v, "ControlPersist=no");
    push_text(&mut v, "-N");
    push_text(&mut v, "-T");
    push_text(&mut v, destination);
    proof {
        assert(texts(v@) =~= seq![
            "-M"@,
            "-S"@,
            control_socket@,
            "-o"@,
            "ControlPersist=no"@,
            "-N"@,
            "-T"@,
            destination@,
        ]);
    }
    v
}

/// The arguments that put `request` to a running control master.
pub fn control_arguments(control_socket: &str, request: &str, destination: &str) -> (r: Vec<String>)
    ensures
        texts(r@) == seq!["-S"@, control_socket@, "-O"@, request@, destination@],
{
    let mut v: Vec<String> = Vec::new();
    push_text(&mut v, "-S");
    push_text(&mut v, control_socket);
    push_text(&mut v, "-O");
    push_text(&mut v, request);
    push_text(&mut v, destination);
    proof {
        assert(texts(v@) =~= seq!["-S"@, control_socket@, "-O"@, request@, destination@]);
    }
    v
}

/// The arguments that start or cancel a forwarding through a running control master.
pub fn forward_arguments(
    operation: &str,
    control_socket: &str,
    forward: &str,
    destination: &str,
) -> (r: Vec<String>)
    ensures
        texts(r@) == seq![
            "-S"@,
            control_socket@,
            "-O"@,
            operation@,
            "-o"@,
            "ExitOnForwardFailure=yes"@,
            "-o"@,
            "StreamLocalBindUnlink=yes"@,
            "-L"@,
            forward@,
            destination@,
        ],
{
    let mut v: Vec<String> = Vec::new();
    push_text(&mut v, "-S");
    push_text(&mut v, control_socket);
    push_text(&mut v, "-O");
    push_text(&mut v, operation);
    push_text(&mut v, "-o");
    push_text(&mut v, "ExitOnForwardFailure=yes");
    push_text(&mut v, "-o");
    push_text(&mut v, "StreamLocalBindUnlink=yes");
    push_text(&mut v, "-L");
    push_text(&mut v, forward);
    push_text(&mut v, destination);
    proof {
        assert(texts(v@) =~= seq![
            "-S"@,
            control_socket@,
            "-O"@,
            operation@,
            "-o"@,
            "ExitOnForwardFailure=yes"@,
            "-o"@,
            "StreamLocalBindUnlink=yes"@,
            "-L"@,
            forward@,
            destination@,
        ]);
    }
    v
}

/// The arguments that ask for the home directory on the other machine.
pub fn home_query_arguments(control_socket: &str, destination: &str) -> (r: Vec<String>)
    ensures
        texts(r@) == multiplex_words(control_socket@).push(destination@).push(HOME_QUERY@),
{
    let mut v = multiplex_arguments(control_socket);
    push_text(&mut v, destination);
    push_text(&mut v, HOME_QUERY);
    v
}

/// The arguments that run `remote_script` on the other machine.
pub fn launcher_arguments(control_socket: &str, destination: &str, remote_script: &str) -> (r: Vec<
    String,
>)
    ensures
        texts(r@) == multiplex_words(control_socket@).push("-T"@).push(destination@).push(
            remote_script@,
        ),
{
    let mut v = multiplex_arguments(control_socket);
    push_text(&mut v, "-T");
    push_text(&mut v, destination);
    push_text(&mut v, remote_script);
    v
}

/// What a finished command left behind.
#[derive(Debug, PartialEq, Eq)]
pub struct CommandOutput {
    pub success: bool,
    /// The exit status in words.
    pub status: String,
    pub stdout: Vec<u8>,
    pub stderr: Vec<u8>,
}

/// What came of running a command for a limited time.
#[derive(Debug, PartialEq, Eq)]
pub enum CommandOutcome {
    TimedOut,
    Failed(IoError),
    Finished(CommandOutput),
}

/// What the answer to the home query means: the home directory, or why there is none.
pub open spec fn home_answer(outcome: CommandOutcome) -> Result<Seq<char>, ErrorView> {
    match outcome {
        CommandOutcome::TimedOut => Err(
            start_failure("timed out querying the remote home directory"@),
        ),
        CommandOutcome::Failed(e) => Err(
            start_failure("cannot query the remote home directory: "@ + e@.message),
        ),
        CommandOutcome::Finished(output) => if !output.success {
            Err(
                start_failure(
                    "cannot query the remote home directory: SSH exited with "@ + output.status@,
                ),
            )
        } else if !valid_utf8(output.stdout@) {
            Err(
                start_failure(
                    "remote home directory is not valid UTF-8: "@ + utf8_error_text(output.stdout@),
                ),
            )
        } else {
            let home = trimmed_end(decode_utf8(output.stdout@), CharClass::LineEnd);
            if home.len() == 0 || home.contains('\r') || home.contains('\n') {
                Err(start_failure("remote home directory response was empty or malformed"@))
            } else if !is_absolute_path(home) {
                Err(start_failure("remote HOME must be an absolute path"@))
            } else {
                Ok(home)
            }
        },
    }
}

/// Whether a result is the one described.
pub open spec fn answers<T: View>(r: Result<T, FilePeekerError>, answer: Result<T::V, ErrorView>) -> bool {
    match (r, answer) {
        (Ok(value), Ok(expected)) => value@ == expected,
        (Err(error), Err(expected)) => error@ == expected,
        _ => false,
    }
}

fn start_error<T>(message: String) -> (r: Result<T, FilePeekerError>)
    ensures
        r matches Err(e) && e@ == start_failure(message@),
{
    Err(FilePeekerError::ServerStart { message })
}

/// Reads the home directory on the other machine out of what came of asking for it.
pub fn query_remote_home(outcome: &CommandOutcome) -> (r: Result<String, FilePeekerError>)
    ensures
        answers(r, home_answer(*outcome)),
{
    match outcome {
        CommandOutcome::TimedOut => start_error(
            "timed out querying the remote home directory".to_owned(),
        ),
        CommandOutcome::Failed(e) => start_error(
            concat2("cannot query the remote home directory: ", &e.message),
        ),
        CommandOutcome::Finished(output) => {
            if !output.success {
                return start_error(
                    concat2(
                        "cannot query the remote home directory: SSH exited with ",
                        &output.status,
                    ),
                );
            }
            let text = match utf8(output.stdout.as_slice()) {
                Ok(text) => text,
                Err(words) => {
                    return start_error(
                        concat2("remote home directory is not valid UTF-8: ", &words),
                    );
                },
            };
            let home = trim_end(&text, CharClass::LineEnd);
            if home.as_str().is_empty() || contains_char(&home, '\r') || contains_char(&home, '\n') {
                return start_error(
                    "remote home directory response was empty or malformed".to_owned(),
                );
            }
            if !is_absolute(&home) {
                return start_error("remote HOME must be an absolute path".to_owned());
            }
            Ok(home)
        },
    }
}

/// Why a forwarding request did not succeed, if it did not.
pub open spec fn forward_error(operation: Seq<char>, outcome: CommandOutcome) -> Option<ErrorView> {
    match outcome {
        CommandOutcome::TimedOut => Some(start_failure("timed out requesting SSH "@ + operation)),
        CommandOutcome::Failed(e) => Some(
            start_failure("cannot request SSH "@ + operation + ": "@ + e@.message),
        ),
        CommandOutcome::Finished(output) => if output.success {
            None
        } else {
            Some(
                start_failure(
                    "SSH "@ + operation + " failed with "@ + output.status@ + ": "@ + trimmed(
                        lossy_text(output.stderr@),
                    ),
                ),
            )
        },
    }
}

/// Reads off whether a forwarding request has succeeded.
pub fn change_forward(operation: &str, outcome: &CommandOutcome) -> (r: Result<(), FilePeekerError>)
    ensures
        match r {
            Ok(_) => forward_error(operation@, *outcome) is None,
            Err(e) => forward_error(operation@, *outcome) == Some(e@),
        },
{
    match outcome {
        CommandOutcome::TimedOut => start_error(concat2("timed out requesting SSH ", operation)),
        CommandOutcome::Failed(e) => {
            let head = concat3("cannot request SSH ", operation, ": ");
            start_error(concat2(&head, &e.message))
        },
        CommandOutcome::Finished(output) => {
            if output.success {
                return Ok(());
            }
            let text = lossy(output.stderr.as_slice());
            let shown = trim(&text);
            let head = concat5("SSH ", operation, " failed with ", &output.status, ": ");
            start_error(concat2(&head, &shown))
        },
    }
}

} // verus!
