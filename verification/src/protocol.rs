//! The messages that clients and servers exchange, one JSON document per line.

use vstd::prelude::*;

use crate::api::{failure, EntryKind, ErrorClass, ErrorView, FilePeekerError};
use crate::bytes::copy_range;
use crate::text::{concat2, concat3, concat4, concat5, decimal, decimal_text};

verus! {

/// The version of the protocol spoken here.
pub const PROTOCOL_VERSION: u32 = 1;

/// The longest message, in bytes, without its line feed.
pub const MAX_MESSAGE_BYTES: usize = 1048576;

/// What a connection is used for.
#[derive(Clone, Copy, Debug, PartialEq, Eq, Structural)]
pub enum ConnectionRole {
    Control,
    Operation,
}

/// What a client says.
#[derive(Debug, PartialEq, Eq)]
pub enum ClientMessage {
    Auth { token: String },
    Hello { version: u32, role: Option<ConnectionRole> },
    Heartbeat,
    Shutdown,
    List { path: String },
    CurrentRoot,
}

/// Why a server refuses a request.
#[derive(Clone, Copy, Debug, PartialEq, Eq, Structural)]
pub enum ErrorCode {
    InvalidPath,
    NotFound,
    PermissionDenied,
    NotDirectory,
    Io,
    UnsupportedVersion,
}

/// What a server says.
#[derive(Debug, PartialEq, Eq)]
pub enum ServerMessage {
    HelloOk { version: u32 },
    HeartbeatOk,
    ShutdownOk,
    CurrentRoot { path: String },
    Entry { path: String, name: String, kind: EntryKind, navigable: bool },
    Done,
    Error { code: ErrorCode, message: String },
}

/// A text as `str`'s `Debug` writes it: in double quotes, with escapes.
pub uninterp spec fn debug_text(text: Seq<char>) -> Seq<char>;

/// `Debug` of `str`: what is written depends on the text alone.
#[verifier::external_body]
pub(crate) fn debug_str(text: &str) -> (r: String)
    ensures
        r@ == debug_text(text@),
{
    format!("{text:?}")
}

/// The name of an error code.
pub open spec fn code_text(code: ErrorCode) -> Seq<char> {
    match code {
        ErrorCode::InvalidPath => "InvalidPath"@,
        ErrorCode::NotFound => "NotFound"@,
        ErrorCode::PermissionDenied => "PermissionDenied"@,
        ErrorCode::NotDirectory => "NotDirectory"@,
        ErrorCode::Io => "Io"@,
        ErrorCode::UnsupportedVersion => "UnsupportedVersion"@,
    }
}

/// The name of an error code.
pub fn code_name(code: ErrorCode) -> (r: &'static str)
    ensures
        r@ == code_text(code),
{
    match code {
        ErrorCode::InvalidPath => "InvalidPath",
        ErrorCode::NotFound => "NotFound",
        ErrorCode::PermissionDenied => "PermissionDenied",
        ErrorCode::NotDirectory => "NotDirectory",
        ErrorCode::Io => "Io",
        ErrorCode::UnsupportedVersion => "UnsupportedVersion",
    }
}

/// The name of an entry kind.
pub open spec fn kind_text(kind: EntryKind) -> Seq<char> {
    match kind {
        EntryKind::File => "File"@,
        EntryKind::Directory => "Directory"@,
        EntryKind::Symlink => "Symlink"@,
        EntryKind::Other => "Other"@,
    }
}

fn kind_name(kind: EntryKind) -> (r: &'static str)
    ensures
        r@ == kind_text(kind),
{
    match kind {
        EntryKind::File => "File",
        EntryKind::Directory => "Directory",
        EntryKind::Symlink => "Symlink",
        EntryKind::Other => "Other",
    }
}

/// A truth value as it is written.
pub open spec fn bool_text(b: bool) -> Seq<char> {
    if b {
        "true"@
    } else {
        "false"@
    }
}

/// A server message as diagnostics show it.
pub open spec fn message_text(m: ServerMessage) -> Seq<char> {
    match m {
        ServerMessage::HelloOk { version } => "HelloOk { version: "@ + decimal_text(version as nat)
            + " }"@,
        ServerMessage::HeartbeatOk => "HeartbeatOk"@,
        ServerMessage::ShutdownOk => "ShutdownOk"@,
        ServerMessage::CurrentRoot { path } => "CurrentRoot { path: "@ + debug_text(path@) + " }"@,
        ServerMessage::Entry { path, name, kind, navigable } => "Entry { path: "@ + debug_text(path@)
            + ", name: "@ + debug_text(name@) + ", kind: "@ + (kind_text(kind) + ", navigable: "@
            + bool_text(navigable) + " }"@),
        ServerMessage::Done => "Done"@,
        ServerMessage::Error { code, message } => "Error { code: "@ + code_text(code)
            + ", message: "@ + debug_text(message@) + " }"@,
    }
}

/// Writes a server message as diagnostics show it.
pub fn message_debug(m: &ServerMessage) -> (r: String)
    ensures
        r@ == message_text(*m),
{
    match m {
        ServerMessage::HelloOk { version } => {
            let number = decimal(*version as u64);
            concat3("HelloOk { version: ", &number, " }")
        },
        ServerMessage::HeartbeatOk => "HeartbeatOk".to_owned(),
        ServerMessage::ShutdownOk => "ShutdownOk".to_owned(),
        ServerMessage::CurrentRoot { path } => {
            let shown = debug_str(path);
            concat3("CurrentRoot { path: ", &shown, " }")
        },
        ServerMessage::Entry { path, name, kind, navigable } => {
            let path = debug_str(path);
            let name = debug_str(name);
            let flag = if *navigable {
                "true"
            } else {
                "false"
            };
            let head = concat5("Entry { path: ", &path, ", name: ", &name, ", kind: ");
            let tail = concat4(kind_name(*kind), ", navigable: ", flag, " }");
            concat2(&head, &tail)
        },
        ServerMessage::Done => "Done".to_owned(),
        ServerMessage::Error { code, message } => {
            let shown = debug_str(message);
            concat5("Error { code: ", code_name(*code), ", message: ", &shown, " }")
        },
    }
}

/// The class of error that a refusal with this code is reported as.
pub open spec fn refusal_class(code: ErrorCode) -> ErrorClass {
    match code {
        ErrorCode::InvalidPath => ErrorClass::InvalidPath,
        ErrorCode::UnsupportedVersion => ErrorClass::Protocol,
        _ => ErrorClass::Io,
    }
}

/// The error that a server's refusal is reported as.
pub fn map_server_error(code: ErrorCode, message: String) -> (r: FilePeekerError)
    ensures
        r@ == failure(refusal_class(code), message@),
{
    match code {
        ErrorCode::InvalidPath => FilePeekerError::InvalidPath { message },
        ErrorCode::NotFound | ErrorCode::PermissionDenied | ErrorCode::NotDirectory
        | ErrorCode::Io => FilePeekerError::Io { message },
        ErrorCode::UnsupportedVersion => FilePeekerError::Protocol { message },
    }
}

/// A protocol error with this text.
pub open spec fn protocol_failure(message: Seq<char>) -> ErrorView {
    failure(ErrorClass::Protocol, message)
}

/// A lost connection with this text.
pub open spec fn closed_failure(message: Seq<char>) -> ErrorView {
    failure(ErrorClass::ConnectionClosed, message)
}

/// What is wrong with the answer to a control connection's greeting, if anything.
pub open spec fn control_hello_error(response: ServerMessage) -> Option<ErrorView> {
    match response {
        ServerMessage::HelloOk { version } => if version == PROTOCOL_VERSION {
            None
        } else {
            Some(
                protocol_failure(
                    "server accepted unexpected protocol version "@ + decimal_text(version as nat),
                ),
            )
        },
        ServerMessage::Error { code, message } => Some(
            protocol_failure(
                "server rejected control handshake ("@ + code_text(code) + "): "@ + message@,
            ),
        ),
        other => Some(
            protocol_failure("unexpected control handshake response: "@ + message_text(other)),
        ),
    }
}

/// Judges the answer to a control connection's greeting.
pub fn handshake_control(response: &ServerMessage) -> (r: Result<(), FilePeekerError>)
    ensures
        match r {
            Ok(_) => control_hello_error(*response) is None,
            Err(e) => control_hello_error(*response) == Some(e@),
        },
{
    match response {
        ServerMessage::HelloOk { version } => {
            if *version == PROTOCOL_VERSION {
                return Ok(());
            }
            let number = decimal(*version as u64);
            Err(
                FilePeekerError::Protocol {
                    message: concat2("server accepted unexpected protocol version ", &number),
                },
            )
        },
        ServerMessage::Error { code, message } => Err(
            FilePeekerError::Protocol {
                message: concat4(
                    "server rejected control handshake (",
                    code_name(*code),
                    "): ",
                    message,
                ),
            },
        ),
        other => {
            let shown = message_debug(other);
            Err(
                FilePeekerError::Protocol {
                    message: concat2("unexpected control handshake response: ", &shown),
                },
            )
        },
    }
}

/// A message being read byte by byte, without its line feed.
#[derive(Debug, PartialEq, Eq)]
pub struct Frame {
    bytes: Vec<u8>,
}

impl View for Frame {
    type V = Seq<u8>;

    closed spec fn view(&self) -> Seq<u8> {
        self.bytes@
    }
}

/// What became of a frame by the last byte.
#[derive(Clone, Copy, Debug, PartialEq, Eq, Structural)]
pub enum FrameStep {
    Partial,
    Complete,
    TooLong,
}

/// What a frame becomes by one more byte.
pub open spec fn frame_step(frame: Seq<u8>, byte: u8, limit: Option<usize>) -> (Seq<u8>, FrameStep) {
    if byte == 10u8 {
        (frame, FrameStep::Complete)
    } else if limit is Some && frame.len() + 1 > limit->Some_0 {
        (frame.push(byte), FrameStep::TooLong)
    } else {
        (frame.push(byte), FrameStep::Partial)
    }
}

/// What a frame becomes by `bytes`, up to the one that ends it.
pub open spec fn frame_feed(frame: Seq<u8>, bytes: Seq<u8>, limit: Option<usize>) -> (
    Seq<u8>,
    FrameStep,
)
    decreases bytes.len(),
{
    if bytes.len() == 0 {
        (frame, FrameStep::Partial)
    } else {
        let (after, step) = frame_step(frame, bytes[0], limit);
        if step is Partial {
            frame_feed(after, bytes.skip(1), limit)
        } else {
            (after, step)
        }
    }
}

/// Reading returns what was written: the bytes of a message, followed by a line feed and whatever
/// comes after it, complete a frame that holds exactly the message. The message holds no line
/// feed and, where there is a limit, no more bytes than it allows.
pub proof fn law_frames_are_read_back(
    message: Seq<u8>,
    rest: Seq<u8>,
    limit: Option<usize>,
)
    requires
        !message.contains(10u8),
        limit matches Some(n) ==> message.len() <= n,
    ensures
        frame_feed(Seq::empty(), message + seq![10u8] + rest, limit) == (
            message,
            FrameStep::Complete,
        ),
{
    lemma_frame_feed(Seq::empty(), message, rest, limit);
    assert(Seq::<u8>::empty() + message =~= message);
}

proof fn lemma_frame_feed(frame: Seq<u8>, message: Seq<u8>, rest: Seq<u8>, limit: Option<usize>)
    requires
        !message.contains(10u8),
        limit matches Some(n) ==> frame.len() + message.len() <= n,
    ensures
        frame_feed(frame, message + seq![10u8] + rest, limit) == (
            frame + message,
            FrameStep::Complete,
        ),
    decreases message.len(),
{
    let all = message + seq![10u8] + rest;
    if message.len() == 0 {
        assert(all[0] == 10u8);
        assert(frame + message =~= frame);
    } else {
        assert(message.contains(message[0]));
        assert(all[0] == message[0]);
        let next = message.skip(1);
        assert forall|i: int| 0 <= i < next.len() implies next[i] != 10u8 by {
            assert(message.contains(message[i + 1]));
        }
        lemma_frame_feed(frame.push(message[0]), next, rest, limit);
        assert(all.skip(1) =~= next + seq![10u8] + rest);
        assert(frame.push(message[0]) + next =~= frame + message);
    }
}

impl Frame {
    /// A message of which nothing has come yet.
    pub fn new() -> (r: Self)
        ensures
            r@ == Seq::<u8>::empty(),
    {
        Frame { bytes: Vec::new() }
    }

    /// Takes in the next byte. A line feed completes the message; where a limit is given, the
    /// byte after that many is one too many.
    pub fn push(&mut self, byte: u8, limit: Option<usize>) -> (r: FrameStep)
        ensures
            (final(self)@, r) == frame_step(old(self)@, byte, limit),
    {
        if byte == 10u8 {
            return FrameStep::Complete;
        }
        self.bytes.push(byte);
        match limit {
            Some(limit) => {
                if self.bytes.len() > limit {
                    FrameStep::TooLong
                } else {
                    FrameStep::Partial
                }
            },
            None => FrameStep::Partial,
        }
    }

    /// The bytes of the message.
    pub fn into_bytes(self) -> (r: Vec<u8>)
        ensures
            r@ == self@,
    {
        self.bytes
    }
}

/// What is wrong with `line` as a message together with its line feed, if anything.
pub open spec fn line_error(line: Seq<u8>) -> Option<ErrorView> {
    if line.len() == 0 {
        Some(closed_failure("server closed during the control handshake"@))
    } else if line.last() != 10u8 {
        Some(protocol_failure("server response is not newline terminated"@))
    } else if line.len() - 1 > MAX_MESSAGE_BYTES {
        Some(protocol_failure("server response exceeds the size limit"@))
    } else {
        None
    }
}

/// The message in `line`, which was read up to and including the next line feed.
pub fn message_of_line(line: &Vec<u8>) -> (r: Result<Vec<u8>, FilePeekerError>)
    ensures
        match r {
            Ok(bytes) => line_error(line@) is None && bytes@ == line@.drop_last(),
            Err(e) => line_error(line@) == Some(e@),
        },
{
    let len: usize = line.len();
    if len == 0 {
        return Err(
            FilePeekerError::ConnectionClosed {
                message: "server closed during the control handshake".to_owned(),
            },
        );
    }
    if line[len - 1] != 10u8 {
        return Err(
            FilePeekerError::Protocol {
                message: "server response is not newline terminated".to_owned(),
            },
        );
    }
    if len - 1 > MAX_MESSAGE_BYTES {
        return Err(
            FilePeekerError::Protocol {
                message: "server response exceeds the size limit".to_owned(),
            },
        );
    }
    let bytes = copy_range(line.as_slice(), 0, len - 1);
    proof {
        assert(bytes@ =~= line@.drop_last());
    }
    Ok(bytes)
}

/// A message that could not be decoded as an error.
pub fn decoded(result: Result<ServerMessage, String>) -> (r: Result<ServerMessage, FilePeekerError>)
    ensures
        match (result, r) {
            (Ok(message), Ok(same)) => same == message,
            (Err(words), Err(e)) => e@ == protocol_failure("server returned invalid JSON: "@ + words@),
            _ => false,
        },
{
    match result {
        Ok(message) => Ok(message),
        Err(words) => Err(
            FilePeekerError::Protocol { message: concat2("server returned invalid JSON: ", &words) },
        ),
    }
}

} // verus!
