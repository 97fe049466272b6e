//! Single operations over a connection of their own: listing a directory and asking for the
//! current root.

use vstd::prelude::*;
use vstd::utf8::{decode_utf8, encode_utf8, valid_utf8};

use crate::api::{failure, DirectoryEntry, ErrorClass, ErrorView, FilePeekerError};
use crate::bytes::{bytes_of, utf8};
use crate::connection::grpc::{status_error, status_failure, GrpcStatus};
use crate::io_error::{io_failure, IoError, IoErrorKind, IoErrorView};
use crate::protocol::{
    closed_failure, map_server_error, message_debug, message_text, protocol_failure, refusal_class,
    frame_step, ClientMessage, ConnectionRole, Frame, FrameStep, ServerMessage, MAX_MESSAGE_BYTES,
    PROTOCOL_VERSION,
};
use crate::session::entries::{
    batch_of, convert_batch, DirectoryEntry as SessionEntry, ListingEntry,
};
use crate::text::{concat2, concat4};
use crate::unix_path::{is_absolute, is_absolute_path};

verus! {

/// How many items of a listing wait to be pulled at most.
pub const LISTING_QUEUE_CAPACITY: usize = 64;

/// Failure to tell the current root.
#[derive(Debug, PartialEq, Eq)]
pub enum CurrentRootError {
    Operation { message: String },
}

impl From<IoError> for CurrentRootError {
    fn from(error: IoError) -> (r: Self) {
        CurrentRootError::Operation { message: error.message }
    }
}

impl vstd::std_specs::convert::FromSpecImpl<IoError> for CurrentRootError {
    open spec fn obeys_from_spec() -> bool {
        true
    }

    open spec fn from_spec(error: IoError) -> Self {
        CurrentRootError::Operation { message: error.message }
    }
}

impl CurrentRootError {
    /// The text that the error is shown as.
    pub fn to_string(&self) -> (r: String)
        ensures
            self matches CurrentRootError::Operation { message } && r@
                == "current-root operation failed: "@ + message@,
    {
        match self {
            CurrentRootError::Operation { message } => concat2(
                "current-root operation failed: ",
                message,
            ),
        }
    }
}

/// Accepts a current root that starts at the root.
pub fn validate_current_root(path: String) -> (r: Result<String, IoError>)
    ensures
        match r {
            Ok(root) => is_absolute_path(path@) && root == path,
            Err(e) => !is_absolute_path(path@) && e@ == io_failure(
                IoErrorKind::InvalidData,
                "server returned a non-absolute current root"@,
            ),
        },
{
    if is_absolute(&path) {
        Ok(path)
    } else {
        Err(
            IoError::new(
                IoErrorKind::InvalidData,
                "server returned a non-absolute current root",
            ),
        )
    }
}

/// What a server's answer to a request for its current root means.
pub fn current_root_answer(answer: Result<String, GrpcStatus>) -> (r: Result<String, IoError>)
    ensures
        match answer {
            Err(status) => r matches Err(e) && e@ == status_failure(status),
            Ok(path) => match r {
                Ok(root) => is_absolute_path(path@) && root == path,
                Err(e) => !is_absolute_path(path@) && e@ == io_failure(
                    IoErrorKind::InvalidData,
                    "server returned a non-absolute current root"@,
                ),
            },
        },
{
    match answer {
        Err(status) => Err(status_error(&status)),
        Ok(path) => validate_current_root(path),
    }
}

/// The batch of entries that a listing's stream brings, or what is wrong with it.
pub fn list_batch(event: Result<Vec<ListingEntry>, GrpcStatus>) -> (r: Result<
    Vec<SessionEntry>,
    IoError,
>)
    ensures
        match event {
            Err(status) => r matches Err(e) && e@ == status_failure(status),
            Ok(entries) => match r {
                Ok(converted) => batch_of(entries@) == Ok::<Seq<SessionEntry>, IoErrorView>(
                    converted@,
                ),
                Err(e) => batch_of(entries@) == Err::<Seq<SessionEntry>, IoErrorView>(e@),
            },
        },
{
    match event {
        Err(status) => Err(status_error(&status)),
        Ok(entries) => convert_batch(&entries),
    }
}

/// `path` below the directory `base`, both as bytes.
pub open spec fn joined_bytes(base: Seq<u8>, path: Seq<u8>) -> Seq<u8> {
    if base.len() == 0 || base.last() == 47u8 {
        base + path
    } else {
        base + seq![47u8] + path
    }
}

/// What a path that is asked for means, given the current directory or why it is not known.
pub open spec fn absolute_answer(path: Seq<char>, current: Result<Vec<u8>, IoError>) -> Result<
    Seq<char>,
    ErrorView,
> {
    if path.len() == 0 {
        Err(failure(ErrorClass::InvalidPath, "path is required"@))
    } else if is_absolute_path(path) {
        Ok(path)
    } else {
        match current {
            Err(e) => Err(
                failure(ErrorClass::Io, "cannot read current directory: "@ + e@.message),
            ),
            Ok(base) => {
                let bytes = joined_bytes(base@, encode_utf8(path));
                if valid_utf8(bytes) {
                    Ok(decode_utf8(bytes))
                } else {
                    Err(failure(ErrorClass::InvalidPath, "path must be valid UTF-8"@))
                }
            },
        }
    }
}

/// The path that is asked for, from the root on. The current directory counts only for a path that
/// does not start at the root.
pub fn absolute_utf8_path(path: &str, current: Result<Vec<u8>, IoError>) -> (r: Result<
    String,
    FilePeekerError,
>)
    ensures
        match r {
            Ok(text) => absolute_answer(path@, current) == Ok::<Seq<char>, ErrorView>(text@),
            Err(e) => absolute_answer(path@, current) == Err::<Seq<char>, ErrorView>(e@),
        },
{
    if path.is_empty() {
        return Err(FilePeekerError::InvalidPath { message: "path is required".to_owned() });
    }
    if is_absolute(path) {
        return Ok(path.to_owned());
    }
    let mut bytes = match current {
        Err(e) => {
            return Err(
                FilePeekerError::Io {
                    message: concat2("cannot read current directory: ", &e.message),
                },
            );
        },
        Ok(base) => base,
    };
    let ghost base = bytes@;
    let mut tail = bytes_of(path);
    if bytes.len() > 0 && bytes[bytes.len() - 1] != 47u8 {
        bytes.push(47u8);
    }
    bytes.append(&mut tail);
    proof {
        assert(bytes@ =~= joined_bytes(base, encode_utf8(path@)));
    }
    match utf8(bytes.as_slice()) {
        Ok(text) => Ok(text),
        Err(_) => Err(
            FilePeekerError::InvalidPath { message: "path must be valid UTF-8".to_owned() },
        ),
    }
}

/// A path of this machine is asked for from the root on, whatever form it has.
pub proof fn law_paths_become_absolute(path: Seq<char>, current: Result<Vec<u8>, IoError>)
    requires
        current matches Ok(base) ==> base@.len() > 0 && base@[0] == 47u8,
        absolute_answer(path, current) is Ok,
    ensures
        is_absolute_path(absolute_answer(path, current)->Ok_0),
{
    if !is_absolute_path(path) {
        let bytes = joined_bytes(current->Ok_0@, encode_utf8(path));
        assert(bytes[0] == 47u8);
        lemma_leading_slash(bytes);
    }
}

proof fn lemma_leading_slash(bytes: Seq<u8>)
    requires
        valid_utf8(bytes),
        bytes.len() > 0,
        bytes[0] == 47u8,
    ensures
        is_absolute_path(decode_utf8(bytes)),
{
    assert(47u8 & 0x80 == 0) by (bit_vector);
    assert(47u8 & 0x7f == 47) by (bit_vector);
    let text = decode_utf8(bytes);
    assert(vstd::utf8::decode_first_scalar(bytes) == 47u32);
    assert(text[0] == 47u32 as char);
    assert('/' as u32 == 47u32);
}

/// The greeting of an operation's connection.
pub fn operation_hello() -> (r: ClientMessage)
    ensures
        r == (ClientMessage::Hello {
            version: PROTOCOL_VERSION,
            role: Some(ConnectionRole::Operation),
        }),
{
    ClientMessage::Hello { version: PROTOCOL_VERSION, role: Some(ConnectionRole::Operation) }
}

/// What is wrong with the answer to an operation's greeting, if anything.
pub open spec fn operation_hello_error(response: ServerMessage) -> Option<ErrorView> {
    match response {
        ServerMessage::HelloOk { version } => if version == PROTOCOL_VERSION {
            None
        } else {
            Some(
                protocol_failure(
                    "unexpected operation handshake response: "@ + message_text(response),
                ),
            )
        },
        ServerMessage::Error { code, message } => Some(failure(refusal_class(code), message@)),
        other => Some(
            protocol_failure("unexpected operation handshake response: "@ + message_text(other)),
        ),
    }
}

/// Judges the answer to an operation's greeting.
pub fn handshake_operation(response: ServerMessage) -> (r: Result<(), FilePeekerError>)
    ensures
        match r {
            Ok(_) => operation_hello_error(response) is None,
            Err(e) => operation_hello_error(response) == Some(e@),
        },
{
    let shown = message_debug(&response);
    match response {
        ServerMessage::HelloOk { version } => {
            if version == PROTOCOL_VERSION {
                return Ok(());
            }
        },
        ServerMessage::Error { code, message } => {
            return Err(map_server_error(code, message));
        },
        _ => {},
    }
    Err(
        FilePeekerError::Protocol {
            message: concat2("unexpected operation handshake response: ", &shown),
        },
    )
}

/// Reads the current root out of a server's answer.
pub fn current_root(response: ServerMessage) -> (r: Result<String, FilePeekerError>)
    ensures
        match response {
            ServerMessage::CurrentRoot { path } => r == Ok::<String, FilePeekerError>(path),
            ServerMessage::Error { code, message } => r matches Err(e) && e@ == failure(
                refusal_class(code),
                message@,
            ),
            other => r matches Err(e) && e@ == protocol_failure(
                "unexpected current-root response: "@ + message_text(other),
            ),
        },
{
    let shown = message_debug(&response);
    match response {
        ServerMessage::CurrentRoot { path } => Ok(path),
        ServerMessage::Error { code, message } => Err(map_server_error(code, message)),
        _ => Err(
            FilePeekerError::Protocol {
                message: concat2("unexpected current-root response: ", &shown),
            },
        ),
    }
}

/// What is passed on about a listing.
#[derive(Debug, PartialEq, Eq)]
pub enum ListingItem {
    Entry(DirectoryEntry),
    Done,
    Error(FilePeekerError),
}

/// What a message, or the failure to get one, says about a listing.
pub fn run_listing(message: Result<ServerMessage, FilePeekerError>) -> (r: ListingItem)
    ensures
        match message {
            Err(e) => r == ListingItem::Error(e),
            Ok(ServerMessage::Entry { path, name, kind, navigable }) => r == ListingItem::Entry(
                (DirectoryEntry { path, name, kind, navigable }),
            ),
            Ok(ServerMessage::Done) => r is Done,
            Ok(ServerMessage::Error { code, message }) => r matches ListingItem::Error(e) && e@
                == failure(refusal_class(code), message@),
            Ok(other) => r matches ListingItem::Error(e) && e@ == protocol_failure(
                "unexpected listing response: "@ + message_text(other),
            ),
        },
{
    let message = match message {
        Err(e) => {
            return ListingItem::Error(e);
        },
        Ok(message) => message,
    };
    let shown = message_debug(&message);
    match message {
        ServerMessage::Entry { path, name, kind, navigable } => ListingItem::Entry(
            DirectoryEntry { path, name, kind, navigable },
        ),
        ServerMessage::Done => ListingItem::Done,
        ServerMessage::Error { code, message } => ListingItem::Error(
            map_server_error(code, message),
        ),
        _ => ListingItem::Error(
            FilePeekerError::Protocol { message: concat2("unexpected listing response: ", &shown) },
        ),
    }
}

/// How far one message to the server and its answer have come. A listing reads further answers
/// from the same phase on.
#[derive(Debug, PartialEq, Eq)]
pub enum ExchangePhase {
    Encode,
    Write,
    /// Read the next byte of the answer.
    Read(Frame),
    Decode(Vec<u8>),
    Answered(ServerMessage),
    Failed(FilePeekerError),
}

/// What came of the last step.
#[derive(Debug, PartialEq, Eq)]
pub enum ExchangeEvent {
    Encoded(Result<(), String>),
    Written(Result<(), IoError>),
    /// The next byte, or nothing where the server has closed the connection.
    ByteRead(Result<Option<u8>, IoError>),
    Decoded(Result<ServerMessage, String>),
}

/// Whether `phase` is this failure.
pub open spec fn exchange_failed(phase: ExchangePhase, e: ErrorView) -> bool {
    phase matches ExchangePhase::Failed(error) && error@ == e
}

/// Whether the exchange moves from `phase` to `after` when `event` comes.
pub open spec fn exchange_next(phase: ExchangePhase, event: ExchangeEvent, after: ExchangePhase) -> bool {
    match (phase, event) {
        (ExchangePhase::Encode, ExchangeEvent::Encoded(Ok(_))) => after is Write,
        (ExchangePhase::Encode, ExchangeEvent::Encoded(Err(words))) => exchange_failed(
            after,
            protocol_failure("cannot encode client message: "@ + words@),
        ),
        (ExchangePhase::Write, ExchangeEvent::Written(Ok(_))) => after matches ExchangePhase::Read(
            frame,
        ) && frame@ == Seq::<u8>::empty(),
        (ExchangePhase::Write, ExchangeEvent::Written(Err(e))) => exchange_failed(
            after,
            closed_failure("cannot write server request: "@ + e@.message),
        ),
        (ExchangePhase::Read(frame), ExchangeEvent::ByteRead(Ok(Some(byte)))) => {
            let (bytes, step) = frame_step(frame@, byte, Some(MAX_MESSAGE_BYTES));
            match step {
                FrameStep::Partial => after matches ExchangePhase::Read(longer) && longer@ == bytes,
                FrameStep::Complete => after matches ExchangePhase::Decode(whole) && whole@ == bytes,
                FrameStep::TooLong => exchange_failed(
                    after,
                    protocol_failure("server response exceeds the size limit"@),
                ),
            }
        },
        (ExchangePhase::Read(_), ExchangeEvent::ByteRead(Ok(None))) => exchange_failed(
            after,
            closed_failure("server closed the operation connection"@),
        ),
        (ExchangePhase::Read(_), ExchangeEvent::ByteRead(Err(e))) => exchange_failed(
            after,
            closed_failure("cannot read server response: "@ + e@.message),
        ),
        (ExchangePhase::Decode(_), ExchangeEvent::Decoded(Ok(message))) => after
            == ExchangePhase::Answered(message),
        (ExchangePhase::Decode(_), ExchangeEvent::Decoded(Err(words))) => exchange_failed(
            after,
            protocol_failure("server returned invalid JSON: "@ + words@),
        ),
        (phase, _) => after == phase,
    }
}

fn exchange_lost(head: &str, reason: &str) -> (r: ExchangePhase)
    ensures
        exchange_failed(r, closed_failure(head@ + reason@)),
{
    ExchangePhase::Failed(FilePeekerError::ConnectionClosed { message: concat2(head, reason) })
}

fn exchange_odd(head: &str, reason: &str) -> (r: ExchangePhase)
    ensures
        exchange_failed(r, protocol_failure(head@ + reason@)),
{
    ExchangePhase::Failed(FilePeekerError::Protocol { message: concat2(head, reason) })
}

/// Takes in what came of the last step of an exchange.
pub fn exchange_message(phase: ExchangePhase, event: ExchangeEvent) -> (r: ExchangePhase)
    ensures
        exchange_next(phase, event, r),
{
    match (phase, event) {
        (ExchangePhase::Encode, ExchangeEvent::Encoded(Ok(_))) => ExchangePhase::Write,
        (ExchangePhase::Encode, ExchangeEvent::Encoded(Err(words))) => exchange_odd(
            "cannot encode client message: ",
            &words,
        ),
        (ExchangePhase::Write, ExchangeEvent::Written(Ok(_))) => ExchangePhase::Read(Frame::new()),
        (ExchangePhase::Write, ExchangeEvent::Written(Err(e))) => exchange_lost(
            "cannot write server request: ",
            &e.message,
        ),
        (ExchangePhase::Read(frame), ExchangeEvent::ByteRead(Ok(Some(byte)))) => {
            let mut frame = frame;
            match frame.push(byte, Some(MAX_MESSAGE_BYTES)) {
                FrameStep::Partial => ExchangePhase::Read(frame),
                FrameStep::Complete => ExchangePhase::Decode(frame.into_bytes()),
                FrameStep::TooLong => ExchangePhase::Failed(
                    FilePeekerError::Protocol {
                        message: "server response exceeds the size limit".to_owned(),
                    },
                ),
            }
        },
        (ExchangePhase::Read(_), ExchangeEvent::ByteRead(Ok(None))) => ExchangePhase::Failed(
            FilePeekerError::ConnectionClosed {
                message: "server closed the operation connection".to_owned(),
            },
        ),
        (ExchangePhase::Read(_), ExchangeEvent::ByteRead(Err(e))) => exchange_lost(
            "cannot read server response: ",
            &e.message,
        ),
        (ExchangePhase::Decode(_), ExchangeEvent::Decoded(Ok(message))) => {
            ExchangePhase::Answered(message)
        },
        (ExchangePhase::Decode(_), ExchangeEvent::Decoded(Err(words))) => exchange_odd(
            "server returned invalid JSON: ",
            &words,
        ),
        (phase, _) => phase,
    }
}

/// The error of an operation whose connection could not be opened.
pub fn open_failure(operation: &str, reason: &IoError) -> (r: FilePeekerError)
    ensures
        r@ == closed_failure("cannot open "@ + operation@ + " connection: "@ + reason@.message),
{
    FilePeekerError::ConnectionClosed {
        message: concat4("cannot open ", operation, " connection: ", &reason.message),
    }
}

/// A listing that is pulled one item at a time.
#[derive(Debug, PartialEq, Eq)]
pub struct ListingState {
    pub finished: bool,
}

/// What a pull gives for the item that was passed on, if one was.
pub open spec fn pull_answer(item: Option<ListingItem>) -> Result<Option<DirectoryEntry>, ErrorView> {
    match item {
        Some(ListingItem::Entry(entry)) => Ok(Some(entry)),
        Some(ListingItem::Done) => Ok(None),
        Some(ListingItem::Error(e)) => Err(e@),
        None => Err(closed_failure("listing task ended without a terminal response"@)),
    }
}

impl ListingState {
    /// A listing that was just started.
    pub fn new() -> (r: Self)
        ensures
            !r.finished,
    {
        ListingState { finished: false }
    }

    /// The next entry, given the item that was passed on, if one was. Anything but an entry
    /// finishes the listing, and a finished listing has no more entries.
    pub fn next(&mut self, item: Option<ListingItem>) -> (r: Result<
        Option<DirectoryEntry>,
        FilePeekerError,
    >)
        ensures
            old(self).finished ==> final(self).finished && r == Ok::<
                Option<DirectoryEntry>,
                FilePeekerError,
            >(None),
            !old(self).finished ==> {
                &&& final(self).finished == !(item matches Some(ListingItem::Entry(_)))
                &&& match r {
                    Ok(entry) => pull_answer(item) == Ok::<Option<DirectoryEntry>, ErrorView>(entry),
                    Err(e) => pull_answer(item) == Err::<Option<DirectoryEntry>, ErrorView>(e@),
                }
            },
    {
        if self.finished {
            return Ok(None);
        }
        match item {
            Some(ListingItem::Entry(entry)) => Ok(Some(entry)),
            Some(ListingItem::Done) => {
                self.finished = true;
                Ok(None)
            },
            Some(ListingItem::Error(e)) => {
                self.finished = true;
                Err(e)
            },
            None => {
                self.finished = true;
                Err(
                    FilePeekerError::ConnectionClosed {
                        message: "listing task ended without a terminal response".to_owned(),
                    },
                )
            },
        }
    }
}

} // verus!
