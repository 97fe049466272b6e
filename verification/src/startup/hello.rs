//! The first exchange over a control connection: a greeting and its answer.

use vstd::prelude::*;

use crate::api::{ErrorView, FilePeekerError};
use crate::io_error::IoError;
use crate::protocol::{
    closed_failure, control_hello_error, handshake_control, protocol_failure, ClientMessage,
    ConnectionRole, Frame, FrameStep, ServerMessage, PROTOCOL_VERSION,
};
use crate::text::concat2;

verus! {

/// How far the exchange has come.
#[derive(Debug, PartialEq, Eq)]
pub enum HelloPhase {
    Encode,
    Send,
    Flush,
    /// Read the next byte of the answer.
    Read(Frame),
    Decode(Vec<u8>),
    Greeted,
    Failed(FilePeekerError),
}

/// What came of the last step.
#[derive(Debug, PartialEq, Eq)]
pub enum HelloEvent {
    Encoded(Result<(), String>),
    Sent(Result<(), IoError>),
    Flushed(Result<(), IoError>),
    /// The next byte, or nothing where the server has closed the connection.
    ByteRead(Result<Option<u8>, IoError>),
    Decoded(Result<ServerMessage, String>),
}

/// Whether `phase` is this failure.
pub open spec fn hello_failed(phase: HelloPhase, e: ErrorView) -> bool {
    phase matches HelloPhase::Failed(error) && error@ == e
}

/// Whether the exchange moves from `phase` to `after` when `event` comes. The answer may be of any
/// length.
pub open spec fn hello_next(phase: HelloPhase, event: HelloEvent, after: HelloPhase) -> bool {
    match (phase, event) {
        (HelloPhase::Encode, HelloEvent::Encoded(Ok(_))) => after is Send,
        (HelloPhase::Encode, HelloEvent::Encoded(Err(words))) => hello_failed(
            after,
            protocol_failure("cannot encode control hello: "@ + words@),
        ),
        (HelloPhase::Send, HelloEvent::Sent(Ok(_))) => after is Flush,
        (HelloPhase::Send, HelloEvent::Sent(Err(e))) => hello_failed(
            after,
            closed_failure("cannot send control hello: "@ + e@.message),
        ),
        (HelloPhase::Flush, HelloEvent::Flushed(Ok(_))) => after matches HelloPhase::Read(frame)
            && frame@ == Seq::<u8>::empty(),
        (HelloPhase::Flush, HelloEvent::Flushed(Err(e))) => hello_failed(
            after,
            closed_failure("cannot flush control hello: "@ + e@.message),
        ),
        (HelloPhase::Read(frame), HelloEvent::ByteRead(Ok(Some(byte)))) => if byte == 10u8 {
            after matches HelloPhase::Decode(bytes) && bytes@ == frame@
        } else {
            after matches HelloPhase::Read(longer) && longer@ == frame@.push(byte)
        },
        (HelloPhase::Read(_), HelloEvent::ByteRead(Ok(None))) => hello_failed(
            after,
            closed_failure("server closed during the control handshake"@),
        ),
        (HelloPhase::Read(_), HelloEvent::ByteRead(Err(e))) => hello_failed(
            after,
            closed_failure("cannot read control handshake: "@ + e@.message),
        ),
        (HelloPhase::Decode(_), HelloEvent::Decoded(Err(words))) => hello_failed(
            after,
            protocol_failure("server returned invalid JSON: "@ + words@),
        ),
        (HelloPhase::Decode(_), HelloEvent::Decoded(Ok(message))) => match control_hello_error(
            message,
        ) {
            Some(e) => hello_failed(after, e),
            None => after is Greeted,
        },
        (phase, _) => after == phase,
    }
}

/// The greeting of a control connection.
pub fn control_hello() -> (r: ClientMessage)
    ensures
        r == (ClientMessage::Hello {
            version: PROTOCOL_VERSION,
            role: Some(ConnectionRole::Control),
        }),
{
    ClientMessage::Hello { version: PROTOCOL_VERSION, role: Some(ConnectionRole::Control) }
}

fn lost(head: &str, reason: &str) -> (r: HelloPhase)
    ensures
        hello_failed(r, closed_failure(head@ + reason@)),
{
    HelloPhase::Failed(FilePeekerError::ConnectionClosed { message: concat2(head, reason) })
}

fn odd(head: &str, reason: &str) -> (r: HelloPhase)
    ensures
        hello_failed(r, protocol_failure(head@ + reason@)),
{
    HelloPhase::Failed(FilePeekerError::Protocol { message: concat2(head, reason) })
}

/// Takes in what came of the last step.
pub fn exchange_hello(phase: HelloPhase, event: HelloEvent) -> (r: HelloPhase)
    ensures
        hello_next(phase, event, r),
{
    match (phase, event) {
        (HelloPhase::Encode, HelloEvent::Encoded(Ok(_))) => HelloPhase::Send,
        (HelloPhase::Encode, HelloEvent::Encoded(Err(words))) => odd(
            "cannot encode control hello: ",
            &words,
        ),
        (HelloPhase::Send, HelloEvent::Sent(Ok(_))) => HelloPhase::Flush,
        (HelloPhase::Send, HelloEvent::Sent(Err(e))) => lost(
            "cannot send control hello: ",
            &e.message,
        ),
        (HelloPhase::Flush, HelloEvent::Flushed(Ok(_))) => HelloPhase::Read(Frame::new()),
        (HelloPhase::Flush, HelloEvent::Flushed(Err(e))) => lost(
            "cannot flush control hello: ",
            &e.message,
        ),
        (HelloPhase::Read(frame), HelloEvent::ByteRead(Ok(Some(byte)))) => {
            let mut frame = frame;
            match frame.push(byte, None) {
                FrameStep::Complete => HelloPhase::Decode(frame.into_bytes()),
                _ => HelloPhase::Read(frame),
            }
        },
        (HelloPhase::Read(_), HelloEvent::ByteRead(Ok(None))) => HelloPhase::Failed(
            FilePeekerError::ConnectionClosed {
                message: "server closed during the control handshake".to_owned(),
            },
        ),
        (HelloPhase::Read(_), HelloEvent::ByteRead(Err(e))) => lost(
            "cannot read control handshake: ",
            &e.message,
        ),
        (HelloPhase::Decode(_), HelloEvent::Decoded(Err(words))) => odd(
            "server returned invalid JSON: ",
            &words,
        ),
        (HelloPhase::Decode(_), HelloEvent::Decoded(Ok(message))) => {
            match handshake_control(&message) {
                Ok(_) => HelloPhase::Greeted,
                Err(e) => HelloPhase::Failed(e),
            }
        },
        (phase, _) => phase,
    }
}

} // verus!
