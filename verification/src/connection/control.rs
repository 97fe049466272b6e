//! The control stream: opened once, kept for the life of a server.

use vstd::prelude::*;

use crate::io_error::{io_failure, IoError, IoErrorKind, IoErrorView};
use crate::protocol::{
    code_name, code_text, message_debug, message_text, ClientMessage, ServerMessage, PROTOCOL_VERSION,
};
use crate::text::{concat2, concat4, concat5};

verus! {

/// What is asked over a control stream.
#[derive(Clone, Copy, Debug, PartialEq, Eq, Structural)]
pub enum ControlRequest {
    Hello,
    Heartbeat,
    Shutdown,
}

/// The name of a request.
pub open spec fn request_text(request: ControlRequest) -> Seq<char> {
    match request {
        ControlRequest::Hello => "hello"@,
        ControlRequest::Heartbeat => "heartbeat"@,
        ControlRequest::Shutdown => "shutdown"@,
    }
}

fn request_name(request: ControlRequest) -> (r: &'static str)
    ensures
        r@ == request_text(request),
{
    match request {
        ControlRequest::Hello => "hello",
        ControlRequest::Heartbeat => "heartbeat",
        ControlRequest::Shutdown => "shutdown",
    }
}

/// Whether `response` is what a request is answered with when all is well.
pub open spec fn accepts(request: ControlRequest, response: ServerMessage) -> bool {
    match request {
        ControlRequest::Hello => response == (ServerMessage::HelloOk { version: PROTOCOL_VERSION }),
        ControlRequest::Heartbeat => response is HeartbeatOk,
        ControlRequest::Shutdown => response is ShutdownOk,
    }
}

/// The error of any other response.
pub open spec fn unexpected_response(operation: Seq<char>, response: ServerMessage) -> IoErrorView {
    match response {
        ServerMessage::Error { code, message } => io_failure(
            IoErrorKind::Other,
            "server rejected "@ + operation + " ("@ + code_text(code) + "): "@ + message@,
        ),
        other => io_failure(
            IoErrorKind::InvalidData,
            "server returned unexpected "@ + operation + " response: "@ + message_text(other),
        ),
    }
}

/// The error of a response that a request should not get.
pub fn unexpected_control_response(operation: &str, response: &ServerMessage) -> (r: IoError)
    ensures
        r@ == unexpected_response(operation@, *response),
{
    match response {
        ServerMessage::Error { code, message } => {
            let head = concat5("server rejected ", operation, " (", code_name(*code), "): ");
            IoError { kind: IoErrorKind::Other, message: concat2(&head, message) }
        },
        other => {
            let shown = message_debug(other);
            IoError {
                kind: IoErrorKind::InvalidData,
                message: concat4("server returned unexpected ", operation, " response: ", &shown),
            }
        },
    }
}

/// The message that puts a request.
pub fn control_message(request: ControlRequest) -> (r: ClientMessage)
    ensures
        r == (match request {
            ControlRequest::Hello => (ClientMessage::Hello {
                version: PROTOCOL_VERSION,
                role: None,
            }),
            ControlRequest::Heartbeat => ClientMessage::Heartbeat,
            ControlRequest::Shutdown => ClientMessage::Shutdown,
        }),
{
    match request {
        ControlRequest::Hello => ClientMessage::Hello { version: PROTOCOL_VERSION, role: None },
        ControlRequest::Heartbeat => ClientMessage::Heartbeat,
        ControlRequest::Shutdown => ClientMessage::Shutdown,
    }
}

/// Judges the response to a request.
pub fn exchange_control(request: ControlRequest, response: &ServerMessage) -> (r: Result<
    (),
    IoError,
>)
    ensures
        match r {
            Ok(_) => accepts(request, *response),
            Err(e) => !accepts(request, *response) && e@ == unexpected_response(
                request_text(request),
                *response,
            ),
        },
{
    let accepted = match (request, response) {
        (ControlRequest::Hello, ServerMessage::HelloOk { version }) => *version == PROTOCOL_VERSION,
        (ControlRequest::Heartbeat, ServerMessage::HeartbeatOk) => true,
        (ControlRequest::Shutdown, ServerMessage::ShutdownOk) => true,
        _ => false,
    };
    if accepted {
        Ok(())
    } else {
        Err(unexpected_control_response(request_name(request), response))
    }
}

/// Opening a control stream: the token is presented, then a greeting and a heartbeat are
/// exchanged.
#[derive(Debug, PartialEq, Eq)]
pub enum ControlPhase {
    Authenticate,
    Exchange(ControlRequest),
    Ready,
    Failed(IoError),
}

/// What came of the last step.
#[derive(Debug, PartialEq, Eq)]
pub enum ControlEvent {
    Sent(Result<(), IoError>),
    Answered(Result<ServerMessage, IoError>),
}

/// Whether opening moves from `phase` to `after` when `event` comes. The token itself is not
/// answered.
pub open spec fn control_next(phase: ControlPhase, event: ControlEvent, after: ControlPhase) -> bool {
    match (phase, event) {
        (ControlPhase::Authenticate, ControlEvent::Sent(Ok(_))) => after == ControlPhase::Exchange(
            ControlRequest::Hello,
        ),
        (ControlPhase::Authenticate, ControlEvent::Sent(Err(e))) => after == ControlPhase::Failed(e),
        (ControlPhase::Exchange(request), ControlEvent::Answered(Ok(response))) => if accepts(
            request,
            response,
        ) {
            if request == ControlRequest::Hello {
                after == ControlPhase::Exchange(ControlRequest::Heartbeat)
            } else {
                after is Ready
            }
        } else {
            after matches ControlPhase::Failed(e) && e@ == unexpected_response(
                request_text(request),
                response,
            )
        },
        (ControlPhase::Exchange(_), ControlEvent::Answered(Err(e))) => after
            == ControlPhase::Failed(e),
        (phase, _) => after == phase,
    }
}

/// Takes in what came of the last step of opening a control stream.
pub fn initialize_control(phase: ControlPhase, event: ControlEvent) -> (r: ControlPhase)
    ensures
        control_next(phase, event, r),
{
    match (phase, event) {
        (ControlPhase::Authenticate, ControlEvent::Sent(Ok(_))) => ControlPhase::Exchange(
            ControlRequest::Hello,
        ),
        (ControlPhase::Authenticate, ControlEvent::Sent(Err(e))) => ControlPhase::Failed(e),
        (ControlPhase::Exchange(request), ControlEvent::Answered(Ok(response))) => {
            match exchange_control(request, &response) {
                Err(e) => ControlPhase::Failed(e),
                Ok(_) => {
                    if request == ControlRequest::Hello {
                        ControlPhase::Exchange(ControlRequest::Heartbeat)
                    } else {
                        ControlPhase::Ready
                    }
                },
            }
        },
        (ControlPhase::Exchange(_), ControlEvent::Answered(Err(e))) => ControlPhase::Failed(e),
        (phase, _) => phase,
    }
}

/// The message that presents a token.
pub fn authenticate_stream(token: &str) -> (r: ClientMessage)
    ensures
        r matches ClientMessage::Auth { token: sent } && sent@ == token@,
{
    ClientMessage::Auth { token: token.to_owned() }
}

/// The error of a heartbeat where there is no control stream.
pub fn heartbeat_server(connected: bool) -> (r: Result<ControlRequest, IoError>)
    ensures
        match r {
            Ok(request) => connected && request == ControlRequest::Heartbeat,
            Err(e) => !connected && e@ == io_failure(
                IoErrorKind::NotConnected,
                "control stream is not connected"@,
            ),
        },
{
    if connected {
        Ok(ControlRequest::Heartbeat)
    } else {
        Err(IoError::new(IoErrorKind::NotConnected, "control stream is not connected"))
    }
}

/// How far the shutdown of an owned server has come.
#[derive(Debug, PartialEq, Eq)]
pub enum ShutdownPhase {
    /// Ask the server over the control stream.
    Ask,
    /// Close the pipes and stop the process, then report this.
    Stop(Result<(), IoError>),
    Done(Result<(), IoError>),
}

/// What came of the last step.
#[derive(Debug, PartialEq, Eq)]
pub enum ShutdownEvent {
    Answered(Result<ServerMessage, IoError>),
    Stopped,
}

/// Whether the shutdown moves from `phase` to `after` when `event` comes.
pub open spec fn shutdown_next(phase: ShutdownPhase, event: ShutdownEvent, after: ShutdownPhase) -> bool {
    match (phase, event) {
        (ShutdownPhase::Ask, ShutdownEvent::Answered(Err(e))) => after == ShutdownPhase::Stop(
            Err(e),
        ),
        (ShutdownPhase::Ask, ShutdownEvent::Answered(Ok(response))) => if accepts(
            ControlRequest::Shutdown,
            response,
        ) {
            after == ShutdownPhase::Stop(Ok(()))
        } else {
            after matches ShutdownPhase::Stop(Err(e)) && e@ == unexpected_response(
                "shutdown"@,
                response,
            )
        },
        (ShutdownPhase::Stop(result), ShutdownEvent::Stopped) => after == ShutdownPhase::Done(
            result,
        ),
        (phase, _) => after == phase,
    }
}

/// The start of a shutdown: a server without a control stream is only stopped.
pub fn begin_shutdown(has_control: bool) -> (r: ShutdownPhase)
    ensures
        r == (if has_control {
            ShutdownPhase::Ask
        } else {
            ShutdownPhase::Stop(Ok(()))
        }),
{
    if has_control {
        ShutdownPhase::Ask
    } else {
        ShutdownPhase::Stop(Ok(()))
    }
}

/// Takes in what came of the last step of a shutdown.
pub fn shutdown_server_process(phase: ShutdownPhase, event: ShutdownEvent) -> (r: ShutdownPhase)
    ensures
        shutdown_next(phase, event, r),
{
    match (phase, event) {
        (ShutdownPhase::Ask, ShutdownEvent::Answered(Err(e))) => ShutdownPhase::Stop(Err(e)),
        (ShutdownPhase::Ask, ShutdownEvent::Answered(Ok(response))) => {
            match exchange_control(ControlRequest::Shutdown, &response) {
                Ok(_) => ShutdownPhase::Stop(Ok(())),
                Err(e) => ShutdownPhase::Stop(Err(e)),
            }
        },
        (ShutdownPhase::Stop(result), ShutdownEvent::Stopped) => ShutdownPhase::Done(result),
        (phase, _) => phase,
    }
}

/// A shutdown is done only once the process was stopped, whatever the server answered, and then
/// reports the answer.
pub proof fn law_shutdown_stops_the_process(
    phase: ShutdownPhase,
    event: ShutdownEvent,
    after: ShutdownPhase,
)
    requires
        shutdown_next(phase, event, after),
        after is Done,
        !(phase is Done),
    ensures
        phase matches ShutdownPhase::Stop(result) && event is Stopped && after
            == ShutdownPhase::Done(result),
{
}

} // verus!
