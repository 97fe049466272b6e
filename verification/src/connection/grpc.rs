//! Requests over gRPC: how they are authenticated, and what refusals mean.

use vstd::prelude::*;
use vstd::utf8::encode_utf8;

use crate::io_error::{io_failure, IoError, IoErrorKind, IoErrorView};
use crate::text::{concat2, concat4, integer, integer_text};

verus! {

/// How long a connection or the first health check may take, in milliseconds.
pub const CONNECT_TIMEOUT_MS: u64 = 5000;

/// How often an idle connection is probed, in milliseconds.
pub const KEEPALIVE_INTERVAL_MS: u64 = 15000;

/// How long a probe may stay unanswered, in milliseconds.
pub const KEEPALIVE_TIMEOUT_MS: u64 = 5000;

/// How long a server may take to stop by itself, in milliseconds.
pub const STOP_TIMEOUT_MS: u64 = 5000;

/// The codes of gRPC statuses.
#[derive(Clone, Copy, Debug, PartialEq, Eq, Structural)]
pub enum GrpcCode {
    Success,
    Cancelled,
    Unknown,
    InvalidArgument,
    DeadlineExceeded,
    NotFound,
    AlreadyExists,
    PermissionDenied,
    ResourceExhausted,
    FailedPrecondition,
    Aborted,
    OutOfRange,
    Unimplemented,
    Internal,
    Unavailable,
    DataLoss,
    Unauthenticated,
}

/// A gRPC status.
#[derive(Debug, PartialEq, Eq)]
pub struct GrpcStatus {
    pub code: GrpcCode,
    pub message: String,
}

/// The name of a code.
pub open spec fn grpc_code_text(code: GrpcCode) -> Seq<char> {
    match code {
        GrpcCode::Success => "Ok"@,
        GrpcCode::Cancelled => "Cancelled"@,
        GrpcCode::Unknown => "Unknown"@,
        GrpcCode::InvalidArgument => "InvalidArgument"@,
        GrpcCode::DeadlineExceeded => "DeadlineExceeded"@,
        GrpcCode::NotFound => "NotFound"@,
        GrpcCode::AlreadyExists => "AlreadyExists"@,
        GrpcCode::PermissionDenied => "PermissionDenied"@,
        GrpcCode::ResourceExhausted => "ResourceExhausted"@,
        GrpcCode::FailedPrecondition => "FailedPrecondition"@,
        GrpcCode::Aborted => "Aborted"@,
        GrpcCode::OutOfRange => "OutOfRange"@,
        GrpcCode::Unimplemented => "Unimplemented"@,
        GrpcCode::Internal => "Internal"@,
        GrpcCode::Unavailable => "Unavailable"@,
        GrpcCode::DataLoss => "DataLoss"@,
        GrpcCode::Unauthenticated => "Unauthenticated"@,
    }
}

fn grpc_code_name(code: GrpcCode) -> (r: &'static str)
    ensures
        r@ == grpc_code_text(code),
{
    match code {
        GrpcCode::Success => "Ok",
        GrpcCode::Cancelled => "Cancelled",
        GrpcCode::Unknown => "Unknown",
        GrpcCode::InvalidArgument => "InvalidArgument",
        GrpcCode::DeadlineExceeded => "DeadlineExceeded",
        GrpcCode::NotFound => "NotFound",
        GrpcCode::AlreadyExists => "AlreadyExists",
        GrpcCode::PermissionDenied => "PermissionDenied",
        GrpcCode::ResourceExhausted => "ResourceExhausted",
        GrpcCode::FailedPrecondition => "FailedPrecondition",
        GrpcCode::Aborted => "Aborted",
        GrpcCode::OutOfRange => "OutOfRange",
        GrpcCode::Unimplemented => "Unimplemented",
        GrpcCode::Internal => "Internal",
        GrpcCode::Unavailable => "Unavailable",
        GrpcCode::DataLoss => "DataLoss",
        GrpcCode::Unauthenticated => "Unauthenticated",
    }
}

/// The kind of I/O failure that a code is reported as.
pub open spec fn code_kind(code: GrpcCode) -> IoErrorKind {
    match code {
        GrpcCode::NotFound => IoErrorKind::NotFound,
        GrpcCode::PermissionDenied | GrpcCode::Unauthenticated => IoErrorKind::PermissionDenied,
        GrpcCode::InvalidArgument => IoErrorKind::InvalidInput,
        GrpcCode::FailedPrecondition => IoErrorKind::NotADirectory,
        GrpcCode::Cancelled => IoErrorKind::Interrupted,
        GrpcCode::DeadlineExceeded => IoErrorKind::TimedOut,
        GrpcCode::Unavailable => IoErrorKind::ConnectionAborted,
        _ => IoErrorKind::Other,
    }
}

/// The I/O failure that a status is reported as.
pub open spec fn status_failure(status: GrpcStatus) -> IoErrorView {
    io_failure(
        code_kind(status.code),
        "gRPC "@ + grpc_code_text(status.code) + ": "@ + status.message@,
    )
}

/// The I/O failure that a status is reported as.
pub fn status_error(status: &GrpcStatus) -> (r: IoError)
    ensures
        r@ == status_failure(*status),
{
    let kind = match status.code {
        GrpcCode::NotFound => IoErrorKind::NotFound,
        GrpcCode::PermissionDenied | GrpcCode::Unauthenticated => IoErrorKind::PermissionDenied,
        GrpcCode::InvalidArgument => IoErrorKind::InvalidInput,
        GrpcCode::FailedPrecondition => IoErrorKind::NotADirectory,
        GrpcCode::Cancelled => IoErrorKind::Interrupted,
        GrpcCode::DeadlineExceeded => IoErrorKind::TimedOut,
        GrpcCode::Unavailable => IoErrorKind::ConnectionAborted,
        _ => IoErrorKind::Other,
    };
    IoError {
        kind,
        message: concat4("gRPC ", grpc_code_name(status.code), ": ", &status.message),
    }
}

/// Whether a byte may stand in a header.
pub open spec fn is_header_byte(b: u8) -> bool {
    (b >= 32 && b != 127) || b == 9
}

/// Whether a text may stand in a header.
pub open spec fn is_header_text(text: Seq<char>) -> bool {
    forall|i: int| 0 <= i < encode_utf8(text).len() ==> is_header_byte(#[trigger] encode_utf8(text)[i])
}

/// `tonic::metadata::MetadataValue::try_from` a text: succeeds exactly where every byte of its
/// UTF-8 form is a tab, or neither a control character nor the delete character. The words of the
/// error are always the same.
#[verifier::external_body]
fn metadata_value(text: &str) -> (r: Result<(), String>)
    ensures
        r is Ok <==> is_header_text(text@),
        r matches Err(words) ==> words@ == "failed to parse metadata value"@,
{
    match tonic::metadata::MetadataValue::<tonic::metadata::Ascii>::try_from(text) {
        Ok(_) => Ok(()),
        Err(error) => Err(error.to_string()),
    }
}

/// The header that presents a token.
pub open spec fn bearer_text(token: Seq<char>) -> Seq<char> {
    "Bearer "@ + token
}

/// The value of the header `authorization` that presents `token`.
pub fn authenticated_request(token: &str) -> (r: Result<String, IoError>)
    ensures
        match r {
            Ok(value) => is_header_text(bearer_text(token@)) && value@ == bearer_text(token@),
            Err(e) => !is_header_text(bearer_text(token@)) && e@ == io_failure(
                IoErrorKind::InvalidData,
                "failed to parse metadata value"@,
            ),
        },
{
    let value = concat2("Bearer ", token);
    match metadata_value(&value) {
        Ok(_) => Ok(value),
        Err(words) => Err(IoError { kind: IoErrorKind::InvalidData, message: words }),
    }
}

/// The status number of a server that serves.
pub const SERVING: i32 = 1;

/// `tonic_health::pb::health_check_response::ServingStatus::Serving` as its number.
#[verifier::external_body]
fn serving_status() -> (r: i32)
    ensures
        r == SERVING,
{
    tonic_health::pb::health_check_response::ServingStatus::Serving as i32
}

/// What came of a health check.
#[derive(Debug, PartialEq, Eq)]
pub enum HealthOutcome {
    TimedOut,
    Refused(GrpcStatus),
    /// The number of the status that was reported.
    Answered(i32),
}

/// What is wrong with a server whose health check came out so, if anything.
pub open spec fn health_error(outcome: HealthOutcome) -> Option<IoErrorView> {
    match outcome {
        HealthOutcome::TimedOut => Some(
            io_failure(IoErrorKind::TimedOut, "gRPC health check timed out"@),
        ),
        HealthOutcome::Refused(status) => Some(status_failure(status)),
        HealthOutcome::Answered(status) => if status == SERVING {
            None
        } else {
            Some(
                io_failure(
                    IoErrorKind::Other,
                    "gRPC health check returned status "@ + integer_text(status as int),
                ),
            )
        },
    }
}

/// Judges a health check.
pub fn check_health(outcome: &HealthOutcome) -> (r: Result<(), IoError>)
    ensures
        match r {
            Ok(_) => health_error(*outcome) is None,
            Err(e) => health_error(*outcome) == Some(e@),
        },
{
    match outcome {
        HealthOutcome::TimedOut => Err(
            IoError::new(IoErrorKind::TimedOut, "gRPC health check timed out"),
        ),
        HealthOutcome::Refused(status) => Err(status_error(status)),
        HealthOutcome::Answered(status) => {
            if *status == serving_status() {
                return Ok(());
            }
            let number = integer(*status);
            Err(
                IoError {
                    kind: IoErrorKind::Other,
                    message: concat2("gRPC health check returned status ", &number),
                },
            )
        },
    }
}

/// What came of waiting for a server to stop.
#[derive(Debug, PartialEq, Eq)]
pub enum StopOutcome {
    /// The server ended; its status in words.
    Exited { success: bool, status: String },
    NotAwaited(IoError),
    TimedOut,
}

/// What is wrong with how a server stopped, if anything.
pub open spec fn stop_error(outcome: StopOutcome) -> Option<IoErrorView> {
    match outcome {
        StopOutcome::Exited { success, status } => if success {
            None
        } else {
            Some(
                io_failure(
                    IoErrorKind::Other,
                    "server process exited unsuccessfully: "@ + status@,
                ),
            )
        },
        StopOutcome::NotAwaited(e) => Some(e@),
        StopOutcome::TimedOut => Some(
            io_failure(IoErrorKind::TimedOut, "server did not stop within 5 seconds"@),
        ),
    }
}

/// Judges how a server stopped. One that did not stop in time has to be killed.
pub fn shutdown_server_process(outcome: StopOutcome) -> (r: Result<(), IoError>)
    ensures
        match r {
            Ok(_) => stop_error(outcome) is None,
            Err(e) => stop_error(outcome) == Some(e@),
        },
{
    match outcome {
        StopOutcome::Exited { success, status } => {
            if success {
                Ok(())
            } else {
                Err(
                    IoError {
                        kind: IoErrorKind::Other,
                        message: concat2("server process exited unsuccessfully: ", &status),
                    },
                )
            }
        },
        StopOutcome::NotAwaited(e) => Err(e),
        StopOutcome::TimedOut => Err(
            IoError::new(IoErrorKind::TimedOut, "server did not stop within 5 seconds"),
        ),
    }
}

} // verus!
