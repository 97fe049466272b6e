//! Failures of input and output as plain values.

use vstd::prelude::*;

use crate::text::concat3;

verus! {

/// The kinds of I/O failure that the standard library tells apart.
#[derive(Clone, Copy, Debug, PartialEq, Eq, Structural)]
pub enum IoErrorKind {
    NotFound,
    PermissionDenied,
    ConnectionRefused,
    ConnectionReset,
    HostUnreachable,
    NetworkUnreachable,
    ConnectionAborted,
    NotConnected,
    AddrInUse,
    AddrNotAvailable,
    NetworkDown,
    BrokenPipe,
    AlreadyExists,
    WouldBlock,
    NotADirectory,
    IsADirectory,
    DirectoryNotEmpty,
    ReadOnlyFilesystem,
    StaleNetworkFileHandle,
    InvalidInput,
    InvalidData,
    TimedOut,
    WriteZero,
    StorageFull,
    NotSeekable,
    QuotaExceeded,
    FileTooLarge,
    ResourceBusy,
    ExecutableFileBusy,
    Deadlock,
    CrossesDevices,
    TooManyLinks,
    InvalidFilename,
    ArgumentListTooLong,
    Interrupted,
    Unsupported,
    UnexpectedEof,
    OutOfMemory,
    Other,
}

/// An I/O failure: its kind and the text it is shown as.
#[derive(Debug, PartialEq, Eq)]
pub struct IoError {
    pub kind: IoErrorKind,
    pub message: String,
}

/// What an [`IoError`] stands for.
pub struct IoErrorView {
    pub kind: IoErrorKind,
    pub message: Seq<char>,
}

/// The view of an I/O failure.
pub open spec fn io_failure(kind: IoErrorKind, message: Seq<char>) -> IoErrorView {
    IoErrorView { kind, message }
}

impl View for IoError {
    type V = IoErrorView;

    open spec fn view(&self) -> IoErrorView {
        io_failure(self.kind, self.message@)
    }
}

impl Clone for IoError {
    fn clone(&self) -> (r: Self)
        ensures
            r@ == self@,
    {
        IoError { kind: self.kind, message: self.message.clone() }
    }
}

impl IoError {
    /// An I/O failure of the given kind and text.
    pub fn new(kind: IoErrorKind, message: &str) -> (r: Self)
        ensures
            r@ == io_failure(kind, message@),
    {
        IoError { kind, message: message.to_owned() }
    }

    /// An I/O failure of no particular kind.
    pub fn other(message: &str) -> (r: Self)
        ensures
            r@ == io_failure(IoErrorKind::Other, message@),
    {
        IoError::new(IoErrorKind::Other, message)
    }

    /// The kind of the failure.
    pub fn kind(&self) -> (r: IoErrorKind)
        ensures
            r == self.kind,
    {
        self.kind
    }

    /// The text that the failure is shown as.
    pub fn to_string(&self) -> (r: String)
        ensures
            r@ == self@.message,
    {
        self.message.clone()
    }
}

/// An I/O failure for data that cannot be what it should be.
pub fn invalid_data(message: &str) -> (r: IoError)
    ensures
        r@ == io_failure(IoErrorKind::InvalidData, message@),
{
    IoError::new(IoErrorKind::InvalidData, message)
}

/// `error` with words in front that say what was being done; its kind stays.
pub fn with_context(error: &IoError, context: &str) -> (r: IoError)
    ensures
        r@ == io_failure(error@.kind, context@ + ": "@ + error@.message),
{
    IoError { kind: error.kind, message: concat3(context, ": ", &error.message) }
}

} // verus!
