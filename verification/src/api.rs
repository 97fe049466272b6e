//! Values that every file peeker user interface works with, and the error type that all
//! operations share.

use vstd::prelude::*;

use crate::text::concat2;

verus! {

/// What a directory entry is.
#[derive(Clone, Copy, Debug, PartialEq, Eq, Structural)]
pub enum EntryKind {
    File,
    Directory,
    Symlink,
    Other,
}

/// One entry of a listed directory.
#[derive(Debug, PartialEq, Eq)]
pub struct DirectoryEntry {
    pub path: String,
    pub name: String,
    pub kind: EntryKind,
    pub navigable: bool,
}

/// What a [`DirectoryEntry`] stands for.
pub struct EntryView {
    pub path: Seq<char>,
    pub name: Seq<char>,
    pub kind: EntryKind,
    pub navigable: bool,
}

impl View for DirectoryEntry {
    type V = EntryView;

    open spec fn view(&self) -> EntryView {
        EntryView { path: self.path@, name: self.name@, kind: self.kind, navigable: self.navigable }
    }
}

impl Clone for DirectoryEntry {
    fn clone(&self) -> (r: Self)
        ensures
            r@ == self@,
    {
        DirectoryEntry {
            path: self.path.clone(),
            name: self.name.clone(),
            kind: self.kind,
            navigable: self.navigable,
        }
    }
}

/// Metadata of one path.
#[derive(Clone, Debug, PartialEq, Eq)]
pub struct FileMetadata {
    pub path: String,
    pub kind: EntryKind,
    pub size: u64,
    pub readonly: bool,
    pub modified: Option<String>,
}

/// Where a session connects to.
#[derive(Clone, Debug, PartialEq, Eq)]
pub enum SessionTarget {
    Local { server_executable_path: String },
    Ssh { destination: String },
}

/// How a session is set up.
#[derive(Clone, Debug, PartialEq, Eq)]
pub struct SessionConfig {
    pub target: SessionTarget,
}

/// Any failure of an operation.
#[derive(Debug, PartialEq, Eq)]
pub enum FilePeekerError {
    NotImplemented { operation: String },
    InvalidPath { message: String },
    ServerStart { message: String },
    ServerExited { message: String },
    ConnectionClosed { message: String },
    Protocol { message: String },
    Io { message: String },
}

/// The classes of failure.
#[derive(Clone, Copy, Debug, PartialEq, Eq, Structural)]
pub enum ErrorClass {
    NotImplemented,
    InvalidPath,
    ServerStart,
    ServerExited,
    ConnectionClosed,
    Protocol,
    Io,
}

/// What a [`FilePeekerError`] stands for: its class and the text it carries.
pub struct ErrorView {
    pub class: ErrorClass,
    pub message: Seq<char>,
}

/// The view of an error of class `class` with the text `message`.
pub open spec fn failure(class: ErrorClass, message: Seq<char>) -> ErrorView {
    ErrorView { class, message }
}

/// The words that introduce an error of class `class`.
pub open spec fn error_heading(class: ErrorClass) -> Seq<char> {
    match class {
        ErrorClass::NotImplemented => "operation is not implemented: "@,
        ErrorClass::InvalidPath => "invalid path: "@,
        ErrorClass::ServerStart => "failed to start server: "@,
        ErrorClass::ServerExited => "server process exited: "@,
        ErrorClass::ConnectionClosed => "connection closed: "@,
        ErrorClass::Protocol => "protocol error: "@,
        ErrorClass::Io => "filesystem I/O error: "@,
    }
}

/// The text that an error is shown as.
pub open spec fn error_text(e: ErrorView) -> Seq<char> {
    error_heading(e.class) + e.message
}

impl View for FilePeekerError {
    type V = ErrorView;

    open spec fn view(&self) -> ErrorView {
        match self {
            FilePeekerError::NotImplemented { operation } => failure(
                ErrorClass::NotImplemented,
                operation@,
            ),
            FilePeekerError::InvalidPath { message } => failure(ErrorClass::InvalidPath, message@),
            FilePeekerError::ServerStart { message } => failure(ErrorClass::ServerStart, message@),
            FilePeekerError::ServerExited { message } => failure(
                ErrorClass::ServerExited,
                message@,
            ),
            FilePeekerError::ConnectionClosed { message } => failure(
                ErrorClass::ConnectionClosed,
                message@,
            ),
            FilePeekerError::Protocol { message } => failure(ErrorClass::Protocol, message@),
            FilePeekerError::Io { message } => failure(ErrorClass::Io, message@),
        }
    }
}

impl Clone for FilePeekerError {
    fn clone(&self) -> (r: Self)
        ensures
            r@ == self@,
    {
        match self {
            FilePeekerError::NotImplemented { operation } => FilePeekerError::NotImplemented {
                operation: operation.clone(),
            },
            FilePeekerError::InvalidPath { message } => FilePeekerError::InvalidPath {
                message: message.clone(),
            },
            FilePeekerError::ServerStart { message } => FilePeekerError::ServerStart {
                message: message.clone(),
            },
            FilePeekerError::ServerExited { message } => FilePeekerError::ServerExited {
                message: message.clone(),
            },
            FilePeekerError::ConnectionClosed { message } => FilePeekerError::ConnectionClosed {
                message: message.clone(),
            },
            FilePeekerError::Protocol { message } => FilePeekerError::Protocol {
                message: message.clone(),
            },
            FilePeekerError::Io { message } => FilePeekerError::Io { message: message.clone() },
        }
    }
}

impl FilePeekerError {
    /// The error of an operation that is not available.
    pub fn not_implemented(operation: &str) -> (r: Self)
        ensures
            r@ == failure(ErrorClass::NotImplemented, operation@),
    {
        FilePeekerError::NotImplemented { operation: operation.to_owned() }
    }

    /// The text that the error is shown as.
    pub fn to_string(&self) -> (r: String)
        ensures
            r@ == error_text(self@),
    {
        match self {
            FilePeekerError::NotImplemented { operation } => concat2(
                "operation is not implemented: ",
                operation,
            ),
            FilePeekerError::InvalidPath { message } => concat2("invalid path: ", message),
            FilePeekerError::ServerStart { message } => concat2("failed to start server: ", message),
            FilePeekerError::ServerExited { message } => concat2("server process exited: ", message),
            FilePeekerError::ConnectionClosed { message } => concat2("connection closed: ", message),
            FilePeekerError::Protocol { message } => concat2("protocol error: ", message),
            FilePeekerError::Io { message } => concat2("filesystem I/O error: ", message),
        }
    }
}

} // verus!
