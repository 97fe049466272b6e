//! Directory entries as sessions hand them out, and their conversion from what servers send.

use vstd::prelude::*;

use crate::api::EntryKind;
use crate::components::{is_descendant, leads_down};
use crate::connection::grpc::{GrpcCode, GrpcStatus};
use crate::io_error::{invalid_data, io_failure, IoError, IoErrorKind, IoErrorView};
use crate::text::{concat2, integer, integer_text};
use crate::unix_path::{is_absolute, is_absolute_path};

verus! {

/// One entry of a directory.
#[derive(Debug, PartialEq, Eq)]
pub struct DirectoryEntry {
    pub name: String,
    pub kind: EntryKind,
    pub navigable: bool,
}

/// One entry of a directory tree, with its path below the root and its depth; the entries of the
/// root itself have depth one.
#[derive(Debug, PartialEq, Eq)]
pub struct WalkEntry {
    pub relative_path: String,
    pub entry: DirectoryEntry,
    pub depth: usize,
}

/// An entry as a server sends it: the kind is a number.
#[derive(Debug, PartialEq, Eq)]
pub struct ListingEntry {
    pub name: String,
    pub kind: i32,
    pub navigable: bool,
}

/// An entry of a tree as a server sends it.
#[derive(Debug, PartialEq, Eq)]
pub struct ProtocolWalkEntry {
    pub relative_path: String,
    pub entry: Option<ListingEntry>,
    pub depth: u64,
}

/// The number for no kind at all.
pub const KIND_UNSPECIFIED: i32 = 0;

/// The number for files.
pub const KIND_FILE: i32 = 1;

/// The number for directories.
pub const KIND_DIRECTORY: i32 = 2;

/// The number for symbolic links.
pub const KIND_SYMLINK: i32 = 3;

/// The number for anything else.
pub const KIND_OTHER: i32 = 4;

/// The kind that a number stands for.
pub open spec fn kind_of(number: i32) -> Option<EntryKind> {
    if number == KIND_FILE {
        Some(EntryKind::File)
    } else if number == KIND_DIRECTORY {
        Some(EntryKind::Directory)
    } else if number == KIND_SYMLINK {
        Some(EntryKind::Symlink)
    } else if number == KIND_OTHER {
        Some(EntryKind::Other)
    } else {
        None
    }
}

/// Data that a server should not send.
pub open spec fn bad_data(message: Seq<char>) -> IoErrorView {
    io_failure(IoErrorKind::InvalidData, message)
}

/// What an entry that a server sends is.
pub open spec fn entry_of(entry: ListingEntry) -> Result<DirectoryEntry, IoErrorView> {
    match kind_of(entry.kind) {
        Some(kind) => Ok(
            DirectoryEntry { name: entry.name, kind, navigable: entry.navigable },
        ),
        None => if entry.kind == KIND_UNSPECIFIED {
            Err(bad_data("server returned an unspecified entry kind"@))
        } else {
            Err(bad_data("server returned unknown entry kind "@ + integer_text(entry.kind as int)))
        },
    }
}

/// Whether a result is the one described.
pub open spec fn converts<T>(r: Result<T, IoError>, expected: Result<T, IoErrorView>) -> bool {
    match (r, expected) {
        (Ok(value), Ok(v)) => value == v,
        (Err(error), Err(e)) => error@ == e,
        _ => false,
    }
}

/// Converts an entry that a server sent.
pub fn convert_entry(entry: &ListingEntry) -> (r: Result<DirectoryEntry, IoError>)
    ensures
        converts(r, entry_of(*entry)),
{
    let kind = if entry.kind == KIND_FILE {
        EntryKind::File
    } else if entry.kind == KIND_DIRECTORY {
        EntryKind::Directory
    } else if entry.kind == KIND_SYMLINK {
        EntryKind::Symlink
    } else if entry.kind == KIND_OTHER {
        EntryKind::Other
    } else if entry.kind == KIND_UNSPECIFIED {
        return Err(invalid_data("server returned an unspecified entry kind"));
    } else {
        let number = integer(entry.kind);
        return Err(
            IoError {
                kind: IoErrorKind::InvalidData,
                message: concat2("server returned unknown entry kind ", &number),
            },
        );
    };
    Ok(DirectoryEntry { name: entry.name.clone(), kind, navigable: entry.navigable })
}

/// What a batch of entries is, up to the first one that is none.
pub open spec fn entries_of(entries: Seq<ListingEntry>) -> Result<Seq<DirectoryEntry>, IoErrorView>
    decreases entries.len(),
{
    if entries.len() == 0 {
        Ok(Seq::empty())
    } else {
        match entries_of(entries.drop_last()) {
            Err(e) => Err(e),
            Ok(init) => match entry_of(entries.last()) {
                Err(e) => Err(e),
                Ok(entry) => Ok(init.push(entry)),
            },
        }
    }
}

/// An error anywhere in the first entries is the error of all.
proof fn lemma_entries_error(entries: Seq<ListingEntry>, n: int)
    requires
        0 <= n <= entries.len(),
        entries_of(entries.take(n)) is Err,
    ensures
        entries_of(entries) == entries_of(entries.take(n)),
    decreases entries.len(),
{
    if n == entries.len() {
        assert(entries.take(n) =~= entries);
    } else {
        assert(entries.drop_last().take(n) =~= entries.take(n));
        lemma_entries_error(entries.drop_last(), n);
    }
}

/// What a batch that a server sends is.
pub open spec fn batch_of(entries: Seq<ListingEntry>) -> Result<Seq<DirectoryEntry>, IoErrorView> {
    if entries.len() == 0 {
        Err(bad_data("server returned an empty listing batch"@))
    } else {
        entries_of(entries)
    }
}

/// Converts a batch of entries that a server sent.
pub fn convert_batch(entries: &Vec<ListingEntry>) -> (r: Result<Vec<DirectoryEntry>, IoError>)
    ensures
        match r {
            Ok(converted) => batch_of(entries@) == Ok::<Seq<DirectoryEntry>, IoErrorView>(
                converted@,
            ),
            Err(e) => batch_of(entries@) == Err::<Seq<DirectoryEntry>, IoErrorView>(e@),
        },
{
    if entries.len() == 0 {
        return Err(invalid_data("server returned an empty listing batch"));
    }
    let mut out: Vec<DirectoryEntry> = Vec::new();
    let mut i: usize = 0;
    proof {
        assert(entries@.take(0) =~= Seq::empty());
    }
    while i < entries.len()
        invariant
            i <= entries@.len(),
            entries@.len() > 0,
            entries_of(entries@.take(i as int)) == Ok::<Seq<DirectoryEntry>, IoErrorView>(out@),
        decreases entries@.len() - i,
    {
        proof {
            assert(entries@.take(i + 1).drop_last() =~= entries@.take(i as int));
            assert(entries@.take(i + 1).last() == entries@[i as int]);
        }
        match convert_entry(&entries[i]) {
            Err(e) => {
                proof {
                    lemma_entries_error(entries@, i + 1);
                }
                return Err(e);
            },
            Ok(entry) => {
                out.push(entry);
            },
        }
        i = i + 1;
    }
    proof {
        assert(entries@.take(i as int) =~= entries@);
    }
    Ok(out)
}

/// The kind of I/O failure that a refused operation is reported as.
pub open spec fn operation_kind(code: GrpcCode) -> IoErrorKind {
    match code {
        GrpcCode::NotFound => IoErrorKind::NotFound,
        GrpcCode::PermissionDenied => IoErrorKind::PermissionDenied,
        GrpcCode::InvalidArgument => IoErrorKind::InvalidInput,
        GrpcCode::FailedPrecondition => IoErrorKind::NotADirectory,
        GrpcCode::Cancelled => IoErrorKind::Interrupted,
        GrpcCode::DeadlineExceeded => IoErrorKind::TimedOut,
        GrpcCode::Unavailable => IoErrorKind::ConnectionAborted,
        _ => IoErrorKind::Other,
    }
}

/// The I/O failure that a refused operation is reported as.
pub open spec fn operation_failure(status: GrpcStatus) -> IoErrorView {
    io_failure(operation_kind(status.code), status.message@)
}

/// The I/O failure that a refused operation is reported as.
pub fn operation_status_error(status: &GrpcStatus) -> (r: IoError)
    ensures
        r@ == operation_failure(*status),
{
    let kind = match status.code {
        GrpcCode::NotFound => IoErrorKind::NotFound,
        GrpcCode::PermissionDenied => IoErrorKind::PermissionDenied,
        GrpcCode::InvalidArgument => IoErrorKind::InvalidInput,
        GrpcCode::FailedPrecondition => IoErrorKind::NotADirectory,
        GrpcCode::Cancelled => IoErrorKind::Interrupted,
        GrpcCode::DeadlineExceeded => IoErrorKind::TimedOut,
        GrpcCode::Unavailable => IoErrorKind::ConnectionAborted,
        _ => IoErrorKind::Other,
    };
    IoError { kind, message: status.message.clone() }
}

/// The I/O failure that a refused read is reported as: what is not a file is a directory.
pub open spec fn read_failure(status: GrpcStatus) -> IoErrorView {
    if status.code == GrpcCode::FailedPrecondition {
        io_failure(IoErrorKind::IsADirectory, status.message@)
    } else {
        operation_failure(status)
    }
}

/// The I/O failure that a refused read is reported as.
pub fn read_status_error(status: &GrpcStatus) -> (r: IoError)
    ensures
        r@ == read_failure(*status),
{
    if status.code == GrpcCode::FailedPrecondition {
        IoError { kind: IoErrorKind::IsADirectory, message: status.message.clone() }
    } else {
        operation_status_error(status)
    }
}

/// The kinds of failure of the file system on this machine.
#[derive(Clone, Copy, Debug, PartialEq, Eq, Structural)]
pub enum FsErrorKind {
    InvalidArgument,
    NotFound,
    PermissionDenied,
    NotDirectory,
    NotFile,
    Cancelled,
    Internal,
}

/// A failure of the file system on this machine.
#[derive(Debug, PartialEq, Eq)]
pub struct FsError {
    pub kind: FsErrorKind,
    pub message: String,
}

/// The kind of I/O failure that a failure of the file system is reported as.
pub open spec fn fs_kind(kind: FsErrorKind) -> IoErrorKind {
    match kind {
        FsErrorKind::InvalidArgument => IoErrorKind::InvalidInput,
        FsErrorKind::NotFound => IoErrorKind::NotFound,
        FsErrorKind::PermissionDenied => IoErrorKind::PermissionDenied,
        FsErrorKind::NotDirectory => IoErrorKind::NotADirectory,
        FsErrorKind::NotFile => IoErrorKind::IsADirectory,
        FsErrorKind::Cancelled => IoErrorKind::Interrupted,
        FsErrorKind::Internal => IoErrorKind::Other,
    }
}

/// The I/O failure that a failure of the file system is reported as.
pub open spec fn fs_failure(error: FsError) -> IoErrorView {
    io_failure(fs_kind(error.kind), error.message@)
}

/// The I/O failure that a failure of the file system is reported as.
pub fn fs_error(error: &FsError) -> (r: IoError)
    ensures
        r@ == fs_failure(*error),
{
    let kind = match error.kind {
        FsErrorKind::InvalidArgument => IoErrorKind::InvalidInput,
        FsErrorKind::NotFound => IoErrorKind::NotFound,
        FsErrorKind::PermissionDenied => IoErrorKind::PermissionDenied,
        FsErrorKind::NotDirectory => IoErrorKind::NotADirectory,
        FsErrorKind::NotFile => IoErrorKind::IsADirectory,
        FsErrorKind::Cancelled => IoErrorKind::Interrupted,
        FsErrorKind::Internal => IoErrorKind::Other,
    };
    IoError { kind, message: error.message.clone() }
}

/// The code under which a server reports a failure of its file system.
pub open spec fn fs_code(kind: FsErrorKind) -> GrpcCode {
    match kind {
        FsErrorKind::InvalidArgument => GrpcCode::InvalidArgument,
        FsErrorKind::NotFound => GrpcCode::NotFound,
        FsErrorKind::PermissionDenied => GrpcCode::PermissionDenied,
        FsErrorKind::NotDirectory => GrpcCode::FailedPrecondition,
        FsErrorKind::NotFile => GrpcCode::FailedPrecondition,
        FsErrorKind::Cancelled => GrpcCode::Cancelled,
        FsErrorKind::Internal => GrpcCode::Internal,
    }
}

/// A failure of the file system is reported alike whether it happened on this machine or on
/// another: in any operation where what was expected is a directory, and in reads where it is a
/// file.
pub proof fn law_errors_do_not_depend_on_the_machine(error: FsError, status: GrpcStatus)
    requires
        status.code == fs_code(error.kind),
        status.message@ == error.message@,
    ensures
        error.kind != FsErrorKind::NotFile ==> operation_failure(status) == fs_failure(error),
        error.kind != FsErrorKind::NotDirectory ==> read_failure(status) == fs_failure(error),
{
}

/// The error of a path that does not start at the root.
pub open spec fn not_absolute(description: Seq<char>) -> IoErrorView {
    bad_data("server returned a non-absolute "@ + description)
}

/// Accepts a path that starts at the root.
pub fn validate_absolute_path(path: String, description: &str) -> (r: Result<String, IoError>)
    ensures
        converts(
            r,
            if is_absolute_path(path@) {
                Ok(path)
            } else {
                Err(not_absolute(description@))
            },
        ),
{
    if is_absolute(&path) {
        Ok(path)
    } else {
        Err(
            IoError {
                kind: IoErrorKind::InvalidData,
                message: concat2("server returned a non-absolute ", description),
            },
        )
    }
}

/// Accepts a path that is made of steps down alone.
pub fn validate_relative_path(path: &str) -> (r: Result<(), IoError>)
    ensures
        r is Ok <==> is_descendant(path@),
        r matches Err(e) ==> e@ == bad_data("server returned an invalid walk relative path"@),
{
    if leads_down(path) {
        Ok(())
    } else {
        Err(invalid_data("server returned an invalid walk relative path"))
    }
}

/// What an entry of a tree that a server sends is.
pub open spec fn walk_entry_of(entry: ProtocolWalkEntry) -> Result<WalkEntry, IoErrorView> {
    if !is_descendant(entry.relative_path@) {
        Err(bad_data("server returned an invalid walk relative path"@))
    } else if entry.depth == 0 {
        Err(bad_data("server returned walk depth 0"@))
    } else if entry.depth > usize::MAX {
        Err(bad_data("server returned walk depth outside the client range"@))
    } else {
        match entry.entry {
            None => Err(bad_data("server returned a walk entry without listing metadata"@)),
            Some(nested) => match entry_of(nested) {
                Err(e) => Err(e),
                Ok(nested) => Ok(
                    WalkEntry {
                        relative_path: entry.relative_path,
                        entry: nested,
                        depth: entry.depth as usize,
                    },
                ),
            },
        }
    }
}

/// Converts an entry of a tree that a server sent.
pub fn convert_walk_entry(entry: &ProtocolWalkEntry) -> (r: Result<WalkEntry, IoError>)
    ensures
        converts(r, walk_entry_of(*entry)),
{
    match validate_relative_path(&entry.relative_path) {
        Err(e) => {
            return Err(e);
        },
        Ok(_) => {},
    }
    if entry.depth == 0 {
        return Err(invalid_data("server returned walk depth 0"));
    }
    if entry.depth > usize::MAX as u64 {
        return Err(invalid_data("server returned walk depth outside the client range"));
    }
    let nested = match &entry.entry {
        None => {
            return Err(invalid_data("server returned a walk entry without listing metadata"));
        },
        Some(nested) => nested,
    };
    match convert_entry(nested) {
        Err(e) => Err(e),
        Ok(converted) => Ok(
            WalkEntry {
                relative_path: entry.relative_path.clone(),
                entry: converted,
                depth: entry.depth as usize,
            },
        ),
    }
}

/// What a server's answer to a request for a path means.
pub fn resolve_path(answer: Result<String, GrpcStatus>) -> (r: Result<String, IoError>)
    ensures
        converts(
            r,
            match answer {
                Err(status) => Err(operation_failure(status)),
                Ok(path) => if is_absolute_path(path@) {
                    Ok(path)
                } else {
                    Err(not_absolute("resolved path"@))
                },
            },
        ),
{
    match answer {
        Err(status) => Err(operation_status_error(&status)),
        Ok(path) => validate_absolute_path(path, "resolved path"),
    }
}

} // verus!
