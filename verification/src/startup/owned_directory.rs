//! Making sure that a directory of ours exists, is a real one and belongs to the right user.

use vstd::prelude::*;

use crate::api::FilePeekerError;
use crate::io_error::{IoError, IoErrorKind};
use crate::startup::runtime::start_failure;
use crate::text::{concat3, concat4};

verus! {

/// What is known of a path without following a link.
#[derive(Clone, Copy, Debug, PartialEq, Eq, Structural)]
pub struct FileFacts {
    pub is_symlink: bool,
    pub is_dir: bool,
    pub owner: u32,
}

/// What remains to be done about a directory.
#[derive(Debug, PartialEq, Eq)]
pub enum OwnedPhase {
    Inspect,
    Create,
    /// Set the permissions to this mode.
    Secure(u32),
    Done,
    Failed(FilePeekerError),
}

/// What came of the last step.
#[derive(Debug, PartialEq, Eq)]
pub enum OwnedEvent {
    Inspected(Result<FileFacts, IoError>),
    Created(Result<(), IoError>),
    Secured(Result<(), IoError>),
}

/// A directory on its way to being usable.
#[derive(Debug, PartialEq, Eq)]
pub struct OwnedDirectory {
    pub path: String,
    pub owner: u32,
    pub mode: Option<u32>,
    pub phase: OwnedPhase,
}

/// Whether `phase` is the failure to start the server with this text.
pub open spec fn owned_failed(phase: OwnedPhase, message: Seq<char>) -> bool {
    phase matches OwnedPhase::Failed(e) && e@ == start_failure(message)
}

/// Whether a path with these facts may be used by `owner`.
pub open spec fn usable(facts: FileFacts, owner: u32) -> bool {
    !facts.is_symlink && facts.is_dir && facts.owner == owner
}

/// What follows once the directory was found usable.
pub open spec fn after_found(mode: Option<u32>) -> OwnedPhase {
    match mode {
        Some(mode) => OwnedPhase::Secure(mode),
        None => OwnedPhase::Done,
    }
}

/// Whether `after` is where the directory `d` stands once `event` has come. A missing directory
/// is created and looked at again, even where another process was faster; an event that is not
/// waited for changes nothing.
pub open spec fn owned_next(d: OwnedDirectory, event: OwnedEvent, after: OwnedPhase) -> bool {
    match (d.phase, event) {
        (OwnedPhase::Inspect, OwnedEvent::Inspected(Ok(facts))) => if facts.is_symlink
            || !facts.is_dir {
            owned_failed(after, "runtime path `"@ + d.path@ + "` is not a real directory"@)
        } else if facts.owner != d.owner {
            owned_failed(after, "runtime path `"@ + d.path@ + "` has unexpected ownership"@)
        } else {
            after == after_found(d.mode)
        },
        (OwnedPhase::Inspect, OwnedEvent::Inspected(Err(e))) => if e.kind == IoErrorKind::NotFound {
            after is Create
        } else {
            owned_failed(
                after,
                "cannot inspect runtime directory `"@ + d.path@ + "`: "@ + e@.message,
            )
        },
        (OwnedPhase::Create, OwnedEvent::Created(Ok(_))) => after is Inspect,
        (OwnedPhase::Create, OwnedEvent::Created(Err(e))) => if e.kind
            == IoErrorKind::AlreadyExists {
            after is Inspect
        } else {
            owned_failed(
                after,
                "cannot create runtime directory `"@ + d.path@ + "`: "@ + e@.message,
            )
        },
        (OwnedPhase::Secure(_), OwnedEvent::Secured(Ok(_))) => after is Done,
        (OwnedPhase::Secure(_), OwnedEvent::Secured(Err(e))) => owned_failed(
            after,
            "cannot secure runtime directory `"@ + d.path@ + "`: "@ + e@.message,
        ),
        (phase, _) => after == phase,
    }
}

/// A directory gets past inspection only when it was just seen to be a real directory of the
/// expected owner, and where a mode is asked for it is done only when that mode was set.
pub proof fn law_only_usable_directories_pass(d: OwnedDirectory, event: OwnedEvent, after: OwnedPhase)
    requires
        owned_next(d, event, after),
        after is Secure || after is Done,
        after != d.phase,
    ensures
        d.phase is Inspect ==> (event matches OwnedEvent::Inspected(Ok(facts)) && usable(
            facts,
            d.owner,
        )),
        d.phase is Inspect || (d.phase is Secure && event matches OwnedEvent::Secured(Ok(_))),
        (after is Done && d.mode is Some) ==> d.phase is Secure,
{
}

fn failed3(a: &str, b: &str, c: &str) -> (r: OwnedPhase)
    ensures
        owned_failed(r, a@ + b@ + c@),
{
    OwnedPhase::Failed(FilePeekerError::ServerStart { message: concat3(a, b, c) })
}

fn failed4(a: &str, b: &str, c: &str, d: &str) -> (r: OwnedPhase)
    ensures
        owned_failed(r, a@ + b@ + c@ + d@),
{
    OwnedPhase::Failed(FilePeekerError::ServerStart { message: concat4(a, b, c, d) })
}

impl OwnedDirectory {
    /// A directory that has to belong to `owner` and, where a mode is given, to have it.
    pub fn new(path: String, owner: u32, mode: Option<u32>) -> (r: Self)
        ensures
            r.path == path,
            r.owner == owner,
            r.mode == mode,
            r.phase is Inspect,
    {
        OwnedDirectory { path, owner, mode, phase: OwnedPhase::Inspect }
    }

    /// Takes in what came of the last step.
    pub fn ensure_owned_directory(self, event: OwnedEvent) -> (r: Self)
        ensures
            r.path == self.path,
            r.owner == self.owner,
            r.mode == self.mode,
            owned_next(self, event, r.phase),
    {
        let OwnedDirectory { path, owner, mode, phase } = self;
        let after = match (phase, event) {
            (OwnedPhase::Inspect, OwnedEvent::Inspected(Ok(facts))) => {
                if facts.is_symlink || !facts.is_dir {
                    failed3("runtime path `", &path, "` is not a real directory")
                } else if facts.owner != owner {
                    failed3("runtime path `", &path, "` has unexpected ownership")
                } else {
                    match mode {
                        Some(mode) => OwnedPhase::Secure(mode),
                        None => OwnedPhase::Done,
                    }
                }
            },
            (OwnedPhase::Inspect, OwnedEvent::Inspected(Err(e))) => {
                if e.kind == IoErrorKind::NotFound {
                    OwnedPhase::Create
                } else {
                    failed4("cannot inspect runtime directory `", &path, "`: ", &e.message)
                }
            },
            (OwnedPhase::Create, OwnedEvent::Created(Ok(_))) => OwnedPhase::Inspect,
            (OwnedPhase::Create, OwnedEvent::Created(Err(e))) => {
                if e.kind == IoErrorKind::AlreadyExists {
                    OwnedPhase::Inspect
                } else {
                    failed4("cannot create runtime directory `", &path, "`: ", &e.message)
                }
            },
            (OwnedPhase::Secure(_), OwnedEvent::Secured(Ok(_))) => OwnedPhase::Done,
            (OwnedPhase::Secure(_), OwnedEvent::Secured(Err(e))) => failed4(
                "cannot secure runtime directory `",
                &path,
                "`: ",
                &e.message,
            ),
            (phase, _) => phase,
        };
        OwnedDirectory { path, owner, mode, phase: after }
    }
}

} // verus!
