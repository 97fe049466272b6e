//! Opening files with the applications of this machine.

use vstd::prelude::*;

use crate::api::{failure, ErrorClass, FilePeekerError};
use crate::io_error::{io_failure, with_context, IoError, IoErrorKind, IoErrorView};
use crate::session::{closed_session, session_closed, SessionTarget};
use crate::session::stage::in_context;
use crate::text::{concat2, concat3, concat4, push_text, texts};

verus! {

/// How far opening a file has come.
#[derive(Debug, PartialEq, Eq)]
pub enum OpenPhase {
    /// Resolve the path on the target.
    Resolve,
    /// Start to read the file at this path.
    Read(String),
    /// Keep a copy of the file at this path.
    Stage(String),
    /// Open the file at this path of this machine.
    Open(String),
    Opened,
    Failed(IoError),
}

/// What came of the last step.
#[derive(Debug, PartialEq, Eq)]
pub enum OpenEvent {
    Resolved(Result<String, IoError>),
    ReadStarted(Result<(), IoError>),
    /// Where the copy is kept.
    Staged(Result<String, IoError>),
    Opened(Result<(), IoError>),
}

/// A file being opened.
#[derive(Debug, PartialEq, Eq)]
pub struct OpenFile {
    pub target: SessionTarget,
    pub path: String,
    pub phase: OpenPhase,
}

/// Whether `phase` is this failure.
pub open spec fn open_failed(phase: OpenPhase, e: IoErrorView) -> bool {
    phase matches OpenPhase::Failed(error) && error@ == e
}

impl OpenFile {
    /// Whether opening moves to `after` when `event` comes. A file of this machine is opened where
    /// it is; of any other a copy is made first.
    pub open spec fn next(self, event: OpenEvent, after: OpenPhase) -> bool {
        match (self.phase, event) {
            (OpenPhase::Resolve, OpenEvent::Resolved(Ok(resolved))) => after == OpenPhase::Read(
                resolved,
            ),
            (OpenPhase::Resolve, OpenEvent::Resolved(Err(e))) => open_failed(
                after,
                in_context(e@, "cannot resolve file path `"@, self.path@, "`"@),
            ),
            (OpenPhase::Read(resolved), OpenEvent::ReadStarted(Ok(_))) => match self.target {
                SessionTarget::Local => after == OpenPhase::Open(resolved),
                SessionTarget::Remote { .. } => after == OpenPhase::Stage(resolved),
            },
            (OpenPhase::Read(resolved), OpenEvent::ReadStarted(Err(e))) => open_failed(
                after,
                in_context(e@, "cannot start reading `"@, resolved@, "`"@),
            ),
            (OpenPhase::Stage(_), OpenEvent::Staged(Ok(copy))) => after == OpenPhase::Open(copy),
            (OpenPhase::Stage(resolved), OpenEvent::Staged(Err(e))) => open_failed(
                after,
                in_context(e@, "cannot stage remote file `"@, resolved@, "`"@),
            ),
            (OpenPhase::Open(_), OpenEvent::Opened(Ok(_))) => after is Opened,
            (OpenPhase::Open(local), OpenEvent::Opened(Err(e))) => open_failed(
                after,
                in_context(e@, "cannot open file `"@, local@, "`"@),
            ),
            (phase, _) => after == phase,
        }
    }

    /// Starts to open the file at `path` of an open session; a closed one cannot.
    pub fn op_open_file(open: bool, target: SessionTarget, path: String) -> (r: Result<Self, IoError>)
        ensures
            match r {
                Ok(f) => open && f.target == target && f.path == path && f.phase is Resolve,
                Err(e) => !open && e@ == closed_session(),
            },
    {
        if open {
            Ok(OpenFile { target, path, phase: OpenPhase::Resolve })
        } else {
            Err(session_closed())
        }
    }

    /// Takes in what came of the last step.
    pub fn advance(self, event: OpenEvent) -> (r: Self)
        ensures
            r.target == self.target,
            r.path == self.path,
            self.next(event, r.phase),
    {
        let OpenFile { target, path, phase } = self;
        let after = match (phase, event) {
            (OpenPhase::Resolve, OpenEvent::Resolved(Ok(resolved))) => OpenPhase::Read(resolved),
            (OpenPhase::Resolve, OpenEvent::Resolved(Err(e))) => OpenPhase::Failed(
                explained(&e, "cannot resolve file path `", &path),
            ),
            (OpenPhase::Read(resolved), OpenEvent::ReadStarted(Ok(_))) => match &target {
                SessionTarget::Local => OpenPhase::Open(resolved),
                SessionTarget::Remote { .. } => OpenPhase::Stage(resolved),
            },
            (OpenPhase::Read(resolved), OpenEvent::ReadStarted(Err(e))) => OpenPhase::Failed(
                explained(&e, "cannot start reading `", &resolved),
            ),
            (OpenPhase::Stage(_), OpenEvent::Staged(Ok(copy))) => OpenPhase::Open(copy),
            (OpenPhase::Stage(resolved), OpenEvent::Staged(Err(e))) => OpenPhase::Failed(
                explained(&e, "cannot stage remote file `", &resolved),
            ),
            (OpenPhase::Open(_), OpenEvent::Opened(Ok(_))) => OpenPhase::Opened,
            (OpenPhase::Open(local), OpenEvent::Opened(Err(e))) => OpenPhase::Failed(
                explained(&e, "cannot open file `", &local),
            ),
            (phase, _) => phase,
        };
        OpenFile { target, path, phase: after }
    }
}

fn explained(e: &IoError, head: &str, path: &str) -> (r: IoError)
    ensures
        r@ == in_context(e@, head@, path@, "`"@),
{
    let context = concat3(head, path, "`");
    with_context(e, &context)
}

/// No application is asked to open anything before the file was resolved, reading it could be
/// started and, where it is not on this machine, a whole copy of it was made.
pub proof fn law_failures_do_not_reach_the_application(f: OpenFile, event: OpenEvent, after: OpenPhase)
    requires
        f.next(event, after),
        after is Open,
        !(f.phase is Open),
    ensures
        (f.target is Local && f.phase == OpenPhase::Read(after->Open_0) && (event matches
            OpenEvent::ReadStarted(Ok(_)))) || (f.phase is Stage && event == OpenEvent::Staged(
            Ok(after->Open_0),
        )),
{
}

/// The program that opens files on the systems that have it.
pub const SYSTEM_OPENER: &'static str = "/usr/bin/open";

/// What came of asking the system to open a file.
#[derive(Debug, PartialEq, Eq)]
pub enum OpenerOutcome {
    /// The system has no way to do so.
    Unsupported,
    NotSpawned(IoError),
    /// Whether the opener succeeded, and its status in words.
    Exited { success: bool, status: String },
}

/// What is wrong with how the system opened a file, if anything.
pub open spec fn opener_error(outcome: OpenerOutcome) -> Option<IoErrorView> {
    match outcome {
        OpenerOutcome::Unsupported => Some(
            io_failure(IoErrorKind::Unsupported, "opening files is supported only on macOS"@),
        ),
        OpenerOutcome::NotSpawned(e) => Some(e@),
        OpenerOutcome::Exited { success, status } => if success {
            None
        } else {
            Some(
                io_failure(
                    IoErrorKind::Other,
                    "/usr/bin/open exited unsuccessfully with "@ + status@,
                ),
            )
        },
    }
}

/// Judges how the system opened a file.
pub fn system_open(outcome: OpenerOutcome) -> (r: Result<(), IoError>)
    ensures
        match r {
            Ok(_) => opener_error(outcome) is None,
            Err(e) => opener_error(outcome) == Some(e@),
        },
{
    match outcome {
        OpenerOutcome::Unsupported => Err(
            IoError::new(IoErrorKind::Unsupported, "opening files is supported only on macOS"),
        ),
        OpenerOutcome::NotSpawned(e) => Err(e),
        OpenerOutcome::Exited { success, status } => {
            if success {
                Ok(())
            } else {
                Err(
                    IoError {
                        kind: IoErrorKind::Other,
                        message: concat2("/usr/bin/open exited unsuccessfully with ", &status),
                    },
                )
            }
        },
    }
}

/// The arguments that make the opener open `path`, whatever it starts with.
pub fn opener_arguments(path: &str) -> (r: Vec<String>)
    ensures
        texts(r@) == seq!["--"@, path@],
{
    let mut v: Vec<String> = Vec::new();
    push_text(&mut v, "--");
    push_text(&mut v, path);
    proof {
        assert(texts(v@) =~= seq!["--"@, path@]);
    }
    v
}

/// What opening a path of a session's target takes: the opener's arguments on this machine, and
/// nothing on any other.
pub fn open(target: &SessionTarget, path: &str) -> (r: Option<Vec<String>>)
    ensures
        match target {
            SessionTarget::Local => r matches Some(arguments) && texts(arguments@) == seq![
                "--"@,
                path@,
            ],
            SessionTarget::Remote { .. } => r is None,
        },
{
    match target {
        SessionTarget::Local => Some(opener_arguments(path)),
        SessionTarget::Remote { .. } => None,
    }
}

/// Judges how the opener opened `path`: its status, or why it was not started.
pub fn open_local(path: &str, outcome: Result<(bool, String), IoError>) -> (r: Result<
    (),
    FilePeekerError,
>)
    ensures
        match outcome {
            Err(error) => r matches Err(e) && e@ == failure(
                ErrorClass::Io,
                "cannot open `"@ + path@ + "` with the system application: "@ + error@.message,
            ),
            Ok((true, _)) => r is Ok,
            Ok((false, status)) => r matches Err(e) && e@ == failure(
                ErrorClass::Io,
                "system application failed to open `"@ + path@ + "`: "@ + status@,
            ),
        },
{
    match outcome {
        Err(error) => Err(
            FilePeekerError::Io {
                message: concat4(
                    "cannot open `",
                    path,
                    "` with the system application: ",
                    &error.message,
                ),
            },
        ),
        Ok((true, _)) => Ok(()),
        Ok((false, status)) => Err(
            FilePeekerError::Io {
                message: concat4("system application failed to open `", path, "`: ", &status),
            },
        ),
    }
}

} // verus!
