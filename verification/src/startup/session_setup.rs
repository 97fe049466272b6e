//! Creating the files of a new session below the home directory.

use vstd::prelude::*;

use crate::api::FilePeekerError;
use crate::ids::is_simple_uuid;
use crate::io_error::IoError;
use crate::startup::owned_directory::{owned_next, FileFacts, OwnedDirectory, OwnedEvent, OwnedPhase};
use crate::startup::runtime::{
    logs_path, root_path, run_path, socket_path_error, start_failure, validate_socket_path,
    SessionDirectory,
};
use crate::text::{concat3, concat4};
use crate::unix_path::{is_plain_name, join, joined};

verus! {

/// Permissions of directories that hold private files.
pub const PRIVATE_DIRECTORY_MODE: u32 = 448;

/// Permissions of private files.
pub const PRIVATE_FILE_MODE: u32 = 384;

/// The directories that all sessions share.
#[derive(Clone, Copy, Debug, PartialEq, Eq, Structural)]
pub enum SharedDirectory {
    Root,
    Run,
    Logs,
}

/// How far the setup has come.
#[derive(Debug, PartialEq, Eq)]
pub enum SetupPhase {
    InspectHome,
    Shared(SharedDirectory, OwnedDirectory),
    CreateSession,
    SecureSession,
    CreateLog,
    RotateLogs,
    /// Remove the session's directory, then report the error.
    RemoveSession(FilePeekerError),
    Ready,
    Failed(FilePeekerError),
}

/// What came of the last step.
#[derive(Debug, PartialEq, Eq)]
pub enum SetupEvent {
    HomeInspected(Result<FileFacts, IoError>),
    Shared(OwnedEvent),
    SessionCreated(Result<(), IoError>),
    SessionSecured(Result<(), IoError>),
    LogCreated(Result<(), IoError>),
    LogsRotated,
    SessionRemoved,
}

/// What has to be done next.
#[derive(Debug, PartialEq, Eq)]
pub enum SetupAction {
    /// Look at what stands at the path, without following a link.
    Inspect { path: String },
    CreateDirectory { path: String },
    SetMode { path: String, mode: u32 },
    /// Create a file that is not there yet.
    CreateFile { path: String, mode: u32 },
    /// Remove old logs from beside this one.
    RotateLogs { current: String },
    /// Remove the directory with all that it holds.
    RemoveDirectory { path: String },
    Nothing,
}

/// A session whose files are being created.
#[derive(Debug, PartialEq, Eq)]
pub struct SessionSetup {
    pub home: String,
    pub owner: u32,
    pub directory: SessionDirectory,
    pub phase: SetupPhase,
}

/// The path of a shared directory.
pub open spec fn shared_path(home: Seq<char>, which: SharedDirectory) -> Seq<char> {
    match which {
        SharedDirectory::Root => root_path(home),
        SharedDirectory::Run => run_path(home),
        SharedDirectory::Logs => logs_path(home),
    }
}

/// The permissions that a shared directory is given, if any.
pub open spec fn shared_mode(which: SharedDirectory) -> Option<u32> {
    match which {
        SharedDirectory::Root => None,
        _ => Some(PRIVATE_DIRECTORY_MODE),
    }
}

/// Whether `phase` is the start of work on a shared directory.
pub open spec fn starts_shared(
    phase: SetupPhase,
    home: Seq<char>,
    owner: u32,
    which: SharedDirectory,
) -> bool {
    phase matches SetupPhase::Shared(w, d) && {
        &&& w == which
        &&& d.path@ == shared_path(home, which)
        &&& d.owner == owner
        &&& d.mode == shared_mode(which)
        &&& d.phase is Inspect
    }
}

/// Whether `phase` is the failure to start the server with this text.
pub open spec fn setup_failed(phase: SetupPhase, message: Seq<char>) -> bool {
    phase matches SetupPhase::Failed(e) && e@ == start_failure(message)
}

impl SessionSetup {
    /// Shared directories are checked one after the other for the owner of the home directory,
    /// and the session's files stand below it.
    pub open spec fn wf(self) -> bool {
        &&& self.directory.belongs(self.home@, self.directory.spec_id())
        &&& self.phase matches SetupPhase::Shared(which, d) ==> {
            &&& d.path@ == shared_path(self.home@, which)
            &&& d.owner == self.owner
            &&& d.mode == shared_mode(which)
            &&& d.phase matches OwnedPhase::Secure(mode) ==> Some(mode) == shared_mode(which)
        }
        &&& self.phase is Ready ==> socket_path_error(self.spec_socket()) is None
    }

    /// Whether `action` is what has to be done next. What the session keeps to itself is closed to
    /// everybody but its owner.
    pub open spec fn asks(self, action: SetupAction) -> bool {
        match self.phase {
            SetupPhase::InspectHome => action matches SetupAction::Inspect { path } && path@
                == self.home@,
            SetupPhase::Shared(which, d) => match d.phase {
                OwnedPhase::Inspect => action matches SetupAction::Inspect { path } && path@
                    == shared_path(self.home@, which),
                OwnedPhase::Create => action matches SetupAction::CreateDirectory { path } && path@
                    == shared_path(self.home@, which),
                OwnedPhase::Secure(_) => action matches SetupAction::SetMode { path, mode } && path@
                    == shared_path(self.home@, which) && mode == 448,
                _ => action is Nothing,
            },
            SetupPhase::CreateSession => action matches SetupAction::CreateDirectory { path }
                && path@ == self.directory.spec_path(),
            SetupPhase::SecureSession => action matches SetupAction::SetMode { path, mode } && path@
                == self.directory.spec_path() && mode == 448,
            SetupPhase::CreateLog => action matches SetupAction::CreateFile { path, mode } && path@
                == self.directory.spec_log_path() && mode == 384,
            SetupPhase::RotateLogs => action matches SetupAction::RotateLogs { current }
                && current@ == self.directory.spec_log_path(),
            SetupPhase::RemoveSession(_) => action matches SetupAction::RemoveDirectory { path }
                && path@ == self.directory.spec_path(),
            SetupPhase::Ready | SetupPhase::Failed(_) => action is Nothing,
        }
    }

    /// The socket that the session's server will listen on.
    pub open spec fn spec_socket(self) -> Seq<char> {
        joined(self.directory.spec_path(), "server.sock"@)
    }

    /// Whether the setup moves from `self` to `after` when `event` comes.
    pub open spec fn next(self, event: SetupEvent, after: Self) -> bool {
        &&& after.home == self.home
        &&& after.directory == self.directory
        &&& match (self.phase, event) {
            (SetupPhase::InspectHome, SetupEvent::HomeInspected(Ok(facts))) => if facts.is_dir
                && !facts.is_symlink {
                &&& after.owner == facts.owner
                &&& starts_shared(after.phase, self.home@, facts.owner, SharedDirectory::Root)
            } else {
                &&& after.owner == self.owner
                &&& setup_failed(
                    after.phase,
                    "home path `"@ + self.home@ + "` is not a real directory"@,
                )
            },
            (SetupPhase::InspectHome, SetupEvent::HomeInspected(Err(e))) => {
                &&& after.owner == self.owner
                &&& setup_failed(
                    after.phase,
                    "cannot inspect home directory `"@ + self.home@ + "`: "@ + e@.message,
                )
            },
            (SetupPhase::Shared(which, d), SetupEvent::Shared(step)) => {
                &&& after.owner == self.owner
                &&& exists|to: OwnedPhase| #[trigger] owned_next(d, step, to) && shared_next(self, which, to, after.phase)
            },
            (SetupPhase::CreateSession, SetupEvent::SessionCreated(Ok(_))) => {
                &&& after.owner == self.owner
                &&& after.phase is SecureSession
            },
            (SetupPhase::CreateSession, SetupEvent::SessionCreated(Err(e))) => {
                &&& after.owner == self.owner
                &&& setup_failed(
                    after.phase,
                    "cannot create session directory `"@ + self.directory.spec_path() + "`: "@
                        + e@.message,
                )
            },
            (SetupPhase::SecureSession, SetupEvent::SessionSecured(Ok(_))) => {
                &&& after.owner == self.owner
                &&& after.phase is CreateLog
            },
            (SetupPhase::SecureSession, SetupEvent::SessionSecured(Err(e))) => {
                &&& after.owner == self.owner
                &&& setup_failed(
                    after.phase,
                    "cannot secure session directory `"@ + self.directory.spec_path() + "`: "@
                        + e@.message,
                )
            },
            (SetupPhase::CreateLog, SetupEvent::LogCreated(Ok(_))) => {
                &&& after.owner == self.owner
                &&& after.phase is RotateLogs
            },
            (SetupPhase::CreateLog, SetupEvent::LogCreated(Err(e))) => {
                &&& after.owner == self.owner
                &&& setup_failed(
                    after.phase,
                    "cannot create session log `"@ + self.directory.spec_log_path() + "`: "@
                        + e@.message,
                )
            },
            (SetupPhase::RotateLogs, SetupEvent::LogsRotated) => {
                &&& after.owner == self.owner
                &&& match socket_path_error(self.spec_socket()) {
                    None => after.phase is Ready,
                    Some(error) => after.phase matches SetupPhase::RemoveSession(e) && e@ == error,
                }
            },
            (SetupPhase::RemoveSession(e), SetupEvent::SessionRemoved) => {
                &&& after.owner == self.owner
                &&& after.phase == SetupPhase::Failed(e)
            },
            (phase, _) => after.owner == self.owner && after.phase == phase,
        }
    }
}

/// Where the setup stands once a shared directory has come to `to`.
pub open spec fn shared_next(
    before: SessionSetup,
    which: SharedDirectory,
    to: OwnedPhase,
    after: SetupPhase,
) -> bool {
    match to {
        OwnedPhase::Failed(e) => after == SetupPhase::Failed(e),
        OwnedPhase::Done => match which {
            SharedDirectory::Root => starts_shared(
                after,
                before.home@,
                before.owner,
                SharedDirectory::Run,
            ),
            SharedDirectory::Run => starts_shared(
                after,
                before.home@,
                before.owner,
                SharedDirectory::Logs,
            ),
            SharedDirectory::Logs => after is CreateSession,
        },
        _ => after matches SetupPhase::Shared(w, d) && {
            &&& w == which
            &&& d.path@ == shared_path(before.home@, which)
            &&& d.owner == before.owner
            &&& d.mode == shared_mode(which)
            &&& d.phase == to
        },
    }
}

/// The number of steps that a setup in `phase` has behind it; a failed one has none left.
pub open spec fn setup_rank(phase: SetupPhase) -> int {
    match phase {
        SetupPhase::InspectHome => 0,
        SetupPhase::Shared(SharedDirectory::Root, _) => 1,
        SetupPhase::Shared(SharedDirectory::Run, _) => 2,
        SetupPhase::Shared(SharedDirectory::Logs, _) => 3,
        SetupPhase::CreateSession => 4,
        SetupPhase::SecureSession => 5,
        SetupPhase::CreateLog => 6,
        SetupPhase::RotateLogs => 7,
        SetupPhase::Ready | SetupPhase::RemoveSession(_) => 8,
        SetupPhase::Failed(_) => 9,
    }
}

/// A setup skips no step and takes none back: short of a failure, every event leaves it where it
/// is or moves it on by one.
pub proof fn law_setup_skips_no_step(before: SessionSetup, event: SetupEvent, after: SessionSetup)
    requires
        before.next(event, after),
    ensures
        after.phase is Failed || setup_rank(after.phase) == setup_rank(before.phase) || setup_rank(
            after.phase,
        ) == setup_rank(before.phase) + 1,
        before.phase is Failed ==> after == before,
        before.phase is Ready ==> after == before,
{
    if let (SetupPhase::Shared(which, d), SetupEvent::Shared(step)) = (before.phase, event) {
        let to = choose|to: OwnedPhase| #[trigger]
            owned_next(d, step, to) && shared_next(before, which, to, after.phase);
        assert(shared_next(before, which, to, after.phase));
    }
}

fn failed3(a: &str, b: &str, c: &str) -> (r: SetupPhase)
    ensures
        setup_failed(r, a@ + b@ + c@),
{
    SetupPhase::Failed(FilePeekerError::ServerStart { message: concat3(a, b, c) })
}

fn failed4(a: &str, b: &str, c: &str, d: &str) -> (r: SetupPhase)
    ensures
        setup_failed(r, a@ + b@ + c@ + d@),
{
    SetupPhase::Failed(FilePeekerError::ServerStart { message: concat4(a, b, c, d) })
}

/// The start of work on a shared directory.
fn start_shared(home: &str, owner: u32, which: SharedDirectory) -> (r: SetupPhase)
    ensures
        starts_shared(r, home@, owner, which),
{
    let root = join(home, ".file-peeker");
    let (path, mode) = match which {
        SharedDirectory::Root => (root, None),
        SharedDirectory::Run => (join(&root, "run"), Some(PRIVATE_DIRECTORY_MODE)),
        SharedDirectory::Logs => (join(&root, "logs"), Some(PRIVATE_DIRECTORY_MODE)),
    };
    SetupPhase::Shared(which, OwnedDirectory::new(path, owner, mode))
}

impl SessionSetup {
    /// The setup of a session with a random name.
    pub fn create(home: String) -> (r: Self)
        ensures
            r.wf(),
            r.home == home,
            is_simple_uuid(r.directory.spec_id()),
            r.phase is InspectHome,
    {
        let directory = SessionDirectory::create(&home);
        SessionSetup { home, owner: 0, directory, phase: SetupPhase::InspectHome }
    }

    /// The setup of the session `id` below `home`.
    pub fn create_in(home: String, id: &str) -> (r: Self)
        requires
            is_plain_name(id@),
        ensures
            r.wf(),
            r.home == home,
            r.directory.spec_id() == id@,
            r.phase is InspectHome,
    {
        let directory = SessionDirectory::locate(&home, id);
        SessionSetup { home, owner: 0, directory, phase: SetupPhase::InspectHome }
    }

    /// Takes in what came of the last step.
    pub fn advance(self, event: SetupEvent) -> (r: Self)
        requires
            self.wf(),
        ensures
            self.next(event, r),
            r.wf(),
    {
        let SessionSetup { home, owner, directory, phase } = self;
        let mut owner: u32 = owner;
        let after = match (phase, event) {
            (SetupPhase::InspectHome, SetupEvent::HomeInspected(Ok(facts))) => {
                if facts.is_dir && !facts.is_symlink {
                    owner = facts.owner;
                    start_shared(&home, facts.owner, SharedDirectory::Root)
                } else {
                    failed3("home path `", &home, "` is not a real directory")
                }
            },
            (SetupPhase::InspectHome, SetupEvent::HomeInspected(Err(e))) => failed4(
                "cannot inspect home directory `",
                &home,
                "`: ",
                &e.message,
            ),
            (SetupPhase::Shared(which, d), SetupEvent::Shared(step)) => {
                let moved = d.ensure_owned_directory(step);
                proof {
                    assert(owned_next(d, step, moved.phase));
                }
                let OwnedDirectory { path: at, owner: by, mode, phase: to } = moved;
                match to {
                    OwnedPhase::Failed(e) => SetupPhase::Failed(e),
                    OwnedPhase::Done => match which {
                        SharedDirectory::Root => start_shared(&home, owner, SharedDirectory::Run),
                        SharedDirectory::Run => start_shared(&home, owner, SharedDirectory::Logs),
                        SharedDirectory::Logs => SetupPhase::CreateSession,
                    },
                    to => SetupPhase::Shared(
                        which,
                        OwnedDirectory { path: at, owner: by, mode, phase: to },
                    ),
                }
            },
            (SetupPhase::CreateSession, SetupEvent::SessionCreated(Ok(_))) => SetupPhase::SecureSession,
            (SetupPhase::CreateSession, SetupEvent::SessionCreated(Err(e))) => failed4(
                "cannot create session directory `",
                directory.path(),
                "`: ",
                &e.message,
            ),
            (SetupPhase::SecureSession, SetupEvent::SessionSecured(Ok(_))) => SetupPhase::CreateLog,
            (SetupPhase::SecureSession, SetupEvent::SessionSecured(Err(e))) => failed4(
                "cannot secure session directory `",
                directory.path(),
                "`: ",
                &e.message,
            ),
            (SetupPhase::CreateLog, SetupEvent::LogCreated(Ok(_))) => SetupPhase::RotateLogs,
            (SetupPhase::CreateLog, SetupEvent::LogCreated(Err(e))) => failed4(
                "cannot create session log `",
                directory.log_path(),
                "`: ",
                &e.message,
            ),
            (SetupPhase::RotateLogs, SetupEvent::LogsRotated) => {
                let socket = directory.socket_path();
                match validate_socket_path(&socket) {
                    Ok(_) => SetupPhase::Ready,
                    Err(e) => SetupPhase::RemoveSession(e),
                }
            },
            (SetupPhase::RemoveSession(e), SetupEvent::SessionRemoved) => SetupPhase::Failed(e),
            (phase, _) => phase,
        };
        SessionSetup { home, owner, directory, phase: after }
    }

    /// What has to be done next.
    pub fn action(&self) -> (r: SetupAction)
        requires
            self.wf(),
        ensures
            self.asks(r),
    {
        match &self.phase {
            SetupPhase::InspectHome => SetupAction::Inspect { path: self.home.clone() },
            SetupPhase::Shared(_, d) => match &d.phase {
                OwnedPhase::Inspect => SetupAction::Inspect { path: d.path.clone() },
                OwnedPhase::Create => SetupAction::CreateDirectory { path: d.path.clone() },
                OwnedPhase::Secure(mode) => SetupAction::SetMode { path: d.path.clone(), mode: *mode },
                _ => SetupAction::Nothing,
            },
            SetupPhase::CreateSession => SetupAction::CreateDirectory {
                path: self.directory.path().to_owned(),
            },
            SetupPhase::SecureSession => SetupAction::SetMode {
                path: self.directory.path().to_owned(),
                mode: PRIVATE_DIRECTORY_MODE,
            },
            SetupPhase::CreateLog => SetupAction::CreateFile {
                path: self.directory.log_path().to_owned(),
                mode: PRIVATE_FILE_MODE,
            },
            SetupPhase::RotateLogs => SetupAction::RotateLogs {
                current: self.directory.log_path().to_owned(),
            },
            SetupPhase::RemoveSession(_) => SetupAction::RemoveDirectory {
                path: self.directory.path().to_owned(),
            },
            SetupPhase::Ready | SetupPhase::Failed(_) => SetupAction::Nothing,
        }
    }

    /// What the setup came to: the files of the session, with the guard that removes its directory
    /// when the session goes, or the error.
    pub fn finish(self) -> (r: Result<(SessionDirectory, SessionGuard), FilePeekerError>)
        requires
            self.wf(),
            self.phase is Ready || self.phase is Failed,
        ensures
            match r {
                Ok((directory, guard)) => {
                    &&& self.phase is Ready
                    &&& directory == self.directory
                    &&& directory.belongs(self.home@, directory.spec_id())
                    &&& socket_path_error(joined(directory.spec_path(), "server.sock"@)) is None
                    &&& guard.armed() matches Some(path) && path@ == directory.spec_path()
                },
                Err(e) => self.phase == SetupPhase::Failed(e),
            },
    {
        let SessionSetup { home, owner, directory, phase } = self;
        match phase {
            SetupPhase::Failed(e) => Err(e),
            _ => {
                let guard = SessionGuard::new(&directory);
                Ok((directory, guard))
            },
        }
    }
}

/// The directory of a running session, which is removed when the session goes.
#[derive(Debug, PartialEq, Eq)]
pub struct SessionGuard {
    path: Option<String>,
}

impl SessionGuard {
    /// The directory that is still to be removed.
    pub closed spec fn armed(self) -> Option<String> {
        self.path
    }

    /// Guards the directory of a session.
    pub fn new(directory: &SessionDirectory) -> (r: Self)
        ensures
            r.armed() matches Some(path) && path@ == directory.spec_path(),
    {
        SessionGuard { path: Some(directory.path().to_owned()) }
    }

    /// Hands out the directory to remove, once.
    pub fn take(&mut self) -> (r: Option<String>)
        ensures
            r == old(self).armed(),
            final(self).armed() is None,
    {
        self.path.take()
    }
}

/// Whether the setup moves from its `i`th state to the next when the `i`th event comes.
pub open spec fn setup_steps(states: Seq<SessionSetup>, events: Seq<SetupEvent>, i: int) -> bool {
    states[i].next(events[i], states[i + 1])
}

/// Whether `states` are what the setup of a session passes through while `events` come.
pub open spec fn is_setup_run(states: Seq<SessionSetup>, events: Seq<SetupEvent>) -> bool {
    &&& states.len() == events.len() + 1
    &&& states[0].phase is InspectHome
    &&& forall|i: int| 0 <= i < events.len() ==> #[trigger] setup_steps(states, events, i)
}

/// Whether the `i`th step of a setup made `path` private: whoever did what was asked for gave it
/// these permissions, and it succeeded.
pub open spec fn made_private(
    states: Seq<SessionSetup>,
    events: Seq<SetupEvent>,
    i: int,
    path: Seq<char>,
    permissions: u32,
) -> bool {
    &&& 0 <= i < events.len()
    &&& match events[i] {
        SetupEvent::SessionSecured(r) | SetupEvent::LogCreated(r) => r is Ok,
        _ => false,
    }
    &&& forall|action: SetupAction| #[trigger]
        states[i].asks(action) ==> match action {
            SetupAction::SetMode { path: at, mode } => at@ == path && mode == permissions
                && events[i] is SessionSecured,
            SetupAction::CreateFile { path: at, mode } => at@ == path && mode == permissions
                && events[i] is LogCreated,
            _ => false,
        }
}

/// The directory of a session was made private before any later step.
proof fn lemma_directory_made_private(
    states: Seq<SessionSetup>,
    events: Seq<SetupEvent>,
    k: int,
) -> (i: int)
    requires
        is_setup_run(states, events),
        0 <= k < states.len(),
        6 <= setup_rank(states[k].phase) <= 8,
    ensures
        made_private(states, events, i, states[k].directory.spec_path(), 448),
    decreases k,
{
    assert(setup_steps(states, events, k - 1));
    law_setup_skips_no_step(states[k - 1], events[k - 1], states[k]);
    if states[k - 1].phase is SecureSession {
        k - 1
    } else {
        lemma_directory_made_private(states, events, k - 1)
    }
}

/// The log of a session was created for its owner alone before any later step.
proof fn lemma_log_made_private(
    states: Seq<SessionSetup>,
    events: Seq<SetupEvent>,
    k: int,
) -> (i: int)
    requires
        is_setup_run(states, events),
        0 <= k < states.len(),
        7 <= setup_rank(states[k].phase) <= 8,
    ensures
        made_private(states, events, i, states[k].directory.spec_log_path(), 384),
    decreases k,
{
    assert(setup_steps(states, events, k - 1));
    law_setup_skips_no_step(states[k - 1], events[k - 1], states[k]);
    if states[k - 1].phase is CreateLog {
        k - 1
    } else {
        lemma_log_made_private(states, events, k - 1)
    }
}

/// A session is ready only when its directory was closed to everybody but its owner, and its log
/// was created so that nobody else can read or write it.
pub proof fn law_ready_sessions_are_private(states: Seq<SessionSetup>, events: Seq<SetupEvent>)
    requires
        is_setup_run(states, events),
        states.last().phase is Ready,
    ensures
        exists|i: int| #[trigger]
            made_private(states, events, i, states.last().directory.spec_path(), 448),
        exists|i: int| #[trigger]
            made_private(states, events, i, states.last().directory.spec_log_path(), 384),
{
    let i = lemma_directory_made_private(states, events, states.len() - 1);
    let j = lemma_log_made_private(states, events, states.len() - 1);
}

/// No session directory is left behind for a socket path that is refused: once the log is there, the
/// setup ends ready or by removing the directory, and then reports the refusal.
pub proof fn law_refused_sessions_are_removed(
    before: SessionSetup,
    event: SetupEvent,
    after: SessionSetup,
)
    requires
        before.next(event, after),
    ensures
        before.phase is RotateLogs ==> after.phase is RotateLogs || after.phase is Ready
            || after.phase is RemoveSession,
        before.phase matches SetupPhase::RemoveSession(e) ==> if event is SessionRemoved {
            after.phase == SetupPhase::Failed(before.phase->RemoveSession_0)
        } else {
            after.phase == before.phase
        },
        after.phase is RemoveSession && !(before.phase is RemoveSession) ==> before.phase
            is RotateLogs && socket_path_error(before.spec_socket()) is Some,
{
}

} // verus!
