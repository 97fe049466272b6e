//! Keeping copies of remote files in a private cache on this machine.

use vstd::prelude::*;

use crate::ids::{is_hyphenated_uuid, lemma_uuid_is_plain, random_hyphenated_id};
use crate::io_error::{io_failure, with_context, IoError, IoErrorKind, IoErrorView};
use crate::text::{concat3, concat5, text_of};
use crate::unix_path::{
    file_name, file_name_of, is_absolute, is_absolute_path, join, joined, law_parent_undoes_join,
    lemma_file_name_is_plain, stem,
};

verus! {

/// Permissions of directories that hold private files.
pub const CACHE_DIRECTORY_MODE: u32 = 448;

/// Permissions of private files.
pub const CACHE_FILE_MODE: u32 = 384;

/// The name of the application's directory below the platform's cache directory.
pub open spec fn namespace_text(macos: bool) -> Seq<char> {
    if macos {
        "FilePeeker"@
    } else {
        "file-peeker"@
    }
}

/// The name of the application's directory below the platform's cache directory.
pub fn application_cache_namespace(macos: bool) -> (r: &'static str)
    ensures
        r@ == namespace_text(macos),
{
    if macos {
        "FilePeeker"
    } else {
        "file-peeker"
    }
}

/// The directory that copies are kept in: below the platform's cache directory where that is known
/// and starts at the root, else below the directory for temporary files.
pub open spec fn cache_root(platform: Option<Seq<char>>, temp: Seq<char>, macos: bool) -> Seq<char> {
    match platform {
        Some(base) => if is_absolute_path(base) {
            joined(joined(base, namespace_text(macos)), "open-files"@)
        } else {
            joined(joined(temp, "file-peeker"@), "open-files"@)
        },
        None => joined(joined(temp, "file-peeker"@), "open-files"@),
    }
}

/// The directory that copies are kept in.
pub fn cache_root_from(platform_cache_base: Option<String>, temp_base: &str, macos: bool) -> (r: String)
    ensures
        r@ == cache_root(text_of(platform_cache_base), temp_base@, macos),
{
    match platform_cache_base {
        Some(base) => {
            if is_absolute(&base) {
                let namespace = join(&base, application_cache_namespace(macos));
                return join(&namespace, "open-files");
            }
        },
        None => {},
    }
    let namespace = join(temp_base, "file-peeker");
    join(&namespace, "open-files")
}

/// The error of a source path that names no file.
pub open spec fn no_basename(source_path: Seq<char>) -> IoErrorView {
    io_failure(
        IoErrorKind::InvalidInput,
        "source path `"@ + source_path + "` has no usable filename"@,
    )
}

/// The name of the file at `source_path`.
pub fn usable_basename(source_path: &str) -> (r: Result<String, IoError>)
    ensures
        match r {
            Ok(name) => file_name_of(source_path@) == Some(name@),
            Err(e) => file_name_of(source_path@) is None && e@ == no_basename(source_path@),
        },
{
    match file_name(source_path) {
        Some(name) => Ok(name),
        None => Err(
            IoError {
                kind: IoErrorKind::InvalidInput,
                message: concat3("source path `", source_path, "` has no usable filename"),
            },
        ),
    }
}

/// A file that is removed unless it is let go.
#[derive(Debug, PartialEq, Eq)]
pub struct PartialFileGuard {
    path: Option<String>,
}

impl PartialFileGuard {
    /// The file that is still to be removed.
    pub closed spec fn armed(self) -> Option<String> {
        self.path
    }

    /// Guards the file at `path`.
    pub fn new(path: String) -> (r: Self)
        ensures
            r.armed() == Some(path),
    {
        PartialFileGuard { path: Some(path) }
    }

    /// Lets the file go.
    pub fn disarm(&mut self)
        ensures
            final(self).armed() is None,
    {
        self.path = None;
    }

    /// Hands out the file to remove, once.
    pub fn take(&mut self) -> (r: Option<String>)
        ensures
            r == old(self).armed(),
            final(self).armed() is None,
    {
        self.path.take()
    }
}

/// The directories that a copy is kept in, from the outermost on.
#[derive(Clone, Copy, Debug, PartialEq, Eq, Structural)]
pub enum CacheDirectory {
    Root,
    Session,
    Download,
}

/// How far a download has come.
#[derive(Debug, PartialEq, Eq)]
pub enum StagePhase {
    MakeDirectory(CacheDirectory),
    SecureDirectory(CacheDirectory),
    CreatePartial,
    Receive,
    Write(Vec<u8>),
    Flush,
    Publish,
    /// Remove the partial file, then report the error.
    RemovePartial(IoError),
    Published,
    Failed(IoError),
}

/// What came of the last step.
#[derive(Debug, PartialEq, Eq)]
pub enum StageEvent {
    DirectoryMade(Result<(), IoError>),
    DirectorySecured(Result<(), IoError>),
    PartialCreated(Result<(), IoError>),
    /// The next chunk, an error, or the end.
    Received(Option<Result<Vec<u8>, IoError>>),
    Written(Result<(), IoError>),
    Flushed(Result<(), IoError>),
    Renamed(Result<(), IoError>),
    PartialRemoved,
}

/// What has to be done next for a download.
#[derive(Debug, PartialEq, Eq)]
pub enum StageAction<'a> {
    /// Create the directory and those above it, where they are missing.
    MakeDirectory { path: &'a str },
    SetMode { path: &'a str, mode: u32 },
    /// Create a file that is not there yet, and write to it.
    CreateFile { path: &'a str, mode: u32 },
    /// Wait for the next chunk.
    Receive,
    Write { chunk: &'a [u8] },
    Flush,
    Rename { from: &'a str, to: &'a str },
    RemoveFile { path: &'a str },
    Nothing,
}

/// A file on its way into the cache.
#[derive(Debug, PartialEq, Eq)]
pub struct StageDownload {
    pub source_path: String,
    pub root: String,
    pub session_dir: String,
    pub destination_dir: String,
    pub final_path: String,
    pub partial_path: String,
    pub phase: StagePhase,
}

/// `e` with words in front that say what was being done with a path.
pub open spec fn in_context(e: IoErrorView, head: Seq<char>, path: Seq<char>, tail: Seq<char>) -> IoErrorView {
    io_failure(e.kind, head + path + tail + ": "@ + e.message)
}

/// Whether `phase` is this failure.
pub open spec fn stage_failed(phase: StagePhase, e: IoErrorView) -> bool {
    phase matches StagePhase::Failed(error) && error@ == e
}

/// Whether `phase` removes the partial file because of this failure.
pub open spec fn stage_removes(phase: StagePhase, e: IoErrorView) -> bool {
    phase matches StagePhase::RemovePartial(error) && error@ == e
}

impl StageDownload {
    /// The path of one of the directories.
    pub open spec fn directory(self, which: CacheDirectory) -> Seq<char> {
        match which {
            CacheDirectory::Root => self.root@,
            CacheDirectory::Session => self.session_dir@,
            CacheDirectory::Download => self.destination_dir@,
        }
    }

    /// Whether `action` is what has to be done next. Directories and files of the cache are closed to
    /// everybody but their owner.
    pub open spec fn asks(self, action: StageAction) -> bool {
        match self.phase {
            StagePhase::MakeDirectory(which) => action matches StageAction::MakeDirectory { path }
                && path@ == self.directory(which),
            StagePhase::SecureDirectory(which) => action matches StageAction::SetMode { path, mode }
                && path@ == self.directory(which) && mode == 448,
            StagePhase::CreatePartial => action matches StageAction::CreateFile { path, mode }
                && path@ == self.partial_path@ && mode == 384,
            StagePhase::Receive => action is Receive,
            StagePhase::Write(bytes) => action matches StageAction::Write { chunk } && chunk@
                == bytes@,
            StagePhase::Flush => action is Flush,
            StagePhase::Publish => action matches StageAction::Rename { from, to } && from@
                == self.partial_path@ && to@ == self.final_path@,
            StagePhase::RemovePartial(_) => action matches StageAction::RemoveFile { path } && path@
                == self.partial_path@,
            StagePhase::Published | StagePhase::Failed(_) => action is Nothing,
        }
    }

    /// Everything but the phase stays as it is.
    pub open spec fn same_plan(self, after: Self) -> bool {
        &&& after.source_path == self.source_path
        &&& after.root == self.root
        &&& after.session_dir == self.session_dir
        &&& after.destination_dir == self.destination_dir
        &&& after.final_path == self.final_path
        &&& after.partial_path == self.partial_path
    }

    /// Where the paths of a download lie: in a directory of its own, below that of the session.
    pub open spec fn lies(
        self,
        root: Seq<char>,
        session_id: Seq<char>,
        source_path: Seq<char>,
        download_id: Seq<char>,
        partial_id: Seq<char>,
    ) -> bool {
        let name = file_name_of(source_path)->Some_0;
        &&& self.source_path@ == source_path
        &&& self.root@ == root
        &&& self.session_dir@ == joined(root, session_id)
        &&& self.destination_dir@ == joined(self.session_dir@, download_id)
        &&& self.final_path@ == joined(self.destination_dir@, name)
        &&& self.partial_path@ == joined(
            self.destination_dir@,
            "."@ + name + "."@ + partial_id + ".partial"@,
        )
    }

    /// Whether the download moves from phase to phase `after` when `event` comes.
    pub open spec fn next(self, event: StageEvent, after: StagePhase) -> bool {
        match (self.phase, event) {
            (StagePhase::MakeDirectory(which), StageEvent::DirectoryMade(Ok(_))) => after
                == StagePhase::SecureDirectory(which),
            (StagePhase::MakeDirectory(which), StageEvent::DirectoryMade(Err(e))) => stage_failed(
                after,
                in_context(e@, "cannot create cache directory `"@, self.directory(which), "`"@),
            ),
            (StagePhase::SecureDirectory(which), StageEvent::DirectorySecured(Ok(_))) => match which {
                CacheDirectory::Root => after == StagePhase::MakeDirectory(CacheDirectory::Session),
                CacheDirectory::Session => after == StagePhase::MakeDirectory(
                    CacheDirectory::Download,
                ),
                CacheDirectory::Download => after is CreatePartial,
            },
            (StagePhase::SecureDirectory(which), StageEvent::DirectorySecured(Err(e))) => stage_failed(
                after,
                in_context(
                    e@,
                    "cannot set private permissions on cache directory `"@,
                    self.directory(which),
                    "`"@,
                ),
            ),
            (StagePhase::CreatePartial, StageEvent::PartialCreated(Ok(_))) => after is Receive,
            (StagePhase::CreatePartial, StageEvent::PartialCreated(Err(e))) => stage_failed(
                after,
                in_context(e@, "cannot create partial file `"@, self.partial_path@, "`"@),
            ),
            (StagePhase::Receive, StageEvent::Received(None)) => after is Flush,
            (StagePhase::Receive, StageEvent::Received(Some(Ok(chunk)))) => after
                == StagePhase::Write(chunk),
            (StagePhase::Receive, StageEvent::Received(Some(Err(e)))) => stage_removes(
                after,
                in_context(
                    e@,
                    "cannot download `"@,
                    self.source_path@,
                    "` into the application cache"@,
                ),
            ),
            (StagePhase::Write(_), StageEvent::Written(Ok(_))) => after is Receive,
            (StagePhase::Write(_), StageEvent::Written(Err(e))) => stage_removes(
                after,
                in_context(e@, "cannot write partial file `"@, self.partial_path@, "`"@),
            ),
            (StagePhase::Flush, StageEvent::Flushed(Ok(_))) => after is Publish,
            (StagePhase::Flush, StageEvent::Flushed(Err(e))) => stage_removes(
                after,
                in_context(e@, "cannot flush partial file `"@, self.partial_path@, "`"@),
            ),
            (StagePhase::Publish, StageEvent::Renamed(Ok(_))) => after is Published,
            (StagePhase::Publish, StageEvent::Renamed(Err(e))) => stage_removes(
                after,
                in_context(e@, "cannot publish downloaded file `"@, self.final_path@, "`"@),
            ),
            (StagePhase::RemovePartial(e), StageEvent::PartialRemoved) => after
                == StagePhase::Failed(e),
            (phase, _) => after == phase,
        }
    }
}

fn explained(e: &IoError, head: &str, path: &str, tail: &str) -> (r: IoError)
    ensures
        r@ == in_context(e@, head@, path@, tail@),
{
    let context = concat3(head, path, tail);
    with_context(e, &context)
}

/// Keeps copies of remote files below one directory.
#[derive(Debug, PartialEq, Eq)]
pub struct FileStager {
    root: String,
}

/// The error of a cache directory that does not start at the root.
pub open spec fn relative_root(root: Seq<char>) -> IoErrorView {
    io_failure(IoErrorKind::InvalidInput, "cache root `"@ + root + "` is not absolute"@)
}

impl FileStager {
    /// The directory that copies are kept below.
    pub closed spec fn spec_root(self) -> Seq<char> {
        self.root@
    }

    /// Keeps copies below `root`.
    pub fn new(root: String) -> (r: Self)
        ensures
            r.spec_root() == root@,
    {
        FileStager { root }
    }

    /// Starts to keep a copy of the file at `source_path`, in a directory of its own with a random
    /// name.
    pub fn stage_download(&self, session_id: &str, source_path: &str) -> (r: Result<
        StageDownload,
        IoError,
    >)
        ensures
            match r {
                Ok(download) => {
                    &&& is_absolute_path(self.spec_root())
                    &&& file_name_of(source_path@) is Some
                    &&& download.phase == StagePhase::MakeDirectory(CacheDirectory::Root)
                    &&& exists|download_id: Seq<char>, partial_id: Seq<char>|
                        is_hyphenated_uuid(download_id) && is_hyphenated_uuid(partial_id)
                            && #[trigger] download.lies(
                            self.spec_root(),
                            session_id@,
                            source_path@,
                            download_id,
                            partial_id,
                        )
                },
                Err(e) => if !is_absolute_path(self.spec_root()) {
                    e@ == relative_root(self.spec_root())
                } else {
                    file_name_of(source_path@) is None && e@ == no_basename(source_path@)
                },
            },
    {
        let download_id = random_hyphenated_id();
        let partial_id = random_hyphenated_id();
        self.stage_as(session_id, source_path, &download_id, &partial_id)
    }

    /// Starts to keep a copy of the file at `source_path`, in the directory `download_id`.
    pub fn stage_as(
        &self,
        session_id: &str,
        source_path: &str,
        download_id: &str,
        partial_id: &str,
    ) -> (r: Result<StageDownload, IoError>)
        ensures
            match r {
                Ok(download) => {
                    &&& is_absolute_path(self.spec_root())
                    &&& file_name_of(source_path@) is Some
                    &&& download.phase == StagePhase::MakeDirectory(CacheDirectory::Root)
                    &&& download.lies(
                        self.spec_root(),
                        session_id@,
                        source_path@,
                        download_id@,
                        partial_id@,
                    )
                },
                Err(e) => if !is_absolute_path(self.spec_root()) {
                    e@ == relative_root(self.spec_root())
                } else {
                    file_name_of(source_path@) is None && e@ == no_basename(source_path@)
                },
            },
    {
        if !is_absolute(&self.root) {
            return Err(
                IoError {
                    kind: IoErrorKind::InvalidInput,
                    message: concat3("cache root `", &self.root, "` is not absolute"),
                },
            );
        }
        let basename = match usable_basename(source_path) {
            Ok(basename) => basename,
            Err(e) => {
                return Err(e);
            },
        };
        let session_dir = join(&self.root, session_id);
        let destination_dir = join(&session_dir, download_id);
        let final_path = join(&destination_dir, &basename);
        let partial_name = concat5(".", &basename, ".", partial_id, ".partial");
        let partial_path = join(&destination_dir, &partial_name);
        Ok(
            StageDownload {
                source_path: source_path.to_owned(),
                root: self.root.clone(),
                session_dir,
                destination_dir,
                final_path,
                partial_path,
                phase: StagePhase::MakeDirectory(CacheDirectory::Root),
            },
        )
    }
}

impl StageDownload {
    /// Takes in what came of the last step.
    pub fn advance(self, event: StageEvent) -> (r: Self)
        ensures
            self.same_plan(r),
            self.next(event, r.phase),
    {
        let StageDownload {
            source_path,
            root,
            session_dir,
            destination_dir,
            final_path,
            partial_path,
            phase,
        } = self;
        let after = match (phase, event) {
            (StagePhase::MakeDirectory(which), StageEvent::DirectoryMade(Ok(_))) => {
                StagePhase::SecureDirectory(which)
            },
            (StagePhase::MakeDirectory(which), StageEvent::DirectoryMade(Err(e))) => {
                let path = match which {
                    CacheDirectory::Root => &root,
                    CacheDirectory::Session => &session_dir,
                    CacheDirectory::Download => &destination_dir,
                };
                StagePhase::Failed(explained(&e, "cannot create cache directory `", path, "`"))
            },
            (StagePhase::SecureDirectory(which), StageEvent::DirectorySecured(Ok(_))) => match which {
                CacheDirectory::Root => StagePhase::MakeDirectory(CacheDirectory::Session),
                CacheDirectory::Session => StagePhase::MakeDirectory(CacheDirectory::Download),
                CacheDirectory::Download => StagePhase::CreatePartial,
            },
            (StagePhase::SecureDirectory(which), StageEvent::DirectorySecured(Err(e))) => {
                let path = match which {
                    CacheDirectory::Root => &root,
                    CacheDirectory::Session => &session_dir,
                    CacheDirectory::Download => &destination_dir,
                };
                StagePhase::Failed(
                    explained(
                        &e,
                        "cannot set private permissions on cache directory `",
                        path,
                        "`",
                    ),
                )
            },
            (StagePhase::CreatePartial, StageEvent::PartialCreated(Ok(_))) => StagePhase::Receive,
            (StagePhase::CreatePartial, StageEvent::PartialCreated(Err(e))) => StagePhase::Failed(
                explained(&e, "cannot create partial file `", &partial_path, "`"),
            ),
            (StagePhase::Receive, StageEvent::Received(None)) => StagePhase::Flush,
            (StagePhase::Receive, StageEvent::Received(Some(Ok(chunk)))) => StagePhase::Write(chunk),
            (StagePhase::Receive, StageEvent::Received(Some(Err(e)))) => StagePhase::RemovePartial(
                explained(&e, "cannot download `", &source_path, "` into the application cache"),
            ),
            (StagePhase::Write(_), StageEvent::Written(Ok(_))) => StagePhase::Receive,
            (StagePhase::Write(_), StageEvent::Written(Err(e))) => StagePhase::RemovePartial(
                explained(&e, "cannot write partial file `", &partial_path, "`"),
            ),
            (StagePhase::Flush, StageEvent::Flushed(Ok(_))) => StagePhase::Publish,
            (StagePhase::Flush, StageEvent::Flushed(Err(e))) => StagePhase::RemovePartial(
                explained(&e, "cannot flush partial file `", &partial_path, "`"),
            ),
            (StagePhase::Publish, StageEvent::Renamed(Ok(_))) => StagePhase::Published,
            (StagePhase::Publish, StageEvent::Renamed(Err(e))) => StagePhase::RemovePartial(
                explained(&e, "cannot publish downloaded file `", &final_path, "`"),
            ),
            (StagePhase::RemovePartial(e), StageEvent::PartialRemoved) => StagePhase::Failed(e),
            (phase, _) => phase,
        };
        StageDownload {
            source_path,
            root,
            session_dir,
            destination_dir,
            final_path,
            partial_path,
            phase: after,
        }
    }

    /// The path of one of the directories.
    fn directory_path(&self, which: CacheDirectory) -> (r: &str)
        ensures
            r@ == self.directory(which),
    {
        match which {
            CacheDirectory::Root => &self.root,
            CacheDirectory::Session => &self.session_dir,
            CacheDirectory::Download => &self.destination_dir,
        }
    }

    /// What has to be done next.
    pub fn action(&self) -> (r: StageAction<'_>)
        ensures
            self.asks(r),
    {
        match &self.phase {
            StagePhase::MakeDirectory(which) => StageAction::MakeDirectory {
                path: self.directory_path(*which),
            },
            StagePhase::SecureDirectory(which) => StageAction::SetMode {
                path: self.directory_path(*which),
                mode: CACHE_DIRECTORY_MODE,
            },
            StagePhase::CreatePartial => StageAction::CreateFile {
                path: &self.partial_path,
                mode: CACHE_FILE_MODE,
            },
            StagePhase::Receive => StageAction::Receive,
            StagePhase::Write(chunk) => StageAction::Write { chunk: chunk.as_slice() },
            StagePhase::Flush => StageAction::Flush,
            StagePhase::Publish => StageAction::Rename {
                from: &self.partial_path,
                to: &self.final_path,
            },
            StagePhase::RemovePartial(_) => StageAction::RemoveFile { path: &self.partial_path },
            StagePhase::Published | StagePhase::Failed(_) => StageAction::Nothing,
        }
    }
}

/// Whether the partial file exists in `phase`.
pub open spec fn has_partial(phase: StagePhase) -> bool {
    phase is Receive || phase is Write || phase is Flush || phase is Publish
        || phase is RemovePartial
}

/// No partial file is left behind: from its creation on, a download ends only by publishing it or
/// by removing it. It is published only after the end of the stream, when all was written and
/// flushed, and every failure keeps the kind of the error behind it.
pub proof fn law_partial_files_do_not_stay(d: StageDownload, event: StageEvent, after: StagePhase)
    requires
        d.next(event, after),
    ensures
        has_partial(d.phase) && !has_partial(after) ==> (d.phase is RemovePartial
            && event is PartialRemoved) || (d.phase is Publish && event matches StageEvent::Renamed(
            Ok(_),
        )),
        after is Published && !(d.phase is Published) ==> d.phase is Publish,
        after is Publish && !(d.phase is Publish) ==> d.phase is Flush,
        after is Flush && !(d.phase is Flush) ==> d.phase is Receive && event
            == StageEvent::Received(None),
        forall|e: IoError|
            d.phase is Receive && event == StageEvent::Received(Some(Err(e))) ==> (after matches
                StagePhase::RemovePartial(error) && error@.kind == #[trigger] e@.kind),
{
}

/// Two downloads never share a file: where their directories have different names, so do their
/// copies, whatever the sources are called.
pub proof fn law_downloads_do_not_collide(
    a: StageDownload,
    b: StageDownload,
    root: Seq<char>,
    session: Seq<char>,
    source_a: Seq<char>,
    source_b: Seq<char>,
    id_a: Seq<char>,
    id_b: Seq<char>,
    partial_a: Seq<char>,
    partial_b: Seq<char>,
)
    requires
        a.lies(root, session, source_a, id_a, partial_a),
        b.lies(root, session, source_b, id_b, partial_b),
        is_hyphenated_uuid(id_a),
        is_hyphenated_uuid(id_b),
        file_name_of(source_a) is Some,
        file_name_of(source_b) is Some,
        id_a != id_b,
    ensures
        a.final_path@ != b.final_path@,
{
    lemma_uuid_is_plain(id_a);
    lemma_uuid_is_plain(id_b);
    lemma_file_name_is_plain(source_a);
    lemma_file_name_is_plain(source_b);
    let dir = joined(root, session);
    law_parent_undoes_join(joined(dir, id_a), file_name_of(source_a)->Some_0);
    law_parent_undoes_join(joined(dir, id_b), file_name_of(source_b)->Some_0);
    law_parent_undoes_join(dir, id_a);
    law_parent_undoes_join(dir, id_b);
    if a.final_path@ == b.final_path@ {
        lemma_stem_of_uuid_directory(dir, id_a);
        lemma_stem_of_uuid_directory(dir, id_b);
    }
}

/// A path that ends in a UUID ends in its last component.
proof fn lemma_stem_of_uuid_directory(dir: Seq<char>, id: Seq<char>)
    requires
        is_hyphenated_uuid(id),
    ensures
        stem(joined(dir, id)) == joined(dir, id),
{
    let path = joined(dir, id);
    assert(id[35] != '/' && id[35] != '.');
    assert(path.last() == id[35]);
}

/// Whether `phases` are those that the download `d` goes through when `events` come.
pub open spec fn is_run(d: StageDownload, phases: Seq<StagePhase>, events: Seq<StageEvent>) -> bool {
    &&& phases.len() == events.len() + 1
    &&& phases[0] == d.phase
    &&& forall|i: int|
        0 <= i < events.len() ==> #[trigger] in_phase(d, phases[i]).next(events[i], phases[i + 1])
}

/// The download `d`, in `phase`.
pub open spec fn in_phase(d: StageDownload, phase: StagePhase) -> StageDownload {
    StageDownload { phase, ..d }
}

/// All that the stream has brought.
pub open spec fn received(phases: Seq<StagePhase>, events: Seq<StageEvent>) -> Seq<u8>
    decreases events.len(),
{
    if events.len() == 0 {
        Seq::empty()
    } else {
        let before = received(phases.drop_last(), events.drop_last());
        match (phases[events.len() - 1], events.last()) {
            (StagePhase::Receive, StageEvent::Received(Some(Ok(chunk)))) => before + chunk@,
            _ => before,
        }
    }
}

/// All that was written to the partial file.
pub open spec fn written(phases: Seq<StagePhase>, events: Seq<StageEvent>) -> Seq<u8>
    decreases events.len(),
{
    if events.len() == 0 {
        Seq::empty()
    } else {
        let before = written(phases.drop_last(), events.drop_last());
        match (phases[events.len() - 1], events.last()) {
            (StagePhase::Write(chunk), StageEvent::Written(Ok(_))) => before + chunk@,
            _ => before,
        }
    }
}

/// Whether a download in `phase` that has received and written so much owes nothing: what was
/// received was written, but for the chunk that is just being written.
pub open spec fn is_settled(phase: StagePhase, received: Seq<u8>, written: Seq<u8>) -> bool {
    match phase {
        StagePhase::Write(chunk) => received == written + chunk@,
        StagePhase::RemovePartial(_) | StagePhase::Failed(_) => true,
        _ => received == written,
    }
}

/// A published copy is complete: all that the stream brought up to its end was written, in order
/// and once. This holds of every download from its start on.
pub proof fn law_published_files_are_complete(
    d: StageDownload,
    phases: Seq<StagePhase>,
    events: Seq<StageEvent>,
)
    requires
        d.phase == StagePhase::MakeDirectory(CacheDirectory::Root),
        is_run(d, phases, events),
    ensures
        is_settled(phases.last(), received(phases, events), written(phases, events)),
        phases.last() is Published ==> written(phases, events) == received(phases, events),
    decreases events.len(),
{
    if events.len() > 0 {
        let n = events.len() as int;
        let p = phases.drop_last();
        let e = events.drop_last();
        assert forall|i: int| 0 <= i < e.len() implies #[trigger] in_phase(d, p[i]).next(
            e[i],
            p[i + 1],
        ) by {
            assert(in_phase(d, phases[i]).next(events[i], phases[i + 1]));
        }
        law_published_files_are_complete(d, p, e);
        assert(in_phase(d, phases[n - 1]).next(events[n - 1], phases[n]));
        assert(p.last() == phases[n - 1]);
    }
}

/// Whether the `i`th step of a download gave `path` these permissions: whoever did what was asked
/// for set them, and it succeeded.
pub open spec fn gave_mode(
    d: StageDownload,
    phases: Seq<StagePhase>,
    events: Seq<StageEvent>,
    i: int,
    path: Seq<char>,
    permissions: u32,
) -> bool {
    &&& 0 <= i < events.len()
    &&& match events[i] {
        StageEvent::DirectorySecured(r) | StageEvent::PartialCreated(r) => r is Ok,
        _ => false,
    }
    &&& forall|action: StageAction| #[trigger]
        in_phase(d, phases[i]).asks(action) ==> match action {
            StageAction::SetMode { path: at, mode } => at@ == path && mode == permissions
                && events[i] is DirectorySecured,
            StageAction::CreateFile { path: at, mode } => at@ == path && mode == permissions
                && events[i] is PartialCreated,
            _ => false,
        }
}

/// The number of steps that a download in `phase` has behind it until its file is created.
pub open spec fn stage_rank(phase: StagePhase) -> int {
    match phase {
        StagePhase::MakeDirectory(CacheDirectory::Root) => 0,
        StagePhase::SecureDirectory(CacheDirectory::Root) => 1,
        StagePhase::MakeDirectory(CacheDirectory::Session) => 2,
        StagePhase::SecureDirectory(CacheDirectory::Session) => 3,
        StagePhase::MakeDirectory(CacheDirectory::Download) => 4,
        StagePhase::SecureDirectory(CacheDirectory::Download) => 5,
        StagePhase::CreatePartial => 6,
        StagePhase::Failed(_) => 8,
        _ => 7,
    }
}

/// The step of a download that makes one of its directories private, or its file.
pub open spec fn private_rank(which: Option<CacheDirectory>) -> int {
    match which {
        Some(CacheDirectory::Root) => 1,
        Some(CacheDirectory::Session) => 3,
        Some(CacheDirectory::Download) => 5,
        None => 6,
    }
}

/// A step that is behind a download was taken.
proof fn lemma_step_was_taken(
    d: StageDownload,
    phases: Seq<StagePhase>,
    events: Seq<StageEvent>,
    k: int,
    which: Option<CacheDirectory>,
) -> (i: int)
    requires
        d.phase == StagePhase::MakeDirectory(CacheDirectory::Root),
        is_run(d, phases, events),
        0 <= k < phases.len(),
        private_rank(which) < stage_rank(phases[k]) < 8,
    ensures
        gave_mode(
            d,
            phases,
            events,
            i,
            match which {
                Some(directory) => d.directory(directory),
                None => d.partial_path@,
            },
            if which is Some {
                448
            } else {
                384
            },
        ),
    decreases k,
{
    assert(k > 0);
    let i = k - 1;
    assert(in_phase(d, phases[i]).next(events[i], phases[i + 1]));
    if stage_rank(phases[i]) == private_rank(which) {
        i
    } else {
        lemma_step_was_taken(d, phases, events, i, which)
    }
}

/// A copy is published only when the cache, the directory of the session and that of the download
/// were closed to everybody but their owner, and the file was created so that nobody else can read
/// or write it.
pub proof fn law_published_files_are_private(
    d: StageDownload,
    phases: Seq<StagePhase>,
    events: Seq<StageEvent>,
)
    requires
        d.phase == StagePhase::MakeDirectory(CacheDirectory::Root),
        is_run(d, phases, events),
        phases.last() is Published,
    ensures
        exists|i: int| #[trigger] gave_mode(d, phases, events, i, d.root@, 448),
        exists|i: int| #[trigger] gave_mode(d, phases, events, i, d.session_dir@, 448),
        exists|i: int| #[trigger] gave_mode(d, phases, events, i, d.destination_dir@, 448),
        exists|i: int| #[trigger] gave_mode(d, phases, events, i, d.partial_path@, 384),
{
    let n = phases.len() - 1;
    let root = lemma_step_was_taken(d, phases, events, n, Some(CacheDirectory::Root));
    let session = lemma_step_was_taken(d, phases, events, n, Some(CacheDirectory::Session));
    let download = lemma_step_was_taken(d, phases, events, n, Some(CacheDirectory::Download));
    let file = lemma_step_was_taken(d, phases, events, n, None);
}

} // verus!
