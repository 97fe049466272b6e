//! What the steps of keeping and opening a copy of a file come to over a whole run.

use vstd::prelude::*;

use crate::io_error::IoError;
use crate::session::open::{OpenEvent, OpenFile, OpenPhase};
use crate::session::stage::{
    cache_root, in_phase, is_run, CacheDirectory, StageAction, StageDownload, StageEvent, StagePhase,
};

verus! {

/// Whether `actions` are what was asked for in each phase of a run.
pub open spec fn were_asked<'a>(
    d: StageDownload,
    phases: Seq<StagePhase>,
    actions: Seq<StageAction<'a>>,
) -> bool {
    &&& actions.len() == phases.len()
    &&& forall|i: int| 0 <= i < phases.len() ==> in_phase(d, phases[i]).asks(#[trigger] actions[i])
}

/// The bytes that the steps that were asked for have written, going by what each was asked to write
/// and that it succeeded.
pub open spec fn bytes_written<'a>(actions: Seq<StageAction<'a>>, events: Seq<StageEvent>) -> Seq<u8>
    decreases events.len(),
{
    if events.len() == 0 {
        Seq::empty()
    } else {
        let before = bytes_written(actions, events.drop_last());
        match (actions[events.len() - 1], events.last()) {
            (StageAction::Write { chunk }, StageEvent::Written(Ok(_))) => before + chunk@,
            _ => before,
        }
    }
}

/// The bytes that the stream brought whenever it was asked for a chunk.
pub open spec fn bytes_received<'a>(actions: Seq<StageAction<'a>>, events: Seq<StageEvent>) -> Seq<u8>
    decreases events.len(),
{
    if events.len() == 0 {
        Seq::empty()
    } else {
        let before = bytes_received(actions, events.drop_last());
        match (actions[events.len() - 1], events.last()) {
            (StageAction::Receive, StageEvent::Received(Some(Ok(chunk)))) => before + chunk@,
            _ => before,
        }
    }
}

proof fn lemma_step(d: StageDownload, phases: Seq<StagePhase>, events: Seq<StageEvent>, i: int)
    requires
        is_run(d, phases, events),
        0 <= i < events.len(),
    ensures
        in_phase(d, phases[i]).next(events[i], phases[i + 1]),
{
    assert(in_phase(d, phases[i]).next(events[i], phases[i + 1]));
}

/// Up to any point of a run, what was received was written, but for the chunk that is to be written
/// next.
proof fn lemma_bytes<'a>(
    d: StageDownload,
    phases: Seq<StagePhase>,
    events: Seq<StageEvent>,
    actions: Seq<StageAction<'a>>,
    k: int,
)
    requires
        d.phase == StagePhase::MakeDirectory(CacheDirectory::Root),
        is_run(d, phases, events),
        were_asked(d, phases, actions),
        0 <= k <= events.len(),
    ensures
        ({
            let received = bytes_received(actions, events.take(k));
            let written = bytes_written(actions, events.take(k));
            match phases[k] {
                StagePhase::Write(chunk) => received == written + chunk@,
                StagePhase::RemovePartial(_) | StagePhase::Failed(_) => true,
                _ => received == written,
            }
        }),
    decreases k,
{
    let now = events.take(k);
    if k > 0 {
        let i = k - 1;
        lemma_bytes(d, phases, events, actions, i);
        lemma_step(d, phases, events, i);
        assert(now.drop_last() =~= events.take(i));
        assert(now.last() == events[i]);
        assert(in_phase(d, phases[i]).asks(actions[i]));
    }
}

/// A published copy holds the whole file: the bytes that the steps were asked to write, where they
/// succeeded, are exactly the bytes that the stream brought, however long its chunks are.
pub proof fn law_published_files_hold_all_bytes<'a>(
    d: StageDownload,
    phases: Seq<StagePhase>,
    events: Seq<StageEvent>,
    actions: Seq<StageAction<'a>>,
)
    requires
        d.phase == StagePhase::MakeDirectory(CacheDirectory::Root),
        is_run(d, phases, events),
        were_asked(d, phases, actions),
        phases.last() is Published,
    ensures
        bytes_written(actions, events) == bytes_received(actions, events),
{
    lemma_bytes(d, phases, events, actions, events.len() as int);
    assert(events.take(events.len() as int) =~= events);
}

/// Whether the `i`th step was answered by a success.
pub open spec fn went_well(events: Seq<StageEvent>, i: int) -> bool {
    &&& 0 <= i < events.len()
    &&& match events[i] {
        StageEvent::DirectoryMade(r) | StageEvent::DirectorySecured(r)
        | StageEvent::PartialCreated(r) | StageEvent::Written(r) | StageEvent::Flushed(r)
        | StageEvent::Renamed(r) => r is Ok,
        _ => true,
    }
}

/// How far a download has come, by the steps that each takes once.
pub open spec fn place(phase: StagePhase) -> int {
    match phase {
        StagePhase::MakeDirectory(CacheDirectory::Root) => 0,
        StagePhase::SecureDirectory(CacheDirectory::Root) => 1,
        StagePhase::MakeDirectory(CacheDirectory::Session) => 2,
        StagePhase::SecureDirectory(CacheDirectory::Session) => 3,
        StagePhase::MakeDirectory(CacheDirectory::Download) => 4,
        StagePhase::SecureDirectory(CacheDirectory::Download) => 5,
        StagePhase::CreatePartial => 6,
        StagePhase::Receive | StagePhase::Write(_) => 7,
        StagePhase::Flush => 8,
        StagePhase::Publish => 9,
        StagePhase::Published => 10,
        StagePhase::RemovePartial(_) | StagePhase::Failed(_) => 11,
    }
}

proof fn lemma_passed(
    d: StageDownload,
    phases: Seq<StagePhase>,
    events: Seq<StageEvent>,
    k: int,
    at: int,
) -> (i: int)
    requires
        d.phase == StagePhase::MakeDirectory(CacheDirectory::Root),
        is_run(d, phases, events),
        0 <= k < phases.len(),
        0 <= at < place(phases[k]) <= 10,
    ensures
        0 <= i < k,
        place(phases[i]) == at,
        place(phases[i + 1]) == at + 1,
        went_well(events, i),
    decreases k,
{
    let i = k - 1;
    lemma_step(d, phases, events, i);
    if place(phases[i]) == at {
        i
    } else {
        lemma_passed(d, phases, events, i, at)
    }
}

/// Whether these steps built the copy: the three directories were made, from the outermost on, a new
/// file was created in the innermost, it was flushed after the stream had ended, and then it was renamed
/// to where the copy is looked for. Each step succeeded.
pub open spec fn built_by<'a>(
    d: StageDownload,
    events: Seq<StageEvent>,
    actions: Seq<StageAction<'a>>,
    directories: (int, int, int),
    create: int,
    ended: int,
    flush: int,
    rename: int,
) -> bool {
    let (root, session, download) = directories;
    &&& 0 <= root < session < download < create < ended < flush < rename < events.len()
    &&& (actions[root] matches StageAction::MakeDirectory { path } && path@ == d.root@)
    &&& (actions[session] matches StageAction::MakeDirectory { path } && path@ == d.session_dir@)
    &&& (actions[download] matches StageAction::MakeDirectory { path } && path@ == d.destination_dir@)
    &&& (actions[create] matches StageAction::CreateFile { path, .. } && path@ == d.partial_path@)
    &&& events[ended] == StageEvent::Received(None)
    &&& actions[flush] is Flush
    &&& (actions[rename] matches StageAction::Rename { from, to } && from@ == d.partial_path@ && to@
        == d.final_path@)
    &&& went_well(events, root) && went_well(events, session) && went_well(events, download)
    &&& went_well(events, create) && went_well(events, flush) && went_well(events, rename)
}

proof fn lemma_directory_step<'a>(
    d: StageDownload,
    phases: Seq<StagePhase>,
    events: Seq<StageEvent>,
    actions: Seq<StageAction<'a>>,
    k: int,
    which: CacheDirectory,
) -> (i: int)
    requires
        d.phase == StagePhase::MakeDirectory(CacheDirectory::Root),
        is_run(d, phases, events),
        were_asked(d, phases, actions),
        0 <= k < phases.len(),
        place(StagePhase::MakeDirectory(which)) < place(phases[k]) <= 10,
    ensures
        0 <= i < k,
        phases[i] == StagePhase::MakeDirectory(which),
        actions[i] matches StageAction::MakeDirectory { path } && path@ == d.directory(which),
        went_well(events, i),
{
    let i = lemma_passed(d, phases, events, k, place(StagePhase::MakeDirectory(which)));
    assert(in_phase(d, phases[i]).asks(actions[i]));
    assert(phases[i] == StagePhase::MakeDirectory(which));
    i
}

/// A published copy is the file that was created, under its final name: all directories that it
/// stands in were made first, it was flushed when the stream had ended, and then renamed.
pub proof fn law_published_files_were_renamed<'a>(
    d: StageDownload,
    phases: Seq<StagePhase>,
    events: Seq<StageEvent>,
    actions: Seq<StageAction<'a>>,
)
    requires
        d.phase == StagePhase::MakeDirectory(CacheDirectory::Root),
        is_run(d, phases, events),
        were_asked(d, phases, actions),
        phases.last() is Published,
    ensures
        exists|directories: (int, int, int), create: int, ended: int, flush: int, rename: int|
            #[trigger] built_by(d, events, actions, directories, create, ended, flush, rename),
{
    let n = phases.len() - 1;
    let rename = lemma_passed(d, phases, events, n, 9);
    let flush = lemma_passed(d, phases, events, rename, 8);
    let ended = lemma_passed(d, phases, events, flush, 7);
    let create = lemma_passed(d, phases, events, ended, 6);
    let download = lemma_directory_step(d, phases, events, actions, create, CacheDirectory::Download);
    let session = lemma_directory_step(d, phases, events, actions, download, CacheDirectory::Session);
    let root = lemma_directory_step(d, phases, events, actions, session, CacheDirectory::Root);
    assert(in_phase(d, phases[rename]).asks(actions[rename]));
    assert(in_phase(d, phases[flush]).asks(actions[flush]));
    assert(in_phase(d, phases[create]).asks(actions[create]));
    lemma_step(d, phases, events, ended);
    assert(built_by(d, events, actions, (root, session, download), create, ended, flush, rename));
}

/// A download goes on as long as its steps succeed: none of them fails it, whatever the stream brings
/// short of an error, and each chunk is written before the next is asked for.
pub proof fn law_downloads_go_on(d: StageDownload, event: StageEvent, after: StagePhase)
    requires
        d.next(event, after),
        match event {
            StageEvent::DirectoryMade(r) | StageEvent::DirectorySecured(r)
            | StageEvent::PartialCreated(r) | StageEvent::Written(r) | StageEvent::Flushed(r)
            | StageEvent::Renamed(r) => r is Ok,
            StageEvent::Received(Some(r)) => r is Ok,
            StageEvent::Received(None) => true,
            StageEvent::PartialRemoved => false,
        },
        place(d.phase) <= 10,
    ensures
        place(after) <= 10,
        place(d.phase) <= place(after) <= place(d.phase) + 1,
        d.phase is MakeDirectory && event is DirectoryMade ==> place(after) == place(d.phase) + 1,
        d.phase is SecureDirectory && event is DirectorySecured ==> place(after) == place(d.phase) + 1,
        d.phase is CreatePartial && event is PartialCreated ==> after is Receive,
        d.phase is Receive ==> (event matches StageEvent::Received(Some(Ok(chunk))) ==> after
            == StagePhase::Write(chunk)),
        d.phase is Receive && event == StageEvent::Received(None) ==> after is Flush,
        d.phase is Write && event is Written ==> after is Receive,
        d.phase is Flush && event is Flushed ==> after is Publish,
        d.phase is Publish && event is Renamed ==> after is Published,
{
}

/// A failure of the stream or of a step on the file is reported with its own words at the end and with
/// its own kind, after the file was removed.
pub proof fn law_download_failures_are_reported(d: StageDownload, event: StageEvent, after: StagePhase, e: IoError)
    requires
        d.next(event, after),
        (d.phase is Receive && event == StageEvent::Received(Some(Err(e)))) || (d.phase is Write
            && event == StageEvent::Written(Err(e))) || (d.phase is Flush && event
            == StageEvent::Flushed(Err(e))) || (d.phase is Publish && event == StageEvent::Renamed(
            Err(e),
        )),
    ensures
        after matches StagePhase::RemovePartial(reported) && {
            &&& reported@.kind == e@.kind
            &&& reported@.message.len() >= e@.message.len()
            &&& reported@.message.skip(reported@.message.len() - e@.message.len()) == e@.message
            &&& in_phase(d, after).next(StageEvent::PartialRemoved, StagePhase::Failed(reported))
        },
{
    let reported = after->RemovePartial_0;
    assert(reported@.message.skip(reported@.message.len() - e@.message.len()) =~= e@.message);
}

/// The cache stands below the platform's cache directory where that is known and starts at the root,
/// and below the directory for temporary files otherwise.
pub proof fn law_cache_follows_the_platform(base: Seq<char>, temp: Seq<char>, macos: bool)
    requires
        base.len() > 1,
        base[0] == '/',
        base.last() != '/',
        temp.len() > 0,
        temp.last() != '/',
    ensures
        cache_root(Some(base), temp, macos) == base + seq!['/'] + (if macos {
            "FilePeeker"@
        } else {
            "file-peeker"@
        }) + seq!['/'] + "open-files"@,
        cache_root(None, temp, macos) == temp + seq!['/'] + "file-peeker"@ + seq!['/']
            + "open-files"@,
        cache_root(Some(base.skip(1)), temp, macos) == cache_root(None, temp, macos) || base[1] == '/',
{
    reveal_strlit("FilePeeker");
    reveal_strlit("file-peeker");
    reveal_strlit("open-files");
    reveal_strlit("/");
    assert("/"@ =~= seq!['/']);
    assert(base.skip(1)[0] == base[1]);
}

/// A file of this machine is opened where the target says it is, and one of another machine where its
/// copy is kept: while every step succeeds, opening goes from the path to the file that the application
/// is handed, and ends.
pub proof fn law_files_are_opened_in_place_or_from_their_copy(
    f: OpenFile,
    resolved: String,
    copy: String,
    read: OpenPhase,
    ready: OpenPhase,
    open: OpenPhase,
    last: OpenPhase,
)
    requires
        f.phase is Resolve,
        f.next(OpenEvent::Resolved(Ok(resolved)), read),
        (OpenFile { phase: read, ..f }).next(OpenEvent::ReadStarted(Ok(())), ready),
        f.target is Local ==> open == ready,
        f.target is Remote ==> (OpenFile { phase: ready, ..f }).next(
            OpenEvent::Staged(Ok(copy)),
            open,
        ),
        (OpenFile { phase: open, ..f }).next(OpenEvent::Opened(Ok(())), last),
    ensures
        read == OpenPhase::Read(resolved),
        f.target is Local ==> open == OpenPhase::Open(resolved),
        f.target is Remote ==> ready == OpenPhase::Stage(resolved) && open == OpenPhase::Open(copy),
        last is Opened,
{
}

/// A failure to open a file keeps the kind and the words of what went wrong, and names the path.
pub proof fn law_opening_failures_are_reported(f: OpenFile, event: OpenEvent, after: OpenPhase, e: IoError)
    requires
        f.next(event, after),
        (f.phase is Resolve && event == OpenEvent::Resolved(Err(e))) || (f.phase is Read && event
            == OpenEvent::ReadStarted(Err(e))) || (f.phase is Stage && event == OpenEvent::Staged(
            Err(e),
        )) || (f.phase is Open && event == OpenEvent::Opened(Err(e))),
    ensures
        after matches OpenPhase::Failed(reported) && {
            &&& reported@.kind == e@.kind
            &&& reported@.message.len() >= e@.message.len()
            &&& reported@.message.skip(reported@.message.len() - e@.message.len()) == e@.message
        },
{
    let reported = after->Failed_0;
    assert(reported@.message.skip(reported@.message.len() - e@.message.len()) =~= e@.message);
}

/// A download keeps its plan: what is copied, and where every part of it is kept, stay what they are.
pub proof fn law_downloads_keep_their_plan(d: StageDownload, event: StageEvent, after: StageDownload)
    requires
        call_ensures(StageDownload::advance, (d, event), after),
    ensures
        after.source_path == d.source_path,
        after.root == d.root,
        after.session_dir == d.session_dir,
        after.destination_dir == d.destination_dir,
        after.final_path == d.final_path,
        after.partial_path == d.partial_path,
{
}

} // verus!
