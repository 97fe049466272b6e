//! What becomes of the entries and chunks that servers send, one by one.

use vstd::prelude::*;

use crate::components::is_descendant;
use crate::connection::grpc::GrpcStatus;
use crate::io_error::{IoErrorKind, IoErrorView};
use crate::session::entries::{
    batch_of, entries_of, entry_of, fs_failure, operation_failure, read_failure, walk_entry_of,
    DirectoryEntry, FsError, ListingEntry, ProtocolWalkEntry, WalkEntry,
};
use crate::session::streams::{
    read_items, walk_batch_of, walk_entries_of, walk_items, ReadEvent, WalkEvent, WalkView,
};

verus! {

/// Whether `entry` is what was sent as `sent`: its name and whether it can be navigated into as they
/// came, and the kind that the number stands for.
pub open spec fn is_entry_sent(entry: DirectoryEntry, sent: ListingEntry) -> bool {
    &&& entry.name == sent.name
    &&& entry.navigable == sent.navigable
    &&& entry.kind is File <==> sent.kind == 1
    &&& entry.kind is Directory <==> sent.kind == 2
    &&& entry.kind is Symlink <==> sent.kind == 3
    &&& entry.kind is Other <==> sent.kind == 4
}

/// An entry is accepted exactly where its kind is one of the four, and then is what was sent,
/// whatever its name.
pub proof fn law_entries_are_what_was_sent(sent: ListingEntry)
    ensures
        entry_of(sent) is Ok <==> 1 <= sent.kind <= 4,
        entry_of(sent) matches Ok(entry) ==> is_entry_sent(entry, sent),
        entry_of(sent) matches Err(e) ==> e.kind == IoErrorKind::InvalidData,
{
}

proof fn lemma_entries(sent: Seq<ListingEntry>)
    ensures
        entries_of(sent) is Ok <==> forall|i: int|
            0 <= i < sent.len() ==> 1 <= (#[trigger] sent[i]).kind <= 4,
        entries_of(sent) matches Ok(entries) ==> entries.len() == sent.len() && forall|i: int|
            0 <= i < sent.len() ==> is_entry_sent(#[trigger] entries[i], sent[i]),
    decreases sent.len(),
{
    if sent.len() > 0 {
        let init = sent.drop_last();
        lemma_entries(init);
        law_entries_are_what_was_sent(sent.last());
        if forall|i: int| 0 <= i < sent.len() ==> 1 <= (#[trigger] sent[i]).kind <= 4 {
            assert forall|i: int| 0 <= i < init.len() implies 1 <= (#[trigger] init[i]).kind <= 4 by {
                assert(sent[i] == init[i]);
            }
            assert(1 <= sent[sent.len() - 1].kind <= 4);
        }
        if let Ok(entries) = entries_of(sent) {
            let before = entries_of(init)->Ok_0;
            assert forall|i: int| 0 <= i < sent.len() implies is_entry_sent(
                #[trigger] entries[i],
                sent[i],
            ) && 1 <= sent[i].kind <= 4 by {
                if i < init.len() {
                    assert(entries[i] == before[i]);
                    assert(init[i] == sent[i]);
                    assert(is_entry_sent(before[i], init[i]));
                }
            }
            assert forall|i: int| 0 <= i < sent.len() implies 1 <= (#[trigger] sent[i]).kind <= 4 by {
                assert(is_entry_sent(entries[i], sent[i]));
            }
        }
    }
}

/// A batch of a listing is accepted exactly where it has entries and each has one of the four kinds.
/// What is handed out then is each entry as it was sent, in order, none left out and none added.
pub proof fn law_listing_batches_lose_nothing(sent: Seq<ListingEntry>)
    ensures
        batch_of(sent) is Ok <==> sent.len() > 0 && forall|i: int|
            0 <= i < sent.len() ==> 1 <= (#[trigger] sent[i]).kind <= 4,
        batch_of(sent) matches Ok(entries) ==> entries.len() == sent.len() && forall|i: int|
            0 <= i < sent.len() ==> is_entry_sent(#[trigger] entries[i], sent[i]),
{
    lemma_entries(sent);
}

/// Whether an entry of a walk can be accepted.
pub open spec fn is_walkable(sent: ProtocolWalkEntry) -> bool {
    &&& is_descendant(sent.relative_path@)
    &&& 1 <= sent.depth <= usize::MAX
    &&& sent.entry matches Some(nested) && 1 <= nested.kind <= 4
}

/// Whether `entry` is what was sent as `sent`: its path below the root and its depth as they came,
/// and the entry that came with them.
pub open spec fn is_walk_entry_sent(entry: WalkEntry, sent: ProtocolWalkEntry) -> bool {
    &&& entry.relative_path == sent.relative_path
    &&& entry.depth == sent.depth
    &&& sent.entry matches Some(nested) && is_entry_sent(entry.entry, nested)
}

/// An entry of a walk is accepted exactly where it leads down, has a depth and a kind, and then is
/// what was sent, be it a directory, a file or anything else.
pub proof fn law_walk_entries_are_what_was_sent(sent: ProtocolWalkEntry)
    ensures
        walk_entry_of(sent) is Ok <==> is_walkable(sent),
        walk_entry_of(sent) matches Ok(entry) ==> is_walk_entry_sent(entry, sent),
        walk_entry_of(sent) matches Err(e) ==> e.kind == IoErrorKind::InvalidData,
{
    if let Some(nested) = sent.entry {
        law_entries_are_what_was_sent(nested);
    }
}

proof fn lemma_walk_entries(sent: Seq<ProtocolWalkEntry>)
    ensures
        walk_entries_of(sent) is Ok <==> forall|i: int|
            0 <= i < sent.len() ==> is_walkable(#[trigger] sent[i]),
        walk_entries_of(sent) matches Ok(entries) ==> entries.len() == sent.len() && forall|i: int|
            0 <= i < sent.len() ==> is_walk_entry_sent(#[trigger] entries[i], sent[i]),
    decreases sent.len(),
{
    if sent.len() > 0 {
        let init = sent.drop_last();
        lemma_walk_entries(init);
        law_walk_entries_are_what_was_sent(sent.last());
        assert(sent.last() == sent[sent.len() - 1]);
        if forall|i: int| 0 <= i < sent.len() ==> is_walkable(#[trigger] sent[i]) {
            assert forall|i: int| 0 <= i < init.len() implies is_walkable(#[trigger] init[i]) by {
                assert(is_walkable(sent[i]));
            }
            assert(is_walkable(sent[sent.len() - 1]));
        }
        if let Ok(entries) = walk_entries_of(sent) {
            let before = walk_entries_of(init)->Ok_0;
            assert forall|i: int| 0 <= i < sent.len() implies is_walk_entry_sent(
                #[trigger] entries[i],
                sent[i],
            ) by {
                if i < init.len() {
                    assert(entries[i] == before[i]);
                    assert(init[i] == sent[i]);
                }
            }
            assert forall|i: int| 0 <= i < sent.len() implies is_walkable(#[trigger] sent[i]) by {
                if i < init.len() {
                    assert(is_walkable(init[i]));
                }
            }
        }
    }
}

/// A batch of a walk is accepted exactly where it has entries and each can be accepted. What is handed
/// out then is each entry as it was sent, in order, none left out and none added.
pub proof fn law_walk_batches_lose_nothing(sent: Seq<ProtocolWalkEntry>)
    ensures
        walk_batch_of(sent) is Ok <==> sent.len() > 0 && forall|i: int|
            0 <= i < sent.len() ==> is_walkable(#[trigger] sent[i]),
        walk_batch_of(sent) matches Ok(entries) ==> entries.len() == sent.len() && forall|i: int|
            0 <= i < sent.len() ==> is_walk_entry_sent(#[trigger] entries[i], sent[i]),
{
    lemma_walk_entries(sent);
}

/// A walk that is open hands out what is pending and then, for a batch that can be accepted, every
/// entry of it as it was sent and in order, before it goes on with the rest of the stream. A batch that
/// cannot, or a refusal, is handed out as one error and ends the walk; the end of the stream ends it
/// without one.
pub proof fn law_walks_hand_out_every_entry(pending: Seq<WalkEntry>, events: Seq<WalkEvent>)
    requires
        events.len() > 0,
    ensures
        ({
            let items = walk_items(WalkView { open: true, pending }, events);
            let ready = pending.len() as int;
            &&& items.len() >= ready
            &&& forall|i: int|
                0 <= i < ready ==> #[trigger] items[i] == Ok::<WalkEntry, IoErrorView>(pending[i])
            &&& match events[0] {
                WalkEvent::Batch(sent) => if sent@.len() > 0 && forall|i: int|
                    0 <= i < sent@.len() ==> is_walkable(#[trigger] sent@[i]) {
                    let count = sent@.len() as int;
                    &&& items.len() >= ready + count
                    &&& forall|i: int|
                        ready <= i < ready + count ==> ((#[trigger] items[i]) matches Ok(entry)
                            && is_walk_entry_sent(entry, sent@[i - ready]))
                    &&& items.skip(ready + count) == walk_items(
                        WalkView { open: true, pending: Seq::empty() },
                        events.skip(1),
                    )
                } else {
                    items.len() == ready + 1 && items.last() is Err
                },
                WalkEvent::Refused(status) => {
                    items.len() == ready + 1 && (items.last() matches Err(e) && e.message
                        == status.message@)
                },
                WalkEvent::End => items.len() == ready,
            }
        }),
{
    let walk = WalkView { open: true, pending };
    let items = walk_items(walk, events);
    let empty = WalkView { open: true, pending: Seq::empty() };
    let front = pending.map_values(|e: WalkEntry| Ok::<WalkEntry, IoErrorView>(e));
    let rest = events.skip(1);
    match events[0] {
        WalkEvent::Batch(sent) => {
            law_walk_batches_lose_nothing(sent@);
            if let Ok(entries) = walk_batch_of(sent@) {
                let next = WalkView { open: true, pending: entries };
                assert(empty.receive(events[0]) == next);
                assert(WalkView { pending: Seq::empty(), ..walk } == empty);
                let after = walk_items(next, rest);
                assert(items == front + after);
                lemma_walk_front(entries, rest);
                let count = entries.len() as int;
                assert forall|i: int|
                    front.len() <= i < front.len() + count implies ((#[trigger] items[i]) matches Ok(
                    entry,
                ) && is_walk_entry_sent(entry, sent@[i - front.len()])) by {
                    assert(items[i] == after[i - front.len()]);
                    assert(is_walk_entry_sent(entries[i - front.len()], sent@[i - front.len()]));
                }
                assert(items.skip(front.len() + count) =~= after.skip(count));
            }
        },
        WalkEvent::Refused(status) => {},
        WalkEvent::End => {
            let next = WalkView { pending: Seq::empty(), ..walk }.receive(events[0]);
            assert(walk_items(next, rest) =~= Seq::empty());
            assert(items =~= front);
        },
    }
}

/// What is pending is handed out first, and what comes behind does not depend on it.
proof fn lemma_walk_front(pending: Seq<WalkEntry>, events: Seq<WalkEvent>)
    ensures
        ({
            let items = walk_items(WalkView { open: true, pending }, events);
            let ready = pending.len() as int;
            &&& items.len() >= ready
            &&& forall|i: int|
                0 <= i < ready ==> #[trigger] items[i] == Ok::<WalkEntry, IoErrorView>(pending[i])
            &&& items.skip(ready) == walk_items(
                WalkView { open: true, pending: Seq::empty() },
                events,
            )
        }),
{
    let walk = WalkView { open: true, pending };
    let empty = WalkView { open: true, pending: Seq::<WalkEntry>::empty() };
    let front = pending.map_values(|e: WalkEntry| Ok::<WalkEntry, IoErrorView>(e));
    let none = empty.pending.map_values(|e: WalkEntry| Ok::<WalkEntry, IoErrorView>(e));
    let items = walk_items(walk, events);
    assert(none =~= Seq::empty());
    assert(WalkView { pending: Seq::empty(), ..walk } == empty);
    assert(WalkView { pending: Seq::empty(), ..empty } == empty);
    assert(items.skip(pending.len() as int) =~= walk_items(empty, events));
}

/// A read that is open hands out each chunk whole and as it came, and goes on with the rest of the
/// stream. An empty chunk or a refusal is handed out as one error and ends the read; the end of the
/// stream ends it without one.
pub proof fn law_reads_hand_out_every_chunk(events: Seq<ReadEvent>)
    requires
        events.len() > 0,
    ensures
        match events[0] {
            ReadEvent::Chunk(data) => if data@.len() > 0 {
                read_items(true, events) == seq![Ok::<Seq<u8>, IoErrorView>(data@)] + read_items(
                    true,
                    events.skip(1),
                )
            } else {
                read_items(true, events).len() == 1 && read_items(true, events)[0] is Err
            },
            ReadEvent::Refused(status) => {
                read_items(true, events).len() == 1 && (read_items(true, events)[0] matches Err(e)
                    && e.message == status.message@)
            },
            ReadEvent::End => read_items(true, events).len() == 0,
        },
        read_items(false, events).len() == 0,
{
}

/// A refusal is reported with its own words and as the kind of failure that its code stands for. Reads
/// differ in one code alone.
pub proof fn law_refusals_keep_their_meaning(status: GrpcStatus)
    ensures
        operation_failure(status).message == status.message@,
        read_failure(status).message == status.message@,
        operation_failure(status).kind is NotFound <==> status.code is NotFound,
        operation_failure(status).kind is PermissionDenied <==> status.code is PermissionDenied,
        operation_failure(status).kind is InvalidInput <==> status.code is InvalidArgument,
        operation_failure(status).kind is NotADirectory <==> status.code is FailedPrecondition,
        operation_failure(status).kind is Interrupted <==> status.code is Cancelled,
        operation_failure(status).kind is TimedOut <==> status.code is DeadlineExceeded,
        operation_failure(status).kind is ConnectionAborted <==> status.code is Unavailable,
        operation_failure(status).kind is Other <==> !(status.code is NotFound
            || status.code is PermissionDenied || status.code is InvalidArgument
            || status.code is FailedPrecondition || status.code is Cancelled
            || status.code is DeadlineExceeded || status.code is Unavailable),
        status.code is FailedPrecondition ==> read_failure(status).kind is IsADirectory,
        !(status.code is FailedPrecondition) ==> read_failure(status).kind == operation_failure(
            status,
        ).kind,
{
}

/// A failure of the file system is reported with its own words and as a kind of its own.
pub proof fn law_file_system_failures_keep_their_meaning(error: FsError)
    ensures
        fs_failure(error).message == error.message@,
        fs_failure(error).kind is InvalidInput <==> error.kind is InvalidArgument,
        fs_failure(error).kind is NotFound <==> error.kind is NotFound,
        fs_failure(error).kind is PermissionDenied <==> error.kind is PermissionDenied,
        fs_failure(error).kind is NotADirectory <==> error.kind is NotDirectory,
        fs_failure(error).kind is IsADirectory <==> error.kind is NotFile,
        fs_failure(error).kind is Interrupted <==> error.kind is Cancelled,
        fs_failure(error).kind is Other <==> error.kind is Internal,
{
}

} // verus!
