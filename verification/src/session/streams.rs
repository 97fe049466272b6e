//! What sessions make of the streams that servers send: items in order, up to the first error.

use std::collections::VecDeque;
use vstd::prelude::*;

use crate::connection::grpc::GrpcStatus;
use crate::io_error::{invalid_data, IoError, IoErrorView};
use crate::session::entries::{
    bad_data, batch_of, convert_batch, convert_walk_entry, operation_failure, operation_status_error,
    read_failure, read_status_error, walk_entry_of, DirectoryEntry, ListingEntry, ProtocolWalkEntry,
    WalkEntry,
};

verus! {

/// What a batch of entries of a tree is, up to the first one that is none.
pub open spec fn walk_entries_of(entries: Seq<ProtocolWalkEntry>) -> Result<
    Seq<WalkEntry>,
    IoErrorView,
>
    decreases entries.len(),
{
    if entries.len() == 0 {
        Ok(Seq::empty())
    } else {
        match walk_entries_of(entries.drop_last()) {
            Err(e) => Err(e),
            Ok(init) => match walk_entry_of(entries.last()) {
                Err(e) => Err(e),
                Ok(entry) => Ok(init.push(entry)),
            },
        }
    }
}

proof fn lemma_walk_error(entries: Seq<ProtocolWalkEntry>, n: int)
    requires
        0 <= n <= entries.len(),
        walk_entries_of(entries.take(n)) is Err,
    ensures
        walk_entries_of(entries) == walk_entries_of(entries.take(n)),
    decreases entries.len(),
{
    if n == entries.len() {
        assert(entries.take(n) =~= entries);
    } else {
        assert(entries.drop_last().take(n) =~= entries.take(n));
        lemma_walk_error(entries.drop_last(), n);
    }
}

/// What a batch of entries of a tree that a server sends is.
pub open spec fn walk_batch_of(entries: Seq<ProtocolWalkEntry>) -> Result<Seq<WalkEntry>, IoErrorView> {
    if entries.len() == 0 {
        Err(bad_data("server returned an empty walk batch"@))
    } else {
        walk_entries_of(entries)
    }
}

/// Converts a batch of entries of a tree that a server sent.
pub fn convert_walk_batch(entries: &Vec<ProtocolWalkEntry>) -> (r: Result<VecDeque<WalkEntry>, IoError>)
    ensures
        match r {
            Ok(converted) => walk_batch_of(entries@) == Ok::<Seq<WalkEntry>, IoErrorView>(
                converted@,
            ),
            Err(e) => walk_batch_of(entries@) == Err::<Seq<WalkEntry>, IoErrorView>(e@),
        },
{
    if entries.len() == 0 {
        return Err(invalid_data("server returned an empty walk batch"));
    }
    let mut out: VecDeque<WalkEntry> = VecDeque::new();
    let mut i: usize = 0;
    proof {
        assert(entries@.take(0) =~= Seq::empty());
    }
    while i < entries.len()
        invariant
            i <= entries@.len(),
            entries@.len() > 0,
            walk_entries_of(entries@.take(i as int)) == Ok::<Seq<WalkEntry>, IoErrorView>(out@),
        decreases entries@.len() - i,
    {
        proof {
            assert(entries@.take(i + 1).drop_last() =~= entries@.take(i as int));
            assert(entries@.take(i + 1).last() == entries@[i as int]);
        }
        match convert_walk_entry(&entries[i]) {
            Err(e) => {
                proof {
                    lemma_walk_error(entries@, i + 1);
                }
                return Err(e);
            },
            Ok(entry) => {
                out.push_back(entry);
            },
        }
        i = i + 1;
    }
    proof {
        assert(entries@.take(i as int) =~= entries@);
    }
    Ok(out)
}

/// What the stream of a walk brings next.
#[derive(Debug, PartialEq, Eq)]
pub enum WalkEvent {
    Batch(Vec<ProtocolWalkEntry>),
    Refused(GrpcStatus),
    End,
}

/// A walk that a server streams in batches.
pub struct NetworkWalk {
    open: bool,
    pending: VecDeque<WalkEntry>,
}

/// What a [`NetworkWalk`] stands for: the entries that have come and not been handed out, and
/// whether more may come.
pub struct WalkView {
    pub open: bool,
    pub pending: Seq<WalkEntry>,
}

impl View for NetworkWalk {
    type V = WalkView;

    closed spec fn view(&self) -> WalkView {
        WalkView { open: self.open, pending: self.pending@ }
    }
}

/// What is wrong with what the stream brings, if anything.
pub open spec fn walk_error(event: WalkEvent) -> Option<IoErrorView> {
    match event {
        WalkEvent::Batch(entries) => match walk_batch_of(entries@) {
            Ok(_) => None,
            Err(e) => Some(e),
        },
        WalkEvent::Refused(status) => Some(operation_failure(status)),
        WalkEvent::End => None,
    }
}

impl WalkView {
    /// The walk once the stream has brought `event`.
    pub open spec fn receive(self, event: WalkEvent) -> WalkView {
        match event {
            WalkEvent::Batch(entries) => match walk_batch_of(entries@) {
                Ok(pending) => WalkView { open: self.open, pending },
                Err(_) => WalkView { open: false, pending: self.pending },
            },
            _ => WalkView { open: false, pending: self.pending },
        }
    }
}

/// What a walk hands out in all, from where it stands, when the stream brings `events`: what is
/// pending, then the entries of each batch, up to the first error.
pub open spec fn walk_items(walk: WalkView, events: Seq<WalkEvent>) -> Seq<
    Result<WalkEntry, IoErrorView>,
>
    decreases events.len(),
{
    let ready = walk.pending.map_values(|e: WalkEntry| Ok::<WalkEntry, IoErrorView>(e));
    if !walk.open || events.len() == 0 {
        ready
    } else {
        match walk_error(events[0]) {
            Some(e) => ready.push(Err(e)),
            None => ready + walk_items(
                WalkView { pending: Seq::empty(), ..walk }.receive(events[0]),
                events.skip(1),
            ),
        }
    }
}

impl NetworkWalk {
    /// A walk of which nothing has come yet.
    pub fn new() -> (r: Self)
        ensures
            r@.open,
            r@.pending == Seq::<WalkEntry>::empty(),
    {
        NetworkWalk { open: true, pending: VecDeque::new() }
    }

    /// Hands out the next entry that has come, if there is one.
    pub fn next_pending(&mut self) -> (r: Option<WalkEntry>)
        ensures
            final(self)@.open == old(self)@.open,
            match r {
                Some(entry) => {
                    &&& old(self)@.pending.len() > 0
                    &&& entry == old(self)@.pending[0]
                    &&& final(self)@.pending == old(self)@.pending.skip(1)
                },
                None => old(self)@.pending.len() == 0 && final(self)@ == old(self)@,
            },
    {
        let ghost before = self.pending@;
        let entry = self.pending.pop_front();
        proof {
            if entry is Some {
                assert(self.pending@ =~= before.skip(1));
            }
        }
        entry
    }

    /// Whether the stream is to be asked for more once nothing is pending.
    pub fn is_open(&self) -> (r: bool)
        ensures
            r == self@.open,
    {
        self.open
    }

    /// Takes in what the stream brings once nothing is pending. An error ends the walk.
    pub fn receive(&mut self, event: WalkEvent) -> (r: Result<(), IoError>)
        requires
            old(self)@.open,
            old(self)@.pending.len() == 0,
        ensures
            final(self)@ == old(self)@.receive(event),
            match r {
                Ok(_) => walk_error(event) is None,
                Err(e) => walk_error(event) == Some(e@),
            },
    {
        match event {
            WalkEvent::Batch(entries) => match convert_walk_batch(&entries) {
                Ok(pending) => {
                    self.pending = pending;
                    Ok(())
                },
                Err(e) => {
                    self.open = false;
                    Err(e)
                },
            },
            WalkEvent::Refused(status) => {
                self.open = false;
                Err(operation_status_error(&status))
            },
            WalkEvent::End => {
                self.open = false;
                Ok(())
            },
        }
    }
}

/// Handing out a pending entry takes exactly the first of all items.
pub proof fn law_pending_entries_come_first(walk: WalkView, events: Seq<WalkEvent>)
    requires
        walk.pending.len() > 0,
    ensures
        walk_items(walk, events) == seq![Ok::<WalkEntry, IoErrorView>(walk.pending[0])]
            + walk_items(WalkView { pending: walk.pending.skip(1), ..walk }, events),
{
    let rest = WalkView { pending: walk.pending.skip(1), ..walk };
    let ready = walk.pending.map_values(|e: WalkEntry| Ok::<WalkEntry, IoErrorView>(e));
    let less = rest.pending.map_values(|e: WalkEntry| Ok::<WalkEntry, IoErrorView>(e));
    assert(ready =~= seq![Ok::<WalkEntry, IoErrorView>(walk.pending[0])] + less);
    assert(WalkView { pending: Seq::empty(), ..walk } == WalkView { pending: Seq::empty(), ..rest });
    assert(walk_items(walk, events) =~= seq![Ok::<WalkEntry, IoErrorView>(walk.pending[0])]
        + walk_items(rest, events));
}

/// What comes before an error is kept, and what the stream would bring after it is not asked for.
pub proof fn law_walks_end_at_the_first_error(
    walk: WalkView,
    events: Seq<WalkEvent>,
    later: Seq<WalkEvent>,
)
    requires
        walk.open,
        events.len() > 0,
        walk_error(events.last()) is Some || events.last() is End,
        forall|i: int|
            0 <= i < events.len() - 1 ==> walk_error(#[trigger] events[i]) is None && !(
            events[i] is End),
    ensures
        walk_items(walk, events + later) == walk_items(walk, events),
    decreases events.len(),
{
    let all = events + later;
    assert(all[0] == events[0]);
    if events.len() > 1 {
        let next = WalkView { pending: Seq::empty(), ..walk }.receive(events[0]);
        assert(walk_error(events[0]) is None && !(events[0] is End));
        let rest = events.skip(1);
        assert(all.skip(1) =~= rest + later);
        assert(rest.last() == events.last());
        assert forall|i: int| 0 <= i < rest.len() - 1 implies walk_error(#[trigger] rest[i]) is None
            && !(rest[i] is End) by {
            assert(rest[i] == events[i + 1]);
        }
        law_walks_end_at_the_first_error(next, rest, later);
    } else if walk_error(events[0]) is None {
        let next = WalkView { pending: Seq::empty(), ..walk }.receive(events[0]);
        assert(!next.open);
        assert(walk_items(next, all.skip(1)) == walk_items(next, events.skip(1)));
    }
}

/// The items of a listing for what its stream brings: the entries of a batch, or one error.
pub fn list_items(event: Result<Vec<ListingEntry>, GrpcStatus>) -> (r: Result<
    Vec<DirectoryEntry>,
    IoError,
>)
    ensures
        match event {
            Err(status) => r matches Err(e) && e@ == operation_failure(status),
            Ok(entries) => match r {
                Ok(converted) => batch_of(entries@) == Ok::<Seq<DirectoryEntry>, IoErrorView>(
                    converted@,
                ),
                Err(e) => batch_of(entries@) == Err::<Seq<DirectoryEntry>, IoErrorView>(e@),
            },
        },
{
    match event {
        Err(status) => Err(operation_status_error(&status)),
        Ok(entries) => convert_batch(&entries),
    }
}

/// What the stream of a read brings next.
#[derive(Debug, PartialEq, Eq)]
pub enum ReadEvent {
    Chunk(Vec<u8>),
    Refused(GrpcStatus),
    End,
}

/// A read that a server streams in chunks.
#[derive(Debug, PartialEq, Eq)]
pub struct NetworkRead {
    pub open: bool,
}

/// What a read hands out for what the stream brings.
pub open spec fn read_item(event: ReadEvent) -> Option<Result<Seq<u8>, IoErrorView>> {
    match event {
        ReadEvent::Chunk(data) => if data@.len() == 0 {
            Some(Err(bad_data("server returned an empty read chunk"@)))
        } else {
            Some(Ok(data@))
        },
        ReadEvent::Refused(status) => Some(Err(read_failure(status))),
        ReadEvent::End => None,
    }
}

/// What a read hands out in all when the stream brings `events`.
pub open spec fn read_items(open: bool, events: Seq<ReadEvent>) -> Seq<Result<Seq<u8>, IoErrorView>>
    decreases events.len(),
{
    if !open || events.len() == 0 {
        Seq::empty()
    } else {
        match read_item(events[0]) {
            Some(Ok(data)) => seq![Ok::<Seq<u8>, IoErrorView>(data)] + read_items(
                true,
                events.skip(1),
            ),
            Some(Err(e)) => seq![Err::<Seq<u8>, IoErrorView>(e)],
            None => Seq::empty(),
        }
    }
}

impl NetworkRead {
    /// A read of which nothing has come yet.
    pub fn new() -> (r: Self)
        ensures
            r.open,
    {
        NetworkRead { open: true }
    }

    /// Takes in what the stream brings: a chunk is handed out as it is, and anything else ends the
    /// read. A read that has ended hands out nothing.
    pub fn receive(&mut self, event: ReadEvent) -> (r: Option<Result<Vec<u8>, IoError>>)
        ensures
            !old(self).open ==> r is None && !final(self).open,
            old(self).open ==> match r {
                None => read_item(event) is None && !final(self).open,
                Some(Ok(data)) => {
                    &&& read_item(event) == Some(Ok::<Seq<u8>, IoErrorView>(data@))
                    &&& final(self).open
                },
                Some(Err(e)) => {
                    &&& read_item(event) == Some(Err::<Seq<u8>, IoErrorView>(e@))
                    &&& !final(self).open
                },
            },
    {
        if !self.open {
            return None;
        }
        match event {
            ReadEvent::Chunk(data) => {
                if data.len() == 0 {
                    self.open = false;
                    return Some(Err(invalid_data("server returned an empty read chunk")));
                }
                Some(Ok(data))
            },
            ReadEvent::Refused(status) => {
                self.open = false;
                Some(Err(read_status_error(&status)))
            },
            ReadEvent::End => {
                self.open = false;
                None
            },
        }
    }
}

/// A read hands out every chunk before the first error or the end, in order and unchanged, and
/// nothing of what the stream would bring after it.
pub proof fn law_reads_end_at_the_first_error(chunks: Seq<ReadEvent>, last: ReadEvent, later: Seq<ReadEvent>)
    requires
        forall|i: int|
            0 <= i < chunks.len() ==> (read_item(#[trigger] chunks[i]) matches Some(Ok(_))),
        !(read_item(last) matches Some(Ok(_))),
    ensures
        ({
            let all = read_items(true, chunks + seq![last] + later);
            let ends = if read_item(last) is Some {
                1int
            } else {
                0int
            };
            &&& all.len() == chunks.len() + ends
            &&& forall|i: int|
                0 <= i < chunks.len() ==> read_item(chunks[i]) == Some(#[trigger] all[i])
            &&& ends == 1 ==> read_item(last) == Some(all[chunks.len() as int])
        }),
    decreases chunks.len(),
{
    let events = chunks + seq![last] + later;
    let all = read_items(true, events);
    if chunks.len() == 0 {
        assert(events[0] == last);
    } else {
        assert(events[0] == chunks[0]);
        let rest = chunks.skip(1);
        assert(events.skip(1) =~= rest + seq![last] + later);
        assert forall|i: int| 0 <= i < rest.len() implies (read_item(#[trigger] rest[i]) matches Some(
            Ok(_),
        )) by {
            assert(rest[i] == chunks[i + 1]);
        }
        law_reads_end_at_the_first_error(rest, last, later);
        let tail = read_items(true, rest + seq![last] + later);
        assert(read_item(chunks[0]) matches Some(Ok(_)));
        assert forall|i: int| 0 <= i < chunks.len() implies read_item(chunks[i]) == Some(
            #[trigger] all[i],
        ) by {
            if i > 0 {
                assert(all[i] == tail[i - 1]);
                assert(rest[i - 1] == chunks[i]);
            }
        }
    }
}

} // verus!
