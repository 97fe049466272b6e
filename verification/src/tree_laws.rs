//! What holds of a directory tree across several operations.

use vstd::prelude::*;

use crate::api::EntryView;
use crate::row_laws::{
    are_distinct, hides, is_shown, lemma_moved_on, lemma_moved_on_differs, lemma_revision_step,
    lemma_with_entries, moved_on, overtakes, path_absent,
};
use crate::rows::{first_index, lemma_first_index, Request, RowTest, RowsView};
use crate::tree::{TreeCall, TreeView};

verus! {

/// How many of `calls` turn to a new root.
pub open spec fn begins(calls: Seq<TreeCall>) -> nat
    decreases calls.len(),
{
    if calls.len() == 0 {
        0
    } else if calls.last() is BeginRoot {
        begins(calls.drop_last()) + 1
    } else {
        begins(calls.drop_last())
    }
}

/// The generation moves on by exactly the number of new roots.
proof fn lemma_generation_run(t: TreeView, calls: Seq<TreeCall>)
    ensures
        t.after_all(calls).generation == moved_on(t.generation, begins(calls)),
        begins(calls) <= calls.len(),
    decreases calls.len(),
{
    if calls.len() > 0 {
        lemma_generation_run(t, calls.drop_last());
    }
}

/// A new root anywhere in a run counts.
proof fn lemma_begin_counts(calls: Seq<TreeCall>, i: int)
    requires
        0 <= i < calls.len(),
        calls[i] is BeginRoot,
    ensures
        begins(calls) > 0,
    decreases calls.len(),
{
    if i < calls.len() - 1 {
        lemma_begin_counts(calls.drop_last(), i);
    }
}

/// Without a new root the generation stays.
proof fn lemma_no_begin(calls: Seq<TreeCall>)
    requires
        forall|i: int| 0 <= i < calls.len() ==> !(#[trigger] calls[i] is BeginRoot),
    ensures
        begins(calls) == 0,
    decreases calls.len(),
{
    if calls.len() > 0 {
        let init = calls.drop_last();
        assert forall|i: int| 0 <= i < init.len() implies !(#[trigger] init[i] is BeginRoot) by {
            assert(init[i] == calls[i]);
        }
        lemma_no_begin(init);
        assert(!(calls[calls.len() - 1] is BeginRoot));
    }
}

/// Whether a run of operations turns to a new root.
pub open spec fn turns_to_new_root(calls: Seq<TreeCall>) -> bool {
    exists|i: int| 0 <= i < calls.len() && (#[trigger] calls[i]) is BeginRoot
}

/// What was requested below an earlier root is no longer taken, whatever has happened since the tree
/// turned away from it: not the listing of that root, not that of a directory, and no failure.
pub proof fn law_earlier_roots_take_no_results(
    t: TreeView,
    calls: Seq<TreeCall>,
    revision: u64,
    path: Seq<char>,
    entries: Seq<EntryView>,
    message: Seq<char>,
)
    requires
        calls.len() <= u64::MAX,
        turns_to_new_root(calls),
    ensures
        ({
            let now = t.after_all(calls);
            &&& now.after(TreeCall::FinishRoot(t.generation, entries)) == now
            &&& now.after(TreeCall::Finish(t.generation, revision, path, entries)) == now
            &&& now.after(TreeCall::Fail(t.generation, revision, path, message)) == now
        }),
{
    let i = choose|i: int| 0 <= i < calls.len() && (#[trigger] calls[i]) is BeginRoot;
    lemma_begin_counts(calls, i);
    lemma_generation_run(t, calls);
    lemma_moved_on_differs(t.generation, begins(calls));
}

/// Whether an operation overtakes an earlier request for `path`: it collapses the path, or asks for
/// a newer listing of it.
pub open spec fn tree_overtakes(t: TreeView, path: Seq<char>, call: TreeCall) -> bool {
    t.row_call(call) matches Some(row_call) && overtakes(t.rows, path, row_call)
}

/// Whether an operation takes the row of `path` away with the rows around it: it collapses a row
/// that `path` stands below, or lists the current root once more.
pub open spec fn displaces(t: TreeView, path: Seq<char>, call: TreeCall) -> bool {
    ||| t.row_call(call) matches Some(row_call) && hides(t.rows, path, row_call)
    ||| call matches TreeCall::FinishRoot(generation, _) && generation == t.generation
}

/// Whether a run of operations leaves the row of `path` its place: no two rows ever share a path,
/// no row that it stands below is collapsed, and the current root is not listed once more.
pub open spec fn tree_keeps_place(t: TreeView, path: Seq<char>, calls: Seq<TreeCall>) -> bool {
    &&& forall|i: int|
        0 <= i <= calls.len() ==> are_distinct(#[trigger] t.after_all(calls.take(i)).rows.rows)
    &&& forall|i: int|
        0 <= i < calls.len() ==> !displaces(t.after_all(calls.take(i)), path, #[trigger] calls[i])
}

/// Whether some operation of a run overtakes an earlier request for `path`.
pub open spec fn run_overtakes(t: TreeView, path: Seq<char>, calls: Seq<TreeCall>) -> bool {
    exists|i: int|
        0 <= i < calls.len() && tree_overtakes(
            t.after_all(calls.take(i)),
            path,
            #[trigger] calls[i],
        )
}

/// How many of `calls` overtake an earlier request for `path`.
pub open spec fn tree_overtakings(t: TreeView, path: Seq<char>, calls: Seq<TreeCall>) -> nat
    decreases calls.len(),
{
    if calls.len() == 0 {
        0
    } else {
        let before = t.after_all(calls.drop_last());
        let counted = tree_overtakings(t, path, calls.drop_last());
        if tree_overtakes(before, path, calls.last()) {
            counted + 1
        } else {
            counted
        }
    }
}

/// An overtaking anywhere in a run counts.
proof fn lemma_overtaking_counts(t: TreeView, path: Seq<char>, calls: Seq<TreeCall>, i: int)
    requires
        0 <= i < calls.len(),
        tree_overtakes(t.after_all(calls.take(i)), path, calls[i]),
    ensures
        tree_overtakings(t, path, calls) > 0,
    decreases calls.len(),
{
    let init = calls.drop_last();
    if i == calls.len() - 1 {
        assert(calls.take(i) =~= init);
    } else {
        assert(init.take(i) =~= calls.take(i));
        lemma_overtaking_counts(t, path, init, i);
    }
}

/// Below one root, over a run that leaves the row of `path` its place, the revision of the path
/// moves on by exactly the number of operations that overtake requests for it.
proof fn lemma_tree_revision_run(t: TreeView, path: Seq<char>, calls: Seq<TreeCall>)
    requires
        is_shown(t.rows.rows, path),
        t.rows.revisions.contains_key(path),
        tree_keeps_place(t, path, calls),
        forall|i: int| 0 <= i < calls.len() ==> !(#[trigger] calls[i] is BeginRoot),
    ensures
        is_shown(t.after_all(calls).rows.rows, path),
        t.after_all(calls).rows.revisions.contains_key(path),
        t.after_all(calls).rows.revisions[path] == moved_on(
            t.rows.revisions[path],
            tree_overtakings(t, path, calls),
        ),
        tree_overtakings(t, path, calls) <= calls.len(),
    decreases calls.len(),
{
    if calls.len() > 0 {
        let init = calls.drop_last();
        let n = calls.len() as int;
        assert forall|i: int| 0 <= i <= init.len() implies are_distinct(
            #[trigger] t.after_all(init.take(i)).rows.rows,
        ) by {
            assert(init.take(i) =~= calls.take(i));
        }
        assert forall|i: int| 0 <= i < init.len() implies !displaces(
            t.after_all(init.take(i)),
            path,
            #[trigger] init[i],
        ) by {
            assert(init.take(i) =~= calls.take(i));
            assert(init[i] == calls[i]);
        }
        assert forall|i: int| 0 <= i < init.len() implies !(#[trigger] init[i] is BeginRoot) by {
            assert(init[i] == calls[i]);
        }
        lemma_tree_revision_run(t, path, init);
        let before = t.after_all(init);
        assert(calls.take(n - 1) =~= init);
        assert(calls.take(n) =~= calls);
        assert(are_distinct(t.after_all(calls.take(n - 1)).rows.rows));
        assert(are_distinct(t.after_all(calls.take(n)).rows.rows));
        assert(!displaces(t.after_all(calls.take(n - 1)), path, calls[n - 1]));
        assert(!(calls[n - 1] is BeginRoot));
        match before.row_call(calls.last()) {
            Some(row_call) => {
                lemma_revision_step(before.rows, path, row_call);
                lemma_moved_on(
                    t.rows.revisions[path],
                    tree_overtakings(t, path, init),
                    before.rows.revisions,
                    path,
                );
            },
            None => {},
        }
    }
}

/// A result that was overtaken is ignored, whatever else has happened since. After a request to
/// expand `path` was granted, let any run of operations follow that turns to a new root; or one that
/// collapses the path or requests it anew at least once, while no two rows ever share a path, no row
/// that it stands below is collapsed, and the root is not listed a second time. Then the listing that
/// answers the first request, and its failure, change nothing.
pub proof fn law_overtaken_tree_results_are_ignored(
    t: TreeView,
    path: Seq<char>,
    calls: Seq<TreeCall>,
    entries: Seq<EntryView>,
    message: Seq<char>,
)
    requires
        t.rows.prepare(path) matches Request::Granted((_, Some(_))),
        calls.len() <= u64::MAX,
        ({
            let asked = t.after(TreeCall::Prepare(path));
            ||| turns_to_new_root(calls)
            ||| tree_keeps_place(asked, path, calls) && run_overtakes(asked, path, calls)
        }),
    ensures
        t.rows.prepare(path) matches Request::Granted((_, Some(revision))) && {
            let now = t.after(TreeCall::Prepare(path)).after_all(calls);
            &&& now.after(TreeCall::Finish(t.generation, revision, path, entries)) == now
            &&& now.after(TreeCall::Fail(t.generation, revision, path, message)) == now
        },
{
    let asked = t.after(TreeCall::Prepare(path));
    let revision = t.rows.prepare(path)->Granted_0.1->Some_0;
    if turns_to_new_root(calls) {
        law_earlier_roots_take_no_results(asked, calls, revision, path, entries, message);
    } else {
        let at = first_index(t.rows.rows, RowTest::Path(path));
        lemma_first_index(t.rows.rows, RowTest::Path(path));
        assert(asked.rows.rows[at].entry.path == path);
        assert(is_shown(asked.rows.rows, path));
        lemma_no_begin(calls);
        lemma_generation_run(asked, calls);
        lemma_tree_revision_run(asked, path, calls);
        let o = choose|o: int|
            0 <= o < calls.len() && tree_overtakes(
                asked.after_all(calls.take(o)),
                path,
                #[trigger] calls[o],
            );
        lemma_overtaking_counts(asked, path, calls, o);
        lemma_moved_on_differs(revision, tree_overtakings(asked, path, calls));
    }
}

/// Listing the current root once more starts the revisions anew: from then on the revision of a path
/// that the listing holds is the number of times that the path was collapsed or requested. A result
/// that was requested before the listing is therefore ignored as long as this is not its number.
pub proof fn law_listing_the_root_again_restarts_revisions(
    t: TreeView,
    listing: Seq<EntryView>,
    path: Seq<char>,
    calls: Seq<TreeCall>,
    revision: u64,
    entries: Seq<EntryView>,
    message: Seq<char>,
)
    requires
        !path_absent(listing, path),
        !turns_to_new_root(calls),
        tree_keeps_place(t.after(TreeCall::FinishRoot(t.generation, listing)), path, calls),
    ensures
        ({
            let listed = t.after(TreeCall::FinishRoot(t.generation, listing));
            let now = listed.after_all(calls);
            let reached = moved_on(0, tree_overtakings(listed, path, calls));
            &&& now.rows.revisions.contains_key(path)
            &&& now.rows.revisions[path] == reached
            &&& revision != reached ==> {
                &&& now.after(TreeCall::Finish(t.generation, revision, path, entries)) == now
                &&& now.after(TreeCall::Fail(t.generation, revision, path, message)) == now
            }
        }),
{
    let listed = t.after(TreeCall::FinishRoot(t.generation, listing));
    assert(listed.rows == RowsView::listed(listing));
    let k = choose|k: int| 0 <= k < listing.len() && (#[trigger] listing[k]).path == path;
    assert(listed.rows.rows[k].entry.path == path);
    assert(is_shown(listed.rows.rows, path));
    lemma_with_entries(Map::empty(), listing, path);
    lemma_no_begin(calls);
    lemma_generation_run(listed, calls);
    lemma_tree_revision_run(listed, path, calls);
}

} // verus!
