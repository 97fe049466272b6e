//! What each operation does to the visible rows, row by row.

use vstd::map::*;
use vstd::prelude::*;

use crate::api::{DirectoryEntry, EntryView};
use crate::row_laws::{
    lemma_with_entries, lemma_without_rows, lemma_without_rows_keys, path_absent,
};
use crate::rows::{
    entries_view, first_index, lemma_first_index, lemma_first_index_is, lemma_subtree_end, passes,
    rows_view, subtree_end, without_rows, Request, RowTest, RowView, RowsView, StateRow,
};

verus! {

/// A row shows every part of what it holds: rows that stand for the same hold the same entry, parent,
/// depth, state and error.
pub proof fn law_rows_show_all_they_hold(a: StateRow, b: StateRow)
    requires
        a@ == b@,
    ensures
        a.entry@ == b.entry@,
        a.depth == b.depth,
        a.expanded == b.expanded,
        a.parent_path is Some == b.parent_path is Some,
        a.parent_path is Some ==> a.parent_path->Some_0@ == b.parent_path->Some_0@,
        a.error_message is Some == b.error_message is Some,
        a.error_message is Some ==> a.error_message->Some_0@ == b.error_message->Some_0@,
{
}

/// An entry shows every part of what it holds.
pub proof fn law_entries_show_all_they_hold(a: DirectoryEntry, b: DirectoryEntry)
    requires
        a@ == b@,
    ensures
        a.path@ == b.path@,
        a.name@ == b.name@,
        a.kind == b.kind,
        a.navigable == b.navigable,
{
}

/// A listed root shows one collapsed row per entry, in order, on the first level, without a parent
/// and without an error, and no expansion of any of them was asked for yet.
pub proof fn law_roots_show_their_entries(entries: Seq<EntryView>)
    ensures
        RowsView::listed(entries).rows.len() == entries.len(),
        forall|i: int|
            0 <= i < entries.len() ==> {
                let row = #[trigger] RowsView::listed(entries).rows[i];
                &&& row.entry == entries[i]
                &&& row.depth == 0
                &&& row.parent_path is None
                &&& !row.expanded
                &&& row.error_message is None
            },
        forall|i: int|
            0 <= i < entries.len() ==> RowsView::listed(entries).revisions.contains_key(
                (#[trigger] entries[i]).path,
            ) && RowsView::listed(entries).revisions[entries[i].path] == 0,
{
    assert forall|i: int| 0 <= i < entries.len() implies RowsView::listed(
        entries,
    ).revisions.contains_key((#[trigger] entries[i]).path) && RowsView::listed(
        entries,
    ).revisions[entries[i].path] == 0 by {
        lemma_with_entries(Map::empty(), entries, entries[i].path);
    }
}

/// A path that no row has can be neither expanded nor collapsed, and is unknown.
pub proof fn law_only_shown_paths_are_known(m: RowsView, path: Seq<char>)
    ensures
        m.prepare(path) is Unknown <==> forall|j: int|
            0 <= j < m.rows.len() ==> (#[trigger] m.rows[j]).entry.path != path,
        m.collapse(path) is Unknown <==> forall|j: int|
            0 <= j < m.rows.len() ==> (#[trigger] m.rows[j]).entry.path != path,
{
    lemma_first_index(m.rows, RowTest::Path(path));
    let i = first_index(m.rows, RowTest::Path(path));
    if i == m.rows.len() {
        assert forall|j: int| 0 <= j < m.rows.len() implies (#[trigger] m.rows[j]).entry.path != path by {
            assert(!passes(m.rows[j], RowTest::Path(path)));
        }
    } else {
        assert(m.rows[i].entry.path == path);
    }
}

/// Whether row `i` is the first one of its path.
pub open spec fn is_first_of_path(rows: Seq<RowView>, i: int) -> bool {
    &&& 0 <= i < rows.len()
    &&& forall|j: int| 0 <= j < i ==> (#[trigger] rows[j]).entry.path != rows[i].entry.path
}

proof fn lemma_first_of_path(rows: Seq<RowView>, i: int)
    requires
        is_first_of_path(rows, i),
    ensures
        first_index(rows, RowTest::Path(rows[i].entry.path)) == i,
{
    let path = rows[i].entry.path;
    assert forall|j: int| 0 <= j < i implies !passes(#[trigger] rows[j], RowTest::Path(path)) by {
        assert(rows[j].entry.path != path);
    }
    lemma_first_index_is(rows, RowTest::Path(path), i);
}

/// A row can be expanded and collapsed exactly where its entry can be navigated into, on whatever
/// level it stands, whatever its entry is and whatever else is shown.
pub proof fn law_navigable_rows_are_granted(m: RowsView, i: int)
    requires
        is_first_of_path(m.rows, i),
    ensures
        m.prepare(m.rows[i].entry.path) is NotDirectory <==> !m.rows[i].entry.navigable,
        m.prepare(m.rows[i].entry.path) is Granted <==> m.rows[i].entry.navigable,
        m.collapse(m.rows[i].entry.path) is NotDirectory <==> !m.rows[i].entry.navigable,
        m.collapse(m.rows[i].entry.path) is Granted <==> m.rows[i].entry.navigable,
        m.rows[i].entry.navigable && !m.rows[i].expanded ==> (m.prepare(
            m.rows[i].entry.path,
        ) matches Request::Granted((_, Some(_)))),
        m.rows[i].entry.navigable && m.rows[i].expanded ==> m.prepare(m.rows[i].entry.path)
            == Request::Granted((m, None::<u64>)),
{
    lemma_first_of_path(m.rows, i);
}

/// Whether `a` and `b` differ in nothing but whether they are expanded and in their error.
pub open spec fn same_place(a: RowView, b: RowView) -> bool {
    a.entry == b.entry && a.parent_path == b.parent_path && a.depth == b.depth
}

/// A request to expand a collapsed row clears the row's error and leaves it collapsed and every other
/// row as it was. It takes the next number of the row's path and no number of any other.
pub proof fn law_requests_touch_their_row_only(m: RowsView, i: int)
    requires
        is_first_of_path(m.rows, i),
        m.rows[i].entry.navigable,
        !m.rows[i].expanded,
    ensures
        m.prepare(m.rows[i].entry.path) matches Request::Granted((n, Some(revision))) && {
            let path = m.rows[i].entry.path;
            &&& n.rows.len() == m.rows.len()
            &&& forall|j: int| 0 <= j < m.rows.len() && j != i ==> #[trigger] n.rows[j] == m.rows[j]
            &&& same_place(n.rows[i], m.rows[i])
            &&& !n.rows[i].expanded
            &&& n.rows[i].error_message is None
            &&& n.revisions.contains_key(path) && n.revisions[path] == revision
            &&& !m.revisions.contains_key(path) ==> revision == 1
            &&& m.revisions.contains_key(path) && m.revisions[path] < u64::MAX ==> revision
                == m.revisions[path] + 1
            &&& m.revisions.contains_key(path) && m.revisions[path] == u64::MAX ==> revision == 0
            &&& forall|other: Seq<char>|
                other != path ==> (#[trigger] n.revisions.contains_key(other)
                    == m.revisions.contains_key(other)) && (m.revisions.contains_key(other)
                    ==> n.revisions[other] == m.revisions[other])
        },
{
    lemma_first_of_path(m.rows, i);
}

/// Whether row `i` is the first collapsed one of `path`.
pub open spec fn is_first_collapsed(rows: Seq<RowView>, i: int, path: Seq<char>) -> bool {
    &&& 0 <= i < rows.len()
    &&& rows[i].entry.path == path
    &&& !rows[i].expanded
    &&& forall|j: int|
        0 <= j < i ==> (#[trigger] rows[j]).entry.path != path || rows[j].expanded
}

proof fn lemma_first_collapsed(rows: Seq<RowView>, i: int, path: Seq<char>)
    requires
        is_first_collapsed(rows, i, path),
    ensures
        first_index(rows, RowTest::Collapsed(path)) == i,
{
    assert forall|j: int| 0 <= j < i implies !passes(#[trigger] rows[j], RowTest::Collapsed(path)) by {
        assert(rows[j].entry.path != path || rows[j].expanded);
    }
    lemma_first_index_is(rows, RowTest::Collapsed(path), i);
}

/// A listing that arrives under the current number of its path expands the row and shows one
/// collapsed row per entry, in order and without leaving one out, right below it and one level
/// deeper. Every other row stays as it was, in its order; the entries can be asked for anew, and no
/// other path's number changes.
pub proof fn law_listings_are_shown_whole(
    m: RowsView,
    i: int,
    revision: u64,
    path: Seq<char>,
    entries: Seq<EntryView>,
)
    requires
        is_first_collapsed(m.rows, i, path),
        m.revisions.contains_key(path),
        m.revisions[path] == revision,
        m.rows[i].depth < u64::MAX,
    ensures
        ({
            let n = m.finish(revision, path, entries);
            let count = entries.len() as int;
            &&& n.rows.len() == m.rows.len() + count
            &&& forall|j: int| 0 <= j < i ==> #[trigger] n.rows[j] == m.rows[j]
            &&& same_place(n.rows[i], m.rows[i])
            &&& n.rows[i].expanded
            &&& n.rows[i].error_message is None
            &&& forall|k: int|
                i < k <= i + count ==> {
                    let row = #[trigger] n.rows[k];
                    &&& row.entry == entries[k - i - 1]
                    &&& row.parent_path == Some(path)
                    &&& row.depth == m.rows[i].depth + 1
                    &&& !row.expanded
                    &&& row.error_message is None
                }
            &&& forall|k: int|
                i + count < k < n.rows.len() ==> #[trigger] n.rows[k] == m.rows[k - count]
            &&& forall|k: int|
                0 <= k < count ==> n.revisions.contains_key((#[trigger] entries[k]).path)
                    && n.revisions[entries[k].path] == 0
            &&& forall|other: Seq<char>|
                path_absent(entries, other) ==> (#[trigger] n.revisions.contains_key(other)
                    == m.revisions.contains_key(other)) && n.revisions[other] == m.revisions[other]
        }),
{
    lemma_first_collapsed(m.rows, i, path);
    let n = m.finish(revision, path, entries);
    assert forall|k: int| 0 <= k < entries.len() implies n.revisions.contains_key(
        (#[trigger] entries[k]).path,
    ) && n.revisions[entries[k].path] == 0 by {
        lemma_with_entries(m.revisions, entries, entries[k].path);
    }
    assert forall|other: Seq<char>| path_absent(entries, other) implies (
    #[trigger] n.revisions.contains_key(other) == m.revisions.contains_key(other))
        && n.revisions[other] == m.revisions[other] by {
        lemma_with_entries(m.revisions, entries, other);
    }
}

/// A listing that fails under the current number of its path puts the error on the row, which stays
/// collapsed, and changes nothing else.
pub proof fn law_failures_are_shown_on_the_row(
    m: RowsView,
    i: int,
    revision: u64,
    path: Seq<char>,
    message: Seq<char>,
)
    requires
        is_first_collapsed(m.rows, i, path),
        m.revisions.contains_key(path),
        m.revisions[path] == revision,
    ensures
        ({
            let n = m.fail(revision, path, message);
            &&& n.revisions == m.revisions
            &&& n.rows.len() == m.rows.len()
            &&& forall|j: int| 0 <= j < m.rows.len() && j != i ==> #[trigger] n.rows[j] == m.rows[j]
            &&& same_place(n.rows[i], m.rows[i])
            &&& !n.rows[i].expanded
            &&& n.rows[i].error_message == Some(message)
        }),
{
    lemma_first_collapsed(m.rows, i, path);
}

/// A result under another number than the current one, or for a path that no collapsed row has,
/// changes nothing.
pub proof fn law_unwanted_results_change_nothing(
    m: RowsView,
    revision: u64,
    path: Seq<char>,
    entries: Seq<EntryView>,
    message: Seq<char>,
)
    requires
        !m.revisions.contains_key(path) || m.revisions[path] != revision || forall|j: int|
            0 <= j < m.rows.len() ==> (#[trigger] m.rows[j]).entry.path != path || m.rows[j].expanded,
    ensures
        m.finish(revision, path, entries) == m,
        m.fail(revision, path, message) == m,
{
    lemma_first_index(m.rows, RowTest::Collapsed(path));
    let i = first_index(m.rows, RowTest::Collapsed(path));
    if i < m.rows.len() {
        assert(m.rows[i].entry.path == path && !m.rows[i].expanded);
    }
}

/// Collapsing a row takes away exactly the rows below it, up to the next one that is not deeper, and
/// leaves all others as they were and in order. The row itself is collapsed and has no error. What was
/// asked for in the rows that left is forgotten, and the row's own number moves on.
pub proof fn law_collapsing_takes_the_rows_below(m: RowsView, i: int, end: int)
    requires
        is_first_of_path(m.rows, i),
        m.rows[i].entry.navigable,
        i < end <= m.rows.len(),
        forall|k: int| i < k < end ==> (#[trigger] m.rows[k]).depth > m.rows[i].depth,
        end < m.rows.len() ==> m.rows[end].depth <= m.rows[i].depth,
    ensures
        m.collapse(m.rows[i].entry.path) matches Request::Granted(n) && {
            let path = m.rows[i].entry.path;
            &&& n.rows.len() == m.rows.len() - (end - i - 1)
            &&& forall|j: int| 0 <= j < i ==> #[trigger] n.rows[j] == m.rows[j]
            &&& same_place(n.rows[i], m.rows[i])
            &&& !n.rows[i].expanded
            &&& n.rows[i].error_message is None
            &&& forall|k: int|
                i < k < n.rows.len() ==> #[trigger] n.rows[k] == m.rows[k + (end - i - 1)]
            &&& n.revisions.contains_key(path)
            &&& forall|k: int|
                i < k < end && (#[trigger] m.rows[k]).entry.path != path
                    ==> !n.revisions.contains_key(m.rows[k].entry.path)
            &&& forall|other: Seq<char>|
                other != path && (forall|k: int|
                    i < k < end ==> (#[trigger] m.rows[k]).entry.path != other) ==> (
                #[trigger] n.revisions.contains_key(other) == m.revisions.contains_key(other)) && (
                m.revisions.contains_key(other) ==> n.revisions[other] == m.revisions[other])
            &&& (forall|k: int| i < k < end ==> (#[trigger] m.rows[k]).entry.path != path)
                && m.revisions.contains_key(path) ==> n.revisions[path] == (if m.revisions[path]
                == u64::MAX {
                0
            } else {
                m.revisions[path] + 1
            })
        },
{
    let path = m.rows[i].entry.path;
    lemma_first_of_path(m.rows, i);
    lemma_subtree_end(m.rows, i);
    let e = subtree_end(m.rows, i);
    if e < end {
        assert(m.rows[e].depth > m.rows[i].depth);
    } else if end < e {
        assert(m.rows[end].depth > m.rows[i].depth);
    }
    assert(e == end);
    let n = m.collapse(path)->Granted_0;
    let gone = m.rows.subrange(i + 1, end);
    let kept = without_rows(m.revisions, gone);
    assert forall|k: int| i < k < n.rows.len() implies #[trigger] n.rows[k] == m.rows[k + (end - i
        - 1)] by {}
    assert forall|k: int|
        i < k < end && (#[trigger] m.rows[k]).entry.path != path implies !n.revisions.contains_key(
        m.rows[k].entry.path,
    ) by {
        assert(gone[k - i - 1].entry.path == m.rows[k].entry.path);
        lemma_without_rows_keys(m.revisions, gone, m.rows[k].entry.path);
    }
    assert forall|other: Seq<char>|
        other != path && (forall|k: int|
            i < k < end ==> (#[trigger] m.rows[k]).entry.path != other) implies (
    #[trigger] n.revisions.contains_key(other) == m.revisions.contains_key(other)) && (
    m.revisions.contains_key(other) ==> n.revisions[other] == m.revisions[other]) by {
        assert forall|k: int| 0 <= k < gone.len() implies (#[trigger] gone[k]).entry.path != other by {
            assert(m.rows[k + i + 1].entry.path != other);
        }
        lemma_without_rows(m.revisions, gone, other);
    }
    if forall|k: int| i < k < end ==> (#[trigger] m.rows[k]).entry.path != path {
        assert forall|k: int| 0 <= k < gone.len() implies (#[trigger] gone[k]).entry.path != path by {
            assert(m.rows[k + i + 1].entry.path != path);
        }
        lemma_without_rows(m.revisions, gone, path);
    }
}

/// Rows and entries are seen one by one, none left out and none added.
pub proof fn law_rows_and_entries_are_seen_one_by_one(rows: Seq<StateRow>, entries: Seq<DirectoryEntry>)
    ensures
        rows_view(rows).len() == rows.len(),
        forall|i: int| 0 <= i < rows.len() ==> #[trigger] rows_view(rows)[i] == rows[i]@,
        entries_view(entries).len() == entries.len(),
        forall|i: int| 0 <= i < entries.len() ==> #[trigger] entries_view(entries)[i] == entries[i]@,
{
}

} // verus!
