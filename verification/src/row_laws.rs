//! What holds of the visible rows across several operations.

use vstd::map::*;
use vstd::prelude::*;

use crate::api::EntryView;
use crate::rows::{
    collapsed, expanded, first_index, fresh_rows, is_parent, is_placed, lemma_depth_bound, lemma_first_index,
    lemma_first_index_is, lemma_subtree_end, next_revision, passes, subtree_end, with_entries, without_rows,
    Request, RowCall, RowTest, RowView, RowsView,
};

verus! {

/// A row that is not expanded has no rows below it.
pub proof fn law_collapsed_rows_have_no_children(m: RowsView, i: int)
    requires
        m.is_forest(),
        0 <= i < m.rows.len(),
        !m.rows[i].expanded,
    ensures
        subtree_end(m.rows, i) == i + 1,
{
    let tail = m.rows.skip(i + 1);
    if i + 1 < m.rows.len() {
        assert(is_placed(m.rows, i + 1));
        assert(tail[0] == m.rows[i + 1]);
        if m.rows[i + 1].depth > m.rows[i].depth {
            let next = i + 1;
            let p = choose|p: int| is_parent(m.rows, next, p);
            if p < i {
                assert(m.rows[i].depth >= m.rows[i + 1].depth);
            }
        }
    }
    lemma_first_index_is(tail, RowTest::AtMost(m.rows[i].depth), 0);
}

/// A granted request to expand leaves the row waiting for exactly the listing it asked for, and
/// delivering that listing shows its entries right below the row.
pub proof fn law_requested_listing_is_shown(m: RowsView, path: Seq<char>, entries: Seq<EntryView>)
    requires
        m.prepare(path) matches Request::Granted((_, Some(_))),
    ensures
        m.prepare(path) matches Request::Granted((n, Some(revision))) && {
            let i = first_index(m.rows, RowTest::Path(path));
            &&& n.awaits(revision, path)
            &&& n.finish(revision, path, entries).rows == m.rows.take(i) + seq![
                expanded(m.rows[i]),
            ] + fresh_rows(entries, Some(path), (m.rows[i].depth + 1) as u64) + m.rows.skip(i + 1)
        },
{
    let (n, revision) = m.prepare(path)->Granted_0;
    let i = first_index(m.rows, RowTest::Path(path));
    lemma_first_index(m.rows, RowTest::Path(path));
    assert forall|j: int| 0 <= j < i implies !passes(#[trigger] n.rows[j], RowTest::Collapsed(path)) by {
        assert(!passes(m.rows[j], RowTest::Path(path)));
    }
    lemma_first_index_is(n.rows, RowTest::Collapsed(path), i);
    assert(n.rows.take(i) =~= m.rows.take(i));
    assert(n.rows.skip(i + 1) =~= m.rows.skip(i + 1));
}

/// Asking again supersedes an earlier request: what was requested under the revision before is no
/// longer taken, as a listing or as a failure.
pub proof fn law_superseded_results_are_ignored(
    m: RowsView,
    path: Seq<char>,
    earlier: u64,
    entries: Seq<EntryView>,
    message: Seq<char>,
)
    requires
        m.revisions.contains_key(path),
        m.revisions[path] == earlier,
        m.prepare(path) matches Request::Granted((_, Some(_))),
    ensures
        m.prepare(path) matches Request::Granted((n, _)) && {
            &&& n.finish(earlier, path, entries) == n
            &&& n.fail(earlier, path, message) == n
        },
{
}

/// Removing rows' paths leaves the revisions of all other paths.
pub proof fn lemma_without_rows(revisions: Map<Seq<char>, u64>, rows: Seq<RowView>, path: Seq<char>)
    requires
        forall|k: int| 0 <= k < rows.len() ==> (#[trigger] rows[k]).entry.path != path,
    ensures
        without_rows(revisions, rows).contains_key(path) == revisions.contains_key(path),
        revisions.contains_key(path) ==> without_rows(revisions, rows)[path] == revisions[path],
    decreases rows.len(),
{
    if rows.len() > 0 {
        assert(rows.last().entry.path != path);
        assert forall|k: int| 0 <= k < rows.drop_last().len() implies (
        #[trigger] rows.drop_last()[k]).entry.path != path by {
            assert(rows[k].entry.path != path);
        }
        lemma_without_rows(revisions, rows.drop_last(), path);
    }
}

/// Once a row is collapsed, the listing that was requested before is no longer taken, nor its
/// failure; no row below the collapsed one may bear its path.
pub proof fn law_collapsed_results_are_ignored(
    m: RowsView,
    path: Seq<char>,
    earlier: u64,
    entries: Seq<EntryView>,
    message: Seq<char>,
)
    requires
        m.revisions.contains_key(path),
        m.revisions[path] == earlier,
        m.collapse(path) is Granted,
        ({
            let i = first_index(m.rows, RowTest::Path(path));
            forall|k: int|
                i < k < subtree_end(m.rows, i) ==> (#[trigger] m.rows[k]).entry.path != path
        }),
    ensures
        m.collapse(path) matches Request::Granted(n) && {
            &&& n.finish(earlier, path, entries) == n
            &&& n.fail(earlier, path, message) == n
        },
{
    let i = first_index(m.rows, RowTest::Path(path));
    lemma_first_index(m.rows, RowTest::Path(path));
    lemma_subtree_end(m.rows, i);
    let below = m.rows.subrange(i + 1, subtree_end(m.rows, i));
    assert forall|k: int| 0 <= k < below.len() implies (#[trigger] below[k]).entry.path != path by {
        assert(m.rows[k + i + 1].entry.path != path);
    }
    lemma_without_rows(m.revisions, below, path);
}

/// Once a row is collapsed, a listing that was requested for a row below it is no longer taken.
pub proof fn law_discarded_rows_take_no_results(
    m: RowsView,
    path: Seq<char>,
    below: Seq<char>,
    revision: u64,
    entries: Seq<EntryView>,
)
    requires
        m.collapse(path) is Granted,
        below != path,
        ({
            let i = first_index(m.rows, RowTest::Path(path));
            exists|k: int|
                i < k < subtree_end(m.rows, i) && (#[trigger] m.rows[k]).entry.path == below
        }),
    ensures
        m.collapse(path) matches Request::Granted(n) && n.finish(revision, below, entries) == n,
{
    let i = first_index(m.rows, RowTest::Path(path));
    lemma_first_index(m.rows, RowTest::Path(path));
    lemma_subtree_end(m.rows, i);
    let k = choose|k: int|
        i < k < subtree_end(m.rows, i) && (#[trigger] m.rows[k]).entry.path == below;
    let gone = m.rows.subrange(i + 1, subtree_end(m.rows, i));
    assert(gone[k - i - 1].entry.path == below);
    lemma_without_rows_drops(m.revisions, gone, k - i - 1);
}

proof fn lemma_without_rows_drops(revisions: Map<Seq<char>, u64>, rows: Seq<RowView>, k: int)
    requires
        0 <= k < rows.len(),
    ensures
        !without_rows(revisions, rows).contains_key(rows[k].entry.path),
    decreases rows.len(),
{
    if k < rows.len() - 1 {
        lemma_without_rows_drops(revisions, rows.drop_last(), k);
    }
}

/// Collapsing a row that was just expanded takes the delivered rows away again: what remains are
/// the rows from before, the row itself collapsed and without an error.
pub proof fn law_collapse_undoes_expansion(
    m: RowsView,
    revision: u64,
    path: Seq<char>,
    entries: Seq<EntryView>,
)
    requires
        m.is_forest(),
        m.rows.len() <= usize::MAX,
        m.awaits(revision, path),
        first_index(m.rows, RowTest::Path(path)) == first_index(m.rows, RowTest::Collapsed(path)),
        m.rows[first_index(m.rows, RowTest::Path(path))].entry.navigable,
    ensures
        m.finish(revision, path, entries).collapse(path) matches Request::Granted(n) && {
            let i = first_index(m.rows, RowTest::Path(path));
            n.rows == m.rows.update(i, collapsed(m.rows[i]))
        },
{
    let i = first_index(m.rows, RowTest::Path(path));
    let len = entries.len() as int;
    lemma_first_index(m.rows, RowTest::Path(path));
    lemma_first_index(m.rows, RowTest::Collapsed(path));
    lemma_depth_bound(m, i);
    law_collapsed_rows_have_no_children(m, i);
    lemma_subtree_end(m.rows, i);
    let e = m.finish(revision, path, entries);
    assert forall|j: int| 0 <= j < i implies !passes(#[trigger] e.rows[j], RowTest::Path(path)) by {
        assert(e.rows[j] == m.rows[j]);
    }
    assert(e.rows[i] == expanded(m.rows[i]));
    lemma_first_index_is(e.rows, RowTest::Path(path), i);
    let tail = e.rows.skip(i + 1);
    let test = RowTest::AtMost(m.rows[i].depth);
    assert forall|j: int| 0 <= j < len implies !passes(#[trigger] tail[j], test) by {
        assert(tail[j] == fresh_rows(entries, Some(path), (m.rows[i].depth + 1) as u64)[j]);
    }
    if len < tail.len() {
        assert(tail[len] == m.rows[i + 1]);
    }
    lemma_first_index_is(tail, test, len);
    assert(e.rows.skip(i + 1 + len) =~= m.rows.skip(i + 1));
    let n = e.collapse(path)->Granted_0;
    assert(n.rows =~= m.rows.update(i, collapsed(m.rows[i])));
}

/// An expansion whose listing fails leaves every row as it was but for the error on the requested
/// one, which stays collapsed and can be requested again.
pub proof fn law_failed_expansion_can_retry(m: RowsView, path: Seq<char>, message: Seq<char>)
    requires
        m.prepare(path) matches Request::Granted((_, Some(_))),
    ensures
        m.prepare(path) matches Request::Granted((n, Some(revision))) && {
            let i = first_index(m.rows, RowTest::Path(path));
            let failed = n.fail(revision, path, message);
            &&& failed.rows[i].error_message == Some(message)
            &&& !failed.rows[i].expanded
            &&& failed.rows.len() == m.rows.len()
            &&& forall|j: int|
                0 <= j < m.rows.len() && j != i ==> #[trigger] failed.rows[j] == m.rows[j]
            &&& failed.prepare(path) matches Request::Granted((_, Some(_)))
        },
{
    law_requested_listing_is_shown(m, path, Seq::empty());
    let (n, rev) = m.prepare(path)->Granted_0;
    let revision = rev->Some_0;
    let i = first_index(m.rows, RowTest::Path(path));
    lemma_first_index(m.rows, RowTest::Path(path));
    assert forall|j: int| 0 <= j < i implies !passes(#[trigger] n.rows[j], RowTest::Path(path)) by {
        assert(n.rows[j] == m.rows[j]);
    }
    lemma_first_index_is(n.rows, RowTest::Path(path), i);
    lemma_first_index(n.rows, RowTest::Collapsed(path));
    let c = first_index(n.rows, RowTest::Collapsed(path));
    assert(passes(n.rows[i], RowTest::Collapsed(path)));
    assert(c == i);
    let failed = n.fail(revision, path, message);
    assert forall|j: int| 0 <= j < i implies !passes(
        #[trigger] failed.rows[j],
        RowTest::Path(path),
    ) by {
        assert(failed.rows[j] == m.rows[j]);
    }
    lemma_first_index_is(failed.rows, RowTest::Path(path), i);
}

/// Whether no entry has the path `path`.
pub open spec fn path_absent(entries: Seq<EntryView>, path: Seq<char>) -> bool {
    forall|k: int| 0 <= k < entries.len() ==> (#[trigger] entries[k]).path != path
}

/// Setting entries to zero changes the revisions of their paths only.
pub proof fn lemma_with_entries(revisions: Map<Seq<char>, u64>, entries: Seq<EntryView>, path: Seq<char>)
    ensures
        path_absent(entries, path) ==> {
            &&& with_entries(revisions, entries).contains_key(path) == revisions.contains_key(path)
            &&& with_entries(revisions, entries)[path] == revisions[path]
        },
        !path_absent(entries, path) ==> {
            &&& with_entries(revisions, entries).contains_key(path)
            &&& with_entries(revisions, entries)[path] == 0
        },
    decreases entries.len(),
{
    if entries.len() > 0 {
        let init = entries.drop_last();
        lemma_with_entries(revisions, init, path);
        if path_absent(entries, path) {
            assert(entries.last().path != path);
            assert forall|k: int| 0 <= k < init.len() implies (#[trigger] init[k]).path != path by {
                assert(entries[k].path != path);
            }
        } else if entries.last().path != path {
            let k = choose|k: int| 0 <= k < entries.len() && (#[trigger] entries[k]).path == path;
            assert(init[k].path == path);
        }
    }
}

proof fn lemma_with_entries_commute(
    revisions: Map<Seq<char>, u64>,
    a: Seq<EntryView>,
    b: Seq<EntryView>,
)
    ensures
        with_entries(with_entries(revisions, a), b) == with_entries(with_entries(revisions, b), a),
{
    let l = with_entries(with_entries(revisions, a), b);
    let r = with_entries(with_entries(revisions, b), a);
    assert_maps_equal!(l, r, path => {
        lemma_with_entries(revisions, a, path);
        lemma_with_entries(revisions, b, path);
        lemma_with_entries(with_entries(revisions, a), b, path);
        lemma_with_entries(with_entries(revisions, b), a, path);
    });
}

/// Where the collapsed row of `path` stands once the listing of another path was delivered.
proof fn lemma_position_after_finish(
    m: RowsView,
    path: Seq<char>,
    revision: u64,
    other: Seq<char>,
    entries: Seq<EntryView>,
)
    requires
        path != other,
        path_absent(entries, path),
        m.awaits(revision, other),
    ensures
        ({
            let i = first_index(m.rows, RowTest::Collapsed(path));
            let j = first_index(m.rows, RowTest::Collapsed(other));
            let n = m.finish(revision, other, entries);
            &&& 0 <= i <= m.rows.len()
            &&& 0 <= j < m.rows.len()
            &&& i != j
            &&& first_index(n.rows, RowTest::Collapsed(path)) == if i < j {
                i
            } else {
                i + entries.len()
            }
        }),
{
    let i = first_index(m.rows, RowTest::Collapsed(path));
    let j = first_index(m.rows, RowTest::Collapsed(other));
    let n = m.finish(revision, other, entries);
    let len = entries.len() as int;
    let test = RowTest::Collapsed(path);
    lemma_first_index(m.rows, test);
    lemma_first_index(m.rows, RowTest::Collapsed(other));
    let at = if i < j {
        i
    } else {
        i + len
    };
    assert forall|k: int| 0 <= k < at implies !passes(#[trigger] n.rows[k], test) by {
        if k < j {
            assert(n.rows[k] == m.rows[k]);
        } else if k == j {
            assert(n.rows[k] == expanded(m.rows[j]));
        } else if k <= j + len {
            assert(n.rows[k].entry == entries[k - j - 1]);
        } else {
            assert(n.rows[k] == m.rows[k - len]);
        }
    }
    if i < j {
        assert(n.rows[i] == m.rows[i]);
    } else if i < m.rows.len() {
        assert(n.rows[i + len] == m.rows[i]);
    }
    lemma_first_index_is(n.rows, test, at);
}

/// Delivering the listing of another path does not change whether `path` awaits its own.
proof fn lemma_awaits_after_finish(
    m: RowsView,
    mine: u64,
    path: Seq<char>,
    revision: u64,
    other: Seq<char>,
    entries: Seq<EntryView>,
)
    requires
        path != other,
        path_absent(entries, path),
    ensures
        m.finish(revision, other, entries).awaits(mine, path) == m.awaits(mine, path),
{
    if m.awaits(revision, other) {
        lemma_position_after_finish(m, path, revision, other, entries);
        lemma_with_entries(m.revisions, entries, path);
        lemma_first_index(m.rows, RowTest::Collapsed(path));
    }
}

/// Delivering two listings, the earlier row's last, gives the rows of delivering them in order.
proof fn lemma_two_deliveries(
    m: RowsView,
    ra: u64,
    a: Seq<char>,
    ea: Seq<EntryView>,
    rb: u64,
    b: Seq<char>,
    eb: Seq<EntryView>,
)
    requires
        a != b,
        path_absent(ea, b),
        path_absent(eb, a),
        m.awaits(ra, a),
        m.awaits(rb, b),
        first_index(m.rows, RowTest::Collapsed(a)) < first_index(m.rows, RowTest::Collapsed(b)),
    ensures
        m.finish(ra, a, ea).finish(rb, b, eb) == m.finish(rb, b, eb).finish(ra, a, ea),
{
    let i = first_index(m.rows, RowTest::Collapsed(a));
    let j = first_index(m.rows, RowTest::Collapsed(b));
    let la = ea.len() as int;
    lemma_position_after_finish(m, a, rb, b, eb);
    lemma_position_after_finish(m, b, ra, a, ea);
    lemma_awaits_after_finish(m, ra, a, rb, b, eb);
    lemma_awaits_after_finish(m, rb, b, ra, a, ea);
    lemma_with_entries_commute(m.revisions, ea, eb);
    let fa = m.finish(ra, a, ea);
    let fb = m.finish(rb, b, eb);
    let ca = fresh_rows(ea, Some(a), (m.rows[i].depth + 1) as u64);
    let cb = fresh_rows(eb, Some(b), (m.rows[j].depth + 1) as u64);
    assert(fa.rows[j + la] == m.rows[j]);
    assert(fb.rows[i] == m.rows[i]);
    let all = m.rows.take(i) + seq![expanded(m.rows[i])] + ca + m.rows.subrange(i + 1, j) + seq![
        expanded(m.rows[j]),
    ] + cb + m.rows.skip(j + 1);
    let fab = fa.finish(rb, b, eb);
    let fba = fb.finish(ra, a, ea);
    assert(fa.rows.take(j + la) =~= m.rows.take(i) + seq![expanded(m.rows[i])] + ca
        + m.rows.subrange(i + 1, j));
    assert(fa.rows.skip(j + la + 1) =~= m.rows.skip(j + 1));
    assert(fab.rows =~= all);
    assert(fb.rows.take(i) =~= m.rows.take(i));
    assert(fb.rows.skip(i + 1) =~= m.rows.subrange(i + 1, j) + seq![expanded(m.rows[j])] + cb
        + m.rows.skip(j + 1));
    assert(fba.rows =~= all);
}

/// Listings of two different paths may be delivered in either order: each lands below its own row
/// wherever that stands by then. Neither listing may hold the path of the other.
pub proof fn law_concurrent_expansions_merge(
    m: RowsView,
    ra: u64,
    a: Seq<char>,
    ea: Seq<EntryView>,
    rb: u64,
    b: Seq<char>,
    eb: Seq<EntryView>,
)
    requires
        a != b,
        path_absent(ea, b),
        path_absent(eb, a),
    ensures
        m.finish(ra, a, ea).finish(rb, b, eb) == m.finish(rb, b, eb).finish(ra, a, ea),
{
    lemma_awaits_after_finish(m, ra, a, rb, b, eb);
    lemma_awaits_after_finish(m, rb, b, ra, a, ea);
    if m.awaits(ra, a) && m.awaits(rb, b) {
        lemma_position_after_finish(m, a, rb, b, eb);
        if first_index(m.rows, RowTest::Collapsed(a)) < first_index(m.rows, RowTest::Collapsed(b)) {
            lemma_two_deliveries(m, ra, a, ea, rb, b, eb);
        } else {
            lemma_two_deliveries(m, rb, b, eb, ra, a, ea);
        }
    }
}

/// Whether some row has the path `path`.
pub open spec fn is_shown(rows: Seq<RowView>, path: Seq<char>) -> bool {
    exists|i: int| 0 <= i < rows.len() && (#[trigger] rows[i]).entry.path == path
}

/// Whether no two rows share a path.
pub open spec fn are_distinct(rows: Seq<RowView>) -> bool {
    forall|i: int, j: int|
        0 <= i < j < rows.len() ==> (#[trigger] rows[i]).entry.path != (
        #[trigger] rows[j]).entry.path
}

/// Whether no two entries share a path.
pub open spec fn entries_distinct(entries: Seq<EntryView>) -> bool {
    forall|i: int, j: int|
        0 <= i < j < entries.len() ==> (#[trigger] entries[i]).path != (
        #[trigger] entries[j]).path
}

/// Whether no two rows share a path, and revisions are kept of exactly the paths that are shown.
pub open spec fn is_tracked(m: RowsView) -> bool {
    &&& are_distinct(m.rows)
    &&& forall|path: Seq<char>| #[trigger] m.revisions.contains_key(path) <==> is_shown(m.rows, path)
}

/// Of the rows of a directory that was just listed, revisions are kept of exactly the paths shown.
pub proof fn law_listed_rows_are_tracked(entries: Seq<EntryView>)
    requires
        entries_distinct(entries),
    ensures
        is_tracked(RowsView::listed(entries)),
{
    let m = RowsView::listed(entries);
    assert forall|i: int, j: int| 0 <= i < j < m.rows.len() implies (
    #[trigger] m.rows[i]).entry.path != (#[trigger] m.rows[j]).entry.path by {
        assert(entries[i].path != entries[j].path);
    }
    assert forall|path: Seq<char>| #[trigger] m.revisions.contains_key(path) <==> is_shown(
        m.rows,
        path,
    ) by {
        lemma_with_entries(Map::empty(), entries, path);
        lemma_shown_entries(entries, None, 0, path);
    }
}

proof fn lemma_shown_entries(
    entries: Seq<EntryView>,
    parent: Option<Seq<char>>,
    depth: u64,
    path: Seq<char>,
)
    ensures
        is_shown(fresh_rows(entries, parent, depth), path) <==> !path_absent(entries, path),
{
    let rows = fresh_rows(entries, parent, depth);
    if is_shown(rows, path) {
        let i = choose|i: int| 0 <= i < rows.len() && (#[trigger] rows[i]).entry.path == path;
        assert(entries[i].path == path);
    }
    if !path_absent(entries, path) {
        let k = choose|k: int| 0 <= k < entries.len() && (#[trigger] entries[k]).path == path;
        assert(rows[k].entry.path == path);
    }
}

/// Rows that keep their paths are tracked as before, if the revisions keep their keys.
proof fn lemma_same_paths(m: RowsView, n: RowsView)
    requires
        is_tracked(m),
        n.rows.len() == m.rows.len(),
        forall|i: int|
            0 <= i < m.rows.len() ==> (#[trigger] n.rows[i]).entry.path == m.rows[i].entry.path,
        forall|path: Seq<char>| #[trigger]
            n.revisions.contains_key(path) <==> m.revisions.contains_key(path),
    ensures
        is_tracked(n),
{
    assert forall|i: int, j: int| 0 <= i < j < n.rows.len() implies (
    #[trigger] n.rows[i]).entry.path != (#[trigger] n.rows[j]).entry.path by {
        assert(m.rows[i].entry.path != m.rows[j].entry.path);
    }
    assert forall|path: Seq<char>| #[trigger] n.revisions.contains_key(path) <==> is_shown(
        n.rows,
        path,
    ) by {
        assert(m.revisions.contains_key(path) <==> is_shown(m.rows, path));
        if is_shown(m.rows, path) {
            let i = choose|i: int| 0 <= i < m.rows.len() && (#[trigger] m.rows[i]).entry.path == path;
            assert(n.rows[i].entry.path == path);
        }
        if is_shown(n.rows, path) {
            let i = choose|i: int| 0 <= i < n.rows.len() && (#[trigger] n.rows[i]).entry.path == path;
            assert(m.rows[i].entry.path == path);
        }
    }
}

/// Asking for an expansion, and its failure, leave the paths that are shown and those that
/// revisions are kept of the same.
pub proof fn law_requests_keep_tracking(
    m: RowsView,
    path: Seq<char>,
    revision: u64,
    message: Seq<char>,
)
    requires
        is_tracked(m),
    ensures
        m.prepare(path) matches Request::Granted((n, _)) ==> is_tracked(n),
        is_tracked(m.fail(revision, path, message)),
{
    lemma_first_index(m.rows, RowTest::Path(path));
    lemma_first_index(m.rows, RowTest::Collapsed(path));
    if let Request::Granted((n, _)) = m.prepare(path) {
        let i = first_index(m.rows, RowTest::Path(path));
        assert(m.rows[i].entry.path == path);
        assert(is_shown(m.rows, path));
        lemma_same_paths(m, n);
    }
    lemma_same_paths(m, m.fail(revision, path, message));
}

/// A listing of new paths that is delivered is tracked together with the rows from before.
pub proof fn law_delivered_rows_are_tracked(
    m: RowsView,
    revision: u64,
    path: Seq<char>,
    entries: Seq<EntryView>,
)
    requires
        is_tracked(m),
        entries_distinct(entries),
        forall|k: int| 0 <= k < entries.len() ==> !is_shown(m.rows, (#[trigger] entries[k]).path),
    ensures
        is_tracked(m.finish(revision, path, entries)),
{
    if m.awaits(revision, path) {
        let n = m.finish(revision, path, entries);
        let at = first_index(m.rows, RowTest::Collapsed(path));
        let len = entries.len() as int;
        lemma_first_index(m.rows, RowTest::Collapsed(path));
        assert forall|j: int| 0 <= j < n.rows.len() implies (#[trigger] n.rows[j]).entry == (if j
            <= at {
            m.rows[j].entry
        } else if j <= at + len {
            entries[j - at - 1]
        } else {
            m.rows[j - len].entry
        }) by {}
        assert forall|i: int, j: int| 0 <= i < j < n.rows.len() implies (
        #[trigger] n.rows[i]).entry.path != (#[trigger] n.rows[j]).entry.path by {
            let i_new = at < i <= at + len;
            let j_new = at < j <= at + len;
            let i0 = if i <= at {
                i
            } else {
                i - len
            };
            let j0 = if j <= at {
                j
            } else {
                j - len
            };
            if i_new && j_new {
                assert(entries[i - at - 1].path != entries[j - at - 1].path);
            } else if i_new {
                assert(!is_shown(m.rows, entries[i - at - 1].path));
                assert(m.rows[j0].entry.path == n.rows[j].entry.path);
            } else if j_new {
                assert(!is_shown(m.rows, entries[j - at - 1].path));
                assert(m.rows[i0].entry.path == n.rows[i].entry.path);
            } else {
                assert(m.rows[i0].entry.path != m.rows[j0].entry.path);
            }
        }
        assert forall|p: Seq<char>| #[trigger] n.revisions.contains_key(p) <==> is_shown(
            n.rows,
            p,
        ) by {
            lemma_with_entries(m.revisions, entries, p);
            assert(m.revisions.contains_key(p) <==> is_shown(m.rows, p));
            if is_shown(m.rows, p) {
                let i = choose|i: int| 0 <= i < m.rows.len() && (#[trigger] m.rows[i]).entry.path == p;
                let j = if i <= at {
                    i
                } else {
                    i + len
                };
                assert(n.rows[j].entry.path == p);
            }
            if !path_absent(entries, p) {
                let k = choose|k: int| 0 <= k < entries.len() && (#[trigger] entries[k]).path == p;
                assert(n.rows[at + 1 + k].entry.path == p);
            }
            if is_shown(n.rows, p) {
                let j = choose|j: int| 0 <= j < n.rows.len() && (#[trigger] n.rows[j]).entry.path == p;
                if at < j <= at + len {
                    assert(entries[j - at - 1].path == p);
                } else {
                    let i = if j <= at {
                        j
                    } else {
                        j - len
                    };
                    assert(m.rows[i].entry.path == p);
                }
            }
        }
    }
}

/// Removing rows' paths removes exactly these.
pub proof fn lemma_without_rows_keys(revisions: Map<Seq<char>, u64>, rows: Seq<RowView>, path: Seq<char>)
    ensures
        without_rows(revisions, rows).contains_key(path) <==> revisions.contains_key(path)
            && !is_shown(rows, path),
{
    if is_shown(rows, path) {
        let k = choose|k: int| 0 <= k < rows.len() && (#[trigger] rows[k]).entry.path == path;
        lemma_without_rows_drops(revisions, rows, k);
    } else {
        assert forall|k: int| 0 <= k < rows.len() implies (#[trigger] rows[k]).entry.path != path by {}
        lemma_without_rows(revisions, rows, path);
    }
}

/// Collapsing a row forgets the revisions of exactly the rows that leave with it.
pub proof fn law_collapsed_rows_are_forgotten(m: RowsView, path: Seq<char>)
    requires
        is_tracked(m),
        m.collapse(path) is Granted,
    ensures
        is_tracked(m.collapse(path)->Granted_0),
{
    let n = m.collapse(path)->Granted_0;
    let at = first_index(m.rows, RowTest::Path(path));
    lemma_first_index(m.rows, RowTest::Path(path));
    lemma_subtree_end(m.rows, at);
    let end = subtree_end(m.rows, at);
    let gone = m.rows.subrange(at + 1, end);
    let cut = end - at - 1;
    assert forall|j: int| 0 <= j < n.rows.len() implies (#[trigger] n.rows[j]).entry == (if j <= at {
        m.rows[j].entry
    } else {
        m.rows[j + cut].entry
    }) by {}
    assert forall|i: int, j: int| 0 <= i < j < n.rows.len() implies (
    #[trigger] n.rows[i]).entry.path != (#[trigger] n.rows[j]).entry.path by {
        let i0 = if i <= at {
            i
        } else {
            i + cut
        };
        let j0 = if j <= at {
            j
        } else {
            j + cut
        };
        assert(m.rows[i0].entry.path != m.rows[j0].entry.path);
    }
    assert forall|p: Seq<char>| #[trigger] n.revisions.contains_key(p) <==> is_shown(n.rows, p) by {
        lemma_without_rows_keys(m.revisions, gone, p);
        assert(m.revisions.contains_key(p) <==> is_shown(m.rows, p));
        assert(n.rows[at].entry.path == path);
        if is_shown(n.rows, p) {
            let j = choose|j: int| 0 <= j < n.rows.len() && (#[trigger] n.rows[j]).entry.path == p;
            let i = if j <= at {
                j
            } else {
                j + cut
            };
            assert(m.rows[i].entry.path == p);
            if is_shown(gone, p) {
                let k = choose|k: int| 0 <= k < gone.len() && (#[trigger] gone[k]).entry.path == p;
                assert(m.rows[at + 1 + k].entry.path == p);
                if i < at + 1 + k {
                    assert(m.rows[i].entry.path != m.rows[at + 1 + k].entry.path);
                } else {
                    assert(m.rows[at + 1 + k].entry.path != m.rows[i].entry.path);
                }
            }
        }
        if is_shown(m.rows, p) && !is_shown(gone, p) {
            let i = choose|i: int| 0 <= i < m.rows.len() && (#[trigger] m.rows[i]).entry.path == p;
            if at < i < end {
                assert(gone[i - at - 1].entry.path == p);
            }
            let j = if i <= at {
                i
            } else {
                i - cut
            };
            assert(n.rows[j].entry.path == p);
        }
    }
}

/// Whether an operation overtakes an earlier request for `path`: it collapses the path, or asks for
/// a newer listing of it.
pub open spec fn overtakes(m: RowsView, path: Seq<char>, call: RowCall) -> bool {
    match call {
        RowCall::Prepare(p) => p == path && (m.prepare(path) matches Request::Granted((_, Some(_)))),
        RowCall::Collapse(p) => p == path && m.collapse(path) is Granted,
        _ => false,
    }
}

/// Whether `path` stands in the block below the row of `above`.
pub open spec fn is_below(rows: Seq<RowView>, above: Seq<char>, path: Seq<char>) -> bool {
    let i = first_index(rows, RowTest::Path(above));
    exists|k: int| i < k < subtree_end(rows, i) && (#[trigger] rows[k]).entry.path == path
}

/// Whether an operation collapses a row that `path` stands below.
pub open spec fn hides(m: RowsView, path: Seq<char>, call: RowCall) -> bool {
    call matches RowCall::Collapse(above) && above != path && m.collapse(above) is Granted
        && is_below(m.rows, above, path)
}

/// How many of `calls` overtake an earlier request for `path`.
pub open spec fn overtakings(m: RowsView, path: Seq<char>, calls: Seq<RowCall>) -> nat
    decreases calls.len(),
{
    if calls.len() == 0 {
        0
    } else {
        let before = m.after_all(calls.drop_last());
        let counted = overtakings(m, path, calls.drop_last());
        if overtakes(before, path, calls.last()) {
            counted + 1
        } else {
            counted
        }
    }
}

/// The number of different revisions.
pub open spec fn revision_count() -> int {
    0x1_0000_0000_0000_0000
}

/// A revision after it was moved on `steps` times.
pub open spec fn moved_on(revision: u64, steps: nat) -> int {
    (revision + steps) % revision_count()
}

/// Where a delivered listing holds a path that is shown already, two rows share it.
proof fn lemma_relisting_duplicates(
    m: RowsView,
    revision: u64,
    parent: Seq<char>,
    entries: Seq<EntryView>,
    path: Seq<char>,
)
    requires
        m.awaits(revision, parent),
        is_shown(m.rows, path),
        !path_absent(entries, path),
    ensures
        !are_distinct(m.finish(revision, parent, entries).rows),
{
    let n = m.finish(revision, parent, entries);
    let at = first_index(m.rows, RowTest::Collapsed(parent));
    let len = entries.len() as int;
    lemma_first_index(m.rows, RowTest::Collapsed(parent));
    let i = choose|i: int| 0 <= i < m.rows.len() && (#[trigger] m.rows[i]).entry.path == path;
    let k = choose|k: int| 0 <= k < entries.len() && (#[trigger] entries[k]).path == path;
    let old_row = if i <= at {
        i
    } else {
        i + len
    };
    let new_row = at + 1 + k;
    assert(n.rows[old_row].entry.path == path);
    assert(n.rows[new_row].entry.path == path);
    if are_distinct(n.rows) {
        if old_row < new_row {
            assert(n.rows[old_row].entry.path != n.rows[new_row].entry.path);
        } else {
            assert(n.rows[new_row].entry.path != n.rows[old_row].entry.path);
        }
    }
}

/// Delivering a listing without `path` leaves the row of `path`.
proof fn lemma_finish_keeps_shown(
    m: RowsView,
    revision: u64,
    parent: Seq<char>,
    entries: Seq<EntryView>,
    path: Seq<char>,
)
    requires
        is_shown(m.rows, path),
    ensures
        is_shown(m.finish(revision, parent, entries).rows, path),
{
    if m.awaits(revision, parent) {
        let n = m.finish(revision, parent, entries);
        let at = first_index(m.rows, RowTest::Collapsed(parent));
        lemma_first_index(m.rows, RowTest::Collapsed(parent));
        let i = choose|i: int| 0 <= i < m.rows.len() && (#[trigger] m.rows[i]).entry.path == path;
        let j = if i <= at {
            i
        } else {
            i + entries.len()
        };
        assert(n.rows[j].entry.path == path);
    }
}

/// Collapsing a row that `path` does not stand below leaves the row of `path`, and the revision of
/// any path but the collapsed one.
proof fn lemma_collapse_keeps_shown(m: RowsView, above: Seq<char>, path: Seq<char>)
    requires
        m.collapse(above) is Granted,
        is_shown(m.rows, path),
        above == path || !is_below(m.rows, above, path),
    ensures
        is_shown(m.collapse(above)->Granted_0.rows, path),
        !is_below(m.rows, above, path) ==> {
            let i = first_index(m.rows, RowTest::Path(above));
            let kept = without_rows(m.revisions, m.rows.subrange(i + 1, subtree_end(m.rows, i)));
            &&& kept.contains_key(path) == m.revisions.contains_key(path)
            &&& m.revisions.contains_key(path) ==> kept[path] == m.revisions[path]
        },
{
    let n = m.collapse(above)->Granted_0;
    let at = first_index(m.rows, RowTest::Path(above));
    lemma_first_index(m.rows, RowTest::Path(above));
    lemma_subtree_end(m.rows, at);
    let end = subtree_end(m.rows, at);
    let gone = m.rows.subrange(at + 1, end);
    assert(n.rows[at].entry == m.rows[at].entry);
    if above != path {
        let i = choose|i: int| 0 <= i < m.rows.len() && (#[trigger] m.rows[i]).entry.path == path;
        assert(!(at < i < end));
        let j = if i <= at {
            i
        } else {
            i - (end - at - 1)
        };
        assert(n.rows[j].entry.path == path);
    } else {
        assert(n.rows[at].entry.path == path);
    }
    if !is_below(m.rows, above, path) {
        assert forall|k: int| 0 <= k < gone.len() implies (#[trigger] gone[k]).entry.path != path by {
            assert(m.rows[at + 1 + k].entry.path == gone[k].entry.path);
        }
        lemma_without_rows(m.revisions, gone, path);
    }
}

/// One operation moves the revision of a path that is shown on by one where it overtakes requests
/// for it, and leaves it where it does not. No two rows share a path before or after, and no row
/// above the path is collapsed.
pub proof fn lemma_revision_step(m: RowsView, path: Seq<char>, call: RowCall)
    requires
        are_distinct(m.rows),
        are_distinct(m.after(call).rows),
        is_shown(m.rows, path),
        m.revisions.contains_key(path),
        !hides(m, path, call),
    ensures
        is_shown(m.after(call).rows, path),
        m.after(call).revisions.contains_key(path),
        m.after(call).revisions[path] == (if overtakes(m, path, call) {
            next_revision(m.revisions, path)
        } else {
            m.revisions[path]
        }),
{
    let i = choose|i: int| 0 <= i < m.rows.len() && (#[trigger] m.rows[i]).entry.path == path;
    let n = m.after(call);
    match call {
        RowCall::Prepare(p) => {
            lemma_first_index(m.rows, RowTest::Path(p));
            assert(n.rows[i].entry.path == path);
        },
        RowCall::Finish(revision, p, entries) => {
            lemma_finish_keeps_shown(m, revision, p, entries, path);
            if m.awaits(revision, p) {
                if !path_absent(entries, path) {
                    lemma_relisting_duplicates(m, revision, p, entries, path);
                }
                lemma_with_entries(m.revisions, entries, path);
            }
        },
        RowCall::Fail(revision, p, message) => {
            lemma_first_index(m.rows, RowTest::Collapsed(p));
            assert(n.rows[i].entry.path == path);
        },
        RowCall::Collapse(p) => {
            if m.collapse(p) is Granted {
                if p == path && is_below(m.rows, p, path) {
                    let at = first_index(m.rows, RowTest::Path(p));
                    lemma_first_index(m.rows, RowTest::Path(p));
                    lemma_subtree_end(m.rows, at);
                    let k = choose|k: int|
                        at < k < subtree_end(m.rows, at) && (#[trigger] m.rows[k]).entry.path == path;
                    assert(m.rows[at].entry.path != m.rows[k].entry.path);
                }
                lemma_collapse_keeps_shown(m, p, path);
            }
        },
    }
}

/// Moving on once more.
pub proof fn lemma_moved_on(revision: u64, steps: nat, revisions: Map<Seq<char>, u64>, path: Seq<char>)
    requires
        revisions.contains_key(path),
        revisions[path] == moved_on(revision, steps),
    ensures
        next_revision(revisions, path) == moved_on(revision, steps + 1),
{
}

/// Whether a run of operations leaves the row of `path` its place: no two rows ever share a path,
/// and no row that it stands below is collapsed.
pub open spec fn keeps_place(m: RowsView, path: Seq<char>, calls: Seq<RowCall>) -> bool {
    &&& forall|i: int|
        0 <= i <= calls.len() ==> are_distinct(#[trigger] m.after_all(calls.take(i)).rows)
    &&& forall|i: int|
        0 <= i < calls.len() ==> !hides(m.after_all(calls.take(i)), path, #[trigger] calls[i])
}

/// Over a run that leaves the row of `path` its place, its revision moves on by exactly the number
/// of operations that overtake requests for it.
proof fn lemma_revision_run(m: RowsView, path: Seq<char>, calls: Seq<RowCall>)
    requires
        is_shown(m.rows, path),
        m.revisions.contains_key(path),
        keeps_place(m, path, calls),
    ensures
        is_shown(m.after_all(calls).rows, path),
        m.after_all(calls).revisions.contains_key(path),
        m.after_all(calls).revisions[path] == moved_on(
            m.revisions[path],
            overtakings(m, path, calls),
        ),
        overtakings(m, path, calls) <= calls.len(),
    decreases calls.len(),
{
    if calls.len() > 0 {
        let init = calls.drop_last();
        let n = calls.len() as int;
        assert forall|i: int| 0 <= i <= init.len() implies are_distinct(
            #[trigger] m.after_all(init.take(i)).rows,
        ) by {
            assert(init.take(i) =~= calls.take(i));
        }
        assert forall|i: int| 0 <= i < init.len() implies !hides(
            m.after_all(init.take(i)),
            path,
            #[trigger] init[i],
        ) by {
            assert(init.take(i) =~= calls.take(i));
            assert(init[i] == calls[i]);
        }
        lemma_revision_run(m, path, init);
        let before = m.after_all(init);
        assert(calls.take(n - 1) =~= init);
        assert(calls.take(n) =~= calls);
        assert(are_distinct(m.after_all(calls.take(n - 1)).rows));
        assert(are_distinct(m.after_all(calls.take(n)).rows));
        assert(!hides(m.after_all(calls.take(n - 1)), path, calls[n - 1]));
        lemma_revision_step(before, path, calls.last());
        lemma_moved_on(
            m.revisions[path],
            overtakings(m, path, init),
            before.revisions,
            path,
        );
    }
}

/// An overtaking anywhere in a run counts.
proof fn lemma_overtaking_counts(m: RowsView, path: Seq<char>, calls: Seq<RowCall>, i: int)
    requires
        0 <= i < calls.len(),
        overtakes(m.after_all(calls.take(i)), path, calls[i]),
    ensures
        overtakings(m, path, calls) > 0,
    decreases calls.len(),
{
    let init = calls.drop_last();
    if i == calls.len() - 1 {
        assert(calls.take(i) =~= init);
    } else {
        assert(init.take(i) =~= calls.take(i));
        lemma_overtaking_counts(m, path, init, i);
    }
}

/// A revision that was moved on, fewer times than there are revisions, is another one.
pub proof fn lemma_moved_on_differs(revision: u64, steps: nat)
    requires
        0 < steps <= u64::MAX,
    ensures
        moved_on(revision, steps) != revision,
{
}

/// A result that was overtaken is ignored, whatever else has happened since: after a request for
/// `path` was granted, let any run of operations follow in which the path is collapsed or requested
/// anew at least once, no row that it stands below is collapsed, and no two rows ever share a path.
/// Then the listing of the first request, and its failure, change nothing.
pub proof fn law_overtaken_results_are_ignored(
    m: RowsView,
    path: Seq<char>,
    calls: Seq<RowCall>,
    entries: Seq<EntryView>,
    message: Seq<char>,
)
    requires
        m.prepare(path) matches Request::Granted((_, Some(_))),
        calls.len() <= u64::MAX,
        keeps_place(m.after(RowCall::Prepare(path)), path, calls),
        exists|i: int|
            0 <= i < calls.len() && overtakes(
                m.after(RowCall::Prepare(path)).after_all(calls.take(i)),
                path,
                #[trigger] calls[i],
            ),
    ensures
        m.prepare(path) matches Request::Granted((asked, Some(revision))) && {
            let now = asked.after_all(calls);
            &&& now.finish(revision, path, entries) == now
            &&& now.fail(revision, path, message) == now
        },
{
    let (asked, given) = m.prepare(path)->Granted_0;
    let revision = given->Some_0;
    let i = first_index(m.rows, RowTest::Path(path));
    lemma_first_index(m.rows, RowTest::Path(path));
    assert(asked.rows[i].entry.path == path);
    assert(is_shown(asked.rows, path));
    lemma_revision_run(asked, path, calls);
    let o = choose|o: int|
        0 <= o < calls.len() && overtakes(
            asked.after_all(calls.take(o)),
            path,
            #[trigger] calls[o],
        );
    lemma_overtaking_counts(asked, path, calls, o);
    lemma_moved_on_differs(revision, overtakings(asked, path, calls));
}

} // verus!
