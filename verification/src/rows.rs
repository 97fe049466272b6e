//! The visible rows of a directory tree: a forest written out in order, in which the children of
//! an expanded directory directly follow it.

use vstd::hash_map::StringHashMap;
use vstd::prelude::*;

use crate::api::{DirectoryEntry, EntryView};
use crate::text::{same_text, text_of};

verus! {

/// One visible row.
#[derive(Debug, PartialEq, Eq)]
pub struct StateRow {
    pub entry: DirectoryEntry,
    pub parent_path: Option<String>,
    pub depth: u64,
    pub expanded: bool,
    pub error_message: Option<String>,
}

/// What a [`StateRow`] stands for.
pub struct RowView {
    pub entry: EntryView,
    pub parent_path: Option<Seq<char>>,
    pub depth: u64,
    pub expanded: bool,
    pub error_message: Option<Seq<char>>,
}

impl View for StateRow {
    type V = RowView;

    open spec fn view(&self) -> RowView {
        RowView {
            entry: self.entry@,
            parent_path: text_of(self.parent_path),
            depth: self.depth,
            expanded: self.expanded,
            error_message: text_of(self.error_message),
        }
    }
}

impl Clone for StateRow {
    fn clone(&self) -> (r: Self)
        ensures
            r@ == self@,
    {
        let parent_path = match &self.parent_path {
            Some(p) => Some(p.clone()),
            None => None,
        };
        let error_message = match &self.error_message {
            Some(m) => Some(m.clone()),
            None => None,
        };
        StateRow {
            entry: self.entry.clone(),
            parent_path,
            depth: self.depth,
            expanded: self.expanded,
            error_message,
        }
    }
}

/// What a sequence of rows stands for.
pub open spec fn rows_view(rows: Seq<StateRow>) -> Seq<RowView> {
    rows.map_values(|r: StateRow| r@)
}

/// What a sequence of entries stands for.
pub open spec fn entries_view(entries: Seq<DirectoryEntry>) -> Seq<EntryView> {
    entries.map_values(|e: DirectoryEntry| e@)
}

/// The rows together with the revision that each path's latest expansion or collapse was given.
pub struct RowsView {
    pub rows: Seq<RowView>,
    pub revisions: Map<Seq<char>, u64>,
}

/// The tests by which rows are searched.
pub enum RowTest {
    /// The row of this path.
    Path(Seq<char>),
    /// A collapsed row of this path.
    Collapsed(Seq<char>),
    /// A row at this depth or above it.
    AtMost(u64),
}

/// Whether `row` passes `test`.
pub open spec fn passes(row: RowView, test: RowTest) -> bool {
    match test {
        RowTest::Path(path) => row.entry.path == path,
        RowTest::Collapsed(path) => row.entry.path == path && !row.expanded,
        RowTest::AtMost(depth) => row.depth <= depth,
    }
}

/// The position of the first row that passes `test`, or the number of rows where none does.
pub open spec fn first_index(rows: Seq<RowView>, test: RowTest) -> int
    decreases rows.len(),
{
    if rows.len() == 0 || passes(rows[0], test) {
        0
    } else {
        1 + first_index(rows.skip(1), test)
    }
}

/// The end of the block of rows below row `i`: the first row after it that is not deeper.
pub open spec fn subtree_end(rows: Seq<RowView>, i: int) -> int {
    i + 1 + first_index(rows.skip(i + 1), RowTest::AtMost(rows[i].depth))
}

/// `row`, collapsed and without an error.
pub open spec fn collapsed(row: RowView) -> RowView {
    RowView { expanded: false, error_message: None, ..row }
}

/// `row` without an error.
pub open spec fn without_error(row: RowView) -> RowView {
    RowView { error_message: None, ..row }
}

/// `row`, expanded and without an error.
pub open spec fn expanded(row: RowView) -> RowView {
    RowView { expanded: true, error_message: None, ..row }
}

/// A freshly listed row.
pub open spec fn fresh_row(entry: EntryView, parent_path: Option<Seq<char>>, depth: u64) -> RowView {
    RowView { entry, parent_path, depth, expanded: false, error_message: None }
}

/// Freshly listed rows, one per entry.
pub open spec fn fresh_rows(
    entries: Seq<EntryView>,
    parent_path: Option<Seq<char>>,
    depth: u64,
) -> Seq<RowView> {
    Seq::new(entries.len(), |i: int| fresh_row(entries[i], parent_path, depth))
}

/// `revisions` with the path of each entry back at zero.
pub open spec fn with_entries(revisions: Map<Seq<char>, u64>, entries: Seq<EntryView>) -> Map<
    Seq<char>,
    u64,
>
    decreases entries.len(),
{
    if entries.len() == 0 {
        revisions
    } else {
        with_entries(revisions, entries.drop_last()).insert(entries.last().path, 0)
    }
}

/// `revisions` without the paths of `rows`.
pub open spec fn without_rows(revisions: Map<Seq<char>, u64>, rows: Seq<RowView>) -> Map<
    Seq<char>,
    u64,
>
    decreases rows.len(),
{
    if rows.len() == 0 {
        revisions
    } else {
        without_rows(revisions, rows.drop_last()).remove(rows.last().entry.path)
    }
}

/// The revision that follows the current one of `path`; a path without one counts as zero.
pub open spec fn next_revision(revisions: Map<Seq<char>, u64>, path: Seq<char>) -> u64 {
    let current = if revisions.contains_key(path) {
        revisions[path]
    } else {
        0
    };
    if current == u64::MAX {
        0
    } else {
        (current + 1) as u64
    }
}

/// What becomes of a request to expand or collapse a path.
pub enum Request<T> {
    Unknown,
    NotDirectory,
    Granted(T),
}

impl RowsView {
    /// The rows of a directory that was just listed.
    pub open spec fn listed(entries: Seq<EntryView>) -> RowsView {
        RowsView {
            rows: fresh_rows(entries, None, 0),
            revisions: with_entries(Map::empty(), entries),
        }
    }

    /// Whether the listing that `revision` stands for is still wanted for `path`.
    pub open spec fn awaits(self, revision: u64, path: Seq<char>) -> bool {
        &&& self.revisions.contains_key(path)
        &&& self.revisions[path] == revision
        &&& first_index(self.rows, RowTest::Collapsed(path)) < self.rows.len()
    }

    /// Answers a request to expand `path`: the rows afterwards, with the revision that its
    /// listing is to be delivered under, or none where it is expanded already.
    pub open spec fn prepare(self, path: Seq<char>) -> Request<(RowsView, Option<u64>)> {
        let i = first_index(self.rows, RowTest::Path(path));
        if i == self.rows.len() {
            Request::Unknown
        } else if !self.rows[i].entry.navigable {
            Request::NotDirectory
        } else if self.rows[i].expanded {
            Request::Granted((self, None))
        } else {
            let revision = next_revision(self.revisions, path);
            Request::Granted(
                (
                    RowsView {
                        rows: self.rows.update(i, collapsed(self.rows[i])),
                        revisions: self.revisions.insert(path, revision),
                    },
                    Some(revision),
                ),
            )
        }
    }

    /// Delivers the listing of `path` that was requested under `revision`.
    pub open spec fn finish(self, revision: u64, path: Seq<char>, entries: Seq<EntryView>) -> RowsView {
        if self.awaits(revision, path) {
            let i = first_index(self.rows, RowTest::Collapsed(path));
            RowsView {
                rows: self.rows.take(i) + seq![expanded(self.rows[i])] + fresh_rows(
                    entries,
                    Some(path),
                    (self.rows[i].depth + 1) as u64,
                ) + self.rows.skip(i + 1),
                revisions: with_entries(self.revisions, entries),
            }
        } else {
            self
        }
    }

    /// Delivers the failure of the listing of `path` that was requested under `revision`.
    pub open spec fn fail(self, revision: u64, path: Seq<char>, message: Seq<char>) -> RowsView {
        if self.awaits(revision, path) {
            let i = first_index(self.rows, RowTest::Collapsed(path));
            RowsView {
                rows: self.rows.update(
                    i,
                    RowView { error_message: Some(message), ..self.rows[i] },
                ),
                revisions: self.revisions,
            }
        } else {
            self
        }
    }

    /// Answers a request to collapse `path`.
    pub open spec fn collapse(self, path: Seq<char>) -> Request<RowsView> {
        let i = first_index(self.rows, RowTest::Path(path));
        if i == self.rows.len() {
            Request::Unknown
        } else if !self.rows[i].entry.navigable {
            Request::NotDirectory
        } else {
            let end = subtree_end(self.rows, i);
            let kept = without_rows(self.revisions, self.rows.subrange(i + 1, end));
            Request::Granted(
                RowsView {
                    rows: self.rows.take(i) + seq![collapsed(self.rows[i])] + self.rows.skip(end),
                    revisions: kept.insert(path, next_revision(kept, path)),
                },
            )
        }
    }

    /// Every row below the first level directly or indirectly follows its parent, which is
    /// expanded, one level above and named by the row; rows of the first level name no parent.
    pub open spec fn is_forest(self) -> bool {
        forall|i: int| 0 <= i < self.rows.len() ==> #[trigger] is_placed(self.rows, i)
    }
}

/// An operation on the rows.
pub enum RowCall {
    /// Ask to expand a path.
    Prepare(Seq<char>),
    /// Deliver the listing of a path that was requested under a revision.
    Finish(u64, Seq<char>, Seq<EntryView>),
    /// Deliver the failure of such a listing.
    Fail(u64, Seq<char>, Seq<char>),
    /// Ask to collapse a path.
    Collapse(Seq<char>),
}

impl RowsView {
    /// The rows after one operation; a refused request changes nothing.
    pub open spec fn after(self, call: RowCall) -> RowsView {
        match call {
            RowCall::Prepare(path) => match self.prepare(path) {
                Request::Granted((after, _)) => after,
                _ => self,
            },
            RowCall::Finish(revision, path, entries) => self.finish(revision, path, entries),
            RowCall::Fail(revision, path, message) => self.fail(revision, path, message),
            RowCall::Collapse(path) => match self.collapse(path) {
                Request::Granted(after) => after,
                _ => self,
            },
        }
    }

    /// The rows after a whole run of operations.
    pub open spec fn after_all(self, calls: Seq<RowCall>) -> RowsView
        decreases calls.len(),
    {
        if calls.len() == 0 {
            self
        } else {
            self.after_all(calls.drop_last()).after(calls.last())
        }
    }
}

/// Whether row `p` is the parent of row `i`.
pub open spec fn is_parent(rows: Seq<RowView>, i: int, p: int) -> bool {
    &&& 0 <= p < i
    &&& rows[p].depth + 1 == rows[i].depth
    &&& rows[p].expanded
    &&& rows[i].parent_path == Some(rows[p].entry.path)
    &&& forall|k: int| p < k < i ==> (#[trigger] rows[k]).depth >= rows[i].depth
}

/// Whether row `i` stands on the first level and names no parent, or follows its parent.
pub open spec fn is_placed(rows: Seq<RowView>, i: int) -> bool {
    if rows[i].depth == 0 {
        rows[i].parent_path is None
    } else {
        exists|p: int| is_parent(rows, i, p)
    }
}

/// The first row that passes a test is found in range, passes it, and no row before it does.
pub proof fn lemma_first_index(rows: Seq<RowView>, test: RowTest)
    ensures
        0 <= first_index(rows, test) <= rows.len(),
        first_index(rows, test) < rows.len() ==> passes(rows[first_index(rows, test)], test),
        forall|j: int| 0 <= j < first_index(rows, test) ==> !passes(#[trigger] rows[j], test),
    decreases rows.len(),
{
    if rows.len() == 0 || passes(rows[0], test) {
    } else {
        lemma_first_index(rows.skip(1), test);
        let rest = first_index(rows.skip(1), test);
        assert forall|j: int| 0 <= j < rest + 1 implies !passes(#[trigger] rows[j], test) by {
            if j > 0 {
                assert(rows[j] == rows.skip(1)[j - 1]);
            }
        }
        if rest < rows.skip(1).len() {
            assert(rows[rest + 1] == rows.skip(1)[rest]);
        }
    }
}

/// A position that passes a test, with none before it that does, is the first one.
pub proof fn lemma_first_index_is(rows: Seq<RowView>, test: RowTest, i: int)
    requires
        0 <= i <= rows.len(),
        i < rows.len() ==> passes(rows[i], test),
        forall|j: int| 0 <= j < i ==> !passes(#[trigger] rows[j], test),
    ensures
        first_index(rows, test) == i,
{
    lemma_first_index(rows, test);
    let k = first_index(rows, test);
    if k < i {
        assert(!passes(rows[k], test));
    } else if i < k {
        assert(!passes(rows[i], test));
    }
}

/// A row is never deeper than its position.
pub proof fn lemma_depth_bound(m: RowsView, i: int)
    requires
        m.is_forest(),
        0 <= i < m.rows.len(),
    ensures
        m.rows[i].depth <= i,
    decreases i,
{
    assert(is_placed(m.rows, i));
    if m.rows[i].depth != 0 {
        let p = choose|p: int| is_parent(m.rows, i, p);
        lemma_depth_bound(m, p);
    }
}

/// Rows that differ from a forest in errors only are a forest.
proof fn lemma_forest_errors(m: RowsView, n: RowsView)
    requires
        m.is_forest(),
        n.rows.len() == m.rows.len(),
        forall|i: int|
            0 <= i < m.rows.len() ==> without_error(#[trigger] n.rows[i]) == without_error(m.rows[i]),
    ensures
        n.is_forest(),
{
    assert forall|i: int| 0 <= i < n.rows.len() implies #[trigger] is_placed(n.rows, i) by {
        assert(n.rows[i].depth == m.rows[i].depth);
        assert(is_placed(m.rows, i));
        if n.rows[i].depth != 0 {
            let p = choose|p: int| is_parent(m.rows, i, p);
            assert(n.rows[p].expanded == m.rows[p].expanded);
            assert forall|k: int| p < k < i implies (#[trigger] n.rows[k]).depth
                >= n.rows[i].depth by {
                assert(m.rows[k].depth >= m.rows[i].depth);
            }
            assert(is_parent(n.rows, i, p));
        }
    }
}

/// Delivering a listing to a collapsed row of a forest gives a forest.
proof fn lemma_forest_finish(m: RowsView, revision: u64, path: Seq<char>, entries: Seq<EntryView>)
    requires
        m.is_forest(),
        m.rows.len() <= u64::MAX,
    ensures
        m.finish(revision, path, entries).is_forest(),
{
    if m.awaits(revision, path) {
        let n = m.finish(revision, path, entries);
        let at = first_index(m.rows, RowTest::Collapsed(path));
        let len = entries.len() as int;
        lemma_first_index(m.rows, RowTest::Collapsed(path));
        lemma_depth_bound(m, at);
        let depth = (m.rows[at].depth + 1) as u64;
        assert(depth == m.rows[at].depth + 1);
        assert(n.rows.len() == m.rows.len() + len);
        assert forall|j: int| 0 <= j < at implies #[trigger] n.rows[j] == m.rows[j] by {}
        assert(n.rows[at] == expanded(m.rows[at]));
        assert forall|j: int| at < j <= at + len implies #[trigger] n.rows[j] == fresh_row(
            entries[j - at - 1],
            Some(path),
            depth,
        ) by {}
        assert forall|j: int| at + len < j < n.rows.len() implies #[trigger] n.rows[j] == m.rows[j
            - len] by {}
        assert forall|i: int| 0 <= i < n.rows.len() implies #[trigger] is_placed(n.rows, i) by {
            if i <= at {
                assert(n.rows[i].depth == m.rows[i].depth);
                assert(is_placed(m.rows, i));
                if n.rows[i].depth != 0 {
                    let p = choose|p: int| is_parent(m.rows, i, p);
                    assert forall|k: int| p < k < i implies (#[trigger] n.rows[k]).depth
                        >= n.rows[i].depth by {
                        assert(m.rows[k].depth >= m.rows[i].depth);
                    }
                    assert(is_parent(n.rows, i, p));
                }
            } else if i <= at + len {
                assert(is_parent(n.rows, i, at));
            } else {
                let o = i - len;
                assert(n.rows[i] == m.rows[o]);
                assert(is_placed(m.rows, o));
                if n.rows[i].depth != 0 {
                    let p = choose|p: int| is_parent(m.rows, o, p);
                    assert(p != at);
                    let q = if p < at {
                        p
                    } else {
                        p + len
                    };
                    assert(n.rows[q] == m.rows[p]);
                    if p < at {
                        assert(m.rows[at].depth >= m.rows[o].depth);
                    }
                    assert forall|k: int| q < k < i implies (#[trigger] n.rows[k]).depth
                        >= n.rows[i].depth by {
                        if k < at {
                            assert(m.rows[k].depth >= m.rows[o].depth);
                        } else if k > at + len {
                            assert(m.rows[k - len].depth >= m.rows[o].depth);
                        }
                    }
                    assert(is_parent(n.rows, i, q));
                }
            }
        }
    }
}

/// The block below a row starts right after it, ends within the rows, holds deeper rows only, and
/// is followed by a row that is not deeper.
pub proof fn lemma_subtree_end(rows: Seq<RowView>, i: int)
    requires
        0 <= i < rows.len(),
    ensures
        i + 1 <= subtree_end(rows, i) <= rows.len(),
        forall|k: int| i < k < subtree_end(rows, i) ==> (#[trigger] rows[k]).depth > rows[i].depth,
        subtree_end(rows, i) < rows.len() ==> rows[subtree_end(rows, i)].depth <= rows[i].depth,
{
    let test = RowTest::AtMost(rows[i].depth);
    let tail = rows.skip(i + 1);
    lemma_first_index(tail, test);
    let end = subtree_end(rows, i);
    assert forall|k: int| i < k < end implies (#[trigger] rows[k]).depth > rows[i].depth by {
        assert(rows[k] == tail[k - i - 1]);
        assert(!passes(tail[k - i - 1], test));
    }
    if end < rows.len() {
        assert(rows[end] == tail[end - i - 1]);
    }
}

/// Cutting the block below a row out of a forest gives a forest.
proof fn lemma_forest_cut(m: RowsView, n: RowsView, at: int, end: int)
    requires
        m.is_forest(),
        0 <= at < end <= m.rows.len(),
        forall|k: int| at < k < end ==> (#[trigger] m.rows[k]).depth > m.rows[at].depth,
        end < m.rows.len() ==> m.rows[end].depth <= m.rows[at].depth,
        n.rows.len() == m.rows.len() - (end - at - 1),
        forall|j: int| 0 <= j < at ==> #[trigger] n.rows[j] == m.rows[j],
        n.rows[at] == collapsed(m.rows[at]),
        forall|j: int| at < j < n.rows.len() ==> #[trigger] n.rows[j] == m.rows[j + end - at - 1],
    ensures
        n.is_forest(),
{
    let gone = end - at - 1;
    assert forall|i: int| 0 <= i < n.rows.len() implies #[trigger] is_placed(n.rows, i) by {
        if i <= at {
            lemma_parent_before_cut(m, n, at, i);
        } else {
            let o = i + gone;
            assert(n.rows[i] == m.rows[o]);
            assert(is_placed(m.rows, o));
            if n.rows[i].depth != 0 {
                let p = choose|p: int| is_parent(m.rows, o, p);
                assert(!(at <= p < end)) by {
                    if at <= p < end {
                        assert(m.rows[p].depth >= m.rows[at].depth);
                        assert(m.rows[end].depth <= m.rows[at].depth);
                    }
                }
                let q = if p < at {
                    p
                } else {
                    p - gone
                };
                assert(n.rows[q] == m.rows[p]);
                if p < at {
                    assert(m.rows[at].depth >= m.rows[o].depth);
                }
                assert forall|k: int| q < k < i implies (#[trigger] n.rows[k]).depth
                    >= n.rows[i].depth by {
                    if k < at {
                        assert(m.rows[k].depth >= m.rows[o].depth);
                    } else if k > at {
                        assert(m.rows[k + gone].depth >= m.rows[o].depth);
                    }
                }
                assert(is_parent(n.rows, i, q));
            }
        }
    }
}

proof fn lemma_parent_before_cut(m: RowsView, n: RowsView, at: int, i: int)
    requires
        m.is_forest(),
        0 <= i <= at < m.rows.len(),
        at < n.rows.len(),
        forall|j: int| 0 <= j < at ==> #[trigger] n.rows[j] == m.rows[j],
        n.rows[at] == collapsed(m.rows[at]),
    ensures
        is_placed(n.rows, i),
{
    assert(n.rows[i].depth == m.rows[i].depth);
    assert(is_placed(m.rows, i));
    if n.rows[i].depth != 0 {
        let p = choose|p: int| is_parent(m.rows, i, p);
        assert(n.rows[p] == m.rows[p]);
        assert forall|k: int| p < k < i implies (#[trigger] n.rows[k]).depth >= n.rows[i].depth by {
            assert(m.rows[k].depth >= m.rows[i].depth);
        }
        assert(is_parent(n.rows, i, p));
    }
}

/// Collapsing a row of a forest gives a forest.
proof fn lemma_forest_collapse(m: RowsView, path: Seq<char>)
    requires
        m.is_forest(),
        m.collapse(path) is Granted,
    ensures
        m.collapse(path)->Granted_0.is_forest(),
{
    let n = m.collapse(path)->Granted_0;
    let at = first_index(m.rows, RowTest::Path(path));
    lemma_first_index(m.rows, RowTest::Path(path));
    lemma_subtree_end(m.rows, at);
    let end = subtree_end(m.rows, at);
    assert(n.rows == m.rows.take(at) + seq![collapsed(m.rows[at])] + m.rows.skip(end));
    lemma_forest_cut(m, n, at, end);
}

/// The visible rows and the revisions of their paths.
pub struct Rows {
    rows: Vec<StateRow>,
    revisions: StringHashMap<u64>,
}

impl View for Rows {
    type V = RowsView;

    closed spec fn view(&self) -> RowsView {
        RowsView { rows: rows_view(self.rows@), revisions: self.revisions@ }
    }
}

impl Rows {
    /// No rows.
    pub fn new() -> (r: Self)
        ensures
            r@ == RowsView::listed(Seq::empty()),
            r@.is_forest(),
    {
        let r = Rows { rows: Vec::new(), revisions: StringHashMap::new() };
        proof {
            assert(r@.rows =~= RowsView::listed(Seq::empty()).rows);
        }
        r
    }

    /// The rows of a directory that was just listed.
    pub fn from_entries(entries: Vec<DirectoryEntry>) -> (r: Self)
        ensures
            r@ == RowsView::listed(entries_view(entries@)),
            r@.is_forest(),
    {
        let mut r = Rows { rows: Vec::new(), revisions: StringHashMap::new() };
        let ghost all = entries_view(entries@);
        proof {
            assert(all.take(0) =~= Seq::empty());
            assert(rows_view(r.rows@) =~= fresh_rows(all.take(0), None, 0));
        }
        r.push_fresh(entries, None, 0);
        proof {
            assert(r@.rows =~= RowsView::listed(all).rows);
        }
        r
    }

    /// Appends one fresh row per entry, and sets the revision of its path to zero.
    fn push_fresh(&mut self, entries: Vec<DirectoryEntry>, parent_path: Option<&str>, depth: u64)
        ensures
            final(self)@.rows == old(self)@.rows + fresh_rows(
                entries_view(entries@),
                match parent_path {
                    Some(p) => Some(p@),
                    None => None,
                },
                depth,
            ),
            final(self)@.revisions == with_entries(old(self)@.revisions, entries_view(entries@)),
    {
        let ghost all = entries_view(entries@);
        let ghost parent = match parent_path {
            Some(p) => Some(p@),
            None => None,
        };
        let ghost before = self@;
        let mut i: usize = 0;
        proof {
            assert(self@.rows =~= before.rows + fresh_rows(all.take(0), parent, depth));
        }
        while i < entries.len()
            invariant
                0 <= i <= entries@.len(),
                all == entries_view(entries@),
                parent == (match parent_path {
                    Some(p) => Some(p@),
                    None => None,
                }),
                self@.rows == before.rows + fresh_rows(all.take(i as int), parent, depth),
                self@.revisions == with_entries(before.revisions, all.take(i as int)),
            decreases entries@.len() - i,
        {
            let entry = entries[i].clone();
            let parent_path = match parent_path {
                Some(p) => Some(p.to_owned()),
                None => None,
            };
            self.revisions.insert(entry.path.clone(), 0);
            let row = StateRow { entry, parent_path, depth, expanded: false, error_message: None };
            let ghost grown = self@.rows.push(row@);
            self.rows.push(row);
            proof {
                assert(all.take(i + 1).drop_last() =~= all.take(i as int));
                assert(row@ == fresh_row(all[i as int], parent, depth));
                assert(self@.rows =~= grown);
                assert(self@.rows =~= before.rows + fresh_rows(all.take(i + 1), parent, depth));
            }
            i = i + 1;
        }
        proof {
            assert(all.take(i as int) =~= all);
        }
    }

    /// The position of the first row of `path`; with `collapsed_only`, of the first such row that
    /// is not expanded.
    fn find(&self, path: &str, collapsed_only: bool) -> (r: Option<usize>)
        ensures
            ({
                let test = if collapsed_only {
                    RowTest::Collapsed(path@)
                } else {
                    RowTest::Path(path@)
                };
                match r {
                    Some(i) => i == first_index(self@.rows, test) && i < self@.rows.len(),
                    None => first_index(self@.rows, test) == self@.rows.len(),
                }
            }),
    {
        let ghost test = if collapsed_only {
            RowTest::Collapsed(path@)
        } else {
            RowTest::Path(path@)
        };
        let mut i: usize = 0;
        while i < self.rows.len()
            invariant
                i <= self.rows@.len(),
                test == (if collapsed_only {
                    RowTest::Collapsed(path@)
                } else {
                    RowTest::Path(path@)
                }),
                forall|j: int| 0 <= j < i ==> !passes(#[trigger] self@.rows[j], test),
            decreases self.rows@.len() - i,
        {
            proof {
                assert(self@.rows[i as int] == self.rows@[i as int]@);
            }
            if same_text(&self.rows[i].entry.path, path) && !(collapsed_only
                && self.rows[i].expanded) {
                proof {
                    lemma_first_index_is(self@.rows, test, i as int);
                }
                return Some(i);
            }
            i = i + 1;
        }
        proof {
            lemma_first_index_is(self@.rows, test, i as int);
        }
        None
    }

    /// A copy of the rows.
    pub fn rows(&self) -> (r: Vec<StateRow>)
        ensures
            rows_view(r@) == self@.rows,
    {
        let mut out: Vec<StateRow> = Vec::new();
        let mut i: usize = 0;
        while i < self.rows.len()
            invariant
                i <= self.rows@.len(),
                out@.len() == i,
                forall|j: int| 0 <= j < i ==> (#[trigger] out@[j])@ == self.rows@[j]@,
            decreases self.rows@.len() - i,
        {
            out.push(self.rows[i].clone());
            i = i + 1;
        }
        proof {
            assert(rows_view(out@) =~= self@.rows);
        }
        out
    }

    /// Gives `path` its next revision, which is returned.
    fn advance_revision(&mut self, path: &str) -> (r: u64)
        ensures
            r == next_revision(old(self)@.revisions, path@),
            final(self)@.rows == old(self)@.rows,
            final(self)@.revisions == old(self)@.revisions.insert(path@, r),
    {
        let current: u64 = match self.revisions.get(path) {
            Some(revision) => *revision,
            None => 0,
        };
        let next: u64 = current.wrapping_add(1);
        self.revisions.insert(path.to_owned(), next);
        next
    }

    /// Whether `revision` is the latest one given to `path`.
    fn is_current(&self, revision: u64, path: &str) -> (r: bool)
        ensures
            r == (self@.revisions.contains_key(path@) && self@.revisions[path@] == revision),
    {
        match self.revisions.get(path) {
            Some(current) => *current == revision,
            None => false,
        }
    }

    /// Answers a request to expand `path`. A granted request carries the revision under which the
    /// listing is to be delivered, or none where the row is expanded already.
    pub fn prepare_expand(&mut self, path: &str) -> (r: Request<Option<u64>>)
        requires
            old(self)@.is_forest(),
        ensures
            match old(self)@.prepare(path@) {
                Request::Unknown => r is Unknown && final(self)@ == old(self)@,
                Request::NotDirectory => r is NotDirectory && final(self)@ == old(self)@,
                Request::Granted((after, revision)) => {
                    &&& r == Request::Granted(revision)
                    &&& final(self)@ == after
                },
            },
            final(self)@.is_forest(),
    {
        let ghost before = self@;
        let i: usize = match self.find(path, false) {
            Some(i) => i,
            None => {
                return Request::Unknown;
            },
        };
        proof {
            lemma_first_index(self@.rows, RowTest::Path(path@));
            assert(self@.rows[i as int] == self.rows@[i as int]@);
        }
        if !self.rows[i].entry.navigable {
            return Request::NotDirectory;
        }
        if self.rows[i].expanded {
            return Request::Granted(None);
        }
        self.rows[i].error_message = None;
        proof {
            assert(self@.rows =~= before.rows.update(i as int, collapsed(before.rows[i as int])));
        }
        let revision: u64 = self.advance_revision(path);
        proof {
            lemma_forest_errors(before, self@);
        }
        Request::Granted(Some(revision))
    }

    /// Delivers the listing of `path` that was requested under `revision`. A listing that is no
    /// longer wanted changes nothing.
    pub fn finish_expand(&mut self, revision: u64, path: &str, entries: Vec<DirectoryEntry>)
        requires
            old(self)@.is_forest(),
        ensures
            final(self)@ == old(self)@.finish(revision, path@, entries_view(entries@)),
            final(self)@.is_forest(),
    {
        let ghost before = self@;
        let ghost all = entries_view(entries@);
        if !self.is_current(revision, path) {
            return;
        }
        let i: usize = match self.find(path, true) {
            Some(i) => i,
            None => {
                return;
            },
        };
        let len: usize = self.rows.len();
        proof {
            assert(before.rows.len() == len);
            lemma_depth_bound(before, i as int);
            lemma_forest_finish(before, revision, path@, all);
            assert(before.rows[i as int] == self.rows@[i as int]@);
        }
        let depth: u64 = self.rows[i].depth + 1;
        let mut tail = self.rows.split_off(i + 1);
        self.rows[i].expanded = true;
        self.rows[i].error_message = None;
        proof {
            assert(self@.rows =~= before.rows.take(i as int) + seq![
                expanded(before.rows[i as int]),
            ]);
        }
        self.push_fresh(entries, Some(path), depth);
        let ghost grown = self@.rows;
        self.rows.append(&mut tail);
        proof {
            assert(self@.rows =~= grown + before.rows.skip(i + 1));
        }
    }

    /// Delivers the failure of the listing of `path` that was requested under `revision`.
    pub fn fail_expand(&mut self, revision: u64, path: &str, message: &str)
        requires
            old(self)@.is_forest(),
        ensures
            final(self)@ == old(self)@.fail(revision, path@, message@),
            final(self)@.is_forest(),
    {
        let ghost before = self@;
        if !self.is_current(revision, path) {
            return;
        }
        let i: usize = match self.find(path, true) {
            Some(i) => i,
            None => {
                return;
            },
        };
        proof {
            assert(before.rows[i as int] == self.rows@[i as int]@);
        }
        self.rows[i].error_message = Some(message.to_owned());
        proof {
            assert(self@.rows =~= before.fail(revision, path@, message@).rows);
            lemma_forest_errors(before, self@);
        }
    }

    /// Collapses `path`: every row below it leaves, and its revision moves on, so that a listing
    /// that is still on its way will not be taken.
    pub fn collapse(&mut self, path: &str) -> (r: Request<()>)
        requires
            old(self)@.is_forest(),
        ensures
            match old(self)@.collapse(path@) {
                Request::Unknown => r is Unknown && final(self)@ == old(self)@,
                Request::NotDirectory => r is NotDirectory && final(self)@ == old(self)@,
                Request::Granted(after) => r is Granted && final(self)@ == after,
            },
            final(self)@.is_forest(),
    {
        let ghost before = self@;
        let i: usize = match self.find(path, false) {
            Some(i) => i,
            None => {
                return Request::Unknown;
            },
        };
        let len: usize = self.rows.len();
        proof {
            assert(before.rows.len() == len);
            lemma_first_index(self@.rows, RowTest::Path(path@));
            lemma_subtree_end(before.rows, i as int);
            assert(before.rows[i as int] == self.rows@[i as int]@);
        }
        if !self.rows[i].entry.navigable {
            return Request::NotDirectory;
        }
        proof {
            lemma_forest_collapse(before, path@);
        }
        let depth: u64 = self.rows[i].depth;
        let ghost end = subtree_end(before.rows, i as int);
        let mut j: usize = i + 1;
        proof {
            assert(before.rows.subrange(i + 1, i + 1) =~= Seq::empty());
        }
        while j < self.rows.len() && self.rows[j].depth > depth
            invariant
                i < j <= self.rows@.len(),
                depth == before.rows[i as int].depth,
                self@.rows == before.rows,
                end == subtree_end(before.rows, i as int),
                i + 1 <= end <= before.rows.len(),
                j <= end,
                forall|k: int|
                    i < k < end ==> (#[trigger] before.rows[k]).depth > before.rows[i as int].depth,
                end < before.rows.len() ==> before.rows[end].depth <= before.rows[i as int].depth,
                self@.revisions == without_rows(
                    before.revisions,
                    before.rows.subrange(i + 1, j as int),
                ),
            decreases self.rows@.len() - j,
        {
            proof {
                assert(self@.rows[j as int] == self.rows@[j as int]@);
                assert(before.rows.subrange(i + 1, j + 1).drop_last() =~= before.rows.subrange(
                    i + 1,
                    j as int,
                ));
            }
            self.revisions.remove(self.rows[j].entry.path.as_str());
            j = j + 1;
        }
        proof {
            if j < end {
                assert(self@.rows[j as int] == self.rows@[j as int]@);
                assert(before.rows[j as int].depth > before.rows[i as int].depth);
            }
            assert(j == end);
        }
        let mut tail = self.rows.split_off(j);
        self.rows.truncate(i + 1);
        self.rows[i].expanded = false;
        self.rows[i].error_message = None;
        self.rows.append(&mut tail);
        proof {
            assert(self@.rows =~= before.collapse(path@)->Granted_0.rows);
        }
        self.advance_revision(path);
        Request::Granted(())
    }
}

} // verus!
