//! The rows shown below a root directory that can be exchanged for another.

use vstd::prelude::*;

use crate::api::{
    error_text, failure, DirectoryEntry, EntryView, ErrorClass, ErrorView, FilePeekerError,
};
use crate::rows::{entries_view, rows_view, Request, RowCall, Rows, RowsView, StateRow};
use crate::text::{concat2, text_of};

verus! {

/// What a granted request to expand a directory calls for.
#[derive(Debug, PartialEq, Eq)]
pub enum ExpandAction {
    /// The directory is expanded already.
    Ready(Vec<StateRow>),
    /// The directory has to be listed, and the listing delivered under these numbers.
    Load { generation: u64, revision: u64 },
}

/// The rows below the current root.
pub struct DirectoryTree {
    generation: u64,
    root: Option<String>,
    rows: Rows,
}

/// What a [`DirectoryTree`] stands for.
pub struct TreeView {
    pub generation: u64,
    pub root: Option<Seq<char>>,
    pub rows: RowsView,
}

impl View for DirectoryTree {
    type V = TreeView;

    closed spec fn view(&self) -> TreeView {
        TreeView { generation: self.generation, root: text_of(self.root), rows: self.rows@ }
    }
}

/// The generation after `generation`.
pub open spec fn next_generation(generation: u64) -> u64 {
    if generation == u64::MAX {
        0
    } else {
        (generation + 1) as u64
    }
}

impl TreeView {
    /// The tree while its new root `root` is being listed.
    pub open spec fn begin(self, root: Seq<char>) -> TreeView {
        TreeView {
            generation: next_generation(self.generation),
            root: Some(root),
            rows: RowsView::listed(Seq::empty()),
        }
    }

    /// The tree with `rows` where `generation` is the current one, else as it was.
    pub open spec fn with_rows(self, generation: u64, rows: RowsView) -> TreeView {
        if generation == self.generation {
            TreeView { rows, ..self }
        } else {
            self
        }
    }
}

/// An operation on a tree.
pub enum TreeCall {
    /// Turn to a new root.
    BeginRoot(Seq<char>),
    /// Deliver the listing of the root that was requested under a generation.
    FinishRoot(u64, Seq<EntryView>),
    /// Ask to expand a path.
    Prepare(Seq<char>),
    /// Deliver the listing of a path that was requested under a generation and a revision.
    Finish(u64, u64, Seq<char>, Seq<EntryView>),
    /// Deliver the failure of such a listing.
    Fail(u64, u64, Seq<char>, Seq<char>),
    /// Ask to collapse a path.
    Collapse(Seq<char>),
}

impl TreeView {
    /// What an operation does to the rows of the current root, where it concerns them one by one.
    pub open spec fn row_call(self, call: TreeCall) -> Option<RowCall> {
        match call {
            TreeCall::BeginRoot(_) | TreeCall::FinishRoot(_, _) => None,
            TreeCall::Prepare(path) => Some(RowCall::Prepare(path)),
            TreeCall::Finish(generation, revision, path, entries) => {
                if generation == self.generation {
                    Some(RowCall::Finish(revision, path, entries))
                } else {
                    None
                }
            },
            TreeCall::Fail(generation, revision, path, message) => {
                if generation == self.generation {
                    Some(RowCall::Fail(revision, path, message))
                } else {
                    None
                }
            },
            TreeCall::Collapse(path) => Some(RowCall::Collapse(path)),
        }
    }

    /// The tree after one operation; a refused request changes nothing.
    pub open spec fn after(self, call: TreeCall) -> TreeView {
        match call {
            TreeCall::BeginRoot(root) => self.begin(root),
            TreeCall::FinishRoot(generation, entries) => self.with_rows(
                generation,
                RowsView::listed(entries),
            ),
            _ => match self.row_call(call) {
                Some(row_call) => self.with_rows(self.generation, self.rows.after(row_call)),
                None => self,
            },
        }
    }

    /// The tree after a whole run of operations.
    pub open spec fn after_all(self, calls: Seq<TreeCall>) -> TreeView
        decreases calls.len(),
    {
        if calls.len() == 0 {
            self
        } else {
            self.after_all(calls.drop_last()).after(calls.last())
        }
    }
}

/// The error of a path that no row has.
pub open spec fn unknown_path_error(path: Seq<char>) -> ErrorView {
    failure(ErrorClass::InvalidPath, "tree entry does not exist: "@ + path)
}

/// The error of a path whose row cannot be expanded.
pub open spec fn not_directory_error(path: Seq<char>) -> ErrorView {
    failure(ErrorClass::InvalidPath, "tree entry is not a directory: "@ + path)
}

/// The error of a path that no row has.
pub fn unknown_path(path: &str) -> (r: FilePeekerError)
    ensures
        r@ == unknown_path_error(path@),
{
    FilePeekerError::InvalidPath { message: concat2("tree entry does not exist: ", path) }
}

/// The error of a path whose row cannot be expanded.
pub fn not_directory(path: &str) -> (r: FilePeekerError)
    ensures
        r@ == not_directory_error(path@),
{
    FilePeekerError::InvalidPath { message: concat2("tree entry is not a directory: ", path) }
}

impl Default for DirectoryTree {
    fn default() -> (r: Self)
        ensures
            r.wf(),
            r@.generation == 0,
            r@.root is None,
            r@.rows == RowsView::listed(Seq::empty()),
    {
        DirectoryTree { generation: 0, root: None, rows: Rows::new() }
    }
}

impl DirectoryTree {
    /// The rows stand in the order of the forest that they show.
    pub open spec fn wf(self) -> bool {
        self@.rows.is_forest()
    }

    /// Turns to a new root: the rows go, and the number under which its listing is to be
    /// delivered is returned.
    pub fn begin_root(&mut self, root: String) -> (r: u64)
        ensures
            final(self).wf(),
            final(self)@ == old(self)@.after(TreeCall::BeginRoot(root@)),
            final(self)@ == old(self)@.begin(root@),
            r == final(self)@.generation,
    {
        self.generation = self.generation.wrapping_add(1);
        self.root = Some(root);
        self.rows = Rows::new();
        self.generation
    }

    /// Delivers the listing of the root that was requested under `generation`.
    pub fn finish_root(&mut self, generation: u64, entries: Vec<DirectoryEntry>) -> (r: Vec<StateRow>)
        requires
            old(self).wf(),
        ensures
            final(self).wf(),
            final(self)@ == old(self)@.after(
                TreeCall::FinishRoot(generation, entries_view(entries@)),
            ),
            final(self)@ == old(self)@.with_rows(
                generation,
                RowsView::listed(entries_view(entries@)),
            ),
            rows_view(r@) == final(self)@.rows.rows,
    {
        if generation == self.generation {
            self.rows = Rows::from_entries(entries);
        }
        self.rows.rows()
    }

    /// Starts to expand the row of `path`.
    pub fn prepare_expand(&mut self, path: &str) -> (r: Result<ExpandAction, FilePeekerError>)
        requires
            old(self).wf(),
        ensures
            final(self).wf(),
            final(self)@ == old(self)@.after(TreeCall::Prepare(path@)),
            match old(self)@.rows.prepare(path@) {
                Request::Unknown => {
                    &&& r matches Err(e) && e@ == unknown_path_error(path@)
                    &&& final(self)@ == old(self)@
                },
                Request::NotDirectory => {
                    &&& r matches Err(e) && e@ == not_directory_error(path@)
                    &&& final(self)@ == old(self)@
                },
                Request::Granted((after, None)) => {
                    &&& r matches Ok(ExpandAction::Ready(rows)) && rows_view(rows@) == old(
                        self)@.rows.rows
                    &&& final(self)@ == old(self)@
                },
                Request::Granted((after, Some(revision))) => {
                    &&& r matches Ok(ExpandAction::Load { generation: g, revision: given }) && given
                        == revision && g == old(self)@.generation
                    &&& final(self)@ == old(self)@.with_rows(old(self)@.generation, after)
                },
            },
    {
        match self.rows.prepare_expand(path) {
            Request::Unknown => Err(unknown_path(path)),
            Request::NotDirectory => Err(not_directory(path)),
            Request::Granted(None) => Ok(ExpandAction::Ready(self.rows.rows())),
            Request::Granted(Some(revision)) => Ok(
                ExpandAction::Load { generation: self.generation, revision },
            ),
        }
    }

    /// Delivers the listing of `parent_path` that was requested under `generation` and
    /// `revision`.
    pub fn finish_expand(
        &mut self,
        generation: u64,
        revision: u64,
        parent_path: &str,
        entries: Vec<DirectoryEntry>,
    ) -> (r: Vec<StateRow>)
        requires
            old(self).wf(),
        ensures
            final(self).wf(),
            final(self)@ == old(self)@.after(
                TreeCall::Finish(generation, revision, parent_path@, entries_view(entries@)),
            ),
            final(self)@ == old(self)@.with_rows(
                generation,
                old(self)@.rows.finish(revision, parent_path@, entries_view(entries@)),
            ),
            rows_view(r@) == final(self)@.rows.rows,
    {
        if generation == self.generation {
            self.rows.finish_expand(revision, parent_path, entries);
        }
        self.rows.rows()
    }

    /// Delivers the failure of the listing of `path` that was requested under `generation` and
    /// `revision`.
    pub fn fail_expand(&mut self, generation: u64, revision: u64, path: &str, error: &FilePeekerError)
        requires
            old(self).wf(),
        ensures
            final(self).wf(),
            final(self)@ == old(self)@.after(
                TreeCall::Fail(generation, revision, path@, error_text(error@)),
            ),
            final(self)@ == old(self)@.with_rows(
                generation,
                old(self)@.rows.fail(revision, path@, error_text(error@)),
            ),
    {
        if generation == self.generation {
            let message = error.to_string();
            self.rows.fail_expand(revision, path, &message);
        }
    }

    /// Collapses the row of `path` and discards all rows below it.
    pub fn collapse(&mut self, path: &str) -> (r: Result<Vec<StateRow>, FilePeekerError>)
        requires
            old(self).wf(),
        ensures
            final(self).wf(),
            final(self)@ == old(self)@.after(TreeCall::Collapse(path@)),
            match old(self)@.rows.collapse(path@) {
                Request::Unknown => {
                    &&& r matches Err(e) && e@ == unknown_path_error(path@)
                    &&& final(self)@ == old(self)@
                },
                Request::NotDirectory => {
                    &&& r matches Err(e) && e@ == not_directory_error(path@)
                    &&& final(self)@ == old(self)@
                },
                Request::Granted(after) => {
                    &&& r matches Ok(rows) && rows_view(rows@) == after.rows
                    &&& final(self)@ == old(self)@.with_rows(old(self)@.generation, after)
                },
            },
    {
        match self.rows.collapse(path) {
            Request::Unknown => Err(unknown_path(path)),
            Request::NotDirectory => Err(not_directory(path)),
            Request::Granted(_) => Ok(self.rows.rows()),
        }
    }

    /// A copy of the rows.
    pub fn rows(&self) -> (r: Vec<StateRow>)
        ensures
            rows_view(r@) == self@.rows.rows,
    {
        self.rows.rows()
    }
}

} // verus!
