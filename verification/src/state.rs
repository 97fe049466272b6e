//! The rows shown below a fixed root directory.

use vstd::prelude::*;

use crate::api::{error_text, failure, DirectoryEntry, ErrorClass, ErrorView, FilePeekerError};
use crate::rows::{entries_view, rows_view, Request, RowCall, RowView, Rows, RowsView, StateRow};
use crate::text::concat2;

verus! {

/// The rows below a root at one moment.
#[derive(Debug, PartialEq, Eq)]
pub struct StateSnapshot {
    pub path: String,
    pub rows: Vec<StateRow>,
}

/// What a [`StateSnapshot`] stands for.
pub struct SnapshotView {
    pub path: Seq<char>,
    pub rows: Seq<RowView>,
}

impl View for StateSnapshot {
    type V = SnapshotView;

    open spec fn view(&self) -> SnapshotView {
        SnapshotView { path: self.path@, rows: rows_view(self.rows@) }
    }
}

/// What a granted request to expand a directory calls for.
#[derive(Debug, PartialEq, Eq)]
pub enum ExpandAction {
    /// The directory is expanded already.
    Ready(StateSnapshot),
    /// The directory has to be listed, and the listing delivered under this revision.
    Load { revision: u64 },
}

/// The rows below a fixed root.
pub struct StateData {
    path: String,
    rows: Rows,
}

/// What a [`StateData`] stands for.
pub struct StateView {
    pub path: Seq<char>,
    pub rows: RowsView,
}

impl StateView {
    /// What is shown of the state.
    pub open spec fn snapshot(self) -> SnapshotView {
        SnapshotView { path: self.path, rows: self.rows.rows }
    }
}

impl View for StateData {
    type V = StateView;

    closed spec fn view(&self) -> StateView {
        StateView { path: self.path@, rows: self.rows@ }
    }
}

/// The error of a path that no row has.
pub open spec fn unknown_path_error(path: Seq<char>) -> ErrorView {
    failure(ErrorClass::InvalidPath, "state entry does not exist: "@ + path)
}

/// The error of a path whose row cannot be expanded.
pub open spec fn not_directory_error(path: Seq<char>) -> ErrorView {
    failure(ErrorClass::InvalidPath, "state entry is not a directory: "@ + path)
}

/// The error of a path that no row has.
pub fn unknown_path(path: &str) -> (r: FilePeekerError)
    ensures
        r@ == unknown_path_error(path@),
{
    FilePeekerError::InvalidPath { message: concat2("state entry does not exist: ", path) }
}

/// The error of a path whose row cannot be expanded.
pub fn not_directory(path: &str) -> (r: FilePeekerError)
    ensures
        r@ == not_directory_error(path@),
{
    FilePeekerError::InvalidPath { message: concat2("state entry is not a directory: ", path) }
}

impl StateData {
    /// The rows stand in the order of the forest that they show.
    pub open spec fn wf(self) -> bool {
        self@.rows.is_forest()
    }

    /// The state of a root directory that was just listed.
    pub fn new(path: String, entries: Vec<DirectoryEntry>) -> (r: Self)
        ensures
            r.wf(),
            r@.path == path@,
            r@.rows == RowsView::listed(entries_view(entries@)),
    {
        StateData { path, rows: Rows::from_entries(entries) }
    }

    /// What is shown now.
    pub fn snapshot(&self) -> (r: StateSnapshot)
        ensures
            r@ == self@.snapshot(),
    {
        StateSnapshot { path: self.path.clone(), rows: self.rows.rows() }
    }

    /// Starts to expand the row of `path`.
    pub fn prepare_expand(&mut self, path: &str) -> (r: Result<ExpandAction, FilePeekerError>)
        requires
            old(self).wf(),
        ensures
            final(self).wf(),
            final(self)@.rows == old(self)@.rows.after(RowCall::Prepare(path@)),
            final(self)@.path == old(self)@.path,
            match old(self)@.rows.prepare(path@) {
                Request::Unknown => {
                    &&& r matches Err(e) && e@ == unknown_path_error(path@)
                    &&& final(self)@ == old(self)@
                },
                Request::NotDirectory => {
                    &&& r matches Err(e) && e@ == not_directory_error(path@)
                    &&& final(self)@ == old(self)@
                },
                Request::Granted((after, None)) => {
                    &&& r matches Ok(ExpandAction::Ready(s)) && s@ == old(self)@.snapshot()
                    &&& final(self)@ == old(self)@
                },
                Request::Granted((after, Some(revision))) => {
                    &&& r matches Ok(ExpandAction::Load { revision: given }) && given == revision
                    &&& final(self)@.rows == after
                },
            },
    {
        match self.rows.prepare_expand(path) {
            Request::Unknown => Err(unknown_path(path)),
            Request::NotDirectory => Err(not_directory(path)),
            Request::Granted(None) => Ok(ExpandAction::Ready(self.snapshot())),
            Request::Granted(Some(revision)) => Ok(ExpandAction::Load { revision }),
        }
    }

    /// Delivers the listing of `parent_path` that was requested under `revision`.
    pub fn finish_expand(
        &mut self,
        revision: u64,
        parent_path: &str,
        entries: Vec<DirectoryEntry>,
    ) -> (r: StateSnapshot)
        requires
            old(self).wf(),
        ensures
            final(self).wf(),
            final(self)@.path == old(self)@.path,
            final(self)@.rows == old(self)@.rows.finish(
                revision,
                parent_path@,
                entries_view(entries@),
            ),
            r@ == final(self)@.snapshot(),
    {
        self.rows.finish_expand(revision, parent_path, entries);
        self.snapshot()
    }

    /// Delivers the failure of the listing of `path` that was requested under `revision`.
    pub fn fail_expand(&mut self, revision: u64, path: &str, error: &FilePeekerError)
        requires
            old(self).wf(),
        ensures
            final(self).wf(),
            final(self)@.path == old(self)@.path,
            final(self)@.rows == old(self)@.rows.fail(revision, path@, error_text(error@)),
    {
        let message = error.to_string();
        self.rows.fail_expand(revision, path, &message);
    }

    /// Delivers what came of listing `path`, which was requested under `revision`: its entries, or
    /// the failure, which is returned too.
    pub fn settle_expand(
        &mut self,
        revision: u64,
        path: &str,
        listed: Result<Vec<DirectoryEntry>, FilePeekerError>,
    ) -> (r: Result<StateSnapshot, FilePeekerError>)
        requires
            old(self).wf(),
        ensures
            final(self).wf(),
            final(self)@.path == old(self)@.path,
            match listed {
                Ok(entries) => {
                    &&& final(self)@.rows == old(self)@.rows.finish(
                        revision,
                        path@,
                        entries_view(entries@),
                    )
                    &&& r matches Ok(s) && s@ == final(self)@.snapshot()
                },
                Err(error) => {
                    &&& final(self)@.rows == old(self)@.rows.fail(revision, path@, error_text(error@))
                    &&& r == Err::<StateSnapshot, FilePeekerError>(error)
                },
            },
    {
        match listed {
            Ok(entries) => Ok(self.finish_expand(revision, path, entries)),
            Err(error) => {
                self.fail_expand(revision, path, &error);
                Err(error)
            },
        }
    }

    /// Collapses the row of `path` and discards all rows below it.
    pub fn collapse(&mut self, path: &str) -> (r: Result<StateSnapshot, FilePeekerError>)
        requires
            old(self).wf(),
        ensures
            final(self).wf(),
            final(self)@.rows == old(self)@.rows.after(RowCall::Collapse(path@)),
            final(self)@.path == old(self)@.path,
            match old(self)@.rows.collapse(path@) {
                Request::Unknown => {
                    &&& r matches Err(e) && e@ == unknown_path_error(path@)
                    &&& final(self)@ == old(self)@
                },
                Request::NotDirectory => {
                    &&& r matches Err(e) && e@ == not_directory_error(path@)
                    &&& final(self)@ == old(self)@
                },
                Request::Granted(after) => {
                    &&& r matches Ok(s) && s@ == final(self)@.snapshot()
                    &&& final(self)@.rows == after
                },
            },
    {
        match self.rows.collapse(path) {
            Request::Unknown => Err(unknown_path(path)),
            Request::NotDirectory => Err(not_directory(path)),
            Request::Granted(_) => Ok(self.snapshot()),
        }
    }
}

} // verus!
