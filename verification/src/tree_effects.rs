//! What each operation on a tree or a state changes and what it leaves, root by root.

use vstd::prelude::*;

use crate::api::{EntryView, ErrorClass};
use crate::row_effects::law_roots_show_their_entries;
use crate::state::StateView;
use crate::text_laws::{ends_in, lemma_ends_in};
use crate::tree::{TreeCall, TreeView};

verus! {

/// A new root shows no rows until it is listed, and its number differs from that of the root before:
/// it is the next one, or zero behind the last.
pub proof fn law_new_roots_start_empty(t: TreeView, root: Seq<char>)
    ensures
        t.after(TreeCall::BeginRoot(root)).root == Some(root),
        t.after(TreeCall::BeginRoot(root)).rows.rows.len() == 0,
        t.after(TreeCall::BeginRoot(root)).generation != t.generation,
        t.generation < u64::MAX ==> t.after(TreeCall::BeginRoot(root)).generation == t.generation + 1,
        t.generation == u64::MAX ==> t.after(TreeCall::BeginRoot(root)).generation == 0,
{
    law_roots_show_their_entries(Seq::empty());
}

/// The listing of the current root is shown whole: a row for each entry, in order. One that was
/// requested for another root changes nothing.
pub proof fn law_current_roots_are_shown(t: TreeView, generation: u64, entries: Seq<EntryView>)
    ensures
        generation != t.generation ==> t.after(TreeCall::FinishRoot(generation, entries)) == t,
        generation == t.generation ==> {
            let after = t.after(TreeCall::FinishRoot(generation, entries));
            &&& after.root == t.root
            &&& after.generation == t.generation
            &&& after.rows.rows.len() == entries.len()
            &&& forall|i: int|
                0 <= i < entries.len() ==> {
                    let row = #[trigger] after.rows.rows[i];
                    row.entry == entries[i] && row.depth == 0 && !row.expanded
                }
        },
{
    law_roots_show_their_entries(entries);
}

/// Expanding and collapsing leave the root and its number alone, and results that were requested for
/// another root leave everything alone.
pub proof fn law_operations_keep_the_root(
    t: TreeView,
    generation: u64,
    revision: u64,
    path: Seq<char>,
    entries: Seq<EntryView>,
    message: Seq<char>,
)
    ensures
        forall|call: TreeCall|
            !(call is BeginRoot) ==> (#[trigger] t.after(call)).root == t.root && t.after(call).generation
                == t.generation,
        generation != t.generation ==> t.after(TreeCall::Finish(generation, revision, path, entries))
            == t,
        generation != t.generation ==> t.after(TreeCall::Fail(generation, revision, path, message)) == t,
        t.after(TreeCall::Finish(t.generation, revision, path, entries)).rows == t.rows.finish(
            revision,
            path,
            entries,
        ),
        t.after(TreeCall::Fail(t.generation, revision, path, message)).rows == t.rows.fail(
            revision,
            path,
            message,
        ),
{
}

/// A path that cannot be expanded is told of by name; that it is unknown and that it is no directory
/// are told apart.
pub proof fn law_refused_paths_are_named(path: Seq<char>)
    ensures
        ends_in(crate::tree::unknown_path_error(path).message, path),
        ends_in(crate::tree::not_directory_error(path).message, path),
        ends_in(crate::state::unknown_path_error(path).message, path),
        ends_in(crate::state::not_directory_error(path).message, path),
        crate::tree::unknown_path_error(path).class == ErrorClass::InvalidPath,
        crate::tree::not_directory_error(path).class == ErrorClass::InvalidPath,
        crate::state::unknown_path_error(path).class == ErrorClass::InvalidPath,
        crate::state::not_directory_error(path).class == ErrorClass::InvalidPath,
        crate::tree::unknown_path_error(path) != crate::tree::not_directory_error(path),
        crate::state::unknown_path_error(path) != crate::state::not_directory_error(path),
{
    lemma_ends_in("tree entry does not exist: "@, path);
    lemma_ends_in("tree entry is not a directory: "@, path);
    lemma_ends_in("state entry does not exist: "@, path);
    lemma_ends_in("state entry is not a directory: "@, path);
    reveal_strlit("tree entry does not exist: ");
    reveal_strlit("tree entry is not a directory: ");
    reveal_strlit("state entry does not exist: ");
    reveal_strlit("state entry is not a directory: ");
    assert(crate::tree::unknown_path_error(path).message.len()
        != crate::tree::not_directory_error(path).message.len());
    assert(crate::state::unknown_path_error(path).message.len()
        != crate::state::not_directory_error(path).message.len());
}

/// A snapshot shows the root and every row of the state, as they are.
pub proof fn law_snapshots_show_the_state(s: StateView)
    ensures
        s.snapshot().path == s.path,
        s.snapshot().rows == s.rows.rows,
{
}

} // verus!
