use file_peeker_client::api::{DirectoryEntry, EntryKind, FilePeekerError};
use file_peeker_client::rows::StateRow;
use file_peeker_client::state::{ExpandAction, StateData};
use file_peeker_client::tree::{DirectoryTree, ExpandAction as TreeAction};

fn entry(path: &str, navigable: bool) -> DirectoryEntry {
    DirectoryEntry {
        path: path.into(),
        name: path.rsplit('/').next().unwrap_or(path).into(),
        kind: if navigable { EntryKind::Directory } else { EntryKind::File },
        navigable,
    }
}

fn begin_state(state: &mut StateData, path: &str) -> u64 {
    match state.prepare_expand(path).unwrap() {
        ExpandAction::Load { revision } => revision,
        ExpandAction::Ready(_) => panic!("expected a fresh directory load"),
    }
}

fn begin_tree(tree: &mut DirectoryTree, path: &str) -> (u64, u64) {
    match tree.prepare_expand(path).unwrap() {
        TreeAction::Load { generation, revision } => (generation, revision),
        TreeAction::Ready(_) => panic!("expected a fresh directory load"),
    }
}

fn find<'a>(rows: &'a [StateRow], path: &str) -> &'a StateRow {
    rows.iter().find(|row| row.entry.path == path).unwrap()
}

#[test]
fn expands_nested_rows_and_reloads_after_collapse() {
    let mut state = StateData::new("/root".into(), vec![entry("/root/a", true)]);
    let revision = begin_state(&mut state, "/root/a");
    state.finish_expand(revision, "/root/a", vec![entry("/root/a/b", true)]);
    let revision = begin_state(&mut state, "/root/a/b");
    state.finish_expand(revision, "/root/a/b", vec![entry("/root/a/b/file", false)]);

    assert_eq!(state.snapshot().rows.len(), 3);
    assert_eq!(state.snapshot().rows[2].depth, 2);
    assert_eq!(state.collapse("/root/a").unwrap().rows.len(), 1);

    let revision = begin_state(&mut state, "/root/a");
    let snapshot = state.finish_expand(revision, "/root/a", vec![entry("/root/a/new", false)]);
    assert_eq!(snapshot.path, "/root");
    assert_eq!(snapshot.rows[1].entry.path, "/root/a/new");
}

#[test]
fn collapsed_expansion_results_are_ignored() {
    let mut state = StateData::new("/root".into(), vec![entry("/root/a", true)]);
    let revision = begin_state(&mut state, "/root/a");
    state.collapse("/root/a").unwrap();
    let snapshot = state.finish_expand(revision, "/root/a", vec![entry("/root/a/file", false)]);
    assert_eq!(snapshot.rows.len(), 1);
    assert!(!snapshot.rows[0].expanded);
}

#[test]
fn state_failed_expansion_stays_collapsed_and_can_retry() {
    let mut state = StateData::new("/root".into(), vec![entry("/root/private", true)]);
    let revision = begin_state(&mut state, "/root/private");
    state.fail_expand(
        revision,
        "/root/private",
        &FilePeekerError::Io { message: "permission denied".into() },
    );

    let snapshot = state.snapshot();
    assert!(!snapshot.rows[0].expanded);
    assert_eq!(
        snapshot.rows[0].error_message.as_deref(),
        Some("filesystem I/O error: permission denied")
    );
    assert!(matches!(
        state.prepare_expand("/root/private").unwrap(),
        ExpandAction::Load { .. }
    ));
}

#[test]
fn state_concurrent_sibling_expansions_merge_by_current_position() {
    let mut state =
        StateData::new("/root".into(), vec![entry("/root/a", true), entry("/root/b", true)]);
    let revision_a = begin_state(&mut state, "/root/a");
    let revision_b = begin_state(&mut state, "/root/b");

    state.finish_expand(revision_b, "/root/b", vec![entry("/root/b/file", false)]);
    let snapshot = state.finish_expand(revision_a, "/root/a", vec![entry("/root/a/file", false)]);

    assert_eq!(snapshot.rows.len(), 4);
    assert!(find(&snapshot.rows, "/root/a").expanded);
    assert!(find(&snapshot.rows, "/root/b").expanded);
}

#[test]
fn state_rejects_unknown_and_non_navigable_entries() {
    let mut state = StateData::new("/root".into(), vec![entry("/root/file", false)]);
    assert!(matches!(
        state.prepare_expand("/missing"),
        Err(FilePeekerError::InvalidPath { .. })
    ));
    assert!(matches!(
        state.collapse("/root/file"),
        Err(FilePeekerError::InvalidPath { .. })
    ));
}

#[test]
fn expands_nested_rows_and_discards_them_on_collapse() {
    let mut tree = DirectoryTree::default();
    let generation = tree.begin_root("/root".into());
    tree.finish_root(generation, vec![entry("/root/a", true)]);
    let (generation, revision) = begin_tree(&mut tree, "/root/a");
    tree.finish_expand(generation, revision, "/root/a", vec![entry("/root/a/b", true)]);
    let (generation, revision) = begin_tree(&mut tree, "/root/a/b");
    tree.finish_expand(generation, revision, "/root/a/b", vec![entry("/root/a/b/file", false)]);

    assert_eq!(tree.rows().len(), 3);
    assert_eq!(tree.rows()[2].depth, 2);
    assert_eq!(tree.collapse("/root/a").unwrap().len(), 1);

    let (generation, revision) = begin_tree(&mut tree, "/root/a");
    let rows =
        tree.finish_expand(generation, revision, "/root/a", vec![entry("/root/a/new", false)]);
    assert_eq!(rows.len(), 2);
    assert_eq!(rows[1].entry.path, "/root/a/new");
}

#[test]
fn stale_root_and_collapsed_expansion_results_are_ignored() {
    let mut tree = DirectoryTree::default();
    let old_generation = tree.begin_root("/old".into());
    tree.finish_root(old_generation, vec![entry("/old/a", true)]);
    let (_, old_revision) = begin_tree(&mut tree, "/old/a");

    let new_generation = tree.begin_root("/new".into());
    tree.finish_root(new_generation, vec![entry("/new/file", false)]);
    tree.finish_expand(old_generation, old_revision, "/old/a", vec![entry("/old/a/file", false)]);
    assert_eq!(tree.rows()[0].entry.path, "/new/file");

    let generation = tree.begin_root("/root".into());
    tree.finish_root(generation, vec![entry("/root/a", true)]);
    let (generation, revision) = begin_tree(&mut tree, "/root/a");
    tree.collapse("/root/a").unwrap();
    let rows =
        tree.finish_expand(generation, revision, "/root/a", vec![entry("/root/a/file", false)]);
    assert_eq!(rows.len(), 1);
    assert!(!rows[0].expanded);
}

#[test]
fn tree_failed_expansion_stays_collapsed_and_can_retry() {
    let mut tree = DirectoryTree::default();
    let generation = tree.begin_root("/root".into());
    tree.finish_root(generation, vec![entry("/root/private", true)]);
    let (generation, revision) = begin_tree(&mut tree, "/root/private");
    tree.fail_expand(
        generation,
        revision,
        "/root/private",
        &FilePeekerError::Io { message: "permission denied".into() },
    );

    let row = &tree.rows()[0];
    assert!(!row.expanded);
    assert_eq!(
        row.error_message.as_deref(),
        Some("filesystem I/O error: permission denied")
    );
    assert!(matches!(
        tree.prepare_expand("/root/private").unwrap(),
        TreeAction::Load { .. }
    ));
}

#[test]
fn tree_concurrent_sibling_expansions_merge_by_current_position() {
    let mut tree = DirectoryTree::default();
    let generation = tree.begin_root("/root".into());
    tree.finish_root(generation, vec![entry("/root/a", true), entry("/root/b", true)]);
    let (generation_a, revision_a) = begin_tree(&mut tree, "/root/a");
    let (generation_b, revision_b) = begin_tree(&mut tree, "/root/b");

    tree.finish_expand(generation_b, revision_b, "/root/b", vec![entry("/root/b/file", false)]);
    let rows =
        tree.finish_expand(generation_a, revision_a, "/root/a", vec![entry("/root/a/file", false)]);

    assert_eq!(rows.len(), 4);
    assert!(find(&rows, "/root/a").expanded);
    assert!(find(&rows, "/root/b").expanded);
}

#[test]
fn tree_rejects_unknown_and_non_navigable_entries() {
    let mut tree = DirectoryTree::default();
    let generation = tree.begin_root("/root".into());
    tree.finish_root(generation, vec![entry("/root/file", false)]);

    assert!(matches!(
        tree.prepare_expand("/missing"),
        Err(FilePeekerError::InvalidPath { .. })
    ));
    assert!(matches!(
        tree.collapse("/root/file"),
        Err(FilePeekerError::InvalidPath { .. })
    ));
}

#[test]
fn rejected_requests_name_the_path() {
    let mut state = StateData::new("/root".into(), vec![entry("/root/file", false)]);
    assert_eq!(
        state.prepare_expand("/missing").unwrap_err(),
        FilePeekerError::InvalidPath { message: "state entry does not exist: /missing".into() }
    );
    assert_eq!(
        state.collapse("/root/file").unwrap_err(),
        FilePeekerError::InvalidPath { message: "state entry is not a directory: /root/file".into() }
    );
    assert_eq!(state.snapshot().rows.len(), 1);

    let mut tree = DirectoryTree::default();
    assert_eq!(
        tree.collapse("/missing").unwrap_err(),
        FilePeekerError::InvalidPath { message: "tree entry does not exist: /missing".into() }
    );
}

#[test]
fn expanding_twice_is_answered_with_the_rows() {
    let mut state = StateData::new("/root".into(), vec![entry("/root/a", true)]);
    let revision = begin_state(&mut state, "/root/a");
    state.finish_expand(revision, "/root/a", vec![entry("/root/a/x", false)]);
    match state.prepare_expand("/root/a").unwrap() {
        ExpandAction::Ready(snapshot) => {
            assert_eq!(snapshot.rows.len(), 2);
            assert_eq!(snapshot.rows[1].parent_path.as_deref(), Some("/root/a"));
        }
        ExpandAction::Load { .. } => panic!("expected the rows"),
    }
}

#[test]
fn asking_again_supersedes_the_first_request() {
    let mut state = StateData::new("/root".into(), vec![entry("/root/a", true)]);
    let first = begin_state(&mut state, "/root/a");
    let second = begin_state(&mut state, "/root/a");
    assert_eq!((first, second), (1, 2));
    let snapshot = state.finish_expand(first, "/root/a", vec![entry("/root/a/x", false)]);
    assert_eq!(snapshot.rows.len(), 1);
    let snapshot = state.finish_expand(second, "/root/a", vec![entry("/root/a/x", false)]);
    assert_eq!(snapshot.rows.len(), 2);
}

#[test]
fn collapsing_a_parent_discards_requests_below_it() {
    let mut state = StateData::new("/root".into(), vec![entry("/root/a", true)]);
    let revision = begin_state(&mut state, "/root/a");
    state.finish_expand(revision, "/root/a", vec![entry("/root/a/b", true)]);
    let below = begin_state(&mut state, "/root/a/b");
    state.collapse("/root/a").unwrap();
    let snapshot = state.finish_expand(below, "/root/a/b", vec![entry("/root/a/b/x", false)]);
    assert_eq!(snapshot.rows.len(), 1);
}

#[test]
fn collapse_undoes_an_expansion() {
    let mut state =
        StateData::new("/root".into(), vec![entry("/root/a", true), entry("/root/z", false)]);
    let before = state.snapshot();
    let revision = begin_state(&mut state, "/root/a");
    state.finish_expand(
        revision,
        "/root/a",
        vec![entry("/root/a/x", false), entry("/root/a/y", false)],
    );
    assert_eq!(state.collapse("/root/a").unwrap(), before);
}

#[test]
fn settled_expansions_report_rows_or_the_failure() {
    let mut state = StateData::new("/root".into(), vec![entry("/root/a", true)]);
    let revision = begin_state(&mut state, "/root/a");
    let error = FilePeekerError::Protocol { message: "odd".into() };
    assert_eq!(
        state.settle_expand(revision, "/root/a", Err(error)).unwrap_err().to_string(),
        "protocol error: odd"
    );
    assert_eq!(
        state.snapshot().rows[0].error_message.as_deref(),
        Some("protocol error: odd")
    );
    let revision = begin_state(&mut state, "/root/a");
    assert_eq!(state.snapshot().rows[0].error_message, None);
    let snapshot = state
        .settle_expand(revision, "/root/a", Ok(vec![entry("/root/a/x", false)]))
        .unwrap();
    assert_eq!(snapshot.rows.len(), 2);
}

#[test]
fn errors_are_shown_with_their_class() {
    let cases = [
        (FilePeekerError::not_implemented("metadata"), "operation is not implemented: metadata"),
        (FilePeekerError::InvalidPath { message: "a".into() }, "invalid path: a"),
        (FilePeekerError::ServerStart { message: "a".into() }, "failed to start server: a"),
        (FilePeekerError::ServerExited { message: "a".into() }, "server process exited: a"),
        (FilePeekerError::ConnectionClosed { message: "a".into() }, "connection closed: a"),
        (FilePeekerError::Protocol { message: "a".into() }, "protocol error: a"),
        (FilePeekerError::Io { message: "a".into() }, "filesystem I/O error: a"),
    ];
    for (error, text) in cases {
        assert_eq!(error.to_string(), text);
        assert_eq!(error.clone(), error);
    }
}

#[test]
fn overtaken_results_stay_ignored_through_later_operations() {
    let mut state =
        StateData::new("/root".into(), vec![entry("/root/a", true), entry("/root/z", true)]);
    let stale = begin_state(&mut state, "/root/a");
    state.collapse("/root/a").unwrap();
    let beside = begin_state(&mut state, "/root/z");
    state.finish_expand(beside, "/root/z", vec![entry("/root/z/y", true)]);
    let fresh = begin_state(&mut state, "/root/a");
    state.collapse("/root/z").unwrap();
    assert_ne!(stale, fresh);

    let before = state.snapshot();
    let after = state.finish_expand(stale, "/root/a", vec![entry("/root/a/late", false)]);
    assert_eq!(after, before);
    let error = FilePeekerError::Io { message: "late".into() };
    state.fail_expand(stale, "/root/a", &error);
    assert_eq!(state.snapshot(), before);

    let snapshot = state.finish_expand(fresh, "/root/a", vec![entry("/root/a/x", false)]);
    assert_eq!(snapshot.rows.len(), 3);
    let settled = state.snapshot();
    let after = state.finish_expand(stale, "/root/a", vec![entry("/root/a/late", false)]);
    assert_eq!(after, settled);
}

#[test]
fn overtaken_tree_results_stay_ignored_through_later_operations() {
    let mut tree = DirectoryTree::default();
    let generation = tree.begin_root("/root".into());
    tree.finish_root(generation, vec![entry("/root/a", true), entry("/root/z", true)]);
    let (_, stale) = begin_tree(&mut tree, "/root/a");
    let (_, fresh) = begin_tree(&mut tree, "/root/a");
    let (_, beside) = begin_tree(&mut tree, "/root/z");
    tree.finish_expand(generation, beside, "/root/z", vec![entry("/root/z/y", false)]);
    tree.collapse("/root/z").unwrap();

    let before = tree.rows();
    let after =
        tree.finish_expand(generation, stale, "/root/a", vec![entry("/root/a/late", false)]);
    assert_eq!(after, before);
    assert_eq!(tree.finish_expand(generation, fresh, "/root/a", Vec::new()).len(), 2);

    for _ in 0..3 {
        let newer = tree.begin_root("/root".into());
        tree.finish_root(newer, vec![entry("/root/a", true)]);
        let (current, revision) = begin_tree(&mut tree, "/root/a");
        assert_eq!((current, revision), (newer, stale));
    }
    let before = tree.rows();
    let after =
        tree.finish_expand(generation, stale, "/root/a", vec![entry("/root/a/late", false)]);
    assert_eq!(after, before);
    assert_eq!(tree.finish_root(generation, vec![entry("/root/late", false)]), before);
}

#[test]
fn listing_the_root_again_restarts_revisions() {
    let mut tree = DirectoryTree::default();
    let generation = tree.begin_root("/root".into());
    tree.finish_root(generation, vec![entry("/root/a", true)]);
    begin_tree(&mut tree, "/root/a");
    let (_, stale) = begin_tree(&mut tree, "/root/a");
    assert_eq!(stale, 2);
    tree.finish_root(generation, vec![entry("/root/a", true)]);
    let (_, fresh) = begin_tree(&mut tree, "/root/a");
    assert_eq!(fresh, 1);
    let late = || vec![entry("/root/a/late", false)];
    assert_eq!(tree.finish_expand(generation, stale, "/root/a", late()).len(), 1);
    begin_tree(&mut tree, "/root/a");
    assert_eq!(tree.finish_expand(generation, stale, "/root/a", late()).len(), 2);
}
