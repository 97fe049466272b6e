use file_peeker_client::api::{DirectoryEntry as PathEntry, EntryKind, FilePeekerError};
use file_peeker_client::cli::list::{child_path, finish_run, ListStats, OUTPUT_FLUSH_INTERVAL};
use file_peeker_client::cli::ssh_connection::{last_line, probe_command};
use file_peeker_client::cli::walk::{descendant_path, entries_per_second, WalkStats};
use file_peeker_client::client::{new_session_id, Client, ClientCloseSessionError};
use file_peeker_client::connection::grpc::{GrpcCode, GrpcStatus};
use file_peeker_client::connection::launch::ConnectionConfig;
use file_peeker_client::io_error::{invalid_data, with_context, IoError, IoErrorKind};
use file_peeker_client::operations::{
    absolute_utf8_path, current_root, current_root_answer, exchange_message, handshake_operation,
    list_batch, open_failure, run_listing, validate_current_root, CurrentRootError, ExchangeEvent,
    ExchangePhase, ListingItem, ListingState,
};
use file_peeker_client::protocol::{ErrorCode, Frame, ServerMessage, MAX_MESSAGE_BYTES};
use file_peeker_client::session::entries::{
    convert_batch, fs_error, operation_status_error, read_status_error, resolve_path,
    validate_absolute_path,
    DirectoryEntry, FsError, FsErrorKind, ListingEntry, ProtocolWalkEntry, WalkEntry,
    KIND_DIRECTORY, KIND_FILE, KIND_OTHER, KIND_SYMLINK, KIND_UNSPECIFIED,
};
use file_peeker_client::session::listing::{ListError, Listing};
use file_peeker_client::session::open::{
    open, open_local, system_open, OpenEvent, OpenFile, OpenPhase, OpenerOutcome,
};
use file_peeker_client::session::stage::{
    application_cache_namespace, cache_root_from, CacheDirectory, FileStager, PartialFileGuard,
    StageAction, StageDownload, StageEvent, StagePhase,
};
use file_peeker_client::session::streams::{
    list_items, NetworkRead, NetworkWalk, ReadEvent, WalkEvent,
};
use file_peeker_client::session::{
    close, close_connection, connection_config, CloseError, ConnectError, ResolvePathError,
    Session, SessionConfig, SessionShutdownError, SessionStartError, SessionTarget,
};

fn io(kind: IoErrorKind, message: &str) -> IoError {
    IoError { kind, message: message.into() }
}

fn remote() -> SessionTarget {
    SessionTarget::Remote { destination: "example.test".into() }
}

#[test]
fn child_names_are_single_components() {
    assert_eq!(child_path("/fixture", "notes.txt").unwrap(), "/fixture/notes.txt");
    assert!(child_path("/fixture", "../escape").is_err());
    assert!(child_path("/fixture", "nested/name").is_err());
    assert_eq!(
        child_path("/fixture", "a\nb/..").unwrap_err(),
        io(
            IoErrorKind::InvalidData,
            "server returned an invalid child name: \"a\\nb/..\""
        )
    );
    assert_eq!(child_path("", "name/.").unwrap(), "name/.");
    assert!(child_path("/", "./name").is_err());
    assert!(child_path("/", "").is_err());
}

#[test]
fn relative_paths_stay_below_the_requested_root() {
    assert_eq!(
        descendant_path("~/fixture", "docs/guide.md").unwrap(),
        "~/fixture/docs/guide.md"
    );
    for invalid in ["", "/escape", "../escape", "nested/../../escape"] {
        assert_eq!(
            descendant_path("/fixture", invalid).unwrap_err().kind(),
            IoErrorKind::InvalidData
        );
    }
}

#[test]
fn performance_rate_handles_zero_and_nonzero_durations() {
    assert_eq!(entries_per_second(10, 0), 0);
    assert_eq!(entries_per_second(6, 2_000_000_000), 3);
    assert_eq!(entries_per_second(u64::MAX, 1), u128::from(u64::MAX) * 1_000_000_000);
}

fn write_all(parent: &str, names: &[&str]) -> (String, ListStats) {
    let mut stats = ListStats::new();
    let mut output = String::new();
    for name in names {
        output.push_str(&stats.write_listing(parent, Ok(name)).unwrap().text);
    }
    (output, stats)
}

fn walk_all(root: &str, paths: &[&str]) -> (String, WalkStats) {
    let mut stats = WalkStats::new();
    let mut output = String::new();
    for path in paths {
        output.push_str(&stats.write_walk(root, Ok(path)).unwrap().text);
    }
    (output, stats)
}

#[test]
fn writes_child_paths_from_the_listing_stream() {
    let (output, stats) = write_all("/fixture", &["notes.txt", "docs"]);
    assert_eq!(output, "/fixture/notes.txt\n/fixture/docs\n");
    assert_eq!(stats, ListStats { entries: 2 });
}

#[test]
fn empty_listing_writes_nothing() {
    let (output, stats) = write_all("/fixture", &[]);
    assert!(output.is_empty());
    assert_eq!(stats, ListStats { entries: 0 });
}

#[test]
fn empty_walk_writes_nothing() {
    let (output, stats) = walk_all("/fixture", &[]);
    assert!(output.is_empty());
    assert_eq!(stats, WalkStats { entries: 0 });
}

#[test]
fn list_flushes_output_at_the_entry_interval() {
    let mut stats = ListStats::new();
    let mut flushes = 0;
    for index in 0..OUTPUT_FLUSH_INTERVAL {
        if stats.write_listing("/fixture", Ok(&format!("file-{index}"))).unwrap().flush {
            flushes += 1;
        }
    }
    assert_eq!(stats, ListStats { entries: OUTPUT_FLUSH_INTERVAL });
    assert_eq!(flushes, 1);
}

#[test]
fn listing_stream_errors_are_returned() {
    let mut stats = ListStats::new();
    let error = stats
        .write_listing("/fixture", Err(io(IoErrorKind::Other, "listing failed")))
        .expect_err("stream error should fail the listing");
    assert_eq!(error.to_string(), "listing failed");
}

#[test]
fn invalid_child_names_are_rejected() {
    let mut stats = ListStats::new();
    let error = stats
        .write_listing("/fixture", Ok("../escape"))
        .expect_err("invalid child name should fail the listing");
    assert_eq!(error.kind(), IoErrorKind::InvalidData);
    assert_eq!(stats.entries, 0);
}

#[test]
fn writes_preorder_descendant_paths() {
    let (output, stats) = walk_all("/fixture", &["docs", "docs/guide.md", "notes.txt"]);
    assert_eq!(output, "/fixture/docs\n/fixture/docs/guide.md\n/fixture/notes.txt\n");
    assert_eq!(stats, WalkStats { entries: 3 });
}

#[test]
fn walk_flushes_output_at_the_entry_interval() {
    let mut stats = WalkStats::new();
    let mut flushes = 0;
    for index in 0..OUTPUT_FLUSH_INTERVAL {
        if stats.write_walk("/fixture", Ok(&format!("file-{index}"))).unwrap().flush {
            flushes += 1;
        }
    }
    assert_eq!(stats, WalkStats { entries: OUTPUT_FLUSH_INTERVAL });
    assert_eq!(flushes, 1);
}

#[test]
fn stream_errors_preserve_prior_output() {
    let mut stats = WalkStats::new();
    let kept = stats.write_walk("/fixture", Ok("kept.txt")).unwrap();
    assert_eq!(kept.text, "/fixture/kept.txt\n");
    let error = stats
        .write_walk("/fixture", Err(io(IoErrorKind::Other, "walk failed")))
        .expect_err("stream error should fail the walk");
    assert_eq!(error.to_string(), "walk failed");
    assert_eq!(stats.entries, 1);
}

#[test]
fn runs_report_their_own_failure_first() {
    let mine = || io(IoErrorKind::NotFound, "mine");
    assert_eq!(finish_run(Err(mine()), Err("theirs".into())), Err(mine()));
    assert_eq!(finish_run(Ok(()), Err("theirs".into())), Err(io(IoErrorKind::Other, "theirs")));
    assert_eq!(finish_run(Ok(()), Ok(())), Ok(()));
}

#[test]
fn probes_echo_the_destination() {
    assert_eq!(probe_command("it's"), "echo 'Connect to it'\"'\"'s'\nexit\n");
    assert_eq!(last_line("a\nb\r\n"), Some("b".into()));
    assert_eq!(last_line("a\nb\r"), Some("b\r".into()));
    assert_eq!(last_line(""), None);
    assert_eq!(last_line("a\n\n"), Some(String::new()));
}

#[test]
fn generated_session_ids_are_unique_uuids() {
    let first = new_session_id();
    let second = new_session_id();
    uuid::Uuid::parse_str(&first).expect("first ID should be a UUID");
    uuid::Uuid::parse_str(&second).expect("second ID should be a UUID");
    assert_ne!(first, second);
}

#[test]
fn sessions_are_retained_until_closed() {
    let mut client: Client<&str> = Client::new();
    assert_eq!(client.start_session("one".into(), "first").unwrap(), "one");
    assert_eq!(client.start_session("two".into(), "second").unwrap(), "two");
    assert_eq!(client.get_session("one"), Some(&"first"));
    let (returned, error) = client.start_session("one".into(), "again").unwrap_err();
    assert_eq!(returned, "again");
    assert_eq!(
        error.to_string(),
        "failed to start session backend: generated duplicate Session UUID"
    );
    assert_eq!(client.close_session("one".into()).unwrap(), "first");
    assert_eq!(client.get_session("one"), None);
    assert_eq!(client.get_session("two"), Some(&"second"));
}

#[test]
fn unknown_session_ids_are_reported() {
    let mut client: Client<u8> = Client::new();
    assert_eq!(client.get_session("missing"), None);
    let error = client.close_session("missing".into()).unwrap_err();
    assert_eq!(error, ClientCloseSessionError::NotFound { id: "missing".into() });
    assert_eq!(error.to_string(), "session not found: missing");
    let error =
        ClientCloseSessionError::from(SessionShutdownError::Backend { message: "stuck".into() });
    assert_eq!(error.to_string(), "failed to shut down session backend: stuck");
}

#[test]
fn session_local_target_is_retained() {
    let session: Session<()> = Session::closed("local-id".into(), SessionTarget::Local);
    assert_eq!(session.id(), "local-id");
    assert_eq!(session.target(), SessionTarget::Local);
}

#[test]
fn session_remote_target_is_retained() {
    let session: Session<()> = Session::closed("remote-id".into(), remote());
    assert_eq!(session.target(), remote());
}

#[test]
fn mod_local_target_is_retained() {
    let session = Session::start("local-id".into(), SessionTarget::Local, Ok(5u8)).unwrap();
    assert_eq!(session.id(), "local-id");
    assert_eq!(session.target(), SessionTarget::Local);
}

#[test]
fn mod_remote_target_is_retained() {
    let session = Session::start("remote-id".into(), remote(), Ok(5u8)).unwrap();
    assert_eq!(session.target(), remote());
}

#[test]
fn mod_close_is_idempotent() {
    let mut session = Session::start("close-id".into(), SessionTarget::Local, Ok(5u8)).unwrap();
    assert_eq!(session.take_backend(), Some(5));
    assert_eq!(close(Some(Ok(()))), Ok(()));
    assert_eq!(session.take_backend(), None);
    assert_eq!(close(None), Ok(()));
}

#[test]
fn failed_close_is_terminal() {
    let mut session = Session::start("id".into(), SessionTarget::Local, Ok(5u8)).unwrap();
    assert_eq!(session.backend(), Ok(&5));
    session.take_backend();
    assert_eq!(
        close(Some(Err(io(IoErrorKind::Other, "fixture shutdown failure")))).unwrap_err(),
        SessionShutdownError::Backend { message: "fixture shutdown failure".into() }
    );
    assert_eq!(session.backend().unwrap_err().to_string(), "session is closed");
    assert_eq!(close(None), Ok(()));
}

#[test]
fn op_resolve_path_rejects_a_closed_session() {
    let session: Session<u8> = Session::closed("resolve-path-id".into(), SessionTarget::Local);
    let error = session.backend().unwrap_err();
    assert_eq!(error.kind(), IoErrorKind::NotConnected);
    assert_eq!(error.to_string(), "session is closed");
}

#[test]
fn op_resolve_path_uniffi_maps_native_errors() {
    let session: Session<u8> = Session::closed("id".into(), SessionTarget::Local);
    let error = ResolvePathError::from(session.backend().unwrap_err());
    assert_eq!(error, ResolvePathError::Operation { message: "session is closed".into() });
    assert_eq!(error.to_string(), "resolve-path operation failed: session is closed");
}

#[test]
fn op_current_root_uniffi_maps_native_errors() {
    let session: Session<u8> = Session::closed("id".into(), SessionTarget::Local);
    let error = CurrentRootError::from(session.backend().unwrap_err());
    assert_eq!(error, CurrentRootError::Operation { message: "session is closed".into() });
    assert_eq!(error.to_string(), "current-root operation failed: session is closed");
}

#[test]
fn sessions_report_start_and_close_failures() {
    let down = || io(IoErrorKind::TimedOut, "down");
    assert_eq!(
        Session::<u8>::start("id".into(), SessionTarget::Local, Err(down())).unwrap_err(),
        SessionStartError::Backend { message: "down".into() }
    );
    let config = || SessionConfig { target: remote() };
    let error = Session::<u8>::connect("id".into(), config(), Err(down())).unwrap_err();
    assert_eq!(error, ConnectError::ServerStart { message: "down".into() });
    assert_eq!(error.to_string(), "failed to start server: down");
    let error = close_connection(Some(Err(down()))).unwrap_err();
    assert_eq!(error, CloseError::ServerShutdown { message: "down".into() });
    assert_eq!(error.to_string(), "failed to shut down server: down");
    assert_eq!(
        SessionStartError::Backend { message: "x".into() }.to_string(),
        "failed to start session backend: x"
    );
    assert_eq!(
        SessionShutdownError::Backend { message: "x".into() }.to_string(),
        "failed to shut down session backend: x"
    );
    assert_eq!(
        connection_config(config()),
        ConnectionConfig::Remote { destination: "example.test".into(), force_install: false }
    );
    assert_eq!(
        Session::connect("id".into(), config(), Ok(1u8)).unwrap().backend(),
        Ok(&1)
    );
}

fn sent(name: &str, kind: i32) -> ListingEntry {
    ListingEntry { name: name.into(), kind, navigable: kind == KIND_DIRECTORY }
}

fn entry(name: &str, kind: EntryKind) -> DirectoryEntry {
    DirectoryEntry { name: name.into(), kind, navigable: kind == EntryKind::Directory }
}

#[test]
fn list_converts_complete_batches_in_order() {
    assert_eq!(
        convert_batch(&vec![sent("one", KIND_FILE), sent("two", KIND_DIRECTORY)]).unwrap(),
        [entry("one", EntryKind::File), entry("two", EntryKind::Directory)]
    );
}

#[test]
fn list_dir_converts_complete_batches_in_order() {
    assert_eq!(
        convert_batch(&vec![
            sent("one", KIND_FILE),
            sent("two", KIND_DIRECTORY),
            sent("three", KIND_SYMLINK),
            sent("four", KIND_OTHER),
        ])
        .unwrap(),
        [
            entry("one", EntryKind::File),
            entry("two", EntryKind::Directory),
            entry("three", EntryKind::Symlink),
            entry("four", EntryKind::Other),
        ]
    );
}

#[test]
fn rejects_empty_batches_and_unspecified_kinds() {
    assert_eq!(convert_batch(&vec![]).unwrap_err().kind(), IoErrorKind::InvalidData);
    assert_eq!(
        convert_batch(&vec![sent("unknown", KIND_UNSPECIFIED)]).unwrap_err().kind(),
        IoErrorKind::InvalidData
    );
}

#[test]
fn rejects_empty_batches_and_invalid_kinds() {
    assert_eq!(
        convert_batch(&vec![]).unwrap_err(),
        io(IoErrorKind::InvalidData, "server returned an empty listing batch")
    );
    assert_eq!(
        convert_batch(&vec![sent("unknown", KIND_UNSPECIFIED)]).unwrap_err(),
        io(IoErrorKind::InvalidData, "server returned an unspecified entry kind")
    );
    assert_eq!(
        convert_batch(&vec![sent("ok", KIND_FILE), sent("unknown", i32::MAX)]).unwrap_err(),
        io(IoErrorKind::InvalidData, "server returned unknown entry kind 2147483647")
    );
    assert_eq!(
        convert_batch(&vec![sent("unknown", -1)]).unwrap_err().to_string(),
        "server returned unknown entry kind -1"
    );
}

#[test]
fn listing_batches_or_refusals_become_items() {
    assert_eq!(
        list_items(Ok(vec![sent("one", KIND_FILE)])).unwrap(),
        [entry("one", EntryKind::File)]
    );
    let status = GrpcStatus { code: GrpcCode::Unavailable, message: "lost".into() };
    assert_eq!(
        list_items(Err(status)).unwrap_err(),
        io(IoErrorKind::ConnectionAborted, "lost")
    );
}

#[test]
fn native_and_remote_fs_errors_have_identical_public_results() {
    let cases = [
        (FsErrorKind::InvalidArgument, GrpcCode::InvalidArgument),
        (FsErrorKind::NotFound, GrpcCode::NotFound),
        (FsErrorKind::PermissionDenied, GrpcCode::PermissionDenied),
        (FsErrorKind::NotDirectory, GrpcCode::FailedPrecondition),
        (FsErrorKind::Cancelled, GrpcCode::Cancelled),
        (FsErrorKind::Internal, GrpcCode::Internal),
    ];
    for (kind, code) in cases {
        let native = fs_error(&FsError { kind, message: "fixture failure".into() });
        let remote =
            operation_status_error(&GrpcStatus { code, message: "fixture failure".into() });
        assert_eq!(native.kind(), remote.kind());
        assert_eq!(native.to_string(), remote.to_string());
    }
}

#[test]
fn native_and_remote_read_wrong_type_errors_match() {
    let native =
        fs_error(&FsError { kind: FsErrorKind::NotFile, message: "fixture failure".into() });
    let remote = read_status_error(&GrpcStatus {
        code: GrpcCode::FailedPrecondition,
        message: "fixture failure".into(),
    });
    assert_eq!(native.kind(), IoErrorKind::IsADirectory);
    assert_eq!(native.kind(), remote.kind());
    assert_eq!(native.to_string(), remote.to_string());
}

#[test]
fn network_read_stream_preserves_chunks_and_maps_terminal_errors() {
    let mut whole = NetworkRead::new();
    let mut contents = Vec::new();
    for chunk in [b"first".to_vec(), b" second".to_vec()] {
        contents.extend(whole.receive(ReadEvent::Chunk(chunk)).unwrap().unwrap());
    }
    assert_eq!(whole.receive(ReadEvent::End), None);
    assert_eq!(contents, b"first second");

    let mut read = NetworkRead::new();
    assert_eq!(
        read.receive(ReadEvent::Chunk(b"kept".to_vec())),
        Some(Ok(b"kept".to_vec()))
    );
    let denied = GrpcStatus { code: GrpcCode::PermissionDenied, message: "denied".into() };
    let error = read.receive(ReadEvent::Refused(denied)).unwrap().unwrap_err();
    assert_eq!(error.kind(), IoErrorKind::PermissionDenied);
    assert_eq!(error.to_string(), "denied");
    assert_eq!(read.receive(ReadEvent::Chunk(b"discarded".to_vec())), None);
}

#[test]
fn network_read_stream_rejects_empty_chunks_terminally() {
    let mut read = NetworkRead::new();
    let error = read.receive(ReadEvent::Chunk(Vec::new())).unwrap().unwrap_err();
    assert_eq!(error.kind(), IoErrorKind::InvalidData);
    assert_eq!(error.to_string(), "server returned an empty read chunk");
    assert_eq!(read.receive(ReadEvent::Chunk(b"discarded".to_vec())), None);
}

fn walked(path: &str, depth: u64) -> ProtocolWalkEntry {
    ProtocolWalkEntry {
        relative_path: path.into(),
        entry: Some(sent(path.rsplit('/').next().unwrap(), KIND_FILE)),
        depth,
    }
}

fn drain(walk: &mut NetworkWalk, paths: &mut Vec<String>) {
    while let Some(entry) = walk.next_pending() {
        paths.push(entry.relative_path);
    }
}

#[test]
fn preserves_order_across_batches() {
    let mut walk = NetworkWalk::new();
    let mut paths = Vec::new();
    walk.receive(WalkEvent::Batch(vec![walked("one", 1), walked("dir/two", 2)])).unwrap();
    drain(&mut walk, &mut paths);
    walk.receive(WalkEvent::Batch(vec![walked("three", 1)])).unwrap();
    drain(&mut walk, &mut paths);
    walk.receive(WalkEvent::End).unwrap();
    assert_eq!(paths, ["one", "dir/two", "three"]);
    assert!(!walk.is_open());
}

#[test]
fn rejects_malformed_batches_terminally() {
    let mut unknown = walked("unknown", 1);
    unknown.entry = Some(sent("unknown", i32::MAX));
    let mut missing = walked("missing", 1);
    missing.entry = None;
    let cases = [
        (Vec::new(), "server returned an empty walk batch"),
        (vec![walked("", 1)], "server returned an invalid walk relative path"),
        (vec![walked("/absolute", 1)], "server returned an invalid walk relative path"),
        (vec![walked("../parent", 2)], "server returned an invalid walk relative path"),
        (vec![walked("zero", 0)], "server returned walk depth 0"),
        (vec![missing], "server returned a walk entry without listing metadata"),
        (vec![unknown], "server returned unknown entry kind 2147483647"),
    ];
    for (entries, words) in cases {
        let mut walk = NetworkWalk::new();
        let error = walk.receive(WalkEvent::Batch(entries)).unwrap_err();
        assert_eq!(error, io(IoErrorKind::InvalidData, words));
        assert!(!walk.is_open());
        assert!(walk.next_pending().is_none());
    }
}

#[test]
fn preserves_prior_entries_before_transport_errors() {
    let mut walk = NetworkWalk::new();
    walk.receive(WalkEvent::Batch(vec![walked("kept", 1)])).unwrap();
    assert_eq!(walk.next_pending().unwrap().relative_path, "kept");
    let lost = GrpcStatus { code: GrpcCode::Unavailable, message: "lost".into() };
    assert!(walk.receive(WalkEvent::Refused(lost)).is_err());
    assert!(!walk.is_open());
}

#[test]
fn walk_entry_shape_is_transport_independent() {
    let entry = WalkEntry {
        relative_path: "dir/file".into(),
        entry: entry("file", EntryKind::File),
        depth: 2,
    };
    assert_eq!(entry.depth, 2);
}

#[test]
fn rejects_non_absolute_path_responses() {
    let error = validate_absolute_path("relative/path".into(), "resolved path").unwrap_err();
    assert_eq!(error.kind(), IoErrorKind::InvalidData);
    assert_eq!(error.to_string(), "server returned a non-absolute resolved path");
    assert_eq!(validate_absolute_path("/x".into(), "resolved path").unwrap(), "/x");
}

#[test]
fn accepts_only_absolute_current_roots() {
    assert_eq!(validate_current_root("/remote/home".into()).unwrap(), "/remote/home");
    assert_eq!(
        validate_current_root("relative/root".into()).unwrap_err().kind(),
        IoErrorKind::InvalidData
    );
}

#[test]
fn yields_batches_then_completes_idempotently() {
    let mut listing = Listing::new();
    let batch = || vec![entry("one", EntryKind::File), entry("two", EntryKind::File)];
    assert_eq!(listing.next_batch(Ok(Some(batch()))).unwrap(), Some(batch()));
    assert_eq!(listing.next_batch::<DirectoryEntry>(Ok(None)).unwrap(), None);
    assert_eq!(listing.next_batch(Ok(Some(batch()))).unwrap(), None);
}

#[test]
fn yields_entries_then_completes_idempotently() {
    let mut listing = Listing::new();
    let one = || entry("one", EntryKind::File);
    assert_eq!(listing.next_entry(Ok(Some(one()))).unwrap(), Some(one()));
    assert_eq!(listing.next_entry::<DirectoryEntry>(Ok(None)).unwrap(), None);
    assert!(!listing.is_active());
    assert_eq!(listing.next_entry(Ok(Some(one()))).unwrap(), None);
}

#[test]
fn listing_repeats_terminal_stream_errors() {
    let mut listing = Listing::new();
    let first = listing
        .next_entry::<DirectoryEntry>(Err(io(IoErrorKind::UnexpectedEof, "closed")))
        .unwrap_err();
    assert_eq!(listing.next_entry::<DirectoryEntry>(Ok(None)).unwrap_err(), first);
    assert_eq!(first, ListError::Operation { message: "closed".into() });
    assert_eq!(first.to_string(), "listing failed: closed");
}

#[test]
fn absolute_platform_cache_bases_use_the_platform_namespace() {
    for macos in [false, true] {
        assert_eq!(
            cache_root_from(Some("/platform/cache".into()), "/temporary", macos),
            format!("/platform/cache/{}/open-files", application_cache_namespace(macos))
        );
    }
}

#[test]
fn macos_preserves_the_capitalized_cache_namespace() {
    assert_eq!(
        cache_root_from(Some("/Users/fixture/Library/Caches".into()), "/temporary", true),
        "/Users/fixture/Library/Caches/FilePeeker/open-files"
    );
}

#[test]
fn non_macos_platforms_use_the_lowercase_cache_namespace() {
    assert_eq!(
        cache_root_from(Some("/home/fixture/.cache".into()), "/temporary", false),
        "/home/fixture/.cache/file-peeker/open-files"
    );
}

#[test]
fn missing_platform_cache_bases_use_the_temp_fallback() {
    assert_eq!(
        cache_root_from(None, "/temporary", false),
        "/temporary/file-peeker/open-files"
    );
}

#[test]
fn relative_platform_cache_bases_use_the_temp_fallback() {
    assert_eq!(
        cache_root_from(Some("relative-cache".into()), "/temporary", true),
        "/temporary/file-peeker/open-files"
    );
}

fn staged() -> StageDownload {
    FileStager::new("/cache".into())
        .stage_as("session", "/remote/reports/example.data", "d1", "p1")
        .unwrap()
}

fn receiving() -> StageDownload {
    let mut download = staged();
    for _ in 0..3 {
        download = download
            .advance(StageEvent::DirectoryMade(Ok(())))
            .advance(StageEvent::DirectorySecured(Ok(())));
    }
    download.advance(StageEvent::PartialCreated(Ok(())))
}

#[test]
fn creates_a_missing_private_cache_hierarchy() {
    let mut download = staged();
    for path in ["/cache", "/cache/session", "/cache/session/d1"] {
        assert_eq!(download.action(), StageAction::MakeDirectory { path });
        download = download.advance(StageEvent::DirectoryMade(Ok(())));
        assert_eq!(download.action(), StageAction::SetMode { path, mode: 0o700 });
        download = download.advance(StageEvent::DirectorySecured(Ok(())));
    }
    let partial = "/cache/session/d1/.example.data.p1.partial";
    assert_eq!(download.action(), StageAction::CreateFile { path: partial, mode: 0o600 });
    let download = download.advance(StageEvent::PartialCreated(Ok(())));
    assert_eq!(download.action(), StageAction::Receive);
    let download = download.advance(StageEvent::Received(Some(Ok(b"x".to_vec()))));
    assert_eq!(download.action(), StageAction::Write { chunk: b"x" });
    let download =
        download.advance(StageEvent::Written(Ok(()))).advance(StageEvent::Received(None));
    assert_eq!(download.action(), StageAction::Flush);
    let download = download.advance(StageEvent::Flushed(Ok(())));
    assert_eq!(
        download.action(),
        StageAction::Rename { from: partial, to: "/cache/session/d1/example.data" }
    );
    let failed = receiving().advance(StageEvent::Received(Some(Err(io(IoErrorKind::Other, "x")))));
    assert_eq!(failed.action(), StageAction::RemoveFile { path: partial });
    let published = download.advance(StageEvent::Renamed(Ok(())));
    assert_eq!(published.action(), StageAction::Nothing);
}

#[test]
fn staged_files_keep_their_basename() {
    let download = staged();
    assert_eq!(download.session_dir, "/cache/session");
    assert_eq!(download.destination_dir, "/cache/session/d1");
    assert_eq!(download.final_path, "/cache/session/d1/example.data");
    assert_eq!(download.partial_path, "/cache/session/d1/.example.data.p1.partial");
    let download = receiving()
        .advance(StageEvent::Received(Some(Ok(b"first ".to_vec()))));
    assert_eq!(download.phase, StagePhase::Write(b"first ".to_vec()));
    let download = download
        .advance(StageEvent::Written(Ok(())))
        .advance(StageEvent::Received(None))
        .advance(StageEvent::Flushed(Ok(())))
        .advance(StageEvent::Renamed(Ok(())));
    assert_eq!(download.phase, StagePhase::Published);
}

#[test]
fn staged_files_do_not_collide() {
    let stager = FileStager::new("/cache".into());
    let first = stager.stage_download("session", "/a/report.txt").unwrap();
    let second = stager.stage_download("session", "/b/report.txt").unwrap();
    assert_ne!(first.final_path, second.final_path);
    assert!(first.final_path.ends_with("/report.txt"));
    let empty = receiving()
        .advance(StageEvent::Received(None))
        .advance(StageEvent::Flushed(Ok(())))
        .advance(StageEvent::Renamed(Ok(())));
    assert_eq!(empty.phase, StagePhase::Published);
}

#[test]
fn stream_errors_remove_the_partial_file() {
    let reset = io(IoErrorKind::ConnectionReset, "fixture reset");
    let download = receiving().advance(StageEvent::Received(Some(Err(reset))));
    let expected = io(
        IoErrorKind::ConnectionReset,
        "cannot download `/remote/reports/example.data` into the application cache: fixture reset",
    );
    assert_eq!(download.phase, StagePhase::RemovePartial(expected.clone()));
    assert_eq!(
        download.advance(StageEvent::PartialRemoved).phase,
        StagePhase::Failed(expected)
    );
}

#[test]
fn failed_publishing_removes_the_partial_file() {
    let denied = io(IoErrorKind::PermissionDenied, "denied");
    let download = receiving()
        .advance(StageEvent::Received(None))
        .advance(StageEvent::Flushed(Ok(())))
        .advance(StageEvent::Renamed(Err(denied)));
    assert_eq!(
        download.phase,
        StagePhase::RemovePartial(io(
            IoErrorKind::PermissionDenied,
            "cannot publish downloaded file `/cache/session/d1/example.data`: denied"
        ))
    );
}

#[test]
fn staging_failures_name_the_directory() {
    let full = || io(IoErrorKind::Other, "full");
    assert_eq!(
        staged().advance(StageEvent::DirectoryMade(Err(full()))).phase,
        StagePhase::Failed(io(IoErrorKind::Other, "cannot create cache directory `/cache`: full"))
    );
    let disk = receiving()
        .advance(StageEvent::Received(Some(Ok(b"x".to_vec()))))
        .advance(StageEvent::Written(Err(io(IoErrorKind::StorageFull, "no space left"))));
    assert!(matches!(
        disk.phase,
        StagePhase::RemovePartial(IoError { kind: IoErrorKind::StorageFull, .. })
    ));
    let mut download = staged();
    download.phase = StagePhase::SecureDirectory(CacheDirectory::Session);
    assert_eq!(
        download.advance(StageEvent::DirectorySecured(Err(full()))).phase,
        StagePhase::Failed(io(
            IoErrorKind::Other,
            "cannot set private permissions on cache directory `/cache/session`: full"
        ))
    );
}

#[test]
fn rejects_paths_without_a_filename() {
    let stager = FileStager::new("/cache".into());
    for path in ["/", "", ".", "..", "/a/.."] {
        let error = stager.stage_download("session", path).unwrap_err();
        assert_eq!(
            error,
            io(
                IoErrorKind::InvalidInput,
                &format!("source path `{path}` has no usable filename")
            )
        );
    }
}

#[test]
fn rejects_relative_cache_roots() {
    let error = FileStager::new("relative-cache".into())
        .stage_download("session", "/remote/file.txt")
        .unwrap_err();
    assert_eq!(error.kind(), IoErrorKind::InvalidInput);
    assert_eq!(error.to_string(), "cache root `relative-cache` is not absolute");
}

#[test]
fn guards_let_go_once_disarmed() {
    let mut guard = PartialFileGuard::new("/p".into());
    assert_eq!(guard.take(), Some("/p".into()));
    assert_eq!(guard.take(), None);
    let mut guard = PartialFileGuard::new("/p".into());
    guard.disarm();
    assert_eq!(guard.take(), None);
}

fn opening(target: SessionTarget) -> OpenFile {
    OpenFile::op_open_file(true, target, "report.txt".into()).unwrap()
}

#[test]
fn local_files_open_in_place() {
    let file = opening(SessionTarget::Local)
        .advance(OpenEvent::Resolved(Ok("/existing/report.txt".into())))
        .advance(OpenEvent::ReadStarted(Ok(())));
    assert_eq!(file.phase, OpenPhase::Open("/existing/report.txt".into()));
    assert_eq!(file.advance(OpenEvent::Opened(Ok(()))).phase, OpenPhase::Opened);
}

#[test]
fn unreadable_files_are_not_opened() {
    let file = opening(remote())
        .advance(OpenEvent::Resolved(Err(io(IoErrorKind::NotFound, "fixture resolve failed"))));
    assert_eq!(
        file.phase,
        OpenPhase::Failed(io(
            IoErrorKind::NotFound,
            "cannot resolve file path `report.txt`: fixture resolve failed"
        ))
    );
    let file = opening(remote())
        .advance(OpenEvent::Resolved(Ok("/remote/unreadable.txt".into())))
        .advance(OpenEvent::ReadStarted(Err(io(
            IoErrorKind::PermissionDenied,
            "fixture read start failed",
        ))));
    assert_eq!(
        file.phase,
        OpenPhase::Failed(io(
            IoErrorKind::PermissionDenied,
            "cannot start reading `/remote/unreadable.txt`: fixture read start failed"
        ))
    );
}

#[test]
fn failed_copies_are_not_opened() {
    let file = opening(remote())
        .advance(OpenEvent::Resolved(Ok("/remote/broken.txt".into())))
        .advance(OpenEvent::ReadStarted(Ok(())));
    assert_eq!(file.phase, OpenPhase::Stage("/remote/broken.txt".into()));
    let file = file.advance(OpenEvent::Staged(Err(io(
        IoErrorKind::ConnectionReset,
        "fixture stream reset",
    ))));
    assert_eq!(
        file.phase,
        OpenPhase::Failed(io(
            IoErrorKind::ConnectionReset,
            "cannot stage remote file `/remote/broken.txt`: fixture stream reset"
        ))
    );
}

#[test]
fn refused_openings_are_reported() {
    let file = opening(remote())
        .advance(OpenEvent::Resolved(Ok("/remote/report.txt".into())))
        .advance(OpenEvent::ReadStarted(Ok(())))
        .advance(OpenEvent::Staged(Ok("/cache/report.txt".into())))
        .advance(OpenEvent::Opened(Err(io(
            IoErrorKind::PermissionDenied,
            "fixture opener denied the request",
        ))));
    assert_eq!(
        file.phase,
        OpenPhase::Failed(io(
            IoErrorKind::PermissionDenied,
            "cannot open file `/cache/report.txt`: fixture opener denied the request"
        ))
    );
}

#[test]
fn closed_sessions_open_nothing() {
    let error = OpenFile::op_open_file(false, SessionTarget::Local, "anything".into()).unwrap_err();
    assert_eq!(error.kind(), IoErrorKind::NotConnected);
}

#[test]
fn ssh_open_is_a_successful_no_op() {
    assert_eq!(open(&remote(), "/remote/report.txt"), None);
}

#[test]
fn local_open_passes_option_separator_and_path_verbatim() {
    assert_eq!(
        open(&SessionTarget::Local, "-report with spaces.txt").unwrap(),
        ["--", "-report with spaces.txt"]
    );
}

#[test]
fn local_open_maps_spawn_failure_to_io() {
    assert_eq!(
        open_local("file.txt", Err(io(IoErrorKind::NotFound, "missing"))).unwrap_err(),
        FilePeekerError::Io {
            message: "cannot open `file.txt` with the system application: missing".into()
        }
    );
}

#[test]
fn local_open_maps_unsuccessful_exit_to_io() {
    assert_eq!(
        open_local("file.txt", Ok((false, "exit status: 1".into()))).unwrap_err(),
        FilePeekerError::Io {
            message: "system application failed to open `file.txt`: exit status: 1".into()
        }
    );
    assert_eq!(open_local("file.txt", Ok((true, "exit status: 0".into()))), Ok(()));
}

#[test]
fn system_openers_are_judged() {
    assert_eq!(
        system_open(OpenerOutcome::Unsupported).unwrap_err(),
        io(IoErrorKind::Unsupported, "opening files is supported only on macOS")
    );
    assert_eq!(
        system_open(OpenerOutcome::Exited { success: false, status: "exit status: 1".into() })
            .unwrap_err(),
        io(IoErrorKind::Other, "/usr/bin/open exited unsuccessfully with exit status: 1")
    );
    assert_eq!(
        system_open(OpenerOutcome::Exited { success: true, status: "exit status: 0".into() }),
        Ok(())
    );
}

#[test]
fn relative_paths_become_absolute() {
    assert_eq!(absolute_utf8_path(".", Ok(b"/work".to_vec())).unwrap(), "/work/.");
    assert_eq!(absolute_utf8_path("a", Ok(b"/".to_vec())).unwrap(), "/a");
    assert_eq!(
        absolute_utf8_path("/x", Err(io(IoErrorKind::NotFound, "gone"))).unwrap(),
        "/x"
    );
    assert_eq!(
        absolute_utf8_path("", Ok(b"/work".to_vec())).unwrap_err(),
        FilePeekerError::InvalidPath { message: "path is required".into() }
    );
    assert_eq!(
        absolute_utf8_path("x", Err(io(IoErrorKind::NotFound, "gone"))).unwrap_err(),
        FilePeekerError::Io { message: "cannot read current directory: gone".into() }
    );
    assert_eq!(
        absolute_utf8_path("x", Ok(b"/\xff".to_vec())).unwrap_err(),
        FilePeekerError::InvalidPath { message: "path must be valid UTF-8".into() }
    );
}

#[test]
fn operations_are_greeted_and_answered() {
    assert_eq!(handshake_operation(ServerMessage::HelloOk { version: 1 }), Ok(()));
    assert_eq!(
        handshake_operation(ServerMessage::HelloOk { version: 2 }).unwrap_err(),
        FilePeekerError::Protocol {
            message: "unexpected operation handshake response: HelloOk { version: 2 }".into()
        }
    );
    let refused =
        || ServerMessage::Error { code: ErrorCode::InvalidPath, message: "odd".into() };
    assert_eq!(
        handshake_operation(refused()).unwrap_err(),
        FilePeekerError::InvalidPath { message: "odd".into() }
    );
    assert_eq!(
        current_root(ServerMessage::CurrentRoot { path: "/r".into() }).unwrap(),
        "/r"
    );
    assert_eq!(
        current_root(ServerMessage::Done).unwrap_err(),
        FilePeekerError::Protocol { message: "unexpected current-root response: Done".into() }
    );
    assert_eq!(
        open_failure("listing", &io(IoErrorKind::NotFound, "gone")),
        FilePeekerError::ConnectionClosed {
            message: "cannot open listing connection: gone".into()
        }
    );
}

fn closed_words(message: &str) -> ExchangePhase {
    ExchangePhase::Failed(FilePeekerError::ConnectionClosed { message: message.into() })
}

fn protocol_words(message: &str) -> ExchangePhase {
    ExchangePhase::Failed(FilePeekerError::Protocol { message: message.into() })
}

#[test]
fn messages_are_exchanged_byte_by_byte() {
    let phase = exchange_message(ExchangePhase::Encode, ExchangeEvent::Encoded(Ok(())));
    let mut phase = exchange_message(phase, ExchangeEvent::Written(Ok(())));
    for byte in b"{}" {
        phase = exchange_message(phase, ExchangeEvent::ByteRead(Ok(Some(*byte))));
    }
    let phase = exchange_message(phase, ExchangeEvent::ByteRead(Ok(Some(b'\n'))));
    assert_eq!(phase, ExchangePhase::Decode(b"{}".to_vec()));
    let phase = exchange_message(phase, ExchangeEvent::Decoded(Ok(ServerMessage::Done)));
    assert_eq!(phase, ExchangePhase::Answered(ServerMessage::Done));
}

#[test]
fn failed_exchanges_name_the_step() {
    let lost = || io(IoErrorKind::BrokenPipe, "lost");
    let read = || ExchangePhase::Read(Frame::new());
    assert_eq!(
        exchange_message(ExchangePhase::Encode, ExchangeEvent::Encoded(Err("odd".into()))),
        protocol_words("cannot encode client message: odd")
    );
    assert_eq!(
        exchange_message(ExchangePhase::Write, ExchangeEvent::Written(Err(lost()))),
        closed_words("cannot write server request: lost")
    );
    assert_eq!(
        exchange_message(read(), ExchangeEvent::ByteRead(Err(lost()))),
        closed_words("cannot read server response: lost")
    );
    assert_eq!(
        exchange_message(read(), ExchangeEvent::ByteRead(Ok(None))),
        closed_words("server closed the operation connection")
    );
    assert_eq!(
        exchange_message(
            ExchangePhase::Decode(Vec::new()),
            ExchangeEvent::Decoded(Err("EOF".into()))
        ),
        protocol_words("server returned invalid JSON: EOF")
    );
    let mut phase = read();
    for _ in 0..=MAX_MESSAGE_BYTES {
        phase = exchange_message(phase, ExchangeEvent::ByteRead(Ok(Some(b'x'))));
    }
    assert_eq!(phase, protocol_words("server response exceeds the size limit"));
}

#[test]
fn listings_end_with_anything_but_an_entry() {
    let entry = || PathEntry {
        path: "/a".into(),
        name: "a".into(),
        kind: EntryKind::File,
        navigable: false,
    };
    let item = run_listing(Ok(ServerMessage::Entry {
        path: "/a".into(),
        name: "a".into(),
        kind: EntryKind::File,
        navigable: false,
    }));
    assert_eq!(item, ListingItem::Entry(entry()));
    let mut state = ListingState::new();
    assert_eq!(state.next(Some(item)).unwrap(), Some(entry()));
    let odd = run_listing(Ok(ServerMessage::HeartbeatOk));
    let error = state.next(Some(odd)).unwrap_err();
    assert_eq!(
        error,
        FilePeekerError::Protocol { message: "unexpected listing response: HeartbeatOk".into() }
    );
    assert_eq!(state.next(Some(ListingItem::Entry(entry()))).unwrap(), None);
    let mut state = ListingState::new();
    assert_eq!(
        state.next(None).unwrap_err(),
        FilePeekerError::ConnectionClosed {
            message: "listing task ended without a terminal response".into()
        }
    );
    assert_eq!(run_listing(Ok(ServerMessage::Done)), ListingItem::Done);
}

#[test]
fn answers_and_refusals_are_told_apart() {
    let denied = || GrpcStatus { code: GrpcCode::Unauthenticated, message: "no".into() };
    assert_eq!(
        current_root_answer(Err(denied())).unwrap_err(),
        io(IoErrorKind::PermissionDenied, "gRPC Unauthenticated: no")
    );
    assert_eq!(current_root_answer(Ok("/r".into())).unwrap(), "/r");
    assert_eq!(current_root_answer(Ok("r".into())).unwrap_err().kind(), IoErrorKind::InvalidData);
    assert_eq!(
        list_batch(Err(denied())).unwrap_err().to_string(),
        "gRPC Unauthenticated: no"
    );
    assert_eq!(
        list_batch(Ok(vec![sent("one", KIND_FILE)])).unwrap(),
        [entry("one", EntryKind::File)]
    );
    assert_eq!(resolve_path(Err(denied())).unwrap_err(), io(IoErrorKind::Other, "no"));
    assert_eq!(resolve_path(Ok("/p".into())).unwrap(), "/p");
    assert_eq!(
        resolve_path(Ok("p".into())).unwrap_err().to_string(),
        "server returned a non-absolute resolved path"
    );
}

#[test]
fn errors_carry_their_context() {
    let error = with_context(&io(IoErrorKind::NotFound, "gone"), "cannot read");
    assert_eq!(error, io(IoErrorKind::NotFound, "cannot read: gone"));
    assert_eq!(invalid_data("x"), io(IoErrorKind::InvalidData, "x"));
}

fn assert_send_sync<T: Send + Sync>() {}

#[test]
fn exported_objects_are_thread_safe() {
    assert_send_sync::<Client<Session<u8>>>();
    assert_send_sync::<Listing>();
    assert_send_sync::<Session<u8>>();
    assert_send_sync::<std::sync::Arc<Client<Session<u8>>>>();
    assert_send_sync::<std::sync::Arc<Listing>>();
    assert_send_sync::<std::sync::Arc<Session<u8>>>();
}
