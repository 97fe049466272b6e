use file_peeker_client::api::{FilePeekerError, SessionConfig, SessionTarget};
use file_peeker_client::install::{RemoteInstallPolicy, RemoteInstallSource};
use file_peeker_client::io_error::{IoError, IoErrorKind};
use file_peeker_client::shell::shell_quote;
use file_peeker_client::startup::child::{
    plan_endpoint, supervise as watch, validate_local_executable, validate_socket_length, ChildEvent, ChildPhase,
    ChildStart, EndpointOutcome, WatchEvent, WatchPhase,
};
use file_peeker_client::startup::control::{
    complete_handshake, connect_control, wait_for_master, ConnectEvent, ConnectPhase,
    HandshakeOutcome, MasterEvent, MasterPhase, ProcessCheck,
};
use file_peeker_client::startup::diagnostics::{
    add_named_stderr_context, add_stderr_context, append_log_bytes, log_closing, log_event,
    server_exited_error, BoundedOutput,
};
use file_peeker_client::protocol::ServerMessage;
use file_peeker_client::startup::hello::{exchange_hello, HelloEvent, HelloPhase};
use file_peeker_client::startup::logs::{names_log, rotate_logs, LogFile};
use file_peeker_client::startup::owned_directory::{FileFacts, OwnedEvent};
use file_peeker_client::startup::remote::{
    build_remote_script, supervise, RemoteAction, RemoteEvent, RemotePhase, RemoteStart,
    SuperviseEvent, SupervisePhase, Trigger, REMOTE_LAUNCH_SCRIPT,
};
use file_peeker_client::startup::runtime::{
    home_directory, validate_socket_path, SessionDirectory, MAX_SOCKET_PATH_BYTES,
};
use file_peeker_client::startup::session_setup::{
    SessionGuard, SessionSetup, SetupAction, SetupEvent, SetupPhase,
};
use file_peeker_client::startup::ssh::{
    change_forward, multiplex_arguments, query_remote_home, validate_destination, CommandOutcome,
    CommandOutput, AUTHENTICATION_TIMEOUT_MS,
};
use file_peeker_client::startup::{
    close, CloseEvent, CloseStep, CONNECT_RETRY_DELAY_MS, LOCAL_CONNECT_RETRY_DELAY_MS,
    SHUTDOWN_TIMEOUT_MS, STARTUP_TIMEOUT_MS,
};

fn start_error(message: &str) -> FilePeekerError {
    FilePeekerError::ServerStart { message: message.into() }
}

fn io(kind: IoErrorKind, message: &str) -> IoError {
    IoError { kind, message: message.into() }
}

#[test]
fn rejects_an_overlong_socket_path() {
    let path = format!("/tmp/{}", "x".repeat(110));
    assert!(validate_socket_length(&path).is_err());
    assert_eq!(
        validate_socket_length(&path).unwrap_err(),
        start_error("generated server socket path exceeds 100 bytes")
    );
    assert!(validate_socket_length("/tmp/server.sock").is_ok());
}

#[test]
fn startup_lifecycle_timeouts_are_bounded() {
    assert!(STARTUP_TIMEOUT_MS <= 10_000);
    assert!(SHUTDOWN_TIMEOUT_MS <= 5_000);
    assert_eq!(LOCAL_CONNECT_RETRY_DELAY_MS, 20);
}

#[test]
fn mod_lifecycle_timeouts_are_bounded() {
    assert!(STARTUP_TIMEOUT_MS <= 10_000);
    assert!(SHUTDOWN_TIMEOUT_MS <= 5_000);
    assert_eq!(CONNECT_RETRY_DELAY_MS, 100);
}

#[test]
fn startup_requires_a_safe_ssh_destination() {
    assert!(validate_destination("").is_err());
    assert!(validate_destination("-oProxyCommand=bad").is_err());
    assert!(validate_destination("ntu").is_ok());
}

#[test]
fn ssh_requires_a_safe_ssh_destination() {
    assert!(validate_destination("").is_err());
    assert!(validate_destination("-oProxyCommand=bad").is_err());
    assert!(validate_destination("ntu").is_ok());
}

#[test]
fn startup_quotes_remote_shell_values() {
    assert_eq!(shell_quote("a b'c"), "'a b'\"'\"'c'");
}

#[test]
fn ssh_quotes_remote_shell_values() {
    assert_eq!(shell_quote("a b'c"), "'a b'\"'\"'c'");
}

#[test]
fn authentication_timeout_allows_interaction() {
    assert_eq!(AUTHENTICATION_TIMEOUT_MS, 300_000);
}

#[test]
fn multiplexed_commands_are_non_interactive() {
    let arguments = multiplex_arguments("/tmp/cm.sock");
    assert_eq!(
        arguments,
        ["-S", "/tmp/cm.sock", "-o", "ControlMaster=no", "-o", "BatchMode=yes"]
    );
}

#[test]
fn rejects_socket_paths_that_are_too_long() {
    let long = format!("/tmp/{}", "x".repeat(MAX_SOCKET_PATH_BYTES));
    assert!(validate_socket_path(&long).is_err());
    assert_eq!(
        validate_socket_path(&long).unwrap_err(),
        start_error(&format!(
            "Unix socket path `{long}` is 105 bytes; maximum supported length is 100"
        ))
    );
    assert_eq!(
        validate_socket_path("/tmp/a:b").unwrap_err(),
        start_error(
            "Unix socket path `/tmp/a:b` contains `:`, which SSH StreamLocal forwarding cannot encode"
        )
    );
    let wide = format!("/{}", "\u{e9}".repeat(50));
    assert!(validate_socket_path(&wide).is_err());
    assert!(validate_socket_path(&wide[..99]).is_ok());
}

#[test]
fn bounded_reader_discards_excess_output() {
    let mut output = BoundedOutput::new();
    output.absorb(b"abc", 4);
    assert_eq!(output, BoundedOutput { bytes: b"abc".to_vec(), truncated: false });
    output.absorb(b"defgh", 4);
    assert_eq!(output.bytes, b"abcd");
    assert!(output.truncated);
}

#[test]
fn diagnostic_reader_retains_all_small_output() {
    let mut output = BoundedOutput::new();
    output.absorb(b"abcdefgh", 65536);
    assert_eq!(output.bytes, b"abcdefgh");
    let mut logged = log_event("test stderr").into_bytes();
    logged.extend_from_slice(b"abcdefgh");
    logged.extend_from_slice(&log_closing(&output.bytes));
    assert!(logged.ends_with(b"abcdefgh\n"));
    assert_eq!(logged, b"[test stderr]\nabcdefgh\n");
}

#[test]
fn logged_output_ends_its_line() {
    assert_eq!(append_log_bytes("x", b""), b"");
    assert_eq!(append_log_bytes("x", b"one\n"), b"[x]\none\n");
    assert_eq!(append_log_bytes("x", b"one"), b"[x]\none\n");
}

#[test]
fn process_output_is_added_to_start_and_exit_errors() {
    assert_eq!(
        add_stderr_context(start_error("no"), Some(b" why \n")),
        start_error("no; server stderr: why")
    );
    assert_eq!(
        add_named_stderr_context(start_error("no"), "SSH control master", Some(b"a\xff")),
        start_error("no; SSH control master stderr: a\u{fffd}")
    );
    assert_eq!(add_stderr_context(start_error("no"), Some(b"")), start_error("no"));
    assert_eq!(add_stderr_context(start_error("no"), None), start_error("no"));
    let protocol = FilePeekerError::Protocol { message: "p".into() };
    assert_eq!(add_stderr_context(protocol.clone(), Some(b"x")), protocol);
    assert_eq!(
        server_exited_error("exit status: 3", Some(b"bye")),
        FilePeekerError::ServerExited {
            message: "server exited with exit status: 3; server stderr: bye".into()
        }
    );
}

#[test]
fn executables_have_to_be_named() {
    assert_eq!(
        validate_local_executable("").unwrap_err(),
        start_error("server executable path is required")
    );
    assert_eq!(validate_local_executable("/bin/server").unwrap(), "/bin/server");
}

#[test]
fn homes_have_to_be_absolute() {
    assert_eq!(home_directory(Some("/home/u".into())).unwrap(), "/home/u");
    assert_eq!(
        home_directory(Some("home".into())).unwrap_err(),
        start_error("HOME must be an absolute path")
    );
    assert_eq!(
        home_directory(None).unwrap_err(),
        start_error("HOME is required to create file-peeker runtime files")
    );
}

#[test]
fn session_files_lie_below_the_home() {
    let directory = SessionDirectory::locate("/home/u", "abc");
    assert_eq!(directory.path(), "/home/u/.file-peeker/run/abc");
    assert_eq!(directory.socket_path(), "/home/u/.file-peeker/run/abc/server.sock");
    assert_eq!(directory.control_socket_path(), "/home/u/.file-peeker/run/abc/cm.sock");
    assert_eq!(directory.log_path(), "/home/u/.file-peeker/logs/abc.log");
    let random = SessionDirectory::create("/home/u");
    assert_eq!(random.id().len(), 32);
    assert!(random.id().bytes().all(|b| b.is_ascii_hexdigit()));
    assert_ne!(random.id(), SessionDirectory::create("/home/u").id());
    assert!(random.socket_path().starts_with("/home/u/.file-peeker/run"));
}

fn owned_by(owner: u32) -> FileFacts {
    FileFacts { is_symlink: false, is_dir: true, owner }
}

fn up_to_run() -> SessionSetup {
    SessionSetup::create_in("/h".into(), "abc")
        .advance(SetupEvent::HomeInspected(Ok(owned_by(7))))
        .advance(SetupEvent::Shared(OwnedEvent::Inspected(Ok(owned_by(7)))))
}

/// Takes every step of a setup as if it succeeded, and returns what was asked for on the way.
fn set_up(home: &str) -> (SessionSetup, Vec<SetupAction>) {
    let mut setup = SessionSetup::create_in(home.into(), "abc");
    let mut asked = Vec::new();
    loop {
        let event = match (&setup.phase, setup.action()) {
            (_, SetupAction::Nothing) => return (setup, asked),
            (SetupPhase::InspectHome, _) => SetupEvent::HomeInspected(Ok(owned_by(7))),
            (SetupPhase::Shared(_, _), SetupAction::Inspect { .. }) => {
                SetupEvent::Shared(OwnedEvent::Inspected(Ok(owned_by(7))))
            }
            (SetupPhase::Shared(_, _), _) => SetupEvent::Shared(OwnedEvent::Secured(Ok(()))),
            (SetupPhase::CreateSession, _) => SetupEvent::SessionCreated(Ok(())),
            (SetupPhase::SecureSession, _) => SetupEvent::SessionSecured(Ok(())),
            (SetupPhase::CreateLog, _) => SetupEvent::LogCreated(Ok(())),
            (SetupPhase::RotateLogs, _) => SetupEvent::LogsRotated,
            _ => SetupEvent::SessionRemoved,
        };
        asked.push(setup.action());
        setup = setup.advance(event);
    }
}

#[test]
fn session_files_live_under_the_file_peeker_home() {
    let (setup, asked) = set_up("/h");
    assert_eq!(
        asked,
        vec![
            SetupAction::Inspect { path: "/h".into() },
            SetupAction::Inspect { path: "/h/.file-peeker".into() },
            SetupAction::Inspect { path: "/h/.file-peeker/run".into() },
            SetupAction::SetMode { path: "/h/.file-peeker/run".into(), mode: 0o700 },
            SetupAction::Inspect { path: "/h/.file-peeker/logs".into() },
            SetupAction::SetMode { path: "/h/.file-peeker/logs".into(), mode: 0o700 },
            SetupAction::CreateDirectory { path: "/h/.file-peeker/run/abc".into() },
            SetupAction::SetMode { path: "/h/.file-peeker/run/abc".into(), mode: 0o700 },
            SetupAction::CreateFile { path: "/h/.file-peeker/logs/abc.log".into(), mode: 0o600 },
            SetupAction::RotateLogs { current: "/h/.file-peeker/logs/abc.log".into() },
        ]
    );
    let (directory, mut guard) = setup.finish().unwrap();
    assert_eq!(directory.socket_path(), "/h/.file-peeker/run/abc/server.sock");
    assert_eq!(guard, SessionGuard::new(&directory));
    assert_eq!(guard.take().as_deref(), Some("/h/.file-peeker/run/abc"));
    assert_eq!(guard.take(), None);
}

#[test]
fn refused_socket_paths_leave_no_session_directory() {
    let long = format!("/{}", "x".repeat(100));
    for (home, words) in [
        ("/h:", "contains `:`, which SSH StreamLocal forwarding cannot encode"),
        (long.as_str(), "maximum supported length is 100"),
    ] {
        let (setup, asked) = set_up(home);
        assert_eq!(
            asked.last(),
            Some(&SetupAction::RemoveDirectory { path: format!("{home}/.file-peeker/run/abc") })
        );
        assert!(setup.finish().unwrap_err().to_string().contains(words));
    }
}

#[test]
fn missing_shared_directories_are_created() {
    let missing = SetupEvent::Shared(OwnedEvent::Inspected(Err(io(IoErrorKind::NotFound, "no"))));
    let setup = up_to_run().advance(missing);
    assert_eq!(
        setup.action(),
        SetupAction::CreateDirectory { path: "/h/.file-peeker/run".into() }
    );
}

#[test]
fn private_server_directories_are_planned() {
    let plan = plan_endpoint();
    assert_eq!((plan.parent.as_str(), plan.prefix.as_str(), plan.mode), ("/tmp", "fp-", 0o700));
}

#[test]
fn remote_children_reuse_an_installed_server() {
    let remote = ChildStart::start_remote("host".into()).unwrap();
    assert_eq!(remote.socket_path(), None);
    let config = remote.install_config(false).unwrap();
    assert_eq!(config.destination, "host");
    assert_eq!(config.policy, RemoteInstallPolicy::ReuseExisting);
    assert_eq!(config.source, RemoteInstallSource::CratesIo);
    assert_eq!(
        remote.install_config(true).unwrap().source,
        RemoteInstallSource::Workspace
    );
    let local = ChildStart::start_local("/bin/server").unwrap();
    assert_eq!(local.install_config(true), None);
    let local = local.start_child(ChildEvent::EndpointCreated(EndpointOutcome::Created(
        "/tmp/fp-1".into(),
    )));
    assert_eq!(local.socket_path().as_deref(), Some("/tmp/fp-1/server.sock"));
    assert!(!local.command().unwrap().has_input);
}

#[test]
fn rejects_a_symlinked_runtime_root() {
    let link = FileFacts { is_symlink: true, is_dir: false, owner: 7 };
    let setup = up_to_run().advance(SetupEvent::Shared(OwnedEvent::Inspected(Ok(link))));
    assert_eq!(
        setup.phase,
        SetupPhase::Failed(start_error(
            "runtime path `/h/.file-peeker/run` is not a real directory"
        ))
    );
}

#[test]
fn setup_creates_missing_directories_and_secures_private_ones() {
    let missing = || SetupEvent::Shared(OwnedEvent::Inspected(Err(io(IoErrorKind::NotFound, "no"))));
    let raced = || {
        SetupEvent::Shared(OwnedEvent::Created(Err(io(IoErrorKind::AlreadyExists, "raced"))))
    };
    let found = || SetupEvent::Shared(OwnedEvent::Inspected(Ok(owned_by(7))));
    let secured = || SetupEvent::Shared(OwnedEvent::Secured(Ok(())));
    let setup = up_to_run()
        .advance(missing())
        .advance(raced())
        .advance(found())
        .advance(secured())
        .advance(found())
        .advance(secured());
    assert_eq!(setup.phase, SetupPhase::CreateSession);
    let setup = setup
        .advance(SetupEvent::SessionCreated(Ok(())))
        .advance(SetupEvent::SessionSecured(Ok(())))
        .advance(SetupEvent::LogCreated(Ok(())))
        .advance(SetupEvent::LogsRotated);
    assert_eq!(setup.phase, SetupPhase::Ready);
    assert_eq!(setup.owner, 7);
}

#[test]
fn setup_reports_each_failure() {
    let denied = || io(IoErrorKind::PermissionDenied, "denied");
    let start = || SessionSetup::create_in("/h".into(), "abc");
    let phases = [
        (
            start().advance(SetupEvent::HomeInspected(Err(denied()))).phase,
            "cannot inspect home directory `/h`: denied",
        ),
        (
            start()
                .advance(SetupEvent::HomeInspected(Ok(FileFacts {
                    is_symlink: true,
                    is_dir: true,
                    owner: 1,
                })))
                .phase,
            "home path `/h` is not a real directory",
        ),
        (
            up_to_run().advance(SetupEvent::Shared(OwnedEvent::Inspected(Ok(owned_by(8))))).phase,
            "runtime path `/h/.file-peeker/run` has unexpected ownership",
        ),
        (
            up_to_run()
                .advance(SetupEvent::Shared(OwnedEvent::Inspected(Err(denied()))))
                .phase,
            "cannot inspect runtime directory `/h/.file-peeker/run`: denied",
        ),
        (
            up_to_run()
                .advance(SetupEvent::Shared(OwnedEvent::Inspected(Err(io(
                    IoErrorKind::NotFound,
                    "no",
                )))))
                .advance(SetupEvent::Shared(OwnedEvent::Created(Err(denied()))))
                .phase,
            "cannot create runtime directory `/h/.file-peeker/run`: denied",
        ),
        (
            up_to_run()
                .advance(SetupEvent::Shared(OwnedEvent::Inspected(Ok(owned_by(7)))))
                .advance(SetupEvent::Shared(OwnedEvent::Secured(Err(denied()))))
                .phase,
            "cannot secure runtime directory `/h/.file-peeker/run`: denied",
        ),
    ];
    for (phase, words) in phases {
        assert_eq!(phase, SetupPhase::Failed(start_error(words)));
    }
    let mut setup = start();
    setup.phase = SetupPhase::CreateSession;
    assert_eq!(
        setup.advance(SetupEvent::SessionCreated(Err(denied()))).phase,
        SetupPhase::Failed(start_error(
            "cannot create session directory `/h/.file-peeker/run/abc`: denied"
        ))
    );
    let mut setup = start();
    setup.phase = SetupPhase::CreateLog;
    assert_eq!(
        setup.advance(SetupEvent::LogCreated(Err(denied()))).phase,
        SetupPhase::Failed(start_error(
            "cannot create session log `/h/.file-peeker/logs/abc.log`: denied"
        ))
    );
}

#[test]
fn rotation_keeps_the_nine_newest_logs() {
    let name = |i: usize| format!("{i:032x}.log");
    let file = |i: usize, modified: i128| LogFile {
        name: name(i),
        is_file: true,
        modified: Some(modified),
    };
    assert!(names_log(&name(3)));
    assert!(!names_log("short.log"));
    let mut files: Vec<LogFile> = (0..12).map(|i| file(i, 100 - i as i128)).collect();
    files.push(LogFile { name: "notes.txt".into(), is_file: true, modified: Some(0) });
    files.push(LogFile { name: name(70), is_file: false, modified: Some(0) });
    files.push(LogFile { name: name(71), is_file: true, modified: None });
    files.push(file(99, 0));
    assert_eq!(rotate_logs(&files, &name(99)), vec![11, 10, 9]);
    files.truncate(9);
    assert_eq!(rotate_logs(&files, &name(99)), Vec::<usize>::new());
}

#[test]
fn rotation_of_equally_old_logs_goes_by_position() {
    let files: Vec<LogFile> = (0..11)
        .map(|i| LogFile { name: format!("{i:032x}.log"), is_file: true, modified: Some(5) })
        .collect();
    assert_eq!(rotate_logs(&files, "current"), vec![0, 1]);
}

fn output(success: bool, stdout: &[u8], stderr: &[u8]) -> CommandOutcome {
    CommandOutcome::Finished(CommandOutput {
        success,
        status: if success { "exit status: 0".into() } else { "exit status: 255".into() },
        stdout: stdout.to_vec(),
        stderr: stderr.to_vec(),
    })
}

#[test]
fn remote_homes_are_read_from_the_answer() {
    assert_eq!(query_remote_home(&output(true, b"/home/u\r\n", b"")).unwrap(), "/home/u");
    let cases = [
        (CommandOutcome::TimedOut, "timed out querying the remote home directory"),
        (
            CommandOutcome::Failed(io(IoErrorKind::NotFound, "no ssh")),
            "cannot query the remote home directory: no ssh",
        ),
        (
            output(false, b"", b""),
            "cannot query the remote home directory: SSH exited with exit status: 255",
        ),
        (
            output(true, b"/\xff\n", b""),
            "remote home directory is not valid UTF-8: invalid utf-8 sequence of 1 bytes from index 1",
        ),
        (output(true, b"\n", b""), "remote home directory response was empty or malformed"),
        (output(true, b"/a\n/b\n", b""), "remote home directory response was empty or malformed"),
        (output(true, b"home\n", b""), "remote HOME must be an absolute path"),
    ];
    for (outcome, words) in cases {
        assert_eq!(query_remote_home(&outcome).unwrap_err(), start_error(words));
    }
}

#[test]
fn forwarding_requests_are_judged() {
    assert_eq!(change_forward("forward", &output(true, b"", b"")), Ok(()));
    assert_eq!(
        change_forward("forward", &output(false, b"", b" busy \n")).unwrap_err(),
        start_error("SSH forward failed with exit status: 255: busy")
    );
    assert_eq!(
        change_forward("cancel", &CommandOutcome::TimedOut).unwrap_err(),
        start_error("timed out requesting SSH cancel")
    );
    assert_eq!(
        change_forward("cancel", &CommandOutcome::Failed(io(IoErrorKind::NotFound, "no")))
            .unwrap_err(),
        start_error("cannot request SSH cancel: no")
    );
}

fn running(deadline_passed: bool) -> ProcessCheck {
    ProcessCheck { exited: Ok(None), deadline_passed }
}

#[test]
fn sockets_are_awaited_until_the_deadline() {
    let phase = connect_control(ConnectPhase::Inspect, ConnectEvent::Inspected(running(false)));
    assert_eq!(phase, ConnectPhase::Connect);
    let phase = connect_control(
        phase,
        ConnectEvent::Tried(Err(io(IoErrorKind::ConnectionRefused, "refused"))),
    );
    assert_eq!(phase, ConnectPhase::Delay);
    let phase = connect_control(phase, ConnectEvent::Waited);
    let late = connect_control(phase, ConnectEvent::Inspected(running(true)));
    assert_eq!(
        late,
        ConnectPhase::Failed(start_error("timed out after 5000 ms waiting for the server socket"))
    );
    let exited = ProcessCheck { exited: Ok(Some("exit status: 1".into())), deadline_passed: true };
    assert_eq!(
        connect_control(ConnectPhase::Inspect, ConnectEvent::Inspected(exited)),
        ConnectPhase::Failed(FilePeekerError::ServerExited {
            message: "server exited with exit status: 1".into()
        })
    );
    assert_eq!(
        connect_control(
            ConnectPhase::Connect,
            ConnectEvent::Tried(Err(io(IoErrorKind::PermissionDenied, "denied")))
        ),
        ConnectPhase::Failed(start_error("cannot connect to server socket: denied"))
    );
    assert_eq!(
        connect_control(ConnectPhase::Connect, ConnectEvent::Tried(Ok(()))),
        ConnectPhase::Connected
    );
}

#[test]
fn masters_are_awaited_until_the_deadline() {
    let phase = wait_for_master(MasterPhase::Inspect, MasterEvent::Inspected(running(false)));
    let phase = wait_for_master(phase, MasterEvent::Checked(false));
    assert_eq!(phase, MasterPhase::Delay);
    let phase = wait_for_master(phase, MasterEvent::Waited);
    let phase = wait_for_master(phase, MasterEvent::Inspected(running(true)));
    assert_eq!(
        phase,
        MasterPhase::Failed(start_error(
            "timed out after 300000 ms waiting for SSH authentication"
        ))
    );
    assert_eq!(
        wait_for_master(MasterPhase::Check, MasterEvent::Checked(true)),
        MasterPhase::Ready
    );
}

#[test]
fn handshakes_are_judged() {
    assert_eq!(complete_handshake(HandshakeOutcome::Answered(Ok(()))), Ok(()));
    assert_eq!(
        complete_handshake(HandshakeOutcome::TimedOut).unwrap_err(),
        start_error("timed out after 5000 ms during the control handshake")
    );
    assert_eq!(
        complete_handshake(HandshakeOutcome::Exited(Err(io(IoErrorKind::Other, "lost"))))
            .unwrap_err(),
        start_error("cannot wait for server process: lost")
    );
}

#[test]
fn launch_scripts_name_the_directories_and_version() {
    let script = build_remote_script("/home/u/.file-peeker/run/abc");
    assert!(script.starts_with("sh -c '"));
    assert!(script.ends_with(" -- '/home/u/.file-peeker/run/abc' '/home/u/.file-peeker/run' '0.1.0'"));
    assert!(REMOTE_LAUNCH_SCRIPT.contains("serve --socket"));
}

fn forwarding() -> RemoteStart {
    RemoteStart::start("host".into())
        .unwrap()
        .advance(RemoteEvent::DirectoryCreated(Ok(SessionDirectory::locate("/h", "abc"))))
        .advance(RemoteEvent::MasterSpawned(Ok(true)))
        .advance(RemoteEvent::MasterWaited(Ok(())))
        .advance(RemoteEvent::Installed(Ok(())))
        .advance(RemoteEvent::HomeQueried(Ok("/r".into())))
        .advance(RemoteEvent::LauncherSpawned(Ok(true)))
}

#[test]
fn remote_starts_go_through_every_step() {
    let start = RemoteStart::start("host".into()).unwrap();
    assert_eq!(start.action(), RemoteAction::CreateDirectory);
    let start =
        start.advance(RemoteEvent::DirectoryCreated(Ok(SessionDirectory::locate("/h", "abc"))));
    assert_eq!(
        start.action(),
        RemoteAction::SpawnMaster {
            arguments: vec![
                "-M".into(),
                "-S".into(),
                "/h/.file-peeker/run/abc/cm.sock".into(),
                "-o".into(),
                "ControlPersist=no".into(),
                "-N".into(),
                "-T".into(),
                "host".into(),
            ]
        }
    );
    let installing = start
        .advance(RemoteEvent::MasterSpawned(Ok(true)))
        .advance(RemoteEvent::MasterWaited(Ok(())));
    assert_eq!(
        installing.action(),
        RemoteAction::Install {
            policy: RemoteInstallPolicy::ReuseExisting,
            ssh_arguments: multiplex_arguments("/h/.file-peeker/run/abc/cm.sock"),
            log_path: "/h/.file-peeker/logs/abc.log".into(),
        }
    );
    let start = forwarding();
    assert_eq!(start.phase, RemotePhase::Forward);
    assert_eq!(
        start.forward().unwrap(),
        "/h/.file-peeker/run/abc/server.sock:/r/.file-peeker/run/abc/server.sock"
    );
    let start = start.advance(RemoteEvent::Forwarded(Ok(())));
    assert_eq!(
        start.action(),
        RemoteAction::Connect { socket_path: "/h/.file-peeker/run/abc/server.sock".into() }
    );
    let start = start.advance(RemoteEvent::Connected(Ok(())));
    let closed = FilePeekerError::ConnectionClosed { message: "early".into() };
    let start =
        start.advance(RemoteEvent::Greeted { result: Err(closed), deadline_passed: false });
    assert_eq!(start.action(), RemoteAction::Delay);
    let start = start
        .advance(RemoteEvent::Waited)
        .advance(RemoteEvent::Connected(Ok(())))
        .advance(RemoteEvent::Greeted { result: Ok(()), deadline_passed: false });
    assert_eq!(start.phase, RemotePhase::Ready);
}

#[test]
fn failed_remote_starts_stop_their_processes() {
    let start = forwarding().advance(RemoteEvent::Forwarded(Err(start_error("no forward"))));
    assert_eq!(
        start.action(),
        RemoteAction::StopBoth {
            exit_arguments: vec![
                "-S".into(),
                "/h/.file-peeker/run/abc/cm.sock".into(),
                "-O".into(),
                "exit".into(),
                "host".into(),
            ]
        }
    );
    let start = start.advance(RemoteEvent::BothStopped {
        launcher_stderr: Some(b"launcher\n".to_vec()),
        master_stderr: Some(b"master".to_vec()),
    });
    assert_eq!(
        start.phase,
        RemotePhase::Failed(start_error(
            "no forward; SSH remote server stderr: launcher; SSH control master stderr: master"
        ))
    );
    let closed = || FilePeekerError::ConnectionClosed { message: "late".into() };
    let late = forwarding()
        .advance(RemoteEvent::Forwarded(Ok(())))
        .advance(RemoteEvent::Connected(Ok(())))
        .advance(RemoteEvent::Greeted { result: Err(closed()), deadline_passed: true });
    assert_eq!(late.phase, RemotePhase::StopBoth(closed()));
    assert_eq!(
        RemoteStart::start("-x".into()).unwrap_err(),
        start_error("SSH destination is required and must not begin with `-`")
    );
}

#[test]
fn remote_starts_reject_long_sockets_on_either_machine() {
    let long = format!("/{}", "h".repeat(90));
    let here = RemoteStart::start("host".into())
        .unwrap()
        .advance(RemoteEvent::DirectoryCreated(Ok(SessionDirectory::locate(&long, "abc"))));
    assert!(matches!(here.phase, RemotePhase::Failed(FilePeekerError::ServerStart { .. })));
    let there = RemoteStart::start("host".into())
        .unwrap()
        .advance(RemoteEvent::DirectoryCreated(Ok(SessionDirectory::locate("/h", "abc"))))
        .advance(RemoteEvent::MasterSpawned(Ok(true)))
        .advance(RemoteEvent::MasterWaited(Ok(())))
        .advance(RemoteEvent::Installed(Ok(())))
        .advance(RemoteEvent::HomeQueried(Ok(long)));
    assert!(matches!(there.phase, RemotePhase::Failed(FilePeekerError::ServerStart { .. })));
}

#[test]
fn running_sessions_close_in_order() {
    let mut phase = SupervisePhase::Watching;
    let mut seen = Vec::new();
    for event in [
        SuperviseEvent::Triggered(Trigger::ShutdownRequested),
        SuperviseEvent::Done,
        SuperviseEvent::Done,
        SuperviseEvent::TimedOut,
        SuperviseEvent::Done,
        SuperviseEvent::Done,
        SuperviseEvent::Done,
        SuperviseEvent::Done,
        SuperviseEvent::Done,
    ] {
        phase = supervise(phase, event);
        seen.push(phase);
    }
    assert_eq!(
        seen,
        vec![
            SupervisePhase::CloseControl(Trigger::ShutdownRequested),
            SupervisePhase::CloseInput(Trigger::ShutdownRequested),
            SupervisePhase::AwaitLauncher,
            SupervisePhase::KillLauncher,
            SupervisePhase::CancelForward,
            SupervisePhase::RequestExit,
            SupervisePhase::AwaitMaster,
            SupervisePhase::CollectOutput,
            SupervisePhase::Closed,
        ]
    );
    let lost = supervise(
        SupervisePhase::CloseInput(Trigger::MasterExited),
        SuperviseEvent::Done,
    );
    assert_eq!(lost, SupervisePhase::KillLauncher);
}

#[test]
fn local_starts_name_the_socket() {
    let start = ChildStart::start(SessionConfig {
        target: SessionTarget::Local { server_executable_path: "/bin/server".into() },
    })
    .unwrap();
    let start =
        start.start_child(ChildEvent::EndpointCreated(EndpointOutcome::Created("/tmp/fp-x".into())));
    let command = start.command().unwrap();
    assert_eq!(command.program, "/bin/server");
    assert_eq!(command.arguments, ["serve", "--socket", "/tmp/fp-x/server.sock"]);
    let failed = start.start_child(ChildEvent::Spawned(Err(io(IoErrorKind::NotFound, "missing"))));
    assert_eq!(
        failed.phase,
        ChildPhase::Failed(start_error("cannot launch `/bin/server`: missing"))
    );
}

#[test]
fn remote_children_are_greeted_again_and_local_ones_stopped() {
    let closed = || FilePeekerError::ConnectionClosed { message: "hung up".into() };
    let greeted = || ChildEvent::Greeted { result: Err(closed()), deadline_passed: false };
    let remote = ChildStart::start_remote("host".into())
        .unwrap()
        .start_child(ChildEvent::Installed(Ok(())))
        .start_child(ChildEvent::EndpointCreated(EndpointOutcome::Created("/tmp/fp-x".into())));
    let command = remote.command().unwrap();
    assert_eq!(command.program, "ssh");
    assert_eq!(command.arguments[6], "/tmp/fp-x/server.sock:/tmp/fp-x-remote/server.sock");
    assert!(command.arguments[8].starts_with("set -eu; runtime='/tmp/fp-x-remote'; mkdir -m 700"));
    assert!(command.arguments[8].contains("/.file-peeker/servers/0.1.0/bin/file-peeker-server"));
    let remote = remote
        .start_child(ChildEvent::Spawned(Ok(true)))
        .start_child(ChildEvent::Connected(Ok(())))
        .start_child(greeted());
    assert_eq!(remote.phase, ChildPhase::Delay);
    let local = ChildStart::start_local("/bin/server")
        .unwrap()
        .start_child(ChildEvent::EndpointCreated(EndpointOutcome::Created("/tmp/fp-x".into())))
        .start_child(ChildEvent::Spawned(Ok(true)))
        .start_child(ChildEvent::Connected(Ok(())))
        .start_child(greeted());
    assert_eq!(local.phase, ChildPhase::Stop(closed()));
}

#[test]
fn stopped_children_explain_themselves() {
    let start = ChildStart::start_local("/bin/server")
        .unwrap()
        .start_child(ChildEvent::EndpointCreated(EndpointOutcome::Created("/tmp/fp-x".into())))
        .start_child(ChildEvent::Spawned(Ok(true)))
        .start_child(ChildEvent::Connected(Err(start_error("no socket"))));
    let start = start.start_child(ChildEvent::Stopped {
        stderr: Some(BoundedOutput { bytes: b"panic\n".to_vec(), truncated: true }),
    });
    assert_eq!(
        start.phase,
        ChildPhase::Failed(start_error("no socket; server stderr: panic [truncated]"))
    );
    let denied = EndpointOutcome::NotSecured(io(IoErrorKind::PermissionDenied, "denied"));
    let start = ChildStart::start_local("/bin/server")
        .unwrap()
        .start_child(ChildEvent::EndpointCreated(denied));
    assert_eq!(
        start.phase,
        ChildPhase::Failed(start_error("cannot secure private server directory: denied"))
    );
}

#[test]
fn watched_children_are_killed_when_they_linger() {
    let phase = watch(WatchPhase::Watching, WatchEvent::ControlClosed);
    let phase = watch(phase, WatchEvent::TimedOut);
    assert_eq!(phase, WatchPhase::Kill);
    assert_eq!(watch(phase, WatchEvent::Done), WatchPhase::Closed);
    assert_eq!(watch(WatchPhase::Watching, WatchEvent::ChildExited), WatchPhase::Closed);
}

#[test]
fn closing_waits_for_the_supervision() {
    assert_eq!(close(CloseEvent::Looked { closed: true }), CloseStep::Closed);
    assert_eq!(close(CloseEvent::Looked { closed: false }), CloseStep::RequestShutdown);
    assert_eq!(close(CloseEvent::Requested { closed: false }), CloseStep::Wait);
    assert_eq!(
        close(CloseEvent::Waited { closed: false }),
        CloseStep::Failed(FilePeekerError::ConnectionClosed {
            message: "timed out waiting for server shutdown".into()
        })
    );
}

#[test]
fn control_greetings_are_exchanged() {
    let phase = exchange_hello(HelloPhase::Encode, HelloEvent::Encoded(Ok(())));
    let phase = exchange_hello(phase, HelloEvent::Sent(Ok(())));
    let mut phase = exchange_hello(phase, HelloEvent::Flushed(Ok(())));
    for byte in b"{}\n" {
        phase = exchange_hello(phase, HelloEvent::ByteRead(Ok(Some(*byte))));
    }
    assert_eq!(phase, HelloPhase::Decode(b"{}".to_vec()));
    let greeted = HelloEvent::Decoded(Ok(ServerMessage::HelloOk { version: 1 }));
    assert_eq!(exchange_hello(phase, greeted), HelloPhase::Greeted);
    let closed = |message: &str| {
        HelloPhase::Failed(FilePeekerError::ConnectionClosed { message: message.into() })
    };
    assert_eq!(
        exchange_hello(
            HelloPhase::Flush,
            HelloEvent::Flushed(Err(io(IoErrorKind::BrokenPipe, "lost")))
        ),
        closed("cannot flush control hello: lost")
    );
    assert_eq!(
        exchange_hello(
            HelloPhase::Send,
            HelloEvent::Sent(Err(io(IoErrorKind::BrokenPipe, "lost")))
        ),
        closed("cannot send control hello: lost")
    );
    assert_eq!(
        exchange_hello(HelloPhase::Decode(Vec::new()), HelloEvent::Decoded(Err("bad".into()))),
        HelloPhase::Failed(FilePeekerError::Protocol {
            message: "server returned invalid JSON: bad".into()
        })
    );
}
