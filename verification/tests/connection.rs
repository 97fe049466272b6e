use file_peeker_client::api::{EntryKind, FilePeekerError};
use file_peeker_client::cli::install::source_install_command;
use file_peeker_client::connection::control::{
    authenticate_stream, begin_shutdown, control_message, exchange_control, heartbeat_server,
    initialize_control, shutdown_server_process, ControlEvent, ControlPhase, ControlRequest,
    ShutdownEvent, ShutdownPhase,
};
use file_peeker_client::connection::grpc::{
    authenticated_request, check_health, shutdown_server_process as stop_outcome, status_error,
    GrpcCode, GrpcStatus, HealthOutcome, StopOutcome,
};
use file_peeker_client::connection::installer::{
    get_server_executable, installer_command, local_source, start_installer, InstallerEvent,
    InstallerPhase, LocalServerConfig, Pipes,
};
use file_peeker_client::connection::launch::{
    create_ssh_connection, local_server_arguments, ssh_arguments, start_server, ConnectionConfig, Launch,
    LaunchEvent, LaunchPhase,
};
use file_peeker_client::connection::lines::{
    ensure_server_command, ensure_server_executable, read_server_startup, read_startup_line,
    ConnectionInfo, InstallerLine, StartupDocument, ENSURE_SERVER_SCRIPT, SERVER_ERROR_PREFIX,
    SERVER_READY_PREFIX,
};
use file_peeker_client::connection::socks5::Socks5;
use file_peeker_client::io_error::{IoError, IoErrorKind};
use file_peeker_client::protocol::{
    decoded, handshake_control, map_server_error, message_debug, message_of_line, ClientMessage,
    ErrorCode, Frame, FrameStep, ServerMessage, MAX_MESSAGE_BYTES,
};
use file_peeker_client::server::{LocalServer, RemoteServerStartup};
use file_peeker_client::startup::PACKAGE_VERSION;

fn io(kind: IoErrorKind, message: &str) -> IoError {
    IoError { kind, message: message.into() }
}

fn check_ensure_command() {
    let command = ensure_server_command(false);
    let forced_command = ensure_server_command(true);
    let version = PACKAGE_VERSION;

    assert!(command.starts_with(&format!("sh -s -- '{version}' 'false' <<")));
    assert!(forced_command.starts_with(&format!("sh -s -- '{version}' 'true' <<")));
    assert!(command.contains(ENSURE_SERVER_SCRIPT));
    assert!(ENSURE_SERVER_SCRIPT.contains("[ -x \"$server_executable\" ]"));
    assert!(ENSURE_SERVER_SCRIPT.contains("cargo install"));
    assert!(ENSURE_SERVER_SCRIPT.contains("--force"));
    assert!(ENSURE_SERVER_SCRIPT.contains("--root \"$server_root\""));
    assert!(ENSURE_SERVER_SCRIPT.contains("--version \"$server_version\""));
    assert!(ENSURE_SERVER_SCRIPT.contains("--bin file-peeker-server"));
    assert!(ENSURE_SERVER_SCRIPT
        .contains("--git https://github.com/tanchihpin0517/file-peeker.git"));
    assert!(!ENSURE_SERVER_SCRIPT.contains("--path"));
    assert!(ENSURE_SERVER_SCRIPT.contains("$HOME/.file-peeker/servers/$server_version"));
    assert!(ENSURE_SERVER_SCRIPT.contains(SERVER_READY_PREFIX));
    assert!(ENSURE_SERVER_SCRIPT.contains(SERVER_ERROR_PREFIX));
}

#[test]
fn common_ensure_command_checks_then_installs_versioned_server() {
    check_ensure_command();
    assert!(ensure_server_command(false).ends_with("\nFILE_PEEKER_ENSURE_SERVER_SCRIPT\n"));
}

#[test]
fn mod_ensure_command_checks_then_installs_versioned_server() {
    check_ensure_command();
    assert!(ensure_server_command(true).contains("<<'FILE_PEEKER_ENSURE_SERVER_SCRIPT'\n"));
}

fn startup(lines: &[&str]) -> Result<String, IoError> {
    for line in lines {
        if let Some(json) = read_startup_line(line)? {
            return Ok(json);
        }
    }
    panic!("no startup line")
}

fn document(port: u16, token: &str) -> Result<StartupDocument, String> {
    Ok(StartupDocument { port, token: token.into() })
}

#[test]
fn common_startup_ignores_output_before_prefixed_result() {
    assert_eq!(
        startup(&[
            "diagnostic\n",
            "FILE_PEEKER_SERVER_STARTUP={\"port\":43827,\"token\":\"test-token\"}\n"
        ])
        .unwrap(),
        "{\"port\":43827,\"token\":\"test-token\"}"
    );
    assert_eq!(
        read_server_startup(document(43827, "test-token")).unwrap(),
        ConnectionInfo { server_port: 43827, token: "test-token".into() }
    );
    assert_eq!(
        startup(&["diagnostic\n", ""]).unwrap_err(),
        io(IoErrorKind::UnexpectedEof, "server closed stdout before reporting startup")
    );
}

#[test]
fn common_startup_rejects_empty_token() {
    let error = read_server_startup(document(43827, "")).unwrap_err();
    assert_eq!(error.kind(), IoErrorKind::InvalidData);
    assert_eq!(
        read_server_startup(Err("EOF".into())).unwrap_err(),
        io(IoErrorKind::InvalidData, "server reported invalid startup JSON: EOF")
    );
}

#[test]
fn installer_lines_report_or_are_shown() {
    assert_eq!(
        ensure_server_executable("FILE_PEEKER_SERVER_READY=/bin/s\n").unwrap(),
        InstallerLine::Ready("/bin/s".into())
    );
    assert_eq!(ensure_server_executable("login banner\n").unwrap(), InstallerLine::Show);
    assert_eq!(
        ensure_server_executable("FILE_PEEKER_SERVER_ERROR=bad\n").unwrap_err(),
        io(IoErrorKind::Other, "bad")
    );
    assert_eq!(
        ensure_server_executable("").unwrap_err(),
        io(
            IoErrorKind::UnexpectedEof,
            "server installer closed stdout before reporting a result"
        )
    );
}

#[test]
fn server_commands_serve() {
    assert_eq!(local_server_arguments(), ["serve"]);
}

#[test]
fn ssh_command_uses_dynamic_forwarding() {
    assert_eq!(
        ssh_arguments(43827, "example.test"),
        ["-T", "-D", "127.0.0.1:43827", "example.test"]
    );
    assert_eq!(
        create_ssh_connection(43827, "example.test").unwrap(),
        ["-T", "-D", "127.0.0.1:43827", "example.test"]
    );
    assert_eq!(
        create_ssh_connection(43827, "").unwrap_err(),
        io(IoErrorKind::InvalidInput, "remote server is required")
    );
}

fn remote_launch() -> Launch {
    Launch::from(ConnectionConfig::Remote {
        destination: "example.test".into(),
        force_install: false,
    })
    .unwrap()
    .advance(LaunchEvent::Spawned(Ok(Pipes { stdin: true, stdout: true })))
    .advance(LaunchEvent::Sent(Ok(())))
}

fn line(text: &str) -> LaunchEvent {
    LaunchEvent::Line(Ok(text.into()))
}

#[test]
fn launches_find_the_remote_executable() {
    let expected = "/home/test/.file-peeker/servers/0.1.0/bin/file-peeker-server";
    let launch = remote_launch().advance(line("login banner\n"));
    assert_eq!(launch.phase, LaunchPhase::ShowInstaller("login banner\n".into()));
    let launch = launch
        .advance(LaunchEvent::Shown(Ok(())))
        .advance(line(&format!("{SERVER_READY_PREFIX}{expected}\n")));
    assert_eq!(launch.phase, LaunchPhase::SendStart(format!("exec '{expected}' serve\n")));
}

#[test]
fn servers_are_started_by_command() {
    assert_eq!(
        start_server("/home/test/file peeker/bin/file-peeker-server").unwrap(),
        "exec '/home/test/file peeker/bin/file-peeker-server' serve\n"
    );
    assert_eq!(
        start_server("").unwrap_err(),
        io(IoErrorKind::InvalidInput, "server executable is required")
    );
}

#[test]
fn launches_read_on_after_the_installer() {
    let launch = remote_launch()
        .advance(line("FILE_PEEKER_SERVER_READY=/bin/s\n"))
        .advance(LaunchEvent::Sent(Ok(())))
        .advance(line("server output\n"))
        .advance(line("FILE_PEEKER_SERVER_STARTUP={}\n"));
    assert_eq!(launch.phase, LaunchPhase::Decode("{}".into()));
    let launch = launch.advance(LaunchEvent::Decoded(document(43827, "test-token")));
    let info = ConnectionInfo { server_port: 43827, token: "test-token".into() };
    assert_eq!(launch.phase, LaunchPhase::Open(info.clone()));
    let launch =
        launch.advance(LaunchEvent::Opened(Ok(()))).advance(LaunchEvent::Greeted(Ok(())));
    assert_eq!(launch.phase, LaunchPhase::Connected(info));
}

#[test]
fn failed_launches_stop_the_process() {
    let lost = || io(IoErrorKind::ConnectionRefused, "lost");
    let launch = remote_launch().advance(line("FILE_PEEKER_SERVER_READY=\n"));
    assert_eq!(
        launch.phase,
        LaunchPhase::Stop(io(IoErrorKind::InvalidInput, "server executable is required"))
    );
    let launch = remote_launch().advance(LaunchEvent::Line(Err(lost())));
    assert_eq!(launch.phase, LaunchPhase::Stop(lost()));
    assert_eq!(launch.advance(LaunchEvent::Stopped).phase, LaunchPhase::Failed(lost()));
    let local = Launch::from(ConnectionConfig::Local { force_install: true }).unwrap();
    assert_eq!(
        local.phase,
        LaunchPhase::Install(LocalServerConfig { force_install: true, local_source_path: None })
    );
    assert_eq!(local.server_process(9), None);
    let local = local.advance(LaunchEvent::Installed(Ok("/bin/s".into())));
    assert_eq!(local.executable.as_deref(), Some("/bin/s"));
    let process = local.server_process(9).unwrap();
    assert_eq!((process.program.as_str(), process.arguments), ("/bin/s", vec!["serve".into()]));
    let local = local.advance(LaunchEvent::Spawned(Ok(Pipes { stdin: true, stdout: false })));
    assert_eq!(
        local.phase,
        LaunchPhase::Stop(io(
            IoErrorKind::Other,
            "server process did not provide its piped standard output"
        ))
    );
}

#[test]
fn rejects_empty_destination_on_every_attempt() {
    for _ in 0..2 {
        let error = Launch::from(ConnectionConfig::Remote {
            destination: String::new(),
            force_install: false,
        })
        .unwrap_err();
        assert_eq!(error.kind(), IoErrorKind::InvalidInput);
        assert_eq!(error.to_string(), "remote server is required");
    }
}

#[test]
fn installers_follow_the_configuration() {
    for force_install in [false, true] {
        let mut config = LocalServerConfig { force_install, local_source_path: None };
        assert_eq!(
            installer_command(&config).unwrap(),
            ensure_server_command(force_install)
        );
        config.local_source_path = Some(b"/src/it's".to_vec());
        assert_eq!(
            installer_command(&config).unwrap(),
            source_install_command(force_install, "/src/it's")
        );
        config.local_source_path = Some(vec![0xff]);
        assert_eq!(
            installer_command(&config).unwrap_err(),
            io(IoErrorKind::InvalidInput, "local server source path must be valid UTF-8")
        );
        assert!(start_installer(&config).is_err());
        let remote = Launch::from(ConnectionConfig::Remote {
            destination: "host".into(),
            force_install,
        })
        .unwrap();
        let process = remote.server_process(1080).unwrap();
        assert_eq!(process.program, "ssh");
        assert_eq!(process.arguments, ["-T", "-D", "127.0.0.1:1080", "host"]);
        let remote = remote.advance(LaunchEvent::Spawned(Ok(Pipes { stdin: true, stdout: true })));
        assert_eq!(
            remote.phase,
            LaunchPhase::SendInstaller(ensure_server_command(force_install))
        );
    }
}

#[test]
fn local_installers_run_to_their_end() {
    let pipes = Pipes { stdin: true, stdout: true };
    let config = LocalServerConfig { force_install: false, local_source_path: None };
    let phase = start_installer(&config).unwrap();
    assert_eq!(phase, InstallerPhase::Spawn(ensure_server_command(false)));
    let phase = get_server_executable(phase, InstallerEvent::Spawned(Ok(pipes)));
    assert_eq!(phase, InstallerPhase::Send(ensure_server_command(false)));
    let phase = get_server_executable(phase, InstallerEvent::Sent(Ok(())));
    let phase =
        get_server_executable(phase, InstallerEvent::Line(Ok("Compiling\n".into())));
    assert_eq!(phase, InstallerPhase::Show("Compiling\n".into()));
    let phase = get_server_executable(phase, InstallerEvent::Shown(Ok(())));
    let phase = get_server_executable(
        phase,
        InstallerEvent::Line(Ok("FILE_PEEKER_SERVER_READY=/bin/s\n".into())),
    );
    assert_eq!(phase, InstallerPhase::Await("/bin/s".into()));
    let failed = get_server_executable(
        InstallerPhase::Await("/bin/s".into()),
        InstallerEvent::Exited(Ok((false, "exit status: 1".into()))),
    );
    assert_eq!(
        failed,
        InstallerPhase::Failed(io(
            IoErrorKind::Other,
            "server installer failed with exit status: 1"
        ))
    );
    let phase =
        get_server_executable(phase, InstallerEvent::Exited(Ok((true, "exit status: 0".into()))));
    assert_eq!(phase, InstallerPhase::Done("/bin/s".into()));
}

#[test]
fn source_paths_have_to_be_utf8() {
    let mut config = LocalServerConfig::default();
    assert_eq!(local_source(&config), Ok(None));
    config.local_source_path = Some(b"/src".to_vec());
    assert_eq!(local_source(&config), Ok(Some("/src".into())));
    config.local_source_path = Some(b"/\xff".to_vec());
    assert_eq!(
        local_source(&config).unwrap_err(),
        io(IoErrorKind::InvalidInput, "local server source path must be valid UTF-8")
    );
}

#[test]
fn socks5_handshake_connects_to_remote_loopback_port() {
    let proxy = Socks5::start(43827);
    assert_eq!(proxy.outgoing(), [5, 1, 0]);
    assert_eq!(proxy.expected(), 2);
    let proxy = proxy.connect_socks5(&vec![5, 0]);
    assert_eq!(proxy.outgoing(), [5, 1, 0, 1, 127, 0, 0, 1, 171, 51]);
    let proxy = proxy.connect_socks5(&vec![5, 0, 0, 1]);
    assert_eq!(proxy.expected(), 6);
    let proxy = proxy.connect_socks5(&vec![127, 0, 0, 1, 0, 0]);
    assert_eq!(proxy, Socks5::Connected);
}

#[test]
fn socks5_refusals_are_reported() {
    let other = |message: &str| Socks5::Failed(io(IoErrorKind::Other, message));
    assert_eq!(
        Socks5::start(1).connect_socks5(&vec![5, 255]),
        other("SSH proxy rejected SOCKS5 negotiation")
    );
    let reply = || Socks5::start(1).connect_socks5(&vec![5, 0]);
    assert_eq!(
        reply().connect_socks5(&vec![4, 0, 0, 1]),
        other("SSH proxy returned an invalid SOCKS version")
    );
    assert_eq!(
        reply().connect_socks5(&vec![5, 5, 0, 1]),
        other("SSH proxy rejected the server connection with status 5")
    );
    assert_eq!(
        reply().connect_socks5(&vec![5, 0, 0, 9]),
        other("SSH proxy returned unknown SOCKS5 address type 9")
    );
    assert_eq!(reply().connect_socks5(&vec![5, 0, 0, 4]).expected(), 18);
    let named = reply().connect_socks5(&vec![5, 0, 0, 3]).connect_socks5(&vec![11]);
    assert_eq!(named.expected(), 13);
}

#[test]
fn authentication_is_not_answered() {
    assert_eq!(
        authenticate_stream("test-token"),
        ClientMessage::Auth { token: "test-token".into() }
    );
    let phase = initialize_control(ControlPhase::Authenticate, ControlEvent::Sent(Ok(())));
    assert_eq!(phase, ControlPhase::Exchange(ControlRequest::Hello));
    assert_eq!(
        control_message(ControlRequest::Hello),
        ClientMessage::Hello { version: 1, role: None }
    );
    let phase = initialize_control(
        phase,
        ControlEvent::Answered(Ok(ServerMessage::HelloOk { version: 1 })),
    );
    let phase =
        initialize_control(phase, ControlEvent::Answered(Ok(ServerMessage::HeartbeatOk)));
    assert_eq!(phase, ControlPhase::Ready);
}

#[test]
fn odd_control_answers_are_reported() {
    assert_eq!(
        exchange_control(ControlRequest::Hello, &ServerMessage::HelloOk { version: 2 })
            .unwrap_err(),
        io(
            IoErrorKind::InvalidData,
            "server returned unexpected hello response: HelloOk { version: 2 }"
        )
    );
    let refused = ServerMessage::Error { code: ErrorCode::Io, message: "no".into() };
    assert_eq!(
        exchange_control(ControlRequest::Heartbeat, &refused).unwrap_err(),
        io(IoErrorKind::Other, "server rejected heartbeat (Io): no")
    );
    assert_eq!(
        heartbeat_server(false).unwrap_err(),
        io(IoErrorKind::NotConnected, "control stream is not connected")
    );
    assert_eq!(heartbeat_server(true), Ok(ControlRequest::Heartbeat));
}

#[test]
fn shutdowns_stop_the_process_whatever_is_answered() {
    assert_eq!(begin_shutdown(false), ShutdownPhase::Stop(Ok(())));
    let phase = shutdown_server_process(
        begin_shutdown(true),
        ShutdownEvent::Answered(Ok(ServerMessage::Done)),
    );
    let error = io(
        IoErrorKind::InvalidData,
        "server returned unexpected shutdown response: Done",
    );
    assert_eq!(phase, ShutdownPhase::Stop(Err(error.clone())));
    assert_eq!(
        shutdown_server_process(phase, ShutdownEvent::Stopped),
        ShutdownPhase::Done(Err(error))
    );
}

#[test]
fn control_frames_have_no_limit() {
    let long = vec![b'x'; MAX_MESSAGE_BYTES + 1];
    let mut free = Frame::new();
    for byte in &long {
        assert_eq!(free.push(*byte, None), FrameStep::Partial);
    }
    assert_eq!(free.push(b'\n', None), FrameStep::Complete);
    assert_eq!(free.into_bytes(), long);
    let mut limited = Frame::new();
    let last = long.iter().map(|byte| limited.push(*byte, Some(MAX_MESSAGE_BYTES))).last();
    assert_eq!(last, Some(FrameStep::TooLong));
}

#[test]
fn limited_frames_end_at_the_limit() {
    let mut frame = Frame::new();
    assert_eq!(frame.push(b'a', Some(2)), FrameStep::Partial);
    assert_eq!(frame.push(b'b', Some(2)), FrameStep::Partial);
    assert_eq!(frame.push(b'c', Some(2)), FrameStep::TooLong);
}

#[test]
fn lines_are_whole_messages() {
    assert_eq!(message_of_line(&b"{}\n".to_vec()).unwrap(), b"{}");
    assert_eq!(
        message_of_line(&Vec::new()).unwrap_err(),
        FilePeekerError::ConnectionClosed {
            message: "server closed during the control handshake".into()
        }
    );
    assert_eq!(
        message_of_line(&b"{}".to_vec()).unwrap_err(),
        FilePeekerError::Protocol { message: "server response is not newline terminated".into() }
    );
    let mut long = vec![b' '; MAX_MESSAGE_BYTES + 1];
    long.push(b'\n');
    assert_eq!(
        message_of_line(&long).unwrap_err(),
        FilePeekerError::Protocol { message: "server response exceeds the size limit".into() }
    );
    assert_eq!(
        decoded(Err("bad".into())).unwrap_err(),
        FilePeekerError::Protocol { message: "server returned invalid JSON: bad".into() }
    );
}

#[test]
fn control_handshakes_are_judged() {
    assert_eq!(handshake_control(&ServerMessage::HelloOk { version: 1 }), Ok(()));
    let cases = [
        (
            ServerMessage::HelloOk { version: 3 },
            "server accepted unexpected protocol version 3",
        ),
        (
            ServerMessage::Error { code: ErrorCode::UnsupportedVersion, message: "old".into() },
            "server rejected control handshake (UnsupportedVersion): old",
        ),
        (
            ServerMessage::CurrentRoot { path: "/a\"b".into() },
            "unexpected control handshake response: CurrentRoot { path: \"/a\\\"b\" }",
        ),
    ];
    for (response, words) in cases {
        assert_eq!(
            handshake_control(&response).unwrap_err(),
            FilePeekerError::Protocol { message: words.into() }
        );
    }
}

#[test]
fn messages_are_shown_as_derived() {
    let messages = [
        ServerMessage::HelloOk { version: 12 },
        ServerMessage::HeartbeatOk,
        ServerMessage::ShutdownOk,
        ServerMessage::CurrentRoot { path: "/tab\there".into() },
        ServerMessage::Entry {
            path: "/a".into(),
            name: "a".into(),
            kind: EntryKind::Symlink,
            navigable: false,
        },
        ServerMessage::Done,
        ServerMessage::Error { code: ErrorCode::NotDirectory, message: "it's".into() },
    ];
    for message in messages {
        assert_eq!(message_debug(&message), format!("{message:?}"));
    }
}

#[test]
fn refusals_are_classified() {
    let text = || "m".to_string();
    assert_eq!(
        map_server_error(ErrorCode::InvalidPath, text()),
        FilePeekerError::InvalidPath { message: text() }
    );
    for code in [ErrorCode::NotFound, ErrorCode::PermissionDenied, ErrorCode::NotDirectory, ErrorCode::Io]
    {
        assert_eq!(map_server_error(code, text()), FilePeekerError::Io { message: text() });
    }
    assert_eq!(
        map_server_error(ErrorCode::UnsupportedVersion, text()),
        FilePeekerError::Protocol { message: text() }
    );
}

#[test]
fn statuses_become_io_errors() {
    let status = |code| GrpcStatus { code, message: "m".into() };
    let cases = [
        (GrpcCode::NotFound, IoErrorKind::NotFound, "gRPC NotFound: m"),
        (GrpcCode::Unauthenticated, IoErrorKind::PermissionDenied, "gRPC Unauthenticated: m"),
        (GrpcCode::InvalidArgument, IoErrorKind::InvalidInput, "gRPC InvalidArgument: m"),
        (GrpcCode::FailedPrecondition, IoErrorKind::NotADirectory, "gRPC FailedPrecondition: m"),
        (GrpcCode::Cancelled, IoErrorKind::Interrupted, "gRPC Cancelled: m"),
        (GrpcCode::DeadlineExceeded, IoErrorKind::TimedOut, "gRPC DeadlineExceeded: m"),
        (GrpcCode::Unavailable, IoErrorKind::ConnectionAborted, "gRPC Unavailable: m"),
        (GrpcCode::DataLoss, IoErrorKind::Other, "gRPC DataLoss: m"),
        (GrpcCode::Success, IoErrorKind::Other, "gRPC Ok: m"),
    ];
    for (code, kind, text) in cases {
        assert_eq!(status_error(&status(code)), io(kind, text));
    }
}

#[test]
fn tokens_are_presented_as_bearers() {
    assert_eq!(authenticated_request("t0k\u{e9}n").unwrap(), "Bearer t0k\u{e9}n");
    assert_eq!(
        authenticated_request("two\nlines").unwrap_err(),
        io(IoErrorKind::InvalidData, "failed to parse metadata value")
    );
    assert!(authenticated_request("a\tb").is_ok());
    assert!(authenticated_request("\u{7f}").is_err());
}

#[test]
fn health_checks_are_judged() {
    assert_eq!(check_health(&HealthOutcome::Answered(1)), Ok(()));
    assert_eq!(
        check_health(&HealthOutcome::Answered(2)).unwrap_err(),
        io(IoErrorKind::Other, "gRPC health check returned status 2")
    );
    assert_eq!(
        check_health(&HealthOutcome::TimedOut).unwrap_err(),
        io(IoErrorKind::TimedOut, "gRPC health check timed out")
    );
}

#[test]
fn stopped_servers_are_judged() {
    let exited = |success| StopOutcome::Exited { success, status: "exit status: 9".into() };
    assert_eq!(stop_outcome(exited(true)), Ok(()));
    assert_eq!(
        stop_outcome(exited(false)).unwrap_err(),
        io(IoErrorKind::Other, "server process exited unsuccessfully: exit status: 9")
    );
    assert_eq!(
        stop_outcome(StopOutcome::TimedOut).unwrap_err(),
        io(IoErrorKind::TimedOut, "server did not stop within 5 seconds")
    );
}

#[test]
fn operate_requires_connected_server() {
    let mut server = LocalServer::default();
    assert_eq!(server.operate().unwrap_err().kind(), IoErrorKind::NotConnected);
    assert_eq!(server.connect(), Ok(()));
    server.connected(
        "/bin/s".into(),
        ConnectionInfo { server_port: 9, token: "t".into() },
    );
    assert_eq!(
        server.connect().unwrap_err(),
        io(IoErrorKind::AlreadyExists, "local server is already connected")
    );
    assert_eq!(
        server.operate().unwrap(),
        &RemoteServerStartup { forward_port: 9, token: "t".into() }
    );
    assert_eq!(server.server_executable().unwrap(), "/bin/s");
    assert_eq!(server.heartbeat(), Ok(ControlRequest::Heartbeat));
    assert!(server.shutdown());
    assert!(!server.shutdown());
    assert_eq!(server.startup().unwrap().forward_port, 9);
    assert_eq!(
        server.operate().unwrap_err(),
        io(IoErrorKind::NotConnected, "server is not started")
    );
    assert_eq!(
        server.heartbeat().unwrap_err(),
        io(IoErrorKind::NotConnected, "control stream is not connected")
    );
    server.connected("/bin/s".into(), ConnectionInfo { server_port: 10, token: "u".into() });
    assert_eq!(server.operate().unwrap().forward_port, 10);
}
