use file_peeker_client::cli::install::{
    finish_installer, remote_extract_command, remote_installer_command, run_source_installer, source_install_command,
    SOURCE_INSTALL_SCRIPT,
};
use file_peeker_client::cli::upload::{
    archive_arguments, filter_existing_project_files, list_arguments, project_file_names,
    upload_arguments, upload_project_dir, ExitReport, UploadEvent, UploadPhase,
};
use file_peeker_client::connection::installer::Pipes;
use file_peeker_client::connection::lines::{ensure_server_command, InstallerLine};
use file_peeker_client::install::course::{
    InstallAction, InstallCourse, InstallEvent, InstallPhase,
};
use file_peeker_client::install::run::{
    run_local_cargo, run_remote_script, run_workspace_ssh, workspace_root, CargoOutcome,
    ScriptOutcome, SshOutcome,
};
use file_peeker_client::install::{
    append_output, build_remote_command, format_diagnostics, is_exact_stable_version,
    parse_success_response, remote_server_is_compatible, validate_config, verify_version_json,
    RemoteInstallConfig, RemoteInstallError, RemoteInstallOutcome, RemoteInstallPolicy,
    RemoteInstallSource, REMOTE_SCRIPT,
};
use file_peeker_client::io_error::{IoError, IoErrorKind};
use file_peeker_client::remote_server_install;
use file_peeker_client::shell::shell_quote;
use file_peeker_client::startup::diagnostics::BoundedOutput;
use file_peeker_client::startup::ssh::CommandOutput;
use file_peeker_client::startup::PACKAGE_VERSION;

fn config(policy: RemoteInstallPolicy, source: RemoteInstallSource) -> RemoteInstallConfig {
    RemoteInstallConfig {
        destination: "test-remote".into(),
        server_version: "0.1.0".into(),
        ssh_executable: "ssh".into(),
        ssh_arguments: Vec::new(),
        remote_cargo: Some("/opt/cargo".into()),
        timeout_nanos: 50_000_000,
        output_limit: 64 * 1024,
        source,
        policy,
    }
}

fn printed(text: &str) -> ScriptOutcome {
    ScriptOutcome::Exited {
        success: true,
        code: Some(0),
        stdout: BoundedOutput { bytes: text.as_bytes().to_vec(), truncated: false },
        stderr: BoundedOutput { bytes: Vec::new(), truncated: false },
    }
}

const INSTALLED: &str =
    "Compiling\nFILE_PEEKER_INSTALL_OUTCOME=installed\n{\"server_version\":\"0.1.0\",\"protocol_versions\":[1]}\n";
const PRESENT: &str =
    "FILE_PEEKER_INSTALL_OUTCOME=already_installed\n{\"server_version\":\"0.1.0\",\"protocol_versions\":[1]}\n";

#[test]
fn source_install_command_quotes_path_and_preserves_force() {
    let command = source_install_command(false, "/tmp/file peeker's source");
    let forced_command = source_install_command(true, "/tmp/file-peeker");
    let version = PACKAGE_VERSION;

    assert!(command.starts_with(&format!(
        "sh -s -- '{version}' 'false' '/tmp/file peeker'\"'\"'s source' <<"
    )));
    assert!(forced_command.starts_with(&format!(
        "sh -s -- '{version}' 'true' '/tmp/file-peeker' <<"
    )));
    assert!(command.contains(SOURCE_INSTALL_SCRIPT));
    assert!(SOURCE_INSTALL_SCRIPT.contains("--path \"$source_root/crates/file-peeker-server\""));
    assert!(SOURCE_INSTALL_SCRIPT.contains("--root \"$server_root\""));
    assert!(SOURCE_INSTALL_SCRIPT.contains("--force"));
}

#[test]
fn remote_installers_build_from_uploaded_sources() {
    for force in [false, true] {
        assert_eq!(
            remote_installer_command(force, true),
            source_install_command(force, ".file-peeker/debug/repo")
        );
        assert_eq!(remote_installer_command(force, false), ensure_server_command(force));
    }
}

#[test]
fn remote_extract_command_quotes_project_dir() {
    assert_eq!(
        remote_extract_command("source dir's copy"),
        "mkdir -p 'source dir'\"'\"'s copy' && tar -xzf - -C 'source dir'\"'\"'s copy'"
    );
}

#[test]
fn project_file_filter_removes_deleted_paths() {
    let files = b"Cargo.toml\0definitely-not-a-project-file\0";

    assert_eq!(
        filter_existing_project_files(files, &vec!["Cargo.toml".to_string()])
            .expect("project file list should be valid"),
        b"Cargo.toml\0"
    );
}

#[test]
fn project_files_have_to_be_utf8() {
    assert_eq!(
        project_file_names(b"a\0\0b c\0").unwrap(),
        vec!["a".to_string(), "b c".to_string()]
    );
    let error = project_file_names(b"ok\0bad\xff\0").unwrap_err();
    assert_eq!(error.kind(), IoErrorKind::InvalidData);
    assert_eq!(error.to_string(), "invalid utf-8 sequence of 1 bytes from index 3");
}

#[test]
fn install_validates_exact_stable_versions() {
    assert!(is_exact_stable_version("0.1.0"));
    assert!(is_exact_stable_version("12.34.56"));
    assert!(!is_exact_stable_version("1.0"));
    assert!(!is_exact_stable_version("1.0.0-beta.1"));
    assert!(!is_exact_stable_version("01.0.0"));
}

#[test]
fn remote_server_install_validates_exact_stable_versions() {
    assert!(is_exact_stable_version("0.1.0"));
    assert!(is_exact_stable_version("12.34.56"));
    assert!(!is_exact_stable_version("1.0"));
    assert!(!is_exact_stable_version("1.0.0-beta.1"));
    assert!(!is_exact_stable_version("01.0.0"));
}

#[test]
fn install_quotes_remote_shell_arguments() {
    assert_eq!(shell_quote("plain"), "'plain'");
    assert_eq!(shell_quote("a b'c"), "'a b'\"'\"'c'");
}

#[test]
fn remote_server_install_quotes_remote_shell_arguments() {
    assert_eq!(shell_quote("plain"), "'plain'");
    assert_eq!(shell_quote("a b'c"), "'a b'\"'\"'c'");
}

#[test]
fn unified_script_supports_workspace_and_crates_io_sources() {
    assert!(REMOTE_SCRIPT.contains("$HOME/.file-peeker/servers/$version"));
    assert!(REMOTE_SCRIPT.contains("--version \"$version\""));
    assert!(REMOTE_SCRIPT.contains("--path \"$server_package\""));
    assert!(REMOTE_SCRIPT.contains("crates_io)"));
    assert!(REMOTE_SCRIPT.contains("workspace)"));
    assert!(REMOTE_SCRIPT.contains("FILE_PEEKER_INSTALL_REQUIRED"));
    assert!(REMOTE_SCRIPT.contains("file-peeker-server"));
    for prohibited in ["--git", "--registry", "--index"] {
        assert!(!REMOTE_SCRIPT.contains(prohibited));
    }
}

#[test]
fn production_script_uses_only_crates_io_package_installation() {
    let script = remote_server_install::REMOTE_SCRIPT;
    assert!(script.contains("$HOME/.file-peeker/servers/$version"));
    assert!(script.contains("--version \"$version\""));
    assert!(script.contains("file-peeker-server"));
    for prohibited in ["--path", "--git", "--registry", "--index"] {
        assert!(!script.contains(prohibited));
    }
}

#[test]
fn install_rejects_an_incompatible_success_response() {
    let response = b"FILE_PEEKER_INSTALL_OUTCOME=installed
{\"server_version\":\"9.9.9\",\"protocol_versions\":[1]}
";

    let error = parse_success_response(response, false, "0.1.0")
        .expect_err("a different server version must not be accepted");
    assert!(matches!(error, RemoteInstallError::InvalidResponse(_)));
}

#[test]
fn remote_server_install_rejects_an_incompatible_success_response() {
    let response = "FILE_PEEKER_INSTALL_OUTCOME=installed
{\"server_version\":\"9.9.9\",\"protocol_versions\":[1]}
";

    let error = remote_server_install::install_remote_server(
        &config(RemoteInstallPolicy::ReuseExisting, RemoteInstallSource::CratesIo),
        printed(response),
    )
    .expect_err("a different server version must not be accepted");
    assert!(matches!(error, RemoteInstallError::InvalidResponse(_)));
}

#[test]
fn success_responses_name_the_outcome() {
    assert_eq!(
        parse_success_response(INSTALLED.as_bytes(), false, "0.1.0").unwrap(),
        RemoteInstallOutcome::Installed
    );
    assert_eq!(
        parse_success_response(PRESENT.as_bytes(), false, "0.1.0").unwrap(),
        RemoteInstallOutcome::AlreadyInstalled
    );
    let cases: [(&[u8], bool, &str); 5] = [
        (INSTALLED.as_bytes(), true, "SSH stdout exceeded the configured limit"),
        (b"\xff", false, "invalid utf-8 sequence of 1 bytes from index 0"),
        (b"one line", false, "missing completion marker or version JSON"),
        (
            b"other\n{\"server_version\":\"0.1.0\",\"protocol_versions\":[1]}",
            false,
            "unknown completion marker",
        ),
        (
            b"FILE_PEEKER_INSTALL_OUTCOME=installed\r\n{\"server_version\":\"0.1.0\"}\r\n",
            false,
            "missing protocol_versions array",
        ),
    ];
    for (stdout, truncated, words) in cases {
        assert_eq!(
            parse_success_response(stdout, truncated, "0.1.0").unwrap_err(),
            RemoteInstallError::InvalidResponse(words.into())
        );
    }
}

#[test]
fn version_documents_are_read_by_their_members() {
    assert!(verify_version_json(
        "{\"protocol_versions\":[3, 1], \"server_version\":\"0.1.0\"}",
        "0.1.0"
    )
    .is_ok());
    assert_eq!(
        verify_version_json("{\"server_version\":\"0.1.0\",\"protocol_versions\":[\"1\"]}", "0.1.0")
            .unwrap_err(),
        RemoteInstallError::InvalidResponse("server version response is incompatible".into())
    );
    assert_eq!(
        verify_version_json("not json", "0.1.0").unwrap_err(),
        RemoteInstallError::InvalidResponse("expected ident at line 1 column 2".into())
    );
    assert_eq!(
        verify_version_json("[1]", "0.1.0").unwrap_err(),
        RemoteInstallError::InvalidResponse("missing protocol_versions array".into())
    );
}

#[test]
fn checks_tell_whether_a_server_is_there() {
    assert_eq!(remote_server_is_compatible(PRESENT.as_bytes(), false, "0.1.0"), Ok(true));
    assert_eq!(
        remote_server_is_compatible(b"  FILE_PEEKER_INSTALL_REQUIRED\n", false, "0.1.0"),
        Ok(false)
    );
    assert_eq!(
        remote_server_is_compatible(b"what?", false, "0.1.0"),
        Err(RemoteInstallError::InvalidResponse("unknown installation check response".into()))
    );
}

#[test]
fn installation_errors_are_shown() {
    let cases = [
        (
            RemoteInstallError::InvalidConfig("x".into()),
            "invalid remote installation configuration: x",
        ),
        (RemoteInstallError::Spawn("x".into()), "failed to start SSH: x"),
        (RemoteInstallError::Timeout(50), "remote installation timed out after 50 ms"),
        (
            RemoteInstallError::Failed { diagnostics: "x".into() },
            "SSH exited unsuccessfully: x",
        ),
        (
            RemoteInstallError::InvalidResponse("x".into()),
            "invalid remote installation response: x",
        ),
        (RemoteInstallError::Io("x".into()), "failed to communicate with SSH: x"),
    ];
    for (error, text) in cases {
        assert_eq!(error.to_string(), text);
    }
}

#[test]
fn configurations_are_validated_in_order() {
    let fresh = || config(RemoteInstallPolicy::ReuseExisting, RemoteInstallSource::CratesIo);
    assert_eq!(validate_config(&fresh()), Ok(()));
    let mut c = fresh();
    c.remote_cargo = Some(String::new());
    assert_eq!(
        validate_config(&c).unwrap_err(),
        RemoteInstallError::InvalidConfig("remote Cargo executable must not be empty".into())
    );
    c.output_limit = 0;
    assert_eq!(
        validate_config(&c).unwrap_err(),
        RemoteInstallError::InvalidConfig("output limit must be positive".into())
    );
    c.timeout_nanos = 0;
    assert_eq!(
        validate_config(&c).unwrap_err(),
        RemoteInstallError::InvalidConfig("installation timeout must be positive".into())
    );
    c.server_version = "1".into();
    assert_eq!(
        validate_config(&c).unwrap_err(),
        RemoteInstallError::InvalidConfig(
            "server version must use exact MAJOR.MINOR.PATCH form".into()
        )
    );
    c.ssh_executable = String::new();
    assert_eq!(
        validate_config(&c).unwrap_err(),
        RemoteInstallError::InvalidConfig("SSH executable is required".into())
    );
    c.destination = "-x".into();
    assert_eq!(
        validate_config(&c).unwrap_err(),
        RemoteInstallError::InvalidConfig(
            "SSH destination is required and must not begin with `-`".into()
        )
    );
}

#[test]
fn commands_carry_every_setting() {
    let c = config(RemoteInstallPolicy::Overwrite, RemoteInstallSource::Workspace);
    assert_eq!(
        build_remote_command(&c, "/tmp/root", false),
        "'sh' '-s' '--' '0.1.0' '/opt/cargo' '1' 'workspace' '/tmp/root' 'overwrite'"
    );
    assert_eq!(
        build_remote_command(&c, "", true),
        "'sh' '-s' '--' '0.1.0' '/opt/cargo' '1' 'check' '' 'overwrite'"
    );
    assert_eq!(
        remote_server_install::build_remote_command(&c),
        "'sh' '-s' '--' '0.1.0' '/opt/cargo' 1"
    );
    let build = RemoteInstallConfig::for_current_build(
        "host".into(),
        RemoteInstallPolicy::ReuseExisting,
        false,
    );
    assert_eq!(build.source, RemoteInstallSource::CratesIo);
    assert_eq!(
        build_remote_command(&build, "", false),
        "'sh' '-s' '--' '0.1.0' '' '1' 'crates_io' '' 'reuse'"
    );
}

#[test]
fn diagnostics_show_code_and_output() {
    let stdout = BoundedOutput { bytes: b" out \n".to_vec(), truncated: true };
    let stderr = BoundedOutput { bytes: b"err\xff".to_vec(), truncated: false };
    assert_eq!(
        format_diagnostics(Some(-7), &stdout, &stderr),
        "exit code -7; stdout: out [truncated]; stderr: err\u{fffd}"
    );
    let nothing = BoundedOutput { bytes: Vec::new(), truncated: false };
    assert_eq!(format_diagnostics(None, &nothing, &nothing), "exit code unknown");
    let mut text = "x".to_string();
    append_output(&mut text, "stdout", &stdout);
    assert_eq!(text, "x; stdout: out [truncated]");
}

#[test]
fn script_outcomes_become_errors() {
    let c = config(RemoteInstallPolicy::ReuseExisting, RemoteInstallSource::CratesIo);
    let cases = [
        (ScriptOutcome::NotSpawned("no".into()), RemoteInstallError::Spawn("no".into())),
        (
            ScriptOutcome::NoStdin,
            RemoteInstallError::Io("SSH stdin was not available".into()),
        ),
        (
            ScriptOutcome::NoStdout,
            RemoteInstallError::Io("SSH stdout was not available".into()),
        ),
        (
            ScriptOutcome::NoStderr,
            RemoteInstallError::Io("SSH stderr was not available".into()),
        ),
        (ScriptOutcome::NotWritten("w".into()), RemoteInstallError::Io("w".into())),
        (ScriptOutcome::NotAwaited("a".into()), RemoteInstallError::Io("a".into())),
        (ScriptOutcome::TimedOut, RemoteInstallError::Timeout(50)),
        (ScriptOutcome::NotRead("r".into()), RemoteInstallError::Io("r".into())),
    ];
    for (outcome, error) in cases {
        assert_eq!(run_remote_script(&c, outcome).unwrap_err(), error);
    }
    let failed = ScriptOutcome::Exited {
        success: false,
        code: Some(3),
        stdout: BoundedOutput { bytes: Vec::new(), truncated: false },
        stderr: BoundedOutput { bytes: b"boom".to_vec(), truncated: false },
    };
    assert_eq!(
        run_remote_script(&c, failed).unwrap_err(),
        RemoteInstallError::Failed { diagnostics: "exit code 3; stderr: boom".into() }
    );
    assert_eq!(
        run_workspace_ssh(&c, SshOutcome::Exited { success: false, status: "signal: 9".into() })
            .unwrap_err(),
        RemoteInstallError::Failed { diagnostics: "SSH exited with signal: 9".into() }
    );
    assert_eq!(
        run_workspace_ssh(
            &c,
            SshOutcome::NoInput { path: "/p".into(), words: "gone".into() }
        )
        .unwrap_err(),
        RemoteInstallError::Io("cannot read /p: gone".into())
    );
    assert_eq!(
        run_local_cargo(
            CargoOutcome::Exited { success: false, status: "exit status: 101".into() },
            "package server crate"
        )
        .unwrap_err(),
        RemoteInstallError::Failed {
            diagnostics: "failed to package server crate: exit status: 101".into()
        }
    );
    assert_eq!(
        run_local_cargo(CargoOutcome::NotSpawned("no cargo".into()), "package server crate")
            .unwrap_err(),
        RemoteInstallError::Spawn("cannot package server crate: no cargo".into())
    );
}

#[test]
fn reused_servers_are_not_installed_again() {
    let c = config(RemoteInstallPolicy::ReuseExisting, RemoteInstallSource::Workspace);
    let course =
        InstallCourse::install_remote_server(c, "/work/crates/client".into()).unwrap();
    assert_eq!(
        course.action(),
        InstallAction::RunScript {
            command: "'sh' '-s' '--' '0.1.0' '/opt/cargo' '1' 'check' '' 'reuse'".into()
        }
    );
    let course = course.advance(InstallEvent::Script(printed(PRESENT)));
    assert_eq!(
        course.phase,
        InstallPhase::Finished(Ok(RemoteInstallOutcome::AlreadyInstalled))
    );
    assert_eq!(course.action(), InstallAction::Nothing);
}

#[test]
fn workspace_installations_transfer_and_clean_up() {
    let done = || SshOutcome::Exited { success: true, status: "exit status: 0".into() };
    let built = || CargoOutcome::Exited { success: true, status: "exit status: 0".into() };
    let c = config(RemoteInstallPolicy::Overwrite, RemoteInstallSource::Workspace);
    let course =
        InstallCourse::install_remote_server(c, "/work/crates/client".into()).unwrap();
    assert_eq!(course.workspace.as_deref(), Some("/work"));
    assert_eq!(
        course.action(),
        InstallAction::Cargo {
            arguments: vec![
                "package".into(),
                "--manifest-path".into(),
                "/work/crates/file-peeker-protocol/Cargo.toml".into(),
                "--allow-dirty".into(),
                "--no-verify".into(),
            ]
        }
    );
    let course = course.advance(InstallEvent::Cargo(built()));
    let course = course.advance(InstallEvent::Cargo(built()));
    assert_eq!(course.action(), InstallAction::NameRoot);
    let course = course.advance(InstallEvent::Named { pid: 7, nanos: Ok(99) });
    assert_eq!(
        course.action(),
        InstallAction::Ssh {
            command: "mkdir -m 700 '/tmp/file-peeker-dev-install-7-99'".into(),
            input: None
        }
    );
    let course = course.advance(InstallEvent::Ssh(done()));
    assert_eq!(
        course.action(),
        InstallAction::Ssh {
            command: "cat > '/tmp/file-peeker-dev-install-7-99/protocol.crate'".into(),
            input: Some("/work/target/package/file-peeker-protocol-0.1.0.crate".into())
        }
    );
    let course = course.advance(InstallEvent::Ssh(done()));
    let course = course.advance(InstallEvent::Ssh(done()));
    assert_eq!(course.phase, InstallPhase::Install);
    let course = course.advance(InstallEvent::Script(printed(INSTALLED)));
    assert_eq!(course.phase, InstallPhase::CleanUp(Ok(RemoteInstallOutcome::Installed)));
    assert_eq!(
        course.action(),
        InstallAction::Ssh {
            command: "rm -rf '/tmp/file-peeker-dev-install-7-99'".into(),
            input: None
        }
    );
    let course = course.advance(InstallEvent::Ssh(SshOutcome::TimedOut));
    assert_eq!(course.phase, InstallPhase::Finished(Err(RemoteInstallError::Timeout(50))));
}

#[test]
fn failed_transfers_keep_their_error_through_the_clean_up() {
    let done = || SshOutcome::Exited { success: true, status: "exit status: 0".into() };
    let mut course = InstallCourse::install_remote_server(
        config(RemoteInstallPolicy::Overwrite, RemoteInstallSource::Workspace),
        "/work/crates/client".into(),
    )
    .unwrap();
    course.phase = InstallPhase::NameRoot;
    let course = course.advance(InstallEvent::Named { pid: 1, nanos: Ok(2) });
    let course = course.advance(InstallEvent::Ssh(done()));
    let course = course.advance(InstallEvent::Ssh(SshOutcome::NoStdin));
    assert!(matches!(course.phase, InstallPhase::CleanUp(Err(_))));
    let course = course.advance(InstallEvent::Ssh(SshOutcome::TimedOut));
    assert_eq!(
        course.phase,
        InstallPhase::Finished(Err(RemoteInstallError::Io("SSH stdin was not available".into())))
    );
}

/// Runs an installation to its end with steps that go well and a host that prints `text`, and
/// returns how many of its steps ran on this machine or sent anything.
fn run_to_end(c: RemoteInstallConfig, text: &str) -> (RemoteInstallOutcome, usize) {
    let mut course = InstallCourse::install_remote_server(c, "/work/crates/client".into()).unwrap();
    let mut transfers = 0;
    for _ in 0..9 {
        let event = match course.action() {
            InstallAction::RunScript { .. } => InstallEvent::Script(printed(text)),
            InstallAction::Cargo { .. } => {
                transfers += 1;
                InstallEvent::Cargo(CargoOutcome::Exited {
                    success: true,
                    status: "exit status: 0".into(),
                })
            }
            InstallAction::NameRoot => InstallEvent::Named { pid: 1, nanos: Ok(2) },
            InstallAction::Ssh { .. } => {
                transfers += 1;
                InstallEvent::Ssh(SshOutcome::Exited {
                    success: true,
                    status: "exit status: 0".into(),
                })
            }
            InstallAction::Nothing => break,
        };
        course = course.advance(event);
    }
    match course.phase {
        InstallPhase::Finished(Ok(outcome)) => (outcome, transfers),
        phase => panic!("the installation did not succeed: {phase:?}"),
    }
}

#[test]
fn repeated_installations_reuse_the_server_without_packaging() {
    let first = config(RemoteInstallPolicy::Overwrite, RemoteInstallSource::CratesIo);
    assert_eq!(run_to_end(first, INSTALLED), (RemoteInstallOutcome::Installed, 0));
    for source in [RemoteInstallSource::CratesIo, RemoteInstallSource::Workspace] {
        let again = config(RemoteInstallPolicy::ReuseExisting, source);
        assert_eq!(run_to_end(again, PRESENT), (RemoteInstallOutcome::AlreadyInstalled, 0));
    }
}

#[test]
fn repeated_releases_are_recognized() {
    let c = config(RemoteInstallPolicy::ReuseExisting, RemoteInstallSource::CratesIo);
    assert_eq!(
        remote_server_install::install_remote_server(&c, printed(INSTALLED)),
        Ok(RemoteInstallOutcome::Installed)
    );
    assert_eq!(
        remote_server_install::install_remote_server(&c, printed(PRESENT)),
        Ok(RemoteInstallOutcome::AlreadyInstalled)
    );
}

#[test]
fn missing_servers_are_installed_after_the_check() {
    let c = config(RemoteInstallPolicy::ReuseExisting, RemoteInstallSource::CratesIo);
    let course = InstallCourse::install_remote_server(c, "/work/crates/client".into()).unwrap();
    let course =
        course.advance(InstallEvent::Script(printed("FILE_PEEKER_INSTALL_REQUIRED\n")));
    assert_eq!(course.phase, InstallPhase::Install);
    let course = course.advance(InstallEvent::Script(printed(INSTALLED)));
    assert_eq!(course.phase, InstallPhase::Finished(Ok(RemoteInstallOutcome::Installed)));
}

#[test]
fn overwriting_installs_every_time() {
    for (source, transfers) in
        [(RemoteInstallSource::CratesIo, 0), (RemoteInstallSource::Workspace, 6)]
    {
        for _ in 0..2 {
            let c = config(RemoteInstallPolicy::Overwrite, source);
            assert_eq!(run_to_end(c, INSTALLED), (RemoteInstallOutcome::Installed, transfers));
        }
    }
}

#[test]
fn install_requires_an_explicit_destination() {
    let mut c = config(RemoteInstallPolicy::ReuseExisting, RemoteInstallSource::CratesIo);
    c.destination.clear();
    let error = InstallCourse::install_remote_server(c, "/work/crates/client".into())
        .expect_err("missing destinations must fail");
    assert!(matches!(error, RemoteInstallError::InvalidConfig(_)));
}

#[test]
fn remote_server_install_requires_an_explicit_destination() {
    let mut c = config(RemoteInstallPolicy::ReuseExisting, RemoteInstallSource::CratesIo);
    c.destination.clear();
    let error = remote_server_install::begin_install(&c)
        .expect_err("missing destinations must fail");
    assert!(matches!(error, RemoteInstallError::InvalidConfig(_)));
}

#[test]
fn workspaces_are_two_levels_up() {
    assert_eq!(workspace_root("/work/crates/client").unwrap(), "/work");
    assert_eq!(
        workspace_root("/client").unwrap_err(),
        RemoteInstallError::InvalidConfig("cannot locate workspace root".into())
    );
}

#[test]
fn source_installers_report_by_lines() {
    assert_eq!(
        run_source_installer("FILE_PEEKER_SERVER_READY=/bin/server\r\n").unwrap(),
        InstallerLine::Ready("/bin/server".into())
    );
    assert_eq!(run_source_installer("Compiling\n").unwrap(), InstallerLine::Show);
    assert_eq!(
        run_source_installer("FILE_PEEKER_SERVER_ERROR=no cargo\n").unwrap_err(),
        IoError { kind: IoErrorKind::Other, message: "no cargo".into() }
    );
    assert_eq!(
        run_source_installer("half").unwrap_err(),
        IoError {
            kind: IoErrorKind::UnexpectedEof,
            message: "source installer closed stdout before reporting a result".into()
        }
    );
    let lost = || IoError { kind: IoErrorKind::BrokenPipe, message: "lost".into() };
    assert_eq!(finish_installer(Ok("x".into()), Err(lost()), Ok(())), Err(lost()));
    assert_eq!(finish_installer(Ok("x".into()), Ok(()), Ok(())), Ok("x".into()));
}

fn listed(text: &[u8]) -> UploadEvent {
    UploadEvent::Listed(Ok(CommandOutput {
        success: true,
        status: "exit status: 0".into(),
        stdout: text.to_vec(),
        stderr: Vec::new(),
    }))
}

#[test]
fn uploads_stream_archives_into_ssh() {
    let pipes = Pipes { stdin: true, stdout: true };
    let ok = || ExitReport { success: true, status: "exit status: 0".into() };
    let phase = upload_project_dir(UploadPhase::ListFiles, listed(b"payload.txt\0"));
    let phase = upload_project_dir(phase, UploadEvent::Found(vec!["payload.txt".into()]));
    assert_eq!(phase, UploadPhase::SpawnArchive(b"payload.txt\0".to_vec()));
    let phase = upload_project_dir(phase, UploadEvent::ArchiveSpawned(Ok(pipes)));
    let phase = upload_project_dir(phase, UploadEvent::UploadSpawned(Ok(true)));
    assert_eq!(phase, UploadPhase::Transfer(b"payload.txt\0".to_vec()));
    let phase = upload_project_dir(phase, UploadEvent::Transferred(Ok(())));
    let phase = upload_project_dir(phase, UploadEvent::Ended { ssh: ok(), archive: ok() });
    assert_eq!(phase, UploadPhase::Done);
    assert_eq!(
        upload_arguments("example.test", ".file-peeker/repo"),
        vec![
            "example.test".to_string(),
            "mkdir -p '.file-peeker/repo' && tar -xzf - -C '.file-peeker/repo'".to_string()
        ]
    );
    assert_eq!(list_arguments("/p").len(), 7);
    assert_eq!(archive_arguments("/p")[4], "/p");
}

#[test]
fn upload_reports_unsuccessful_ssh_status() {
    let phase = upload_project_dir(
        UploadPhase::Await,
        UploadEvent::Ended {
            ssh: ExitReport { success: false, status: "exit status: 7".into() },
            archive: ExitReport { success: true, status: "exit status: 0".into() },
        },
    );
    match phase {
        UploadPhase::Failed(error) => {
            assert!(error.to_string().contains("SSH project upload failed"));
            assert_eq!(error.to_string(), "SSH project upload failed with exit status: 7");
        }
        other => panic!("unexpected phase {other:?}"),
    }
}

#[test]
fn failed_uploads_stop_what_runs() {
    let gone = || IoError { kind: IoErrorKind::NotFound, message: "gone".into() };
    assert_eq!(
        upload_project_dir(
            UploadPhase::SpawnUpload(Vec::new()),
            UploadEvent::UploadSpawned(Err(gone()))
        ),
        UploadPhase::StopArchive(gone())
    );
    assert_eq!(
        upload_project_dir(
            UploadPhase::Transfer(Vec::new()),
            UploadEvent::Transferred(Err(gone()))
        ),
        UploadPhase::StopBoth(gone())
    );
    assert_eq!(
        upload_project_dir(UploadPhase::StopBoth(gone()), UploadEvent::Stopped),
        UploadPhase::Failed(gone())
    );
    let refused = UploadEvent::Listed(Ok(CommandOutput {
        success: false,
        status: "exit status: 128".into(),
        stdout: Vec::new(),
        stderr: b" not a repository\n".to_vec(),
    }));
    assert_eq!(
        upload_project_dir(UploadPhase::ListFiles, refused),
        UploadPhase::Failed(IoError {
            kind: IoErrorKind::Other,
            message: "cannot list project files: not a repository".into()
        })
    );
}
