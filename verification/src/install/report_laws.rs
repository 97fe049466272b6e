//! What an installation tells about its steps, as a whole.

use vstd::prelude::*;

use crate::bytes::lossy_text;
use crate::install::course::{result_view, starts, InstallCourse, InstallEvent, InstallPhase};
use crate::install::run::{
    cargo_error, package_protocol_arguments, package_server_arguments, script_error, ssh_error,
    workspace_of, CargoOutcome, ScriptOutcome, SshOutcome,
};
use crate::install::{
    check_outcome, diagnostics_text, install_error_text, output_text, response_outcome, InstallErrorView,
    RemoteInstallConfig, RemoteInstallOutcome, RemoteInstallPolicy, RemoteInstallSource,
};
use crate::path_laws::law_joining_puts_one_slash_between;
use crate::remote_server_install::{install_result, release_command, release_words};
use crate::shell::{law_quoted_words_are_read_back, quoted_words, shell_words, QuoteState};
use crate::startup::diagnostics::BoundedOutput;
use crate::text::{decimal_text, has_prefix, integer_text, texts, trimmed};
use crate::text_laws::{ends_in, law_decimals_are_read_back, lemma_ends_in};
use crate::unix_path::joined;

verus! {

/// A step that failed tells the words that came with the failure, and is reported as what it is: a
/// program that could not be started, a broken exchange with it, or its own failure.
pub proof fn law_failed_steps_tell_their_words(
    config: RemoteInstallConfig,
    script: ScriptOutcome,
    ssh: SshOutcome,
    cargo: CargoOutcome,
    action: Seq<char>,
)
    ensures
        script matches ScriptOutcome::NotWritten(words) ==> script_error(config, script) == Some(
            InstallErrorView::Io(words@),
        ),
        script matches ScriptOutcome::NotAwaited(words) ==> script_error(config, script) == Some(
            InstallErrorView::Io(words@),
        ),
        script matches ScriptOutcome::NotRead(words) ==> script_error(config, script) == Some(
            InstallErrorView::Io(words@),
        ),
        script is NoStdin || script is NoStdout || script is NoStderr ==> (script_error(
            config,
            script,
        ) matches Some(InstallErrorView::Io(_))),
        script matches ScriptOutcome::Exited { success, code, stdout, stderr } ==> (!success ==> (
        script_error(config, script) matches Some(InstallErrorView::Failed(told)) && told
            == diagnostics_text(code, stdout, stderr))),
        ssh matches SshOutcome::NoInput { path, words } ==> (ssh_error(config, ssh) matches Some(
            InstallErrorView::Io(told),
        ) && ends_in(told, words@)),
        ssh matches SshOutcome::NotWritten(words) ==> ssh_error(config, ssh) == Some(
            InstallErrorView::Io(words@),
        ),
        ssh matches SshOutcome::NotAwaited(words) ==> ssh_error(config, ssh) == Some(
            InstallErrorView::Io(words@),
        ),
        ssh matches SshOutcome::Exited { success, status } ==> (!success ==> (ssh_error(
            config,
            ssh,
        ) matches Some(InstallErrorView::Failed(told)) && ends_in(told, status@))),
        cargo matches CargoOutcome::NotSpawned(words) ==> (cargo_error(cargo, action) matches Some(
            InstallErrorView::Spawn(told),
        ) && ends_in(told, action + ": "@ + words@)),
        cargo matches CargoOutcome::Exited { success, status } ==> (!success ==> (cargo_error(
            cargo,
            action,
        ) matches Some(InstallErrorView::Failed(told)) && ends_in(told, action + ": "@ + status@))),
{
    match ssh {
        SshOutcome::NoInput { path, words } => {
            lemma_ends_in("cannot read "@ + path@ + ": "@, words@);
        },
        SshOutcome::Exited { success, status } => {
            lemma_ends_in("SSH exited with "@, status@);
        },
        _ => {},
    }
    match cargo {
        CargoOutcome::NotSpawned(words) => {
            lemma_ends_in("cannot "@, action + ": "@ + words@);
            assert("cannot "@ + action + ": "@ + words@ =~= "cannot "@ + (action + ": "@ + words@));
        },
        CargoOutcome::Exited { success, status } => {
            lemma_ends_in("failed to "@, action + ": "@ + status@);
            assert("failed to "@ + action + ": "@ + status@ =~= "failed to "@ + (action + ": "@
                + status@));
        },
    }
}

/// What is told about a failed command starts with its exit code and goes on with what it printed: its
/// output first, then its errors, and nothing for a stream that stayed empty.
pub proof fn law_diagnostics_tell_code_and_output(
    code: Option<i32>,
    stdout: BoundedOutput,
    stderr: BoundedOutput,
)
    ensures
        code matches Some(number) ==> has_prefix(
            diagnostics_text(code, stdout, stderr),
            "exit code "@ + integer_text(number as int),
        ),
        code is None ==> has_prefix(diagnostics_text(code, stdout, stderr), "exit code unknown"@),
        ends_in(
            diagnostics_text(code, stdout, stderr),
            output_text("stdout"@, stdout) + output_text("stderr"@, stderr),
        ),
        stdout.bytes@.len() == 0 <==> output_text("stdout"@, stdout).len() == 0,
        stdout.bytes@.len() > 0 ==> has_prefix(output_text("stdout"@, stdout), "; stdout: "@),
        stderr.bytes@.len() > 0 ==> has_prefix(output_text("stderr"@, stderr), "; stderr: "@),
        stderr.bytes@.len() == 0 <==> output_text("stderr"@, stderr).len() == 0,
        stderr.bytes@.len() > 0 && stderr.truncated ==> ends_in(
            output_text("stderr"@, stderr),
            " [truncated]"@,
        ),
{
    reveal_strlit("exit code ");
    reveal_strlit("unknown");
    reveal_strlit("exit code unknown");
    reveal_strlit("; ");
    reveal_strlit(": ");
    reveal_strlit("");
    reveal_strlit("stdout");
    reveal_strlit("stderr");
    reveal_strlit("; stdout: ");
    reveal_strlit("; stderr: ");
    let told = diagnostics_text(code, stdout, stderr);
    let a = output_text("stdout"@, stdout);
    let b = output_text("stderr"@, stderr);
    let head = match code {
        Some(number) => "exit code "@ + integer_text(number as int),
        None => "exit code unknown"@,
    };
    assert("exit code "@ + "unknown"@ =~= "exit code unknown"@);
    assert(told =~= head + (a + b));
    lemma_ends_in(head, a + b);
    assert(told.take(head.len() as int) =~= head);
    if stdout.bytes@.len() > 0 {
        assert(a.take(10) =~= "; stdout: "@);
    }
    if stderr.bytes@.len() > 0 {
        assert(b.take(10) =~= "; stderr: "@);
        if stderr.truncated {
            let shown = "; "@ + "stderr"@ + ": "@ + trimmed(
                lossy_text(stderr.bytes@),
            );
            lemma_ends_in(shown, " [truncated]"@);
        }
    }
}

/// An installation error is shown with its own words; a timeout names its milliseconds.
pub proof fn law_installation_errors_show_their_words(words: Seq<char>, ms: u128)
    ensures
        ends_in(install_error_text(InstallErrorView::InvalidConfig(words)), words),
        ends_in(install_error_text(InstallErrorView::Spawn(words)), words),
        ends_in(install_error_text(InstallErrorView::Failed(words)), words),
        ends_in(install_error_text(InstallErrorView::InvalidResponse(words)), words),
        ends_in(install_error_text(InstallErrorView::Io(words)), words),
        ends_in(install_error_text(InstallErrorView::Timeout(ms)), decimal_text(ms as nat) + " ms"@),
{
    lemma_ends_in("invalid remote installation configuration: "@, words);
    lemma_ends_in("failed to start SSH: "@, words);
    lemma_ends_in("SSH exited unsuccessfully: "@, words);
    lemma_ends_in("invalid remote installation response: "@, words);
    lemma_ends_in("failed to communicate with SSH: "@, words);
    let head = "remote installation timed out after "@;
    lemma_ends_in(head, decimal_text(ms as nat) + " ms"@);
    assert(head + decimal_text(ms as nat) + " ms"@ =~= head + (decimal_text(ms as nat) + " ms"@));
}

/// The command that installs a released server is read back by a shell as the words that it was made
/// of: the version, the `cargo` to use or nothing, and behind them the protocol's number.
pub proof fn law_release_commands_are_read_back(config: RemoteInstallConfig)
    ensures
        ({
            let text = release_command(config);
            let words = text.take(text.len() - 2);
            &&& text.len() >= 2
            &&& ends_in(text, " 1"@)
            &&& shell_words(QuoteState::Outside, Seq::empty(), words) matches Some(read) && {
                &&& read.len() == 5
                &&& read[0] == "sh"@
                &&& read[1] == "-s"@
                &&& read[2] == "--"@
                &&& read[3] == config.server_version@
                &&& match config.remote_cargo {
                    Some(cargo) => read[4] == cargo@,
                    None => read[4].len() == 0,
                }
            }
        }),
{
    reveal_strlit(" ");
    reveal_strlit(" 1");
    reveal_strlit("");
    reveal_with_fuel(decimal_text, 2);
    law_decimals_are_read_back(1);
    let words = release_words(config);
    law_quoted_words_are_read_back(words);
    let text = release_command(config);
    assert(decimal_text(1) =~= seq!['1']);
    assert(" 1"@ =~= " "@ + seq!['1']);
    assert(text =~= quoted_words(words) + " 1"@);
    lemma_ends_in(quoted_words(words), " 1"@);
    assert(text.take(text.len() - 2) =~= quoted_words(words));
}

/// An installation in one step has succeeded exactly where its program did and what it printed says
/// what was done; its outcome is what was said.
pub proof fn law_one_step_installations_succeed_by_their_output(
    config: RemoteInstallConfig,
    script: ScriptOutcome,
    outcome: RemoteInstallOutcome,
)
    ensures
        install_result(config, script) == Ok::<RemoteInstallOutcome, InstallErrorView>(outcome) <==> (
        script matches ScriptOutcome::Exited { success, code, stdout, stderr } && success
            && response_outcome(stdout.bytes@, stdout.truncated, config.server_version@) == Ok::<
            RemoteInstallOutcome,
            Seq<char>,
        >(outcome)),
        script_error(config, script) matches Some(e) ==> install_result(config, script) == Err::<
            RemoteInstallOutcome,
            InstallErrorView,
        >(e),
{
}

/// A build installs its own version. A development build does so from its sources; the policy is the
/// one that was asked for.
pub proof fn law_builds_install_their_own_version(
    destination: String,
    policy: RemoteInstallPolicy,
    development: bool,
    config: RemoteInstallConfig,
)
    requires
        call_ensures(
            RemoteInstallConfig::for_current_build,
            (destination, policy, development),
            config,
        ),
    ensures
        config.destination == destination,
        config.policy == policy,
        config.server_version@ == "0.1.0"@,
        config.source is Workspace <==> development,
        config.source == RemoteInstallSource::CratesIo <==> !development,
        config.timeout_nanos / 1_000_000 == 300_000,
        config.output_limit > 0,
        config.ssh_executable@ == "ssh"@,
{
}

/// Whether a step on this machine went well.
pub open spec fn packaged(event: InstallEvent) -> bool {
    event matches InstallEvent::Cargo(CargoOutcome::Exited { success, status }) && success
}

/// Whether a command on the other machine went well.
pub open spec fn carried_out(event: InstallEvent) -> bool {
    event matches InstallEvent::Ssh(SshOutcome::Exited { success, status }) && success
}

/// An installation goes on as long as its steps succeed: the packages are made, a directory is named
/// and made, both packages are sent, and then they are installed.
pub proof fn law_installations_go_on(before: InstallCourse, event: InstallEvent, after: InstallCourse)
    requires
        before.next(event, after),
    ensures
        before.phase is PackageProtocol && packaged(event) ==> after.phase is PackageServer,
        before.phase is PackageServer && packaged(event) ==> after.phase is NameRoot,
        before.phase is NameRoot ==> (event matches InstallEvent::Named { pid, nanos: Ok(nanos) } ==> (
        after.phase is MakeRoot && (after.remote_root matches Some(root) && root@
            == "/tmp/file-peeker-dev-install-"@ + decimal_text(pid as nat) + "-"@ + decimal_text(
            nanos as nat,
        )))),
        before.phase is MakeRoot && carried_out(event) ==> after.phase is SendProtocol,
        before.phase is SendProtocol && carried_out(event) ==> after.phase is SendServer,
        before.phase is SendServer && carried_out(event) ==> after.phase is Install,
        before.phase matches InstallPhase::CleanUp(result) ==> (carried_out(event) ==> (
        after.phase matches InstallPhase::Finished(reported) && result_view(reported) == result_view(
            result,
        ))),
        after.config == before.config,
{
}

/// A step that fails ends the installation with its failure: at once where nothing was made on the
/// other machine, else after what was made there is removed.
pub proof fn law_failed_steps_end_the_installation(
    before: InstallCourse,
    event: InstallEvent,
    after: InstallCourse,
)
    requires
        before.next(event, after),
    ensures
        before.phase is PackageProtocol || before.phase is PackageServer ==> (event is Cargo && !packaged(
            event,
        ) ==> (after.phase matches InstallPhase::Finished(Err(_)))),
        before.phase is NameRoot ==> (event matches InstallEvent::Named { pid, nanos: Err(words) } ==> (
        after.phase matches InstallPhase::Finished(Err(e)) && e@ == InstallErrorView::Io(words@))),
        before.phase is MakeRoot ==> (event is Ssh && !carried_out(event) ==> (
        after.phase matches InstallPhase::Finished(Err(_)))),
        before.phase is SendProtocol || before.phase is SendServer ==> (event is Ssh && !carried_out(
            event,
        ) ==> (after.phase matches InstallPhase::CleanUp(Err(_)))),
        before.phase is CleanUp ==> (event is Ssh && !carried_out(event) ==> (
        after.phase matches InstallPhase::Finished(Err(_)))),
{
}

/// What the installation program came to is the outcome of the installation, reported at once or after
/// what was transferred is removed.
pub proof fn law_the_program_decides_the_outcome(
    before: InstallCourse,
    script: ScriptOutcome,
    after: InstallCourse,
)
    requires
        before.next(InstallEvent::Script(script), after),
        before.phase is Install,
    ensures
        before.remote_root is Some ==> (after.phase matches InstallPhase::CleanUp(result) && result_view(
            result,
        ) == install_result(before.config, script)),
        before.remote_root is None ==> (after.phase matches InstallPhase::Finished(result)
            && result_view(result) == install_result(before.config, script)),
{
}

/// A check that finds the server ends the installation with that; one that finds it missing goes on to
/// install it, from the source that is configured; one that fails ends it with its failure.
pub proof fn law_checks_decide_whether_to_install(
    before: InstallCourse,
    script: ScriptOutcome,
    after: InstallCourse,
)
    requires
        before.next(InstallEvent::Script(script), after),
        before.phase is Check,
    ensures
        script matches ScriptOutcome::Exited { success, code, stdout, stderr } ==> (success ==> match
            check_outcome(stdout.bytes@, stdout.truncated, before.config.server_version@) {
            Ok(true) => after.phase matches InstallPhase::Finished(Ok(outcome))
                && outcome is AlreadyInstalled,
            Ok(false) => if before.config.source is CratesIo {
                after.phase is Install
            } else {
                after.phase is PackageProtocol || workspace_of(before.manifest_dir@) is None
            },
            Err(m) => after.phase matches InstallPhase::Finished(Err(e)) && e@
                == InstallErrorView::InvalidResponse(m),
        }),
        !(script matches ScriptOutcome::Exited { success: true, .. }) ==> (
        after.phase matches InstallPhase::Finished(Err(_))),
{
}

/// Where a server may be reused, an installation starts with a check; where it is to be overwritten, it
/// starts to install at once.
pub proof fn law_only_reusing_installations_check(
    config: RemoteInstallConfig,
    manifest_dir: String,
    course: InstallCourse,
)
    requires
        starts(config, manifest_dir, course),
    ensures
        course.phase is Check <==> config.policy is ReuseExisting,
        course.config == config,
        config.policy is Overwrite && config.source is CratesIo ==> course.phase is Install,
        config.policy is Overwrite && config.source is Workspace ==> course.phase is PackageProtocol || (
        workspace_of(manifest_dir@) is None && course.phase is Finished),
{
}

/// The server is packaged with the protocol of the same workspace, from the sources there.
pub proof fn law_packages_come_from_the_workspace(
    workspace: &str,
    protocol: Vec<String>,
    server: Vec<String>,
)
    requires
        call_ensures(package_protocol_arguments, (workspace,), protocol),
        call_ensures(package_server_arguments, (workspace,), server),
    ensures
        texts(protocol@).len() == 5,
        texts(server@).len() == 7,
        texts(protocol@)[0] == "package"@,
        texts(server@)[0] == "package"@,
        texts(protocol@)[1] == "--manifest-path"@,
        texts(server@)[1] == "--manifest-path"@,
        texts(protocol@)[2] == joined(
            joined(workspace@, "crates/file-peeker-protocol"@),
            "Cargo.toml"@,
        ),
        texts(server@)[2] == joined(joined(workspace@, "crates/file-peeker-server"@), "Cargo.toml"@),
        texts(server@)[6] == "patch.crates-io.file-peeker-protocol.path='"@ + joined(
            workspace@,
            "crates/file-peeker-protocol"@,
        ) + "'"@,
{
    reveal_strlit("crates/file-peeker-protocol");
    reveal_strlit("crates/file-peeker-server");
    reveal_strlit("crates/file-peeker-protocol/Cargo.toml");
    reveal_strlit("crates/file-peeker-server/Cargo.toml");
    reveal_strlit("Cargo.toml");
    let base = workspace@;
    let a = "crates/file-peeker-protocol"@;
    let b = "crates/file-peeker-server"@;
    law_joining_puts_one_slash_between(base, a);
    law_joining_puts_one_slash_between(base, b);
    law_joining_puts_one_slash_between(base, "crates/file-peeker-protocol/Cargo.toml"@);
    law_joining_puts_one_slash_between(base, "crates/file-peeker-server/Cargo.toml"@);
    assert(joined(base, a).last() == 'l');
    assert(joined(base, b).last() == 'r');
    law_joining_puts_one_slash_between(joined(base, a), "Cargo.toml"@);
    law_joining_puts_one_slash_between(joined(base, b), "Cargo.toml"@);
    assert("crates/file-peeker-protocol/Cargo.toml"@ =~= a + seq!['/'] + "Cargo.toml"@);
    assert("crates/file-peeker-server/Cargo.toml"@ =~= b + seq!['/'] + "Cargo.toml"@);
    assert(joined(base, "crates/file-peeker-protocol/Cargo.toml"@) =~= joined(
        joined(base, a),
        "Cargo.toml"@,
    ));
    assert(joined(base, "crates/file-peeker-server/Cargo.toml"@) =~= joined(
        joined(base, b),
        "Cargo.toml"@,
    ));
}

/// An installation changes nothing that it has settled: how it is configured never, the workspace only
/// where it sets about installing, and the directory on the other machine only where that is named.
pub proof fn law_installations_keep_what_is_settled(
    before: InstallCourse,
    event: InstallEvent,
    after: InstallCourse,
)
    requires
        before.next(event, after),
    ensures
        after.config == before.config,
        after.manifest_dir == before.manifest_dir,
        !(before.phase is Check) ==> after.workspace == before.workspace,
        !(before.phase is NameRoot) ==> after.remote_root == before.remote_root,
        before.phase is Check && after.phase is PackageProtocol ==> (after.workspace matches Some(root)
            && workspace_of(before.manifest_dir@) == Some(root@)),
        before.phase is Check && after.phase is Install ==> after.workspace == before.workspace,
{
}

} // verus!
