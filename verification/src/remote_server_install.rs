//! Installing a released server on another machine in a single step.

use vstd::prelude::*;

use crate::install::repetition::{printed, reports};
use crate::install::run::{run_remote_script, script_error, ScriptOutcome};
use crate::install::{
    cargo_word, config_error, parse_success_response, response_outcome, validate_config, InstallErrorView,
    RemoteInstallConfig, RemoteInstallError, RemoteInstallOutcome,
};
use crate::protocol::PROTOCOL_VERSION;
use crate::shell::{quote_words, quoted_words};
use crate::text::{concat3, decimal, decimal_text, push_text, texts};

verus! {

/// The shell program that installs a released server unless it is there already. Its arguments are
/// the version, a `cargo` to use and the protocol version.
pub const REMOTE_SCRIPT: &'static str = r#"set -eu

version=$1
cargo_hint=$2
protocol_version=$3
install_root="$HOME/.file-peeker/servers/$version"
installed_bin="$install_root/bin/file-peeker-server"

verify_server() {
    test -x "$installed_bin" || return 1
    actual=$("$installed_bin" version --format json 2>/dev/null) || return 1
    expected=$(printf '{"server_version":"%s","protocol_versions":[%s]}' "$version" "$protocol_version")
    test "$actual" = "$expected"
}

if verify_server; then
    printf '%s\n' 'FILE_PEEKER_INSTALL_OUTCOME=already_installed'
    "$installed_bin" version --format json
    exit 0
fi

if test -n "$cargo_hint"; then
    cargo_bin=$cargo_hint
else
    cargo_bin=$(command -v cargo) || {
        printf '%s\n' 'cargo was not found on the remote server' >&2
        exit 127
    }
fi

"$cargo_bin" install \
    --locked \
    --force \
    --root "$install_root" \
    --version "$version" \
    --bin file-peeker-server \
    file-peeker-server

if ! verify_server; then
    printf '%s\n' 'installed server failed version verification' >&2
    exit 1
fi

printf '%s\n' 'FILE_PEEKER_INSTALL_OUTCOME=installed'
"$installed_bin" version --format json
"#;

/// The words of the command that feeds [`REMOTE_SCRIPT`] to a shell, but for the last one.
pub open spec fn release_words(config: RemoteInstallConfig) -> Seq<Seq<char>> {
    seq!["sh"@, "-s"@, "--"@, config.server_version@, cargo_word(config.remote_cargo)]
}

/// The command that feeds [`REMOTE_SCRIPT`] to a shell.
pub open spec fn release_command(config: RemoteInstallConfig) -> Seq<char> {
    quoted_words(release_words(config)) + " "@ + decimal_text(PROTOCOL_VERSION as nat)
}

/// The command that feeds [`REMOTE_SCRIPT`] to a shell on the other machine.
pub fn build_remote_command(config: &RemoteInstallConfig) -> (r: String)
    ensures
        r@ == release_command(*config),
{
    let cargo = match &config.remote_cargo {
        Some(path) => path.as_str(),
        None => "",
    };
    let mut words: Vec<String> = Vec::new();
    push_text(&mut words, "sh");
    push_text(&mut words, "-s");
    push_text(&mut words, "--");
    push_text(&mut words, &config.server_version);
    push_text(&mut words, cargo);
    proof {
        assert(texts(words@) =~= release_words(*config));
    }
    let quoted = quote_words(&words);
    let protocol = decimal(PROTOCOL_VERSION as u64);
    concat3(&quoted, " ", &protocol)
}

/// Starts an installation: the command to run, or what is wrong with the configuration.
pub fn begin_install(config: &RemoteInstallConfig) -> (r: Result<String, RemoteInstallError>)
    ensures
        match r {
            Ok(command) => config_error(*config) is None && command@ == release_command(*config),
            Err(e) => config_error(*config) matches Some(m) && e@ == InstallErrorView::InvalidConfig(m),
        },
{
    match validate_config(config) {
        Ok(_) => Ok(build_remote_command(config)),
        Err(e) => Err(e),
    }
}

/// What an installation came to whose command ended so.
pub open spec fn install_result(config: RemoteInstallConfig, outcome: ScriptOutcome) -> Result<
    RemoteInstallOutcome,
    InstallErrorView,
> {
    match script_error(config, outcome) {
        Some(e) => Err(e),
        None => {
            let stdout = outcome->Exited_stdout;
            match response_outcome(stdout.bytes@, stdout.truncated, config.server_version@) {
                Ok(found) => Ok(found),
                Err(m) => Err(InstallErrorView::InvalidResponse(m)),
            }
        },
    }
}

/// After an installation succeeded, one of the same version recognizes the server, as long as
/// nothing changed on the other machine: the program reports a server that is there already, with
/// the version document that the first installation ended in.
pub proof fn law_repeated_releases_are_recognized(
    config: RemoteInstallConfig,
    outcome: ScriptOutcome,
    again: RemoteInstallConfig,
    again_outcome: ScriptOutcome,
)
    requires
        install_result(config, outcome) is Ok,
        again.server_version@ == config.server_version@,
        reports(
            again,
            again_outcome,
            "FILE_PEEKER_INSTALL_OUTCOME=already_installed"@,
            printed(outcome).last(),
        ),
    ensures
        install_result(again, again_outcome) == Ok::<RemoteInstallOutcome, InstallErrorView>(
            RemoteInstallOutcome::AlreadyInstalled,
        ),
{
    reveal_strlit("FILE_PEEKER_INSTALL_OUTCOME=installed");
    reveal_strlit("FILE_PEEKER_INSTALL_OUTCOME=already_installed");
    assert("FILE_PEEKER_INSTALL_OUTCOME=installed"@.len()
        != "FILE_PEEKER_INSTALL_OUTCOME=already_installed"@.len());
}

/// Reads off what the installation came to.
pub fn install_remote_server(config: &RemoteInstallConfig, outcome: ScriptOutcome) -> (r: Result<
    RemoteInstallOutcome,
    RemoteInstallError,
>)
    ensures
        match r {
            Ok(found) => install_result(*config, outcome) == Ok::<
                RemoteInstallOutcome,
                InstallErrorView,
            >(found),
            Err(e) => install_result(*config, outcome) == Err::<
                RemoteInstallOutcome,
                InstallErrorView,
            >(e@),
        },
{
    match run_remote_script(config, outcome) {
        Err(e) => Err(e),
        Ok(stdout) => parse_success_response(
            stdout.bytes.as_slice(),
            stdout.truncated,
            &config.server_version,
        ),
    }
}

} // verus!
