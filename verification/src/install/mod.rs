//! Installing the server on another machine.

pub mod course;
pub mod repetition;
pub mod report_laws;
pub mod run;
pub mod transfer_laws;

use vstd::prelude::*;
use vstd::utf8::{decode_utf8, valid_utf8};

use crate::bytes::{lossy, lossy_text, utf8, utf8_error_text};
use crate::protocol::PROTOCOL_VERSION;
use crate::shell::{quote_words, quoted_words};
use crate::startup::diagnostics::BoundedOutput;
use crate::startup::ssh::is_destination;
use crate::startup::PACKAGE_VERSION;
use crate::text::{
    chars_of, concat2, concat3, concat4, decimal, decimal_long, decimal_text, integer, integer_text, lines, lines_of,
    push_text, same_text, split, split_on, starts_with_char, texts, trim, trimmed,
};

verus! {

/// The shell program that checks for the server on the other machine and installs it. Its
/// arguments are the version, a `cargo` to use, the protocol version, the source, the directory of
/// transferred packages and the policy.
pub const REMOTE_SCRIPT: &'static str = r#"set -eu

version=$1
cargo_hint=$2
protocol_version=$3
source=$4
source_root=$5
policy=$6
install_root="$HOME/.file-peeker/servers/$version"
installed_bin="$install_root/bin/file-peeker-server"

verify_server() {
    test -x "$installed_bin" || return 1
    actual=$("$installed_bin" version --format json 2>/dev/null) || return 1
    expected=$(printf '{"server_version":"%s","protocol_versions":[%s]}' "$version" "$protocol_version")
    test "$actual" = "$expected"
}

case "$policy" in
    reuse|overwrite) ;;
    *)
        printf '%s\n' "unknown installation policy: $policy" >&2
        exit 2
        ;;
esac

if test "$policy" = reuse && verify_server; then
    printf '%s\n' 'FILE_PEEKER_INSTALL_OUTCOME=already_installed'
    "$installed_bin" version --format json
    exit 0
fi

if test "$source" = check; then
    printf '%s\n' 'FILE_PEEKER_INSTALL_REQUIRED'
    exit 0
fi

if test -n "$cargo_hint"; then
    cargo_bin=$cargo_hint
else
    cargo_bin=$(command -v cargo) || {
        printf '%s\n' 'cargo was not found on the remote server' >&2
        exit 127
    }
fi

case "$source" in
    crates_io)
        "$cargo_bin" install \
            --locked \
            --force \
            --root "$install_root" \
            --version "$version" \
            --bin file-peeker-server \
            file-peeker-server
        ;;
    workspace)
        protocol_package="$source_root/file-peeker-protocol-$version"
        server_package="$source_root/file-peeker-server-$version"
        tar -xzf "$source_root/protocol.crate" -C "$source_root"
        tar -xzf "$source_root/server.crate" -C "$source_root"
        "$cargo_bin" install \
            --locked \
            --force \
            --root "$install_root" \
            --path "$server_package" \
            --bin file-peeker-server \
            --config "patch.crates-io.file-peeker-protocol.path='$protocol_package'"
        ;;
    *)
        printf '%s\n' "unknown installation source: $source" >&2
        exit 2
        ;;
esac

if ! verify_server; then
    printf '%s\n' 'installed server failed version verification' >&2
    exit 1
fi

printf '%s\n' 'FILE_PEEKER_INSTALL_OUTCOME=installed'
"$installed_bin" version --format json
"#;

/// Where the server's source comes from.
#[derive(Clone, Copy, Debug, PartialEq, Eq, Structural)]
pub enum RemoteInstallSource {
    Workspace,
    CratesIo,
}

/// What to do about a server that is installed already.
#[derive(Clone, Copy, Debug, PartialEq, Eq, Structural)]
pub enum RemoteInstallPolicy {
    ReuseExisting,
    Overwrite,
}

/// What an installation came to.
#[derive(Clone, Copy, Debug, PartialEq, Eq, Structural)]
pub enum RemoteInstallOutcome {
    Installed,
    AlreadyInstalled,
}

/// How to install a server on another machine.
#[derive(Debug, PartialEq, Eq)]
pub struct RemoteInstallConfig {
    pub destination: String,
    pub server_version: String,
    pub ssh_executable: String,
    pub ssh_arguments: Vec<String>,
    pub remote_cargo: Option<String>,
    pub timeout_nanos: u128,
    pub output_limit: usize,
    pub source: RemoteInstallSource,
    pub policy: RemoteInstallPolicy,
}

/// Why an installation failed.
#[derive(Debug, PartialEq, Eq)]
pub enum RemoteInstallError {
    InvalidConfig(String),
    Spawn(String),
    /// The time allowed, in milliseconds.
    Timeout(u128),
    Failed { diagnostics: String },
    InvalidResponse(String),
    Io(String),
}

/// What a [`RemoteInstallError`] stands for.
pub enum InstallErrorView {
    InvalidConfig(Seq<char>),
    Spawn(Seq<char>),
    Timeout(u128),
    Failed(Seq<char>),
    InvalidResponse(Seq<char>),
    Io(Seq<char>),
}

impl View for RemoteInstallError {
    type V = InstallErrorView;

    open spec fn view(&self) -> InstallErrorView {
        match self {
            RemoteInstallError::InvalidConfig(m) => InstallErrorView::InvalidConfig(m@),
            RemoteInstallError::Spawn(m) => InstallErrorView::Spawn(m@),
            RemoteInstallError::Timeout(ms) => InstallErrorView::Timeout(*ms),
            RemoteInstallError::Failed { diagnostics } => InstallErrorView::Failed(diagnostics@),
            RemoteInstallError::InvalidResponse(m) => InstallErrorView::InvalidResponse(m@),
            RemoteInstallError::Io(m) => InstallErrorView::Io(m@),
        }
    }
}

/// The text that an installation error is shown as.
pub open spec fn install_error_text(e: InstallErrorView) -> Seq<char> {
    match e {
        InstallErrorView::InvalidConfig(m) => "invalid remote installation configuration: "@ + m,
        InstallErrorView::Spawn(m) => "failed to start SSH: "@ + m,
        InstallErrorView::Timeout(ms) => "remote installation timed out after "@ + decimal_text(
            ms as nat,
        ) + " ms"@,
        InstallErrorView::Failed(m) => "SSH exited unsuccessfully: "@ + m,
        InstallErrorView::InvalidResponse(m) => "invalid remote installation response: "@ + m,
        InstallErrorView::Io(m) => "failed to communicate with SSH: "@ + m,
    }
}

impl RemoteInstallError {
    /// The text that the error is shown as.
    pub fn to_string(&self) -> (r: String)
        ensures
            r@ == install_error_text(self@),
    {
        match self {
            RemoteInstallError::InvalidConfig(m) => concat2(
                "invalid remote installation configuration: ",
                m,
            ),
            RemoteInstallError::Spawn(m) => concat2("failed to start SSH: ", m),
            RemoteInstallError::Timeout(ms) => {
                let number = decimal_long(*ms);
                concat3("remote installation timed out after ", &number, " ms")
            },
            RemoteInstallError::Failed { diagnostics } => concat2(
                "SSH exited unsuccessfully: ",
                diagnostics,
            ),
            RemoteInstallError::InvalidResponse(m) => concat2(
                "invalid remote installation response: ",
                m,
            ),
            RemoteInstallError::Io(m) => concat2("failed to communicate with SSH: ", m),
        }
    }
}

impl RemoteInstallConfig {
    /// How this build installs its server at `destination`: a development build from its own
    /// sources.
    pub fn for_current_build(destination: String, policy: RemoteInstallPolicy, development: bool) -> (r:
        Self)
        ensures
            r.destination == destination,
            r.server_version@ == PACKAGE_VERSION@,
            r.ssh_executable@ == "ssh"@,
            r.ssh_arguments@ == Seq::<String>::empty(),
            r.remote_cargo is None,
            r.timeout_nanos == 300_000_000_000,
            r.output_limit == 65536,
            r.source == (if development {
                RemoteInstallSource::Workspace
            } else {
                RemoteInstallSource::CratesIo
            }),
            r.policy == policy,
    {
        RemoteInstallConfig {
            destination,
            server_version: PACKAGE_VERSION.to_owned(),
            ssh_executable: "ssh".to_owned(),
            ssh_arguments: Vec::new(),
            remote_cargo: None,
            timeout_nanos: 300_000_000_000,
            output_limit: 65536,
            source: if development {
                RemoteInstallSource::Workspace
            } else {
                RemoteInstallSource::CratesIo
            },
            policy,
        }
    }
}

/// Whether `part` is a number without leading zeros.
pub open spec fn is_version_part(part: Seq<char>) -> bool {
    &&& part.len() > 0
    &&& forall|i: int| 0 <= i < part.len() ==> '0' <= #[trigger] part[i] <= '9'
    &&& part.len() > 1 ==> part[0] != '0'
}

/// Whether `version` has the form MAJOR.MINOR.PATCH, with nothing behind it.
pub open spec fn is_stable_version(version: Seq<char>) -> bool {
    let parts = split_on(version, '.');
    parts.len() == 3 && forall|i: int| 0 <= i < 3 ==> is_version_part(#[trigger] parts[i])
}

fn is_part(part: &str) -> (r: bool)
    ensures
        r == is_version_part(part@),
{
    let chars = chars_of(part);
    if chars.len() == 0 || (chars.len() > 1 && chars[0] == '0') {
        return false;
    }
    let mut i: usize = 0;
    while i < chars.len()
        invariant
            i <= chars@.len(),
            chars@ == part@,
            forall|j: int| 0 <= j < i ==> '0' <= #[trigger] part@[j] <= '9',
        decreases chars@.len() - i,
    {
        if !('0' <= chars[i] && chars[i] <= '9') {
            proof {
                assert(!('0' <= part@[i as int] <= '9'));
            }
            return false;
        }
        i = i + 1;
    }
    true
}

/// Whether `version` has the form MAJOR.MINOR.PATCH, with nothing behind it.
pub fn is_exact_stable_version(version: &str) -> (r: bool)
    ensures
        r == is_stable_version(version@),
{
    let parts = split(version, '.');
    let ghost all = split_on(version@, '.');
    proof {
        assert(all.len() == parts@.len());
    }
    if parts.len() != 3 {
        return false;
    }
    proof {
        assert(parts@[0]@ == all[0]);
        assert(parts@[1]@ == all[1]);
        assert(parts@[2]@ == all[2]);
    }
    let first = is_part(&parts[0]);
    let second = is_part(&parts[1]);
    let third = is_part(&parts[2]);
    proof {
        if first && second && third {
            assert forall|i: int| 0 <= i < 3 implies is_version_part(#[trigger] all[i]) by {
                assert(i == 0 || i == 1 || i == 2);
            }
        }
    }
    first && second && third
}

/// What is wrong with `config`, if anything.
pub open spec fn config_error(config: RemoteInstallConfig) -> Option<Seq<char>> {
    if !is_destination(config.destination@) {
        Some("SSH destination is required and must not begin with `-`"@)
    } else if config.ssh_executable@.len() == 0 {
        Some("SSH executable is required"@)
    } else if !is_stable_version(config.server_version@) {
        Some("server version must use exact MAJOR.MINOR.PATCH form"@)
    } else if config.timeout_nanos == 0 {
        Some("installation timeout must be positive"@)
    } else if config.output_limit == 0 {
        Some("output limit must be positive"@)
    } else if config.remote_cargo matches Some(cargo) && cargo@.len() == 0 {
        Some("remote Cargo executable must not be empty"@)
    } else {
        None
    }
}

fn invalid_config(message: &str) -> (r: Result<(), RemoteInstallError>)
    ensures
        r matches Err(e) && e@ == InstallErrorView::InvalidConfig(message@),
{
    Err(RemoteInstallError::InvalidConfig(message.to_owned()))
}

/// Accepts a configuration that an installation can be tried with.
pub fn validate_config(config: &RemoteInstallConfig) -> (r: Result<(), RemoteInstallError>)
    ensures
        match r {
            Ok(_) => config_error(*config) is None,
            Err(e) => config_error(*config) matches Some(m) && e@ == InstallErrorView::InvalidConfig(m),
        },
{
    if config.destination.as_str().is_empty() || starts_with_char(&config.destination, '-') {
        return invalid_config("SSH destination is required and must not begin with `-`");
    }
    if config.ssh_executable.as_str().is_empty() {
        return invalid_config("SSH executable is required");
    }
    if !is_exact_stable_version(&config.server_version) {
        return invalid_config("server version must use exact MAJOR.MINOR.PATCH form");
    }
    if config.timeout_nanos == 0 {
        return invalid_config("installation timeout must be positive");
    }
    if config.output_limit == 0 {
        return invalid_config("output limit must be positive");
    }
    match &config.remote_cargo {
        Some(cargo) => {
            if cargo.as_str().is_empty() {
                return invalid_config("remote Cargo executable must not be empty");
            }
        },
        None => {},
    }
    Ok(())
}

/// The name of what is to be done: a check alone, or an installation from a source.
pub open spec fn source_word(source: RemoteInstallSource, check_only: bool) -> Seq<char> {
    if check_only {
        "check"@
    } else {
        match source {
            RemoteInstallSource::Workspace => "workspace"@,
            RemoteInstallSource::CratesIo => "crates_io"@,
        }
    }
}

/// The name of a policy.
pub open spec fn policy_word(policy: RemoteInstallPolicy) -> Seq<char> {
    match policy {
        RemoteInstallPolicy::ReuseExisting => "reuse"@,
        RemoteInstallPolicy::Overwrite => "overwrite"@,
    }
}

/// The given `cargo`, or nothing.
pub open spec fn cargo_word(cargo: Option<String>) -> Seq<char> {
    match cargo {
        Some(path) => path@,
        None => ""@,
    }
}

/// The words of the command that feeds [`REMOTE_SCRIPT`] to a shell.
pub open spec fn install_words(
    config: RemoteInstallConfig,
    workspace_root: Seq<char>,
    check_only: bool,
) -> Seq<Seq<char>> {
    seq![
        "sh"@,
        "-s"@,
        "--"@,
        config.server_version@,
        cargo_word(config.remote_cargo),
        decimal_text(PROTOCOL_VERSION as nat),
        source_word(config.source, check_only),
        workspace_root,
        policy_word(config.policy),
    ]
}

/// The command that feeds [`REMOTE_SCRIPT`] to a shell on the other machine.
pub fn build_remote_command(
    config: &RemoteInstallConfig,
    workspace_root: &str,
    check_only: bool,
) -> (r: String)
    ensures
        r@ == quoted_words(install_words(*config, workspace_root@, check_only)),
{
    let cargo = match &config.remote_cargo {
        Some(path) => path.as_str(),
        None => "",
    };
    let protocol = decimal(PROTOCOL_VERSION as u64);
    let source = if check_only {
        "check"
    } else {
        match config.source {
            RemoteInstallSource::Workspace => "workspace",
            RemoteInstallSource::CratesIo => "crates_io",
        }
    };
    let policy = match config.policy {
        RemoteInstallPolicy::ReuseExisting => "reuse",
        RemoteInstallPolicy::Overwrite => "overwrite",
    };
    let mut words: Vec<String> = Vec::new();
    push_text(&mut words, "sh");
    push_text(&mut words, "-s");
    push_text(&mut words, "--");
    push_text(&mut words, &config.server_version);
    push_text(&mut words, cargo);
    push_text(&mut words, &protocol);
    push_text(&mut words, source);
    push_text(&mut words, workspace_root);
    push_text(&mut words, policy);
    proof {
        assert(texts(words@) =~= install_words(*config, workspace_root@, check_only));
    }
    quote_words(&words)
}

/// How a stream's output appears in diagnostics: not at all where there was none.
pub open spec fn output_text(label: Seq<char>, output: BoundedOutput) -> Seq<char> {
    if output.bytes@.len() == 0 {
        ""@
    } else {
        "; "@ + label + ": "@ + trimmed(lossy_text(output.bytes@)) + (if output.truncated {
            " [truncated]"@
        } else {
            ""@
        })
    }
}

/// Appends a stream's output to diagnostics.
pub fn append_output(diagnostics: &mut String, label: &str, output: &BoundedOutput)
    ensures
        final(diagnostics)@ == old(diagnostics)@ + output_text(label@, *output),
{
    let ghost before = diagnostics@;
    if output.bytes.len() == 0 {
        proof {
            reveal_strlit("");
            assert(before + ""@ =~= before);
        }
        return;
    }
    let text = lossy(output.bytes.as_slice());
    let shown = trim(&text);
    let head = concat4("; ", label, ": ", &shown);
    let note = if output.truncated {
        " [truncated]"
    } else {
        ""
    };
    let added = concat2(&head, note);
    *diagnostics = concat2(diagnostics.as_str(), &added);
}

/// What is told about a command that exited unsuccessfully.
pub open spec fn diagnostics_text(
    exit_code: Option<i32>,
    stdout: BoundedOutput,
    stderr: BoundedOutput,
) -> Seq<char> {
    "exit code "@ + (match exit_code {
        Some(code) => integer_text(code as int),
        None => "unknown"@,
    }) + output_text("stdout"@, stdout) + output_text("stderr"@, stderr)
}

/// Tells about a command that exited unsuccessfully.
pub fn format_diagnostics(
    exit_code: Option<i32>,
    stdout: &BoundedOutput,
    stderr: &BoundedOutput,
) -> (r: String)
    ensures
        r@ == diagnostics_text(exit_code, *stdout, *stderr),
{
    let code = match exit_code {
        Some(code) => integer(code),
        None => "unknown".to_owned(),
    };
    let mut diagnostics = concat2("exit code ", &code);
    append_output(&mut diagnostics, "stdout", stdout);
    append_output(&mut diagnostics, "stderr", stderr);
    diagnostics
}

/// What a server's version document says: its version where that is a text, and its protocol
/// versions where they are a list, each one where it is a number.
#[derive(Debug, PartialEq, Eq)]
pub struct VersionDocument {
    pub server_version: Option<String>,
    pub protocol_versions: Option<Vec<Option<u64>>>,
}

/// What `serde_json` reads out of `text`: the member `name` where it is a text, and the member
/// `numbers` where it is a list, each item where it is an unsigned number; or the words of its error.
pub uninterp spec fn json_members(text: Seq<char>, name: Seq<char>, numbers: Seq<char>) -> Result<
    (Option<Seq<char>>, Option<Seq<Option<u64>>>),
    Seq<char>,
>;

/// What `text` says as a version document, or the words about why it is none.
pub open spec fn version_document(text: Seq<char>) -> Result<
    (Option<Seq<char>>, Option<Seq<Option<u64>>>),
    Seq<char>,
> {
    json_members(text, "server_version"@, "protocol_versions"@)
}

/// What a version document, or the words about why there is none, stand for.
pub open spec fn document_view(document: Result<VersionDocument, String>) -> Result<
    (Option<Seq<char>>, Option<Seq<Option<u64>>>),
    Seq<char>,
> {
    match document {
        Ok(document) => Ok(
            (
                match document.server_version {
                    Some(version) => Some(version@),
                    None => None,
                },
                match document.protocol_versions {
                    Some(versions) => Some(versions@),
                    None => None,
                },
            ),
        ),
        Err(words) => Err(words@),
    }
}

/// `serde_json::from_str` into a `serde_json::Value`, of which the member `name`, as a text, and the
/// member `numbers`, as a list of unsigned numbers, are handed out. What they are, or the words of
/// the error, depends on the text and the names of the members alone.
#[verifier::external_body]
fn parse_members(text: &str, name: &str, numbers: &str) -> (r: Result<VersionDocument, String>)
    ensures
        document_view(r) == json_members(text@, name@, numbers@),
{
    match serde_json::from_str::<serde_json::Value>(text) {
        Ok(value) => Ok(
            VersionDocument {
                server_version: value[name].as_str().map(str::to_owned),
                protocol_versions: value[numbers].as_array().map(
                    |versions| versions.iter().map(serde_json::Value::as_u64).collect(),
                ),
            },
        ),
        Err(error) => Err(error.to_string()),
    }
}

/// Reads a version document.
fn parse_version_document(text: &str) -> (r: Result<VersionDocument, String>)
    ensures
        document_view(r) == version_document(text@),
{
    parse_members(text, "server_version", "protocol_versions")
}

/// What is wrong with a server that describes itself so, if anything.
pub open spec fn document_error(
    document: Result<(Option<Seq<char>>, Option<Seq<Option<u64>>>), Seq<char>>,
    expected: Seq<char>,
) -> Option<Seq<char>> {
    match document {
        Err(words) => Some(words),
        Ok((version, None)) => Some("missing protocol_versions array"@),
        Ok((version, Some(protocols))) => if version == Some(expected) && protocols.contains(
            Some(PROTOCOL_VERSION as u64),
        ) {
            None
        } else {
            Some("server version response is incompatible"@)
        },
    }
}

fn invalid_response<T>(message: &str) -> (r: Result<T, RemoteInstallError>)
    ensures
        r matches Err(e) && e@ == InstallErrorView::InvalidResponse(message@),
{
    Err(RemoteInstallError::InvalidResponse(message.to_owned()))
}

/// Accepts the version document of a server of the expected version that speaks the protocol.
pub fn check_version_document(
    document: &Result<VersionDocument, String>,
    expected_server_version: &str,
) -> (r: Result<(), RemoteInstallError>)
    ensures
        match r {
            Ok(_) => document_error(document_view(*document), expected_server_version@) is None,
            Err(e) => document_error(document_view(*document), expected_server_version@) matches Some(m)
                && e@ == InstallErrorView::InvalidResponse(m),
        },
{
    let document = match document {
        Ok(document) => document,
        Err(words) => {
            return invalid_response(words);
        },
    };
    let protocols = match &document.protocol_versions {
        Some(protocols) => protocols,
        None => {
            return invalid_response("missing protocol_versions array");
        },
    };
    let mut spoken = false;
    let mut i: usize = 0;
    while i < protocols.len()
        invariant
            i <= protocols@.len(),
            spoken == (exists|j: int|
                0 <= j < i && #[trigger] protocols@[j] == Some(PROTOCOL_VERSION as u64)),
        decreases protocols@.len() - i,
    {
        if let Some(version) = protocols[i] {
            if version == PROTOCOL_VERSION as u64 {
                proof {
                    assert(protocols@[i as int] == Some(PROTOCOL_VERSION as u64));
                }
                spoken = true;
            }
        }
        i = i + 1;
    }
    proof {
        if protocols@.contains(Some(PROTOCOL_VERSION as u64)) {
            let j = choose|j: int|
                0 <= j < protocols@.len() && protocols@[j] == Some(PROTOCOL_VERSION as u64);
            assert(protocols@[j] == Some(PROTOCOL_VERSION as u64));
        }
        assert(spoken == protocols@.contains(Some(PROTOCOL_VERSION as u64)));
    }
    let expected = match &document.server_version {
        Some(version) => same_text(version, expected_server_version),
        None => false,
    };
    if expected && spoken {
        Ok(())
    } else {
        invalid_response("server version response is incompatible")
    }
}

/// Accepts the version JSON of a server of the expected version that speaks the protocol.
pub fn verify_version_json(version_json: &str, expected_server_version: &str) -> (r: Result<
    (),
    RemoteInstallError,
>)
    ensures
        match r {
            Ok(_) => document_error(
                version_document(version_json@),
                expected_server_version@,
            ) is None,
            Err(e) => document_error(
                version_document(version_json@),
                expected_server_version@,
            ) matches Some(m) && e@ == InstallErrorView::InvalidResponse(m),
        },
{
    let document = parse_version_document(version_json);
    check_version_document(&document, expected_server_version)
}

/// What a completion marker says.
pub open spec fn marker_outcome(marker: Seq<char>) -> Option<RemoteInstallOutcome> {
    if marker == "FILE_PEEKER_INSTALL_OUTCOME=installed"@ {
        Some(RemoteInstallOutcome::Installed)
    } else if marker == "FILE_PEEKER_INSTALL_OUTCOME=already_installed"@ {
        Some(RemoteInstallOutcome::AlreadyInstalled)
    } else {
        None
    }
}

/// What the output of the installation says: its outcome, or what is wrong with it. The version
/// JSON stands in the last line and is judged before the marker in the line above it.
pub open spec fn response_outcome(stdout: Seq<u8>, truncated: bool, expected: Seq<char>) -> Result<
    RemoteInstallOutcome,
    Seq<char>,
> {
    let found = lines_of(decode_utf8(stdout));
    if truncated {
        Err("SSH stdout exceeded the configured limit"@)
    } else if !valid_utf8(stdout) {
        Err(utf8_error_text(stdout))
    } else if found.len() < 2 {
        Err("missing completion marker or version JSON"@)
    } else {
        marked_outcome(version_document(found.last()), found[found.len() - 2], expected)
    }
}

/// What an installation came to that ended in this marker and left a server with this version
/// document behind.
pub open spec fn marked_outcome(
    document: Result<(Option<Seq<char>>, Option<Seq<Option<u64>>>), Seq<char>>,
    marker: Seq<char>,
    expected: Seq<char>,
) -> Result<RemoteInstallOutcome, Seq<char>> {
    match document_error(document, expected) {
        Some(m) => Err(m),
        None => match marker_outcome(marker) {
            Some(outcome) => Ok(outcome),
            None => Err("unknown completion marker"@),
        },
    }
}

/// Judges a completion marker together with the version document below it.
pub fn check_completion(
    document: &Result<VersionDocument, String>,
    marker: &str,
    expected_server_version: &str,
) -> (r: Result<RemoteInstallOutcome, RemoteInstallError>)
    ensures
        match r {
            Ok(outcome) => marked_outcome(
                document_view(*document),
                marker@,
                expected_server_version@,
            ) == Ok::<RemoteInstallOutcome, Seq<char>>(outcome),
            Err(e) => marked_outcome(
                document_view(*document),
                marker@,
                expected_server_version@,
            ) matches Err(m) && e@ == InstallErrorView::InvalidResponse(m),
        },
{
    match check_version_document(document, expected_server_version) {
        Err(e) => {
            return Err(e);
        },
        Ok(_) => {},
    }
    if same_text(marker, "FILE_PEEKER_INSTALL_OUTCOME=installed") {
        Ok(RemoteInstallOutcome::Installed)
    } else if same_text(marker, "FILE_PEEKER_INSTALL_OUTCOME=already_installed") {
        Ok(RemoteInstallOutcome::AlreadyInstalled)
    } else {
        invalid_response("unknown completion marker")
    }
}

/// Reads what an installation came to out of its output.
pub fn parse_success_response(
    stdout: &[u8],
    truncated: bool,
    expected_server_version: &str,
) -> (r: Result<RemoteInstallOutcome, RemoteInstallError>)
    ensures
        match r {
            Ok(outcome) => response_outcome(stdout@, truncated, expected_server_version@) == Ok::<
                RemoteInstallOutcome,
                Seq<char>,
            >(outcome),
            Err(e) => response_outcome(stdout@, truncated, expected_server_version@) matches Err(m)
                && e@ == InstallErrorView::InvalidResponse(m),
        },
{
    if truncated {
        return invalid_response("SSH stdout exceeded the configured limit");
    }
    let text = match utf8(stdout) {
        Ok(text) => text,
        Err(words) => {
            return invalid_response(&words);
        },
    };
    let found = lines(&text);
    let ghost all = lines_of(text@);
    let count: usize = found.len();
    proof {
        assert(all.len() == count);
    }
    if count < 2 {
        return invalid_response("missing completion marker or version JSON");
    }
    proof {
        assert(found@[count - 1]@ == all[count - 1]);
        assert(found@[count - 2]@ == all[count - 2]);
    }
    let document = parse_version_document(&found[count - 1]);
    check_completion(&document, &found[count - 2], expected_server_version)
}

/// What the output of a check says: whether a compatible server is there, or what is wrong with
/// the output.
pub open spec fn check_outcome(stdout: Seq<u8>, truncated: bool, expected: Seq<char>) -> Result<
    bool,
    Seq<char>,
> {
    let text = decode_utf8(stdout);
    let found = lines_of(text);
    if truncated {
        Err("SSH stdout exceeded the configured limit"@)
    } else if !valid_utf8(stdout) {
        Err(utf8_error_text(stdout))
    } else if found.contains("FILE_PEEKER_INSTALL_OUTCOME=already_installed"@) {
        match document_error(version_document(found.last()), expected) {
            Some(m) => Err(m),
            None => Ok(true),
        }
    } else if trimmed(text) == "FILE_PEEKER_INSTALL_REQUIRED"@ {
        Ok(false)
    } else {
        Err("unknown installation check response"@)
    }
}

/// Whether `line` is one of `found`.
fn contains_line(found: &Vec<String>, line: &str) -> (r: bool)
    ensures
        r == texts(found@).contains(line@),
{
    let ghost all = texts(found@);
    let mut i: usize = 0;
    while i < found.len()
        invariant
            i <= found@.len(),
            all == texts(found@),
            forall|j: int| 0 <= j < i ==> #[trigger] all[j] != line@,
        decreases found@.len() - i,
    {
        if same_text(&found[i], line) {
            proof {
                assert(all[i as int] == line@);
            }
            return true;
        }
        i = i + 1;
    }
    false
}

/// Reads off the output of a check whether a compatible server is there.
pub fn remote_server_is_compatible(
    stdout: &[u8],
    truncated: bool,
    expected_server_version: &str,
) -> (r: Result<bool, RemoteInstallError>)
    ensures
        match r {
            Ok(compatible) => check_outcome(stdout@, truncated, expected_server_version@) == Ok::<
                bool,
                Seq<char>,
            >(compatible),
            Err(e) => check_outcome(stdout@, truncated, expected_server_version@) matches Err(m)
                && e@ == InstallErrorView::InvalidResponse(m),
        },
{
    if truncated {
        return invalid_response("SSH stdout exceeded the configured limit");
    }
    let text = match utf8(stdout) {
        Ok(text) => text,
        Err(words) => {
            return invalid_response(&words);
        },
    };
    let found = lines(&text);
    let ghost all = lines_of(text@);
    if contains_line(&found, "FILE_PEEKER_INSTALL_OUTCOME=already_installed") {
        let count: usize = found.len();
        proof {
            assert(all.len() == count);
            assert(count > 0);
            assert(found@[count - 1]@ == all[count - 1]);
        }
        match verify_version_json(&found[count - 1], expected_server_version) {
            Ok(_) => Ok(true),
            Err(e) => Err(e),
        }
    } else if same_text(&trim(&text), "FILE_PEEKER_INSTALL_REQUIRED") {
        Ok(false)
    } else {
        invalid_response("unknown installation check response")
    }
}

} // verus!
