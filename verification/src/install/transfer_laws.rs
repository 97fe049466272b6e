//! What the steps of an installation ask for and take in, over whole runs.

use vstd::prelude::*;
use vstd::utf8::{decode_utf8, valid_utf8};

use crate::install::course::{InstallAction, InstallCourse, InstallEvent, InstallPhase};
use crate::install::repetition::{is_run, steps};
use crate::install::run::{
    cargo_error, script_error, ssh_error, workspace_of, CargoOutcome, ScriptOutcome, SshOutcome,
};
use crate::install::{
    check_outcome, config_error, document_error, install_words, is_stable_version, is_version_part,
    response_outcome, version_document, InstallErrorView, RemoteInstallConfig, RemoteInstallOutcome,
};
use crate::path_laws::{law_joining_puts_one_slash_between, law_names_follow_the_last_slash};
use crate::shell::{law_quoted_words_are_read_back, quoted_words, shell_words, QuoteState};
use crate::text::{decimal_text, lines_of, split_on, texts, trimmed};
use crate::text_laws::{law_split_parts_make_up_the_text, with_between};

verus! {

/// Whether `actions` are what was asked for in each state of a run.
pub open spec fn were_asked(states: Seq<InstallCourse>, actions: Seq<InstallAction>) -> bool {
    &&& actions.len() == states.len()
    &&& forall|i: int| 0 <= i < states.len() ==> states[i].asks(#[trigger] actions[i])
}

/// Whether the `i`th step wrote the file `from` of this machine to `to` on the other, and succeeded.
pub open spec fn wrote(
    actions: Seq<InstallAction>,
    events: Seq<InstallEvent>,
    i: int,
    from: Seq<char>,
    to: Seq<char>,
) -> bool {
    &&& 0 <= i < events.len()
    &&& actions[i] matches InstallAction::Ssh { command, input } && command@ == "cat > '"@ + to + "'"@
        && (input matches Some(file) && file@ == from)
    &&& events[i] matches InstallEvent::Ssh(SshOutcome::Exited { success: true, .. })
}

/// Whether the `i`th step ran this command on the other machine without input, and succeeded.
pub open spec fn ran(
    actions: Seq<InstallAction>,
    events: Seq<InstallEvent>,
    i: int,
    text: Seq<char>,
) -> bool {
    &&& 0 <= i < events.len()
    &&& actions[i] matches InstallAction::Ssh { command, input } && command@ == text && input is None
    &&& events[i] matches InstallEvent::Ssh(SshOutcome::Exited { success: true, .. })
}

/// Whether the `i`th step packaged the crate whose manifest is `manifest`, and succeeded.
pub open spec fn packaged(
    actions: Seq<InstallAction>,
    events: Seq<InstallEvent>,
    i: int,
    manifest: Seq<char>,
) -> bool {
    &&& 0 <= i < events.len()
    &&& actions[i] matches InstallAction::Cargo { arguments } && texts(arguments@).len() >= 3 && texts(
        arguments@,
    )[0] == "package"@ && texts(arguments@)[1] == "--manifest-path"@ && texts(arguments@)[2]
        == manifest
    &&& events[i] matches InstallEvent::Cargo(CargoOutcome::Exited { success: true, .. })
}

/// How far the transfer of packages has come.
spec fn place(course: InstallCourse) -> int {
    match course.phase {
        InstallPhase::PackageProtocol => 0,
        InstallPhase::PackageServer => 1,
        InstallPhase::NameRoot => 2,
        InstallPhase::MakeRoot => 3,
        InstallPhase::SendProtocol => 4,
        InstallPhase::SendServer => 5,
        InstallPhase::Install => if course.remote_root is Some {
            6
        } else {
            -1
        },
        InstallPhase::CleanUp(_) => 7,
        InstallPhase::Finished(_) => 8,
        InstallPhase::Check => -2,
    }
}

proof fn lemma_passed(states: Seq<InstallCourse>, events: Seq<InstallEvent>, k: int, at: int) -> (i: int)
    requires
        is_run(states, events),
        states[0].remote_root is None,
        place(states[0]) <= 0,
        0 <= k < states.len(),
        0 <= at < place(states[k]) <= 6,
    ensures
        0 <= i < k,
        place(states[i]) == at,
        states[i].config == states[k].config,
        states[i].workspace == states[k].workspace,
        at >= 3 ==> states[i].remote_root == states[k].remote_root,
        at == 3 || at == 4 || at == 5 ==> (events[i] matches InstallEvent::Ssh(
            SshOutcome::Exited { success: true, .. },
        )),
        at == 0 || at == 1 ==> (events[i] matches InstallEvent::Cargo(
            CargoOutcome::Exited { success: true, .. },
        )),
    decreases k,
{
    let i = k - 1;
    assert(steps(states, events, i));
    lemma_early_root(states, events, i);
    if place(states[i]) == at {
        i
    } else {
        lemma_passed(states, events, i, at)
    }
}

/// Nothing is named on the other machine before the packages are made.
proof fn lemma_early_root(states: Seq<InstallCourse>, events: Seq<InstallEvent>, k: int)
    requires
        is_run(states, events),
        states[0].remote_root is None,
        place(states[0]) <= 0,
        0 <= k < states.len(),
    ensures
        place(states[k]) <= 2 ==> states[k].remote_root is None,
    decreases k,
{
    if k > 0 {
        lemma_early_root(states, events, k - 1);
        assert(steps(states, events, k - 1));
    }
}

/// What the transfer of packages has done by the time that a server is installed from them: the two
/// crates were packaged, a private directory was made on the other machine, and the package of the
/// protocol crate was written to `protocol.crate` in it and that of the server crate to `server.crate`.
pub open spec fn packages_are_there(
    course: InstallCourse,
    actions: Seq<InstallAction>,
    events: Seq<InstallEvent>,
    package: (int, int),
    make: int,
    send: (int, int),
) -> bool {
    let workspace = course.workspace->Some_0@;
    let root = course.remote_root->Some_0@;
    let version = course.config.server_version@;
    &&& package.0 < package.1 < make < send.0 < send.1
    &&& packaged(
        actions,
        events,
        package.0,
        workspace + "/crates/file-peeker-protocol/Cargo.toml"@,
    )
    &&& packaged(
        actions,
        events,
        package.1,
        workspace + "/crates/file-peeker-server/Cargo.toml"@,
    )
    &&& ran(actions, events, make, "mkdir -m 700 '"@ + root + "'"@)
    &&& wrote(
        actions,
        events,
        send.0,
        workspace + "/target/package/file-peeker-protocol-"@ + version + ".crate"@,
        root + "/protocol.crate"@,
    )
    &&& wrote(
        actions,
        events,
        send.1,
        workspace + "/target/package/file-peeker-server-"@ + version + ".crate"@,
        root + "/server.crate"@,
    )
}

proof fn lemma_below(workspace: Seq<char>, part: Seq<char>, slashed: Seq<char>)
    requires
        workspace.len() > 0,
        workspace.last() != '/',
        part.len() > 0,
        part[0] != '/',
        slashed == seq!['/'] + part,
    ensures
        crate::unix_path::joined(workspace, part) == workspace + slashed,
{
    law_joining_puts_one_slash_between(workspace, part);
    assert(workspace + seq!['/'] + part =~= workspace + slashed);
}

proof fn lemma_package_path(workspace: Seq<char>, name: Seq<char>, version: Seq<char>, slashed: Seq<char>)
    requires
        workspace.len() > 0,
        workspace.last() != '/',
        name.len() > 0,
        name[0] != '/',
        slashed == "/target/package/"@ + name,
    ensures
        crate::install::course::package_path(workspace, name, version) == workspace + slashed + version
            + ".crate"@,
{
    reveal_strlit("/target/package/");
    reveal_strlit("/target/package");
    reveal_strlit("target/package");
    assert("/target/package"@ =~= seq!['/'] + "target/package"@);
    lemma_below(workspace, "target/package"@, "/target/package"@);
    let directory = workspace + "/target/package"@;
    let file = name + version + ".crate"@;
    assert(directory.last() == "/target/package"@.last());
    assert(file[0] == name[0]);
    law_joining_puts_one_slash_between(directory, file);
    assert("/target/package/"@ =~= "/target/package"@ + seq!['/']);
    assert(directory + seq!['/'] + file =~= workspace + slashed + version + ".crate"@);
}

/// A server is installed from packages only when both are where the installation unpacks them, each
/// under a name of its own: that of the protocol crate as `protocol.crate` and that of the server crate
/// as `server.crate`, below the very directory that the installation is told of.
pub proof fn law_packages_are_there_to_install(
    states: Seq<InstallCourse>,
    events: Seq<InstallEvent>,
    actions: Seq<InstallAction>,
    k: int,
)
    requires
        is_run(states, events),
        were_asked(states, actions),
        forall|i: int| 0 <= i < states.len() ==> (#[trigger] states[i]).wf(),
        states[0].remote_root is None,
        states[0].phase is Check || states[0].phase is PackageProtocol,
        0 <= k < states.len(),
        states[k].phase is Install,
        states[k].config.source is Workspace,
        states[k].workspace matches Some(workspace) ==> workspace@.len() > 0 && workspace@.last()
            != '/',
    ensures
        exists|package: (int, int), make: int, send: (int, int)|
            send.1 < k && #[trigger] packages_are_there(
                states[k],
                actions,
                events,
                package,
                make,
                send,
            ),
        actions[k] matches InstallAction::RunScript { command } && (shell_words(
            QuoteState::Outside,
            Seq::empty(),
            command@,
        ) matches Some(words) && words.len() == 9 && words[6] == "workspace"@ && words[7]
            == states[k].remote_root->Some_0@),
{
    assert(states[k].wf());
    assert(place(states[k]) == 6);
    let server = lemma_passed(states, events, k, 5);
    let protocol = lemma_passed(states, events, server, 4);
    let make = lemma_passed(states, events, protocol, 3);
    let second = lemma_passed(states, events, make, 1);
    let first = lemma_passed(states, events, second, 0);
    assert(states[server].asks(actions[server]));
    assert(states[protocol].asks(actions[protocol]));
    assert(states[make].asks(actions[make]));
    assert(states[second].asks(actions[second]));
    assert(states[first].asks(actions[first]));
    let workspace = states[k].workspace->Some_0@;
    let version = states[k].config.server_version@;
    let root = states[k].remote_root->Some_0@;
    reveal_strlit("crates/file-peeker-protocol/Cargo.toml");
    reveal_strlit("/crates/file-peeker-protocol/Cargo.toml");
    reveal_strlit("crates/file-peeker-server/Cargo.toml");
    reveal_strlit("/crates/file-peeker-server/Cargo.toml");
    assert("/crates/file-peeker-protocol/Cargo.toml"@ =~= seq!['/']
        + "crates/file-peeker-protocol/Cargo.toml"@);
    assert("/crates/file-peeker-server/Cargo.toml"@ =~= seq!['/']
        + "crates/file-peeker-server/Cargo.toml"@);
    lemma_below(
        workspace,
        "crates/file-peeker-protocol/Cargo.toml"@,
        "/crates/file-peeker-protocol/Cargo.toml"@,
    );
    lemma_below(
        workspace,
        "crates/file-peeker-server/Cargo.toml"@,
        "/crates/file-peeker-server/Cargo.toml"@,
    );
    reveal_strlit("file-peeker-protocol-");
    reveal_strlit("file-peeker-server-");
    reveal_strlit("/target/package/");
    reveal_strlit("/target/package/file-peeker-protocol-");
    reveal_strlit("/target/package/file-peeker-server-");
    assert("/target/package/file-peeker-protocol-"@ =~= "/target/package/"@
        + "file-peeker-protocol-"@);
    assert("/target/package/file-peeker-server-"@ =~= "/target/package/"@ + "file-peeker-server-"@);
    lemma_package_path(
        workspace,
        "file-peeker-protocol-"@,
        version,
        "/target/package/file-peeker-protocol-"@,
    );
    lemma_package_path(
        workspace,
        "file-peeker-server-"@,
        version,
        "/target/package/file-peeker-server-"@,
    );
    assert("cat > '"@ + root + "/protocol.crate"@ + "'"@ =~= "cat > '"@ + (root
        + "/protocol.crate"@) + "'"@);
    assert("cat > '"@ + root + "/server.crate"@ + "'"@ =~= "cat > '"@ + (root + "/server.crate"@)
        + "'"@);
    assert(packages_are_there(states[k], actions, events, (first, second), make, (protocol, server)));
    assert(states[k].asks(actions[k]));
    law_install_commands_are_read_back(states[k].config, root, false);
}

/// The two files that packages are written to are different ones.
pub proof fn law_packages_do_not_overwrite_each_other(root: Seq<char>)
    ensures
        root + "/protocol.crate"@ != root + "/server.crate"@,
{
    reveal_strlit("/protocol.crate");
    reveal_strlit("/server.crate");
    assert((root + "/protocol.crate"@).len() != (root + "/server.crate"@).len());
}

/// The command that is sent is read by a shell as a program and six arguments: the version, a `cargo`,
/// the protocol version, where the server comes from, the directory of the packages and the policy.
pub proof fn law_install_commands_are_read_back(
    config: RemoteInstallConfig,
    root: Seq<char>,
    check_only: bool,
)
    ensures
        shell_words(
            QuoteState::Outside,
            Seq::empty(),
            quoted_words(install_words(config, root, check_only)),
        ) matches Some(words) && {
            &&& words.len() == 9
            &&& words[0] == "sh"@ && words[1] == "-s"@ && words[2] == "--"@
            &&& words[3] == config.server_version@
            &&& config.remote_cargo matches Some(cargo) ==> words[4] == cargo@
            &&& config.remote_cargo is None ==> words[4] == ""@
            &&& words[5] == decimal_text(crate::protocol::PROTOCOL_VERSION as nat)
            &&& words[6] == (if check_only {
                "check"@
            } else if config.source is Workspace {
                "workspace"@
            } else {
                "crates_io"@
            })
            &&& words[7] == root
            &&& words[8] == (if config.policy is Overwrite {
                "overwrite"@
            } else {
                "reuse"@
            })
        },
{
    law_quoted_words_are_read_back(install_words(config, root, check_only));
}

/// The directory that packages are transferred to is removed by the last step on the other machine,
/// whether the installation went well or not.
pub proof fn law_the_transfer_directory_is_removed(course: InstallCourse, action: InstallAction)
    requires
        course.phase is CleanUp,
        course.asks(action),
    ensures
        action matches InstallAction::Ssh { command, input } && command@ == "rm -rf '"@
            + course.remote_root->Some_0@ + "'"@ && input is None,
{
}

/// A step went well exactly where its program was started, ran to its end in time and succeeded. What
/// went wrong otherwise is told in the words that came with it.
pub proof fn law_steps_go_well_by_their_exit(
    config: RemoteInstallConfig,
    script: ScriptOutcome,
    ssh: SshOutcome,
    cargo: CargoOutcome,
    action: Seq<char>,
)
    ensures
        script_error(config, script) is None <==> (script matches ScriptOutcome::Exited {
            success: true,
            ..
        }),
        ssh_error(config, ssh) is None <==> (ssh matches SshOutcome::Exited { success: true, .. }),
        cargo_error(cargo, action) is None <==> (cargo matches CargoOutcome::Exited {
            success: true,
            ..
        }),
        script is TimedOut ==> script_error(config, script) == Some(
            InstallErrorView::Timeout(config.timeout_nanos / 1_000_000),
        ),
        ssh is TimedOut ==> ssh_error(config, ssh) == Some(
            InstallErrorView::Timeout(config.timeout_nanos / 1_000_000),
        ),
        script matches ScriptOutcome::NotSpawned(words) ==> script_error(config, script) == Some(
            InstallErrorView::Spawn(words@),
        ),
        ssh matches SshOutcome::NotSpawned(words) ==> ssh_error(config, ssh) == Some(
            InstallErrorView::Spawn(words@),
        ),
{
}

/// A server counts as the one that was asked for exactly where its document could be read, names the
/// very version and lists the protocol among those that it speaks.
pub proof fn law_compatible_servers_name_version_and_protocol(
    document: Result<(Option<Seq<char>>, Option<Seq<Option<u64>>>), Seq<char>>,
    expected: Seq<char>,
)
    ensures
        document_error(document, expected) is None <==> (document matches Ok((
            Some(version),
            Some(protocols),
        )) && version == expected && exists|i: int|
            0 <= i < protocols.len() && #[trigger] protocols[i] == Some(
                crate::protocol::PROTOCOL_VERSION as u64,
            )),
{
    if let Ok((_, Some(protocols))) = document {
        let spoken = Some(crate::protocol::PROTOCOL_VERSION as u64);
        if protocols.contains(spoken) {
            let i = choose|i: int| 0 <= i < protocols.len() && protocols[i] == spoken;
            assert(protocols[i] == spoken);
        }
        if exists|i: int| 0 <= i < protocols.len() && #[trigger] protocols[i] == spoken {
            let i = choose|i: int| 0 <= i < protocols.len() && #[trigger] protocols[i] == spoken;
            assert(protocols.contains(protocols[i]));
        }
    }
}

/// An installation is taken to have succeeded exactly where its whole output could be read, its last
/// line is the document of the server that was asked for, and the line above says what was done.
pub proof fn law_success_is_read_off_the_last_two_lines(
    stdout: Seq<u8>,
    truncated: bool,
    expected: Seq<char>,
    outcome: RemoteInstallOutcome,
)
    ensures
        response_outcome(stdout, truncated, expected) == Ok::<RemoteInstallOutcome, Seq<char>>(outcome)
            <==> {
            let lines = lines_of(decode_utf8(stdout));
            &&& !truncated
            &&& valid_utf8(stdout)
            &&& lines.len() >= 2
            &&& document_error(version_document(lines.last()), expected) is None
            &&& lines[lines.len() - 2] == (if outcome is Installed {
                "FILE_PEEKER_INSTALL_OUTCOME=installed"@
            } else {
                "FILE_PEEKER_INSTALL_OUTCOME=already_installed"@
            })
        },
{
    reveal_strlit("FILE_PEEKER_INSTALL_OUTCOME=installed");
    reveal_strlit("FILE_PEEKER_INSTALL_OUTCOME=already_installed");
    assert("FILE_PEEKER_INSTALL_OUTCOME=installed"@.len()
        != "FILE_PEEKER_INSTALL_OUTCOME=already_installed"@.len());
}

/// A check finds a server exactly where some line says so and the last one is the document of the
/// server that was asked for. It finds none exactly where its output says that an installation is
/// required. Anything else is an error.
pub proof fn law_checks_are_read_off_their_output(stdout: Seq<u8>, truncated: bool, expected: Seq<char>)
    ensures
        ({
            let text = decode_utf8(stdout);
            let lines = lines_of(text);
            let found = exists|i: int|
                0 <= i < lines.len() && #[trigger] lines[i]
                    == "FILE_PEEKER_INSTALL_OUTCOME=already_installed"@;
            let readable = !truncated && valid_utf8(stdout);
            &&& check_outcome(stdout, truncated, expected) == Ok::<bool, Seq<char>>(true)
                <==> readable && found && document_error(version_document(lines.last()), expected)
                is None
            &&& check_outcome(stdout, truncated, expected) == Ok::<bool, Seq<char>>(false)
                <==> readable && !found && trimmed(text) == "FILE_PEEKER_INSTALL_REQUIRED"@
        }),
{
    let lines = lines_of(decode_utf8(stdout));
    let marker = "FILE_PEEKER_INSTALL_OUTCOME=already_installed"@;
    if lines.contains(marker) {
        let i = choose|i: int| 0 <= i < lines.len() && lines[i] == marker;
        assert(lines[i] == marker);
    }
    if exists|i: int| 0 <= i < lines.len() && #[trigger] lines[i] == marker {
        let i = choose|i: int| 0 <= i < lines.len() && #[trigger] lines[i] == marker;
        assert(lines.contains(lines[i]));
    }
}

/// A configuration can be tried exactly where it names a destination that is no option, an `ssh`, a
/// version, a time and a limit, and no empty `cargo`.
pub proof fn law_usable_configurations_are_accepted(config: RemoteInstallConfig)
    ensures
        config_error(config) is None <==> {
            &&& config.destination@.len() > 0 && config.destination@[0] != '-'
            &&& config.ssh_executable@.len() > 0
            &&& is_stable_version(config.server_version@)
            &&& config.timeout_nanos > 0
            &&& config.output_limit > 0
            &&& config.remote_cargo matches Some(cargo) ==> cargo@.len() > 0
        },
{
}

/// A version is accepted exactly where it is three numbers with dots between them, none written with a
/// zero in front of other digits and nothing around them.
pub proof fn law_versions_are_three_numbers(version: Seq<char>)
    ensures
        is_stable_version(version) ==> split_on(version, '.').len() == 3 && with_between(
            split_on(version, '.'),
            '.',
        ) == version,
        is_stable_version(version) ==> forall|i: int|
            0 <= i < 3 ==> {
                let part = #[trigger] split_on(version, '.')[i];
                &&& part.len() > 0
                &&& forall|j: int| 0 <= j < part.len() ==> '0' <= #[trigger] part[j] <= '9'
                &&& part.len() > 1 ==> part[0] != '0'
            },
{
    law_split_parts_make_up_the_text(version, '.');
    if is_stable_version(version) {
        assert forall|i: int| 0 <= i < 3 implies {
            let part = #[trigger] split_on(version, '.')[i];
            &&& part.len() > 0
            &&& forall|j: int| 0 <= j < part.len() ==> '0' <= #[trigger] part[j] <= '9'
            &&& part.len() > 1 ==> part[0] != '0'
        } by {
            assert(is_version_part(split_on(version, '.')[i]));
        }
    }
}

/// Any three numbers in decimal with dots between them are a version.
pub proof fn law_three_numbers_are_a_version(major: nat, minor: nat, patch: nat)
    ensures
        is_stable_version(
            decimal_text(major) + seq!['.'] + decimal_text(minor) + seq!['.'] + decimal_text(patch),
        ),
{
    let a = decimal_text(major);
    let b = decimal_text(minor);
    let c = decimal_text(patch);
    crate::text_laws::law_decimals_are_read_back(major);
    crate::text_laws::law_decimals_are_read_back(minor);
    crate::text_laws::law_decimals_are_read_back(patch);
    let all = a + seq!['.'] + b + seq!['.'] + c;
    let rest = b + seq!['.'] + c;
    assert(all =~= a + seq!['.'] + rest);
    lemma_split_front(a, rest);
    lemma_split_front(b, c);
    lemma_split_last(c);
    let parts = split_on(all, '.');
    assert(parts =~= seq![a, b, c]);
    lemma_number_part(major);
    lemma_number_part(minor);
    lemma_number_part(patch);
    assert forall|i: int| 0 <= i < 3 implies is_version_part(#[trigger] parts[i]) by {}
}

proof fn lemma_number_part(n: nat)
    ensures
        is_version_part(decimal_text(n)),
{
    crate::text_laws::law_decimals_are_read_back(n);
}

proof fn lemma_split_front(a: Seq<char>, rest: Seq<char>)
    requires
        forall|i: int| 0 <= i < a.len() ==> '0' <= #[trigger] a[i] <= '9',
    ensures
        split_on(a + seq!['.'] + rest, '.') == seq![a] + split_on(rest, '.'),
{
    let all = a + seq!['.'] + rest;
    let n = a.len() as int;
    assert forall|j: int| 0 <= j < n implies all[j] != '.' by {
        assert(all[j] == a[j]);
    }
    assert(all[n] == '.');
    crate::text::lemma_first_of(all, '.', n);
    assert(all.take(n) =~= a);
    assert(all.skip(n + 1) =~= rest);
}

proof fn lemma_split_last(a: Seq<char>)
    requires
        forall|i: int| 0 <= i < a.len() ==> '0' <= #[trigger] a[i] <= '9',
    ensures
        split_on(a, '.') == seq![a],
{
    assert forall|j: int| 0 <= j < a.len() implies a[j] != '.' by {
        assert('0' <= a[j]);
    }
    crate::text::lemma_first_of(a, '.', a.len() as int);
}

/// The workspace of a package that stands in `crates` is the directory above that.
pub proof fn law_workspaces_hold_their_crates(workspace: Seq<char>, package: Seq<char>)
    requires
        workspace.len() > 0,
        workspace.last() != '/',
        !(workspace.len() >= 2 && workspace.last() == '.' && workspace[workspace.len() - 2] == '/'),
        package.len() > 0,
        !package.contains('/'),
        package != seq!['.'],
        package != seq!['.', '.'],
    ensures
        workspace_of(workspace + seq!['/'] + "crates"@ + seq!['/'] + package) == Some(workspace),
{
    reveal_strlit("crates");
    let crates = workspace + seq!['/'] + "crates"@;
    assert(crates.last() == 's');
    assert("crates"@.len() == 6);
    law_names_follow_the_last_slash(crates, package);
    assert forall|i: int| 0 <= i < 6 implies "crates"@[i] != '/' by {}
    assert("crates"@ != seq!['.']) by {
        assert("crates"@.len() != seq!['.'].len());
    }
    assert("crates"@ != seq!['.', '.']) by {
        assert("crates"@.len() != seq!['.', '.'].len());
    }
    law_names_follow_the_last_slash(workspace, "crates"@);
}

} // verus!
