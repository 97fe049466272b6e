//! What holds of whole installations, and of one that is run again.

use vstd::prelude::*;
use vstd::utf8::{decode_utf8, valid_utf8};

use crate::install::course::{finishes, starts, InstallCourse, InstallEvent, InstallPhase};
use crate::install::run::{cargo_error, script_error, ssh_error, workspace_of, ScriptOutcome};
use crate::install::{
    check_outcome, config_error, document_error, version_document, RemoteInstallConfig,
    RemoteInstallError, RemoteInstallOutcome, RemoteInstallPolicy, RemoteInstallSource,
};
use crate::text::lines_of;

verus! {

/// Whether the installation moves from its `i`th state to the next when the `i`th event comes.
pub open spec fn steps(states: Seq<InstallCourse>, events: Seq<InstallEvent>, i: int) -> bool {
    states[i].next(events[i], states[i + 1])
}

/// Whether `states` are what an installation passes through while `events` come.
pub open spec fn is_run(states: Seq<InstallCourse>, events: Seq<InstallEvent>) -> bool {
    &&& states.len() == events.len() + 1
    &&& forall|i: int| 0 <= i < events.len() ==> #[trigger] steps(states, events, i)
}

/// Whether a program's output could be read to its end.
pub open spec fn is_readable(config: RemoteInstallConfig, outcome: ScriptOutcome) -> bool {
    &&& script_error(config, outcome) is None
    &&& !outcome->Exited_stdout.truncated
    &&& valid_utf8(outcome->Exited_stdout.bytes@)
}

/// The lines that a program printed.
pub open spec fn printed(outcome: ScriptOutcome) -> Seq<Seq<char>> {
    lines_of(decode_utf8(outcome->Exited_stdout.bytes@))
}

/// Whether a program's output ends in the version document of a server as configured.
pub open spec fn vouches(config: RemoteInstallConfig, outcome: ScriptOutcome) -> bool {
    &&& is_readable(config, outcome)
    &&& document_error(version_document(printed(outcome).last()), config.server_version@) is None
}

/// Whether a program's output ends in `marker` and, below it, `document`.
pub open spec fn reports(
    config: RemoteInstallConfig,
    outcome: ScriptOutcome,
    marker: Seq<char>,
    document: Seq<char>,
) -> bool {
    let lines = printed(outcome);
    &&& is_readable(config, outcome)
    &&& lines.len() >= 2
    &&& lines[lines.len() - 2] == marker
    &&& lines.last() == document
}

/// Whether a check finds a compatible server.
pub open spec fn finds_compatible(config: RemoteInstallConfig, outcome: ScriptOutcome) -> bool {
    &&& script_error(config, outcome) is None
    &&& check_outcome(
        outcome->Exited_stdout.bytes@,
        outcome->Exited_stdout.truncated,
        config.server_version@,
    ) == Ok::<bool, Seq<char>>(true)
}

/// Whether a phase carries a success.
pub open spec fn is_success(phase: InstallPhase) -> bool {
    match phase {
        InstallPhase::CleanUp(r) | InstallPhase::Finished(r) => r is Ok,
        _ => false,
    }
}

/// Whether the `i`th event is what the success of an installation rests on: the output of the
/// program that checked for a server, or installed one.
pub open spec fn settles(states: Seq<InstallCourse>, events: Seq<InstallEvent>, i: int) -> bool {
    &&& 0 <= i < events.len()
    &&& states[i].phase is Check || states[i].phase is Install
    &&& events[i] is Script
    &&& is_success(states[i + 1].phase)
}

/// A success rests on output that vouches for the server.
proof fn lemma_success_step(before: InstallCourse, event: InstallEvent, after: InstallCourse)
    requires
        before.next(event, after),
        is_success(after.phase),
    ensures
        is_success(before.phase) || {
            &&& before.phase is Check || before.phase is Install
            &&& event is Script
            &&& vouches(before.config, event->Script_0)
        },
{
}

/// The configuration stays as it is.
proof fn lemma_config_stays(states: Seq<InstallCourse>, events: Seq<InstallEvent>, i: int)
    requires
        is_run(states, events),
        0 <= i < states.len(),
    ensures
        states[i].config == states[0].config,
    decreases i,
{
    if i > 0 {
        lemma_config_stays(states, events, i - 1);
        assert(steps(states, events, i - 1));
    }
}

/// A success in some state rests on an earlier event that settled it.
proof fn lemma_success_was_vouched_for(
    states: Seq<InstallCourse>,
    events: Seq<InstallEvent>,
    k: int,
) -> (i: int)
    requires
        is_run(states, events),
        !is_success(states[0].phase),
        0 <= k < states.len(),
        is_success(states[k].phase),
    ensures
        settles(states, events, i),
        vouches(states[0].config, events[i]->Script_0),
    decreases k,
{
    assert(steps(states, events, k - 1));
    lemma_config_stays(states, events, k - 1);
    lemma_success_step(states[k - 1], events[k - 1], states[k]);
    if is_success(states[k - 1].phase) {
        lemma_success_was_vouched_for(states, events, k - 1)
    } else {
        k - 1
    }
}

/// An installation succeeds only on output that ends in the version document of a server of the
/// configured version that speaks the protocol.
pub proof fn law_success_was_vouched_for(
    config: RemoteInstallConfig,
    manifest_dir: String,
    states: Seq<InstallCourse>,
    events: Seq<InstallEvent>,
)
    requires
        is_run(states, events),
        starts(config, manifest_dir, states[0]),
        states.last().phase matches InstallPhase::Finished(Ok(_)),
    ensures
        exists|i: int|
            #[trigger] settles(states, events, i) && vouches(config, events[i]->Script_0),
{
    let i = lemma_success_was_vouched_for(states, events, states.len() - 1);
}

/// Whether a phase packages, transfers or installs anything.
pub open spec fn is_work(phase: InstallPhase) -> bool {
    !(phase is Check || phase is Finished)
}

/// Up to any state, a check that finds a compatible server leads only to reusing it.
proof fn lemma_compatible_server_is_reused(
    states: Seq<InstallCourse>,
    events: Seq<InstallEvent>,
    k: int,
)
    requires
        is_run(states, events),
        states[0].phase is Check,
        forall|i: int|
            0 <= i < events.len() && states[i].phase is Check && (#[trigger] events[i]) is Script
                ==> finds_compatible(states[0].config, events[i]->Script_0),
        0 <= k < states.len(),
    ensures
        states[k].phase is Check || finishes(
            states[k].phase,
            Ok(RemoteInstallOutcome::AlreadyInstalled),
        ),
        (exists|i: int| 0 <= i < k && (#[trigger] events[i]) is Script) ==> states[k].phase is Finished,
    decreases k,
{
    if k > 0 {
        lemma_compatible_server_is_reused(states, events, k - 1);
        lemma_config_stays(states, events, k - 1);
        assert(steps(states, events, k - 1));
    }
}

/// Where a server may be reused and the check finds a compatible one, the installation finishes with
/// [`RemoteInstallOutcome::AlreadyInstalled`] as soon as the check has answered, and nothing is
/// packaged, transferred or installed on the way, whatever the source.
pub proof fn law_compatible_servers_are_reused(
    config: RemoteInstallConfig,
    manifest_dir: String,
    states: Seq<InstallCourse>,
    events: Seq<InstallEvent>,
)
    requires
        config.policy == RemoteInstallPolicy::ReuseExisting,
        is_run(states, events),
        starts(config, manifest_dir, states[0]),
        forall|i: int|
            0 <= i < events.len() && states[i].phase is Check && (#[trigger] events[i]) is Script
                ==> finds_compatible(config, events[i]->Script_0),
    ensures
        forall|k: int| 0 <= k < states.len() ==> !is_work(#[trigger] states[k].phase),
        states.last().phase is Check || finishes(
            states.last().phase,
            Ok(RemoteInstallOutcome::AlreadyInstalled),
        ),
        (exists|i: int| 0 <= i < events.len() && (#[trigger] events[i]) is Script) ==> finishes(
            states.last().phase,
            Ok(RemoteInstallOutcome::AlreadyInstalled),
        ),
{
    assert forall|k: int| 0 <= k < states.len() implies !is_work(#[trigger] states[k].phase) by {
        lemma_compatible_server_is_reused(states, events, k);
    }
    lemma_compatible_server_is_reused(states, events, states.len() - 1);
}

/// After an installation succeeded, one of the same version that may reuse a server finds it and
/// packages nothing, whatever its source, as long as nothing changed on the other machine: the check
/// reports a server that is there already, with the version document that the first installation
/// ended in.
pub proof fn law_repeated_installation_reuses(
    config: RemoteInstallConfig,
    manifest_dir: String,
    states: Seq<InstallCourse>,
    events: Seq<InstallEvent>,
    i: int,
    again: RemoteInstallConfig,
    again_dir: String,
    again_states: Seq<InstallCourse>,
    again_events: Seq<InstallEvent>,
)
    requires
        is_run(states, events),
        starts(config, manifest_dir, states[0]),
        settles(states, events, i),
        again.policy == RemoteInstallPolicy::ReuseExisting,
        again.server_version@ == config.server_version@,
        is_run(again_states, again_events),
        starts(again, again_dir, again_states[0]),
        forall|k: int|
            0 <= k < again_events.len() && again_states[k].phase is Check && (
            #[trigger] again_events[k]) is Script ==> reports(
                again,
                again_events[k]->Script_0,
                "FILE_PEEKER_INSTALL_OUTCOME=already_installed"@,
                printed(events[i]->Script_0).last(),
            ),
    ensures
        forall|k: int| 0 <= k < again_states.len() ==> !is_work(#[trigger] again_states[k].phase),
        again_states.last().phase is Finished ==> finishes(
            again_states.last().phase,
            Ok(RemoteInstallOutcome::AlreadyInstalled),
        ),
        (exists|k: int| 0 <= k < again_events.len() && (#[trigger] again_events[k]) is Script)
            ==> finishes(
            again_states.last().phase,
            Ok(RemoteInstallOutcome::AlreadyInstalled),
        ),
{
    assert(steps(states, events, i));
    lemma_config_stays(states, events, i);
    lemma_success_step(states[i], events[i], states[i + 1]);
    assert forall|k: int|
        0 <= k < again_events.len() && again_states[k].phase is Check && (
        #[trigger] again_events[k]) is Script implies finds_compatible(
        again,
        again_events[k]->Script_0,
    ) by {
        let lines = printed(again_events[k]->Script_0);
        assert(lines[lines.len() - 2] == "FILE_PEEKER_INSTALL_OUTCOME=already_installed"@);
    }
    law_compatible_servers_are_reused(again, again_dir, again_states, again_events);
}

/// An installation that did not start with a check is in none in any state.
proof fn lemma_overwriting_never_checks(
    states: Seq<InstallCourse>,
    events: Seq<InstallEvent>,
    k: int,
)
    requires
        is_run(states, events),
        !(states[0].phase is Check),
        0 <= k < states.len(),
    ensures
        !(states[k].phase is Check),
    decreases k,
{
    if k > 0 {
        lemma_overwriting_never_checks(states, events, k - 1);
        assert(steps(states, events, k - 1));
    }
}

/// An installation that overwrites never checks whether a server is there.
pub proof fn law_overwriting_never_checks(
    config: RemoteInstallConfig,
    manifest_dir: String,
    states: Seq<InstallCourse>,
    events: Seq<InstallEvent>,
)
    requires
        config.policy == RemoteInstallPolicy::Overwrite,
        is_run(states, events),
        starts(config, manifest_dir, states[0]),
    ensures
        forall|k: int| 0 <= k < states.len() ==> !((#[trigger] states[k].phase) is Check),
{
    assert forall|k: int| 0 <= k < states.len() implies !((#[trigger] states[k].phase) is Check) by {
        lemma_overwriting_never_checks(states, events, k);
    }
}

/// Whether the step that `event` tells of went well; the program that installs a server reports that
/// it did, and `document`.
pub open spec fn goes_well(course: InstallCourse, event: InstallEvent, document: Seq<char>) -> bool {
    match (course.phase, event) {
        (InstallPhase::PackageProtocol, InstallEvent::Cargo(outcome)) => cargo_error(
            outcome,
            "package protocol crate"@,
        ) is None,
        (InstallPhase::PackageServer, InstallEvent::Cargo(outcome)) => cargo_error(
            outcome,
            "package server crate"@,
        ) is None,
        (InstallPhase::NameRoot, InstallEvent::Named { pid, nanos }) => nanos is Ok,
        (InstallPhase::MakeRoot, InstallEvent::Ssh(outcome)) => ssh_error(course.config, outcome)
            is None,
        (InstallPhase::SendProtocol, InstallEvent::Ssh(outcome)) => ssh_error(
            course.config,
            outcome,
        ) is None,
        (InstallPhase::SendServer, InstallEvent::Ssh(outcome)) => ssh_error(course.config, outcome)
            is None,
        (InstallPhase::Install, InstallEvent::Script(outcome)) => reports(
            course.config,
            outcome,
            "FILE_PEEKER_INSTALL_OUTCOME=installed"@,
            document,
        ),
        (InstallPhase::CleanUp(_), InstallEvent::Ssh(outcome)) => ssh_error(course.config, outcome)
            is None,
        _ => true,
    }
}

/// Whether a phase that carries a result carries that a server was installed.
pub open spec fn only_installs(phase: InstallPhase) -> bool {
    match phase {
        InstallPhase::Check => false,
        InstallPhase::CleanUp(r) | InstallPhase::Finished(r) => r == Ok::<
            RemoteInstallOutcome,
            RemoteInstallError,
        >(RemoteInstallOutcome::Installed),
        _ => true,
    }
}

/// Up to any state, an installation whose steps go well carries no other result.
proof fn lemma_overwriting_installs(
    states: Seq<InstallCourse>,
    events: Seq<InstallEvent>,
    document: Seq<char>,
    k: int,
)
    requires
        is_run(states, events),
        only_installs(states[0].phase),
        document_error(version_document(document), states[0].config.server_version@) is None,
        forall|j: int|
            0 <= j < events.len() ==> goes_well(states[j], #[trigger] events[j], document),
        0 <= k < states.len(),
    ensures
        only_installs(states[k].phase),
    decreases k,
{
    if k > 0 {
        lemma_overwriting_installs(states, events, document, k - 1);
        lemma_config_stays(states, events, k - 1);
        assert(steps(states, events, k - 1));
        assert(goes_well(states[k - 1], events[k - 1], document));
    }
}

/// After an installation succeeded, one of the same version that overwrites ends in
/// [`RemoteInstallOutcome::Installed`] again, every time, as long as each of its steps goes well and
/// the other machine's `cargo` still installs what it did: the program reports that a server was
/// installed, with the version document that the first installation ended in.
pub proof fn law_repeated_overwriting_installs(
    config: RemoteInstallConfig,
    manifest_dir: String,
    states: Seq<InstallCourse>,
    events: Seq<InstallEvent>,
    i: int,
    again: RemoteInstallConfig,
    again_dir: String,
    again_states: Seq<InstallCourse>,
    again_events: Seq<InstallEvent>,
)
    requires
        is_run(states, events),
        starts(config, manifest_dir, states[0]),
        settles(states, events, i),
        again.policy == RemoteInstallPolicy::Overwrite,
        again.server_version@ == config.server_version@,
        again.source == RemoteInstallSource::Workspace ==> workspace_of(again_dir@) is Some,
        is_run(again_states, again_events),
        starts(again, again_dir, again_states[0]),
        forall|k: int|
            0 <= k < again_events.len() ==> goes_well(
                again_states[k],
                #[trigger] again_events[k],
                printed(events[i]->Script_0).last(),
            ),
    ensures
        forall|k: int| 0 <= k < again_states.len() ==> only_installs(#[trigger] again_states[k].phase),
        again_states.last().phase is Finished ==> finishes(
            again_states.last().phase,
            Ok(RemoteInstallOutcome::Installed),
        ),
{
    let document = printed(events[i]->Script_0).last();
    assert(steps(states, events, i));
    lemma_config_stays(states, events, i);
    lemma_success_step(states[i], events[i], states[i + 1]);
    assert forall|k: int| 0 <= k < again_states.len() implies only_installs(
        #[trigger] again_states[k].phase,
    ) by {
        lemma_overwriting_installs(again_states, again_events, document, k);
    }
    assert(only_installs(again_states[again_states.len() - 1].phase));
}

/// Whether `event` tells what came of the step that the installation asked for.
pub open spec fn answers(phase: InstallPhase, event: InstallEvent) -> bool {
    match phase {
        InstallPhase::Check | InstallPhase::Install => event is Script,
        InstallPhase::PackageProtocol | InstallPhase::PackageServer => event is Cargo,
        InstallPhase::NameRoot => event is Named,
        InstallPhase::MakeRoot | InstallPhase::SendProtocol | InstallPhase::SendServer
        | InstallPhase::CleanUp(_) => event is Ssh,
        InstallPhase::Finished(_) => false,
    }
}

/// How many steps an installation can still take.
pub open spec fn steps_left(phase: InstallPhase) -> nat {
    match phase {
        InstallPhase::Check => 9,
        InstallPhase::PackageProtocol => 8,
        InstallPhase::PackageServer => 7,
        InstallPhase::NameRoot => 6,
        InstallPhase::MakeRoot => 5,
        InstallPhase::SendProtocol => 4,
        InstallPhase::SendServer => 3,
        InstallPhase::Install => 2,
        InstallPhase::CleanUp(_) => 1,
        InstallPhase::Finished(_) => 0,
    }
}

/// Each step that was answered brings the end nearer.
proof fn lemma_installations_end(states: Seq<InstallCourse>, events: Seq<InstallEvent>, k: int)
    requires
        is_run(states, events),
        forall|j: int| 0 <= j < events.len() ==> answers(states[j].phase, #[trigger] events[j]),
        0 <= k < states.len(),
    ensures
        k + steps_left(states[k].phase) <= steps_left(states[0].phase),
    decreases k,
{
    if k > 0 {
        lemma_installations_end(states, events, k - 1);
        assert(steps(states, events, k - 1));
        assert(answers(states[k - 1].phase, events[k - 1]));
    }
}

/// An installation whose steps are answered one by one ends: it asks for nine of them at most.
pub proof fn law_installations_end(
    config: RemoteInstallConfig,
    manifest_dir: String,
    states: Seq<InstallCourse>,
    events: Seq<InstallEvent>,
)
    requires
        is_run(states, events),
        starts(config, manifest_dir, states[0]),
        forall|j: int| 0 <= j < events.len() ==> answers(states[j].phase, #[trigger] events[j]),
    ensures
        events.len() <= 9,
        events.len() == 9 ==> states.last().phase is Finished,
{
    lemma_installations_end(states, events, events.len() as int);
}

/// Without a destination nothing is started, however well the configuration served before.
pub proof fn law_no_destination_no_installation(config: RemoteInstallConfig)
    requires
        config.destination@.len() == 0,
    ensures
        config_error(config) == Some("SSH destination is required and must not begin with `-`"@),
{
}

} // verus!
