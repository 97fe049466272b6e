//! What starting and supervising a server come to as a whole.

use vstd::prelude::*;
use vstd::utf8::encode_utf8;

use crate::api::{ErrorClass, ErrorView, FilePeekerError, SessionConfig, SessionTarget};
use crate::bytes::lossy_text;
use crate::install::RemoteInstallConfig;
use crate::io_error::{IoError, IoErrorKind};
use crate::shell::{law_quoting_is_read_back, quoted, shell_reads, QuoteState};
use crate::startup::child::{
    endpoint_error, one_shot_script, plan_endpoint, starts_child, watch_next, with_bounded, ChildCommand, ChildEvent,
    ChildKind, ChildPhase, ChildStart, EndpointOutcome, EndpointPlan, WatchEvent, WatchPhase,
};
use crate::startup::control::{
    connect_next, handshake_error, master_next, ConnectEvent, ConnectPhase, HandshakeOutcome,
    MasterEvent, MasterPhase,
};
use crate::startup::diagnostics::BoundedOutput;
use crate::text::{has_prefix, texts, trimmed};
use crate::text_laws::{ends_in, lemma_ends_in};
use crate::unix_path::{file_name_of, joined};

verus! {

/// Whether a start goes through `states`, from one to the next by each of `events`.
pub open spec fn child_goes(states: Seq<ChildStart>, events: Seq<ChildEvent>) -> bool {
    &&& states.len() == events.len() + 1
    &&& forall|k: int| 0 <= k < events.len() ==> states[k].next(#[trigger] events[k], states[k + 1])
}

/// Whether a directory of this path can hold the socket: its path then fits, and the directory has
/// a name.
pub open spec fn holds_socket(path: Seq<char>) -> bool {
    encode_utf8(joined(path, "server.sock"@)).len() <= 100 && file_name_of(path) is Some
}

/// A server on this machine whose directory is made, which starts, is reached and answers is ready,
/// below that directory.
pub proof fn law_local_servers_get_ready(
    states: Seq<ChildStart>,
    events: Seq<ChildEvent>,
    path: String,
)
    requires
        child_goes(states, events),
        states[0].kind is Local,
        states[0].phase is CreateEndpoint,
        events.len() == 4,
        events[0] == ChildEvent::EndpointCreated(EndpointOutcome::Created(path)),
        holds_socket(path@),
        events[1] == ChildEvent::Spawned(Ok(true)),
        events[2] matches ChildEvent::Connected(Ok(_)),
        events[3] matches ChildEvent::Greeted { result, deadline_passed } && result is Ok,
    ensures
        states[4].phase is Ready,
        states[4].endpoint == Some(path),
        states[4].kind == states[0].kind,
{
    assert(states[0].next(events[0], states[1]));
    assert(states[1].next(events[1], states[2]));
    assert(states[2].next(events[2], states[3]));
    assert(states[3].next(events[3], states[4]));
}

/// A server on another machine is installed first. One that hangs up while it is greeted is waited
/// for and reached again, as long as there is time, and is ready once it answers.
pub proof fn law_remote_servers_get_ready(
    states: Seq<ChildStart>,
    events: Seq<ChildEvent>,
    path: String,
)
    requires
        child_goes(states, events),
        states[0].kind is Remote,
        states[0].phase is Install,
        events.len() == 8,
        events[0] matches ChildEvent::Installed(Ok(_)),
        events[1] == ChildEvent::EndpointCreated(EndpointOutcome::Created(path)),
        holds_socket(path@),
        events[2] == ChildEvent::Spawned(Ok(true)),
        events[3] matches ChildEvent::Connected(Ok(_)),
        events[4] matches ChildEvent::Greeted { result: Err(e), deadline_passed } && e@.class
            == ErrorClass::ConnectionClosed && !deadline_passed,
        events[5] is Waited,
        events[6] matches ChildEvent::Connected(Ok(_)),
        events[7] matches ChildEvent::Greeted { result, deadline_passed } && result is Ok,
    ensures
        states[5].phase is Delay,
        states[8].phase is Ready,
        states[8].endpoint == Some(path),
        states[8].kind == states[0].kind,
{
    assert(states[0].next(events[0], states[1]));
    assert(states[1].next(events[1], states[2]));
    assert(states[2].next(events[2], states[3]));
    assert(states[3].next(events[3], states[4]));
    assert(states[4].next(events[4], states[5]));
    assert(states[5].next(events[5], states[6]));
    assert(states[6].next(events[6], states[7]));
    assert(states[7].next(events[7], states[8]));
}

/// A greeting is given up on at once where it fails otherwise than by a lost connection, where the
/// time is up or where the server is on this machine: the server is then stopped because of that
/// failure.
pub proof fn law_failed_greetings_are_given_up(before: ChildStart, event: ChildEvent, after: ChildStart)
    requires
        before.next(event, after),
        before.phase is Greet,
        event matches ChildEvent::Greeted { result: Err(e), deadline_passed } && (e@.class
            != ErrorClass::ConnectionClosed || deadline_passed || before.kind is Local),
    ensures
        event matches ChildEvent::Greeted { result: Err(e), deadline_passed } && (
        after.phase matches ChildPhase::Stop(kept) && kept@ == e@),
{
}

/// A step before the server runs that fails, fails the start, and its words are told.
pub proof fn law_start_failures_are_told(before: ChildStart, event: ChildEvent, after: ChildStart)
    requires
        before.next(event, after),
    ensures
        before.phase is Install ==> (event matches ChildEvent::Installed(Err(words)) ==> (
        after.phase matches ChildPhase::Failed(e) && e@.class
            == ErrorClass::ServerStart && e@.message == words@)),
        before.phase is CreateEndpoint ==> (event matches ChildEvent::EndpointCreated(outcome) ==> (
        !(outcome is Created) ==> (after.phase matches ChildPhase::Failed(e)
            && e@.class == ErrorClass::ServerStart && endpoint_error(outcome) == Some(e@)))),
        before.phase is CreateEndpoint ==> (event matches ChildEvent::EndpointCreated(
            EndpointOutcome::Created(path),
        ) ==> (encode_utf8(joined(path@, "server.sock"@)).len() > 100 ==> after.phase is Failed)),
        before.phase is Spawn ==> (event matches ChildEvent::Spawned(Err(reason)) ==> (
        after.phase matches ChildPhase::Failed(e) && e@.class
            == ErrorClass::ServerStart && ends_in(e@.message, reason.message@))),
        before.phase is Spawn ==> (event matches ChildEvent::Spawned(Ok(false)) ==> (
        after.phase matches ChildPhase::Failed(e) && e@.class
            == ErrorClass::ServerStart)),
        before.phase is Connect ==> (event matches ChildEvent::Connected(Err(reason)) ==> (
        after.phase matches ChildPhase::Stop(e) && e@ == reason@)),
{
    if let ChildEvent::Spawned(Err(reason)) = event {
        if let ChildKind::Local { executable } = before.kind {
            lemma_ends_in("cannot launch `"@ + executable@ + "`: "@, reason.message@);
        }
        lemma_ends_in("cannot launch SSH remote server: "@, reason.message@);
    }
}

/// Why there is no private directory is told in the words that came, whatever failed.
pub proof fn law_directory_failures_are_told(reason: IoError)
    ensures
        forall|outcome: EndpointOutcome|
            outcome == EndpointOutcome::NotCreated(reason) || outcome
                == EndpointOutcome::NotInspected(reason) || outcome == EndpointOutcome::NotSecured(
                reason,
            ) ==> (#[trigger] endpoint_error(outcome) matches Some(e) && e.class
                == ErrorClass::ServerStart && ends_in(e.message, reason.message@)),
        forall|outcome: EndpointOutcome|
            #[trigger] endpoint_error(outcome) is None <==> outcome is Created,
{
    lemma_ends_in("cannot create private server directory: "@, reason.message@);
    lemma_ends_in("cannot inspect private server directory: "@, reason.message@);
    lemma_ends_in("cannot secure private server directory: "@, reason.message@);
}

/// The server listens where the client looks for it. On this machine it is told the path of the
/// socket; on another, the socket is forwarded to the one that the server there listens on, in a
/// directory of its own.
pub proof fn law_servers_listen_where_they_are_sought(
    kind: ChildKind,
    endpoint: Seq<char>,
    command: ChildCommand,
)
    requires
        starts_child(kind, endpoint, command),
    ensures
        kind matches ChildKind::Local { executable } ==> {
            let words = texts(command.arguments@);
            &&& command.program@ == executable@
            &&& words.len() == 3
            &&& words[0] == "serve"@
            &&& words[1] == "--socket"@
            &&& words[2] == joined(endpoint, "server.sock"@)
        },
        kind matches ChildKind::Remote { destination } ==> {
            let words = texts(command.arguments@);
            let directory = "/tmp/"@ + file_name_of(endpoint)->Some_0 + "-remote"@;
            let script = words[8];
            let name = quoted(directory);
            &&& command.program@ == "ssh"@
            &&& command.has_input
            &&& words.len() == 9
            &&& words[5] == "-L"@
            &&& words[6] == joined(endpoint, "server.sock"@) + ":"@ + directory + "/server.sock"@
            &&& words[7] == destination@
            &&& has_prefix(script, "set -eu; runtime="@ + name + "; mkdir -m 700 \"$runtime\"; "@)
            &&& shell_reads(QuoteState::Outside, name) == Some(directory)
            &&& words[2] == "ExitOnForwardFailure=yes"@
        },
{
    if let ChildKind::Remote { destination } = kind {
        let directory = "/tmp/"@ + file_name_of(endpoint)->Some_0 + "-remote"@;
        let name = quoted(directory);
        law_quoting_is_read_back(directory);
        let script = one_shot_script(directory);
        let start = "set -eu; runtime="@ + name + "; mkdir -m 700 \"$runtime\"; "@;
        reveal_strlit("; mkdir -m 700 \"$runtime\"; ");
        reveal_strlit("; mkdir -m 700 \"$runtime\"; server=\"$HOME/.file-peeker/servers/");
        assert(script.take(start.len() as int) =~= start);
    }
}

/// What a server printed is added to an error about its start or exit, and to no other; an error
/// keeps its class and its words.
pub proof fn law_printed_words_are_added(e: ErrorView, stderr: Option<BoundedOutput>)
    ensures
        with_bounded(e, stderr).class == e.class,
        has_prefix(with_bounded(e, stderr).message, e.message),
        e.class != ErrorClass::ServerStart && e.class != ErrorClass::ServerExited ==> with_bounded(
            e,
            stderr,
        ) == e,
        (stderr matches Some(output) ==> output.bytes@.len() == 0) ==> with_bounded(e, stderr) == e,
        stderr matches Some(output) ==> (output.bytes@.len() > 0 && (e.class
            == ErrorClass::ServerStart || e.class == ErrorClass::ServerExited) ==> with_bounded(
            e,
            stderr,
        ).message.len() > e.message.len() && (output.truncated ==> ends_in(
            with_bounded(e, stderr).message,
            " [truncated]"@,
        ))),
{
    reveal_strlit("; server stderr: ");
    let told = with_bounded(e, stderr).message;
    assert(told.take(e.message.len() as int) =~= e.message);
    if let Some(output) = stderr {
        if output.truncated && told != e.message {
            let head = e.message + ("; server stderr: "@ + trimmed(
                lossy_text(output.bytes@),
            ));
            lemma_ends_in(head, " [truncated]"@);
            assert(told =~= head + " [truncated]"@);
        }
    }
}

/// Once a shutdown is requested, the control connection is closed, then the input, and then the end
/// of the child is awaited; one that does not end in time is killed. A server that closes its control
/// connection itself is awaited too.
pub proof fn law_children_are_ended_in_order()
    ensures
        ({
            let s1 = watch_next(WatchPhase::Watching, WatchEvent::ShutdownRequested);
            let s2 = watch_next(s1, WatchEvent::Done);
            let s3 = watch_next(s2, WatchEvent::Done);
            &&& s1 is CloseControl
            &&& s2 is CloseInput
            &&& s3 is Await
            &&& watch_next(s3, WatchEvent::Done) is Closed
            &&& watch_next(s3, WatchEvent::TimedOut) is Kill
            &&& watch_next(WatchPhase::Kill, WatchEvent::Done) is Closed
            &&& watch_next(WatchPhase::Watching, WatchEvent::ControlClosed) is Await
            &&& watch_next(WatchPhase::Watching, WatchEvent::ChildExited) is Closed
            &&& watch_next(WatchPhase::Watching, WatchEvent::Done) is Watching
            &&& watch_next(WatchPhase::Watching, WatchEvent::TimedOut) is Watching
        }),
{
}

/// While a server runs and there is time, its socket is tried; one that is not there or not yet
/// listening is tried again after a pause, and one that takes the connection is connected to.
pub proof fn law_sockets_are_tried_until_they_listen(
    phase: ConnectPhase,
    event: ConnectEvent,
    after: ConnectPhase,
)
    requires
        connect_next(phase, event, after),
    ensures
        phase is Inspect ==> (event matches ConnectEvent::Inspected(check) ==> (after is Connect
            <==> (check.exited matches Ok(None) && !check.deadline_passed))),
        phase is Connect ==> (event matches ConnectEvent::Tried(result) ==> match result {
            Ok(_) => after is Connected,
            Err(e) => (after is Delay <==> e.kind == IoErrorKind::NotFound || e.kind
                == IoErrorKind::ConnectionRefused) && (after is Delay || after is Failed),
        }),
        phase is Delay && event is Waited ==> after is Inspect,
        after is Connected && !(phase is Connected) ==> phase is Connect,
{
}

/// A server that cannot be reached is reported by what happened: that it ended comes before that the
/// time is up, and words that came are told.
pub proof fn law_unreached_servers_are_told_of(
    phase: ConnectPhase,
    event: ConnectEvent,
    after: ConnectPhase,
)
    requires
        connect_next(phase, event, after),
        after is Failed,
        !(phase is Failed),
    ensures
        event matches ConnectEvent::Inspected(check) ==> match check.exited {
            Err(e) => after->Failed_0@.class == ErrorClass::ServerStart && ends_in(
                after->Failed_0@.message,
                e.message@,
            ),
            Ok(Some(status)) => after->Failed_0@.class == ErrorClass::ServerExited && ends_in(
                after->Failed_0@.message,
                status@,
            ),
            Ok(None) => after->Failed_0@.class == ErrorClass::ServerStart && check.deadline_passed,
        },
        event matches ConnectEvent::Tried(result) ==> (result matches Err(e)
            && after->Failed_0@.class == ErrorClass::ServerStart && ends_in(
            after->Failed_0@.message,
            e.message@,
        )),
        !(event is Waited),
{
    match event {
        ConnectEvent::Inspected(check) => {
            match check.exited {
                Err(e) => {
                    lemma_ends_in("cannot inspect server process: "@, e.message@);
                },
                Ok(Some(status)) => {
                    lemma_ends_in("server exited with "@, status@);
                },
                Ok(None) => {},
            }
        },
        ConnectEvent::Tried(Err(e)) => {
            lemma_ends_in("cannot connect to server socket: "@, e.message@);
        },
        _ => {},
    }
}

/// A greeting has succeeded exactly where it was answered well; else what came is told.
pub proof fn law_greetings_succeed_when_answered(outcome: HandshakeOutcome)
    ensures
        handshake_error(outcome) is None <==> (outcome matches HandshakeOutcome::Answered(result)
            && result is Ok),
        outcome matches HandshakeOutcome::Answered(Err(e)) ==> handshake_error(outcome) == Some(e@),
        outcome is TimedOut ==> handshake_error(outcome)->Some_0.class == ErrorClass::ServerStart,
        outcome matches HandshakeOutcome::Exited(Ok(status)) ==> handshake_error(outcome)->Some_0.class
            == ErrorClass::ServerExited && ends_in(handshake_error(outcome)->Some_0.message, status@),
        outcome matches HandshakeOutcome::Exited(Err(e)) ==> handshake_error(outcome)->Some_0.class
            == ErrorClass::ServerStart && ends_in(
            handshake_error(outcome)->Some_0.message,
            e.message@,
        ),
{
    match outcome {
        HandshakeOutcome::Exited(Ok(status)) => {
            lemma_ends_in("server exited with "@, status@);
        },
        HandshakeOutcome::Exited(Err(e)) => {
            lemma_ends_in("cannot wait for server process: "@, e.message@);
        },
        _ => {},
    }
}

/// While the control master runs and there is time, it is asked whether it is ready, again and again
/// after a pause; it is ready exactly where it says so.
pub proof fn law_masters_are_asked_until_ready(phase: MasterPhase, event: MasterEvent, after: MasterPhase)
    requires
        master_next(phase, event, after),
    ensures
        phase is Inspect ==> (event matches MasterEvent::Inspected(check) ==> {
            &&& after is Check <==> (check.exited matches Ok(None) && !check.deadline_passed)
            &&& after is Check || after is Failed
            &&& check.exited matches Err(e) ==> after->Failed_0@.class == ErrorClass::ServerStart
                && ends_in(after->Failed_0@.message, e.message@)
            &&& check.exited matches Ok(Some(status)) ==> after->Failed_0@.class
                == ErrorClass::ServerExited && ends_in(after->Failed_0@.message, status@)
        }),
        phase is Check ==> (event matches MasterEvent::Checked(ready) ==> if ready {
            after is Ready
        } else {
            after is Delay
        }),
        phase is Delay && event is Waited ==> after is Inspect,
        after is Ready && !(phase is Ready) ==> phase is Check && event == MasterEvent::Checked(true),
        after is Failed && !(phase is Failed) ==> phase is Inspect,
{
    if let MasterEvent::Inspected(check) = event {
        match check.exited {
            Err(e) => {
                lemma_ends_in("cannot inspect SSH control master: "@, e.message@);
            },
            Ok(Some(status)) => {
                lemma_ends_in("SSH control master exited with "@, status@);
            },
            Ok(None) => {},
        }
    }
}

/// A start can be tried exactly where it is said what to start: an executable on this machine, or a
/// destination that is no option.
pub proof fn law_starts_need_a_target(
    config: SessionConfig,
    started: Result<ChildStart, FilePeekerError>,
)
    requires
        call_ensures(ChildStart::start, (config,), started),
    ensures
        config.target matches SessionTarget::Local { server_executable_path } ==> {
            &&& started is Err ==> server_executable_path@.len() == 0
            &&& started matches Ok(s) ==> s.phase is CreateEndpoint && (
            s.kind matches ChildKind::Local { executable } && executable@ == server_executable_path@
                && executable@.len() > 0)
        },
        config.target matches SessionTarget::Ssh { destination } ==> {
            &&& started is Err ==> destination@.len() == 0 || destination@[0] == '-'
            &&& started matches Ok(s) ==> s.phase is Install && s.kind == (ChildKind::Remote {
                destination,
            }) && destination@.len() > 0 && destination@[0] != '-'
        },
        started matches Err(e) ==> e@.class == ErrorClass::ServerStart,
{
}

/// A server on this machine needs no installation. One on another machine is installed at the
/// destination in the version of this client, and one that is there already is reused.
pub proof fn law_servers_are_installed_at_the_destination(
    s: &ChildStart,
    development: bool,
    config: Option<RemoteInstallConfig>,
)
    requires
        call_ensures(ChildStart::install_config, (s, development), config),
    ensures
        config is Some <==> s.kind is Remote,
        config matches Some(c) ==> (s.kind matches ChildKind::Remote { destination }
            && c.destination@ == destination@ && c.server_version@ == "0.1.0"@
            && c.policy is ReuseExisting && (c.source is Workspace <==> development)),
{
}

/// The directory for the socket is made in a place that every user has, under a name of its own, and
/// closed to everybody but its owner.
pub proof fn law_sockets_are_private(plan: EndpointPlan)
    requires
        call_ensures(plan_endpoint, (), plan),
    ensures
        plan.parent@ == "/tmp"@,
        plan.prefix@.len() > 0,
        plan.mode == 7 * 8 * 8,
{
    reveal_strlit("fp-");
}

/// A start changes nothing that it has settled: where the server is to run never, and its directory only
/// where that was created.
pub proof fn law_starts_keep_their_directory(before: ChildStart, event: ChildEvent, after: ChildStart)
    requires
        before.next(event, after),
    ensures
        after.kind == before.kind,
        !(before.phase is CreateEndpoint) ==> after.endpoint == before.endpoint,
        before.phase is CreateEndpoint && !(event is EndpointCreated) ==> after == before,
        before.phase is CreateEndpoint ==> (event matches ChildEvent::EndpointCreated(
            EndpointOutcome::Created(path),
        ) ==> after.endpoint == Some(path)),
{
}

} // verus!
