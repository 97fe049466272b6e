//! What starting a server on another machine asks for, over a whole run.

use vstd::prelude::*;
use vstd::utf8::encode_utf8;

use crate::api::{ErrorClass, FilePeekerError};
use crate::path_laws::{law_joining_puts_one_slash_between, law_names_follow_the_last_slash};
use crate::shell::quoted;
use crate::startup::diagnostics::with_stderr;
use crate::startup::remote::{
    remote_directory_of, stderr_view, supervise_next, RemoteAction, RemoteEvent, RemotePhase,
    RemoteStart, SuperviseEvent, SupervisePhase, Trigger, REMOTE_LAUNCH_SCRIPT,
};
use crate::startup::runtime::SessionDirectory;
use crate::startup::setup_laws::law_errors_are_only_added_to;
use crate::startup::PACKAGE_VERSION;
use crate::text::{has_prefix, texts};
use crate::text_laws::{ends_in, lemma_ends_in};
use crate::unix_path::{is_plain_name, joined, parent_path};

verus! {

/// Whether the start moves from its `i`th state to the next when the `i`th event comes.
pub open spec fn start_steps(states: Seq<RemoteStart>, events: Seq<RemoteEvent>, i: int) -> bool {
    states[i].next(events[i], states[i + 1])
}

/// Whether `states` are what a start passes through while `events` come.
pub open spec fn is_start_run(states: Seq<RemoteStart>, events: Seq<RemoteEvent>) -> bool {
    &&& states.len() == events.len() + 1
    &&& states[0].phase is CreateDirectory
    &&& forall|i: int| 0 <= i < states.len() ==> (#[trigger] states[i]).wf()
    &&& forall|i: int| 0 <= i < events.len() ==> #[trigger] start_steps(states, events, i)
}

/// Whether `actions` are what was asked for in each state of a run.
pub open spec fn were_asked(states: Seq<RemoteStart>, actions: Seq<RemoteAction>) -> bool {
    &&& actions.len() == states.len()
    &&& forall|i: int| 0 <= i < states.len() ==> states[i].asks(#[trigger] actions[i])
}

/// The words of the `ssh` command that an action runs, if it runs one of its own.
pub open spec fn ssh_words(action: RemoteAction) -> Seq<Seq<char>> {
    match action {
        RemoteAction::SpawnMaster { arguments } => texts(arguments@),
        RemoteAction::WaitForMaster { check_arguments, .. } => texts(check_arguments@),
        RemoteAction::QueryHome { arguments } => texts(arguments@),
        RemoteAction::SpawnLauncher { arguments } => texts(arguments@),
        RemoteAction::Forward { arguments } => texts(arguments@),
        RemoteAction::StopBoth { exit_arguments } => texts(exit_arguments@),
        _ => Seq::empty(),
    }
}

/// Whether `value` directly follows `option` among `words`.
pub open spec fn has_option(words: Seq<Seq<char>>, option: Seq<char>, value: Seq<char>) -> bool {
    exists|i: int| 0 <= i < words.len() - 1 && #[trigger] words[i] == option && words[i + 1] == value
}

/// How far a start has come.
spec fn place(phase: RemotePhase) -> int {
    match phase {
        RemotePhase::CreateDirectory => 0,
        RemotePhase::SpawnMaster => 1,
        RemotePhase::WaitForMaster => 2,
        RemotePhase::Install => 3,
        RemotePhase::QueryHome => 4,
        RemotePhase::SpawnLauncher => 5,
        RemotePhase::Forward => 6,
        RemotePhase::Connect | RemotePhase::Greet | RemotePhase::Delay => 7,
        RemotePhase::Ready => 8,
        RemotePhase::StopMaster(_) | RemotePhase::StopBoth(_) | RemotePhase::Failed(_) => 9,
    }
}

/// Whether an event tells of a success.
pub open spec fn is_success(event: RemoteEvent) -> bool {
    match event {
        RemoteEvent::DirectoryCreated(r) => r is Ok,
        RemoteEvent::MasterSpawned(r) | RemoteEvent::LauncherSpawned(r) => r == Ok::<
            bool,
            crate::io_error::IoError,
        >(true),
        RemoteEvent::MasterWaited(r) | RemoteEvent::Forwarded(r) | RemoteEvent::Connected(r) => r is Ok,
        RemoteEvent::Installed(r) => r is Ok,
        RemoteEvent::HomeQueried(r) => r is Ok,
        RemoteEvent::Greeted { result, .. } => result is Ok,
        _ => false,
    }
}

proof fn lemma_passed(states: Seq<RemoteStart>, events: Seq<RemoteEvent>, k: int, at: int) -> (i: int)
    requires
        is_start_run(states, events),
        0 <= k < states.len(),
        0 <= at < place(states[k].phase) <= 8,
    ensures
        0 <= i < k,
        place(states[i].phase) == at,
        place(states[i + 1].phase) == at + 1,
        is_success(events[i]),
        states[i].destination == states[k].destination,
        at >= 1 ==> states[i].endpoint == states[k].endpoint,
        at >= 5 ==> states[i].remote_home == states[k].remote_home,
    decreases k,
{
    let i = k - 1;
    assert(start_steps(states, events, i));
    if place(states[i].phase) == at {
        i
    } else {
        lemma_passed(states, events, i, at)
    }
}

proof fn lemma_connected(states: Seq<RemoteStart>, events: Seq<RemoteEvent>, k: int) -> (i: int)
    requires
        is_start_run(states, events),
        0 <= k < states.len(),
        states[k].phase is Greet || states[k].phase is Delay,
    ensures
        0 <= i < k,
        states[i].phase is Connect,
        events[i] is Connected,
        is_success(events[i]),
        states[i].endpoint == states[k].endpoint,
        forall|j: int| i < j <= k ==> states[j].phase is Greet || states[j].phase is Delay,
    decreases k,
{
    let i = k - 1;
    assert(start_steps(states, events, i));
    if states[i].phase is Connect {
        i
    } else {
        lemma_connected(states, events, i)
    }
}

/// Whether these steps made the server reachable: the launcher runs the server in `directory`, the
/// master forwards `socket` to the server's socket in that directory, and then `socket` is connected
/// to. Each of these succeeded.
pub open spec fn made_reachable(
    actions: Seq<RemoteAction>,
    events: Seq<RemoteEvent>,
    launch: int,
    forward: int,
    connect: int,
    directory: Seq<char>,
    above: Seq<char>,
    socket: Seq<char>,
) -> bool {
    &&& 0 <= launch < forward < connect < events.len()
    &&& actions[launch] is SpawnLauncher
    &&& ssh_words(actions[launch]).last() == "sh -c "@ + quoted(REMOTE_LAUNCH_SCRIPT@) + " -- "@ + quoted(
        directory,
    ) + " "@ + quoted(above) + " "@ + quoted(PACKAGE_VERSION@)
    &&& actions[forward] is Forward
    &&& has_option(ssh_words(actions[forward]), "-O"@, "forward"@)
    &&& has_option(
        ssh_words(actions[forward]),
        "-L"@,
        socket + seq![':'] + directory + "/server.sock"@,
    )
    &&& actions[connect] matches RemoteAction::Connect { socket_path } && socket_path@ == socket
    &&& is_success(events[launch]) && is_success(events[forward]) && is_success(events[connect])
}

proof fn lemma_socket_of(directory: Seq<char>)
    requires
        directory.len() > 0,
        directory.last() != '/',
    ensures
        joined(directory, "server.sock"@) == directory + "/server.sock"@,
{
    reveal_strlit("server.sock");
    reveal_strlit("/server.sock");
    assert("/server.sock"@ =~= seq!['/'] + "server.sock"@);
    law_joining_puts_one_slash_between(directory, "server.sock"@);
    assert(directory + seq!['/'] + "server.sock"@ =~= directory + "/server.sock"@);
}

/// A start that has become ready made the server reachable first: it asked for the launcher, then for
/// a forwarding, never for its end, from the socket that it connected to later to the socket below the
/// very directory that the launcher was given, which stands in `run` below the home directory of the
/// other machine and bears the session's name.
pub proof fn law_ready_servers_are_reachable(
    states: Seq<RemoteStart>,
    events: Seq<RemoteEvent>,
    actions: Seq<RemoteAction>,
)
    requires
        is_start_run(states, events),
        were_asked(states, actions),
        states.last().phase is Ready,
        states.last().endpoint matches Some(endpoint) ==> endpoint.spec_path().len() > 0
            && endpoint.spec_path().last() != '/',
        states.last().remote_home matches Some(home) ==> home@.len() > 0 && home@.last() != '/',
    ensures
        ({
            let home = states.last().remote_home->Some_0@;
            let endpoint = states.last().endpoint->Some_0;
            let above = home + "/.file-peeker/run"@;
            let directory = above + seq!['/'] + endpoint.spec_id();
            exists|launch: int, forward: int, connect: int| #[trigger]
                made_reachable(
                    actions,
                    events,
                    launch,
                    forward,
                    connect,
                    directory,
                    above,
                    endpoint.spec_path() + "/server.sock"@,
                )
        }),
{
    let s = states.last();
    assert(s.wf());
    let (launch, forward, connect) = lemma_steps_to_ready(states, events);
    let endpoint = s.endpoint->Some_0;
    let home = s.remote_home->Some_0@;
    let above = home + "/.file-peeker/run"@;
    let directory = above + seq!['/'] + endpoint.spec_id();
    let socket = endpoint.spec_path() + "/server.sock"@;
    assert(states[launch].asks(actions[launch]));
    assert(states[forward].asks(actions[forward]));
    assert(states[connect].asks(actions[connect]));
    assert(states[launch].wf());
    assert(states[forward].wf());
    lemma_launch_words(states[launch], actions[launch]);
    lemma_forward_words(states[forward], actions[forward]);
    lemma_socket_of(endpoint.spec_path());
    assert(made_reachable(actions, events, launch, forward, connect, directory, above, socket));
}

/// The steps that a start has taken when it is ready, with the files and the home directory that it
/// had then.
proof fn lemma_steps_to_ready(states: Seq<RemoteStart>, events: Seq<RemoteEvent>) -> (r: (int, int, int))
    requires
        is_start_run(states, events),
        states.last().phase is Ready,
    ensures
        0 <= r.0 < r.1 < r.2 < events.len(),
        states[r.0].phase is SpawnLauncher,
        states[r.1].phase is Forward,
        states[r.2].phase is Connect,
        is_success(events[r.0]) && is_success(events[r.1]) && is_success(events[r.2]),
        states[r.0].endpoint == states.last().endpoint,
        states[r.0].remote_home == states.last().remote_home,
        states[r.1].endpoint == states.last().endpoint,
        states[r.1].remote_home == states.last().remote_home,
        states[r.2].endpoint == states.last().endpoint,
{
    let n = states.len() - 1;
    let greet = lemma_passed(states, events, n, 7);
    assert(start_steps(states, events, greet));
    assert(states[greet].phase is Greet);
    let connect = lemma_connected(states, events, greet);
    let forward = lemma_passed(states, events, connect, 6);
    let launch = lemma_passed(states, events, forward, 5);
    lemma_stable(states, events, connect, n);
    lemma_stable(states, events, forward, n);
    lemma_stable(states, events, launch, n);
    (launch, forward, connect)
}

/// What the launcher is told.
proof fn lemma_launch_words(s: RemoteStart, action: RemoteAction)
    requires
        s.wf(),
        s.phase is SpawnLauncher,
        s.asks(action),
        s.remote_home->Some_0@.len() > 0,
        s.remote_home->Some_0@.last() != '/',
    ensures
        action is SpawnLauncher,
        ({
            let above = s.remote_home->Some_0@ + "/.file-peeker/run"@;
            let directory = above + seq!['/'] + s.endpoint->Some_0.spec_id();
            ssh_words(action).last() == "sh -c "@ + quoted(REMOTE_LAUNCH_SCRIPT@) + " -- "@ + quoted(
                directory,
            ) + " "@ + quoted(above) + " "@ + quoted(PACKAGE_VERSION@)
        }),
{
    let above = s.remote_home->Some_0@ + "/.file-peeker/run"@;
    let directory = above + seq!['/'] + s.endpoint->Some_0.spec_id();
    lemma_remote_directory(s.remote_home->Some_0@, s.endpoint->Some_0.spec_id());
    assert(ssh_words(action).last() =~= "sh -c "@ + quoted(REMOTE_LAUNCH_SCRIPT@) + " -- "@ + quoted(
        directory,
    ) + " "@ + quoted(above) + " "@ + quoted(PACKAGE_VERSION@));
}

/// What the master is told to forward.
proof fn lemma_forward_words(s: RemoteStart, action: RemoteAction)
    requires
        s.wf(),
        s.phase is Forward,
        s.asks(action),
        s.remote_home->Some_0@.len() > 0,
        s.remote_home->Some_0@.last() != '/',
        s.endpoint->Some_0.spec_path().len() > 0,
        s.endpoint->Some_0.spec_path().last() != '/',
    ensures
        action is Forward,
        has_option(ssh_words(action), "-O"@, "forward"@),
        ({
            let above = s.remote_home->Some_0@ + "/.file-peeker/run"@;
            let directory = above + seq!['/'] + s.endpoint->Some_0.spec_id();
            let socket = s.endpoint->Some_0.spec_path() + "/server.sock"@;
            has_option(
                ssh_words(action),
                "-L"@,
                socket + seq![':'] + directory + "/server.sock"@,
            )
        }),
{
    let endpoint = s.endpoint->Some_0;
    let id = endpoint.spec_id();
    let above = s.remote_home->Some_0@ + "/.file-peeker/run"@;
    let directory = above + seq!['/'] + id;
    let socket = endpoint.spec_path() + "/server.sock"@;
    lemma_remote_directory(s.remote_home->Some_0@, id);
    assert(id.contains(id.last()));
    assert(directory.last() == id.last());
    lemma_socket_of(endpoint.spec_path());
    lemma_socket_of(directory);
    reveal_strlit(":");
    assert(":"@ =~= seq![':']);
    let remote = directory + "/server.sock"@;
    assert(socket + ":"@ + remote =~= socket + seq![':'] + directory + "/server.sock"@);
    assert(s.spec_forward() == socket + ":"@ + remote);
    let words = ssh_words(action);
    assert(words[2] == "-O"@ && words[3] == "forward"@);
    assert(words[8] == "-L"@ && words[9] == s.spec_forward());
}

/// Once the launcher is to be started, the session's files and the home directory stay the same.
proof fn lemma_stable(states: Seq<RemoteStart>, events: Seq<RemoteEvent>, i: int, k: int)
    requires
        is_start_run(states, events),
        0 <= i <= k < states.len(),
        place(states[i].phase) >= 5,
        place(states[k].phase) <= 8,
    ensures
        states[i].endpoint == states[k].endpoint,
        states[i].remote_home == states[k].remote_home,
        states[i].destination == states[k].destination,
    decreases k,
{
    if i < k {
        assert(start_steps(states, events, k - 1));
        lemma_late(states, events, i, k - 1);
        lemma_stable(states, events, i, k - 1);
    }
}

proof fn lemma_late(states: Seq<RemoteStart>, events: Seq<RemoteEvent>, i: int, k: int)
    requires
        is_start_run(states, events),
        0 <= i <= k < states.len(),
        place(states[i].phase) >= 5,
    ensures
        place(states[k].phase) >= 5,
    decreases k,
{
    if i < k {
        assert(start_steps(states, events, k - 1));
        lemma_late(states, events, i, k - 1);
    }
}

/// Where a session's files stand on the other machine.
proof fn lemma_remote_directory(home: Seq<char>, id: Seq<char>)
    requires
        home.len() > 0,
        home.last() != '/',
        is_plain_name(id),
    ensures
        remote_directory_of(home, id) == home + "/.file-peeker/run"@ + seq!['/'] + id,
        parent_path(remote_directory_of(home, id)) == Some(home + "/.file-peeker/run"@),
{
    reveal_strlit(".file-peeker");
    reveal_strlit("run");
    reveal_strlit("/.file-peeker/run");
    law_joining_puts_one_slash_between(home, ".file-peeker"@);
    let root = home + seq!['/'] + ".file-peeker"@;
    assert(root.last() == 'r');
    law_joining_puts_one_slash_between(root, "run"@);
    let run = root + seq!['/'] + "run"@;
    assert(run.last() == 'n');
    assert("/.file-peeker/run"@ =~= seq!['/'] + ".file-peeker"@ + seq!['/'] + "run"@);
    assert(run =~= home + "/.file-peeker/run"@);
    assert(id.contains(id[0]));
    law_joining_puts_one_slash_between(run, id);
    law_names_follow_the_last_slash(run, id);
}

/// No command of a start tells the master to end a forwarding. What the master is told is to check
/// itself, then to forward, and to leave only where the start has failed.
pub proof fn law_starts_cancel_nothing(s: RemoteStart, action: RemoteAction)
    requires
        s.wf(),
        s.asks(action),
    ensures
        ({
            let words = ssh_words(action);
            &&& !has_option(words, "-O"@, "cancel"@) || words.last() == "cancel"@
            &&& s.phase is WaitForMaster ==> has_option(words, "-O"@, "check"@)
            &&& s.phase is Forward ==> has_option(words, "-O"@, "forward"@)
            &&& s.phase is StopBoth ==> has_option(words, "-O"@, "exit"@)
        }),
{
    let words = ssh_words(action);
    reveal_strlit("cancel");
    reveal_strlit("check");
    reveal_strlit("forward");
    reveal_strlit("exit");
    reveal_strlit("-O");
    assert("cancel"@.len() == 6 && "check"@.len() == 5 && "forward"@.len() == 7 && "exit"@.len() == 4);
    if s.phase is WaitForMaster || s.phase is Forward || s.phase is StopBoth {
        assert(words[2] == "-O"@);
    }
    if has_option(words, "-O"@, "cancel"@) {
        let i = choose|i: int|
            0 <= i < words.len() - 1 && #[trigger] words[i] == "-O"@ && words[i + 1] == "cancel"@;
        if i + 1 < words.len() - 1 {
            lemma_words_differ(s, action, i + 1);
        }
    }
}

/// The words of a command that could end a forwarding stand nowhere but at its end.
proof fn lemma_words_differ(s: RemoteStart, action: RemoteAction, i: int)
    requires
        s.wf(),
        s.asks(action),
        0 < i < ssh_words(action).len() - 1,
        ssh_words(action)[i - 1] == "-O"@,
    ensures
        ssh_words(action)[i] != "cancel"@,
{
    reveal_strlit("cancel");
    reveal_strlit("check");
    reveal_strlit("forward");
    reveal_strlit("exit");
    reveal_strlit("-O");
    reveal_strlit("-o");
    reveal_strlit("-S");
    reveal_strlit("-M");
    reveal_strlit("-N");
    reveal_strlit("-T");
    reveal_strlit("-L");
    reveal_strlit("ControlPersist=no");
    reveal_strlit("ControlMaster=no");
    reveal_strlit("BatchMode=yes");
    reveal_strlit("ExitOnForwardFailure=yes");
    reveal_strlit("StreamLocalBindUnlink=yes");
    reveal_strlit("cm.sock");
    let control = s.spec_control_socket();
    law_joining_puts_one_slash_between(s.endpoint->Some_0.spec_path(), "cm.sock"@);
    assert(control.len() >= 7);
    assert("-O"@.len() == 2 && "-O"@[1] == 'O' && "-O"@[0] == '-');
    assert("-o"@[1] == 'o' && "-S"@[1] == 'S' && "-M"@[1] == 'M' && "-N"@[1] == 'N' && "-T"@[1] == 'T'
        && "-L"@[1] == 'L');
    assert("cancel"@.len() == 6 && "check"@.len() == 5 && "forward"@.len() == 7 && "exit"@.len() == 4);
    assert("ControlPersist=no"@.len() > 2 && "ControlMaster=no"@.len() > 2 && "BatchMode=yes"@.len() > 2
        && "ExitOnForwardFailure=yes"@.len() > 2 && "StreamLocalBindUnlink=yes"@.len() > 2);
    assert(s.destination@[0] != '-');
}

/// Everything that a start runs goes to the one destination and through the one master: the master is
/// started with a socket of its own, and every later command names that socket and the destination.
pub proof fn law_commands_share_the_master(s: RemoteStart, action: RemoteAction)
    requires
        s.wf(),
        s.asks(action),
        s.endpoint matches Some(endpoint) ==> endpoint.spec_path().len() > 0
            && endpoint.spec_path().last() != '/',
    ensures
        ({
            let words = ssh_words(action);
            let control = s.endpoint->Some_0.spec_path() + "/cm.sock"@;
            &&& s.phase is SpawnMaster || s.phase is WaitForMaster || s.phase is QueryHome
                || s.phase is SpawnLauncher || s.phase is Forward || s.phase is StopBoth ==> {
                &&& has_option(words, "-S"@, control)
                &&& words.contains(s.destination@)
            }
            &&& s.phase is SpawnMaster ==> words[0] == "-M"@ && words.last() == s.destination@
            &&& s.phase is WaitForMaster || s.phase is Forward || s.phase is StopBoth ==> words.last()
                == s.destination@
            &&& s.phase is QueryHome || s.phase is SpawnLauncher ==> words[words.len() - 2]
                == s.destination@ && has_option(words, "-o"@, "BatchMode=yes"@)
            &&& s.phase is QueryHome ==> words.last() == "printf '%s\\n' \"$HOME\""@
            &&& action matches RemoteAction::WaitForMaster { control_socket, .. } ==> control_socket@
                == control
            &&& action matches RemoteAction::Install { policy, ssh_arguments, .. } ==> {
                &&& policy is ReuseExisting
                &&& has_option(texts(ssh_arguments@), "-S"@, control)
                &&& has_option(texts(ssh_arguments@), "-o"@, "BatchMode=yes"@)
            }
        }),
{
    let words = ssh_words(action);
    if let Some(endpoint) = s.endpoint {
        reveal_strlit("cm.sock");
        reveal_strlit("/cm.sock");
        assert("/cm.sock"@ =~= seq!['/'] + "cm.sock"@);
        law_joining_puts_one_slash_between(endpoint.spec_path(), "cm.sock"@);
        assert(endpoint.spec_path() + seq!['/'] + "cm.sock"@ =~= endpoint.spec_path() + "/cm.sock"@);
    }
    match action {
        RemoteAction::SpawnMaster { .. } => {
            assert(words[1] == "-S"@);
            assert(words[7] == s.destination@);
        },
        RemoteAction::WaitForMaster { .. } | RemoteAction::StopBoth { .. } => {
            assert(words[0] == "-S"@);
            assert(words[4] == s.destination@);
        },
        RemoteAction::Forward { .. } => {
            assert(words[0] == "-S"@);
            assert(words[10] == s.destination@);
        },
        RemoteAction::QueryHome { .. } => {
            assert(words[0] == "-S"@);
            assert(words[4] == "-o"@);
            assert(words[6] == s.destination@);
        },
        RemoteAction::SpawnLauncher { .. } => {
            assert(words[0] == "-S"@);
            assert(words[4] == "-o"@);
            assert(words[7] == s.destination@);
        },
        RemoteAction::Install { ssh_arguments, .. } => {
            let more = texts(ssh_arguments@);
            assert(more[0] == "-S"@);
            assert(more[4] == "-o"@);
        },
        _ => {},
    }
}

/// A start goes on as long as its steps succeed and its sockets can be used: no success fails it, and
/// each takes it to the next step. A server that hangs up on the greeting before the time is up is
/// connected to again.
pub proof fn law_starts_go_on(before: RemoteStart, event: RemoteEvent, after: RemoteStart)
    requires
        before.next(event, after),
    ensures
        before.phase is SpawnMaster ==> (event matches RemoteEvent::MasterSpawned(Ok(true))
            ==> after.phase is WaitForMaster),
        before.phase is WaitForMaster && event == RemoteEvent::MasterWaited(Ok(()))
            ==> after.phase is Install,
        before.phase is Install && event == RemoteEvent::Installed(Ok(())) ==> after.phase is QueryHome,
        before.phase is SpawnLauncher ==> (event matches RemoteEvent::LauncherSpawned(Ok(true))
            ==> after.phase is Forward),
        before.phase is Forward && event == RemoteEvent::Forwarded(Ok(())) ==> after.phase is Connect,
        before.phase is Connect && event == RemoteEvent::Connected(Ok(())) ==> after.phase is Greet,
        before.phase is Greet ==> (event matches RemoteEvent::Greeted { result: Ok(_), .. }
            ==> after.phase is Ready),
        before.phase is Greet ==> (event matches RemoteEvent::Greeted {
            result: Err(FilePeekerError::ConnectionClosed { .. }),
            deadline_passed: false,
        } ==> after.phase is Delay),
        before.phase is Delay && event is Waited ==> after.phase is Connect,
        before.phase is CreateDirectory ==> (event matches RemoteEvent::DirectoryCreated(Ok(endpoint))
            ==> after.endpoint == Some(endpoint)),
        before.phase is QueryHome ==> (event matches RemoteEvent::HomeQueried(Ok(home))
            ==> after.remote_home == Some(home)),
        after.destination == before.destination,
{
}

/// What a running session goes through when each of its steps is done in time, by what ended it: what
/// has not ended by itself is closed and awaited in order, the forwarding is cancelled, and the master
/// leaves last.
pub proof fn law_sessions_are_taken_down_in_order(trigger: Trigger)
    ensures
        ({
            let done = SuperviseEvent::Done;
            let first = supervise_next(SupervisePhase::Watching, SuperviseEvent::Triggered(trigger));
            &&& trigger is ControlClosed <==> first == SupervisePhase::CloseInput(trigger)
            &&& !(trigger is ControlClosed) <==> first == SupervisePhase::CloseControl(trigger)
            &&& supervise_next(SupervisePhase::CloseControl(trigger), done) == (
            if trigger is LauncherExited {
                SupervisePhase::CancelForward
            } else {
                SupervisePhase::CloseInput(trigger)
            })
            &&& supervise_next(SupervisePhase::CloseInput(trigger), done) == (
            if trigger is MasterExited {
                SupervisePhase::KillLauncher
            } else {
                SupervisePhase::AwaitLauncher
            })
            &&& supervise_next(SupervisePhase::AwaitLauncher, done) is CancelForward
            &&& supervise_next(SupervisePhase::AwaitLauncher, SuperviseEvent::TimedOut) is KillLauncher
            &&& supervise_next(SupervisePhase::KillLauncher, done) is CancelForward
            &&& supervise_next(SupervisePhase::CancelForward, done) is RequestExit
            &&& supervise_next(SupervisePhase::RequestExit, done) is AwaitMaster
            &&& supervise_next(SupervisePhase::AwaitMaster, done) is CollectOutput
            &&& supervise_next(SupervisePhase::AwaitMaster, SuperviseEvent::TimedOut) is KillMaster
            &&& supervise_next(SupervisePhase::KillMaster, done) is CollectOutput
            &&& supervise_next(SupervisePhase::CollectOutput, done) is Closed
        }),
{
}

/// The files of a session stand below the home directory, each where its name says.
pub proof fn law_session_files_bear_the_session_name(
    directory: SessionDirectory,
    home: Seq<char>,
    id: Seq<char>,
)
    requires
        directory.belongs(home, id),
        home.len() > 0,
        home.last() != '/',
        is_plain_name(id),
    ensures
        directory.spec_path() == home + "/.file-peeker/run"@ + seq!['/'] + id,
        directory.spec_log_path() == home + "/.file-peeker/logs"@ + seq!['/'] + id + ".log"@,
{
    lemma_remote_directory(home, id);
    reveal_strlit(".file-peeker");
    reveal_strlit("logs");
    reveal_strlit("/.file-peeker/logs");
    law_joining_puts_one_slash_between(home, ".file-peeker"@);
    let root = home + seq!['/'] + ".file-peeker"@;
    assert(root.last() == 'r');
    law_joining_puts_one_slash_between(root, "logs"@);
    let logs = root + seq!['/'] + "logs"@;
    assert(logs.last() == 's');
    assert("/.file-peeker/logs"@ =~= seq!['/'] + ".file-peeker"@ + seq!['/'] + "logs"@);
    assert(logs =~= home + "/.file-peeker/logs"@);
    assert(id.contains(id[0]));
    assert((id + ".log"@)[0] == id[0]);
    law_joining_puts_one_slash_between(logs, id + ".log"@);
    assert(logs + seq!['/'] + (id + ".log"@) =~= home + "/.file-peeker/logs"@ + seq!['/'] + id
        + ".log"@);
}

/// A start goes on with sockets that can be used, on this machine and on the other: where their paths
/// have at most a hundred bytes and no colon. With any other it fails.
pub proof fn law_usable_sockets_let_starts_go_on(
    before: RemoteStart,
    event: RemoteEvent,
    after: RemoteStart,
)
    requires
        before.next(event, after),
    ensures
        before.phase is CreateDirectory ==> (event matches RemoteEvent::DirectoryCreated(Ok(endpoint))
            ==> {
            let server = joined(endpoint.spec_path(), "server.sock"@);
            let master = joined(endpoint.spec_path(), "cm.sock"@);
            if encode_utf8(server).len() <= 100 && !server.contains(':') && encode_utf8(master).len()
                <= 100 && !master.contains(':') {
                after.phase is SpawnMaster
            } else {
                after.phase is Failed
            }
        }),
        before.phase is QueryHome ==> (event matches RemoteEvent::HomeQueried(Ok(home)) ==> {
            let server = joined(after.spec_remote_directory(), "server.sock"@);
            if encode_utf8(server).len() <= 100 && !server.contains(':') {
                after.phase is SpawnLauncher
            } else {
                after.phase is Failed
            }
        }),
{
}

/// A step of a start that fails keeps the failure. Before the master runs it fails the start; then it
/// stops the master, and once the launcher runs it stops both.
pub proof fn law_failed_starts_stop_what_runs(
    before: RemoteStart,
    event: RemoteEvent,
    after: RemoteStart,
)
    requires
        before.next(event, after),
    ensures
        before.phase is CreateDirectory ==> (event matches RemoteEvent::DirectoryCreated(Err(e)) ==> (
        after.phase matches RemotePhase::Failed(kept) && kept@ == e@)),
        before.phase is SpawnMaster ==> (event matches RemoteEvent::MasterSpawned(Err(e)) ==> (
        after.phase matches RemotePhase::Failed(kept) && kept@.class == ErrorClass::ServerStart
            && ends_in(kept@.message, e.message@))),
        before.phase is SpawnMaster ==> (event matches RemoteEvent::MasterSpawned(Ok(false))
            ==> after.phase is Failed),
        before.phase is WaitForMaster ==> (event matches RemoteEvent::MasterWaited(Err(e)) ==> (
        after.phase matches RemotePhase::StopMaster(kept) && kept@ == e@)),
        before.phase is Install ==> (event matches RemoteEvent::Installed(Err(words)) ==> (
        after.phase matches RemotePhase::StopMaster(kept) && kept@.class == ErrorClass::ServerStart
            && kept@.message == words@)),
        before.phase is QueryHome ==> (event matches RemoteEvent::HomeQueried(Err(e)) ==> (
        after.phase matches RemotePhase::StopMaster(kept) && kept@ == e@)),
        before.phase is SpawnLauncher ==> (event matches RemoteEvent::LauncherSpawned(Err(e)) ==> (
        after.phase matches RemotePhase::StopMaster(kept) && kept@.class == ErrorClass::ServerStart
            && ends_in(kept@.message, e.message@))),
        before.phase is SpawnLauncher ==> (event matches RemoteEvent::LauncherSpawned(Ok(false))
            ==> after.phase is Failed),
        before.phase is Forward ==> (event matches RemoteEvent::Forwarded(Err(e)) ==> (
        after.phase matches RemotePhase::StopBoth(kept) && kept@ == e@)),
        before.phase is Connect ==> (event matches RemoteEvent::Connected(Err(e)) ==> (
        after.phase matches RemotePhase::StopBoth(kept) && kept@ == e@)),
        before.phase is Greet ==> (event matches RemoteEvent::Greeted { result: Err(e), deadline_passed }
            ==> (e@.class != ErrorClass::ConnectionClosed || deadline_passed ==> (
        after.phase matches RemotePhase::StopBoth(kept) && kept@ == e@))),
{
    if let RemoteEvent::MasterSpawned(Err(e)) = event {
        lemma_ends_in("cannot launch SSH control master: "@, e.message@);
    }
    if let RemoteEvent::LauncherSpawned(Err(e)) = event {
        lemma_ends_in("cannot launch SSH remote server: "@, e.message@);
    }
}

/// Once what runs was stopped, the failure is reported: it keeps its class and its words, and what the
/// processes printed is added behind them.
pub proof fn law_stopped_starts_report_their_failure(
    before: RemoteStart,
    event: RemoteEvent,
    after: RemoteStart,
)
    requires
        before.next(event, after),
    ensures
        before.phase matches RemotePhase::StopMaster(e) ==> (event is MasterStopped ==> (
        after.phase matches RemotePhase::Failed(told) && told@.class == e@.class && has_prefix(
            told@.message,
            e@.message,
        ))),
        before.phase matches RemotePhase::StopBoth(e) ==> (event is BothStopped ==> (
        after.phase matches RemotePhase::Failed(told) && told@.class == e@.class && has_prefix(
            told@.message,
            e@.message,
        ))),
        before.phase is Failed || before.phase is Ready ==> after.phase == before.phase,
{
    if let (RemotePhase::StopMaster(e), RemoteEvent::MasterStopped { master_stderr }) = (
        before.phase,
        event,
    ) {
        law_errors_are_only_added_to(
            e@,
            "SSH control master"@,
            stderr_view(master_stderr),
            Seq::empty(),
        );
    }
    if let (
        RemotePhase::StopBoth(e),
        RemoteEvent::BothStopped { launcher_stderr, master_stderr },
    ) = (before.phase, event) {
        let first = with_stderr(e@, "SSH remote server"@, stderr_view(launcher_stderr));
        law_errors_are_only_added_to(
            e@,
            "SSH remote server"@,
            stderr_view(launcher_stderr),
            Seq::empty(),
        );
        law_errors_are_only_added_to(
            first,
            "SSH control master"@,
            stderr_view(master_stderr),
            Seq::empty(),
        );
        let told = with_stderr(first, "SSH control master"@, stderr_view(master_stderr));
        assert(told.message.take(e@.message.len() as int) =~= first.message.take(
            e@.message.len() as int,
        )) by {
            assert(told.message.take(first.message.len() as int) == first.message);
            assert forall|i: int| 0 <= i < e@.message.len() implies told.message[i]
                == first.message[i] by {
                assert(told.message.take(first.message.len() as int)[i] == first.message[i]);
            }
        }
    }
}

/// A start changes nothing that it has settled: its destination never, its directory only where that was
/// created, and the home of the other machine only where that was asked for.
pub proof fn law_starts_keep_what_is_settled(before: RemoteStart, event: RemoteEvent, after: RemoteStart)
    requires
        before.next(event, after),
    ensures
        after.destination == before.destination,
        !(before.phase is CreateDirectory) ==> after.endpoint == before.endpoint,
        !(before.phase is QueryHome) ==> after.remote_home == before.remote_home,
{
}

} // verus!
