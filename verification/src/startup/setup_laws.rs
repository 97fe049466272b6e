//! What preparing a session, and what it keeps and logs, come to as a whole.

use vstd::prelude::*;
use vstd::utf8::{decode_utf8, encode_utf8, valid_utf8};

use crate::api::{ErrorClass, ErrorView};
use crate::ids::is_simple_uuid;
use crate::io_error::IoErrorKind;
use crate::startup::child::STDERR_LIMIT;
use crate::startup::diagnostics::{
    event_line, log_block, with_stderr, with_suffix, BoundedOutput, DIAGNOSTIC_LIMIT,
};
use crate::startup::logs::{is_age_order, is_hex, is_log_name, is_old_log, rotate_logs, LogFile};
use crate::startup::owned_directory::{owned_next, OwnedDirectory, OwnedEvent, OwnedPhase};
use crate::startup::runtime::{home_error, socket_path_error, RETAINED_LOGS};
use crate::startup::session_setup::{
    shared_next, SessionSetup, SetupAction, SetupEvent, SetupPhase, SharedDirectory,
};
use crate::startup::ssh::{
    forward_error, home_answer, CommandOutcome, AUTHENTICATION_TIMEOUT_MS, MASTER_CHECK_TIMEOUT_MS,
};
use crate::startup::{
    close, CloseEvent, CloseStep, CLOSE_TIMEOUT_MS, CONNECT_RETRY_DELAY_MS,
    LOCAL_CONNECT_RETRY_DELAY_MS, SHUTDOWN_TIMEOUT_MS, STARTUP_TIMEOUT_MS,
};
use crate::text::{has_prefix, trimmed_end, CharClass};
use crate::text_laws::{ends_in, law_trimming_the_end, lemma_ends_in};
use crate::unix_path::joined;

verus! {

/// A directory that is missing is made and looked at again. One that is a real directory of its
/// owner is given the mode that is asked for, and is then done; without a mode it is done at once.
pub proof fn law_directories_are_made_and_secured(d: OwnedDirectory, event: OwnedEvent, after: OwnedPhase)
    requires
        owned_next(d, event, after),
    ensures
        d.phase is Inspect ==> (event matches OwnedEvent::Inspected(result) ==> match result {
            Err(e) => (after is Create <==> e.kind == IoErrorKind::NotFound) && (after is Create
                || after is Failed),
            Ok(facts) => if facts.is_dir && !facts.is_symlink && facts.owner == d.owner {
                match d.mode {
                    Some(mode) => after == OwnedPhase::Secure(mode),
                    None => after is Done,
                }
            } else {
                after is Failed
            },
        }),
        d.phase is Create ==> (event matches OwnedEvent::Created(result) ==> match result {
            Ok(_) => after is Inspect,
            Err(e) => (after is Inspect <==> e.kind == IoErrorKind::AlreadyExists) && (
            after is Inspect || after is Failed),
        }),
        d.phase is Secure ==> (event matches OwnedEvent::Secured(result) ==> (after is Done
            <==> result is Ok) && (after is Done || after is Failed)),
{
}

/// A directory that cannot be used is told of by its path, and with the words that came.
pub proof fn law_directory_failures_name_the_path(d: OwnedDirectory, event: OwnedEvent, after: OwnedPhase)
    requires
        owned_next(d, event, after),
        after is Failed,
        !(d.phase is Failed),
    ensures
        after->Failed_0@.class == ErrorClass::ServerStart,
        event matches OwnedEvent::Inspected(Err(e)) ==> ends_in(
            after->Failed_0@.message,
            d.path@ + "`: "@ + e.message@,
        ),
        event matches OwnedEvent::Created(Err(e)) ==> ends_in(
            after->Failed_0@.message,
            d.path@ + "`: "@ + e.message@,
        ),
        event matches OwnedEvent::Secured(Err(e)) ==> ends_in(
            after->Failed_0@.message,
            d.path@ + "`: "@ + e.message@,
        ),
{
    let message = after->Failed_0@.message;
    if let OwnedEvent::Inspected(Err(e)) = event {
        let head = "cannot inspect runtime directory `"@;
        lemma_ends_in(head, d.path@ + "`: "@ + e.message@);
        assert(message =~= head + (d.path@ + "`: "@ + e.message@));
    }
    if let OwnedEvent::Created(Err(e)) = event {
        let head = "cannot create runtime directory `"@;
        lemma_ends_in(head, d.path@ + "`: "@ + e.message@);
        assert(message =~= head + (d.path@ + "`: "@ + e.message@));
    }
    if let OwnedEvent::Secured(Err(e)) = event {
        let head = "cannot secure runtime directory `"@;
        lemma_ends_in(head, d.path@ + "`: "@ + e.message@);
        assert(message =~= head + (d.path@ + "`: "@ + e.message@));
    }
}

/// A setup whose steps go well goes on to the next: a home that is a real directory settles the owner
/// of all others, these follow one another, and then come the session's directory, its permissions,
/// its log and the removal of old logs. It is ready where the socket's path is one that can be
/// forwarded; else the session's directory is removed before that is reported.
pub proof fn law_setups_go_on(before: SessionSetup, event: SetupEvent, after: SessionSetup)
    requires
        before.next(event, after),
    ensures
        after.home == before.home,
        after.directory == before.directory,
        before.phase is InspectHome ==> (event matches SetupEvent::HomeInspected(Ok(facts)) ==> if
            facts.is_dir && !facts.is_symlink {
            after.owner == facts.owner && (after.phase matches SetupPhase::Shared(which, d)
                && which is Root && d.phase is Inspect && d.owner == facts.owner)
        } else {
            after.phase is Failed
        }),
        before.phase is CreateSession ==> (event matches SetupEvent::SessionCreated(result) ==> if
            result is Ok {
            after.phase is SecureSession
        } else {
            after.phase is Failed
        }),
        before.phase is SecureSession ==> (event matches SetupEvent::SessionSecured(result) ==> if
            result is Ok {
            after.phase is CreateLog
        } else {
            after.phase is Failed
        }),
        before.phase is CreateLog ==> (event matches SetupEvent::LogCreated(result) ==> if
            result is Ok {
            after.phase is RotateLogs
        } else {
            after.phase is Failed
        }),
        before.phase is RotateLogs && event is LogsRotated ==> {
            let socket = joined(before.directory.spec_path(), "server.sock"@);
            if encode_utf8(socket).len() <= 100 && !socket.contains(':') {
                after.phase is Ready
            } else {
                after.phase is RemoveSession
            }
        },
        event is SessionRemoved ==> (before.phase matches SetupPhase::RemoveSession(e) ==> after.phase
            == SetupPhase::Failed(e)),
{
}

/// The shared directories follow one another as each is done: the root, the one for running sessions
/// and the one for logs, and then the session's own. One that fails fails the setup with its error.
pub proof fn law_shared_directories_follow_one_another(
    before: SessionSetup,
    event: SetupEvent,
    after: SessionSetup,
)
    requires
        before.next(event, after),
        before.phase is Shared,
    ensures
        event matches SetupEvent::Shared(OwnedEvent::Inspected(Ok(facts))) ==> (
        before.phase matches SetupPhase::Shared(which, d) && (d.phase is Inspect && d.mode is None
            ==> if facts.is_dir && !facts.is_symlink && facts.owner == d.owner {
            comes_after(which, after.phase)
        } else {
            after.phase is Failed
        })),
        event matches SetupEvent::Shared(OwnedEvent::Secured(result)) ==> (
        before.phase matches SetupPhase::Shared(which, d) && (d.phase is Secure ==> if result is Ok {
            comes_after(which, after.phase)
        } else {
            after.phase is Failed
        })),
{
    if let (SetupPhase::Shared(which, d), SetupEvent::Shared(step)) = (before.phase, event) {
        let to = choose|to: OwnedPhase| #[trigger]
            owned_next(d, step, to) && shared_next(
                before,
                which,
                to,
                after.phase,
            );
        assert(owned_next(d, step, to));
    }
}

/// Whether `phase` is what comes once the shared directory `which` is done.
pub open spec fn comes_after(which: SharedDirectory, phase: SetupPhase) -> bool {
    match which {
        SharedDirectory::Root => phase matches SetupPhase::Shared(next, d) && next is Run
            && d.phase is Inspect && d.mode == Some(448u32),
        SharedDirectory::Run => phase matches SetupPhase::Shared(next, d) && next is Logs
            && d.phase is Inspect && d.mode == Some(448u32),
        SharedDirectory::Logs => phase is CreateSession,
    }
}

/// What a setup makes is its own: it makes the shared directories and the session's, closes to others
/// what it secures, and the only directory that it removes is the session's.
pub proof fn law_setups_touch_their_own_files(s: SessionSetup, action: SetupAction)
    requires
        s.wf(),
        s.asks(action),
    ensures
        action matches SetupAction::SetMode { path, mode } ==> mode == 448,
        action matches SetupAction::CreateFile { path, mode } ==> mode == 384 && path@
            == s.directory.spec_log_path(),
        action matches SetupAction::RemoveDirectory { path } ==> path@ == s.directory.spec_path(),
        action matches SetupAction::RotateLogs { current } ==> current@
            == s.directory.spec_log_path(),
        s.phase is CreateSession ==> (action matches SetupAction::CreateDirectory { path } && path@
            == s.directory.spec_path()),
        s.phase is SecureSession ==> (action matches SetupAction::SetMode { path, mode } && path@
            == s.directory.spec_path()),
        s.phase is InspectHome ==> (action matches SetupAction::Inspect { path } && path@ == s.home@),
        s.phase matches SetupPhase::Shared(which, d) ==> {
            &&& d.phase is Inspect ==> (action matches SetupAction::Inspect { path } && path@
                == d.path@)
            &&& d.phase is Create ==> (action matches SetupAction::CreateDirectory { path } && path@
                == d.path@)
            &&& d.phase is Secure ==> (action matches SetupAction::SetMode { path, mode } && path@
                == d.path@)
        },
{
}

/// Of a process's output the first part is kept, as much as the limit allows, and whether anything
/// was left out is known.
pub proof fn law_output_is_kept_from_its_start(kept: BoundedOutput, all: Seq<u8>, limit: nat)
    requires
        kept.keeps(all, limit),
    ensures
        kept.bytes@.len() <= limit,
        kept.bytes@.len() <= all.len(),
        kept.bytes@ == all.take(kept.bytes@.len() as int),
        kept.truncated <==> kept.bytes@.len() < all.len(),
        kept.truncated ==> kept.bytes@.len() == limit,
{
    assert(kept.bytes@ =~= all.take(kept.bytes@.len() as int));
}

/// A logged block names its label in a line of its own, holds the whole output and ends its line;
/// output that is empty is not logged.
pub proof fn law_logged_output_is_whole(label: Seq<char>, bytes: Seq<u8>)
    ensures
        bytes.len() == 0 ==> log_block(label, bytes).len() == 0,
        bytes.len() > 0 ==> ({
            let block = log_block(label, bytes);
            let head = encode_utf8("["@ + label + "]\n"@);
            &&& block.len() >= head.len() + bytes.len()
            &&& block.take(head.len() as int) == head
            &&& block.subrange(head.len() as int, (head.len() + bytes.len()) as int) == bytes
            &&& block.last() == 10u8
            &&& block.len() == head.len() + bytes.len() + (if bytes.last() == 10u8 {
                0int
            } else {
                1int
            })
        }),
{
    let block = log_block(label, bytes);
    let head = encode_utf8(event_line(label));
    if bytes.len() > 0 {
        assert(block.take(head.len() as int) =~= head);
        assert(block.subrange(head.len() as int, (head.len() + bytes.len()) as int) =~= bytes);
    }
}

/// What a process printed is added to an error about a server's start or exit, named by its source,
/// and to no other; an error keeps its class and its words.
pub proof fn law_errors_are_only_added_to(
    e: ErrorView,
    source: Seq<char>,
    stderr: Option<Seq<u8>>,
    suffix: Seq<char>,
)
    ensures
        with_suffix(e, suffix).class == e.class,
        e.class == ErrorClass::ServerStart || e.class == ErrorClass::ServerExited ==> with_suffix(
            e,
            suffix,
        ).message == e.message + suffix,
        e.class != ErrorClass::ServerStart && e.class != ErrorClass::ServerExited ==> with_suffix(
            e,
            suffix,
        ) == e,
        with_stderr(e, source, stderr).class == e.class,
        has_prefix(with_stderr(e, source, stderr).message, e.message),
        (stderr matches Some(bytes) ==> bytes.len() == 0) ==> with_stderr(e, source, stderr) == e,
        stderr matches Some(bytes) ==> (bytes.len() > 0 && (e.class == ErrorClass::ServerStart
            || e.class == ErrorClass::ServerExited) ==> has_prefix(
            with_stderr(e, source, stderr).message,
            e.message + "; "@ + source + " stderr: "@,
        )),
{
    let told = with_stderr(e, source, stderr).message;
    assert(told.take(e.message.len() as int) =~= e.message);
    let named = e.message + "; "@ + source + " stderr: "@;
    if told.len() >= named.len() {
        assert(told != e.message ==> told.take(named.len() as int) =~= named);
    }
    if let Some(bytes) = stderr {
        if bytes.len() > 0 && (e.class == ErrorClass::ServerStart || e.class
            == ErrorClass::ServerExited) {
            assert(told.take(named.len() as int) =~= named);
        }
    }
}

/// The log of a session is known by its name, and rotation looks at dated files of such names alone,
/// never at the current log.
pub proof fn law_session_logs_are_recognised(id: Seq<char>, files: Seq<LogFile>, current: Seq<char>, i: int)
    ensures
        is_simple_uuid(id) ==> is_log_name(id + ".log"@),
        is_log_name(current) ==> current.len() == 36 && ends_in(current, ".log"@),
        is_old_log(files, current, i) <==> (0 <= i < files.len() && is_log_name(files[i].name@)
            && files[i].name@ != current && files[i].is_file && files[i].modified is Some),
{
    reveal_strlit(".log");
    if is_simple_uuid(id) {
        let name = id + ".log"@;
        assert forall|i: int| 0 <= i < 32 implies is_hex(#[trigger] name[i]) by {
            assert(name[i] == id[i]);
        }
    }
    if is_log_name(current) {
        assert(current.skip(32) =~= ".log"@);
    }
}

/// The order of age holds each old log once and no other file, and no file in it was changed later
/// than one that follows it.
pub proof fn law_logs_are_ordered_by_age(
    files: Seq<LogFile>,
    current: Seq<char>,
    order: Seq<usize>,
    k: int,
    l: int,
)
    requires
        is_age_order(files, current, order),
        0 <= k < l < order.len(),
    ensures
        order[k] != order[l],
        order[l] < files.len(),
        files[order[k] as int].name@ != current,
        files[order[k] as int].modified->Some_0 <= files[order[l] as int].modified->Some_0,
        forall|i: int|
            0 <= i < files.len() && is_log_name((#[trigger] files[i]).name@) && files[i].name@
                != current && files[i].is_file && files[i].modified is Some ==> order.contains(
                i as usize,
            ),
{
    assert(is_old_log(files, current, order[k] as int));
    assert(is_old_log(files, current, order[l] as int));
    assert forall|i: int|
        0 <= i < files.len() && is_log_name((#[trigger] files[i]).name@) && files[i].name@ != current
            && files[i].is_file && files[i].modified is Some implies order.contains(i as usize) by {
        assert(is_old_log(files, current, i));
    }
}

/// The home directory that the other machine prints, ended by a line feed, is taken as it is; one
/// that does not start at the root or that is more than one line is refused.
pub proof fn law_printed_homes_are_taken(outcome: CommandOutcome, home: Seq<char>)
    requires
        outcome matches CommandOutcome::Finished(output) && output.success && output.stdout@
            == encode_utf8(home + seq!['\n']),
        home.len() > 0 ==> home.last() != '\r' && home.last() != '\n',
    ensures
        home.len() > 0 && home[0] == '/' && !home.contains('\r') && !home.contains('\n')
            ==> home_answer(outcome) == Ok::<Seq<char>, ErrorView>(home),
        home.len() == 0 || home[0] != '/' || home.contains('\r') || home.contains('\n')
            ==> home_answer(outcome) is Err,
{
    let text = home + seq!['\n'];
    vstd::utf8::encode_utf8_valid_utf8(text);
    vstd::utf8::encode_utf8_decode_utf8(text);
    let left = trimmed_end(text, CharClass::LineEnd);
    law_trimming_the_end(text, CharClass::LineEnd);
    if left.len() > home.len() {
        assert(left.last() == text[left.len() - 1]);
    } else if left.len() < home.len() {
        assert(text[home.len() - 1] == home.last());
    }
    assert(left =~= home);
}

/// Without an answer there is no home directory, and the reason is told.
pub proof fn law_missing_homes_are_told_of(outcome: CommandOutcome)
    ensures
        home_answer(outcome) is Ok ==> (outcome matches CommandOutcome::Finished(output)
            && output.success && valid_utf8(output.stdout@) && has_prefix(
            decode_utf8(output.stdout@),
            home_answer(outcome)->Ok_0,
        )),
        home_answer(outcome) is Err ==> home_answer(outcome)->Err_0.class == ErrorClass::ServerStart,
        outcome matches CommandOutcome::Failed(e) ==> home_answer(outcome) is Err && ends_in(
            home_answer(outcome)->Err_0.message,
            e.message@,
        ),
        outcome matches CommandOutcome::Finished(output) ==> (!output.success ==> home_answer(
            outcome,
        ) is Err && ends_in(home_answer(outcome)->Err_0.message, output.status@)),
        outcome is TimedOut ==> home_answer(outcome) is Err,
{
    match outcome {
        CommandOutcome::Failed(e) => {
            lemma_ends_in("cannot query the remote home directory: "@, e.message@);
        },
        CommandOutcome::Finished(output) => {
            lemma_ends_in(
                "cannot query the remote home directory: SSH exited with "@,
                output.status@,
            );
            law_trimming_the_end(decode_utf8(output.stdout@), CharClass::LineEnd);
        },
        CommandOutcome::TimedOut => {},
    }
}

/// A forwarding is requested with success exactly where the command ended with success.
pub proof fn law_forwardings_succeed_with_their_command(operation: Seq<char>, outcome: CommandOutcome)
    ensures
        forward_error(operation, outcome) is None <==> (outcome matches CommandOutcome::Finished(
            output,
        ) && output.success),
        forward_error(operation, outcome) matches Some(e) ==> e.class == ErrorClass::ServerStart,
        outcome is TimedOut ==> ends_in(forward_error(operation, outcome)->Some_0.message, operation),
        outcome matches CommandOutcome::Failed(e) ==> ends_in(
            forward_error(operation, outcome)->Some_0.message,
            operation + ": "@ + e.message@,
        ),
{
    lemma_ends_in("timed out requesting SSH "@, operation);
    if let CommandOutcome::Failed(e) = outcome {
        lemma_ends_in("cannot request SSH "@, operation + ": "@ + e.message@);
        assert("cannot request SSH "@ + operation + ": "@ + e.message@ =~= "cannot request SSH "@ + (
        operation + ": "@ + e.message@));
    }
}

/// A socket can be forwarded exactly where its path has at most a hundred bytes and no colon; a home
/// directory can be used exactly where it is known and starts at the root.
pub proof fn law_usable_paths_are_accepted(path: Seq<char>, home: Option<Seq<char>>)
    ensures
        socket_path_error(path) is None <==> encode_utf8(path).len() <= 100 && !path.contains(':'),
        socket_path_error(path) matches Some(e) ==> e.class == ErrorClass::ServerStart,
        home_error(home) is None <==> (home matches Some(text) && text.len() > 0 && text[0] == '/'),
        home_error(home) matches Some(e) ==> e.class == ErrorClass::ServerStart,
{
}

/// Rotation takes the oldest of the earlier logs, and no more of them than it takes to leave nine beside
/// the current one.
pub proof fn law_rotation_leaves_nine_earlier_logs(
    files: &Vec<LogFile>,
    current: &str,
    removed: Vec<usize>,
)
    requires
        call_ensures(rotate_logs, (files, current), removed),
    ensures
        exists|order: Seq<usize>| #[trigger]
            is_age_order(files@, current@, order) && removed@.len() <= order.len() && removed@
                == order.take(removed@.len() as int) && order.len() - removed@.len() <= 9 && (
            removed@.len() > 0 ==> order.len() - removed@.len() == 9),
{
    let order = choose|order: Seq<usize>| #[trigger]
        is_age_order(files@, current@, order) && removed@ == order.take(
            if order.len() < RETAINED_LOGS {
                0
            } else {
                order.len() - (RETAINED_LOGS - 1)
            },
        );
    assert(is_age_order(files@, current@, order));
}

/// What waits for something else waits longer than that may take: closing longer than a process may
/// take to end, a start longer than the pause between two tries and than one check of the control
/// master, and a person to authenticate longest.
pub proof fn law_waits_fit_into_each_other()
    ensures
        LOCAL_CONNECT_RETRY_DELAY_MS < CONNECT_RETRY_DELAY_MS < MASTER_CHECK_TIMEOUT_MS
            < SHUTDOWN_TIMEOUT_MS < CLOSE_TIMEOUT_MS < STARTUP_TIMEOUT_MS < AUTHENTICATION_TIMEOUT_MS,
        STARTUP_TIMEOUT_MS == 5_000,
        SHUTDOWN_TIMEOUT_MS == 2_000,
        CLOSE_TIMEOUT_MS == 3_000,
        AUTHENTICATION_TIMEOUT_MS == 5 * 60 * 1_000,
        MASTER_CHECK_TIMEOUT_MS == 1_000,
        LOCAL_CONNECT_RETRY_DELAY_MS == 20,
        CONNECT_RETRY_DELAY_MS == 100,
        DIAGNOSTIC_LIMIT == 64 * 1024,
        STDERR_LIMIT == 64 * 1024,
{
}

/// Closing a session ends as soon as the supervision is seen to have ended, asks for the shutdown once
/// before it waits, and fails only where waiting was in vain.
pub proof fn law_closing_asks_before_it_waits(event: CloseEvent, step: CloseStep)
    requires
        call_ensures(close, (event,), step),
    ensures
        step is Closed <==> match event {
            CloseEvent::Looked { closed } => closed,
            CloseEvent::Requested { closed } => closed,
            CloseEvent::Waited { closed } => closed,
        },
        step is RequestShutdown ==> event is Looked,
        step is Wait ==> event is Requested,
        step is Failed ==> event is Waited,
        step matches CloseStep::Failed(e) ==> e@.class == ErrorClass::ConnectionClosed,
{
}

/// The directory that is looked after, its owner and its mode stay what they are.
pub proof fn law_directories_keep_their_plan(d: OwnedDirectory, event: OwnedEvent, after: OwnedDirectory)
    requires
        call_ensures(OwnedDirectory::ensure_owned_directory, (d, event), after),
    ensures
        after.path == d.path,
        after.owner == d.owner,
        after.mode == d.mode,
        d.phase is Done || d.phase is Failed ==> after.phase == d.phase,
{
}

/// The owner of the home directory is the owner of all that a setup makes, from when it is known.
pub proof fn law_setups_keep_their_owner(before: SessionSetup, event: SetupEvent, after: SessionSetup)
    requires
        before.next(event, after),
    ensures
        !(before.phase is InspectHome) ==> after.owner == before.owner,
        before.phase is InspectHome && !(event is HomeInspected) ==> after.phase is InspectHome,
{
}

} // verus!
