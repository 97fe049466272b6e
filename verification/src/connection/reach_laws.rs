//! What installing, launching and reaching a server come to as a whole.

use vstd::prelude::*;
use vstd::utf8::{decode_utf8, valid_utf8};

use crate::cli::install::SOURCE_INSTALL_SCRIPT;
use crate::cli::output_laws::law_source_installers_get_their_program;
use crate::connection::grpc::{
    bearer_text, code_kind, grpc_code_text, health_error, status_failure, stop_error, GrpcCode, GrpcStatus,
    HealthOutcome, StopOutcome,
};
use crate::connection::installer::{
    installer_next, installer_text, InstallerEvent, InstallerPhase, LocalServerConfig,
};
use crate::connection::launch::{ConnectionConfig, Launch, LaunchEvent, LaunchPhase, ServerProcess};
use crate::connection::lines::{
    ensure_command_text, reported, startup_document, startup_error, StartupDocument,
    ENSURE_SERVER_SCRIPT, SERVER_ERROR_PREFIX, SERVER_READY_PREFIX, SERVER_STARTUP_PREFIX,
};
use crate::connection::control::ControlRequest;
use crate::connection::socks5::Socks5;
use crate::io_error::{IoError, IoErrorKind, IoErrorView};
use crate::server::{LocalServer, RemoteServerStartup};
use crate::shell::{law_quoting_is_read_back, quoted, shell_reads, QuoteState};
use crate::startup::PACKAGE_VERSION;
use crate::text::{decimal_text, has_prefix, texts, trimmed_end, CharClass};
use crate::text_laws::{ends_in, law_trimming_the_end, lemma_ends_in};

verus! {

/// Whether `text` can be followed by the end of its line and still be told from it.
pub open spec fn ends_visibly(text: Seq<char>) -> bool {
    text.len() > 0 ==> text.last() != '\r' && text.last() != '\n'
}

/// Whether `end` ends a line: a line feed, with a carriage return before it or without.
pub open spec fn is_line_end(end: Seq<char>) -> bool {
    end == seq!['\n'] || end == seq!['\r', '\n']
}

/// What a line says is what stands before its end.
proof fn lemma_line_text(text: Seq<char>, end: Seq<char>)
    requires
        ends_visibly(text),
        is_line_end(end),
    ensures
        trimmed_end(text + end, CharClass::LineEnd) == text,
{
    let line = text + end;
    let left = trimmed_end(line, CharClass::LineEnd);
    law_trimming_the_end(line, CharClass::LineEnd);
    if left.len() > text.len() {
        assert(left.last() == line[left.len() - 1]);
        assert(line[left.len() - 1] == end[left.len() - 1 - text.len()]);
    } else if left.len() < text.len() {
        assert(line[text.len() - 1] == text.last());
    }
    assert(left =~= text);
}

/// A report is read back: a line that holds a prefix and a text reports the text under the prefix,
/// and a line that starts otherwise reports nothing under it.
pub proof fn law_reports_are_read_back(prefix: Seq<char>, text: Seq<char>, end: Seq<char>)
    requires
        prefix.len() > 0,
        ends_visibly(prefix),
        ends_visibly(text),
        is_line_end(end),
    ensures
        reported(prefix + text + end, prefix) == Some(text),
        !has_prefix(text, prefix) ==> reported(text + end, prefix) is None,
{
    let whole = prefix + text;
    if text.len() > 0 {
        assert(whole.last() == text.last());
    } else {
        assert(whole =~= prefix);
    }
    lemma_line_text(whole, end);
    assert(whole.take(prefix.len() as int) =~= prefix);
    assert(whole.skip(prefix.len() as int) =~= text);
    lemma_line_text(text, end);
}

/// The prefixes that reports are told apart by.
proof fn lemma_prefixes()
    ensures
        SERVER_READY_PREFIX@ == "FILE_PEEKER_SERVER_READY="@,
        SERVER_ERROR_PREFIX@ == "FILE_PEEKER_SERVER_ERROR="@,
        SERVER_STARTUP_PREFIX@ == "FILE_PEEKER_SERVER_STARTUP="@,
        "FILE_PEEKER_SERVER_READY="@.len() == 25,
        "FILE_PEEKER_SERVER_ERROR="@.len() == 25,
        "FILE_PEEKER_SERVER_STARTUP="@.len() == 27,
        "FILE_PEEKER_SERVER_READY="@[19] == 'R',
        "FILE_PEEKER_SERVER_ERROR="@[19] == 'E',
        ends_visibly("FILE_PEEKER_SERVER_READY="@),
        ends_visibly("FILE_PEEKER_SERVER_ERROR="@),
        ends_visibly("FILE_PEEKER_SERVER_STARTUP="@),
{
    reveal_strlit("FILE_PEEKER_SERVER_READY=");
    reveal_strlit("FILE_PEEKER_SERVER_ERROR=");
    reveal_strlit("FILE_PEEKER_SERVER_STARTUP=");
}

/// The first startup report is found, and its document is what stands behind the prefix; where a
/// line is cut off before one is, there is none.
pub proof fn law_startup_documents_are_found(json: Seq<char>, end: Seq<char>, rest: Seq<Seq<char>>)
    requires
        ends_visibly(json),
        is_line_end(end),
    ensures
        startup_document(seq!["FILE_PEEKER_SERVER_STARTUP="@ + json + end] + rest) == Some(
            Ok::<Seq<char>, IoErrorView>(json),
        ),
        startup_document(seq!["FILE_PEEKER_SERVER_STARTUP="@ + json] + rest) matches Some(Err(e))
            && e.kind == IoErrorKind::UnexpectedEof,
{
    lemma_prefixes();
    let prefix = "FILE_PEEKER_SERVER_STARTUP="@;
    let line = prefix + json + end;
    law_reports_are_read_back(prefix, json, end);
    assert((seq![line] + rest)[0] == line);
    assert(line.last() == '\n');
    let cut = prefix + json;
    assert((seq![cut] + rest)[0] == cut);
    if json.len() > 0 {
        assert(cut.last() == json.last());
    } else {
        assert(cut =~= prefix);
    }
}

/// A startup document is accepted exactly where it could be decoded and its token is not empty.
pub proof fn law_startup_needs_a_token(document: Result<StartupDocument, String>)
    ensures
        startup_error(document) is None <==> (document matches Ok(d) && d.token@.len() > 0),
        startup_error(document) matches Some(e) ==> e.kind == IoErrorKind::InvalidData,
        document matches Err(words) ==> ends_in(startup_error(document)->Some_0.message, words@),
{
    if let Err(words) = document {
        lemma_ends_in("server reported invalid startup JSON: "@, words@);
    }
}

/// The program that installs a server is handed over whole and told the version and whether to
/// install in any case.
pub proof fn law_installers_get_their_program(force_install: bool)
    ensures
        has_prefix(
            ensure_command_text(force_install),
            if force_install {
                "sh -s -- '0.1.0' 'true' "@
            } else {
                "sh -s -- '0.1.0' 'false' "@
            },
        ),
        ends_in(
            ensure_command_text(force_install),
            "<<'FILE_PEEKER_ENSURE_SERVER_SCRIPT'\n"@ + ENSURE_SERVER_SCRIPT@
                + "FILE_PEEKER_ENSURE_SERVER_SCRIPT\n"@,
        ),
{
    reveal_strlit("sh -s -- '0.1.0' 'true' ");
    reveal_strlit("sh -s -- '0.1.0' 'false' ");
    reveal_strlit("<<'FILE_PEEKER_ENSURE_SERVER_SCRIPT'\n");
    reveal_strlit("FILE_PEEKER_ENSURE_SERVER_SCRIPT\n");
    reveal_strlit("FILE_PEEKER_ENSURE_SERVER_SCRIPT");
    reveal_strlit("sh -s -- '");
    reveal_strlit("' '");
    reveal_strlit("true");
    reveal_strlit("false");
    reveal_strlit("' <<'");
    reveal_strlit("'\n");
    reveal_strlit("\n");
    reveal_strlit("0.1.0");
    assert(PACKAGE_VERSION@ == "0.1.0"@);
    let text = ensure_command_text(force_install);
    let tail = "<<'FILE_PEEKER_ENSURE_SERVER_SCRIPT'\n"@ + ENSURE_SERVER_SCRIPT@
        + "FILE_PEEKER_ENSURE_SERVER_SCRIPT\n"@;
    let head = if force_install {
        "sh -s -- '0.1.0' 'true' "@
    } else {
        "sh -s -- '0.1.0' 'false' "@
    };
    assert(text =~= head + tail);
    lemma_ends_in(head, tail);
    assert(text.take(head.len() as int) =~= head);
}

/// Whether an installation goes through `phases`, from one to the next by each of `events`.
pub open spec fn installation_goes(phases: Seq<InstallerPhase>, events: Seq<InstallerEvent>) -> bool {
    &&& phases.len() == events.len() + 1
    &&& forall|k: int|
        0 <= k < events.len() ==> installer_next(phases[k], #[trigger] events[k], phases[k + 1])
}

/// The shell is sent the very command that it was started for. The executable that it reports is
/// handed out once it has ended well, and a shell that ends badly after that fails the
/// installation.
pub proof fn law_reported_executables_are_handed_out(
    phases: Seq<InstallerPhase>,
    events: Seq<InstallerEvent>,
    command: String,
    line: String,
    executable: Seq<char>,
    end: Seq<char>,
)
    requires
        installation_goes(phases, events),
        phases[0] == InstallerPhase::Spawn(command),
        events.len() == 4,
        events[0] matches InstallerEvent::Spawned(Ok(pipes)) && pipes.stdin && pipes.stdout,
        events[1] matches InstallerEvent::Sent(Ok(_)),
        events[2] == InstallerEvent::Line(Ok(line)),
        events[3] matches InstallerEvent::Exited(Ok(_)),
        line@ == "FILE_PEEKER_SERVER_READY="@ + executable + end,
        ends_visibly(executable),
        is_line_end(end),
    ensures
        phases[1] == InstallerPhase::Send(command),
        events[3] matches InstallerEvent::Exited(Ok((success, status))) && if success {
            phases[4] matches InstallerPhase::Done(found) && found@ == executable
        } else {
            phases[4] matches InstallerPhase::Failed(e) && ends_in(e.message@, status@)
        },
{
    lemma_prefixes();
    assert(installer_next(phases[0], events[0], phases[1]));
    assert(installer_next(phases[1], events[1], phases[2]));
    assert(installer_next(phases[2], events[2], phases[3]));
    assert(installer_next(phases[3], events[3], phases[4]));
    law_reports_are_read_back("FILE_PEEKER_SERVER_READY="@, executable, end);
    assert(line@.last() == '\n');
    if let InstallerEvent::Exited(Ok((success, status))) = events[3] {
        lemma_ends_in("server installer failed with "@, status@);
    }
}

/// The failure that an installer reports is the failure of the installation, and stops the shell;
/// any other line is shown, and the next one is read.
pub proof fn law_installer_lines_are_heard(
    line: String,
    text: Seq<char>,
    end: Seq<char>,
    after: InstallerPhase,
    shown: InstallerPhase,
)
    requires
        installer_next(InstallerPhase::ReadLine, InstallerEvent::Line(Ok(line)), after),
        installer_next(after, InstallerEvent::Shown(Ok(())), shown),
        ends_visibly(text),
        is_line_end(end),
    ensures
        line@ == "FILE_PEEKER_SERVER_ERROR="@ + text + end ==> (after matches InstallerPhase::Stop(e)
            && e.message@ == text),
        line@ == text + end && !has_prefix(text, "FILE_PEEKER_SERVER_READY="@) && !has_prefix(
            text,
            "FILE_PEEKER_SERVER_ERROR="@,
        ) ==> after == InstallerPhase::Show(line) && shown is ReadLine,
        line@ == text ==> (after matches InstallerPhase::Stop(e) && e@.kind
            == IoErrorKind::UnexpectedEof),
{
    lemma_prefixes();
    let ready = "FILE_PEEKER_SERVER_READY="@;
    let error = "FILE_PEEKER_SERVER_ERROR="@;
    law_reports_are_read_back(error, text, end);
    law_reports_are_read_back(ready, text, end);
    if line@ == error + text + end {
        let whole = error + text;
        assert(whole[19] == 'E');
        if has_prefix(whole, ready) {
            assert(whole.take(25)[19] == ready[19]);
        }
        if text.len() > 0 {
            assert(whole.last() == text.last());
        } else {
            assert(whole =~= error);
        }
        law_reports_are_read_back(ready, whole, end);
        assert(line@.last() == '\n');
    }
    if line@ == text + end {
        assert(line@.last() == '\n');
    }
}

/// Whether a launch goes through `states`, from one to the next by each of `events`.
pub open spec fn launch_goes(states: Seq<Launch>, events: Seq<LaunchEvent>) -> bool {
    &&& states.len() == events.len() + 1
    &&& forall|k: int| 0 <= k < events.len() ==> states[k].next(#[trigger] events[k], states[k + 1])
}

/// The steps from a server that may report its startup to a connection: what it reports is decoded,
/// and the port and the token in it are those of the connection.
proof fn lemma_startup_connects(
    states: Seq<Launch>,
    events: Seq<LaunchEvent>,
    from: int,
    line: String,
    json: Seq<char>,
    end: Seq<char>,
    document: StartupDocument,
)
    requires
        launch_goes(states, events),
        0 <= from,
        from + 4 <= events.len(),
        states[from].phase is ReadStartup,
        events[from] == LaunchEvent::Line(Ok(line)),
        events[from + 1] == LaunchEvent::Decoded(Ok(document)),
        events[from + 2] matches LaunchEvent::Opened(Ok(_)),
        events[from + 3] matches LaunchEvent::Greeted(Ok(_)),
        line@ == "FILE_PEEKER_SERVER_STARTUP="@ + json + end,
        ends_visibly(json),
        is_line_end(end),
        document.token@.len() > 0,
    ensures
        states[from + 1].phase matches LaunchPhase::Decode(found) && found@ == json,
        states[from + 4].phase matches LaunchPhase::Connected(info) && info.server_port
            == document.port && info.token == document.token,
{
    lemma_prefixes();
    assert(states[from].next(events[from], states[from + 1]));
    assert(states[from + 1].next(events[from + 1], states[from + 2]));
    assert(states[from + 2].next(events[from + 2], states[from + 3]));
    assert(states[from + 3].next(events[from + 3], states[from + 4]));
    law_reports_are_read_back("FILE_PEEKER_SERVER_STARTUP="@, json, end);
    assert(line@.last() == '\n');
}

/// A server on this machine whose executable is installed and which starts, reports its startup and
/// answers is connected to: to the port and by the token that it reports.
pub proof fn law_local_launches_connect(
    states: Seq<Launch>,
    events: Seq<LaunchEvent>,
    executable: String,
    line: String,
    json: Seq<char>,
    end: Seq<char>,
    document: StartupDocument,
)
    requires
        launch_goes(states, events),
        states[0].config is Local,
        states[0].phase is Install,
        events.len() == 6,
        events[0] == LaunchEvent::Installed(Ok(executable)),
        events[1] matches LaunchEvent::Spawned(Ok(pipes)) && pipes.stdin && pipes.stdout,
        events[2] == LaunchEvent::Line(Ok(line)),
        events[3] == LaunchEvent::Decoded(Ok(document)),
        events[4] matches LaunchEvent::Opened(Ok(_)),
        events[5] matches LaunchEvent::Greeted(Ok(_)),
        line@ == "FILE_PEEKER_SERVER_STARTUP="@ + json + end,
        ends_visibly(json),
        is_line_end(end),
        document.token@.len() > 0,
    ensures
        states[1].phase is Spawn,
        states[1].executable == Some(executable),
        states[3].phase matches LaunchPhase::Decode(found) && found@ == json,
        states[6].phase matches LaunchPhase::Connected(info) && info.server_port == document.port
            && info.token == document.token,
{
    assert(states[0].next(events[0], states[1]));
    assert(states[1].next(events[1], states[2]));
    lemma_startup_connects(states, events, 2, line, json, end, document);
}

/// Behind `ssh` the server is installed first. The command that then starts it runs the executable
/// that the installer reported, whatever characters its path holds, and from there on the launch
/// goes as on this machine.
pub proof fn law_remote_launches_connect(
    states: Seq<Launch>,
    events: Seq<LaunchEvent>,
    ready: String,
    executable: Seq<char>,
    line: String,
    json: Seq<char>,
    end: Seq<char>,
    document: StartupDocument,
)
    requires
        launch_goes(states, events),
        states[0].config is Remote,
        states[0].phase is Spawn,
        events.len() == 8,
        events[0] matches LaunchEvent::Spawned(Ok(pipes)) && pipes.stdin && pipes.stdout,
        events[1] matches LaunchEvent::Sent(Ok(_)),
        events[2] == LaunchEvent::Line(Ok(ready)),
        events[3] matches LaunchEvent::Sent(Ok(_)),
        events[4] == LaunchEvent::Line(Ok(line)),
        events[5] == LaunchEvent::Decoded(Ok(document)),
        events[6] matches LaunchEvent::Opened(Ok(_)),
        events[7] matches LaunchEvent::Greeted(Ok(_)),
        ready@ == "FILE_PEEKER_SERVER_READY="@ + executable + end,
        executable.len() > 0,
        ends_visibly(executable),
        line@ == "FILE_PEEKER_SERVER_STARTUP="@ + json + end,
        ends_visibly(json),
        is_line_end(end),
        document.token@.len() > 0,
    ensures
        states[1].phase is SendInstaller,
        states[3].phase matches LaunchPhase::SendStart(command) && {
            let words = command@;
            &&& words.len() >= 12
            &&& words.take(5) == "exec "@
            &&& ends_in(words, " serve\n"@)
            &&& shell_reads(QuoteState::Outside, words.subrange(5, words.len() - 7)) == Some(
                executable,
            )
        },
        states[8].phase matches LaunchPhase::Connected(info) && info.server_port == document.port
            && info.token == document.token,
{
    lemma_prefixes();
    assert(states[0].next(events[0], states[1]));
    assert(states[1].next(events[1], states[2]));
    assert(states[2].next(events[2], states[3]));
    assert(states[3].next(events[3], states[4]));
    law_reports_are_read_back("FILE_PEEKER_SERVER_READY="@, executable, end);
    assert(ready@.last() == '\n');
    let words = states[3].phase->SendStart_0@;
    reveal_strlit("exec ");
    reveal_strlit(" serve\n");
    assert(words == "exec "@ + quoted(executable) + " serve\n"@);
    assert(words.take(5) =~= "exec "@);
    lemma_ends_in("exec "@ + quoted(executable), " serve\n"@);
    assert(words.subrange(5, words.len() - 7) =~= quoted(executable));
    law_quoting_is_read_back(executable);
    lemma_startup_connects(states, events, 4, line, json, end, document);
}

/// A step of a launch that fails keeps the failure: a process that runs is stopped because of it, and
/// one that never ran fails the launch with it.
pub proof fn law_launch_failures_are_kept(before: Launch, event: LaunchEvent, after: Launch)
    requires
        before.next(event, after),
    ensures
        before.phase is Install ==> (event matches LaunchEvent::Installed(Err(e)) ==> after.phase
            == LaunchPhase::Failed(e)),
        before.phase is Spawn ==> (event matches LaunchEvent::Spawned(Err(e)) ==> after.phase
            == LaunchPhase::Failed(e)),
        before.phase is Spawn ==> (event matches LaunchEvent::Spawned(Ok(pipes)) ==> (!(pipes.stdin
            && pipes.stdout) <==> after.phase is Stop)),
        before.phase is SendInstaller || before.phase is SendStart ==> (
        event matches LaunchEvent::Sent(Err(e)) ==> after.phase == LaunchPhase::Stop(e)),
        before.phase is ReadInstaller || before.phase is ReadStartup ==> (
        event matches LaunchEvent::Line(Err(e)) ==> after.phase == LaunchPhase::Stop(e)),
        before.phase is ShowInstaller ==> (event matches LaunchEvent::Shown(result)
            ==> match result {
            Err(e) => after.phase == LaunchPhase::Stop(e),
            Ok(_) => after.phase is ReadInstaller,
        }),
        before.phase is Open ==> (event matches LaunchEvent::Opened(Err(e)) ==> after.phase
            == LaunchPhase::Stop(e)),
        before.phase is Greet ==> (event matches LaunchEvent::Greeted(Err(e)) ==> after.phase
            == LaunchPhase::Stop(e)),
        before.phase is Decode ==> (event matches LaunchEvent::Decoded(Err(words)) ==> (
        after.phase matches LaunchPhase::Stop(e) && ends_in(e.message@, words@))),
        event is Stopped ==> (before.phase matches LaunchPhase::Stop(e) ==> after.phase
            == LaunchPhase::Failed(e)),
{
    if let LaunchEvent::Decoded(Err(words)) = event {
        lemma_ends_in("server reported invalid startup JSON: "@, words@);
    }
}

/// A proxy that accepts everything connects to the port that was asked for, once as many bytes of the
/// address came as its type calls for: four, sixteen, or as many as the proxy says, and two for a
/// port.
pub proof fn law_accepting_proxies_connect(
    port: u16,
    reply: Seq<u8>,
    length: Seq<u8>,
    address: Seq<u8>,
    s1: Socks5,
    s2: Socks5,
    s3: Socks5,
)
    requires
        (Socks5::Greeting { server_port: port }).next(seq![5u8, 0u8], s1),
        reply.len() == 4,
        reply[0] == 5,
        reply[1] == 0,
        s1.next(reply, s2),
        s2.next(if s2 is NameLength { length } else { address }, s3),
        length.len() == 1,
    ensures
        (Socks5::Greeting { server_port: port }).sent() == seq![5u8, 1u8, 0u8],
        s1.sent().len() == 10,
        s1.sent().take(8) == seq![5u8, 1u8, 0u8, 1u8, 127u8, 0u8, 0u8, 1u8],
        s1.sent()[8] * 256 + s1.sent()[9] == port,
        (Socks5::Greeting { server_port: port }).awaited() == 2,
        s1.awaited() == 4,
        reply[3] == 1 ==> s2.awaited() == 6 && s3 is Connected,
        reply[3] == 4 ==> s2.awaited() == 18 && s3 is Connected,
        reply[3] == 3 ==> s2.awaited() == 1 && s3.awaited() == length[0] + 2 && s3 is Address,
        reply[3] != 1 && reply[3] != 3 && reply[3] != 4 ==> s2 is Failed,
{
    assert(s1.sent().take(8) =~= seq![5u8, 1u8, 0u8, 1u8, 127u8, 0u8, 0u8, 1u8]);
}

/// A proxy that does not accept the negotiation or the connection fails it.
pub proof fn law_refusing_proxies_fail(port: u16, bytes: Seq<u8>, after: Socks5)
    ensures
        bytes.len() == 2 && (bytes[0] != 5 || bytes[1] != 0) && (Socks5::Greeting {
            server_port: port,
        }).next(bytes, after) ==> after is Failed,
        bytes.len() == 4 && (bytes[0] != 5 || bytes[1] != 0) && (Socks5::Reply {
            server_port: port,
        }).next(bytes, after) ==> after is Failed,
{
}

/// A refused request is reported as the I/O failure that means the same, with the server's words.
pub proof fn law_statuses_keep_their_meaning(status: GrpcStatus)
    ensures
        ends_in(status_failure(status).message, status.message@),
        status_failure(status).kind == code_kind(status.code),
        code_kind(GrpcCode::NotFound) == IoErrorKind::NotFound,
        code_kind(GrpcCode::PermissionDenied) == IoErrorKind::PermissionDenied,
        code_kind(GrpcCode::Unauthenticated) == IoErrorKind::PermissionDenied,
        code_kind(GrpcCode::InvalidArgument) == IoErrorKind::InvalidInput,
        code_kind(GrpcCode::FailedPrecondition) == IoErrorKind::NotADirectory,
        code_kind(GrpcCode::Cancelled) == IoErrorKind::Interrupted,
        code_kind(GrpcCode::DeadlineExceeded) == IoErrorKind::TimedOut,
        code_kind(GrpcCode::Unavailable) == IoErrorKind::ConnectionAborted,
        code_kind(status.code) == IoErrorKind::Other <==> (status.code is Success
            || status.code is Unknown || status.code is AlreadyExists
            || status.code is ResourceExhausted || status.code is Aborted
            || status.code is OutOfRange || status.code is Unimplemented || status.code is Internal
            || status.code is DataLoss),
{
    let head = "gRPC "@ + grpc_code_text(status.code) + ": "@;
    lemma_ends_in(head, status.message@);
}

/// A server is healthy exactly where it answers that it serves, and has stopped well exactly where it
/// ended with success in time.
pub proof fn law_health_and_ends_are_judged(outcome: HealthOutcome, stopped: StopOutcome)
    ensures
        health_error(outcome) is None <==> outcome == HealthOutcome::Answered(1),
        outcome is TimedOut ==> health_error(outcome)->Some_0.kind == IoErrorKind::TimedOut,
        outcome matches HealthOutcome::Refused(status) ==> ends_in(
            health_error(outcome)->Some_0.message,
            status.message@,
        ),
        stop_error(stopped) is None <==> (stopped matches StopOutcome::Exited { success, status }
            && success),
        stopped matches StopOutcome::Exited { success, status } ==> (!success ==> ends_in(
            stop_error(stopped)->Some_0.message,
            status@,
        )),
        stopped matches StopOutcome::NotAwaited(e) ==> stop_error(stopped) == Some(e@),
        stopped is TimedOut ==> stop_error(stopped)->Some_0.kind == IoErrorKind::TimedOut,
{
    if let HealthOutcome::Refused(status) = outcome {
        law_statuses_keep_their_meaning(status);
    }
    if let StopOutcome::Exited { success, status } = stopped {
        lemma_ends_in("server process exited unsuccessfully: "@, status@);
    }
}

/// A token is presented as it is, behind the word that names the scheme.
pub proof fn law_tokens_are_presented(token: Seq<char>)
    ensures
        bearer_text(token).len() == token.len() + 7,
        ends_in(bearer_text(token), token),
        bearer_text(token)[6] == ' ',
        has_prefix(bearer_text(token), "Bearer"@),
{
    reveal_strlit("Bearer ");
    reveal_strlit("Bearer");
    lemma_ends_in("Bearer "@, token);
    assert(bearer_text(token).take(6) =~= "Bearer"@);
}

/// The installer on this machine is told whether to install in any case. Sources that are named are
/// built, whatever characters their path holds; a path that is no text is refused.
pub proof fn law_local_installers_are_told_what_to_do(config: LocalServerConfig)
    ensures
        installer_text(config) is Ok <==> (config.local_source_path matches Some(bytes) ==> valid_utf8(
            bytes@,
        )),
        installer_text(config) matches Err(e) ==> e.kind == IoErrorKind::InvalidInput,
        config.local_source_path is None ==> installer_text(config) == Ok::<Seq<char>, IoErrorView>(
            ensure_command_text(config.force_install),
        ),
        config.local_source_path matches Some(bytes) ==> (valid_utf8(bytes@) ==> {
            let word = quoted(decode_utf8(bytes@));
            &&& shell_reads(QuoteState::Outside, word) == Some(decode_utf8(bytes@))
            &&& has_prefix(
                installer_text(config)->Ok_0,
                if config.force_install {
                    "sh -s -- '0.1.0' 'true' "@
                } else {
                    "sh -s -- '0.1.0' 'false' "@
                } + word,
            )
        }),
{
    if let Some(bytes) = config.local_source_path {
        if valid_utf8(bytes@) {
            let source = decode_utf8(bytes@);
            let word = quoted(source);
            law_source_installers_get_their_program(config.force_install, source);
            let text = installer_text(config)->Ok_0;
            let first = if config.force_install {
                "sh -s -- '0.1.0' 'true' "@
            } else {
                "sh -s -- '0.1.0' 'false' "@
            };
            let long = first + word + " <<'FILE_PEEKER_SOURCE_INSTALL_SCRIPT'\n"@ + SOURCE_INSTALL_SCRIPT@;
            assert(text.take(long.len() as int) == long);
            assert forall|i: int| 0 <= i < (first + word).len() implies text[i] == (first + word)[i] by {
                assert(text.take(long.len() as int)[i] == long[i]);
            }
            assert(text.take((first + word).len() as int) =~= first + word);
        }
    }
}

/// A launch can be tried wherever a destination that is asked for is named: on this machine it starts
/// with the installation, as configured, and behind `ssh` with the process.
pub proof fn law_launches_need_a_destination(config: ConnectionConfig, launch: Result<Launch, IoError>)
    requires
        call_ensures(Launch::from, (config,), launch),
    ensures
        launch is Err <==> (config matches ConnectionConfig::Remote { destination, force_install }
            && destination@.len() == 0),
        launch matches Err(e) ==> e.kind == IoErrorKind::InvalidInput,
        launch matches Ok(l) ==> l.config == config && l.executable is None,
        launch matches Ok(l) ==> match config {
            ConnectionConfig::Local { force_install } => l.phase matches LaunchPhase::Install(c)
                && c.force_install == force_install && c.local_source_path is None,
            ConnectionConfig::Remote { .. } => l.phase is Spawn,
        },
{
}

/// On this machine the process is the installed executable, told to serve. On another it is `ssh` to the
/// destination, with a proxy at the port of this machine that connections are made through.
pub proof fn law_servers_are_run_or_reached(launch: &Launch, port: u16, process: Option<ServerProcess>)
    requires
        call_ensures(Launch::server_process, (launch, port), process),
    ensures
        process is None <==> launch.config is Local && launch.executable is None,
        process matches Some(p) ==> match launch.config {
            ConnectionConfig::Local { .. } => p.program@ == launch.executable->Some_0@ && texts(
                p.arguments@,
            ) == seq!["serve"@],
            ConnectionConfig::Remote { destination, .. } => {
                let words = texts(p.arguments@);
                &&& p.program@ == "ssh"@
                &&& words.len() == 4
                &&& words[1] == "-D"@
                &&& words[2] == "127.0.0.1:"@ + decimal_text(port as nat)
                &&& words[3] == destination@
            },
        },
{
}

/// A server can be worked with exactly while it is connected, and connected to exactly while it is not;
/// an operation reaches it by what it reported when it was started.
pub proof fn law_servers_are_worked_with_while_connected(
    server: &LocalServer,
    connected: Result<(), IoError>,
    beaten: Result<ControlRequest, IoError>,
    startup: Option<&RemoteServerStartup>,
    reached: Result<&RemoteServerStartup, IoError>,
)
    requires
        call_ensures(LocalServer::connect, (server,), connected),
        call_ensures(LocalServer::heartbeat, (server,), beaten),
        call_ensures(LocalServer::startup, (server,), startup),
        call_ensures(LocalServer::operate, (server,), reached),
    ensures
        connected is Ok <==> beaten is Err,
        reached is Ok ==> beaten is Ok && startup == Some(reached->Ok_0),
        beaten is Ok && startup is Some ==> reached is Ok,
        beaten matches Ok(request) ==> request is Heartbeat,
        connected matches Err(e) ==> e.kind == IoErrorKind::AlreadyExists,
        beaten matches Err(e) ==> e.kind == IoErrorKind::NotConnected,
        reached matches Err(e) ==> e.kind == IoErrorKind::NotConnected,
{
}

/// A launch changes nothing that it has settled: its configuration never, and the executable only where
/// that was installed.
pub proof fn law_launches_keep_what_is_settled(before: Launch, event: LaunchEvent, after: Launch)
    requires
        before.next(event, after),
    ensures
        after.config == before.config,
        !(before.phase is Install) ==> after.executable == before.executable,
        before.phase is Install ==> (event matches LaunchEvent::Installed(Ok(executable))
            ==> after.executable == Some(executable)),
{
}

} // verus!
