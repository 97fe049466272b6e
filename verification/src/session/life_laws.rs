//! What listings, copies and the life of a session come to as a whole.

use vstd::prelude::*;

use crate::api::{ErrorClass, FilePeekerError};
use crate::connection::grpc::GrpcStatus;
use crate::connection::launch::ConnectionConfig;
use crate::io_error::{IoError, IoErrorKind};
use crate::operations::{current_root_answer, run_listing, ListingItem};
use crate::path_laws::{
    law_joining_puts_one_slash_between, law_paths_lead_down_without_steps_up,
    law_some_paths_have_no_name,
};
use crate::protocol::ServerMessage;
use crate::session::entries::{resolve_path, validate_relative_path};
use crate::session::listing::{after_pull, pulled, ListError, ListingState};
use crate::session::open::{open, open_local, opener_error, OpenFile, OpenerOutcome};
use crate::session::stage::{usable_basename, StageDownload};
use crate::session::{
    close, close_connection, connection_config, CloseError, SessionConfig, SessionShutdownError,
    SessionTarget,
};
use crate::text::texts;
use crate::text_laws::{ends_in, lemma_ends_in};
use crate::unix_path::{
    file_name_of, is_plain_name, law_parent_undoes_join, lemma_file_name_is_plain,
};

verus! {

/// While a listing is active, a pull hands out what the stream gave, unchanged, and the listing stays
/// active exactly as long as items come. Its failure keeps the stream's words.
pub proof fn law_pulls_pass_items_on<T>(item: T, e: IoError)
    ensures
        pulled::<T>(ListingState::Active, Ok(Some(item))) == Ok::<Option<T>, ListError>(Some(item)),
        after_pull::<T>(ListingState::Active, Ok(Some(item))) is Active,
        pulled::<T>(ListingState::Active, Ok(None)) == Ok::<Option<T>, ListError>(None),
        after_pull::<T>(ListingState::Active, Ok(None)) is Complete,
        pulled::<T>(ListingState::Active, Err(e)) matches Err(ListError::Operation { message })
            && message@ == e.message@,
        after_pull::<T>(ListingState::Active, Err(e)) is Failed,
{
}

/// A listing that has ended is not brought back by anything that its stream gives.
pub proof fn law_ended_listings_ignore_the_stream<T>(state: ListingState, polled: Result<Option<T>, IoError>)
    requires
        !(state is Active),
    ensures
        after_pull(state, polled) == state,
        state is Complete ==> pulled(state, polled) == Ok::<Option<T>, ListError>(None),
        state matches ListingState::Failed(e) ==> pulled(state, polled) == Err::<Option<T>, ListError>(
            e,
        ),
{
}

/// A copy bears the name of its source and lies below the cache, the session and the download, each in
/// a directory of its own. While it is incomplete it has another, hidden name beside that.
pub proof fn law_copies_bear_the_name_of_their_source(
    d: StageDownload,
    root: Seq<char>,
    session: Seq<char>,
    source: Seq<char>,
    download: Seq<char>,
    partial: Seq<char>,
    name: Seq<char>,
)
    requires
        d.lies(root, session, source, download, partial),
        root.len() > 0,
        root.last() != '/',
        is_plain_name(session),
        is_plain_name(download),
        file_name_of(source) == Some(name),
    ensures
        d.final_path@ == root + seq!['/'] + session + seq!['/'] + download + seq!['/'] + name,
        d.partial_path@ == root + seq!['/'] + session + seq!['/'] + download + seq!['/', '.'] + name
            + seq!['.'] + partial + ".partial"@,
        d.final_path@ != d.partial_path@,
        d.source_path@ == source,
{
    lemma_file_name_is_plain(source);
    assert(session.contains(session[0]));
    assert(session.contains(session.last()));
    assert(download.contains(download[0]));
    assert(download.contains(download.last()));
    assert(name.contains(name[0]));
    law_joining_puts_one_slash_between(root, session);
    let first = root + seq!['/'] + session;
    assert(first.last() == session.last());
    law_joining_puts_one_slash_between(first, download);
    let second = first + seq!['/'] + download;
    assert(second.last() == download.last());
    law_joining_puts_one_slash_between(second, name);
    reveal_strlit(".");
    reveal_strlit(".partial");
    let hidden = "."@ + name + "."@ + partial + ".partial"@;
    assert(hidden[0] == '.');
    law_joining_puts_one_slash_between(second, hidden);
    assert(d.final_path@ =~= root + seq!['/'] + session + seq!['/'] + download + seq!['/'] + name);
    assert(d.partial_path@ =~= root + seq!['/'] + session + seq!['/'] + download + seq!['/', '.'] + name
        + seq!['.'] + partial + ".partial"@);
    assert(d.final_path@.len() < d.partial_path@.len());
}

/// A session connects to its own target and never has anything installed over what is there.
pub proof fn law_sessions_install_over_nothing(config: SessionConfig, connection: ConnectionConfig)
    requires
        call_ensures(connection_config, (config,), connection),
    ensures
        config.target is Local <==> connection is Local,
        connection matches ConnectionConfig::Local { force_install } ==> !force_install,
        connection matches ConnectionConfig::Remote { destination, force_install } ==> !force_install
            && config.target == (SessionTarget::Remote { destination }),
{
}

/// Closing a session fails exactly where what it worked with could not be shut down, and the words of
/// that are kept; a session that was closed already is closed with success.
pub proof fn law_closing_fails_with_the_shutdown(
    shutdown: Option<Result<(), IoError>>,
    closed: Result<(), SessionShutdownError>,
    disconnected: Result<(), CloseError>,
)
    requires
        call_ensures(close, (shutdown,), closed),
        call_ensures(close_connection, (shutdown,), disconnected),
    ensures
        closed is Err <==> shutdown matches Some(Err(_)),
        disconnected is Err <==> shutdown matches Some(Err(_)),
        shutdown matches Some(Err(e)) ==> {
            &&& closed matches Err(SessionShutdownError::Backend { message }) && message@ == e.message@
            &&& disconnected matches Err(CloseError::ServerShutdown { message }) && message@
                == e.message@
        },
{
}

/// A path that a server answers with is taken exactly where it starts at the root, and then as it is.
/// A server that refuses has its words told.
pub proof fn law_answered_paths_start_at_the_root(
    answer: Result<String, GrpcStatus>,
    root: Result<String, IoError>,
    resolved: Result<String, IoError>,
)
    requires
        call_ensures(current_root_answer, (answer,), root),
        call_ensures(resolve_path, (answer,), resolved),
    ensures
        root is Ok <==> (answer matches Ok(path) && path@.len() > 0 && path@[0] == '/'),
        resolved is Ok <==> (answer matches Ok(path) && path@.len() > 0 && path@[0] == '/'),
        root is Ok ==> root->Ok_0 == answer->Ok_0,
        resolved is Ok ==> resolved->Ok_0 == answer->Ok_0,
        answer matches Err(status) ==> ends_in(root->Err_0.message@, status.message@) && ends_in(
            resolved->Err_0.message@,
            status.message@,
        ),
        answer is Ok ==> (root matches Err(e) ==> e.kind == IoErrorKind::InvalidData),
        answer is Ok ==> (resolved matches Err(e) ==> e.kind == IoErrorKind::InvalidData),
{
    if let Err(status) = answer {
        crate::connection::reach_laws::law_statuses_keep_their_meaning(status);
        crate::session::entry_laws::law_refusals_keep_their_meaning(status);
        lemma_ends_in(Seq::<char>::empty(), status.message@);
        assert(Seq::<char>::empty() + status.message@ =~= status.message@);
    }
}

/// What a server says of a listing is passed on as it is: an entry with all that it holds, the end, or
/// the words of a refusal. A message that does not belong to a listing is an error of the protocol.
pub proof fn law_listing_messages_are_passed_on(
    message: Result<ServerMessage, FilePeekerError>,
    item: ListingItem,
)
    requires
        call_ensures(run_listing, (message,), item),
    ensures
        message matches Ok(ServerMessage::Entry { path, name, kind, navigable }) ==> (
        item matches ListingItem::Entry(entry) && entry.path == path && entry.name == name && entry.kind
            == kind && entry.navigable == navigable),
        item is Done <==> message matches Ok(ServerMessage::Done),
        item is Entry ==> message matches Ok(ServerMessage::Entry { .. }),
        message matches Err(e) ==> item == ListingItem::Error(e),
        message matches Ok(ServerMessage::Error { code, message: words }) ==> (
        item matches ListingItem::Error(e) && e@.message == words@),
        message matches Ok(other) ==> (other is HelloOk || other is HeartbeatOk || other is ShutdownOk
            || other is CurrentRoot ==> (item matches ListingItem::Error(e) && e@.class
            == ErrorClass::Protocol)),
{
}

/// The opener is handed the path after the mark that ends its options, so that it is never taken for
/// one, and only for a file of this machine.
pub proof fn law_openers_get_the_path(
    target: &SessionTarget,
    path: &str,
    arguments: Option<Vec<String>>,
)
    requires
        call_ensures(open, (target, path), arguments),
    ensures
        arguments is Some <==> *target is Local,
        arguments matches Some(words) ==> texts(words@).len() == 2 && texts(words@)[0] == "--"@
            && texts(words@)[1] == path@,
{
}

/// A file was opened exactly where the opener ran and succeeded; what went wrong is told.
pub proof fn law_openers_are_judged_by_their_exit(outcome: OpenerOutcome)
    ensures
        opener_error(outcome) is None <==> (outcome matches OpenerOutcome::Exited { success, status }
            && success),
        outcome matches OpenerOutcome::NotSpawned(e) ==> opener_error(outcome) == Some(e@),
        outcome is Unsupported ==> opener_error(outcome)->Some_0.kind == IoErrorKind::Unsupported,
        outcome matches OpenerOutcome::Exited { success, status } ==> (!success ==> ends_in(
            opener_error(outcome)->Some_0.message,
            status@,
        )),
{
    if let OpenerOutcome::Exited { success, status } = outcome {
        lemma_ends_in("/usr/bin/open exited unsuccessfully with "@, status@);
    }
}

/// A path was opened on this machine exactly where the opener succeeded; what went wrong is told.
pub proof fn law_local_openings_are_judged_by_their_exit(
    path: &str,
    outcome: Result<(bool, String), IoError>,
    opened: Result<(), FilePeekerError>,
)
    requires
        call_ensures(open_local, (path, outcome), opened),
    ensures
        opened is Ok <==> (outcome matches Ok((success, status)) && success),
        opened matches Err(e) ==> e@.class == ErrorClass::Io,
        outcome matches Err(reason) ==> ends_in(opened->Err_0@.message, reason.message@),
        outcome matches Ok((success, status)) ==> (!success ==> ends_in(
            opened->Err_0@.message,
            status@,
        )),
{
    match outcome {
        Err(reason) => {
            lemma_ends_in(
                "cannot open `"@ + path@ + "` with the system application: "@,
                reason.message@,
            );
        },
        Ok((success, status)) => {
            lemma_ends_in("system application failed to open `"@ + path@ + "`: "@, status@);
        },
    }
}

/// A relative path of a walk is refused exactly where it does not lead down.
pub proof fn law_walked_paths_lead_down(path: &str, judged: Result<(), IoError>)
    requires
        call_ensures(validate_relative_path, (path,), judged),
    ensures
        judged is Ok ==> path@.len() > 0 && path@[0] != '/' && path@ != ".."@,
        judged matches Err(e) ==> e.kind == IoErrorKind::InvalidData,
{
    law_paths_lead_down_without_steps_up(path@);
    if path@ == ".."@ {
        reveal_strlit("..");
        crate::text_laws::lemma_first_position(path@, '/');
        assert(crate::text::split_on(path@, '/')[0] == path@);
    }
}

/// A file is opened in an open session alone, and that starts with resolving its path on the target.
pub proof fn law_closed_sessions_open_nothing(
    is_open: bool,
    target: SessionTarget,
    path: String,
    started: Result<OpenFile, IoError>,
)
    requires
        call_ensures(OpenFile::op_open_file, (is_open, target, path), started),
    ensures
        started is Ok <==> is_open,
        started matches Ok(f) ==> f.target == target && f.path == path && f.phase is Resolve,
        started matches Err(e) ==> e.kind == IoErrorKind::NotConnected,
{
}

/// The name of a copy is what follows the last slash of its source; a source that ends in steps up or in
/// nothing has none.
pub proof fn law_copies_need_a_name(
    source: &str,
    directory: Seq<char>,
    name: Seq<char>,
    found: Result<String, IoError>,
)
    requires
        call_ensures(usable_basename, (source,), found),
    ensures
        directory.len() > 0 && directory.last() != '/' && name.len() > 0 && !name.contains('/') && name
            != seq!['.'] && name != seq!['.', '.'] && source@ == directory + seq!['/'] + name ==> (
        found matches Ok(text) && text@ == name),
        source@.len() == 0 || source@ == seq!['/'] || source@ == seq!['.', '.'] ==> found is Err,
        found matches Err(e) ==> e.kind == IoErrorKind::InvalidInput,
{
    if directory.len() > 0 && directory.last() != '/' && name.len() > 0 && !name.contains('/') && name
        != seq!['.'] && name != seq!['.', '.'] {
        assert(name.contains(name[0]));
        law_joining_puts_one_slash_between(directory, name);
        law_parent_undoes_join(directory, name);
    }
    law_some_paths_have_no_name(directory);
    if source@.len() == 0 {
        assert(source@ =~= Seq::<char>::empty());
    }
}

} // verus!
