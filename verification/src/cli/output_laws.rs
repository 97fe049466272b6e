//! What the command-line programs write and hand over, as a whole.

use vstd::prelude::*;
use vstd::utf8::{decode_utf8, valid_utf8};

use crate::bytes::{first_byte, split_bytes};
use crate::cli::install::{
    extract_text, finish_installer, run_source_installer, source_command_text, SOURCE_INSTALL_SCRIPT,
};
use crate::cli::list::{child_path, finish_run, is_child_name};
use crate::cli::ssh_connection::probe_text;
use crate::cli::upload::{
    archive_arguments, existing_bytes, file_records, first_invalid, list_arguments, records,
    upload_arguments, upload_next, UploadEvent, UploadPhase,
};
use crate::cli::walk::{descendant_path, entries_per_second};
use crate::components::{components_of, segment_steps, steps, ComponentView};
use crate::connection::lines::InstallerLine;
use crate::connection::reach_laws::{ends_visibly, is_line_end, law_reports_are_read_back};
use crate::io_error::{IoError, IoErrorKind};
use crate::path_laws::{
    law_joining_puts_one_slash_between, law_paths_lead_down_without_steps_up,
};
use crate::shell::{
    law_quoting_is_read_back, quoted, quoted_body, quoted_char, shell_reads, QuoteState,
};
use crate::startup::PACKAGE_VERSION;
use crate::text::{first_of, has_prefix, split_on, texts};
use crate::text_laws::{ends_in, lemma_ends_in, lemma_first_position};

verus! {

/// Names in a row, each with a zero byte behind it.
pub open spec fn terminated(names: Seq<Seq<u8>>) -> Seq<u8>
    decreases names.len(),
{
    if names.len() == 0 {
        Seq::empty()
    } else {
        terminated(names.drop_last()) + names.last() + seq![0u8]
    }
}

/// Whether each of `names` can stand in a list with zero bytes between.
pub open spec fn are_listable(names: Seq<Seq<u8>>) -> bool {
    forall|i: int|
        0 <= i < names.len() ==> (#[trigger] names[i]).len() > 0 && !names[i].contains(0u8)
}

/// The first name stands in front.
proof fn lemma_terminated_front(names: Seq<Seq<u8>>)
    requires
        names.len() > 0,
    ensures
        terminated(names) == names[0] + seq![0u8] + terminated(names.skip(1)),
    decreases names.len(),
{
    if names.len() == 1 {
        assert(names.drop_last() =~= Seq::<Seq<u8>>::empty());
        assert(names.skip(1) =~= Seq::<Seq<u8>>::empty());
        assert(terminated(names) =~= names[0] + seq![0u8] + terminated(names.skip(1)));
    } else {
        let init = names.drop_last();
        lemma_terminated_front(init);
        assert(init.skip(1) =~= names.skip(1).drop_last());
        assert(names.skip(1).last() == names.last());
        assert(terminated(names) =~= names[0] + seq![0u8] + terminated(names.skip(1)));
    }
}

proof fn lemma_first_zero(a: Seq<u8>, rest: Seq<u8>)
    requires
        !a.contains(0u8),
    ensures
        first_byte(a + seq![0u8] + rest, 0) == a.len(),
    decreases a.len(),
{
    let all = a + seq![0u8] + rest;
    if a.len() == 0 {
        assert(all[0] == 0u8);
    } else {
        assert(all[0] == a[0]);
        assert(a.contains(a[0]));
        assert(all.skip(1) =~= a.skip(1) + seq![0u8] + rest);
        assert forall|i: int| 0 <= i < a.skip(1).len() implies a.skip(1)[i] != 0u8 by {
            assert(a.contains(a[i + 1]));
        }
        lemma_first_zero(a.skip(1), rest);
    }
}

proof fn lemma_split_front(a: Seq<u8>, rest: Seq<u8>)
    requires
        !a.contains(0u8),
    ensures
        split_bytes(a + seq![0u8] + rest, 0) == seq![a] + split_bytes(rest, 0),
{
    let all = a + seq![0u8] + rest;
    lemma_first_zero(a, rest);
    assert(all.take(a.len() as int) =~= a);
    assert(all.skip(a.len() as int + 1) =~= rest);
}

proof fn lemma_records_front(a: Seq<u8>, parts: Seq<Seq<u8>>)
    requires
        a.len() > 0,
    ensures
        records(seq![a] + parts) == seq![a] + records(parts),
    decreases parts.len(),
{
    let all = seq![a] + parts;
    if parts.len() == 0 {
        reveal_with_fuel(records, 2);
        assert(all =~= seq![a]);
        assert(all.drop_last() =~= Seq::<Seq<u8>>::empty());
        assert(records(all) =~= seq![a] + records(parts));
    } else {
        lemma_records_front(a, parts.drop_last());
        assert(all.drop_last() =~= seq![a] + parts.drop_last());
        assert(all.last() == parts.last());
        assert(records(all) =~= seq![a] + records(parts));
    }
}

/// A list of files is read back: names that each end in a zero byte are the files, in their order.
pub proof fn law_file_lists_are_read_back(names: Seq<Seq<u8>>)
    requires
        are_listable(names),
    ensures
        file_records(terminated(names)) == names,
    decreases names.len(),
{
    if names.len() == 0 {
        let none = Seq::<u8>::empty();
        reveal_with_fuel(records, 2);
        assert(split_bytes(none, 0) =~= seq![none]);
        assert(seq![none].drop_last() =~= Seq::<Seq<u8>>::empty());
        assert(records(seq![none]) =~= Seq::<Seq<u8>>::empty());
        assert(names =~= Seq::<Seq<u8>>::empty());
    } else {
        let rest = names.skip(1);
        assert forall|i: int| 0 <= i < rest.len() implies (#[trigger] rest[i]).len() > 0
            && !rest[i].contains(0u8) by {
            assert(rest[i] == names[i + 1]);
        }
        law_file_lists_are_read_back(rest);
        lemma_terminated_front(names);
        lemma_split_front(names[0], terminated(rest));
        lemma_records_front(names[0], split_bytes(terminated(rest), 0));
        assert(seq![names[0]] + rest =~= names);
    }
}

/// What stands between zero bytes holds none.
proof fn lemma_parts_hold_no_zero(s: Seq<u8>)
    ensures
        forall|i: int| 0 <= i < split_bytes(s, 0).len() ==> !(#[trigger] split_bytes(s, 0)[i]).contains(0u8),
    decreases s.len(),
{
    let at = first_byte(s, 0);
    lemma_first_byte_position(s);
    let parts = split_bytes(s, 0);
    if at < s.len() {
        let rest = split_bytes(s.skip(at + 1), 0);
        lemma_parts_hold_no_zero(s.skip(at + 1));
        assert forall|i: int| 0 <= i < parts.len() implies !(#[trigger] parts[i]).contains(0u8) by {
            if i > 0 {
                assert(parts[i] == rest[i - 1]);
            }
        }
    }
}

proof fn lemma_first_byte_position(s: Seq<u8>)
    ensures
        0 <= first_byte(s, 0) <= s.len(),
        first_byte(s, 0) < s.len() ==> s[first_byte(s, 0)] == 0u8,
        forall|j: int| 0 <= j < first_byte(s, 0) ==> s[j] != 0u8,
    decreases s.len(),
{
    if s.len() > 0 && s[0] != 0u8 {
        lemma_first_byte_position(s.skip(1));
        assert forall|j: int| 0 <= j < first_byte(s, 0) implies s[j] != 0u8 by {
            if j > 0 {
                assert(s.skip(1)[j - 1] == s[j]);
            }
        }
        if first_byte(s, 0) < s.len() {
            assert(s.skip(1)[first_byte(s, 0) - 1] == s[first_byte(s, 0)]);
        }
    }
}

proof fn lemma_records_are_listable(parts: Seq<Seq<u8>>)
    requires
        forall|i: int| 0 <= i < parts.len() ==> !(#[trigger] parts[i]).contains(0u8),
    ensures
        are_listable(records(parts)),
    decreases parts.len(),
{
    if parts.len() > 0 {
        let init = parts.drop_last();
        assert forall|i: int| 0 <= i < init.len() implies !(#[trigger] init[i]).contains(0u8) by {
            assert(init[i] == parts[i]);
        }
        lemma_records_are_listable(init);
        let all = records(parts);
        assert forall|i: int| 0 <= i < all.len() implies (#[trigger] all[i]).len() > 0
            && !all[i].contains(0u8) by {
            if i < records(init).len() {
                assert(all[i] == records(init)[i]);
            } else {
                assert(all[i] == parts[parts.len() - 1]);
            }
        }
    }
}

/// Whether the file of this name is among those that are there.
pub open spec fn is_there(present: Seq<Seq<char>>) -> spec_fn(Seq<u8>) -> bool {
    |name: Seq<u8>| present.contains(decode_utf8(name))
}

proof fn lemma_existing(names: Seq<Seq<u8>>, present: Seq<Seq<char>>)
    requires
        are_listable(names),
        forall|i: int| 0 <= i < names.len() ==> valid_utf8(#[trigger] names[i]),
    ensures
        existing_bytes(names.map_values(|b: Seq<u8>| decode_utf8(b)), present) == terminated(
            names.filter(is_there(present)),
        ),
        are_listable(names.filter(is_there(present))),
    decreases names.len(),
{
    reveal(Seq::filter);
    let texts = names.map_values(|b: Seq<u8>| decode_utf8(b));
    if names.len() > 0 {
        let init = names.drop_last();
        assert forall|i: int| 0 <= i < init.len() implies (#[trigger] init[i]).len() > 0
            && !init[i].contains(0u8) && valid_utf8(init[i]) by {
            assert(init[i] == names[i]);
        }
        lemma_existing(init, present);
        assert(texts.drop_last() =~= init.map_values(|b: Seq<u8>| decode_utf8(b)));
        let last = names[names.len() - 1];
        assert(valid_utf8(last));
        vstd::utf8::decode_utf8_encode_utf8(last);
        assert(texts.last() == decode_utf8(last));
        let kept = init.filter(is_there(present));
        let all = names.filter(is_there(present));
        if present.contains(decode_utf8(last)) {
            assert(all == kept.push(last));
            assert(kept.push(last).drop_last() =~= kept);
            assert forall|i: int| 0 <= i < all.len() implies (#[trigger] all[i]).len() > 0
                && !all[i].contains(0u8) by {
                if i < kept.len() {
                    assert(all[i] == kept[i]);
                }
            }
        }
    }
}

proof fn lemma_all_valid(names: Seq<Seq<u8>>)
    requires
        first_invalid(names) == names.len(),
    ensures
        forall|i: int| 0 <= i < names.len() ==> valid_utf8(#[trigger] names[i]),
    decreases names.len(),
{
    if names.len() > 0 {
        lemma_all_valid(names.skip(1));
        assert forall|i: int| 0 <= i < names.len() implies valid_utf8(#[trigger] names[i]) by {
            if i > 0 {
                assert(names.skip(1)[i - 1] == names[i]);
            }
        }
    }
}

/// Of the files in a list those that are there are kept, all of them, in their order and in the form
/// of the list.
pub proof fn law_present_files_are_kept(files: Seq<u8>, present: Seq<Seq<char>>)
    requires
        first_invalid(file_records(files)) == file_records(files).len(),
    ensures
        file_records(
            existing_bytes(file_records(files).map_values(|b: Seq<u8>| decode_utf8(b)), present),
        ) == file_records(files).filter(is_there(present)),
{
    let names = file_records(files);
    lemma_parts_hold_no_zero(files);
    lemma_records_are_listable(split_bytes(files, 0));
    lemma_all_valid(names);
    lemma_existing(names, present);
    law_file_lists_are_read_back(names.filter(is_there(present)));
}

/// A name that is no text is found, and it is the first one.
pub proof fn law_unreadable_names_are_found(names: Seq<Seq<u8>>)
    ensures
        0 <= first_invalid(names) <= names.len(),
        first_invalid(names) < names.len() ==> !valid_utf8(names[first_invalid(names)]),
        forall|i: int| 0 <= i < first_invalid(names) ==> valid_utf8(#[trigger] names[i]),
    decreases names.len(),
{
    if names.len() > 0 && valid_utf8(names[0]) {
        let rest = names.skip(1);
        law_unreadable_names_are_found(rest);
        assert forall|i: int| 0 <= i < first_invalid(names) implies valid_utf8(#[trigger] names[i]) by {
            if i > 0 {
                assert(rest[i - 1] == names[i]);
            }
        }
        if first_invalid(names) < names.len() {
            assert(rest[first_invalid(rest)] == names[first_invalid(names)]);
        }
    }
}

/// Whether an upload goes through `phases`, from one to the next by each of `events`.
pub open spec fn upload_goes(phases: Seq<UploadPhase>, events: Seq<UploadEvent>) -> bool {
    &&& phases.len() == events.len() + 1
    &&& forall|k: int|
        0 <= k < events.len() ==> upload_next(phases[k], #[trigger] events[k], phases[k + 1])
}

/// An upload whose steps go well is done, and the files that `tar` is fed are those of the listed
/// ones that are there, no more and no fewer.
pub proof fn law_uploads_feed_the_present_files(
    phases: Seq<UploadPhase>,
    events: Seq<UploadEvent>,
    present: Vec<String>,
)
    requires
        upload_goes(phases, events),
        phases[0] is ListFiles,
        events.len() == 6,
        events[0] matches UploadEvent::Listed(Ok(output)) && output.success && first_invalid(
            file_records(output.stdout@),
        ) == file_records(output.stdout@).len(),
        events[1] == UploadEvent::Found(present),
        events[2] matches UploadEvent::ArchiveSpawned(Ok(pipes)) && pipes.stdin && pipes.stdout,
        events[3] == UploadEvent::UploadSpawned(Ok(true)),
        events[4] matches UploadEvent::Transferred(Ok(_)),
        events[5] matches UploadEvent::Ended { ssh, archive } && ssh.success && archive.success,
    ensures
        events[0] matches UploadEvent::Listed(Ok(output)) && (phases[4] matches UploadPhase::Transfer(
            fed,
        ) && file_records(fed@) == file_records(output.stdout@).filter(is_there(texts(present@)))),
        phases[6] is Done,
{
    assert(upload_next(phases[0], events[0], phases[1]));
    assert(upload_next(phases[1], events[1], phases[2]));
    assert(upload_next(phases[2], events[2], phases[3]));
    assert(upload_next(phases[3], events[3], phases[4]));
    assert(upload_next(phases[4], events[4], phases[5]));
    assert(upload_next(phases[5], events[5], phases[6]));
    if let UploadEvent::Listed(Ok(output)) = events[0] {
        law_present_files_are_kept(output.stdout@, texts(present@));
    }
}

/// A step of an upload that fails keeps the failure, and stops what runs by then: `tar`, or `ssh` and
/// `tar`. A process that ends badly fails the upload, and its status is told.
pub proof fn law_upload_failures_are_kept(phase: UploadPhase, event: UploadEvent, after: UploadPhase)
    requires
        upload_next(phase, event, after),
    ensures
        phase is ListFiles ==> (event matches UploadEvent::Listed(Err(e)) ==> after
            == UploadPhase::Failed(e)),
        phase is ListFiles ==> (event matches UploadEvent::Listed(Ok(output)) ==> (after is Failed
            <==> !output.success)),
        phase is SpawnArchive ==> (event matches UploadEvent::ArchiveSpawned(Err(e)) ==> after
            == UploadPhase::Failed(e)),
        phase is SpawnArchive ==> (event matches UploadEvent::ArchiveSpawned(Ok(pipes)) ==> (
        after is StopArchive <==> !(pipes.stdin && pipes.stdout))),
        phase is SpawnUpload ==> (event matches UploadEvent::UploadSpawned(Err(e)) ==> after
            == UploadPhase::StopArchive(e)),
        phase is SpawnUpload ==> (event matches UploadEvent::UploadSpawned(Ok(false))
            ==> after is StopBoth),
        phase is Transfer ==> (event matches UploadEvent::Transferred(Err(e)) ==> after
            == UploadPhase::StopBoth(e)),
        phase is Await ==> (event matches UploadEvent::NotAwaited(e) ==> after
            == UploadPhase::Failed(e)),
        phase is Await ==> (event matches UploadEvent::Ended { ssh, archive } ==> {
            &&& after is Done <==> ssh.success && archive.success
            &&& !ssh.success ==> (after matches UploadPhase::Failed(e) && e.kind == IoErrorKind::Other
                && ends_in(e.message@, ssh.status@))
            &&& ssh.success && !archive.success ==> (after matches UploadPhase::Failed(e) && e.kind
                == IoErrorKind::Other && ends_in(e.message@, archive.status@))
        }),
{
    if let UploadEvent::Ended { ssh, archive } = event {
        lemma_ends_in("SSH project upload failed with "@, ssh.status@);
        lemma_ends_in("project archive failed with "@, archive.status@);
    }
}

/// A plain name is the name of an entry, and no name of an entry leads anywhere but down.
pub proof fn law_entry_names_make_one_step(name: Seq<char>)
    ensures
        name.len() > 0 && !name.contains('/') && name != "."@ && name != ".."@ ==> is_child_name(name),
        is_child_name(name) ==> name.len() > 0 && name[0] != '/' && name != "."@ && name != ".."@
            && split_on(name, '/')[0] != "."@ && forall|i: int|
            0 <= i < split_on(name, '/').len() ==> #[trigger] split_on(name, '/')[i] != ".."@,
{
    lemma_first_position(name, '/');
    let at = first_of(name, '/');
    reveal_with_fuel(steps, 2);
    if !name.contains('/') {
        if at < name.len() {
            assert(name.contains(name[at]));
        }
        let parts = split_on(name, '/');
        assert(parts =~= seq![name]);
        assert(parts.drop_last() =~= Seq::<Seq<char>>::empty());
        assert(steps(parts) =~= segment_steps(name));
        reveal_strlit(".");
        reveal_strlit("..");
        if name.len() > 0 && name != "."@ && name != ".."@ {
            assert(name[0] != '/') by {
                assert(name.contains(name[0]));
            }
            assert(parts[0] == name);
            assert(components_of(name) =~= seq![ComponentView::Normal(name)]);
        }
    }
    if is_child_name(name) {
        let all = components_of(name);
        assert(all[0] is Normal);
        if name.len() == 0 {
            assert(name =~= Seq::<char>::empty());
            assert(at == 0);
            let parts = split_on(name, '/');
            assert(parts =~= seq![name]);
            assert(parts.drop_last() =~= Seq::<Seq<char>>::empty());
            assert(steps(parts) =~= Seq::<ComponentView>::empty());
            reveal_strlit(".");
            assert("."@.len() == 1);
            assert(parts[0].len() == 0);
            assert(all.len() == 0);
        }
        if name[0] == '/' {
            assert(all[0] is RootDir);
        }
        law_paths_lead_down_without_steps_up(name);
        reveal_strlit("..");
        reveal_strlit(".");
        if name == ".."@ || name == "."@ {
            if at < name.len() {
                assert(name[at] == '/');
            }
            assert(split_on(name, '/')[0] == name);
        }
    }
}

/// An archive is unpacked in the directory that is meant, whatever characters its path holds, and the
/// directory is made first.
pub proof fn law_archives_are_unpacked_where_meant(directory: Seq<char>)
    ensures
        ({
            let word = quoted(directory);
            &&& shell_reads(QuoteState::Outside, word) == Some(directory)
            &&& has_prefix(extract_text(directory), "mkdir -p "@ + word + " && tar "@)
            &&& ends_in(extract_text(directory), " -C "@ + word)
        }),
{
    let word = quoted(directory);
    law_quoting_is_read_back(directory);
    reveal_strlit(" && tar ");
    reveal_strlit(" && tar -xzf - -C ");
    reveal_strlit(" -C ");
    let text = extract_text(directory);
    let start = "mkdir -p "@ + word + " && tar "@;
    assert(text.take(start.len() as int) =~= start);
    let end = " -C "@ + word;
    assert(text.skip(text.len() - end.len()) =~= end);
}

/// The program that installs a server from its sources is handed over whole and told the version,
/// whether to install in any case and where the sources are, whatever characters that path holds.
pub proof fn law_source_installers_get_their_program(force_install: bool, source: Seq<char>)
    ensures
        ({
            let word = quoted(source);
            &&& shell_reads(QuoteState::Outside, word) == Some(source)
            &&& has_prefix(
                source_command_text(force_install, source),
                if force_install {
                    "sh -s -- '0.1.0' 'true' "@
                } else {
                    "sh -s -- '0.1.0' 'false' "@
                } + word + " <<'FILE_PEEKER_SOURCE_INSTALL_SCRIPT'\n"@ + SOURCE_INSTALL_SCRIPT@,
            )
            &&& ends_in(
                source_command_text(force_install, source),
                SOURCE_INSTALL_SCRIPT@ + "FILE_PEEKER_SOURCE_INSTALL_SCRIPT\n"@,
            )
        }),
{
    let word = quoted(source);
    law_quoting_is_read_back(source);
    reveal_strlit("sh -s -- '0.1.0' 'true' ");
    reveal_strlit("sh -s -- '0.1.0' 'false' ");
    reveal_strlit(" <<'FILE_PEEKER_SOURCE_INSTALL_SCRIPT'\n");
    reveal_strlit("FILE_PEEKER_SOURCE_INSTALL_SCRIPT\n");
    reveal_strlit("FILE_PEEKER_SOURCE_INSTALL_SCRIPT");
    reveal_strlit("sh -s -- '");
    reveal_strlit("' '");
    reveal_strlit("true");
    reveal_strlit("false");
    reveal_strlit("' ");
    reveal_strlit(" <<'");
    reveal_strlit("'\n");
    reveal_strlit("\n");
    reveal_strlit("0.1.0");
    assert(PACKAGE_VERSION@ == "0.1.0"@);
    let text = source_command_text(force_install, source);
    let first = if force_install {
        "sh -s -- '0.1.0' 'true' "@
    } else {
        "sh -s -- '0.1.0' 'false' "@
    };
    let head = first + word + " <<'FILE_PEEKER_SOURCE_INSTALL_SCRIPT'\n"@;
    let tail = SOURCE_INSTALL_SCRIPT@ + "FILE_PEEKER_SOURCE_INSTALL_SCRIPT\n"@;
    assert(text =~= head + tail);
    lemma_ends_in(head, tail);
    let start = head + SOURCE_INSTALL_SCRIPT@;
    assert(text.take(start.len() as int) =~= start);
}

proof fn lemma_quoted_body_of_both(a: Seq<char>, b: Seq<char>)
    ensures
        quoted_body(a + b) == quoted_body(a) + quoted_body(b),
    decreases b.len(),
{
    if b.len() == 0 {
        assert(a + b =~= a);
        assert(quoted_body(a) + quoted_body(b) =~= quoted_body(a));
    } else {
        lemma_quoted_body_of_both(a, b.drop_last());
        assert((a + b).drop_last() =~= a + b.drop_last());
        assert(quoted_body(a + b) =~= quoted_body(a) + quoted_body(b));
    }
}

proof fn lemma_plain_body(s: Seq<char>)
    requires
        !s.contains('\''),
    ensures
        quoted_body(s) == s,
    decreases s.len(),
{
    if s.len() > 0 {
        assert(s.contains(s[s.len() - 1]));
        let init = s.drop_last();
        assert forall|i: int| 0 <= i < init.len() implies init[i] != '\'' by {
            assert(s.contains(s[i]));
        }
        lemma_plain_body(init);
        assert(init.push(s.last()) =~= s);
        assert(quoted_char(s.last()) =~= seq![s.last()]);
    }
}

/// A probe makes the other machine name the destination, whatever characters it holds, and leave.
pub proof fn law_probes_name_the_destination(destination: Seq<char>)
    ensures
        ({
            let text = probe_text(destination);
            &&& text.len() >= 11
            &&& text.take(5) == "echo "@
            &&& ends_in(text, "\nexit\n"@)
            &&& shell_reads(QuoteState::Outside, text.subrange(5, text.len() - 6)) == Some(
                "Connect to "@ + destination,
            )
        }),
{
    reveal_strlit("echo 'Connect to ");
    reveal_strlit("'\nexit\n");
    reveal_strlit("\nexit\n");
    reveal_strlit("echo ");
    reveal_strlit("Connect to ");
    let words = "Connect to "@ + destination;
    lemma_quoted_body_of_both("Connect to "@, destination);
    lemma_plain_body("Connect to "@);
    law_quoting_is_read_back(words);
    let text = probe_text(destination);
    assert(text =~= "echo "@ + quoted(words) + "\nexit\n"@);
    assert(text.take(5) =~= "echo "@);
    lemma_ends_in("echo "@ + quoted(words), "\nexit\n"@);
    assert(text.subrange(5, text.len() - 6) =~= quoted(words));
}

/// A run reports its own failure first, then that of closing the session; without either it reports
/// success.
pub proof fn law_runs_report_their_own_failure_first(
    result: Result<(), IoError>,
    shutdown: Result<(), String>,
    reported: Result<(), IoError>,
)
    requires
        call_ensures(finish_run, (result, shutdown), reported),
    ensures
        reported is Ok <==> result is Ok && shutdown is Ok,
        result matches Err(e) ==> reported == Err::<(), IoError>(e),
        result is Ok ==> (shutdown matches Err(words) ==> (reported matches Err(e) && e.message@
            == words@)),
{
}

/// An installation hands out its executable only where its shell was told to leave and ended, and
/// reports the first of the failures.
pub proof fn law_installations_end_their_shell(
    executable: Result<String, IoError>,
    told: Result<(), IoError>,
    ended: Result<(), IoError>,
    reported: Result<String, IoError>,
)
    requires
        call_ensures(finish_installer, (executable, told, ended), reported),
    ensures
        reported is Ok <==> executable is Ok && told is Ok && ended is Ok,
        reported is Ok ==> reported == executable,
        told matches Err(e) ==> reported == Err::<String, IoError>(e),
{
}

/// The rate of a walk is the number of whole entries in a second: that many, and no more, fit into
/// the time at this pace.
pub proof fn law_rates_are_per_second(entries: u64, elapsed_nanos: u128, rate: u128)
    requires
        call_ensures(entries_per_second, (entries, elapsed_nanos), rate),
        elapsed_nanos > 0,
    ensures
        rate * elapsed_nanos <= entries * 1_000_000_000 < (rate + 1) * elapsed_nanos,
{
    let all = entries as int * 1_000_000_000;
    let time = elapsed_nanos as int;
    vstd::arithmetic::div_mod::lemma_fundamental_div_mod(all, time);
    vstd::arithmetic::div_mod::lemma_mod_bound(all, time);
    assert(rate as int == all / time);
    assert(time * (all / time) == rate * elapsed_nanos) by (nonlinear_arith)
        requires
            rate as int == all / time,
            time == elapsed_nanos as int,
    ;
    assert((rate + 1) * elapsed_nanos == rate * elapsed_nanos + elapsed_nanos) by (nonlinear_arith);
}

/// What one program writes the next can read: `git` lists the files of the directory with a zero byte
/// behind each, and `tar` takes a list of that form from its input, for the same directory, and writes
/// the archive to its output.
pub proof fn law_listed_files_can_be_packed(
    directory: &str,
    listing: Vec<String>,
    packing: Vec<String>,
)
    requires
        call_ensures(list_arguments, (directory,), listing),
        call_ensures(archive_arguments, (directory,), packing),
    ensures
        ({
            let git = texts(listing@);
            let tar = texts(packing@);
            &&& git.len() == 7
            &&& tar.len() == 8
            &&& git[0] == "-C"@ && git[1] == directory@
            &&& git[2] == "ls-files"@
            &&& git.last() == "-z"@
            &&& tar[3] == "-C"@ && tar[4] == directory@
            &&& tar[5] == "--null"@
            &&& tar[6] == "-T"@ && tar[7] == "-"@
            &&& tar[1] == "-czf"@ && tar[2] == "-"@
        }),
{
}

/// The archive is unpacked on the machine that is meant, in the directory that is meant.
pub proof fn law_uploads_go_where_meant(server: &str, directory: &str, arguments: Vec<String>)
    requires
        call_ensures(upload_arguments, (server, directory), arguments),
    ensures
        texts(arguments@).len() == 2,
        texts(arguments@)[0] == server@,
        ends_in(texts(arguments@)[1], " -C "@ + quoted(directory@)),
        shell_reads(QuoteState::Outside, quoted(directory@)) == Some(directory@),
{
    law_archives_are_unpacked_where_meant(directory@);
}

/// The entries of a directory are written below it: a plain name behind the directory and a slash. A
/// name that leads anywhere else is refused.
pub proof fn law_entries_are_written_below_their_directory(
    parent: &str,
    name: &str,
    path: Result<String, IoError>,
)
    requires
        call_ensures(child_path, (parent, name), path),
        parent@.len() > 0,
        parent@.last() != '/',
    ensures
        name@.len() > 0 && !name@.contains('/') && name@ != "."@ && name@ != ".."@ ==> (
        path matches Ok(text) && text@ == parent@ + seq!['/'] + name@),
        path matches Ok(text) ==> text@ == parent@ + seq!['/'] + name@ && name@ != ".."@,
        path matches Err(e) ==> e.kind == IoErrorKind::InvalidData,
{
    law_entry_names_make_one_step(name@);
    law_joining_puts_one_slash_between(parent@, name@);
}

/// What a walk finds is written below the directory that was walked, and a path that would lead out of
/// it is refused.
pub proof fn law_walked_entries_are_written_below_the_root(
    root: &str,
    relative: &str,
    path: Result<String, IoError>,
)
    requires
        call_ensures(descendant_path, (root, relative), path),
        root@.len() > 0,
        root@.last() != '/',
    ensures
        path is Ok <==> relative@.len() > 0 && relative@[0] != '/' && split_on(relative@, '/')[0]
            != "."@ && forall|i: int|
            0 <= i < split_on(relative@, '/').len() ==> #[trigger] split_on(relative@, '/')[i] != ".."@,
        path matches Ok(text) ==> text@ == root@ + seq!['/'] + relative@,
        path matches Err(e) ==> e.kind == IoErrorKind::InvalidData,
{
    law_paths_lead_down_without_steps_up(relative@);
    law_joining_puts_one_slash_between(root@, relative@);
}

/// The reports of an installation from sources are heard like any installer's: the executable behind
/// its prefix, a failure behind the other, and any other line is shown.
pub proof fn law_source_installers_are_heard(
    line: &str,
    text: Seq<char>,
    end: Seq<char>,
    heard: Result<InstallerLine, IoError>,
)
    requires
        call_ensures(run_source_installer, (line,), heard),
        ends_visibly(text),
        is_line_end(end),
    ensures
        line@ == "FILE_PEEKER_SERVER_READY="@ + text + end ==> (heard matches Ok(
            InstallerLine::Ready(found),
        ) && found@ == text),
        line@ == "FILE_PEEKER_SERVER_ERROR="@ + text + end ==> (heard matches Err(e) && e.message@
            == text),
        line@ == text + end && !has_prefix(text, "FILE_PEEKER_SERVER_READY="@) && !has_prefix(
            text,
            "FILE_PEEKER_SERVER_ERROR="@,
        ) ==> (heard matches Ok(InstallerLine::Show)),
        line@ == text ==> (heard matches Err(e) && e.kind == IoErrorKind::UnexpectedEof),
{
    reveal_strlit("FILE_PEEKER_SERVER_READY=");
    reveal_strlit("FILE_PEEKER_SERVER_ERROR=");
    let ready = "FILE_PEEKER_SERVER_READY="@;
    let error = "FILE_PEEKER_SERVER_ERROR="@;
    law_reports_are_read_back(error, text, end);
    law_reports_are_read_back(ready, text, end);
    if line@ == error + text + end {
        let whole = error + text;
        assert(whole[19] == 'E');
        if has_prefix(whole, ready) {
            assert(whole.take(25)[19] == ready[19]);
        }
        if text.len() > 0 {
            assert(whole.last() == text.last());
        } else {
            assert(whole =~= error);
        }
        law_reports_are_read_back(ready, whole, end);
        assert(line@.last() == '\n');
    }
    if line@ == ready + text + end || line@ == text + end {
        assert(line@.last() == '\n');
    }
}

} // verus!
