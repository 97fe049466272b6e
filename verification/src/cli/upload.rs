//! Copying a project directory to another machine through `git`, `tar` and `ssh`.

use vstd::prelude::*;
use vstd::utf8::{decode_utf8, encode_utf8, valid_utf8};

use crate::bytes::{
    bytes_of, lossy, lossy_text, parts_view, split_at_byte, split_bytes, utf8, utf8_error_text,
};
use crate::cli::install::{extract_text, remote_extract_command};
use crate::connection::installer::{other_failure, Pipes};
use crate::io_error::{io_failure, IoError, IoErrorKind, IoErrorView};
use crate::startup::ssh::CommandOutput;
use crate::text::{concat2, push_text, same_text, texts, trim, trimmed};

verus! {

/// The nonempty records of `files`, each ended by a zero byte.
pub open spec fn records(parts: Seq<Seq<u8>>) -> Seq<Seq<u8>>
    decreases parts.len(),
{
    if parts.len() == 0 {
        Seq::empty()
    } else if parts.last().len() == 0 {
        records(parts.drop_last())
    } else {
        records(parts.drop_last()).push(parts.last())
    }
}

/// The file names in the output of `git ls-files -z`, as bytes.
pub open spec fn file_records(files: Seq<u8>) -> Seq<Seq<u8>> {
    records(split_bytes(files, 0))
}

/// The first of `names` that is not UTF-8, or their number where all are.
pub open spec fn first_invalid(names: Seq<Seq<u8>>) -> int
    decreases names.len(),
{
    if names.len() == 0 || !valid_utf8(names[0]) {
        0
    } else {
        1 + first_invalid(names.skip(1))
    }
}

/// The error of a name that is not UTF-8.
pub open spec fn name_failure(name: Seq<u8>) -> IoErrorView {
    io_failure(IoErrorKind::InvalidData, utf8_error_text(name))
}

/// The file names in the output of `git ls-files -z`.
pub fn project_file_names(files: &[u8]) -> (r: Result<Vec<String>, IoError>)
    ensures
        match r {
            Ok(names) => {
                &&& first_invalid(file_records(files@)) == file_records(files@).len()
                &&& texts(names@) == file_records(files@).map_values(|b: Seq<u8>| decode_utf8(b))
            },
            Err(e) => {
                let at = first_invalid(file_records(files@));
                at < file_records(files@).len() && e@ == name_failure(file_records(files@)[at])
            },
        },
{
    let parts = split_at_byte(files, 0);
    let ghost all = split_bytes(files@, 0);
    let ghost wanted = file_records(files@);
    let mut names: Vec<String> = Vec::new();
    let mut i: usize = 0;
    proof {
        assert(all.take(0) =~= Seq::empty());
        assert(texts(names@) =~= records(all.take(0)).map_values(|b: Seq<u8>| decode_utf8(b)));
    }
    while i < parts.len()
        invariant
            i <= parts@.len(),
            all == parts_view(parts@),
            all == split_bytes(files@, 0),
            wanted == file_records(files@),
            texts(names@) == records(all.take(i as int)).map_values(|b: Seq<u8>| decode_utf8(b)),
            forall|j: int|
                0 <= j < records(all.take(i as int)).len() ==> valid_utf8(
                    #[trigger] records(all.take(i as int))[j],
                ),
        decreases parts@.len() - i,
    {
        let ghost seen = records(all.take(i as int));
        proof {
            assert(all.take(i + 1).drop_last() =~= all.take(i as int));
            assert(all[i as int] == parts@[i as int]@);
            assert(all.take(i + 1).last() == parts@[i as int]@);
        }
        if parts[i].len() > 0 {
            match utf8(parts[i].as_slice()) {
                Err(words) => {
                    proof {
                        let longer = records(all.take(i + 1));
                        lemma_records_prefix(all, i + 1);
                        assert(longer == seen.push(parts@[i as int]@));
                        assert(longer[seen.len() as int] == parts@[i as int]@);
                        assert(wanted[seen.len() as int] == longer[seen.len() as int]);
                        assert forall|j: int| 0 <= j < seen.len() implies valid_utf8(
                            #[trigger] wanted[j],
                        ) by {
                            assert(longer[j] == wanted[j]);
                            assert(longer[j] == seen[j]);
                        }
                        lemma_first_invalid(wanted, seen.len() as int);
                    }
                    return Err(IoError { kind: IoErrorKind::InvalidData, message: words });
                },
                Ok(name) => {
                    push_text(&mut names, &name);
                    proof {
                        assert(texts(names@) =~= records(all.take(i + 1)).map_values(
                            |b: Seq<u8>| decode_utf8(b),
                        ));
                    }
                },
            }
        }
        i = i + 1;
    }
    proof {
        assert(all.take(i as int) =~= all);
        lemma_first_invalid(wanted, wanted.len() as int);
    }
    Ok(names)
}

/// The records of the first parts are the first of all records.
proof fn lemma_records_prefix(parts: Seq<Seq<u8>>, n: int)
    requires
        0 <= n <= parts.len(),
    ensures
        records(parts.take(n)).len() <= records(parts).len(),
        forall|j: int|
            0 <= j < records(parts.take(n)).len() ==> #[trigger] records(parts.take(n))[j]
                == records(parts)[j],
    decreases parts.len(),
{
    if n == parts.len() {
        assert(parts.take(n) =~= parts);
    } else {
        let init = parts.drop_last();
        lemma_records_prefix(init, n);
        assert(init.take(n) =~= parts.take(n));
    }
}

proof fn lemma_first_invalid(names: Seq<Seq<u8>>, i: int)
    requires
        0 <= i <= names.len(),
        i < names.len() ==> !valid_utf8(names[i]),
        forall|j: int| 0 <= j < i ==> valid_utf8(#[trigger] names[j]),
    ensures
        first_invalid(names) == i,
    decreases names.len(),
{
    if i > 0 {
        assert(valid_utf8(names[0]));
        let rest = names.skip(1);
        assert forall|j: int| 0 <= j < i - 1 implies valid_utf8(#[trigger] rest[j]) by {
            assert(rest[j] == names[j + 1]);
        }
        lemma_first_invalid(rest, i - 1);
    }
}

/// The names among `names` that are present, each followed by a zero byte.
pub open spec fn existing_bytes(names: Seq<Seq<char>>, present: Seq<Seq<char>>) -> Seq<u8>
    decreases names.len(),
{
    if names.len() == 0 {
        Seq::empty()
    } else if present.contains(names.last()) {
        existing_bytes(names.drop_last(), present) + encode_utf8(names.last()) + seq![0u8]
    } else {
        existing_bytes(names.drop_last(), present)
    }
}

fn is_present(present: &Vec<String>, name: &str) -> (r: bool)
    ensures
        r == texts(present@).contains(name@),
{
    let ghost all = texts(present@);
    let mut i: usize = 0;
    while i < present.len()
        invariant
            i <= present@.len(),
            all == texts(present@),
            forall|j: int| 0 <= j < i ==> #[trigger] all[j] != name@,
        decreases present@.len() - i,
    {
        if same_text(&present[i], name) {
            proof {
                assert(all[i as int] == name@);
            }
            return true;
        }
        i = i + 1;
    }
    false
}

/// Keeps of the file names in the output of `git ls-files -z` those that are `present` in the
/// project directory, in the same form.
pub fn filter_existing_project_files(files: &[u8], present: &Vec<String>) -> (r: Result<
    Vec<u8>,
    IoError,
>)
    ensures
        match r {
            Ok(kept) => {
                &&& first_invalid(file_records(files@)) == file_records(files@).len()
                &&& kept@ == existing_bytes(
                    file_records(files@).map_values(|b: Seq<u8>| decode_utf8(b)),
                    texts(present@),
                )
            },
            Err(e) => {
                let at = first_invalid(file_records(files@));
                at < file_records(files@).len() && e@ == name_failure(file_records(files@)[at])
            },
        },
{
    let names = match project_file_names(files) {
        Ok(names) => names,
        Err(e) => {
            return Err(e);
        },
    };
    let ghost all = texts(names@);
    let mut kept: Vec<u8> = Vec::new();
    let mut i: usize = 0;
    proof {
        assert(all.take(0) =~= Seq::empty());
    }
    while i < names.len()
        invariant
            i <= names@.len(),
            all == texts(names@),
            kept@ == existing_bytes(all.take(i as int), texts(present@)),
        decreases names@.len() - i,
    {
        proof {
            assert(all.take(i + 1).drop_last() =~= all.take(i as int));
            assert(all.take(i + 1).last() == names@[i as int]@);
        }
        if is_present(present, &names[i]) {
            let ghost before = kept@;
            let mut bytes = bytes_of(&names[i]);
            kept.append(&mut bytes);
            kept.push(0u8);
            proof {
                assert(kept@ =~= before + encode_utf8(names@[i as int]@) + seq![0u8]);
            }
        }
        i = i + 1;
    }
    proof {
        assert(all.take(i as int) =~= all);
    }
    Ok(kept)
}

/// How far an upload has come.
#[derive(Debug, PartialEq, Eq)]
pub enum UploadPhase {
    ListFiles,
    /// Look which of these files are there.
    Filter(Vec<u8>),
    /// Start `tar` on these files.
    SpawnArchive(Vec<u8>),
    /// Start `ssh`; these files are still to be fed to `tar`.
    SpawnUpload(Vec<u8>),
    /// Feed these files to `tar`, and its output to `ssh`.
    Transfer(Vec<u8>),
    Await,
    /// Stop `tar`, then report the error.
    StopArchive(IoError),
    /// Stop `ssh` and `tar`, then report the error.
    StopBoth(IoError),
    Done,
    Failed(IoError),
}

/// How a process ended.
#[derive(Debug, PartialEq, Eq)]
pub struct ExitReport {
    pub success: bool,
    /// The exit status in words.
    pub status: String,
}

/// What came of the last step.
#[derive(Debug, PartialEq, Eq)]
pub enum UploadEvent {
    Listed(Result<CommandOutput, IoError>),
    /// The files that are there.
    Found(Vec<String>),
    ArchiveSpawned(Result<Pipes, IoError>),
    /// Whether the process takes input.
    UploadSpawned(Result<bool, IoError>),
    Transferred(Result<(), IoError>),
    Ended { ssh: ExitReport, archive: ExitReport },
    NotAwaited(IoError),
    Stopped,
}

/// Whether `phase` is this failure.
pub open spec fn upload_failed(phase: UploadPhase, e: IoErrorView) -> bool {
    phase matches UploadPhase::Failed(error) && error@ == e
}

/// Whether an upload moves from `phase` to `after` when `event` comes.
pub open spec fn upload_next(phase: UploadPhase, event: UploadEvent, after: UploadPhase) -> bool {
    match (phase, event) {
        (UploadPhase::ListFiles, UploadEvent::Listed(Err(e))) => after == UploadPhase::Failed(e),
        (UploadPhase::ListFiles, UploadEvent::Listed(Ok(output))) => if output.success {
            after == UploadPhase::Filter(output.stdout)
        } else {
            upload_failed(
                after,
                other_failure(
                    "cannot list project files: "@ + trimmed(lossy_text(output.stderr@)),
                ),
            )
        },
        (UploadPhase::Filter(files), UploadEvent::Found(present)) => {
            let names = file_records(files@);
            let at = first_invalid(names);
            if at < names.len() {
                upload_failed(after, name_failure(names[at]))
            } else {
                after matches UploadPhase::SpawnArchive(kept) && kept@ == existing_bytes(
                    names.map_values(|b: Seq<u8>| decode_utf8(b)),
                    texts(present@),
                )
            }
        },
        (UploadPhase::SpawnArchive(_), UploadEvent::ArchiveSpawned(Err(e))) => after
            == UploadPhase::Failed(e),
        (UploadPhase::SpawnArchive(files), UploadEvent::ArchiveSpawned(Ok(pipes))) => {
            if !pipes.stdin {
                after matches UploadPhase::StopArchive(e) && e@ == other_failure(
                    "tar standard input is unavailable"@,
                )
            } else if !pipes.stdout {
                after matches UploadPhase::StopArchive(e) && e@ == other_failure(
                    "tar standard output is unavailable"@,
                )
            } else {
                after == UploadPhase::SpawnUpload(files)
            }
        },
        (UploadPhase::SpawnUpload(_), UploadEvent::UploadSpawned(Err(e))) => after
            == UploadPhase::StopArchive(e),
        (UploadPhase::SpawnUpload(files), UploadEvent::UploadSpawned(Ok(has_stdin))) => {
            if has_stdin {
                after == UploadPhase::Transfer(files)
            } else {
                after matches UploadPhase::StopBoth(e) && e@ == other_failure(
                    "SSH standard input is unavailable"@,
                )
            }
        },
        (UploadPhase::Transfer(_), UploadEvent::Transferred(Ok(_))) => after is Await,
        (UploadPhase::Transfer(_), UploadEvent::Transferred(Err(e))) => after
            == UploadPhase::StopBoth(e),
        (UploadPhase::Await, UploadEvent::NotAwaited(e)) => after == UploadPhase::Failed(e),
        (UploadPhase::Await, UploadEvent::Ended { ssh, archive }) => if !ssh.success {
            upload_failed(after, other_failure("SSH project upload failed with "@ + ssh.status@))
        } else if !archive.success {
            upload_failed(after, other_failure("project archive failed with "@ + archive.status@))
        } else {
            after is Done
        },
        (UploadPhase::StopArchive(e), UploadEvent::Stopped) => after == UploadPhase::Failed(e),
        (UploadPhase::StopBoth(e), UploadEvent::Stopped) => after == UploadPhase::Failed(e),
        (phase, _) => after == phase,
    }
}

fn failed(head: &str, tail: &str) -> (r: UploadPhase)
    ensures
        upload_failed(r, other_failure(head@ + tail@)),
{
    UploadPhase::Failed(IoError { kind: IoErrorKind::Other, message: concat2(head, tail) })
}

/// Takes in what came of the last step.
pub fn upload_project_dir(phase: UploadPhase, event: UploadEvent) -> (r: UploadPhase)
    ensures
        upload_next(phase, event, r),
{
    match (phase, event) {
        (UploadPhase::ListFiles, UploadEvent::Listed(Err(e))) => UploadPhase::Failed(e),
        (UploadPhase::ListFiles, UploadEvent::Listed(Ok(output))) => {
            if output.success {
                UploadPhase::Filter(output.stdout)
            } else {
                let text = lossy(output.stderr.as_slice());
                let shown = trim(&text);
                failed("cannot list project files: ", &shown)
            }
        },
        (UploadPhase::Filter(files), UploadEvent::Found(present)) => {
            match filter_existing_project_files(files.as_slice(), &present) {
                Ok(kept) => UploadPhase::SpawnArchive(kept),
                Err(e) => UploadPhase::Failed(e),
            }
        },
        (UploadPhase::SpawnArchive(_), UploadEvent::ArchiveSpawned(Err(e))) => UploadPhase::Failed(e),
        (UploadPhase::SpawnArchive(files), UploadEvent::ArchiveSpawned(Ok(pipes))) => {
            if !pipes.stdin {
                UploadPhase::StopArchive(IoError::other("tar standard input is unavailable"))
            } else if !pipes.stdout {
                UploadPhase::StopArchive(IoError::other("tar standard output is unavailable"))
            } else {
                UploadPhase::SpawnUpload(files)
            }
        },
        (UploadPhase::SpawnUpload(_), UploadEvent::UploadSpawned(Err(e))) => {
            UploadPhase::StopArchive(e)
        },
        (UploadPhase::SpawnUpload(files), UploadEvent::UploadSpawned(Ok(has_stdin))) => {
            if has_stdin {
                UploadPhase::Transfer(files)
            } else {
                UploadPhase::StopBoth(IoError::other("SSH standard input is unavailable"))
            }
        },
        (UploadPhase::Transfer(_), UploadEvent::Transferred(Ok(_))) => UploadPhase::Await,
        (UploadPhase::Transfer(_), UploadEvent::Transferred(Err(e))) => UploadPhase::StopBoth(e),
        (UploadPhase::Await, UploadEvent::NotAwaited(e)) => UploadPhase::Failed(e),
        (UploadPhase::Await, UploadEvent::Ended { ssh, archive }) => {
            if !ssh.success {
                failed("SSH project upload failed with ", &ssh.status)
            } else if !archive.success {
                failed("project archive failed with ", &archive.status)
            } else {
                UploadPhase::Done
            }
        },
        (UploadPhase::StopArchive(e), UploadEvent::Stopped) => UploadPhase::Failed(e),
        (UploadPhase::StopBoth(e), UploadEvent::Stopped) => UploadPhase::Failed(e),
        (phase, _) => phase,
    }
}

/// An upload leaves no process running: once `tar` runs, a failure to go on stops it, and `ssh`
/// with it where that runs too, and what is reported then is that failure. An upload is done only
/// when both have ended successfully.
pub proof fn law_failed_uploads_stop_processes(
    phase: UploadPhase,
    event: UploadEvent,
    after: UploadPhase,
)
    requires
        upload_next(phase, event, after),
    ensures
        phase is SpawnUpload || phase is Transfer ==> !(after is Failed),
        phase is Transfer ==> !(after is StopArchive),
        phase is StopArchive && after is Failed ==> after == UploadPhase::Failed(
            phase->StopArchive_0,
        ),
        phase is StopBoth && after is Failed ==> after == UploadPhase::Failed(phase->StopBoth_0),
        after is Done && !(phase is Done) ==> phase is Await && (event matches UploadEvent::Ended {
            ssh,
            archive,
        } && ssh.success && archive.success),
{
}

/// The arguments for `git` that list the files of a project.
pub fn list_arguments(project_dir: &str) -> (r: Vec<String>)
    ensures
        texts(r@) == seq![
            "-C"@,
            project_dir@,
            "ls-files"@,
            "--cached"@,
            "--others"@,
            "--exclude-standard"@,
            "-z"@,
        ],
{
    let mut v: Vec<String> = Vec::new();
    push_text(&mut v, "-C");
    push_text(&mut v, project_dir);
    push_text(&mut v, "ls-files");
    push_text(&mut v, "--cached");
    push_text(&mut v, "--others");
    push_text(&mut v, "--exclude-standard");
    push_text(&mut v, "-z");
    proof {
        assert(texts(v@) =~= seq![
            "-C"@,
            project_dir@,
            "ls-files"@,
            "--cached"@,
            "--others"@,
            "--exclude-standard"@,
            "-z"@,
        ]);
    }
    v
}

/// The arguments for `tar` that pack the files it is told of.
pub fn archive_arguments(project_dir: &str) -> (r: Vec<String>)
    ensures
        texts(r@) == seq![
            "--no-xattrs"@,
            "-czf"@,
            "-"@,
            "-C"@,
            project_dir@,
            "--null"@,
            "-T"@,
            "-"@,
        ],
{
    let mut v: Vec<String> = Vec::new();
    push_text(&mut v, "--no-xattrs");
    push_text(&mut v, "-czf");
    push_text(&mut v, "-");
    push_text(&mut v, "-C");
    push_text(&mut v, project_dir);
    push_text(&mut v, "--null");
    push_text(&mut v, "-T");
    push_text(&mut v, "-");
    proof {
        assert(texts(v@) =~= seq![
            "--no-xattrs"@,
            "-czf"@,
            "-"@,
            "-C"@,
            project_dir@,
            "--null"@,
            "-T"@,
            "-"@,
        ]);
    }
    v
}

/// The arguments for `ssh` that unpack what it is fed.
pub fn upload_arguments(remote_server: &str, remote_project_dir: &str) -> (r: Vec<String>)
    ensures
        texts(r@) == seq![remote_server@, extract_text(remote_project_dir@)],
{
    let command = remote_extract_command(remote_project_dir);
    let mut v: Vec<String> = Vec::new();
    push_text(&mut v, remote_server);
    push_text(&mut v, &command);
    proof {
        assert(texts(v@) =~= seq![remote_server@, command@]);
    }
    v
}

} // verus!
