//! The files that a session keeps below the home directory while it runs.

use vstd::prelude::*;
use vstd::utf8::encode_utf8;

use crate::api::{failure, ErrorClass, ErrorView, FilePeekerError};
use crate::ids::{is_simple_uuid, lemma_uuid_is_plain, random_simple_id};
use crate::text::{concat2, concat3, concat5, contains_char, decimal, decimal_text, text_of};
use crate::unix_path::{is_absolute, is_absolute_path, is_plain_name, join, joined};

verus! {

/// The longest path of a Unix socket that every supported system takes.
pub const MAX_SOCKET_PATH_BYTES: usize = 100;

/// How many session logs are kept, the current one among them.
pub const RETAINED_LOGS: usize = 10;

/// An error about starting the server.
pub open spec fn start_failure(message: Seq<char>) -> ErrorView {
    failure(ErrorClass::ServerStart, message)
}

/// What is wrong with `path` as the path of a socket that SSH forwards, if anything.
pub open spec fn socket_path_error(path: Seq<char>) -> Option<ErrorView> {
    if encode_utf8(path).len() > MAX_SOCKET_PATH_BYTES {
        Some(
            start_failure(
                "Unix socket path `"@ + path + "` is "@ + decimal_text(encode_utf8(path).len())
                    + " bytes; maximum supported length is "@ + decimal_text(
                    MAX_SOCKET_PATH_BYTES as nat,
                ),
            ),
        )
    } else if path.contains(':') {
        Some(
            start_failure(
                "Unix socket path `"@ + path
                    + "` contains `:`, which SSH StreamLocal forwarding cannot encode"@,
            ),
        )
    } else {
        None
    }
}

/// Accepts the path of a socket that SSH can forward.
pub fn validate_socket_path(path: &str) -> (r: Result<(), FilePeekerError>)
    ensures
        match r {
            Ok(_) => socket_path_error(path@) is None,
            Err(e) => socket_path_error(path@) == Some(e@),
        },
{
    let length: usize = path.as_bytes().len();
    if length > MAX_SOCKET_PATH_BYTES {
        let shown = decimal(length as u64);
        let limit = decimal(MAX_SOCKET_PATH_BYTES as u64);
        let head = concat5(
            "Unix socket path `",
            path,
            "` is ",
            &shown,
            " bytes; maximum supported length is ",
        );
        return Err(FilePeekerError::ServerStart { message: concat2(&head, &limit) });
    }
    if contains_char(path, ':') {
        return Err(
            FilePeekerError::ServerStart {
                message: concat3(
                    "Unix socket path `",
                    path,
                    "` contains `:`, which SSH StreamLocal forwarding cannot encode",
                ),
            },
        );
    }
    Ok(())
}

/// What is wrong with `home` as the home directory that `HOME` names, if anything.
pub open spec fn home_error(home: Option<Seq<char>>) -> Option<ErrorView> {
    match home {
        None => Some(start_failure("HOME is required to create file-peeker runtime files"@)),
        Some(path) => if is_absolute_path(path) {
            None
        } else {
            Some(start_failure("HOME must be an absolute path"@))
        },
    }
}

/// The home directory, given the value of `HOME`.
pub fn home_directory(home: Option<String>) -> (r: Result<String, FilePeekerError>)
    ensures
        match r {
            Ok(path) => home_error(text_of(home)) is None && home == Some(path),
            Err(e) => home_error(text_of(home)) == Some(e@),
        },
{
    match home {
        None => Err(
            FilePeekerError::ServerStart {
                message: "HOME is required to create file-peeker runtime files".to_owned(),
            },
        ),
        Some(path) => {
            if is_absolute(&path) {
                Ok(path)
            } else {
                Err(
                    FilePeekerError::ServerStart {
                        message: "HOME must be an absolute path".to_owned(),
                    },
                )
            }
        },
    }
}

/// The files of one session.
#[derive(Debug, PartialEq, Eq)]
pub struct SessionDirectory {
    path: String,
    id: String,
    log_path: String,
}

/// The directory that holds everything below the home directory.
pub open spec fn root_path(home: Seq<char>) -> Seq<char> {
    joined(home, ".file-peeker"@)
}

/// The directory that holds the directories of running sessions.
pub open spec fn run_path(home: Seq<char>) -> Seq<char> {
    joined(root_path(home), "run"@)
}

/// The directory that holds the session logs.
pub open spec fn logs_path(home: Seq<char>) -> Seq<char> {
    joined(root_path(home), "logs"@)
}

impl SessionDirectory {
    /// The directory itself.
    pub closed spec fn spec_path(self) -> Seq<char> {
        self.path@
    }

    /// The name that tells the session from others.
    pub closed spec fn spec_id(self) -> Seq<char> {
        self.id@
    }

    /// The session's log.
    pub closed spec fn spec_log_path(self) -> Seq<char> {
        self.log_path@
    }

    /// A session is named so that its files can bear its name.
    #[verifier::type_invariant]
    pub open spec fn is_named(self) -> bool {
        is_plain_name(self.spec_id())
    }

    /// Whether these are the files of the session `id` below `home`.
    pub open spec fn belongs(self, home: Seq<char>, id: Seq<char>) -> bool {
        &&& self.spec_id() == id
        &&& self.spec_path() == joined(run_path(home), id)
        &&& self.spec_log_path() == joined(logs_path(home), id + ".log"@)
    }

    /// The files of a session with a random name below `home`.
    pub fn create(home: &str) -> (r: Self)
        ensures
            r.belongs(home@, r.spec_id()),
            is_simple_uuid(r.spec_id()),
    {
        let id = random_simple_id();
        proof {
            lemma_uuid_is_plain(id@);
        }
        SessionDirectory::locate(home, &id)
    }

    /// The files of the session `id` below `home`.
    pub fn locate(home: &str, id: &str) -> (r: Self)
        requires
            is_plain_name(id@),
        ensures
            r.belongs(home@, id@),
    {
        let root = join(home, ".file-peeker");
        let run = join(&root, "run");
        let logs = join(&root, "logs");
        let log_name = concat2(id, ".log");
        SessionDirectory {
            path: join(&run, id),
            id: id.to_owned(),
            log_path: join(&logs, &log_name),
        }
    }

    /// The directory itself.
    pub fn path(&self) -> (r: &str)
        ensures
            r@ == self.spec_path(),
    {
        &self.path
    }

    /// The name that tells the session from others.
    pub fn id(&self) -> (r: &str)
        ensures
            r@ == self.spec_id(),
    {
        &self.id
    }

    /// The session's log.
    pub fn log_path(&self) -> (r: &str)
        ensures
            r@ == self.spec_log_path(),
    {
        &self.log_path
    }

    /// The socket that the server listens on.
    pub fn socket_path(&self) -> (r: String)
        ensures
            r@ == joined(self.spec_path(), "server.sock"@),
    {
        join(&self.path, "server.sock")
    }

    /// The socket of the SSH control master.
    pub fn control_socket_path(&self) -> (r: String)
        ensures
            r@ == joined(self.spec_path(), "cm.sock"@),
    {
        join(&self.path, "cm.sock")
    }
}

} // verus!
