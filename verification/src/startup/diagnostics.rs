//! What processes print while they start and run: how much of it is kept, how it is logged, and
//! how it is added to errors.

use vstd::prelude::*;
use vstd::utf8::encode_utf8;

use crate::api::{failure, ErrorClass, ErrorView, FilePeekerError};
use crate::bytes::{bytes_of, copy_range, lossy, lossy_text};
use crate::text::{concat2, concat3, concat4, trim, trimmed};

verus! {

/// How many bytes of a process's output are kept for errors.
pub const DIAGNOSTIC_LIMIT: usize = 65536;

/// The first `limit` elements of `all`, or all of them.
pub open spec fn bounded(all: Seq<u8>, limit: nat) -> Seq<u8> {
    if all.len() <= limit {
        all
    } else {
        all.take(limit as int)
    }
}

/// Output of which only the first part is kept.
#[derive(Debug, PartialEq, Eq)]
pub struct BoundedOutput {
    pub bytes: Vec<u8>,
    pub truncated: bool,
}

impl BoundedOutput {
    /// Whether this is what is kept of `all` under `limit`.
    pub open spec fn keeps(self, all: Seq<u8>, limit: nat) -> bool {
        &&& self.bytes@ == bounded(all, limit)
        &&& self.truncated == (all.len() > limit)
    }

    /// Nothing yet.
    pub fn new() -> (r: Self)
        ensures
            forall|limit: nat| r.keeps(Seq::empty(), limit),
    {
        BoundedOutput { bytes: Vec::new(), truncated: false }
    }

    /// How many more bytes are kept.
    pub open spec fn room(self, limit: nat) -> nat {
        if self.bytes@.len() < limit {
            (limit - self.bytes@.len()) as nat
        } else {
            0
        }
    }

    /// Takes in the next `chunk` of the output.
    pub fn absorb(&mut self, chunk: &[u8], limit: usize)
        ensures
            final(self).bytes@ == old(self).bytes@ + bounded(chunk@, old(self).room(limit as nat)),
            final(self).truncated == (old(self).truncated || chunk@.len() > old(self).room(
                limit as nat,
            )),
            forall|all: Seq<u8>|
                old(self).keeps(all, limit as nat) ==> #[trigger] final(self).keeps(
                    all + chunk@,
                    limit as nat,
                ),
    {
        let ghost before = self.bytes@;
        let len: usize = self.bytes.len();
        let remaining: usize = if len < limit {
            limit - len
        } else {
            0
        };
        let count: usize = chunk.len();
        let retained: usize = if remaining < count {
            remaining
        } else {
            count
        };
        let mut kept = copy_range(chunk, 0, retained);
        proof {
            assert(kept@ =~= bounded(chunk@, remaining as nat));
        }
        self.bytes.append(&mut kept);
        if retained < count {
            self.truncated = true;
        }
        proof {
            assert forall|all: Seq<u8>| old(self).keeps(all, limit as nat) implies #[trigger] self.keeps(
                all + chunk@,
                limit as nat,
            ) by {
                assert(self.bytes@ =~= bounded(all + chunk@, limit as nat));
            }
        }
    }
}

/// The line that announces an event in a log.
pub open spec fn event_line(message: Seq<char>) -> Seq<char> {
    "["@ + message + "]\n"@
}

/// The line that announces an event in a log.
pub fn log_event(message: &str) -> (r: String)
    ensures
        r@ == event_line(message@),
{
    concat3("[", message, "]\n")
}

/// Whether `bytes` end in a line feed.
pub open spec fn ends_line(bytes: Seq<u8>) -> bool {
    bytes.len() > 0 && bytes.last() == 10u8
}

/// Whether `bytes` end in a line feed.
pub fn is_line_ended(bytes: &[u8]) -> (r: bool)
    ensures
        r == ends_line(bytes@),
{
    bytes.len() > 0 && bytes[bytes.len() - 1] == 10u8
}

/// A labelled block of output as it is logged: nothing for no output, else the label, the output
/// and, where the output does not end its line, a line feed.
pub open spec fn log_block(label: Seq<char>, bytes: Seq<u8>) -> Seq<u8> {
    if bytes.len() == 0 {
        Seq::empty()
    } else if ends_line(bytes) {
        encode_utf8(event_line(label)) + bytes
    } else {
        encode_utf8(event_line(label)) + bytes + seq![10u8]
    }
}

/// What is appended to a log for `bytes` printed under `label`.
pub fn append_log_bytes(label: &str, bytes: &[u8]) -> (r: Vec<u8>)
    ensures
        r@ == log_block(label@, bytes@),
{
    if bytes.len() == 0 {
        return Vec::new();
    }
    let head = log_event(label);
    let mut out = bytes_of(&head);
    let mut body = copy_range(bytes, 0, bytes.len());
    proof {
        assert(body@ =~= bytes@);
    }
    out.append(&mut body);
    if !is_line_ended(bytes) {
        out.push(10u8);
        proof {
            assert(out@ =~= log_block(label@, bytes@));
        }
    }
    out
}

/// The line feed that closes the log of a stream of which `retained` was kept, where it is owed.
pub fn log_closing(retained: &[u8]) -> (r: Vec<u8>)
    ensures
        r@ == (if ends_line(retained@) {
            Seq::<u8>::empty()
        } else {
            seq![10u8]
        }),
{
    let mut out: Vec<u8> = Vec::new();
    if !is_line_ended(retained) {
        out.push(10u8);
    }
    proof {
        assert(out@ =~= (if ends_line(retained@) {
            Seq::<u8>::empty()
        } else {
            seq![10u8]
        }));
    }
    out
}

/// `e` with `suffix` behind its text, if it is about a server's start or exit.
pub open spec fn with_suffix(e: ErrorView, suffix: Seq<char>) -> ErrorView {
    if e.class == ErrorClass::ServerStart || e.class == ErrorClass::ServerExited {
        failure(e.class, e.message + suffix)
    } else {
        e
    }
}

/// What is added to an error about the process `source` that printed `bytes`.
pub open spec fn stderr_suffix(source: Seq<char>, bytes: Seq<u8>) -> Seq<char> {
    "; "@ + source + " stderr: "@ + trimmed(lossy_text(bytes))
}

/// `e` with what the process `source` printed, if it printed anything.
pub open spec fn with_stderr(e: ErrorView, source: Seq<char>, stderr: Option<Seq<u8>>) -> ErrorView {
    match stderr {
        Some(bytes) => if bytes.len() > 0 {
            with_suffix(e, stderr_suffix(source, bytes))
        } else {
            e
        },
        None => e,
    }
}

/// The bytes behind `stderr`, if there are any.
pub open spec fn bytes_view(stderr: Option<&[u8]>) -> Option<Seq<u8>> {
    match stderr {
        Some(bytes) => Some(bytes@),
        None => None,
    }
}

/// Puts `suffix` behind the text of an error about a server's start or exit.
pub fn add_suffix(error: FilePeekerError, suffix: &str) -> (r: FilePeekerError)
    ensures
        r@ == with_suffix(error@, suffix@),
{
    match error {
        FilePeekerError::ServerStart { message } => FilePeekerError::ServerStart {
            message: concat2(&message, suffix),
        },
        FilePeekerError::ServerExited { message } => FilePeekerError::ServerExited {
            message: concat2(&message, suffix),
        },
        other => other,
    }
}

/// Adds what the process `source` printed to an error about a server's start or exit.
pub fn add_named_stderr_context(
    error: FilePeekerError,
    source: &str,
    stderr: Option<&[u8]>,
) -> (r: FilePeekerError)
    ensures
        r@ == with_stderr(error@, source@, bytes_view(stderr)),
{
    match stderr {
        Some(bytes) => {
            if bytes.len() == 0 {
                return error;
            }
            let text = lossy(bytes);
            let shown = trim(&text);
            let suffix = concat4("; ", source, " stderr: ", &shown);
            add_suffix(error, &suffix)
        },
        None => error,
    }
}

/// Adds what the server printed to an error about its start or exit.
pub fn add_stderr_context(error: FilePeekerError, stderr: Option<&[u8]>) -> (r: FilePeekerError)
    ensures
        r@ == with_stderr(error@, "server"@, bytes_view(stderr)),
{
    add_named_stderr_context(error, "server", stderr)
}

/// The error of a server that ended with `status` on its own.
pub fn server_exited_error(status: &str, stderr: Option<&[u8]>) -> (r: FilePeekerError)
    ensures
        r@ == with_stderr(
            failure(ErrorClass::ServerExited, "server exited with "@ + status@),
            "server"@,
            bytes_view(stderr),
        ),
{
    add_stderr_context(
        FilePeekerError::ServerExited { message: concat2("server exited with ", status) },
        stderr,
    )
}

} // verus!
