//! Listing a directory.

use vstd::prelude::*;

use crate::components::{components, components_of, PathComponent};
use crate::io_error::{io_failure, IoError, IoErrorKind, IoErrorView};
use crate::protocol::{debug_str, debug_text};
use crate::text::concat2;
use crate::unix_path::{join, joined};

verus! {

/// After how many entries the output is flushed.
pub const OUTPUT_FLUSH_INTERVAL: u64 = 1024;

/// Whether `name` makes exactly one step down.
pub open spec fn is_child_name(name: Seq<char>) -> bool {
    components_of(name).len() == 1 && components_of(name)[0] is Normal
}

/// The error of a name that does not.
pub open spec fn child_name_failure(name: Seq<char>) -> IoErrorView {
    io_failure(
        IoErrorKind::InvalidData,
        "server returned an invalid child name: "@ + debug_text(name),
    )
}

/// The path of the entry `name` of `parent`.
pub fn child_path(parent: &str, name: &str) -> (r: Result<String, IoError>)
    ensures
        match r {
            Ok(path) => is_child_name(name@) && path@ == joined(parent@, name@),
            Err(e) => !is_child_name(name@) && e@ == child_name_failure(name@),
        },
{
    let parts = components(name);
    let ghost all = components_of(name@);
    proof {
        assert(all.len() == parts@.len());
        if all.len() == 1 {
            assert(all[0] == parts@[0]@);
        }
    }
    let valid = parts.len() == 1 && matches!(parts[0], PathComponent::Normal(_));
    if !valid {
        let shown = debug_str(name);
        return Err(
            IoError {
                kind: IoErrorKind::InvalidData,
                message: concat2("server returned an invalid child name: ", &shown),
            },
        );
    }
    Ok(join(parent, name))
}

/// How much was listed.
#[derive(Clone, Copy, Debug, PartialEq, Eq, Structural)]
pub struct ListStats {
    pub entries: u64,
}

/// A line to write, and whether to flush behind it.
#[derive(Debug, PartialEq, Eq)]
pub struct OutputLine {
    pub text: String,
    pub flush: bool,
}

impl ListStats {
    /// Nothing yet.
    pub fn new() -> (r: Self)
        ensures
            r.entries == 0,
    {
        ListStats { entries: 0 }
    }

    /// Takes in the next item of the listing: the line to write for an entry, or the error that
    /// ends the listing.
    pub fn write_listing(&mut self, parent: &str, item: Result<&str, IoError>) -> (r: Result<
        OutputLine,
        IoError,
    >)
        requires
            old(self).entries < u64::MAX,
        ensures
            match item {
                Err(e) => r == Err::<OutputLine, IoError>(e) && *final(self) == *old(self),
                Ok(name) => if is_child_name(name@) {
                    &&& final(self).entries == old(self).entries + 1
                    &&& r matches Ok(line) && line.text@ == joined(parent@, name@) + "\n"@
                        && line.flush == (final(self).entries % OUTPUT_FLUSH_INTERVAL == 0)
                } else {
                    &&& *final(self) == *old(self)
                    &&& r matches Err(e) && e@ == child_name_failure(name@)
                },
            },
    {
        let name = match item {
            Err(e) => {
                return Err(e);
            },
            Ok(name) => name,
        };
        let path = match child_path(parent, name) {
            Err(e) => {
                return Err(e);
            },
            Ok(path) => path,
        };
        self.entries = self.entries + 1;
        Ok(
            OutputLine {
                text: concat2(&path, "\n"),
                flush: self.entries % OUTPUT_FLUSH_INTERVAL == 0,
            },
        )
    }
}

/// What a run that used a session reports: its own failure, or else that of closing the session.
pub fn finish_run(result: Result<(), IoError>, shutdown: Result<(), String>) -> (r: Result<(), IoError>)
    ensures
        match (result, shutdown) {
            (Err(e), _) => r == Err::<(), IoError>(e),
            (Ok(_), Err(words)) => r matches Err(e) && e@ == io_failure(IoErrorKind::Other, words@),
            (Ok(_), Ok(_)) => r is Ok,
        },
{
    match result {
        Err(e) => Err(e),
        Ok(_) => match shutdown {
            Err(words) => Err(IoError { kind: IoErrorKind::Other, message: words }),
            Ok(_) => Ok(()),
        },
    }
}

} // verus!
