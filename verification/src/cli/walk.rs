//! Walking a directory tree.

use vstd::prelude::*;

use crate::cli::list::{OutputLine, OUTPUT_FLUSH_INTERVAL};
use crate::components::{
    components_of, is_descendant, law_join_appends_components, lead, leads_down, steps,
};
use crate::io_error::{io_failure, IoError, IoErrorKind, IoErrorView};
use crate::text::{concat2, split_on};
use crate::unix_path::{join, joined};

verus! {

/// The error of a path that is not.
pub open spec fn descendant_failure() -> IoErrorView {
    io_failure(IoErrorKind::InvalidData, "walk returned an invalid relative path"@)
}

/// The path of the descendant `relative_path` of `root`.
pub fn descendant_path(root: &str, relative_path: &str) -> (r: Result<String, IoError>)
    ensures
        match r {
            Ok(path) => is_descendant(relative_path@) && path@ == joined(root@, relative_path@),
            Err(e) => !is_descendant(relative_path@) && e@ == descendant_failure(),
        },
{
    if !leads_down(relative_path) {
        return Err(
            IoError::new(IoErrorKind::InvalidData, "walk returned an invalid relative path"),
        );
    }
    Ok(join(root, relative_path))
}

/// Accepted paths stay below the root that was asked for: the components of the result are those
/// of the root, followed by steps down.
pub proof fn law_descendants_stay_below_the_root(root: Seq<char>, relative_path: Seq<char>)
    requires
        root.len() > 0,
        is_descendant(relative_path),
    ensures
        components_of(joined(root, relative_path)) == components_of(root) + components_of(
            relative_path,
        ),
        forall|i: int|
            components_of(root).len() <= i < components_of(joined(root, relative_path)).len() ==> (
            #[trigger] components_of(joined(root, relative_path))[i]) is Normal,
{
    law_join_appends_components(root, relative_path);
    let parts = components_of(relative_path);
    let after = steps(split_on(relative_path, '/'));
    if lead(relative_path).len() > 0 {
        assert(parts[0] is Normal);
        assert(parts[0] == lead(relative_path)[0]);
    }
    assert(parts =~= after);
    let all = components_of(joined(root, relative_path));
    assert forall|i: int| components_of(root).len() <= i < all.len() implies (
    #[trigger] all[i]) is Normal by {
        assert(all[i] == parts[i - components_of(root).len()]);
    }
}

/// How much was walked.
#[derive(Clone, Copy, Debug, PartialEq, Eq, Structural)]
pub struct WalkStats {
    pub entries: u64,
}

impl WalkStats {
    /// Nothing yet.
    pub fn new() -> (r: Self)
        ensures
            r.entries == 0,
    {
        WalkStats { entries: 0 }
    }

    /// Takes in the next item of the walk: the line to write for an entry, or the error that ends
    /// the walk.
    pub fn write_walk(&mut self, root: &str, item: Result<&str, IoError>) -> (r: Result<
        OutputLine,
        IoError,
    >)
        requires
            old(self).entries < u64::MAX,
        ensures
            match item {
                Err(e) => r == Err::<OutputLine, IoError>(e) && *final(self) == *old(self),
                Ok(path) => if is_descendant(path@) {
                    &&& final(self).entries == old(self).entries + 1
                    &&& r matches Ok(line) && line.text@ == joined(root@, path@) + "\n"@
                        && line.flush == (final(self).entries % OUTPUT_FLUSH_INTERVAL == 0)
                } else {
                    &&& *final(self) == *old(self)
                    &&& r matches Err(e) && e@ == descendant_failure()
                },
            },
    {
        let relative = match item {
            Err(e) => {
                return Err(e);
            },
            Ok(relative) => relative,
        };
        let path = match descendant_path(root, relative) {
            Err(e) => {
                return Err(e);
            },
            Ok(path) => path,
        };
        self.entries = self.entries + 1;
        Ok(
            OutputLine {
                text: concat2(&path, "\n"),
                flush: self.entries % OUTPUT_FLUSH_INTERVAL == 0,
            },
        )
    }
}

/// The rate of `entries` in `elapsed_nanos` nanoseconds; nothing where no time has passed.
pub fn entries_per_second(entries: u64, elapsed_nanos: u128) -> (r: u128)
    ensures
        r == (if elapsed_nanos == 0 {
            0
        } else {
            entries as int * 1_000_000_000 / elapsed_nanos as int
        }),
{
    if elapsed_nanos == 0 {
        0
    } else {
        (entries as u128) * 1_000_000_000 / elapsed_nanos
    }
}

} // verus!
