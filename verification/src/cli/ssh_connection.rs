//! Trying an SSH connection.

use vstd::prelude::*;

use crate::shell::{quote_body, quoted_body};
use crate::text::{concat3, lines, lines_of};

verus! {

/// The commands that make the other machine answer and leave.
pub open spec fn probe_text(destination: Seq<char>) -> Seq<char> {
    "echo 'Connect to "@ + quoted_body(destination) + "'\nexit\n"@
}

/// The commands that make the other machine answer and leave.
pub fn probe_command(destination: &str) -> (r: String)
    ensures
        r@ == probe_text(destination@),
{
    let body = quote_body(destination);
    concat3("echo 'Connect to ", &body, "'\nexit\n")
}

/// The last line of the answer, if there is one.
pub fn last_line(output: &str) -> (r: Option<String>)
    ensures
        match r {
            Some(line) => lines_of(output@).len() > 0 && line@ == lines_of(output@).last(),
            None => lines_of(output@).len() == 0,
        },
{
    let found = lines(output);
    let ghost all = lines_of(output@);
    proof {
        assert(all.len() == found@.len());
    }
    let count: usize = found.len();
    if count == 0 {
        return None;
    }
    proof {
        assert(found@[count - 1]@ == all[count - 1]);
    }
    Some(found[count - 1].clone())
}

} // verus!
