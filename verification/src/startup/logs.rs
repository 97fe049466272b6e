//! Which session logs have to go.

use vstd::prelude::*;

use crate::startup::runtime::RETAINED_LOGS;
use crate::text::{chars_of, same_text};

verus! {

/// One file beside the current log.
#[derive(Debug, PartialEq, Eq)]
pub struct LogFile {
    pub name: String,
    pub is_file: bool,
    /// When the file was changed last, in nanoseconds from a fixed moment, where that is known.
    pub modified: Option<i128>,
}

/// Whether `c` is a hexadecimal digit.
pub open spec fn is_hex(c: char) -> bool {
    '0' <= c <= '9' || 'a' <= c <= 'f' || 'A' <= c <= 'F'
}

/// Whether a file of this name is a session log: 32 hexadecimal digits before `.log`.
pub open spec fn is_log_name(name: Seq<char>) -> bool {
    &&& name.len() == 36
    &&& forall|i: int| 0 <= i < 32 ==> is_hex(#[trigger] name[i])
    &&& name[32] == '.'
    &&& name[33] == 'l'
    &&& name[34] == 'o'
    &&& name[35] == 'g'
}

/// Whether a file of this name is a session log.
pub fn names_log(name: &str) -> (r: bool)
    ensures
        r == is_log_name(name@),
{
    let chars = chars_of(name);
    if chars.len() != 36 {
        return false;
    }
    let mut i: usize = 0;
    while i < 32
        invariant
            i <= 32,
            chars@.len() == 36,
            chars@ == name@,
            forall|j: int| 0 <= j < i ==> is_hex(#[trigger] name@[j]),
        decreases 32 - i,
    {
        let c = chars[i];
        if !(('0' <= c && c <= '9') || ('a' <= c && c <= 'f') || ('A' <= c && c <= 'F')) {
            proof {
                assert(!is_hex(name@[i as int]));
            }
            return false;
        }
        i = i + 1;
    }
    chars[32] == '.' && chars[33] == 'l' && chars[34] == 'o' && chars[35] == 'g'
}

/// Whether the `i`th file is an earlier session's log that can be dated.
pub open spec fn is_old_log(files: Seq<LogFile>, current: Seq<char>, i: int) -> bool {
    &&& 0 <= i < files.len()
    &&& files[i].name@ != current
    &&& files[i].is_file
    &&& is_log_name(files[i].name@)
    &&& files[i].modified is Some
}

/// Whether file `i` was changed before file `j`; of files changed at the same moment, the one
/// listed first counts as the older.
pub open spec fn is_older(files: Seq<LogFile>, i: int, j: int) -> bool {
    let a = files[i].modified->Some_0;
    let b = files[j].modified->Some_0;
    a < b || (a == b && i < j)
}

/// Whether `order` holds every earlier session's log once, the oldest first.
pub open spec fn is_age_order(files: Seq<LogFile>, current: Seq<char>, order: Seq<usize>) -> bool {
    &&& forall|k: int| 0 <= k < order.len() ==> is_old_log(files, current, #[trigger] order[k] as int)
    &&& forall|i: int| #[trigger] is_old_log(files, current, i) ==> order.contains(i as usize)
    &&& forall|k: int, l: int|
        0 <= k < l < order.len() ==> is_older(
            files,
            #[trigger] order[k] as int,
            #[trigger] order[l] as int,
        )
}

/// The earlier sessions' logs, the oldest first.
fn age_order(files: &Vec<LogFile>, current: &str) -> (order: Vec<usize>)
    ensures
        is_age_order(files@, current@, order@),
{
    let mut order: Vec<usize> = Vec::new();
    let mut i: usize = 0;
    while i < files.len()
        invariant
            i <= files@.len(),
            forall|k: int|
                0 <= k < order@.len() ==> is_old_log(files@, current@, #[trigger] order@[k] as int)
                    && order@[k] < i,
            forall|j: int|
                0 <= j < i && #[trigger] is_old_log(files@, current@, j) ==> order@.contains(
                    j as usize,
                ),
            forall|k: int, l: int|
                0 <= k < l < order@.len() ==> is_older(
                    files@,
                    #[trigger] order@[k] as int,
                    #[trigger] order@[l] as int,
                ),
        decreases files@.len() - i,
    {
        let file = &files[i];
        if let Some(modified) = file.modified {
            if !same_text(&file.name, current) && file.is_file && names_log(&file.name) {
                proof {
                    assert(is_old_log(files@, current@, i as int));
                }
                let ghost before = order@;
                let mut at: usize = order.len();
                while at > 0 && later(files, order[at - 1], modified)
                    invariant
                        at <= order@.len(),
                        order@ == before,
                        forall|k: int|
                            0 <= k < order@.len() ==> (#[trigger] order@[k]) < files@.len()
                                && files@[order@[k] as int].modified is Some,
                        forall|k: int|
                            at <= k < order@.len() ==> files@[(
                            #[trigger] order@[k]) as int].modified->Some_0 > modified,
                    ensures
                        at <= order@.len(),
                        order@ == before,
                        forall|k: int|
                            at <= k < order@.len() ==> files@[(
                            #[trigger] order@[k]) as int].modified->Some_0 > modified,
                        at > 0 ==> files@[order@[at - 1] as int].modified->Some_0 <= modified,
                    decreases at,
                {
                    at = at - 1;
                }
                order.insert(at, i);
                proof {
                    let after = order@;
                    assert(after == before.insert(at as int, i));
                    assert forall|k: int| 0 <= k < after.len() implies is_old_log(
                        files@,
                        current@,
                        #[trigger] after[k] as int,
                    ) && after[k] < i + 1 by {
                        if k < at {
                            assert(after[k] == before[k]);
                        } else if k > at {
                            assert(after[k] == before[k - 1]);
                        }
                    }
                    assert forall|j: int|
                        0 <= j < i + 1 && #[trigger] is_old_log(
                            files@,
                            current@,
                            j,
                        ) implies after.contains(j as usize) by {
                        if j == i {
                            assert(after[at as int] == i);
                        } else {
                            assert(before.contains(j as usize));
                            let k = choose|k: int| 0 <= k < before.len() && before[k] == j as usize;
                            if k < at {
                                assert(after[k] == before[k]);
                            } else {
                                assert(after[k + 1] == before[k]);
                            }
                        }
                    }
                    assert forall|k: int, l: int| 0 <= k < l < after.len() implies is_older(
                        files@,
                        #[trigger] after[k] as int,
                        #[trigger] after[l] as int,
                    ) by {
                        let k0 = if k < at {
                            k
                        } else {
                            k - 1
                        };
                        let l0 = if l < at {
                            l
                        } else {
                            l - 1
                        };
                        if k == at {
                            assert(after[l] == before[l0]);
                        } else if l == at {
                            assert(after[k] == before[k0]);
                            if k < at - 1 {
                                assert(is_older(
                                    files@,
                                    before[k] as int,
                                    before[at - 1] as int,
                                ));
                            }
                        } else {
                            assert(after[k] == before[k0]);
                            assert(after[l] == before[l0]);
                        }
                    }
                }
            }
        }
        i = i + 1;
    }
    order
}

/// Whether the file `index` was changed after `modified`.
fn later(files: &Vec<LogFile>, index: usize, modified: i128) -> (r: bool)
    requires
        index < files@.len(),
        files@[index as int].modified is Some,
    ensures
        r == (files@[index as int].modified->Some_0 > modified),
{
    match files[index].modified {
        Some(at) => at > modified,
        None => false,
    }
}

/// Chooses the logs to remove so that, with the current one, no more than [`RETAINED_LOGS`]
/// remain: the oldest go first.
pub fn rotate_logs(files: &Vec<LogFile>, current: &str) -> (r: Vec<usize>)
    ensures
        exists|order: Seq<usize>| #[trigger]
            is_age_order(files@, current@, order) && r@ == order.take(
                if order.len() < RETAINED_LOGS {
                    0
                } else {
                    order.len() - (RETAINED_LOGS - 1)
                },
            ),
{
    let mut order = age_order(files, current);
    let ghost all = order@;
    let count: usize = if order.len() < RETAINED_LOGS {
        0
    } else {
        order.len() - (RETAINED_LOGS - 1)
    };
    order.truncate(count);
    proof {
        assert(order@ =~= all.take(count as int));
        assert(is_age_order(files@, current@, all));
    }
    order
}

/// Of the logs in order of age, rotation leaves fewer than [`RETAINED_LOGS`], and each one that
/// it leaves is younger than each one that it takes.
pub proof fn law_rotation_keeps_the_newest(
    files: Seq<LogFile>,
    current: Seq<char>,
    order: Seq<usize>,
    removed: int,
)
    requires
        is_age_order(files, current, order),
        removed == (if order.len() < RETAINED_LOGS {
            0
        } else {
            order.len() - (RETAINED_LOGS - 1)
        }),
    ensures
        order.len() - removed < RETAINED_LOGS,
        forall|k: int, l: int|
            0 <= k < removed <= l < order.len() ==> is_older(
                files,
                #[trigger] order[k] as int,
                #[trigger] order[l] as int,
            ),
{
}

} // verus!
