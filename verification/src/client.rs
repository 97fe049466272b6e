//! The client: the owner of independent sessions.

use vstd::prelude::*;

use crate::ids::{is_hyphenated_uuid, random_hyphenated_id};
use crate::session::{SessionShutdownError, SessionStartError};
use crate::text::{concat2, same_text};

verus! {

/// Failure to close one of a client's sessions.
#[derive(Debug, PartialEq, Eq)]
pub enum ClientCloseSessionError {
    NotFound { id: String },
    Backend { message: String },
}

impl From<SessionShutdownError> for ClientCloseSessionError {
    fn from(error: SessionShutdownError) -> (r: Self) {
        match error {
            SessionShutdownError::Backend { message } => ClientCloseSessionError::Backend { message },
        }
    }
}

impl vstd::std_specs::convert::FromSpecImpl<SessionShutdownError> for ClientCloseSessionError {
    open spec fn obeys_from_spec() -> bool {
        true
    }

    open spec fn from_spec(error: SessionShutdownError) -> Self {
        match error {
            SessionShutdownError::Backend { message } => ClientCloseSessionError::Backend { message },
        }
    }
}

impl ClientCloseSessionError {
    /// The text that the error is shown as.
    pub fn to_string(&self) -> (r: String)
        ensures
            match self {
                ClientCloseSessionError::NotFound { id } => r@ == "session not found: "@ + id@,
                ClientCloseSessionError::Backend { message } => r@
                    == "failed to shut down session backend: "@ + message@,
            },
    {
        match self {
            ClientCloseSessionError::NotFound { id } => concat2("session not found: ", id),
            ClientCloseSessionError::Backend { message } => concat2(
                "failed to shut down session backend: ",
                message,
            ),
        }
    }
}

/// A random name for a session.
pub fn new_session_id() -> (r: String)
    ensures
        is_hyphenated_uuid(r@),
{
    random_hyphenated_id()
}

/// A session with the name that it is kept under.
#[derive(Debug)]
pub struct Retained<S> {
    id: String,
    session: S,
}

/// The owner of sessions.
#[derive(Debug)]
pub struct Client<S> {
    sessions: Vec<Retained<S>>,
}

/// The sessions in `kept` by name.
closed spec fn by_name<S>(kept: Seq<Retained<S>>) -> Map<Seq<char>, S>
    decreases kept.len(),
{
    if kept.len() == 0 {
        Map::empty()
    } else {
        by_name(kept.drop_last()).insert(kept.last().id@, kept.last().session)
    }
}

/// Whether no two sessions in `kept` share a name.
closed spec fn distinct<S>(kept: Seq<Retained<S>>) -> bool {
    forall|i: int, j: int|
        0 <= i < j < kept.len() ==> (#[trigger] kept[i]).id@ != (#[trigger] kept[j]).id@
}

impl<S> View for Client<S> {
    type V = Map<Seq<char>, S>;

    closed spec fn view(&self) -> Map<Seq<char>, S> {
        by_name(self.sessions@)
    }
}

proof fn lemma_by_name<S>(kept: Seq<Retained<S>>)
    requires
        distinct(kept),
    ensures
        forall|i: int|
            0 <= i < kept.len() ==> by_name(kept).contains_key((#[trigger] kept[i]).id@)
                && by_name(kept)[kept[i].id@] == kept[i].session,
        forall|id: Seq<char>| #[trigger]
            by_name(kept).contains_key(id) ==> exists|i: int|
                0 <= i < kept.len() && (#[trigger] kept[i]).id@ == id,
    decreases kept.len(),
{
    if kept.len() > 0 {
        let init = kept.drop_last();
        assert forall|i: int, j: int| 0 <= i < j < init.len() implies (#[trigger] init[i]).id@ != (
        #[trigger] init[j]).id@ by {
            assert(kept[i].id@ != kept[j].id@);
        }
        lemma_by_name(init);
        assert forall|i: int| 0 <= i < kept.len() implies by_name(kept).contains_key(
            (#[trigger] kept[i]).id@,
        ) && by_name(kept)[kept[i].id@] == kept[i].session by {
            if i < init.len() {
                assert(init[i] == kept[i]);
                assert(kept[i].id@ != kept[kept.len() - 1].id@);
            }
        }
        assert forall|id: Seq<char>| #[trigger] by_name(kept).contains_key(id) implies exists|i: int|
            0 <= i < kept.len() && (#[trigger] kept[i]).id@ == id by {
            if id == kept.last().id@ {
                assert(kept[kept.len() - 1].id@ == id);
            } else {
                assert(by_name(init).contains_key(id));
                let i = choose|i: int| 0 <= i < init.len() && (#[trigger] init[i]).id@ == id;
                assert(kept[i].id@ == id);
            }
        }
    }
}

/// Taking one session out leaves all others under their names.
proof fn lemma_by_name_remove<S>(kept: Seq<Retained<S>>, at: int)
    requires
        distinct(kept),
        0 <= at < kept.len(),
    ensures
        distinct(kept.remove(at)),
        by_name(kept.remove(at)) == by_name(kept).remove(kept[at].id@),
{
    let left = kept.remove(at);
    let gone = kept[at].id@;
    assert forall|i: int, j: int| 0 <= i < j < left.len() implies (#[trigger] left[i]).id@ != (
    #[trigger] left[j]).id@ by {
        let i0 = if i < at {
            i
        } else {
            i + 1
        };
        let j0 = if j < at {
            j
        } else {
            j + 1
        };
        assert(kept[i0].id@ != kept[j0].id@);
    }
    lemma_by_name(kept);
    lemma_by_name(left);
    let expected = by_name(kept).remove(gone);
    assert forall|id: Seq<char>| by_name(left).contains_key(id) <==> #[trigger] expected.contains_key(
        id,
    ) by {
        if by_name(left).contains_key(id) {
            let i = choose|i: int| 0 <= i < left.len() && (#[trigger] left[i]).id@ == id;
            let i0 = if i < at {
                i
            } else {
                i + 1
            };
            assert(kept[i0].id@ == id);
            if i0 < at {
                assert(kept[i0].id@ != kept[at].id@);
            } else {
                assert(kept[at].id@ != kept[i0].id@);
            }
        }
        if expected.contains_key(id) {
            let i = choose|i: int| 0 <= i < kept.len() && (#[trigger] kept[i]).id@ == id;
            let i1 = if i < at {
                i
            } else {
                i - 1
            };
            assert(left[i1].id@ == id);
        }
    }
    assert forall|id: Seq<char>| #[trigger] expected.contains_key(id) implies by_name(left)[id]
        == expected[id] by {
        let i = choose|i: int| 0 <= i < kept.len() && (#[trigger] kept[i]).id@ == id;
        let i1 = if i < at {
            i
        } else {
            i - 1
        };
        assert(left[i1] == kept[i]);
        assert(by_name(left)[left[i1].id@] == left[i1].session);
    }
    assert(by_name(left) =~= expected);
}

impl<S> Client<S> {
    /// No two sessions share a name.
    pub closed spec fn wf(self) -> bool {
        distinct(self.sessions@)
    }

    /// A client without sessions.
    pub fn new() -> (r: Self)
        ensures
            r.wf(),
            r@ == Map::<Seq<char>, S>::empty(),
    {
        Client { sessions: Vec::new() }
    }

    /// The position of the session `id`.
    fn position(&self, id: &str) -> (r: Option<usize>)
        requires
            self.wf(),
        ensures
            match r {
                Some(i) => i < self.sessions@.len() && self.sessions@[i as int].id@ == id@,
                None => !self@.contains_key(id@),
            },
    {
        proof {
            lemma_by_name(self.sessions@);
        }
        let mut i: usize = 0;
        while i < self.sessions.len()
            invariant
                i <= self.sessions@.len(),
                forall|j: int| 0 <= j < i ==> (#[trigger] self.sessions@[j]).id@ != id@,
            decreases self.sessions@.len() - i,
        {
            if same_text(&self.sessions[i].id, id) {
                return Some(i);
            }
            i = i + 1;
        }
        None
    }

    /// Keeps a session that was started under a fresh name. Where the name is taken already, the
    /// session is handed back to be closed.
    pub fn start_session(&mut self, id: String, session: S) -> (r: Result<
        String,
        (S, SessionStartError),
    >)
        requires
            old(self).wf(),
        ensures
            final(self).wf(),
            if old(self)@.contains_key(id@) {
                &&& r matches Err((returned, SessionStartError::Backend { message })) && returned
                    == session && message@ == "generated duplicate Session UUID"@
                &&& final(self)@ == old(self)@
            } else {
                &&& r matches Ok(kept) && kept@ == id@
                &&& final(self)@ == old(self)@.insert(id@, session)
            },
    {
        proof {
            lemma_by_name(self.sessions@);
        }
        match self.position(&id) {
            Some(_) => Err(
                (
                    session,
                    SessionStartError::Backend {
                        message: "generated duplicate Session UUID".to_owned(),
                    },
                ),
            ),
            None => {
                let ghost before = self.sessions@;
                let kept = id.clone();
                self.sessions.push(Retained { id, session });
                proof {
                    assert(self.sessions@.drop_last() =~= before);
                    assert forall|i: int, j: int| 0 <= i < j < self.sessions@.len() implies (
                    #[trigger] self.sessions@[i]).id@ != (#[trigger] self.sessions@[j]).id@ by {
                        if j == before.len() {
                            assert(by_name(before).contains_key(before[i].id@));
                        } else {
                            assert(before[i].id@ != before[j].id@);
                        }
                    }
                }
                Ok(kept)
            },
        }
    }

    /// The session `id`, if it is kept.
    pub fn get_session(&self, id: &str) -> (r: Option<&S>)
        requires
            self.wf(),
        ensures
            match r {
                Some(session) => self@.contains_key(id@) && *session == self@[id@],
                None => !self@.contains_key(id@),
            },
    {
        proof {
            lemma_by_name(self.sessions@);
        }
        match self.position(id) {
            Some(i) => Some(&self.sessions[i].session),
            None => None,
        }
    }

    /// Lets the session `id` go and hands it out to be closed.
    pub fn close_session(&mut self, id: String) -> (r: Result<S, ClientCloseSessionError>)
        requires
            old(self).wf(),
        ensures
            final(self).wf(),
            match r {
                Ok(session) => {
                    &&& old(self)@.contains_key(id@)
                    &&& session == old(self)@[id@]
                    &&& final(self)@ == old(self)@.remove(id@)
                },
                Err(e) => {
                    &&& !old(self)@.contains_key(id@)
                    &&& e == (ClientCloseSessionError::NotFound { id })
                    &&& final(self)@ == old(self)@
                },
            },
    {
        proof {
            lemma_by_name(self.sessions@);
        }
        match self.position(&id) {
            Some(i) => {
                proof {
                    lemma_by_name_remove(self.sessions@, i as int);
                }
                let kept = self.sessions.remove(i);
                Ok(kept.session)
            },
            None => Err(ClientCloseSessionError::NotFound { id }),
        }
    }
}

/// A session that was kept is found under its name until it is closed, and then no more; other
/// sessions are not touched by either.
pub proof fn law_sessions_are_kept_until_closed<S>(
    kept: Map<Seq<char>, S>,
    id: Seq<char>,
    other: Seq<char>,
    session: S,
)
    requires
        !kept.contains_key(id),
        other != id,
    ensures
        kept.insert(id, session).contains_key(id),
        kept.insert(id, session)[id] == session,
        !kept.insert(id, session).remove(id).contains_key(id),
        kept.insert(id, session).remove(id) == kept,
        kept.insert(id, session).contains_key(other) == kept.contains_key(other),
        kept.contains_key(other) ==> kept.insert(id, session)[other] == kept[other],
{
    assert(kept.insert(id, session).remove(id) =~= kept);
}

} // verus!
