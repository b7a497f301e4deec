//! The registry of live sessions.
//!
//! The registry is the one thing that all sessions share. It maps the id of
//! every active session to that session, and a session is in it exactly while
//! it is active: the acceptor adds it once the handshake is done, and whichever
//! of the session's loops ends first takes it out again.

use std::collections::HashMap;
use vstd::prelude::*;
use vstd::std_specs::iter::IteratorSpec;
use crate::message::{Message, MessageView};
use crate::session::{Session, SessionState, SessionView};

verus! {

broadcast use vstd::std_specs::hash::group_hash_axioms;

/// What must hold of the members of a registry: there are finitely many, each
/// is filed under its own id (so none occurs twice), each is active, and each
/// one's outbound queue respects its bound.
pub open spec fn members_wf(members: Map<u64, SessionView>) -> bool {
    &&& members.dom().finite()
    &&& forall|id: u64| #[trigger]
        members.contains_key(id) ==> {
            &&& members[id].id == id
            &&& members[id].state == SessionState::Active
            &&& members[id].wf()
        }
}

/// The members after `m` was offered to the member `id`; nothing changes if
/// there is no such member.
pub open spec fn offer_to(members: Map<u64, SessionView>, id: u64, m: MessageView) -> Map<
    u64,
    SessionView,
> {
    if members.contains_key(id) {
        members.insert(id, members[id].receive(m))
    } else {
        members
    }
}

/// The members after the outbound loop of the member `id` took its next
/// pending message; nothing changes if there is no such member.
pub open spec fn take_from(members: Map<u64, SessionView>, id: u64) -> Map<u64, SessionView> {
    if members.contains_key(id) {
        members.insert(id, members[id].emit())
    } else {
        members
    }
}

/// Why a session could not be added.
#[derive(Clone, Copy, PartialEq, Eq, Debug, Structural)]
pub enum RegistryError {
    /// A session with this id is already registered.
    DuplicateId(u64),
}

/// What became of a message that was offered to one member.
#[derive(Clone, Copy, PartialEq, Eq, Debug, Structural)]
pub enum Offer {
    /// The message is now the last in the member's outbound queue.
    Enqueued,
    /// The member's outbound queue was full; the message was dropped for this
    /// member and counted.
    Dropped,
    /// No session with this id is registered any more.
    Gone,
}

/// The collection of active sessions, by id.
pub struct Registry {
    members: HashMap<u64, Session>,
}

impl View for Registry {
    type V = Map<u64, SessionView>;

    closed spec fn view(&self) -> Map<u64, SessionView> {
        self.members@.map_values(|s: Session| s@)
    }
}

impl Registry {
    pub open spec fn wf(&self) -> bool {
        members_wf(self@)
    }

    /// A registry without members.
    pub fn new() -> (r: Registry)
        ensures
            r.wf(),
            r@ == Map::<u64, SessionView>::empty(),
    {
        Registry { members: HashMap::new() }
    }

    /// Registers an active session under its id. This fails only if a session
    /// with that id is registered already, and then changes nothing.
    pub fn add(&mut self, session: Session) -> (r: Result<(), RegistryError>)
        requires
            old(self).wf(),
            session.wf(),
            session@.state == SessionState::Active,
        ensures
            final(self).wf(),
            match r {
                Ok(_) => {
                    &&& !old(self)@.contains_key(session@.id)
                    &&& final(self)@ == old(self)@.insert(session@.id, session@)
                },
                Err(e) => {
                    &&& e == RegistryError::DuplicateId(session@.id)
                    &&& old(self)@.contains_key(session@.id)
                    &&& final(self)@ == old(self)@
                },
            },
    {
        let id = session.id();
        if self.members.contains_key(&id) {
            Err(RegistryError::DuplicateId(id))
        } else {
            self.members.insert(id, session);
            assert(self@ =~= old(self)@.insert(id, session@));
            Ok(())
        }
    }

    /// Takes the session with this id out of the registry and hands it over.
    /// Removing an id that is not registered changes nothing and is no error.
    pub fn remove(&mut self, id: u64) -> (removed: Option<Session>)
        requires
            old(self).wf(),
        ensures
            final(self).wf(),
            final(self)@ == old(self)@.remove(id),
            match removed {
                Some(s) => old(self)@.contains_key(id) && s@ == old(self)@[id] && s.wf(),
                None => !old(self)@.contains_key(id) && final(self)@ == old(self)@,
            },
    {
        let removed = self.members.remove(&id);
        assert(self@ =~= old(self)@.remove(id));
        removed
    }

    /// Whether a session with this id is registered.
    pub fn contains(&self, id: u64) -> (b: bool)
        ensures
            b == self@.contains_key(id),
    {
        self.members.contains_key(&id)
    }

    /// The registered session with this id.
    pub fn get(&self, id: u64) -> (found: Option<&Session>)
        ensures
            match found {
                Some(s) => self@.contains_key(id) && s@ == self@[id],
                None => !self@.contains_key(id),
            },
    {
        self.members.get(&id)
    }

    /// The number of registered sessions.
    pub fn len(&self) -> (n: usize)
        ensures
            n == self@.dom().len(),
    {
        assert(self@.dom() =~= self.members@.dom());
        self.members.len()
    }

    pub fn is_empty(&self) -> (b: bool)
        ensures
            b == (self@.dom().len() == 0),
    {
        assert(self@.dom() =~= self.members@.dom());
        self.members.len() == 0
    }

    /// The ids of the sessions that are registered at this moment, each once
    /// and in no particular order. The list is a copy: what is added or
    /// removed later does not show in it.
    pub fn snapshot(&self) -> (ids: Vec<u64>)
        ensures
            ids@.no_duplicates(),
            ids@.to_set() == self@.dom(),
    {
        let mut ids: Vec<u64> = Vec::new();
        let ghost all: Seq<u64> = self.members.keys().remaining().unref();
        for id in it: self.members.keys()
            invariant
                it.seq().unref() == all,
                ids@ == all.take(it.index() as int),
        {
            ids.push(*id);
        }
        assert(ids@ =~= all);
        ids
    }

    /// Offers `message` to the outbound queue of the member `id` without
    /// waiting, and says what became of it.
    pub fn offer(&mut self, id: u64, message: Message) -> (outcome: Offer)
        requires
            old(self).wf(),
        ensures
            final(self).wf(),
            final(self)@ == offer_to(old(self)@, id, message@),
            outcome == if !old(self)@.contains_key(id) {
                Offer::Gone
            } else if old(self)@[id].outbound.is_full() {
                Offer::Dropped
            } else {
                Offer::Enqueued
            },
    {
        match self.members.remove(&id) {
            None => {
                assert(self@ =~= old(self)@);
                Offer::Gone
            },
            Some(session) => {
                assert(old(self)@.contains_key(id) && session@ == old(self)@[id]);
                let mut session = session;
                let accepted = session.offer(message);
                self.members.insert(id, session);
                if accepted {
                    Offer::Enqueued
                } else {
                    Offer::Dropped
                }
            },
        }
    }

    /// Takes the next message that is due to be written to the socket of the
    /// member `id`. There is none if the member's queue is empty or if no such
    /// member is registered.
    pub fn take_next(&mut self, id: u64) -> (next: Option<Message>)
        requires
            old(self).wf(),
        ensures
            final(self).wf(),
            final(self)@ == take_from(old(self)@, id),
            match next {
                Some(m) => old(self)@.contains_key(id) && old(self)@[id].outbound.front() == Some(
                    m@,
                ),
                None => !old(self)@.contains_key(id) || old(self)@[id].outbound.front().is_none(),
            },
    {
        match self.members.remove(&id) {
            None => {
                assert(self@ =~= old(self)@);
                None
            },
            Some(session) => {
                assert(old(self)@.contains_key(id) && session@ == old(self)@[id]);
                let mut session = session;
                let next = session.take_next();
                self.members.insert(id, session);
                next
            },
        }
    }
}

/// Removal is idempotent: removing a session a second time leaves the registry
/// as the first removal left it. So it does no harm when both loops of a
/// session notice a failure and both ask for its removal.
pub proof fn lemma_removal_is_idempotent(members: Map<u64, SessionView>, id: u64)
    ensures
        members.remove(id).remove(id) == members.remove(id),
        !members.remove(id).contains_key(id),
        members_wf(members) ==> members_wf(members.remove(id)),
{
}

} // verus!
