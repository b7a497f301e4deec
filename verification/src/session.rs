//! One client's live connection as the relay sees it.

use vstd::prelude::*;
use crate::message::{Message, MessageView};
use crate::queue::{OutboundQueue, QueueView};

verus! {

/// Where a session stands in its life. A session only ever moves forward:
/// `Connecting`, `Active`, `Closing`, `Closed`, and `Closed` is final.
#[derive(Clone, Copy, PartialEq, Eq, Debug, Structural)]
pub enum SessionState {
    /// The handshake is done and the session exists, but it is not yet
    /// registered.
    Connecting,
    /// The session is registered and takes part in broadcasts.
    Active,
    /// One of the session's loops has ended and the session is being removed.
    Closing,
    /// The session is gone from the registry for good.
    Closed,
}

impl SessionState {
    /// The state that follows this one; `None` after `Closed`.
    pub open spec fn successor(self) -> Option<SessionState> {
        match self {
            SessionState::Connecting => Some(SessionState::Active),
            SessionState::Active => Some(SessionState::Closing),
            SessionState::Closing => Some(SessionState::Closed),
            SessionState::Closed => None,
        }
    }

    /// How far along its life a session in this state is.
    pub open spec fn rank(self) -> nat {
        match self {
            SessionState::Connecting => 0,
            SessionState::Active => 1,
            SessionState::Closing => 2,
            SessionState::Closed => 3,
        }
    }

    /// The state that follows this one; `None` after `Closed`.
    pub fn next(self) -> (n: Option<SessionState>)
        ensures
            n == self.successor(),
    {
        match self {
            SessionState::Connecting => Some(SessionState::Active),
            SessionState::Active => Some(SessionState::Closing),
            SessionState::Closing => Some(SessionState::Closed),
            SessionState::Closed => None,
        }
    }
}

/// A step that the life of a session does not allow.
#[derive(Clone, Copy, PartialEq, Eq, Debug, Structural)]
pub struct InvalidTransition {
    pub from: SessionState,
    pub to: SessionState,
}

/// The mathematical value of a [`Session`].
pub struct SessionView {
    pub id: u64,
    pub peer: Seq<char>,
    pub state: SessionState,
    pub outbound: QueueView,
}

impl SessionView {
    /// A session as it is right after the handshake.
    pub open spec fn fresh(id: u64, peer: Seq<char>, capacity: nat) -> SessionView {
        SessionView { id, peer, state: SessionState::Connecting, outbound: QueueView::empty(capacity) }
    }

    pub open spec fn wf(self) -> bool {
        self.outbound.wf()
    }

    pub open spec fn with_state(self, state: SessionState) -> SessionView {
        SessionView { state, ..self }
    }

    /// The session after `m` was offered to its outbound queue.
    pub open spec fn receive(self, m: MessageView) -> SessionView {
        SessionView { outbound: self.outbound.enqueue(m), ..self }
    }

    /// The session after its outbound loop took the next pending message.
    pub open spec fn emit(self) -> SessionView {
        SessionView { outbound: self.outbound.dequeue(), ..self }
    }
}

/// The relay's side of one client connection: its identity, where it stands in
/// its life, and the messages that wait to be written to it.
#[derive(PartialEq, Eq, Debug)]
pub struct Session {
    id: u64,
    peer: String,
    state: SessionState,
    outbound: OutboundQueue,
}

impl View for Session {
    type V = SessionView;

    closed spec fn view(&self) -> SessionView {
        SessionView { id: self.id, peer: self.peer@, state: self.state, outbound: self.outbound@ }
    }
}

impl Session {
    pub open spec fn wf(&self) -> bool {
        self@.wf()
    }

    /// A session in state `Connecting` with an empty outbound queue that holds
    /// at most `capacity` messages. `peer` names the remote end for
    /// diagnostics.
    pub fn new(id: u64, peer: String, capacity: usize) -> (s: Session)
        ensures
            s.wf(),
            s@ == SessionView::fresh(id, peer@, capacity as nat),
    {
        Session { id, peer, state: SessionState::Connecting, outbound: OutboundQueue::new(capacity) }
    }

    pub fn id(&self) -> (id: u64)
        ensures
            id == self@.id,
    {
        self.id
    }

    /// The remote end, for diagnostics.
    pub fn peer(&self) -> (peer: &str)
        ensures
            peer@ == self@.peer,
    {
        self.peer.as_str()
    }

    pub fn state(&self) -> (state: SessionState)
        ensures
            state == self@.state,
    {
        self.state
    }

    /// The messages that wait to be written to this session's socket.
    pub fn outbound(&self) -> (q: &OutboundQueue)
        ensures
            q@ == self@.outbound,
    {
        &self.outbound
    }

    /// Moves the session to `to` if that is the state that follows the one it
    /// is in, and refuses every other step.
    pub fn transition(&mut self, to: SessionState) -> (r: Result<(), InvalidTransition>)
        ensures
            old(self)@.state.successor() == Some(to) ==> r.is_ok() && final(self)@ == old(self)@.with_state(to),
            old(self)@.state.successor() != Some(to) ==> r == Err::<(), InvalidTransition>(
                InvalidTransition { from: old(self)@.state, to },
            ) && final(self)@ == old(self)@,
    {
        let from = self.state;
        if from.next() == Some(to) {
            self.state = to;
            Ok(())
        } else {
            Err(InvalidTransition { from, to })
        }
    }

    /// Offers `message` to the outbound queue without waiting and says whether
    /// the queue took it.
    pub fn offer(&mut self, message: Message) -> (accepted: bool)
        requires
            old(self).wf(),
        ensures
            final(self).wf(),
            accepted == !old(self)@.outbound.is_full(),
            final(self)@ == old(self)@.receive(message@),
    {
        self.outbound.try_enqueue(message)
    }

    /// Takes the next message that is due to be written to the socket.
    pub fn take_next(&mut self) -> (next: Option<Message>)
        requires
            old(self).wf(),
        ensures
            final(self).wf(),
            final(self)@ == old(self)@.emit(),
            match next {
                Some(m) => old(self)@.outbound.front() == Some(m@),
                None => old(self)@.outbound.front().is_none(),
            },
    {
        self.outbound.dequeue()
    }
}

/// A session never moves backwards, and nothing follows `Closed`.
pub proof fn lemma_states_only_advance(from: SessionState, to: SessionState)
    requires
        from.successor() == Some(to),
    ensures
        to.rank() == from.rank() + 1,
        from != SessionState::Closed,
        to != SessionState::Connecting,
{
}

} // verus!
