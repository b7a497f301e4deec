//! The relay: acceptor, session loops and dispatcher as one state machine.
//!
//! The relay owns the registry and decides; it does no input or output. The
//! caller runs the sockets and tells the relay what happened: a handshake
//! ended, a frame arrived, a write failed. The relay answers with what to do
//! next. One call is one atomic step, so a caller that shares the relay among
//! tasks holds its lock for the length of a call and never across a wait.

use vstd::prelude::*;
use vstd::seq_lib::lemma_seq_contains_after_push;
use crate::dispatcher::{accepting, deliver_spec, overflowing, DeliveryReport, Dispatcher};
use crate::message::{Frame, FrameKind, Message, MessageView};
use crate::registry::{lemma_removal_is_idempotent, members_wf, take_from, Registry};
use crate::session::{Session, SessionState, SessionView};

verus! {

/// What a relay is set up with.
#[derive(Clone, Copy, PartialEq, Eq, Debug, Structural)]
pub struct RelayConfig {
    /// How many messages may wait in the outbound queue of one session.
    pub queue_capacity: usize,
    /// Whether a sender gets its own messages back. A relay normally sends to
    /// everyone else only.
    pub echo: bool,
}

/// The mathematical value of a [`Relay`].
pub struct RelayView {
    /// The registered sessions by id.
    pub members: Map<u64, SessionView>,
    /// The id that the next session will get.
    pub next_id: u64,
    /// Whether the acceptor still takes new connections.
    pub accepting: bool,
    pub queue_capacity: nat,
    pub echo: bool,
}

impl RelayView {
    /// A relay that nobody has connected to yet.
    pub open spec fn initial(queue_capacity: nat, echo: bool) -> RelayView {
        RelayView { members: Map::empty(), next_id: 0, accepting: true, queue_capacity, echo }
    }

    /// The registry is in order, and every id in it has been handed out
    /// already, so that the next id is a new one.
    pub open spec fn wf(self) -> bool {
        &&& members_wf(self.members)
        &&& forall|id: u64| #[trigger] self.members.contains_key(id) ==> id < self.next_id
    }

    /// Whether there is an id left for one more session.
    pub open spec fn has_free_id(self) -> bool {
        self.next_id < u64::MAX
    }

    /// Whether a completed handshake leads to a new session.
    pub open spec fn admits(self) -> bool {
        self.accepting && self.has_free_id()
    }

    /// The session that the next completed handshake creates, as it is
    /// registered: active, with an empty queue.
    pub open spec fn newcomer(self, peer: Seq<char>) -> SessionView {
        SessionView::fresh(self.next_id, peer, self.queue_capacity).with_state(SessionState::Active)
    }

    /// The relay after a completed handshake with `peer`.
    pub open spec fn accept(self, peer: Seq<char>) -> RelayView {
        if self.admits() {
            RelayView {
                members: self.members.insert(self.next_id, self.newcomer(peer)),
                next_id: (self.next_id + 1) as u64,
                ..self
            }
        } else {
            self
        }
    }

    /// The relay after the session `id` was closed.
    pub open spec fn close(self, id: u64) -> RelayView {
        RelayView { members: self.members.remove(id), ..self }
    }

    /// The relay after it was shut down: the acceptor takes no more
    /// connections and every session is closed.
    pub open spec fn shut_down(self) -> RelayView {
        RelayView { members: Map::empty(), accepting: false, ..self }
    }

    /// The relay after the delivery of `m`.
    pub open spec fn broadcast(self, m: MessageView) -> RelayView {
        RelayView { members: deliver_spec(self.members, m, self.echo), ..self }
    }

    /// The relay after the outbound loop of the session `id` took its next
    /// pending message.
    pub open spec fn take(self, id: u64) -> RelayView {
        RelayView { members: take_from(self.members, id), ..self }
    }
}

/// How the handshake on a new connection ended.
#[derive(Clone, Copy, PartialEq, Eq, Debug, Structural)]
pub enum Handshake {
    Completed,
    /// The upgrade request was malformed or the protocol did not match.
    Failed,
}

/// Why a connection was turned away.
#[derive(Clone, Copy, PartialEq, Eq, Debug, Structural)]
pub enum Refusal {
    /// The handshake failed. The connection is dropped; the acceptor goes on.
    HandshakeFailed,
    /// Every session id has been handed out.
    OutOfIds,
    /// The relay has been shut down.
    ShuttingDown,
}

/// What the acceptor does with a connection.
#[derive(Clone, Copy, PartialEq, Eq, Debug, Structural)]
pub enum Admission {
    /// A session with this id is registered; start its two loops.
    Admitted(u64),
    /// Close the connection and go on accepting.
    Refused(Refusal),
}

/// What the inbound loop of a session met.
#[derive(PartialEq, Eq, Debug)]
pub enum InboundEvent {
    /// The next frame arrived.
    Frame(Frame),
    /// A frame was malformed or too large.
    FrameError,
    /// Reading failed: the peer reset the connection, or it timed out.
    TransportError,
    /// The stream ended.
    EndOfStream,
}

/// What the inbound loop of a session does next.
#[derive(PartialEq, Eq, Debug)]
pub enum InboundAction {
    /// The frame was handed to the dispatcher; read on.
    Forwarded(DeliveryReport),
    /// The frame carries nothing to forward; read on.
    Ignored,
    /// The session is over; stop. Holds the closed session if this call
    /// removed it, and nothing if it was gone already.
    Terminated(Option<Session>),
}

/// What the outbound loop of a session met.
#[derive(Clone, Copy, PartialEq, Eq, Debug, Structural)]
pub enum OutboundEvent {
    /// The loop is ready to write the next message.
    Ready,
    /// Writing to the socket failed.
    WriteFailed,
}

/// What the outbound loop of a session does next.
#[derive(PartialEq, Eq, Debug)]
pub enum OutboundAction {
    /// Write this message to the socket.
    Write(Message),
    /// Nothing is pending; wait until the session is offered a message.
    Idle,
    /// The session is over; stop. Holds the closed session if this call
    /// removed it, and nothing if it was gone already.
    Terminated(Option<Session>),
}

/// The message that a frame from the session `id` becomes: a text or binary
/// frame is forwarded with its bytes and its kind, any other frame is not.
pub open spec fn message_of(id: u64, frame: Frame) -> Option<MessageView> {
    match frame {
        Frame::Text(payload) => Some(
            MessageView { sender_id: Some(id), kind: FrameKind::Text, payload: payload@ },
        ),
        Frame::Binary(payload) => Some(
            MessageView { sender_id: Some(id), kind: FrameKind::Binary, payload: payload@ },
        ),
        _ => None,
    }
}

/// Whether the inbound loop goes on after this event. It ends on a close
/// frame, on any error and at the end of the stream.
pub open spec fn keeps_reading(event: InboundEvent) -> bool {
    match event {
        InboundEvent::Frame(frame) => !(frame is Close),
        _ => false,
    }
}

/// The relay's state: the registry with the dispatcher's policy and the
/// acceptor's id counter.
pub struct Relay {
    registry: Registry,
    dispatcher: Dispatcher,
    next_id: u64,
    accepting: bool,
    queue_capacity: usize,
}

impl View for Relay {
    type V = RelayView;

    closed spec fn view(&self) -> RelayView {
        RelayView {
            members: self.registry@,
            next_id: self.next_id,
            accepting: self.accepting,
            queue_capacity: self.queue_capacity as nat,
            echo: self.dispatcher.echo,
        }
    }
}

impl Relay {
    pub open spec fn wf(&self) -> bool {
        self@.wf()
    }

    /// A relay without sessions.
    pub fn new(config: RelayConfig) -> (relay: Relay)
        ensures
            relay.wf(),
            relay@ == RelayView::initial(config.queue_capacity as nat, config.echo),
    {
        Relay {
            registry: Registry::new(),
            dispatcher: Dispatcher::with_echo(config.echo),
            next_id: 0,
            accepting: true,
            queue_capacity: config.queue_capacity,
        }
    }

    /// The registry of the sessions that are active now.
    pub fn registry(&self) -> (registry: &Registry)
        ensures
            registry@ == self@.members,
    {
        &self.registry
    }

    /// The number of sessions that are active now.
    pub fn member_count(&self) -> (n: usize)
        ensures
            n == self@.members.dom().len(),
    {
        self.registry.len()
    }

    /// Whether the acceptor still takes new connections.
    pub fn is_accepting(&self) -> (b: bool)
        ensures
            b == self@.accepting,
    {
        self.accepting
    }

    /// The acceptor's decision on a connection whose handshake has ended. A
    /// failed handshake changes nothing. A completed one creates the session,
    /// makes it active and registers it under a new id, unless the relay has
    /// been shut down or has run out of ids.
    pub fn accept(&mut self, handshake: Handshake, peer: String) -> (admission: Admission)
        requires
            old(self).wf(),
        ensures
            final(self).wf(),
            admission == match handshake {
                Handshake::Failed => Admission::Refused(Refusal::HandshakeFailed),
                Handshake::Completed => if !old(self)@.accepting {
                    Admission::Refused(Refusal::ShuttingDown)
                } else if !old(self)@.has_free_id() {
                    Admission::Refused(Refusal::OutOfIds)
                } else {
                    Admission::Admitted(old(self)@.next_id)
                },
            },
            final(self)@ == match handshake {
                Handshake::Failed => old(self)@,
                Handshake::Completed => old(self)@.accept(peer@),
            },
    {
        match handshake {
            Handshake::Failed => Admission::Refused(Refusal::HandshakeFailed),
            Handshake::Completed => {
                let id = self.next_id;
                if !self.accepting {
                    Admission::Refused(Refusal::ShuttingDown)
                } else if id == u64::MAX {
                    Admission::Refused(Refusal::OutOfIds)
                } else {
                    let mut session = Session::new(id, peer, self.queue_capacity);
                    let activated = session.transition(SessionState::Active);
                    let added = self.registry.add(session);
                    assert(activated.is_ok() && added.is_ok());
                    self.next_id = id + 1;
                    Admission::Admitted(id)
                }
            },
        }
    }

    /// Closes the session `id`: takes it out of the registry and moves it
    /// through `Closing` to `Closed`. Whichever loop of the session notices the
    /// end first gets the closed session; a second call finds nothing and
    /// changes nothing.
    pub fn close(&mut self, id: u64) -> (closed: Option<Session>)
        requires
            old(self).wf(),
        ensures
            final(self).wf(),
            final(self)@ == old(self)@.close(id),
            match closed {
                Some(s) => old(self)@.members.contains_key(id) && s@ == old(self)@.members[id].with_state(
                    SessionState::Closed,
                ),
                None => !old(self)@.members.contains_key(id) && final(self)@ == old(self)@,
            },
    {
        match self.registry.remove(id) {
            None => None,
            Some(session) => {
                let mut session = session;
                let closing = session.transition(SessionState::Closing);
                let closed = session.transition(SessionState::Closed);
                assert(closing.is_ok() && closed.is_ok());
                Some(session)
            },
        }
    }

    /// Shuts the relay down: the acceptor takes no more connections, and every
    /// session is closed and handed over, each once. What was still pending
    /// for a session is in its queue, for the caller to drain or to abandon.
    pub fn shut_down(&mut self) -> (closed: Vec<Session>)
        requires
            old(self).wf(),
        ensures
            final(self).wf(),
            final(self)@ == old(self)@.shut_down(),
            closed@.len() == old(self)@.members.dom().len(),
            forall|i: int|
                0 <= i < closed@.len() ==> {
                    &&& old(self)@.members.contains_key(#[trigger] closed@[i]@.id)
                    &&& closed@[i]@ == old(self)@.members[closed@[i]@.id].with_state(
                        SessionState::Closed,
                    )
                },
            forall|i: int, j: int|
                0 <= i < j < closed@.len() ==> closed@[i]@.id != closed@[j]@.id,
    {
        let ghost before = self@;
        self.accepting = false;
        let ids = self.registry.snapshot();
        let mut closed: Vec<Session> = Vec::new();
        let mut i: usize = 0;
        proof {
            ids@.unique_seq_to_set();
        }
        while i < ids.len()
            invariant
                i <= ids.len(),
                before.wf(),
                ids@.no_duplicates(),
                ids@.to_set() == before.members.dom(),
                ids@.len() == before.members.dom().len(),
                self.wf(),
                self@ == (RelayView { members: self@.members, accepting: false, ..before }),
                forall|id: u64|
                    self@.members.contains_key(id) <==> before.members.contains_key(id)
                        && !ids@.take(i as int).contains(id),
                forall|id: u64| #[trigger]
                    self@.members.contains_key(id) ==> self@.members[id] == before.members[id],
                closed@.len() == i,
                forall|k: int|
                    0 <= k < i ==> (#[trigger] closed@[k])@ == before.members[ids@[k]].with_state(
                        SessionState::Closed,
                    ),
            decreases ids.len() - i,
        {
            let id = ids[i];
            let ghost seen = ids@.take(i as int);
            assert(ids@.to_set().contains(id));
            if let Some(session) = self.close(id) {
                closed.push(session);
            }
            proof {
                assert(ids@.take(i + 1) == seen.push(id));
                assert forall|other: u64|
                    self@.members.contains_key(other) <==> before.members.contains_key(other)
                        && !seen.push(id).contains(other) by {
                    lemma_seq_contains_after_push(seen, id, other);
                }
            }
            i = i + 1;
        }
        proof {
            assert(ids@.take(i as int) == ids@);
            assert forall|id: u64| !self@.members.contains_key(id) by {
                assert(before.members.contains_key(id) ==> ids@.to_set().contains(id));
            }
            assert(self@.members =~= Map::<u64, SessionView>::empty());
            assert forall|k: int| 0 <= k < closed@.len() implies before.members.contains_key(
                #[trigger] closed@[k]@.id,
            ) && closed@[k]@ == before.members[closed@[k]@.id].with_state(SessionState::Closed) by {
                assert(before.members.contains_key(ids@[k]));
            }
            assert forall|a: int, b: int| 0 <= a < b < closed@.len() implies closed@[a]@.id
                != closed@[b]@.id by {
                assert(before.members.contains_key(ids@[a]) && before.members.contains_key(ids@[b]));
            }
        }
        closed
    }

    /// The decision of the inbound loop of the session `id` on what it met.
    ///
    /// A text or binary frame becomes a message from this session and is
    /// delivered to the others; the loop does not wait for any of them. A ping
    /// or pong is passed over. A close frame, any error and the end of the
    /// stream close the session. If the session is closed already, whatever
    /// arrived is discarded and the loop is told to stop.
    pub fn on_inbound(&mut self, id: u64, event: InboundEvent) -> (action: InboundAction)
        requires
            old(self).wf(),
        ensures
            final(self).wf(),
            !old(self)@.members.contains_key(id) ==> final(self)@ == old(self)@ && action
                == InboundAction::Terminated(None),
            old(self)@.members.contains_key(id) && !keeps_reading(event) ==> {
                &&& final(self)@ == old(self)@.close(id)
                &&& action matches InboundAction::Terminated(Some(s))
                &&& s@ == old(self)@.members[id].with_state(SessionState::Closed)
            },
            old(self)@.members.contains_key(id) && keeps_reading(event) ==> match message_of(
                id,
                event->Frame_0,
            ) {
                Some(m) => {
                    &&& final(self)@ == old(self)@.broadcast(m)
                    &&& action matches InboundAction::Forwarded(report)
                    &&& report.delivered@.no_duplicates()
                    &&& report.delivered@.to_set() == accepting(old(self)@.members, m, old(self)@.echo)
                    &&& report.dropped@.no_duplicates()
                    &&& report.dropped@.to_set() == overflowing(old(self)@.members, m, old(self)@.echo)
                },
                None => final(self)@ == old(self)@ && action == InboundAction::Ignored,
            },
    {
        if !self.registry.contains(id) {
            return InboundAction::Terminated(None);
        }
        match event {
            InboundEvent::Frame(Frame::Text(payload)) => {
                let message = Message::new(Some(id), FrameKind::Text, payload);
                InboundAction::Forwarded(self.broadcast(&message))
            },
            InboundEvent::Frame(Frame::Binary(payload)) => {
                let message = Message::new(Some(id), FrameKind::Binary, payload);
                InboundAction::Forwarded(self.broadcast(&message))
            },
            InboundEvent::Frame(Frame::Ping) | InboundEvent::Frame(Frame::Pong) => InboundAction::Ignored,
            InboundEvent::Frame(Frame::Close)
            | InboundEvent::FrameError
            | InboundEvent::TransportError
            | InboundEvent::EndOfStream => InboundAction::Terminated(self.close(id)),
        }
    }

    /// Delivers `message` to the sessions that are active now, by the relay's
    /// echo policy. A message without a sender goes to every session.
    pub fn broadcast(&mut self, message: &Message) -> (report: DeliveryReport)
        requires
            old(self).wf(),
        ensures
            final(self).wf(),
            final(self)@ == old(self)@.broadcast(message@),
            report.delivered@.no_duplicates(),
            report.delivered@.to_set() == accepting(old(self)@.members, message@, old(self)@.echo),
            report.dropped@.no_duplicates(),
            report.dropped@.to_set() == overflowing(old(self)@.members, message@, old(self)@.echo),
    {
        let report = self.dispatcher.deliver(&mut self.registry, message);
        report
    }

    /// The decision of the outbound loop of the session `id`.
    ///
    /// When the loop is ready it gets the oldest pending message to write, or
    /// is told to wait if there is none. A failed write closes the session. If
    /// the session is closed already the loop is told to stop.
    pub fn on_outbound(&mut self, id: u64, event: OutboundEvent) -> (action: OutboundAction)
        requires
            old(self).wf(),
        ensures
            final(self).wf(),
            !old(self)@.members.contains_key(id) ==> final(self)@ == old(self)@ && action
                == OutboundAction::Terminated(None),
            old(self)@.members.contains_key(id) && event == OutboundEvent::WriteFailed ==> {
                &&& final(self)@ == old(self)@.close(id)
                &&& action matches OutboundAction::Terminated(Some(s))
                &&& s@ == old(self)@.members[id].with_state(SessionState::Closed)
            },
            old(self)@.members.contains_key(id) && event == OutboundEvent::Ready ==> {
                &&& final(self)@ == old(self)@.take(id)
                &&& match old(self)@.members[id].outbound.front() {
                    Some(m) => action matches OutboundAction::Write(w) && w@ == m,
                    None => action == OutboundAction::Idle,
                }
            },
    {
        if !self.registry.contains(id) {
            return OutboundAction::Terminated(None);
        }
        match event {
            OutboundEvent::WriteFailed => OutboundAction::Terminated(self.close(id)),
            OutboundEvent::Ready => {
                let next = self.registry.take_next(id);
                match next {
                    Some(message) => OutboundAction::Write(message),
                    None => OutboundAction::Idle,
                }
            },
        }
    }
}

/// Closing is idempotent: closing a session a second time leaves the relay as
/// the first closing left it. Both loops of a session may notice its end; the
/// second to say so changes nothing.
pub proof fn lemma_closing_twice_is_closing_once(relay: RelayView, id: u64)
    ensures
        relay.close(id).close(id) == relay.close(id),
        !relay.close(id).members.contains_key(id),
        relay.wf() ==> relay.close(id).wf(),
{
    lemma_removal_is_idempotent(relay.members, id);
}

} // verus!
