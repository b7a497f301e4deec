//! The life of every session over a run of the relay.
//!
//! A run is a sequence of steps starting from a relay that nobody has
//! connected to. Each step is one call on the relay and is atomic, so a run
//! stands for any interleaving of the acceptor and of the loops of all
//! sessions. This module follows each session through such a run by the
//! session's own state machine, independently of the registry, and shows that
//! the two always agree: the registry holds a session exactly while that
//! session is active.

use vstd::prelude::*;
use crate::dispatcher::lemma_delivery_keeps_members;
use crate::message::MessageView;
use crate::relay::RelayView;
use crate::session::SessionState;

verus! {

/// One atomic step of the relay.
pub enum RelayStep {
    /// A handshake with this peer completed.
    Connect(Seq<char>),
    /// One of the loops of this session ended.
    Disconnect(u64),
    /// This message was delivered.
    Broadcast(MessageView),
    /// The outbound loop of this session took its next pending message.
    Take(u64),
    /// The relay was shut down.
    ShutDown,
}

/// The relay after one step.
pub open spec fn step(relay: RelayView, s: RelayStep) -> RelayView {
    match s {
        RelayStep::Connect(peer) => relay.accept(peer),
        RelayStep::Disconnect(id) => relay.close(id),
        RelayStep::Broadcast(m) => relay.broadcast(m),
        RelayStep::Take(id) => relay.take(id),
        RelayStep::ShutDown => relay.shut_down(),
    }
}

/// The relay after the steps `steps`, taken in order from `start`.
pub open spec fn relay_after(start: RelayView, steps: Seq<RelayStep>) -> RelayView
    decreases steps.len(),
{
    if steps.len() == 0 {
        start
    } else {
        step(relay_after(start, steps.drop_last()), steps.last())
    }
}

/// The state of the session `id` after one more step, by the session's own
/// state machine. `None` stands for a session that does not exist yet.
///
/// A session comes into being when a handshake completes and the acceptor
/// hands out its id; it passes through `Connecting` within that step and is
/// `Active` after it. It ends when one of its loops ends or when the relay is
/// shut down; it passes through `Closing` within that step and is `Closed`
/// after it, for good.
pub open spec fn session_step(
    state: Option<SessionState>,
    id: u64,
    relay: RelayView,
    s: RelayStep,
) -> Option<SessionState> {
    match s {
        RelayStep::Connect(_) => if state.is_none() && relay.admits() && relay.next_id == id {
            SessionState::Connecting.successor()
        } else {
            state
        },
        RelayStep::Disconnect(d) => if d == id && state == Some(SessionState::Active) {
            SessionState::Closing.successor()
        } else {
            state
        },
        RelayStep::ShutDown => if state == Some(SessionState::Active) {
            SessionState::Closing.successor()
        } else {
            state
        },
        _ => state,
    }
}

/// The state of the session `id` after the steps `steps`, taken in order from
/// a relay that nobody has connected to.
pub open spec fn session_state_after(
    queue_capacity: nat,
    echo: bool,
    steps: Seq<RelayStep>,
    id: u64,
) -> Option<SessionState>
    decreases steps.len(),
{
    if steps.len() == 0 {
        None
    } else {
        session_step(
            session_state_after(queue_capacity, echo, steps.drop_last(), id),
            id,
            relay_after(RelayView::initial(queue_capacity, echo), steps.drop_last()),
            steps.last(),
        )
    }
}

/// The sessions that are active after the steps `steps`.
pub open spec fn active_sessions(queue_capacity: nat, echo: bool, steps: Seq<RelayStep>) -> Set<u64> {
    Set::new(
        |id: u64| session_state_after(queue_capacity, echo, steps, id) == Some(SessionState::Active),
    )
}

/// Every step keeps the relay in order.
pub proof fn lemma_step_keeps_relay_wf(relay: RelayView, s: RelayStep)
    requires
        relay.wf(),
    ensures
        step(relay, s).wf(),
{
    if let RelayStep::Broadcast(m) = s {
        lemma_delivery_keeps_members(relay.members, m, relay.echo);
    }
}

/// No leaks and no phantom members: after any sequence of connects,
/// disconnects, deliveries, takes and shutdowns, a session is registered if
/// and only if it is active, and the registry counts exactly the active
/// sessions. A session that is not registered either does not exist yet, in
/// which case its id has not been handed out, or is closed.
pub proof fn lemma_members_are_the_active_sessions(
    queue_capacity: nat,
    echo: bool,
    steps: Seq<RelayStep>,
)
    ensures
        relay_after(RelayView::initial(queue_capacity, echo), steps).wf(),
        forall|id: u64|
            relay_after(RelayView::initial(queue_capacity, echo), steps).members.contains_key(id) <==> (
            #[trigger] session_state_after(queue_capacity, echo, steps, id)) == Some(
                SessionState::Active,
            ),
        forall|id: u64|
            !relay_after(RelayView::initial(queue_capacity, echo), steps).members.contains_key(id) ==> (
            #[trigger] session_state_after(queue_capacity, echo, steps, id)) == if id < relay_after(
                RelayView::initial(queue_capacity, echo),
                steps,
            ).next_id {
                Some(SessionState::Closed)
            } else {
                None
            },
        relay_after(RelayView::initial(queue_capacity, echo), steps).members.dom() == active_sessions(
            queue_capacity,
            echo,
            steps,
        ),
        relay_after(RelayView::initial(queue_capacity, echo), steps).members.dom().len()
            == active_sessions(queue_capacity, echo, steps).len(),
    decreases steps.len(),
{
    if steps.len() > 0 {
        let earlier = steps.drop_last();
        let before = relay_after(RelayView::initial(queue_capacity, echo), earlier);
        lemma_members_are_the_active_sessions(queue_capacity, echo, earlier);
        lemma_step_keeps_relay_wf(before, steps.last());
    }
}

} // verus!
