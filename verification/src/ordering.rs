//! The order in which one session gets its messages over a run of the relay.
//!
//! The queue of a session is touched by two kinds of relay step only: a
//! delivery of which the session is a target offers it a message, and a step
//! of its own outbound loop takes one. This module reads those steps off a run
//! and shows that the session's queue is the queue that these offers and takes
//! make, so that what the session writes to its socket is, in order, what it
//! accepted.

use vstd::prelude::*;
use crate::dispatcher::is_target;
use crate::lifecycle::{lemma_step_keeps_relay_wf, relay_after, RelayStep};
use crate::queue::{accepted_during, lemma_queue_is_fifo, queue_after, taken_during, QueueOp};
use crate::relay::RelayView;

verus! {

/// What the steps `steps` do to the queue of the session `id`, in order.
pub open spec fn queue_ops_of(steps: Seq<RelayStep>, id: u64, echo: bool) -> Seq<QueueOp>
    decreases steps.len(),
{
    if steps.len() == 0 {
        Seq::empty()
    } else {
        let earlier = queue_ops_of(steps.drop_last(), id, echo);
        match steps.last() {
            RelayStep::Broadcast(m) => if is_target(id, m, echo) {
                earlier.push(QueueOp::Offer(m))
            } else {
                earlier
            },
            RelayStep::Take(t) => if t == id {
                earlier.push(QueueOp::Take)
            } else {
                earlier
            },
            _ => earlier,
        }
    }
}

/// Whether the session `id` outlives the steps `steps`: none of them closes it
/// and none shuts the relay down.
pub open spec fn outlives(steps: Seq<RelayStep>, id: u64) -> bool {
    forall|k: int|
        0 <= k < steps.len() ==> #[trigger] steps[k] != RelayStep::Disconnect(id) && !(steps[k] is ShutDown)
}

/// A session that outlives a run stays registered through it, and its queue
/// at the end is what the offers and takes of that run make of its queue at
/// the start. Nothing else that happens in the relay, to this session or to
/// any other, touches it.
pub proof fn lemma_queue_follows_its_own_steps(start: RelayView, steps: Seq<RelayStep>, id: u64)
    requires
        start.wf(),
        start.members.contains_key(id),
        outlives(steps, id),
    ensures
        relay_after(start, steps).wf(),
        relay_after(start, steps).echo == start.echo,
        relay_after(start, steps).members.contains_key(id),
        relay_after(start, steps).members[id].outbound == queue_after(
            start.members[id].outbound,
            queue_ops_of(steps, id, start.echo),
        ),
    decreases steps.len(),
{
    if steps.len() > 0 {
        let earlier = steps.drop_last();
        let ops = queue_ops_of(earlier, id, start.echo);
        lemma_queue_follows_its_own_steps(start, earlier, id);
        lemma_step_keeps_relay_wf(relay_after(start, earlier), steps.last());
        match steps.last() {
            RelayStep::Broadcast(m) => {
                if is_target(id, m, start.echo) {
                    assert(ops.push(QueueOp::Offer(m)).drop_last() == ops);
                }
            },
            RelayStep::Take(t) => {
                if t == id {
                    assert(ops.push(QueueOp::Take).drop_last() == ops);
                }
            },
            _ => {},
        }
    }
}

/// Order preservation over a whole run: for a session that outlives the run,
/// the messages it has taken to write, followed by the messages still pending
/// for it, are the messages that were pending at the start followed by the
/// messages it accepted during the run, in the order in which they were
/// delivered. So of two messages that it reads, it reads first the one that
/// was sent first.
pub proof fn lemma_session_reads_in_sending_order(start: RelayView, steps: Seq<RelayStep>, id: u64)
    requires
        start.wf(),
        start.members.contains_key(id),
        outlives(steps, id),
    ensures
        relay_after(start, steps).members.contains_key(id),
        taken_during(start.members[id].outbound, queue_ops_of(steps, id, start.echo)) + relay_after(
            start,
            steps,
        ).members[id].outbound.items == start.members[id].outbound.items + accepted_during(
            start.members[id].outbound,
            queue_ops_of(steps, id, start.echo),
        ),
{
    lemma_queue_follows_its_own_steps(start, steps, id);
    lemma_queue_is_fifo(start.members[id].outbound, queue_ops_of(steps, id, start.echo));
}

} // verus!
