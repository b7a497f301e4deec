//! The dispatcher: fanning one message out to the other sessions.
//!
//! A delivery looks at the sessions that are registered at that moment and
//! offers the message to the outbound queue of each of them except, by
//! default, the one that sent it. An offer never waits. A recipient whose
//! queue is full loses this one message and nobody else notices.

use vstd::prelude::*;
use vstd::seq_lib::lemma_seq_contains_after_push;
use crate::message::{Message, MessageView};
use crate::registry::{members_wf, Offer, Registry};
use crate::session::SessionView;

verus! {

/// Whether the session `id` is to get the message `m`: every session but the
/// sender, and the sender too where echo is switched on.
pub open spec fn is_target(id: u64, m: MessageView, echo: bool) -> bool {
    echo || m.sender_id != Some(id)
}

/// The members after the delivery of `m`: each target was offered `m` once,
/// and nothing else changed.
pub open spec fn deliver_spec(members: Map<u64, SessionView>, m: MessageView, echo: bool) -> Map<
    u64,
    SessionView,
> {
    Map::new(
        |id: u64| members.contains_key(id),
        |id: u64|
            if is_target(id, m, echo) {
                members[id].receive(m)
            } else {
                members[id]
            },
    )
}

/// The targets of `m` whose queue has room for it.
pub open spec fn accepting(members: Map<u64, SessionView>, m: MessageView, echo: bool) -> Set<u64> {
    Set::new(
        |id: u64| members.contains_key(id) && is_target(id, m, echo) && !members[id].outbound.is_full(),
    )
}

/// The targets of `m` whose queue is full, so that they lose it.
pub open spec fn overflowing(members: Map<u64, SessionView>, m: MessageView, echo: bool) -> Set<u64> {
    Set::new(
        |id: u64| members.contains_key(id) && is_target(id, m, echo) && members[id].outbound.is_full(),
    )
}

/// What one delivery did.
#[derive(PartialEq, Eq, Debug)]
pub struct DeliveryReport {
    /// The sessions that now hold the message in their outbound queue.
    pub delivered: Vec<u64>,
    /// The sessions whose queue was full and that lost the message.
    pub dropped: Vec<u64>,
}

/// The fan-out policy.
#[derive(Clone, Copy, PartialEq, Eq, Debug, Structural)]
pub struct Dispatcher {
    /// Whether a sender gets its own messages back.
    pub echo: bool,
}

impl Dispatcher {
    /// A dispatcher that sends a message to everyone but its sender.
    pub fn new() -> (d: Dispatcher)
        ensures
            !d.echo,
    {
        Dispatcher { echo: false }
    }

    /// A dispatcher that also sends a message back to its sender if `echo` is
    /// set.
    pub fn with_echo(echo: bool) -> (d: Dispatcher)
        ensures
            d.echo == echo,
    {
        Dispatcher { echo }
    }

    /// Whether the session `id` is to get `message`.
    pub fn targets(&self, id: u64, message: &Message) -> (b: bool)
        ensures
            b == is_target(id, message@, self.echo),
    {
        if self.echo {
            true
        } else {
            match message.sender_id {
                Some(sender) => sender != id,
                None => true,
            }
        }
    }

    /// Delivers `message`: takes a snapshot of the registered sessions and
    /// offers each target its own copy, without waiting for any of them. The
    /// report names the sessions that took the message and those that lost it
    /// to a full queue.
    pub fn deliver(&self, registry: &mut Registry, message: &Message) -> (report: DeliveryReport)
        requires
            old(registry).wf(),
        ensures
            final(registry).wf(),
            final(registry)@ == deliver_spec(old(registry)@, message@, self.echo),
            report.delivered@.no_duplicates(),
            report.delivered@.to_set() == accepting(old(registry)@, message@, self.echo),
            report.dropped@.no_duplicates(),
            report.dropped@.to_set() == overflowing(old(registry)@, message@, self.echo),
    {
        let ghost before = registry@;
        let ghost m = message@;
        let ghost echo = self.echo;
        let targets = registry.snapshot();
        let mut delivered: Vec<u64> = Vec::new();
        let mut dropped: Vec<u64> = Vec::new();
        let mut i: usize = 0;
        while i < targets.len()
            invariant
                i <= targets.len(),
                m == message@,
                echo == self.echo,
                members_wf(before),
                targets@.no_duplicates(),
                targets@.to_set() == before.dom(),
                registry.wf(),
                registry@.dom() == before.dom(),
                forall|k: int|
                    0 <= k < i ==> registry@[#[trigger] targets@[k]] == deliver_spec(before, m, echo)[targets@[k]],
                forall|k: int| i <= k < targets.len() ==> registry@[#[trigger] targets@[k]] == before[targets@[k]],
                delivered@.no_duplicates(),
                forall|id: u64|
                    delivered@.contains(id) <==> targets@.take(i as int).contains(id) && accepting(
                        before,
                        m,
                        echo,
                    ).contains(id),
                dropped@.no_duplicates(),
                forall|id: u64|
                    dropped@.contains(id) <==> targets@.take(i as int).contains(id) && overflowing(
                        before,
                        m,
                        echo,
                    ).contains(id),
            decreases targets.len() - i,
        {
            let id = targets[i];
            let ghost seen = targets@.take(i as int);
            let ghost delivered_so_far = delivered@;
            let ghost dropped_so_far = dropped@;
            if self.targets(id, message) {
                match registry.offer(id, message.duplicate()) {
                    Offer::Enqueued => {
                        proof {
                            lemma_push_keeps_distinct(delivered@, id);
                        }
                        delivered.push(id);
                    },
                    Offer::Dropped => {
                        proof {
                            lemma_push_keeps_distinct(dropped@, id);
                        }
                        dropped.push(id);
                    },
                    Offer::Gone => {},
                }
            }
            proof {
                assert(targets@.take(i + 1) == seen.push(id));
                assert forall|x: u64|
                    delivered@.contains(x) <==> seen.push(id).contains(x) && accepting(
                        before,
                        m,
                        echo,
                    ).contains(x) by {
                    lemma_seq_contains_after_push(seen, id, x);
                    lemma_seq_contains_after_push(delivered_so_far, id, x);
                }
                assert forall|x: u64|
                    dropped@.contains(x) <==> seen.push(id).contains(x) && overflowing(
                        before,
                        m,
                        echo,
                    ).contains(x) by {
                    lemma_seq_contains_after_push(seen, id, x);
                    lemma_seq_contains_after_push(dropped_so_far, id, x);
                }
            }
            i = i + 1;
        }
        proof {
            assert(targets@.take(i as int) == targets@);
            assert forall|id: u64| before.contains_key(id) implies registry@[id] == deliver_spec(
                before,
                m,
                echo,
            )[id] by {
                let k = targets@.index_of(id);
                assert(targets@[k] == id);
            }
            assert(registry@ =~= deliver_spec(before, m, echo));
            assert(delivered@.to_set() =~= accepting(before, m, echo));
            assert(dropped@.to_set() =~= overflowing(before, m, echo));
        }
        DeliveryReport { delivered, dropped }
    }
}

/// Appending an element that a sequence does not hold keeps its elements
/// distinct.
proof fn lemma_push_keeps_distinct(s: Seq<u64>, last: u64)
    requires
        s.no_duplicates(),
        !s.contains(last),
    ensures
        s.push(last).no_duplicates(),
{
}

/// A delivery keeps the registry in order: the same sessions are registered
/// after it, all still active and within their bounds.
pub proof fn lemma_delivery_keeps_members(members: Map<u64, SessionView>, m: MessageView, echo: bool)
    requires
        members_wf(members),
    ensures
        members_wf(deliver_spec(members, m, echo)),
        deliver_spec(members, m, echo).dom() == members.dom(),
{
    let after = deliver_spec(members, m, echo);
    assert(after.dom() =~= members.dom());
    assert forall|id: u64| #[trigger] after.contains_key(id) implies after[id].id == id && after[id].state
        == crate::session::SessionState::Active && after[id].wf() by {
    }
}

/// No echo, and at most once: without echo a delivery leaves the sender's own
/// queue as it was, and the queue of every other session either as it was (it
/// was full) or longer by exactly this one message at its end.
pub proof fn lemma_delivered_at_most_once(members: Map<u64, SessionView>, m: MessageView, id: u64)
    requires
        members.contains_key(id),
    ensures
        m.sender_id == Some(id) ==> deliver_spec(members, m, false)[id] == members[id],
        m.sender_id != Some(id) && !members[id].outbound.is_full() ==> deliver_spec(
            members,
            m,
            false,
        )[id].outbound.items == members[id].outbound.items.push(m),
        m.sender_id != Some(id) && members[id].outbound.is_full() ==> deliver_spec(
            members,
            m,
            false,
        )[id].outbound.items == members[id].outbound.items,
{
}

/// Without echo, the sessions that a delivery reports are exactly the sessions
/// other than the sender: each of them either took the message or lost it,
/// none did both, and the sender is not among them.
pub proof fn lemma_report_names_the_others(members: Map<u64, SessionView>, m: MessageView, sender: u64)
    requires
        m.sender_id == Some(sender),
    ensures
        accepting(members, m, false).union(overflowing(members, m, false)) == members.dom().remove(
            sender,
        ),
        accepting(members, m, false).disjoint(overflowing(members, m, false)),
{
    assert(accepting(members, m, false).union(overflowing(members, m, false)) =~= members.dom().remove(
        sender,
    ));
}

/// Order is kept: when a session is offered `first` and then `second` and has
/// room for both, it holds them at the end of its queue in that order, behind
/// everything that was pending before.
pub proof fn lemma_deliveries_keep_their_order(
    members: Map<u64, SessionView>,
    first: MessageView,
    second: MessageView,
    echo: bool,
    id: u64,
)
    requires
        members.contains_key(id),
        is_target(id, first, echo),
        is_target(id, second, echo),
        members[id].outbound.items.len() + 2 <= members[id].outbound.capacity,
    ensures
        deliver_spec(deliver_spec(members, first, echo), second, echo)[id].outbound.items
            == members[id].outbound.items.push(first).push(second),
{
}

/// Overflow is isolated: what a delivery does to one session depends on that
/// session alone. Whatever state another session `stalled` is in, full or not,
/// registered or not, the session `other` gets the same offer with the
/// same result; and a full session keeps what it holds and counts one drop.
pub proof fn lemma_overflow_is_isolated(
    members: Map<u64, SessionView>,
    m: MessageView,
    echo: bool,
    stalled: u64,
    replaced: SessionView,
    other: u64,
)
    requires
        members.contains_key(other),
        stalled != other,
    ensures
        deliver_spec(members.insert(stalled, replaced), m, echo)[other] == deliver_spec(
            members,
            m,
            echo,
        )[other],
        deliver_spec(members.remove(stalled), m, echo)[other] == deliver_spec(members, m, echo)[other],
        is_target(other, m, echo) && !members[other].outbound.is_full() ==> deliver_spec(
            members.insert(stalled, replaced),
            m,
            echo,
        )[other].outbound.items == members[other].outbound.items.push(m),
        members.contains_key(stalled) && is_target(stalled, m, echo)
            && members[stalled].outbound.is_full() ==> {
            &&& deliver_spec(members, m, echo)[stalled].outbound.items
                == members[stalled].outbound.items
            &&& deliver_spec(members, m, echo)[stalled].outbound.dropped
                == members[stalled].outbound.count_drop()
        },
{
}

} // verus!
