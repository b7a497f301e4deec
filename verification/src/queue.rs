//! The bounded outbound queue of one session.
//!
//! Every session owns one queue of messages that wait to be written to its
//! socket. The dispatcher only ever appends to it and never waits: when the
//! queue is full the new message is dropped for this one recipient and counted.
//! That bounds the memory a stalled client can hold and keeps one slow reader
//! from slowing anybody else.

use std::collections::VecDeque;
use vstd::prelude::*;
use crate::message::{Message, MessageView};

verus! {

/// The mathematical value of an [`OutboundQueue`].
pub struct QueueView {
    /// The pending messages, oldest first.
    pub items: Seq<MessageView>,
    /// How many messages the queue holds at most.
    pub capacity: nat,
    /// How many messages were dropped because the queue was full.
    pub dropped: nat,
}

impl QueueView {
    /// An empty queue with room for `capacity` messages.
    pub open spec fn empty(capacity: nat) -> QueueView {
        QueueView { items: Seq::empty(), capacity, dropped: 0 }
    }

    /// The queue never holds more than its capacity.
    pub open spec fn wf(self) -> bool {
        self.items.len() <= self.capacity
    }

    pub open spec fn is_full(self) -> bool {
        self.items.len() >= self.capacity
    }

    /// The drop counter after one more drop. It stops at the largest value a
    /// `u64` holds.
    pub open spec fn count_drop(self) -> nat {
        if self.dropped < u64::MAX {
            self.dropped + 1
        } else {
            self.dropped
        }
    }

    /// The queue after an attempt to append `m`: `m` is last if there was
    /// room, else the queue holds what it held and has counted one more drop.
    pub open spec fn enqueue(self, m: MessageView) -> QueueView {
        if self.is_full() {
            QueueView { dropped: self.count_drop(), ..self }
        } else {
            QueueView { items: self.items.push(m), ..self }
        }
    }

    /// The oldest pending message, if there is one.
    pub open spec fn front(self) -> Option<MessageView> {
        if self.items.len() > 0 {
            Some(self.items[0])
        } else {
            None
        }
    }

    /// The queue without its oldest pending message.
    pub open spec fn dequeue(self) -> QueueView {
        if self.items.len() > 0 {
            QueueView { items: self.items.drop_first(), ..self }
        } else {
            self
        }
    }
}

/// A bounded first-in-first-out queue of messages with a drop counter.
#[derive(PartialEq, Eq, Debug)]
pub struct OutboundQueue {
    items: VecDeque<Message>,
    capacity: usize,
    dropped: u64,
}

impl View for OutboundQueue {
    type V = QueueView;

    closed spec fn view(&self) -> QueueView {
        QueueView {
            items: self.items@.map_values(|m: Message| m@),
            capacity: self.capacity as nat,
            dropped: self.dropped as nat,
        }
    }
}

impl OutboundQueue {
    /// The queue respects its bound.
    pub open spec fn wf(&self) -> bool {
        self@.wf()
    }

    /// An empty queue that holds at most `capacity` messages. With a capacity
    /// of zero every message offered is dropped.
    pub fn new(capacity: usize) -> (q: OutboundQueue)
        ensures
            q.wf(),
            q@ == QueueView::empty(capacity as nat),
    {
        let q = OutboundQueue { items: VecDeque::new(), capacity, dropped: 0 };
        assert(q@.items =~= Seq::empty());
        q
    }

    /// Appends `message` if there is room and says whether it did. The call
    /// never waits: a message that finds the queue full is dropped and counted.
    pub fn try_enqueue(&mut self, message: Message) -> (accepted: bool)
        requires
            old(self).wf(),
        ensures
            final(self).wf(),
            accepted == !old(self)@.is_full(),
            final(self)@ == old(self)@.enqueue(message@),
    {
        if self.items.len() < self.capacity {
            self.items.push_back(message);
            assert(self@.items =~= old(self)@.items.push(message@));
            true
        } else {
            if self.dropped < u64::MAX {
                self.dropped = self.dropped + 1;
            }
            false
        }
    }

    /// Takes the oldest pending message out of the queue.
    pub fn dequeue(&mut self) -> (next: Option<Message>)
        requires
            old(self).wf(),
        ensures
            final(self).wf(),
            final(self)@ == old(self)@.dequeue(),
            match next {
                Some(m) => old(self)@.front() == Some(m@),
                None => old(self)@.front().is_none(),
            },
    {
        let next = self.items.pop_front();
        assert(self@.items =~= old(self)@.dequeue().items);
        next
    }

    /// The number of pending messages.
    pub fn len(&self) -> (n: usize)
        ensures
            n == self@.items.len(),
    {
        self.items.len()
    }

    pub fn is_empty(&self) -> (b: bool)
        ensures
            b == (self@.items.len() == 0),
    {
        self.items.len() == 0
    }

    /// Whether the next message offered would be dropped.
    pub fn is_full(&self) -> (b: bool)
        ensures
            b == self@.is_full(),
    {
        self.items.len() >= self.capacity
    }

    pub fn capacity(&self) -> (c: usize)
        ensures
            c == self@.capacity,
    {
        self.capacity
    }

    /// How many messages this queue has dropped so far.
    pub fn dropped(&self) -> (d: u64)
        ensures
            d == self@.dropped,
    {
        self.dropped
    }
}

/// One step in the life of a queue: the dispatcher offers a message, or the
/// session's outbound loop takes the next one.
pub enum QueueOp {
    Offer(MessageView),
    Take,
}

/// The queue after the steps `ops`, applied in order to `q`.
pub open spec fn queue_after(q: QueueView, ops: Seq<QueueOp>) -> QueueView
    decreases ops.len(),
{
    if ops.len() == 0 {
        q
    } else {
        let before = queue_after(q, ops.drop_last());
        match ops.last() {
            QueueOp::Offer(m) => before.enqueue(m),
            QueueOp::Take => before.dequeue(),
        }
    }
}

/// The messages that the queue accepted during `ops`, in the order in which
/// they were offered.
pub open spec fn accepted_during(q: QueueView, ops: Seq<QueueOp>) -> Seq<MessageView>
    decreases ops.len(),
{
    if ops.len() == 0 {
        Seq::empty()
    } else {
        let before = queue_after(q, ops.drop_last());
        let earlier = accepted_during(q, ops.drop_last());
        match ops.last() {
            QueueOp::Offer(m) => if before.is_full() {
                earlier
            } else {
                earlier.push(m)
            },
            QueueOp::Take => earlier,
        }
    }
}

/// The messages that left the queue during `ops`, in the order in which they
/// were taken.
pub open spec fn taken_during(q: QueueView, ops: Seq<QueueOp>) -> Seq<MessageView>
    decreases ops.len(),
{
    if ops.len() == 0 {
        Seq::empty()
    } else {
        let before = queue_after(q, ops.drop_last());
        let earlier = taken_during(q, ops.drop_last());
        match ops.last() {
            QueueOp::Offer(_) => earlier,
            QueueOp::Take => match before.front() {
                Some(m) => earlier.push(m),
                None => earlier,
            },
        }
    }
}

/// The bound survives every sequence of steps; the capacity never changes and
/// the drop counter never goes down.
pub proof fn lemma_queue_stays_bounded(q: QueueView, ops: Seq<QueueOp>)
    requires
        q.wf(),
    ensures
        queue_after(q, ops).wf(),
        queue_after(q, ops).capacity == q.capacity,
        queue_after(q, ops).dropped >= q.dropped,
    decreases ops.len(),
{
    if ops.len() > 0 {
        lemma_queue_stays_bounded(q, ops.drop_last());
    }
}

/// First in, first out: whatever the interleaving of offers and takes, the
/// messages taken so far followed by the messages still pending are exactly
/// the messages that were pending at the start followed by the messages
/// accepted since, in the order of their arrival. So a recipient sees two
/// accepted messages in the order in which they were sent.
pub proof fn lemma_queue_is_fifo(q: QueueView, ops: Seq<QueueOp>)
    ensures
        taken_during(q, ops) + queue_after(q, ops).items == q.items + accepted_during(q, ops),
    decreases ops.len(),
{
    if ops.len() > 0 {
        let shorter = ops.drop_last();
        lemma_queue_is_fifo(q, shorter);
        if let QueueOp::Offer(m) = ops.last() {
            let accepted = accepted_during(q, shorter);
            assert(q.items + accepted.push(m) == (q.items + accepted).push(m));
        }
    }
}

} // verus!
