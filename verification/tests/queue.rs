use relay_core::message::{FrameKind, Message};
use relay_core::queue::OutboundQueue;

fn queued_text(sender: u64, body: &str) -> Message {
    Message::new(Some(sender), FrameKind::Text, body.as_bytes().to_vec())
}

#[test]
fn new_queue_is_empty() {
    let q = OutboundQueue::new(4);
    assert_eq!(q.len(), 0);
    assert!(q.is_empty());
    assert!(!q.is_full());
    assert_eq!(q.capacity(), 4);
    assert_eq!(q.dropped(), 0);
}

#[test]
fn queue_hands_messages_out_in_arrival_order() {
    let mut q = OutboundQueue::new(3);
    assert!(q.try_enqueue(queued_text(1, "a")));
    assert!(q.try_enqueue(queued_text(1, "b")));
    assert!(q.try_enqueue(queued_text(2, "c")));
    assert_eq!(q.dequeue(), Some(queued_text(1, "a")));
    assert_eq!(q.dequeue(), Some(queued_text(1, "b")));
    assert_eq!(q.dequeue(), Some(queued_text(2, "c")));
    assert_eq!(q.dequeue(), None);
}

#[test]
fn full_queue_drops_the_new_message_and_counts_it() {
    let mut q = OutboundQueue::new(2);
    assert!(q.try_enqueue(queued_text(1, "a")));
    assert!(q.try_enqueue(queued_text(1, "b")));
    assert!(q.is_full());
    assert!(!q.try_enqueue(queued_text(1, "c")));
    assert!(!q.try_enqueue(queued_text(1, "d")));
    assert_eq!(q.len(), 2);
    assert_eq!(q.dropped(), 2);
    assert_eq!(q.dequeue(), Some(queued_text(1, "a")));
    assert_eq!(q.dequeue(), Some(queued_text(1, "b")));
    assert_eq!(q.dequeue(), None);
    assert_eq!(q.dropped(), 2);
}

#[test]
fn queue_takes_messages_again_once_there_is_room() {
    let mut q = OutboundQueue::new(1);
    assert!(q.try_enqueue(queued_text(1, "a")));
    assert!(!q.try_enqueue(queued_text(1, "b")));
    assert_eq!(q.dequeue(), Some(queued_text(1, "a")));
    assert!(q.try_enqueue(queued_text(1, "c")));
    assert_eq!(q.dequeue(), Some(queued_text(1, "c")));
    assert_eq!(q.dropped(), 1);
}

#[test]
fn queue_without_capacity_drops_everything() {
    let mut q = OutboundQueue::new(0);
    assert!(q.is_full());
    assert!(q.is_empty());
    assert!(!q.try_enqueue(queued_text(1, "a")));
    assert_eq!(q.len(), 0);
    assert_eq!(q.dropped(), 1);
    assert_eq!(q.dequeue(), None);
}

#[test]
fn dequeue_of_empty_queue_changes_nothing() {
    let mut q = OutboundQueue::new(2);
    assert_eq!(q.dequeue(), None);
    assert_eq!(q.len(), 0);
    assert_eq!(q.capacity(), 2);
    assert_eq!(q.dropped(), 0);
}

#[test]
fn interleaved_offers_and_takes_keep_the_order() {
    let mut q = OutboundQueue::new(2);
    let mut taken: Vec<Message> = Vec::new();
    assert!(q.try_enqueue(queued_text(1, "m1")));
    assert!(q.try_enqueue(queued_text(1, "m2")));
    assert!(!q.try_enqueue(queued_text(1, "m3")));
    taken.push(q.dequeue().unwrap());
    assert!(q.try_enqueue(queued_text(1, "m4")));
    taken.push(q.dequeue().unwrap());
    taken.push(q.dequeue().unwrap());
    assert_eq!(taken, vec![queued_text(1, "m1"), queued_text(1, "m2"), queued_text(1, "m4")]);
    assert_eq!(q.dropped(), 1);
}

#[test]
fn duplicate_keeps_sender_kind_and_bytes() {
    let m = Message::new(Some(7), FrameKind::Binary, vec![0, 255, 17]);
    let copy = m.duplicate();
    assert_eq!(copy, m);
    assert_eq!(copy.sender_id, Some(7));
    assert_eq!(copy.kind, FrameKind::Binary);
    assert_eq!(copy.payload, vec![0, 255, 17]);
}
