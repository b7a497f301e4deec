use relay_core::message::{FrameKind, Message};
use relay_core::registry::{Offer, Registry, RegistryError};
use relay_core::session::{Session, SessionState};

fn registered(id: u64, capacity: usize) -> Session {
    let mut s = Session::new(id, format!("peer-{}", id), capacity);
    assert_eq!(s.transition(SessionState::Active), Ok(()));
    s
}

fn in_order(mut ids: Vec<u64>) -> Vec<u64> {
    ids.sort();
    ids
}

#[test]
fn new_registry_has_no_members() {
    let r = Registry::new();
    assert_eq!(r.len(), 0);
    assert!(r.is_empty());
    assert_eq!(r.snapshot(), Vec::<u64>::new());
    assert!(!r.contains(0));
    assert!(r.get(0).is_none());
}

#[test]
fn add_registers_a_session_under_its_id() {
    let mut r = Registry::new();
    assert_eq!(r.add(registered(5, 2)), Ok(()));
    assert_eq!(r.len(), 1);
    assert!(r.contains(5));
    assert!(!r.contains(4));
    let s = r.get(5).unwrap();
    assert_eq!(s.id(), 5);
    assert_eq!(s.peer(), "peer-5");
    assert_eq!(s.state(), SessionState::Active);
}

#[test]
fn add_fails_only_on_a_duplicate_id() {
    let mut r = Registry::new();
    assert_eq!(r.add(registered(5, 2)), Ok(()));
    assert_eq!(r.add(registered(6, 2)), Ok(()));
    assert_eq!(r.add(registered(5, 9)), Err(RegistryError::DuplicateId(5)));
    assert_eq!(r.len(), 2);
    assert_eq!(r.get(5).unwrap().outbound().capacity(), 2);
}

#[test]
fn remove_hands_the_session_over() {
    let mut r = Registry::new();
    assert_eq!(r.add(registered(1, 2)), Ok(()));
    assert_eq!(r.add(registered(2, 2)), Ok(()));
    let s = r.remove(1).unwrap();
    assert_eq!(s.id(), 1);
    assert_eq!(r.len(), 1);
    assert!(!r.contains(1));
    assert!(r.contains(2));
}

#[test]
fn removing_twice_is_the_same_as_removing_once() {
    let mut r = Registry::new();
    assert_eq!(r.add(registered(1, 2)), Ok(()));
    assert_eq!(r.add(registered(2, 2)), Ok(()));
    assert!(r.remove(1).is_some());
    let after_first = in_order(r.snapshot());
    assert!(r.remove(1).is_none());
    assert_eq!(in_order(r.snapshot()), after_first);
    assert_eq!(after_first, vec![2]);
    assert_eq!(r.len(), 1);
}

#[test]
fn removing_a_stranger_is_no_error() {
    let mut r = Registry::new();
    assert!(r.remove(77).is_none());
    assert_eq!(r.len(), 0);
}

#[test]
fn snapshot_names_every_member_once() {
    let mut r = Registry::new();
    for id in [10, 3, 7, 1] {
        assert_eq!(r.add(registered(id, 1)), Ok(()));
    }
    assert_eq!(in_order(r.snapshot()), vec![1, 3, 7, 10]);
}

#[test]
fn snapshot_is_a_copy() {
    let mut r = Registry::new();
    assert_eq!(r.add(registered(1, 1)), Ok(()));
    assert_eq!(r.add(registered(2, 1)), Ok(()));
    let snap = in_order(r.snapshot());
    assert!(r.remove(1).is_some());
    assert_eq!(r.add(registered(3, 1)), Ok(()));
    assert_eq!(snap, vec![1, 2]);
    assert_eq!(in_order(r.snapshot()), vec![2, 3]);
}

#[test]
fn offer_tells_what_became_of_the_message() {
    let mut r = Registry::new();
    assert_eq!(r.add(registered(1, 1)), Ok(()));
    let m = Message::new(Some(2), FrameKind::Text, b"x".to_vec());
    assert_eq!(r.offer(1, m.duplicate()), Offer::Enqueued);
    assert_eq!(r.offer(1, m.duplicate()), Offer::Dropped);
    assert_eq!(r.offer(9, m.duplicate()), Offer::Gone);
    assert_eq!(r.len(), 1);
    assert_eq!(r.get(1).unwrap().outbound().len(), 1);
    assert_eq!(r.get(1).unwrap().outbound().dropped(), 1);
}

#[test]
fn take_next_hands_out_the_oldest_message_of_a_member() {
    let mut r = Registry::new();
    assert_eq!(r.add(registered(1, 4)), Ok(()));
    let a = Message::new(Some(2), FrameKind::Text, b"a".to_vec());
    let b = Message::new(Some(3), FrameKind::Binary, vec![1, 2]);
    assert_eq!(r.offer(1, a.duplicate()), Offer::Enqueued);
    assert_eq!(r.offer(1, b.duplicate()), Offer::Enqueued);
    assert_eq!(r.take_next(1), Some(a));
    assert_eq!(r.take_next(1), Some(b));
    assert_eq!(r.take_next(1), None);
    assert_eq!(r.take_next(2), None);
    assert!(r.contains(1));
}
