use construction_sandbox::events::Events;
use construction_sandbox::state::NextState;

#[test]
fn events_come_out_in_the_order_of_submission() {
    let mut events: Events<u32> = Events::new();
    assert!(events.is_empty());
    events.send(3);
    events.send(1);
    events.send(2);
    assert_eq!(events.len(), 3);
    assert_eq!(events.drain(), vec![3, 1, 2]);
    assert!(events.is_empty());
    assert_eq!(events.drain(), Vec::<u32>::new());
    events.send(9);
    assert_eq!(events.drain(), vec![9]);
}

#[test]
fn a_later_request_replaces_an_earlier_one() {
    let mut next: NextState<u8> = NextState::Unchanged;
    assert_eq!(next.take(), None);
    next.set(1);
    next.set(2);
    assert_eq!(next, NextState::Pending(2));
    assert_eq!(next.take(), Some(2));
    assert_eq!(next, NextState::Unchanged);
    assert_eq!(next.take(), None);
}
