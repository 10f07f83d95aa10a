use studio_coord::bus::MessageBus;
use studio_coord::bus::PublishOutcome;
use studio_coord::messages::Message;
use studio_coord::messages::SvcError;

fn stop(server: &str) -> Message {
    Message::Stop { server: server.to_string() }
}

#[test]
fn publish_fills_slots_then_suspends() {
    let mut bus = MessageBus::new(2);
    assert_eq!(bus.publish(stop("a")), Ok(PublishOutcome::Delivered));
    assert_eq!(bus.publish(stop("b")), Ok(PublishOutcome::Delivered));
    // Both slots taken: the third producer is suspended, its message kept.
    assert_eq!(bus.publish(stop("c")), Ok(PublishOutcome::Suspended));
    // The consumer drains in publish order; freeing a slot lets the
    // suspended message in.
    assert_eq!(bus.recv(), Some(stop("a")));
    assert_eq!(bus.recv(), Some(stop("b")));
    assert_eq!(bus.recv(), Some(stop("c")));
    assert_eq!(bus.recv(), None);
}

#[test]
fn recv_on_empty_bus_is_no_message() {
    let mut bus = MessageBus::new(3);
    assert_eq!(bus.recv(), None);
}

#[test]
fn closed_bus_refuses_publish() {
    let mut bus = MessageBus::new(1);
    bus.close();
    assert_eq!(bus.publish(stop("a")), Err(SvcError::DispatchFailure));
    assert_eq!(bus.recv(), None);
}

#[test]
fn slot_freed_by_recv_accepts_the_next_publish_directly() {
    let mut bus = MessageBus::new(1);
    assert_eq!(bus.publish(stop("a")), Ok(PublishOutcome::Delivered));
    assert_eq!(bus.publish(stop("b")), Ok(PublishOutcome::Suspended));
    assert_eq!(bus.recv(), Some(stop("a")));
    // The suspended message took the freed slot, so the bus is full again.
    assert_eq!(bus.publish(stop("c")), Ok(PublishOutcome::Suspended));
    assert_eq!(bus.recv(), Some(stop("b")));
    assert_eq!(bus.recv(), Some(stop("c")));
    assert_eq!(bus.recv(), None);
}
