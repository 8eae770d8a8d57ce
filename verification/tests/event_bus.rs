use p2p_core::{EventBus, PeerDiscoveryError, PeerEvent, TryRecvError};

fn error(detail: &str) -> PeerEvent {
    PeerEvent::Error(PeerDiscoveryError::IoError(detail.to_string()))
}

fn detail(event: PeerEvent) -> String {
    match event {
        PeerEvent::Error(e) => e.detail().clone(),
        other => panic!("unexpected: {:?}", other),
    }
}

#[test]
fn a_subscriber_receives_what_is_published_after_it_subscribed() {
    let mut bus = EventBus::new(4);
    bus.publish(error("before"));
    let receiver = bus.subscribe();
    assert_eq!(bus.pending(&receiver), 0);
    assert_eq!(bus.try_recv(&receiver).unwrap_err(), TryRecvError::Empty);

    bus.publish(error("one"));
    bus.publish(PeerEvent::ServiceStarted);
    assert_eq!(bus.pending(&receiver), 2);
    assert_eq!(detail(bus.try_recv(&receiver).unwrap()), "one");
    assert!(matches!(bus.try_recv(&receiver), Ok(PeerEvent::ServiceStarted)));
    assert_eq!(bus.try_recv(&receiver).unwrap_err(), TryRecvError::Empty);
}

#[test]
fn every_subscriber_has_a_cursor_of_its_own() {
    let mut bus = EventBus::new(8);
    let first = bus.subscribe();
    bus.publish(error("a"));
    let second = bus.subscribe();
    bus.publish(error("b"));

    assert_eq!(detail(bus.try_recv(&first).unwrap()), "a");
    assert_eq!(detail(bus.try_recv(&second).unwrap()), "b");
    assert_eq!(detail(bus.try_recv(&first).unwrap()), "b");
    assert_eq!(bus.try_recv(&first).unwrap_err(), TryRecvError::Empty);
    assert_eq!(bus.try_recv(&second).unwrap_err(), TryRecvError::Empty);
}

#[test]
fn a_full_buffer_drops_its_oldest_event_and_reports_the_gap() {
    let mut bus = EventBus::new(2);
    assert_eq!(bus.capacity(), 2);
    let slow = bus.subscribe();
    for name in ["a", "b", "c", "d", "e"] {
        bus.publish(error(name));
    }
    assert_eq!(bus.pending(&slow), 2);
    assert_eq!(bus.try_recv(&slow).unwrap_err(), TryRecvError::Lagged(3));
    assert_eq!(detail(bus.try_recv(&slow).unwrap()), "d");
    bus.publish(error("f"));
    assert_eq!(detail(bus.try_recv(&slow).unwrap()), "e");
    assert_eq!(detail(bus.try_recv(&slow).unwrap()), "f");
    assert_eq!(bus.try_recv(&slow).unwrap_err(), TryRecvError::Empty);
}

#[test]
fn a_bus_without_room_keeps_nothing_and_counts() {
    let mut bus = EventBus::new(0);
    let receiver = bus.subscribe();
    bus.publish(error("a"));
    bus.publish(error("b"));
    assert_eq!(bus.pending(&receiver), 0);
    assert_eq!(bus.try_recv(&receiver).unwrap_err(), TryRecvError::Lagged(2));
    assert_eq!(bus.try_recv(&receiver).unwrap_err(), TryRecvError::Empty);
}

#[test]
fn an_ended_subscription_is_closed() {
    let mut bus = EventBus::new(4);
    let first = bus.subscribe();
    let second = bus.subscribe();
    bus.publish(error("a"));
    assert!(bus.is_subscribed(&first));
    bus.unsubscribe(first);
    bus.publish(error("b"));
    assert_eq!(detail(bus.try_recv(&second).unwrap()), "a");
    assert_eq!(detail(bus.try_recv(&second).unwrap()), "b");

    // a receiver of another bus is none of this one
    let mut other = EventBus::new(4);
    other.subscribe();
    other.subscribe();
    let stranger = other.subscribe();
    assert!(!bus.is_subscribed(&stranger));
    assert_eq!(bus.try_recv(&stranger).unwrap_err(), TryRecvError::Closed);
    assert_eq!(bus.pending(&stranger), 0);
    bus.unsubscribe(stranger);
    assert!(bus.is_subscribed(&second));

    let gone = other.subscribe();
    let mut first_again = EventBus::new(1);
    let zero = first_again.subscribe();
    first_again.unsubscribe(zero);
    let mut probe = EventBus::new(1);
    let at_zero = probe.subscribe();
    assert_eq!(first_again.try_recv(&at_zero).unwrap_err(), TryRecvError::Closed);
    assert!(other.is_subscribed(&gone));
}

#[test]
fn publishing_without_subscribers_is_fine() {
    let mut bus = EventBus::new(3);
    bus.publish(PeerEvent::ServiceStopped);
    let receiver = bus.subscribe();
    assert_eq!(bus.try_recv(&receiver).unwrap_err(), TryRecvError::Empty);
}
