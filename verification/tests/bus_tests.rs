use mucbot_core::bus::EventBus;
use mucbot_core::event::{Direction, Event, Timestamp};
use mucbot_core::identity::Identity;

fn message(n: i64) -> Event {
    Event::Message {
        from: Identity::parse("room@muc.example.org/alice").unwrap(),
        to: Identity::parse("room@muc.example.org").unwrap(),
        direction: Direction::Incoming,
        body: format!("message {}", n),
        timestamp: Timestamp { secs: n, offset_secs: 0 },
    }
}

#[test]
fn empty_bus_receives_nothing() {
    let mut bus = EventBus::new();
    assert!(bus.is_empty());
    assert_eq!(bus.len(), 0);
    assert!(bus.receive().is_none());
}

#[test]
fn events_are_delivered_in_send_order() {
    let mut bus = EventBus::new();
    for n in 0..5 {
        bus.send(message(n));
    }
    assert_eq!(bus.len(), 5);
    for n in 0..5 {
        let e = bus.receive().unwrap();
        assert_eq!(e, message(n));
    }
    assert!(bus.receive().is_none());
}

#[test]
fn drain_preserves_order() {
    let mut bus = EventBus::new();
    for n in 0..4 {
        bus.send(message(n));
    }
    let events = bus.drain();
    assert!(bus.is_empty());
    assert_eq!(events.len(), 4);
    for n in 0..4 {
        assert_eq!(events[n as usize], message(n));
    }
}
