use mucbot_core::bus::EventBus;
use mucbot_core::event::{Direction, Event, Timestamp};
use mucbot_core::identity::Identity;
use mucbot_core::session::{ConnectionState, SessionManager, TransportItem};
use mucbot_core::settings::Settings;
use mucbot_core::stanza::{classify, ChatKind, Stanza};

fn settings() -> Settings {
    Settings::new(
        "bot@example.org",
        String::from("SECRET-REDACTED"),
        String::from("bot"),
        "room@muc.example.org",
    )
    .unwrap()
}

fn bound() -> Identity {
    Identity::parse("bot@example.org/res1").unwrap()
}

fn group_chat(body: &str, secs: i64) -> TransportItem {
    TransportItem::Stanza {
        stanza: Stanza::ChatMessage {
            from: Identity::parse("room@muc.example.org/alice").unwrap(),
            kind: ChatKind::GroupChat,
            body: Some(String::from(body)),
        },
        at: Timestamp { secs, offset_secs: 0 },
    }
}

#[test]
fn online_sends_one_presence_and_one_join() {
    let mut sm = SessionManager::new(settings());
    let step = sm.step(&TransportItem::Online { bound: bound() });
    let presence = step.presence.unwrap();
    assert_eq!(presence.to.render(), "room@muc.example.org/bot");
    assert_eq!(presence.from.render(), "bot@example.org/res1");
    let event = step.event.unwrap();
    assert_eq!(
        event,
        Event::Join {
            account: bound(),
            channel: Identity::parse("room@muc.example.org").unwrap(),
        }
    );
    assert!(!step.done);
    assert!(matches!(sm.state, ConnectionState::Online(_)));
}

#[test]
fn join_comes_before_any_stanza_event() {
    let mut sm = SessionManager::new(settings());
    let mut bus = EventBus::new();
    let items = vec![
        TransportItem::Online { bound: bound() },
        group_chat("hello", 1),
        group_chat("bot: ping", 2),
    ];
    let r = sm.drive(&items, &mut bus);
    assert!(!r.stopped);
    assert_eq!(r.presences.len(), 1);
    let events = bus.drain();
    assert_eq!(events.len(), 3);
    assert!(matches!(events[0], Event::Join { .. }));
    match &events[1] {
        Event::Message { body, direction, .. } => {
            assert_eq!(body, "hello");
            assert_eq!(*direction, Direction::Incoming);
        },
        other => panic!("unexpected event: {:?}", other),
    }
    match &events[2] {
        Event::Message { body, .. } => assert_eq!(body, "bot: ping"),
        other => panic!("unexpected event: {:?}", other),
    }
}

#[test]
fn disconnect_terminates_without_emitting() {
    let mut sm = SessionManager::new(settings());
    let mut bus = EventBus::new();
    let items = vec![
        TransportItem::Online { bound: bound() },
        TransportItem::Disconnected,
        group_chat("after the end", 3),
    ];
    let r = sm.drive(&items, &mut bus);
    assert!(r.stopped);
    assert_eq!(r.presences.len(), 1);
    let events = bus.drain();
    assert_eq!(events.len(), 1);
    assert!(matches!(events[0], Event::Join { .. }));
    assert!(matches!(sm.state, ConnectionState::Disconnected));
}

#[test]
fn disconnect_step_is_silent() {
    let mut sm = SessionManager::new(settings());
    let step = sm.step(&TransportItem::Disconnected);
    assert!(step.presence.is_none());
    assert!(step.event.is_none());
    assert!(step.done);
}

#[test]
fn classification_is_pure() {
    let room = Identity::parse("room@muc.example.org").unwrap();
    let stanza = Stanza::ChatMessage {
        from: Identity::parse("room@muc.example.org/alice").unwrap(),
        kind: ChatKind::GroupChat,
        body: Some(String::from("bot: again")),
    };
    let at = Timestamp { secs: 7, offset_secs: 7200 };
    let first = classify(&room, &stanza, at);
    let second = classify(&room, &stanza, at);
    assert_eq!(first, second);
    assert!(first.is_some());
}

#[test]
fn direct_chat_produces_no_event() {
    let room = Identity::parse("room@muc.example.org").unwrap();
    let stanza = Stanza::ChatMessage {
        from: Identity::parse("alice@example.org/home").unwrap(),
        kind: ChatKind::Direct,
        body: Some(String::from("bot: psst")),
    };
    assert!(classify(&room, &stanza, Timestamp { secs: 1, offset_secs: 0 }).is_none());
}

#[test]
fn bodiless_and_unknown_stanzas_are_ignored() {
    let room = Identity::parse("room@muc.example.org").unwrap();
    let bodiless = Stanza::ChatMessage {
        from: Identity::parse("room@muc.example.org/alice").unwrap(),
        kind: ChatKind::GroupChat,
        body: None,
    };
    let at = Timestamp { secs: 1, offset_secs: 0 };
    assert!(classify(&room, &bodiless, at).is_none());
    assert!(classify(&room, &Stanza::Other, at).is_none());
}
