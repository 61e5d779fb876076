use mucbot_core::dispatch::{command_text, Dispatcher};
use mucbot_core::event::{Direction, Event, Timestamp};
use mucbot_core::identity::Identity;

fn incoming(body: &str) -> Event {
    Event::Message {
        from: Identity::parse("room@muc.example.org/alice").unwrap(),
        to: Identity::parse("room@muc.example.org").unwrap(),
        direction: Direction::Incoming,
        body: String::from(body),
        timestamp: Timestamp { secs: 1_700_000_000, offset_secs: 3600 },
    }
}

#[test]
fn colon_and_space_are_stripped() {
    let d = Dispatcher::new(String::from("bot"));
    let c = d.handle(&incoming("bot: foo bar")).unwrap();
    assert_eq!(c.text, "foo bar");
    assert_eq!(c.issuer.render(), "room@muc.example.org/alice");
    assert_eq!(c.room.render(), "room@muc.example.org");
}

#[test]
fn comma_is_stripped() {
    let d = Dispatcher::new(String::from("bot"));
    let c = d.handle(&incoming("bot,foo")).unwrap();
    assert_eq!(c.text, "foo");
}

#[test]
fn bare_nickname_is_no_command() {
    let d = Dispatcher::new(String::from("bot"));
    assert!(d.handle(&incoming("bot")).is_none());
    assert!(d.handle(&incoming("bot ,: ")).is_none());
}

#[test]
fn other_chatter_is_no_command() {
    let d = Dispatcher::new(String::from("bot"));
    assert!(d.handle(&incoming("hello bot")).is_none());
    assert!(d.handle(&incoming("Bot: hi")).is_none());
}

#[test]
fn join_events_are_ignored() {
    let d = Dispatcher::new(String::from("bot"));
    let join = Event::Join {
        account: Identity::parse("bot@example.org/res").unwrap(),
        channel: Identity::parse("room@muc.example.org").unwrap(),
    };
    assert!(d.handle(&join).is_none());
}

#[test]
fn outgoing_messages_are_ignored() {
    let d = Dispatcher::new(String::from("bot"));
    let e = Event::Message {
        from: Identity::parse("room@muc.example.org/bot").unwrap(),
        to: Identity::parse("room@muc.example.org").unwrap(),
        direction: Direction::Outgoing,
        body: String::from("bot: echoed"),
        timestamp: Timestamp { secs: 0, offset_secs: 0 },
    };
    assert!(d.handle(&e).is_none());
}

#[test]
fn unicode_whitespace_is_trimmed() {
    let t = command_text("bot", "bot:\u{00A0}hi there\u{3000}").unwrap();
    assert_eq!(t, "hi there");
}

#[test]
fn trailing_punctuation_is_kept() {
    let t = command_text("bot", "bot: status:").unwrap();
    assert_eq!(t, "status:");
}

#[test]
fn inner_whitespace_is_kept() {
    let t = command_text("bot", "bot:  say  two  spaces ").unwrap();
    assert_eq!(t, "say  two  spaces");
}
