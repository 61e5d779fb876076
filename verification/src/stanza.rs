use vstd::prelude::*;
use crate::event::{Direction, Event, EventV, Timestamp};
use crate::identity::{Identity, IdentityV};

verus! {

/// The chat type a message stanza carries on the wire.
#[derive(Clone, Copy, Debug, PartialEq, Eq, Structural)]
pub enum ChatKind {
    GroupChat,
    Direct,
    Other,
}

/// Mathematical model of a decoded stanza.
pub enum StanzaV {
    ChatMessage { from: IdentityV, kind: ChatKind, body: Option<Seq<char>> },
    Other,
}

/// An inbound stanza, decoded once at the transport boundary into a closed
/// set of shapes: a chat message with its sender, chat type and best-match
/// body text, or any other stanza shape, which the core ignores.
#[derive(Debug, PartialEq, Eq)]
pub enum Stanza {
    ChatMessage { from: Identity, kind: ChatKind, body: Option<String> },
    Other,
}

impl View for Stanza {
    type V = StanzaV;

    open spec fn view(&self) -> StanzaV {
        match self {
            Stanza::ChatMessage { from, kind, body } => StanzaV::ChatMessage {
                from: from@,
                kind: *kind,
                body: match body {
                    Some(b) => Some(b@),
                    None => None,
                },
            },
            Stanza::Other => StanzaV::Other,
        }
    }
}

/// The event, if any, that a stanza observed at `at` in room `room` gives
/// rise to: a group-chat message with a body becomes an incoming `Message`
/// addressed to the room; a bodiless or non-group-chat message and every
/// other stanza shape are ignored.
pub open spec fn classify_spec(room: IdentityV, stanza: StanzaV, at: Timestamp) -> Option<
    EventV,
> {
    match stanza {
        StanzaV::ChatMessage { from, kind, body } => if kind == ChatKind::GroupChat
            && body is Some {
            Some(EventV::Message {
                from,
                to: room,
                direction: Direction::Incoming,
                body: body.unwrap(),
                timestamp: at,
            })
        } else {
            None
        },
        StanzaV::Other => None,
    }
}

/// Classification is a pure function of the stanza and its observation
/// time: feeding the same stanza twice yields two structurally equal
/// results.
pub proof fn lemma_classify_pure(
    room: IdentityV,
    stanza: StanzaV,
    at: Timestamp,
    e1: Option<EventV>,
    e2: Option<EventV>,
)
    requires
        e1 == classify_spec(room, stanza, at),
        e2 == classify_spec(room, stanza, at),
    ensures
        e1 == e2,
{
}

/// A message stanza whose chat type is not group chat — a direct
/// one-to-one message in particular — never yields an event.
pub proof fn lemma_non_group_chat_ignored(room: IdentityV, stanza: StanzaV, at: Timestamp)
    requires
        stanza matches StanzaV::ChatMessage { kind, .. } && kind != ChatKind::GroupChat,
    ensures
        classify_spec(room, stanza, at) is None,
{
}

/// Classify one decoded stanza observed at `at` in room `room`.
pub fn classify(room: &Identity, stanza: &Stanza, at: Timestamp) -> (r: Option<Event>)
    ensures
        (match r {
            Some(e) => classify_spec(room@, stanza@, at) == Some(e@),
            None => classify_spec(room@, stanza@, at) is None,
        }),
{
    match stanza {
        Stanza::ChatMessage { from, kind, body } => {
            if *kind == ChatKind::GroupChat {
                match body {
                    Some(b) => Some(
                        Event::Message {
                            from: from.clone(),
                            to: room.clone(),
                            direction: Direction::Incoming,
                            body: b.clone(),
                            timestamp: at,
                        },
                    ),
                    None => None,
                }
            } else {
                None
            }
        },
        Stanza::Other => None,
    }
}

} // verus!
