use vstd::prelude::*;
use crate::identity::{Identity, IdentityV};

verus! {

/// Whether a message was observed on the wire or sent by the bot itself.
#[derive(Clone, Copy, Debug, PartialEq, Eq, Structural)]
pub enum Direction {
    Incoming,
    Outgoing,
}

/// A point in time with a fixed local offset: seconds since the epoch and
/// the offset, in seconds, of the local clock that produced it.
#[derive(Clone, Copy, Debug, PartialEq, Eq, Structural)]
pub struct Timestamp {
    pub secs: i64,
    pub offset_secs: i32,
}

/// Mathematical model of a domain event.
pub enum EventV {
    Join { account: IdentityV, channel: IdentityV },
    Message {
        from: IdentityV,
        to: IdentityV,
        direction: Direction,
        body: Seq<char>,
        timestamp: Timestamp,
    },
}

/// A domain event: a room join attempted, or a chat message observed or
/// sent. Self-contained and immutable; ownership moves from the producer
/// through the bus to the consumer.
#[derive(Debug, PartialEq, Eq)]
pub enum Event {
    Join { account: Identity, channel: Identity },
    Message {
        from: Identity,
        to: Identity,
        direction: Direction,
        body: String,
        timestamp: Timestamp,
    },
}

impl View for Event {
    type V = EventV;

    open spec fn view(&self) -> EventV {
        match self {
            Event::Join { account, channel } => EventV::Join {
                account: account@,
                channel: channel@,
            },
            Event::Message { from, to, direction, body, timestamp } => EventV::Message {
                from: from@,
                to: to@,
                direction: *direction,
                body: body@,
                timestamp: *timestamp,
            },
        }
    }
}

} // verus!
