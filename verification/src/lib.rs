//! Session and event core for a group-chat bot.
//!
//! The core owns the connection lifecycle decisions, turns inbound transport
//! items into typed domain events, carries those events over an ordered
//! single-producer/single-consumer bus, and recognises bot-directed commands
//! in group-chat messages. Wire-level I/O (the actual protocol client) is an
//! external collaborator that hands the core plain values.

pub mod bus;
pub mod dispatch;
pub mod event;
pub mod identity;
pub mod session;
pub mod settings;
pub mod stanza;
