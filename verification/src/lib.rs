//! Custom peer-to-peer messages of a watchtower: a client registers for the
//! watching service and the tower answers with the terms of the subscription.
//!
//! The crate holds the wire codec of the two messages, the rule that turns an
//! inbound message into a reply or a protocol error, and the queue of replies
//! that wait to be sent.

pub mod errors;
pub mod handler;
pub mod messages;
pub mod node;
pub mod wire;
