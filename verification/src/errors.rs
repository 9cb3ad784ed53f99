//! What can go wrong: bytes that do not decode, and messages that have no
//! place in the conversation.

use vstd::prelude::*;

verus! {

/// Why a buffer could not be read as a message.
#[derive(Clone, Copy, Debug, PartialEq, Eq)]
pub enum DecodeError {
    /// The buffer ends before the field does.
    ShortRead,
    /// A field holds bytes that are no value of its type: the public key is
    /// no curve point.
    InvalidValue,
}

/// A warning to be relayed to a peer. It does not end the connection.
#[derive(Clone, Debug, PartialEq, Eq)]
pub struct WarningMessage {
    /// The channel that the warning is about; all zeros where it is about none.
    pub channel_id: [u8; 32],
    /// What the peer is told.
    pub data: String,
}

/// A message that decoded well and still cannot be handled.
#[derive(Clone, Debug, PartialEq, Eq)]
pub enum ProtocolError {
    /// The message is not one that this side of the conversation receives.
    /// The caller is to send `warning` to the peer that sent it.
    Unexpected {
        /// Why the message was refused, for the local operator.
        reason: String,
        /// What to tell the peer.
        warning: WarningMessage,
    },
}

/// The reason given when a tower is sent the terms of a subscription.
pub open spec fn unexpected_details_reason() -> Seq<char> {
    "A SubscriptionDetails message wasn't expected!"@
}

/// The warning sent back to a peer that sent the terms of a subscription.
pub open spec fn unexpected_details_warning() -> Seq<char> {
    "You sent me a SubscriptionDetails message but I didn't register!"@
}

impl ProtocolError {
    /// Whether this is the error for an inbound subscription-details message:
    /// the fixed reason, and the fixed warning tied to no channel.
    pub open spec fn is_unexpected_details(self) -> bool {
        match self {
            ProtocolError::Unexpected { reason, warning } => {
                &&& reason@ == unexpected_details_reason()
                &&& warning.data@ == unexpected_details_warning()
                &&& warning.channel_id@ == Seq::new(32, |i: int| 0u8)
            },
        }
    }

    /// The error for an inbound subscription-details message.
    pub fn unexpected_details() -> (e: ProtocolError)
        ensures
            e.is_unexpected_details(),
    {
        let channel_id: [u8; 32] = [0u8; 32];
        assert(channel_id@ =~= Seq::new(32, |i: int| 0u8));
        ProtocolError::Unexpected {
            reason: "A SubscriptionDetails message wasn't expected!".to_owned(),
            warning: WarningMessage {
                channel_id,
                data: "You sent me a SubscriptionDetails message but I didn't register!".to_owned(),
            },
        }
    }
}

} // verus!
