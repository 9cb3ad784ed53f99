//! The messages of the registration handshake and their wire encoding.

use crate::errors::DecodeError;
use crate::node::{is_point_encoding, NodeId};
use crate::wire::{read_u16, read_u32, u16_from_be, u16_to_be, u32_from_be, u32_to_be, write_u16, write_u32};
use vstd::prelude::*;

verus! {

/// The register message: a user sends it to the tower to register for the
/// watching service.
#[derive(Clone, Copy, Debug, PartialEq, Eq)]
pub struct Register {
    /// The key that identifies the user.
    pub pubkey: NodeId,
    /// How many appointments the user wants to be able to hand in.
    pub appointment_slots: u32,
    /// For how long the user wants to be watched.
    pub subscription_period: u32,
}

/// The subscription details message: the tower answers a register message
/// with it, giving the largest appointment it takes and the fee in msat.
#[derive(Clone, Copy, Debug, PartialEq, Eq)]
pub struct SubscriptionDetails {
    /// The largest appointment, in bytes, that the tower accepts.
    pub appointment_max_size: u16,
    /// The price of the subscription, in millisatoshi.
    pub amount_msat: u32,
}

/// The constant that tells a message's payload from the others on the wire.
pub trait Encode {
    /// The type identifying the message payload.
    const TYPE: u16;
}

impl Encode for Register {
    const TYPE: u16 = 45768;
}

impl Encode for SubscriptionDetails {
    const TYPE: u16 = 45770;
}

impl Register {
    /// Number of bytes of the message on the wire: the key and two `u32`.
    pub const LEN: usize = 41;

    /// The bytes of the message on the wire: the key, the slots, the period.
    pub open spec fn encoding(self) -> Seq<u8> {
        self.pubkey@ + u32_to_be(self.appointment_slots) + u32_to_be(self.subscription_period)
    }

    /// What reading `bytes` as a register message gives. The fields are read
    /// in their order on the wire and the first one that fails decides the
    /// error; bytes after the message are not looked at.
    pub open spec fn decode(bytes: Seq<u8>) -> Result<Register, DecodeError> {
        if bytes.len() < 33 {
            Err(DecodeError::ShortRead)
        } else if !is_point_encoding(bytes.take(33)) {
            Err(DecodeError::InvalidValue)
        } else if bytes.len() < 41 {
            Err(DecodeError::ShortRead)
        } else {
            Ok(
                Register {
                    pubkey: NodeId::from_seq(bytes),
                    appointment_slots: u32_from_be(bytes.skip(33)),
                    subscription_period: u32_from_be(bytes.skip(37)),
                },
            )
        }
    }

    /// A message whose key is a curve point.
    pub open spec fn wf(self) -> bool {
        self.pubkey.wf()
    }

    /// Reads the message that `reader` starts with.
    pub fn read(reader: &[u8]) -> (r: Result<Register, DecodeError>)
        ensures
            r == Register::decode(reader@),
            r matches Ok(msg) ==> msg.wf(),
    {
        if reader.len() < 33 {
            return Err(DecodeError::ShortRead);
        }
        let pubkey = match NodeId::from_slice(reader) {
            Some(key) => key,
            None => {
                return Err(DecodeError::InvalidValue);
            },
        };
        if reader.len() < Register::LEN {
            return Err(DecodeError::ShortRead);
        }
        let appointment_slots = read_u32(reader, 33);
        let subscription_period = read_u32(reader, 37);
        Ok(Register { pubkey, appointment_slots, subscription_period })
    }

    /// Appends the message's bytes to `writer`.
    pub fn write(&self, writer: &mut Vec<u8>)
        ensures
            final(writer)@ == old(writer)@ + self.encoding(),
    {
        self.pubkey.write(writer);
        write_u32(self.appointment_slots, writer);
        write_u32(self.subscription_period, writer);
        assert(writer@ =~= old(writer)@ + self.encoding());
    }
}

impl SubscriptionDetails {
    /// Number of bytes of the message on the wire: a `u16` and a `u32`.
    pub const LEN: usize = 6;

    /// The bytes of the message on the wire: the size limit, then the fee.
    pub open spec fn encoding(self) -> Seq<u8> {
        u16_to_be(self.appointment_max_size) + u32_to_be(self.amount_msat)
    }

    /// What reading `bytes` as a subscription-details message gives. Bytes
    /// after the message are not looked at.
    pub open spec fn decode(bytes: Seq<u8>) -> Result<SubscriptionDetails, DecodeError> {
        if bytes.len() < 6 {
            Err(DecodeError::ShortRead)
        } else {
            Ok(
                SubscriptionDetails {
                    appointment_max_size: u16_from_be(bytes),
                    amount_msat: u32_from_be(bytes.skip(2)),
                },
            )
        }
    }

    /// Reads the message that `reader` starts with.
    pub fn read(reader: &[u8]) -> (r: Result<SubscriptionDetails, DecodeError>)
        ensures
            r == SubscriptionDetails::decode(reader@),
    {
        if reader.len() < SubscriptionDetails::LEN {
            return Err(DecodeError::ShortRead);
        }
        let appointment_max_size = read_u16(reader, 0);
        let amount_msat = read_u32(reader, 2);
        assert(reader@.skip(0) =~= reader@);
        Ok(SubscriptionDetails { appointment_max_size, amount_msat })
    }

    /// Appends the message's bytes to `writer`.
    pub fn write(&self, writer: &mut Vec<u8>)
        ensures
            final(writer)@ == old(writer)@ + self.encoding(),
    {
        write_u16(self.appointment_max_size, writer);
        write_u32(self.amount_msat, writer);
        assert(writer@ =~= old(writer)@ + self.encoding());
    }
}

/// A listing of all the messages the tower can send and receive.
#[derive(Clone, Copy, Debug, PartialEq, Eq)]
pub enum TowerMessage {
    /// A user asks to be registered.
    Register(Register),
    /// The tower states the terms of a subscription.
    SubscriptionDetails(SubscriptionDetails),
}

impl TowerMessage {
    /// The constant that stands before the message on the wire.
    pub open spec fn spec_type_id(self) -> u16 {
        match self {
            TowerMessage::Register(_) => 45768,
            TowerMessage::SubscriptionDetails(_) => 45770,
        }
    }

    /// The bytes of the message's payload; the type constant is not part of it.
    pub open spec fn encoding(self) -> Seq<u8> {
        match self {
            TowerMessage::Register(msg) => msg.encoding(),
            TowerMessage::SubscriptionDetails(msg) => msg.encoding(),
        }
    }

    /// What reading `bytes` as the payload of a message of type
    /// `message_type` gives: `Ok(None)` for a type that is none of the
    /// tower's, else the message or the reason why the bytes are none.
    pub open spec fn decode(message_type: u16, bytes: Seq<u8>) -> Result<
        Option<TowerMessage>,
        DecodeError,
    > {
        if message_type == 45768 {
            match Register::decode(bytes) {
                Ok(msg) => Ok(Some(TowerMessage::Register(msg))),
                Err(e) => Err(e),
            }
        } else if message_type == 45770 {
            match SubscriptionDetails::decode(bytes) {
                Ok(msg) => Ok(Some(TowerMessage::SubscriptionDetails(msg))),
                Err(e) => Err(e),
            }
        } else {
            Ok(None)
        }
    }

    /// A message whose key, where it has one, is a curve point.
    pub open spec fn wf(self) -> bool {
        match self {
            TowerMessage::Register(msg) => msg.wf(),
            TowerMessage::SubscriptionDetails(_) => true,
        }
    }

    /// Number of bytes of the payload of a message of type `message_type`;
    /// `None` for a type that is none of the tower's.
    pub open spec fn spec_payload_len(message_type: u16) -> Option<usize> {
        if message_type == 45768 {
            Some(41usize)
        } else if message_type == 45770 {
            Some(6usize)
        } else {
            None
        }
    }

    /// Number of bytes of the payload of a message of type `message_type`:
    /// the field widths fix it, nothing on the wire states it.
    pub fn payload_len(message_type: u16) -> (len: Option<usize>)
        ensures
            len == TowerMessage::spec_payload_len(message_type),
    {
        if message_type == Register::TYPE {
            Some(Register::LEN)
        } else if message_type == SubscriptionDetails::TYPE {
            Some(SubscriptionDetails::LEN)
        } else {
            None
        }
    }

    /// The constant that stands before the message on the wire.
    pub fn type_id(&self) -> (id: u16)
        ensures
            id == self.spec_type_id(),
    {
        match self {
            TowerMessage::Register(..) => Register::TYPE,
            TowerMessage::SubscriptionDetails(..) => SubscriptionDetails::TYPE,
        }
    }

    /// Appends the bytes of the message's payload to `writer`.
    pub fn write(&self, writer: &mut Vec<u8>)
        ensures
            final(writer)@ == old(writer)@ + self.encoding(),
    {
        match self {
            TowerMessage::Register(msg) => msg.write(writer),
            TowerMessage::SubscriptionDetails(msg) => msg.write(writer),
        }
    }

    /// Reads the payload of a message of type `message_type` from the start of
    /// `buffer`.
    pub fn read(message_type: u16, buffer: &[u8]) -> (r: Result<Option<TowerMessage>, DecodeError>)
        ensures
            r == TowerMessage::decode(message_type, buffer@),
            r matches Ok(Some(msg)) ==> msg.wf() && msg.spec_type_id() == message_type,
            message_type != 45768 && message_type != 45770 ==> r == Ok::<
                Option<TowerMessage>,
                DecodeError,
            >(None),
    {
        if message_type == Register::TYPE {
            match Register::read(buffer) {
                Ok(msg) => Ok(Some(TowerMessage::Register(msg))),
                Err(e) => Err(e),
            }
        } else if message_type == SubscriptionDetails::TYPE {
            match SubscriptionDetails::read(buffer) {
                Ok(msg) => Ok(Some(TowerMessage::SubscriptionDetails(msg))),
                Err(e) => Err(e),
            }
        } else {
            Ok(None)
        }
    }
}

/// A register message that is written and read again is the same message,
/// whatever bytes follow it in the buffer.
pub proof fn lemma_register_round_trip(msg: Register, rest: Seq<u8>)
    requires
        msg.wf(),
    ensures
        msg.encoding().len() == 41,
        Register::decode(msg.encoding() + rest) == Ok::<Register, DecodeError>(msg),
{
    let bytes = msg.encoding() + rest;
    msg.pubkey.lemma_wf();
    crate::wire::lemma_u32_value_round_trip(msg.appointment_slots, u32_to_be(msg.subscription_period) + rest);
    crate::wire::lemma_u32_value_round_trip(msg.subscription_period, rest);
    assert(bytes.take(33) =~= msg.pubkey@);
    assert(bytes.skip(33) =~= u32_to_be(msg.appointment_slots) + (u32_to_be(
        msg.subscription_period,
    ) + rest));
    assert(bytes.skip(37) =~= u32_to_be(msg.subscription_period) + rest);
    NodeId::lemma_from_seq(bytes);
}

/// A subscription-details message that is written and read again is the same
/// message, whatever bytes follow it in the buffer.
pub proof fn lemma_subscription_details_round_trip(msg: SubscriptionDetails, rest: Seq<u8>)
    ensures
        msg.encoding().len() == 6,
        SubscriptionDetails::decode(msg.encoding() + rest) == Ok::<SubscriptionDetails, DecodeError>(
            msg,
        ),
{
    let bytes = msg.encoding() + rest;
    crate::wire::lemma_u16_value_round_trip(msg.appointment_max_size, u32_to_be(msg.amount_msat) + rest);
    crate::wire::lemma_u32_value_round_trip(msg.amount_msat, rest);
    assert(bytes =~= u16_to_be(msg.appointment_max_size) + (u32_to_be(msg.amount_msat) + rest));
    assert(bytes.skip(2) =~= u32_to_be(msg.amount_msat) + rest);
}

/// A message that is written and then read under its own type constant is
/// the same message, whatever bytes follow it in the buffer.
pub proof fn lemma_message_round_trip(msg: TowerMessage, rest: Seq<u8>)
    requires
        msg.wf(),
    ensures
        TowerMessage::decode(msg.spec_type_id(), msg.encoding() + rest) == Ok::<
            Option<TowerMessage>,
            DecodeError,
        >(Some(msg)),
{
    match msg {
        TowerMessage::Register(m) => lemma_register_round_trip(m, rest),
        TowerMessage::SubscriptionDetails(m) => lemma_subscription_details_round_trip(m, rest),
    }
}

/// The payload of a message has the length that goes with its type, and a
/// buffer of that length or more is all that reading the message looks at.
pub proof fn lemma_payload_len(msg: TowerMessage, bytes: Seq<u8>, message_type: u16)
    ensures
        TowerMessage::spec_payload_len(msg.spec_type_id()) == Some(msg.encoding().len() as usize),
        TowerMessage::spec_payload_len(message_type) matches Some(len) ==> bytes.len() >= len
            ==> TowerMessage::decode(message_type, bytes) == TowerMessage::decode(
            message_type,
            bytes.take(len as int),
        ),
{
    match msg {
        TowerMessage::Register(m) => {
            m.pubkey.lemma_wf();
        },
        TowerMessage::SubscriptionDetails(m) => {},
    }
    if message_type == 45768 && bytes.len() >= 41 {
        let head = bytes.take(41);
        assert(head.take(33) =~= bytes.take(33));
        assert(head.skip(33) =~= bytes.skip(33).take(8));
        assert(head.skip(37) =~= bytes.skip(37).take(4));
        NodeId::lemma_from_seq(bytes);
        NodeId::lemma_from_seq(head);
    }
    if message_type == 45770 && bytes.len() >= 6 {
        let head = bytes.take(6);
        assert(head.skip(2) =~= bytes.skip(2).take(4));
    }
}

/// The bytes that a register message was read from are the bytes that
/// writing it gives.
pub proof fn lemma_register_bytes_round_trip(bytes: Seq<u8>)
    requires
        Register::decode(bytes) is Ok,
    ensures
        bytes.len() >= 41,
        Register::decode(bytes)->Ok_0.wf(),
        Register::decode(bytes)->Ok_0.encoding() == bytes.take(41),
{
    let msg = Register::decode(bytes)->Ok_0;
    NodeId::lemma_from_seq(bytes);
    msg.pubkey.lemma_wf();
    crate::wire::lemma_u32_bytes_round_trip(bytes.skip(33));
    crate::wire::lemma_u32_bytes_round_trip(bytes.skip(37));
    assert(msg.encoding() =~= bytes.take(41));
}

/// The bytes that a subscription-details message was read from are the bytes
/// that writing it gives.
pub proof fn lemma_subscription_details_bytes_round_trip(bytes: Seq<u8>)
    requires
        SubscriptionDetails::decode(bytes) is Ok,
    ensures
        bytes.len() >= 6,
        SubscriptionDetails::decode(bytes)->Ok_0.encoding() == bytes.take(6),
{
    let msg = SubscriptionDetails::decode(bytes)->Ok_0;
    crate::wire::lemma_u16_bytes_round_trip(bytes);
    crate::wire::lemma_u32_bytes_round_trip(bytes.skip(2));
    assert(msg.encoding() =~= bytes.take(6));
}

/// A type constant that is none of the tower's is answered with `Ok(None)`,
/// whatever the bytes: never with an error.
pub proof fn lemma_unknown_type_is_no_error(message_type: u16, bytes: Seq<u8>)
    requires
        message_type != 45768,
        message_type != 45770,
    ensures
        TowerMessage::decode(message_type, bytes) == Ok::<Option<TowerMessage>, DecodeError>(None),
{
}

/// A buffer shorter than a message of its type is answered with an error: a
/// short read, unless a register message's key was there in full and is no
/// curve point.
pub proof fn lemma_truncated_is_error(message_type: u16, bytes: Seq<u8>)
    ensures
        message_type == 45768 && bytes.len() < 41 ==> TowerMessage::decode(message_type, bytes)
            == Err::<Option<TowerMessage>, DecodeError>(
            if bytes.len() >= 33 && !is_point_encoding(bytes.take(33)) {
                DecodeError::InvalidValue
            } else {
                DecodeError::ShortRead
            },
        ),
        message_type == 45770 && bytes.len() < 6 ==> TowerMessage::decode(message_type, bytes)
            == Err::<Option<TowerMessage>, DecodeError>(DecodeError::ShortRead),
{
}

} // verus!
