use bitcoin::secp256k1::key::{PublicKey, SecretKey};
use bitcoin::secp256k1::Secp256k1;
use tower_msgs::errors::DecodeError;
use tower_msgs::messages::{Encode, Register, SubscriptionDetails, TowerMessage};
use tower_msgs::node::NodeId;
use tower_msgs::wire::{read_u16, read_u32, write_u16, write_u32};

/// The generator of the curve, compressed.
const GENERATOR: [u8; 33] = [
    0x02, 0x79, 0xbe, 0x66, 0x7e, 0xf9, 0xdc, 0xbb, 0xac, 0x55, 0xa0, 0x62, 0x95, 0xce, 0x87, 0x0b,
    0x07, 0x02, 0x9b, 0xfc, 0xdb, 0x2d, 0xce, 0x28, 0xd9, 0x59, 0xf2, 0x81, 0x5b, 0x16, 0xf8, 0x17,
    0x98,
];

fn key_of(secret: u8) -> PublicKey {
    let secp = Secp256k1::new();
    let sk = SecretKey::from_slice(&[secret; 32]).unwrap();
    PublicKey::from_secret_key(&secp, &sk)
}

fn node(secret: u8) -> NodeId {
    NodeId::from_bytes(key_of(secret).serialize()).unwrap()
}

#[test]
fn u16_is_written_most_significant_byte_first() {
    let mut out = vec![0xaa];
    write_u16(0x1234, &mut out);
    assert_eq!(out, vec![0xaa, 0x12, 0x34]);
    assert_eq!(read_u16(&out, 1), 0x1234);
}

#[test]
fn u32_is_written_most_significant_byte_first() {
    let mut out = Vec::new();
    write_u32(0x0102_0304, &mut out);
    assert_eq!(out, vec![1, 2, 3, 4]);
    assert_eq!(read_u32(&out, 0), 0x0102_0304);
}

#[test]
fn integers_round_trip_at_their_bounds() {
    for v in [0u32, 1, 0xff, 0x100, 0xffff, 0x1_0000, 0x00ff_ffff, 0x0100_0000, u32::MAX] {
        let mut out = Vec::new();
        write_u32(v, &mut out);
        assert_eq!(out.len(), 4);
        assert_eq!(read_u32(&out, 0), v);
    }
    for v in [0u16, 1, 0xff, 0x100, u16::MAX] {
        let mut out = Vec::new();
        write_u16(v, &mut out);
        assert_eq!(out.len(), 2);
        assert_eq!(read_u16(&out, 0), v);
    }
}

#[test]
fn read_takes_the_number_at_the_given_place() {
    let bytes = [9u8, 9, 0xde, 0xad, 0xbe, 0xef, 9];
    assert_eq!(read_u32(&bytes, 2), 0xdead_beef);
    assert_eq!(read_u16(&bytes, 4), 0xbeef);
}

#[test]
fn generator_is_a_node_id() {
    let id = NodeId::from_bytes(GENERATOR).unwrap();
    assert_eq!(id.serialize(), GENERATOR);
    let mut one = [0u8; 32];
    one[31] = 1;
    let secp = Secp256k1::new();
    let key = PublicKey::from_secret_key(&secp, &SecretKey::from_slice(&one).unwrap());
    assert_eq!(key.serialize(), GENERATOR);
}

#[test]
fn node_id_holds_the_bytes_of_the_key() {
    for secret in [1u8, 2, 3, 77, 200] {
        let key = key_of(secret);
        let id = NodeId::from_bytes(key.serialize()).unwrap();
        assert_eq!(id.serialize(), key.serialize());
        assert_eq!(PublicKey::from_slice(&id.serialize()).unwrap(), key);
    }
}

#[test]
fn bytes_that_are_no_point_are_no_node_id() {
    assert_eq!(NodeId::from_bytes([0u8; 33]), None);
    assert_eq!(NodeId::from_bytes([0xffu8; 33]), None);
    // A good point under the prefix of an uncompressed key.
    let mut bytes = GENERATOR;
    bytes[0] = 0x04;
    assert_eq!(NodeId::from_bytes(bytes), None);
    // An x coordinate that is no field element.
    let mut bytes = [0xffu8; 33];
    bytes[0] = 0x02;
    assert_eq!(NodeId::from_bytes(bytes), None);
}

#[test]
fn node_id_agrees_with_the_key_parser() {
    let mut bytes = GENERATOR;
    for last in 0..=255u8 {
        bytes[32] = last;
        for prefix in [0x02u8, 0x03] {
            bytes[0] = prefix;
            assert_eq!(
                NodeId::from_bytes(bytes).is_some(),
                PublicKey::from_slice(&bytes).is_ok()
            );
        }
    }
}

#[test]
fn node_id_from_slice_takes_the_first_33_bytes() {
    let mut bytes = GENERATOR.to_vec();
    assert_eq!(NodeId::from_slice(&bytes), NodeId::from_bytes(GENERATOR));
    bytes.extend_from_slice(&[1, 2, 3]);
    assert_eq!(NodeId::from_slice(&bytes), NodeId::from_bytes(GENERATOR));
    assert_eq!(NodeId::from_slice(&bytes[..32]), None);
    assert_eq!(NodeId::from_slice(&[]), None);
}

#[test]
fn node_id_write_appends_its_bytes() {
    let mut out = vec![7u8];
    NodeId::from_bytes(GENERATOR).unwrap().write(&mut out);
    assert_eq!(out.len(), 34);
    assert_eq!(out[0], 7);
    assert_eq!(&out[1..], &GENERATOR[..]);
}

#[test]
fn type_constants() {
    assert_eq!(<Register as Encode>::TYPE, 45768);
    assert_eq!(<SubscriptionDetails as Encode>::TYPE, 45770);
    let register = Register { pubkey: node(1), appointment_slots: 1, subscription_period: 1 };
    let details = SubscriptionDetails { appointment_max_size: 1, amount_msat: 1 };
    assert_eq!(TowerMessage::Register(register).type_id(), 45768);
    assert_eq!(TowerMessage::SubscriptionDetails(details).type_id(), 45770);
    assert_eq!(Register::LEN, 41);
    assert_eq!(SubscriptionDetails::LEN, 6);
}

#[test]
fn register_bytes_are_key_slots_period() {
    let pubkey = NodeId::from_bytes(GENERATOR).unwrap();
    let msg = Register { pubkey, appointment_slots: 0x0102_0304, subscription_period: 10 };
    let mut out = Vec::new();
    msg.write(&mut out);
    let mut expected = GENERATOR.to_vec();
    expected.extend_from_slice(&[1, 2, 3, 4, 0, 0, 0, 10]);
    assert_eq!(out, expected);
}

#[test]
fn subscription_details_bytes_are_size_fee() {
    let msg = SubscriptionDetails { appointment_max_size: 30, amount_msat: 0x0a0b_0c0d };
    let mut out = Vec::new();
    msg.write(&mut out);
    assert_eq!(out, vec![0, 30, 0x0a, 0x0b, 0x0c, 0x0d]);
}

#[test]
fn register_round_trip() {
    for (secret, slots, period) in
        [(1u8, 0u32, 0u32), (2, 10, 3), (3, u32::MAX, 1), (4, 1, u32::MAX), (5, 0xdead_beef, 0x0bad_cafe)]
    {
        let msg = Register { pubkey: node(secret), appointment_slots: slots, subscription_period: period };
        let mut out = Vec::new();
        msg.write(&mut out);
        assert_eq!(out.len(), 41);
        assert_eq!(Register::read(&out), Ok(msg));
    }
}

#[test]
fn subscription_details_round_trip() {
    for (size, fee) in [(0u16, 0u32), (30, 30), (u16::MAX, u32::MAX), (0x1234, 0x5678_9abc)] {
        let msg = SubscriptionDetails { appointment_max_size: size, amount_msat: fee };
        let mut out = Vec::new();
        msg.write(&mut out);
        assert_eq!(out.len(), 6);
        assert_eq!(SubscriptionDetails::read(&out), Ok(msg));
    }
}

#[test]
fn message_round_trip_under_its_type() {
    let messages = [
        TowerMessage::Register(Register { pubkey: node(9), appointment_slots: 100, subscription_period: 4320 }),
        TowerMessage::SubscriptionDetails(SubscriptionDetails { appointment_max_size: 30, amount_msat: 432000 }),
    ];
    for msg in messages {
        let mut out = Vec::new();
        msg.write(&mut out);
        assert_eq!(TowerMessage::read(msg.type_id(), &out), Ok(Some(msg)));
    }
}

#[test]
fn bytes_after_the_message_are_not_read() {
    let msg = Register { pubkey: node(6), appointment_slots: 5, subscription_period: 6 };
    let mut out = Vec::new();
    msg.write(&mut out);
    out.extend_from_slice(&[0xff, 0xee, 0xdd]);
    assert_eq!(Register::read(&out), Ok(msg));
    let details = SubscriptionDetails { appointment_max_size: 7, amount_msat: 8 };
    let mut out = Vec::new();
    details.write(&mut out);
    out.push(0);
    assert_eq!(SubscriptionDetails::read(&out), Ok(details));
}

#[test]
fn written_bytes_are_the_bytes_read() {
    let mut bytes = GENERATOR.to_vec();
    bytes.extend_from_slice(&[0, 0, 1, 0, 0xff, 0, 0, 1, 0x55]);
    let msg = Register::read(&bytes).unwrap();
    assert_eq!(msg.appointment_slots, 256);
    assert_eq!(msg.subscription_period, 0xff00_0001);
    let mut out = Vec::new();
    msg.write(&mut out);
    assert_eq!(&out[..], &bytes[..41]);
}

#[test]
fn unknown_type_is_none_whatever_the_bytes() {
    let mut good = Vec::new();
    Register { pubkey: node(1), appointment_slots: 1, subscription_period: 1 }.write(&mut good);
    for ty in [9999u16, 0, 1, 45767, 45769, 45771, u16::MAX] {
        assert_eq!(TowerMessage::read(ty, &[]), Ok(None));
        assert_eq!(TowerMessage::read(ty, &[1, 2, 3]), Ok(None));
        assert_eq!(TowerMessage::read(ty, &good), Ok(None));
    }
}

#[test]
fn truncated_register_is_a_decode_error() {
    let mut full = Vec::new();
    Register { pubkey: node(1), appointment_slots: 1, subscription_period: 1 }.write(&mut full);
    for len in 0..41 {
        assert_eq!(TowerMessage::read(45768, &full[..len]), Err(DecodeError::ShortRead));
        assert_eq!(Register::read(&full[..len]), Err(DecodeError::ShortRead));
    }
    assert!(TowerMessage::read(45768, &full).is_ok());
}

#[test]
fn truncated_subscription_details_is_a_short_read() {
    let full = [0u8, 30, 0, 0, 0, 30];
    for len in 0..6 {
        assert_eq!(TowerMessage::read(45770, &full[..len]), Err(DecodeError::ShortRead));
        assert_eq!(SubscriptionDetails::read(&full[..len]), Err(DecodeError::ShortRead));
    }
    assert_eq!(
        TowerMessage::read(45770, &full),
        Ok(Some(TowerMessage::SubscriptionDetails(SubscriptionDetails {
            appointment_max_size: 30,
            amount_msat: 30
        })))
    );
}

#[test]
fn register_with_a_bad_key_is_an_invalid_value() {
    let mut bytes = vec![0u8; 41];
    assert_eq!(Register::read(&bytes), Err(DecodeError::InvalidValue));
    assert_eq!(TowerMessage::read(45768, &bytes), Err(DecodeError::InvalidValue));
    // The key is judged before the rest is missed.
    bytes.truncate(33);
    assert_eq!(Register::read(&bytes), Err(DecodeError::InvalidValue));
    // With less than a key there is nothing to judge.
    bytes.truncate(32);
    assert_eq!(Register::read(&bytes), Err(DecodeError::ShortRead));
}
