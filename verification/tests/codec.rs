use orchard::{Decoded, Endpoint, IpAddress, OrchardMessage, ParseError};

fn v6_loopback() -> [u8; 16] {
    [0, 0, 0, 0, 0, 0, 0, 0, 0, 0, 0, 0, 0, 0, 0, 1]
}

fn v6_sample() -> [u8; 16] {
    [0x20, 0x01, 0x0d, 0xb8, 1, 2, 3, 4, 5, 6, 7, 8, 9, 10, 11, 12]
}

fn samples() -> Vec<OrchardMessage> {
    let a = Endpoint::v4(203, 0, 113, 5, 40000);
    let b = Endpoint::v4(10, 0, 0, 1, 2);
    let c = Endpoint::v6(v6_loopback(), 1);
    let d = Endpoint::v6(v6_sample(), 65535);
    vec![
        OrchardMessage::NatProbe { sender: a },
        OrchardMessage::NatProbe { sender: d },
        OrchardMessage::NatReply { sender: a, receiver: b },
        OrchardMessage::NatReply { sender: c, receiver: b },
        OrchardMessage::NatReply { sender: b, receiver: d },
        OrchardMessage::NatReply { sender: c, receiver: d },
    ]
}

fn probe_v4_bytes() -> Vec<u8> {
    vec![79, 82, 67, 72, 65, 82, 68, 0, 78, 80, 0, 8, 0x9c, 0x40, 0, 4, 203, 0, 113, 5]
}

#[test]
fn address_len_version_octets() {
    let a = IpAddress::V4([192, 0, 2, 7]);
    assert_eq!(a.len(), 4);
    assert_eq!(a.version(), 4);
    assert_eq!(a.octets(), vec![192, 0, 2, 7]);
    let b = IpAddress::V6(v6_sample());
    assert_eq!(b.len(), 16);
    assert_eq!(b.version(), 6);
    assert_eq!(b.octets(), v6_sample().to_vec());
}

#[test]
fn endpoint_constructors() {
    let e = Endpoint::v4(1, 2, 3, 4, 5);
    assert_eq!(e, Endpoint { addr: IpAddress::V4([1, 2, 3, 4]), port: 5 });
    let f = Endpoint::v6(v6_loopback(), 9);
    assert_eq!(f, Endpoint { addr: IpAddress::V6(v6_loopback()), port: 9 });
}

#[test]
fn probe_round_trip() {
    let msg = OrchardMessage::NatProbe { sender: Endpoint::v4(203, 0, 113, 5, 40000) };
    let wire = msg.encode();
    assert_eq!(wire.len(), 20);
    assert_eq!(&wire[16..20], &[203, 0, 113, 5]);
    assert_eq!(&wire[..], &probe_v4_bytes()[..]);
    assert_eq!(OrchardMessage::decode(&wire), Ok(msg));
}

#[test]
fn probe_v6_layout() {
    let msg = OrchardMessage::NatProbe { sender: Endpoint::v6(v6_sample(), 0x1234) };
    let wire = msg.encode();
    let mut expected = vec![79, 82, 67, 72, 65, 82, 68, 0, 78, 80, 0, 20, 0x12, 0x34, 0, 6];
    expected.extend_from_slice(&v6_sample());
    assert_eq!(&wire[..], &expected[..]);
    assert_eq!(wire.len(), 32);
}

#[test]
fn mixed_family_reply() {
    let sender = Endpoint::v6(v6_loopback(), 1);
    let receiver = Endpoint::v4(10, 0, 0, 1, 2);
    let msg = OrchardMessage::NatReply { sender, receiver };
    let wire = msg.encode();
    let mut expected = vec![79, 82, 67, 72, 65, 82, 68, 0, 78, 82, 0, 28, 0, 1, 0, 6];
    expected.extend_from_slice(&v6_loopback());
    expected.extend_from_slice(&[0, 2, 0, 4, 10, 0, 0, 1]);
    assert_eq!(&wire[..], &expected[..]);
    match OrchardMessage::decode(&wire) {
        Ok(OrchardMessage::NatReply { sender: s, receiver: r }) => {
            assert_eq!(s.addr.version(), 6);
            assert_eq!(s.addr.octets(), v6_loopback().to_vec());
            assert_eq!(s.port, 1);
            assert_eq!(r.addr.version(), 4);
            assert_eq!(r.addr.octets(), vec![10, 0, 0, 1]);
            assert_eq!(r.port, 2);
        }
        other => panic!("not a reply: {:?}", other),
    }
}

#[test]
fn reply_lengths() {
    let a = Endpoint::v4(1, 2, 3, 4, 5);
    let d = Endpoint::v6(v6_sample(), 6);
    let both4 = OrchardMessage::NatReply { sender: a, receiver: a }.encode();
    assert_eq!(both4.len(), 28);
    assert_eq!(&both4[10..12], &[0, 16]);
    let mixed = OrchardMessage::NatReply { sender: a, receiver: d }.encode();
    assert_eq!(mixed.len(), 40);
    assert_eq!(&mixed[10..12], &[0, 28]);
    let both6 = OrchardMessage::NatReply { sender: d, receiver: d }.encode();
    assert_eq!(both6.len(), 52);
    assert_eq!(&both6[10..12], &[0, 40]);
}

#[test]
fn round_trip_every_shape() {
    for msg in samples() {
        let wire = msg.encode();
        assert_eq!(OrchardMessage::decode(&wire), Ok(msg));
        assert_eq!(
            OrchardMessage::decode_frame(&wire),
            Ok(Decoded { message: msg, trailing: 0, length_agrees: true })
        );
    }
}

#[test]
fn every_strict_prefix_is_truncated() {
    for msg in samples() {
        let wire = msg.encode();
        for cut in 0..wire.len() {
            assert_eq!(OrchardMessage::decode(&wire[..cut]), Err(ParseError::Truncated));
        }
    }
}

#[test]
fn empty_input_is_truncated() {
    assert_eq!(OrchardMessage::decode(&[]), Err(ParseError::Truncated));
}

#[test]
fn wrong_magic_is_rejected() {
    for at in 0..7 {
        let mut wire = probe_v4_bytes();
        wire[at] ^= 0x20;
        assert_eq!(OrchardMessage::decode(&wire), Err(ParseError::BadMagic));
    }
    let mut junk = vec![b'X'; 7];
    junk.extend_from_slice(&[9, 9, 9, 9, 9, 9, 9, 9, 9, 9, 9, 9, 9]);
    assert_eq!(OrchardMessage::decode(&junk), Err(ParseError::BadMagic));
    assert_eq!(OrchardMessage::decode(b"ORCHARX"), Err(ParseError::BadMagic));
}

#[test]
fn wrong_magic_in_a_short_input() {
    assert_eq!(OrchardMessage::decode(b"XYZ"), Err(ParseError::BadMagic));
    assert_eq!(OrchardMessage::decode(b"ORX"), Err(ParseError::BadMagic));
    assert_eq!(OrchardMessage::decode(b"ORC"), Err(ParseError::Truncated));
    assert_eq!(OrchardMessage::decode(b"ORCHARD"), Err(ParseError::Truncated));
}

#[test]
fn other_version_is_rejected() {
    let mut wire = probe_v4_bytes();
    wire[7] = 1;
    assert_eq!(OrchardMessage::decode(&wire), Err(ParseError::UnsupportedVersion));
    assert_eq!(OrchardMessage::decode(b"ORCHARD\xff"), Err(ParseError::UnsupportedVersion));
}

#[test]
fn unknown_type_is_rejected() {
    let mut wire = probe_v4_bytes();
    wire[9] = b'Q';
    assert_eq!(OrchardMessage::decode(&wire), Err(ParseError::UnknownType));
    let mut wire = probe_v4_bytes();
    wire[8] = b'R';
    wire[9] = b'N';
    assert_eq!(OrchardMessage::decode(&wire), Err(ParseError::UnknownType));
    assert_eq!(OrchardMessage::decode(b"ORCHARD\x00PN"), Err(ParseError::UnknownType));
}

#[test]
fn bad_family_in_a_probe() {
    for tag in [0u8, 5, 7, 16] {
        let mut wire = probe_v4_bytes();
        wire[15] = tag;
        assert_eq!(OrchardMessage::decode(&wire), Err(ParseError::BadFamily));
    }
    let mut wire = probe_v4_bytes();
    wire[14] = 1;
    assert_eq!(OrchardMessage::decode(&wire), Err(ParseError::BadFamily));
}

#[test]
fn bad_family_at_either_place_of_a_reply() {
    let msg = OrchardMessage::NatReply {
        sender: Endpoint::v6(v6_loopback(), 1),
        receiver: Endpoint::v4(10, 0, 0, 1, 2),
    };
    let mut wire = msg.encode().to_vec();
    wire[15] = 5;
    assert_eq!(OrchardMessage::decode(&wire), Err(ParseError::BadFamily));
    let mut wire = msg.encode().to_vec();
    wire[35] = 5;
    assert_eq!(OrchardMessage::decode(&wire), Err(ParseError::BadFamily));
}

#[test]
fn trailing_bytes_are_passed_over() {
    for msg in samples() {
        let mut wire = msg.encode().to_vec();
        wire.extend_from_slice(&[0xde, 0xad, 0xbe]);
        assert_eq!(OrchardMessage::decode(&wire), Ok(msg));
        let decoded = OrchardMessage::decode_frame(&wire).unwrap();
        assert_eq!(decoded, Decoded { message: msg, trailing: 3, length_agrees: true });
        assert!(decoded.is_anomalous());
    }
}

#[test]
fn exact_input_is_not_anomalous() {
    let decoded = OrchardMessage::decode_frame(&probe_v4_bytes()).unwrap();
    assert_eq!(decoded.trailing, 0);
    assert!(decoded.length_agrees);
    assert!(!decoded.is_anomalous());
}

#[test]
fn declared_length_bounds_the_fields() {
    let mut wire = probe_v4_bytes();
    wire[11] = 7;
    assert_eq!(OrchardMessage::decode(&wire), Err(ParseError::Truncated));
    let mut wire = probe_v4_bytes();
    wire[11] = 3;
    assert_eq!(OrchardMessage::decode(&wire), Err(ParseError::Truncated));
    let mut wire = probe_v4_bytes();
    wire[11] = 0;
    assert_eq!(OrchardMessage::decode(&wire), Err(ParseError::Truncated));
    let reply = OrchardMessage::NatReply {
        sender: Endpoint::v4(1, 2, 3, 4, 5),
        receiver: Endpoint::v4(6, 7, 8, 9, 10),
    };
    let mut wire = reply.encode().to_vec();
    wire[11] = 8;
    assert_eq!(OrchardMessage::decode(&wire), Err(ParseError::Truncated));
}

#[test]
fn declared_length_beyond_the_fields_is_noted() {
    let mut wire = probe_v4_bytes();
    wire[10] = 1;
    wire[11] = 0;
    let msg = OrchardMessage::NatProbe { sender: Endpoint::v4(203, 0, 113, 5, 40000) };
    let decoded = OrchardMessage::decode_frame(&wire).unwrap();
    assert_eq!(decoded, Decoded { message: msg, trailing: 0, length_agrees: false });
    assert!(decoded.is_anomalous());
}

#[test]
fn a_probe_with_a_reply_behind_it_is_a_probe() {
    let a = Endpoint::v4(1, 2, 3, 4, 5);
    let b = Endpoint::v4(6, 7, 8, 9, 10);
    let mut wire = OrchardMessage::NatReply { sender: a, receiver: b }.encode().to_vec();
    wire[9] = b'P';
    let decoded = OrchardMessage::decode_frame(&wire).unwrap();
    assert_eq!(decoded.message, OrchardMessage::NatProbe { sender: a });
    assert_eq!(decoded.trailing, 8);
    assert!(!decoded.length_agrees);
}

#[test]
fn family_error_comes_before_truncation_of_the_address() {
    let wire = [79, 82, 67, 72, 65, 82, 68, 0, 78, 80, 0, 8, 0, 1, 0, 9];
    assert_eq!(OrchardMessage::decode(&wire), Err(ParseError::BadFamily));
    let wire = [79, 82, 67, 72, 65, 82, 68, 0, 78, 80, 0, 8, 0, 1, 0, 6, 1, 2, 3, 4];
    assert_eq!(OrchardMessage::decode(&wire), Err(ParseError::Truncated));
}
