use multiwii_serial_protocol::{MspPacket, MspPacketDirection, MspPacketParseError, MspParser};
use std::borrow::Cow;

fn to_wire(packet: &MspPacket) -> Vec<u8> {
    let size = packet.packet_size_bytes();
    let mut output = vec![0; size];
    packet.serialize(&mut output).unwrap();
    output
}

fn feed<'a>(
    parser: &mut MspParser,
    bytes: &[u8],
) -> Vec<Result<Option<MspPacket<'a>>, MspPacketParseError>> {
    let mut results = Vec::new();
    for b in bytes {
        results.push(parser.parse(*b));
    }
    results
}

#[test]
fn test_serialize() {
    let packet = MspPacket {
        cmd: 2,
        direction: MspPacketDirection::ToFlightController,
        data: Cow::Owned(vec![0xbe, 0xef]),
    };

    let size = packet.packet_size_bytes();
    assert_eq!(8, size);

    let mut output = vec![0; size];
    packet.serialize(&mut output).unwrap();
    let expected = ['$' as u8, 'M' as u8, '<' as u8, 2, 2, 0xbe, 0xef, 81];
    assert_eq!(&expected, output.as_slice());

    let crc = 2 ^ 2 ^ 0xBE ^ 0xEF;
    assert_eq!(81, crc);

    let mut packet_parsed = None;
    let mut parser = MspParser::new();
    for b in output {
        let s = parser.parse(b);
        if let Ok(Some(p)) = s {
            packet_parsed = Some(p);
        }
    }

    assert_eq!(packet, packet_parsed.unwrap());
}

fn roundtrip(packet: &MspPacket) {
    let size = packet.packet_size_bytes();
    let mut output = vec![0; size];

    packet.serialize(&mut output).unwrap();

    let mut parser = MspParser::new();
    let mut packet_parsed = None;
    for b in output {
        let s = parser.parse(b);
        if let Ok(Some(p)) = s {
            packet_parsed = Some(p);
        }
    }
    assert_eq!(packet, &packet_parsed.unwrap());
}

#[test]
fn test_roundtrip() {
    {
        let packet = MspPacket {
            cmd: 1,
            direction: MspPacketDirection::ToFlightController,
            data: Cow::Owned(vec![0x00, 0x00, 0x00]),
        };
        roundtrip(&packet);
    }

    {
        let packet = MspPacket {
            cmd: 200,
            direction: MspPacketDirection::FromFlightController,
            data: Cow::Owned(vec![]),
        };
        roundtrip(&packet);
    }

    {
        let packet = MspPacket {
            cmd: 100,
            direction: MspPacketDirection::Unsupported,
            data: Cow::Owned(vec![0x44, 0x20, 0x00, 0x80]),
        };
        roundtrip(&packet);
    }
}

#[test]
fn direction_bytes() {
    assert_eq!(b'<', MspPacketDirection::ToFlightController.to_byte());
    assert_eq!(b'>', MspPacketDirection::FromFlightController.to_byte());
    assert_eq!(b'!', MspPacketDirection::Unsupported.to_byte());
}

#[test]
fn direction_from_byte_is_partial_inverse() {
    let mut known = 0;
    for b in 0..=255u8 {
        match MspPacketDirection::from_byte(b) {
            Some(d) => {
                known += 1;
                assert_eq!(b, d.to_byte());
            }
            None => assert!(b != b'<' && b != b'>' && b != b'!'),
        }
    }
    assert_eq!(3, known);
    assert_eq!(
        Some(MspPacketDirection::ToFlightController),
        MspPacketDirection::from_byte(60)
    );
    assert_eq!(
        Some(MspPacketDirection::FromFlightController),
        MspPacketDirection::from_byte(62)
    );
    assert_eq!(Some(MspPacketDirection::Unsupported), MspPacketDirection::from_byte(33));
    assert_eq!(None, MspPacketDirection::from_byte(0));
}

#[test]
fn no_output_before_last_byte() {
    let wire = ['$' as u8, 'M' as u8, '<' as u8, 2, 2, 0xbe, 0xef, 0x51];
    let mut parser = MspParser::new();
    let results = feed(&mut parser, &wire);
    assert_eq!(8, results.len());
    for r in &results[..7] {
        assert_eq!(&Ok(None), r);
    }
    let expected = MspPacket {
        cmd: 2,
        direction: MspPacketDirection::ToFlightController,
        data: Cow::Owned(vec![0xbe, 0xef]),
    };
    assert_eq!(Ok(Some(expected)), results[7]);
    assert!(parser.state_is_between_packets());
}

#[test]
fn parsed_payload_is_owned() {
    let wire = ['$' as u8, 'M' as u8, '>' as u8, 1, 9, 7, 1 ^ 9 ^ 7];
    let mut parser = MspParser::new();
    let mut results = feed(&mut parser, &wire);
    let packet = results.pop().unwrap().unwrap().unwrap();
    assert!(matches!(packet.data, Cow::Owned(_)));
    assert_eq!(9, packet.cmd);
    assert_eq!(MspPacketDirection::FromFlightController, packet.direction);
    assert_eq!(&[7u8][..], &*packet.data);
}

#[test]
fn wire_size_is_six_plus_payload() {
    let payload = [1u8, 2, 3, 4, 5];
    let packet = MspPacket {
        cmd: 7,
        direction: MspPacketDirection::FromFlightController,
        data: Cow::Borrowed(&payload[..]),
    };
    assert_eq!(11, packet.packet_size_bytes());
}

#[test]
fn serialize_borrowed_payload() {
    let payload = [0x10u8, 0x20, 0x30];
    let packet = MspPacket {
        cmd: 0x6c,
        direction: MspPacketDirection::FromFlightController,
        data: Cow::Borrowed(&payload[..]),
    };
    let wire = to_wire(&packet);
    assert_eq!(
        vec![0x24, 0x4d, 0x3e, 3, 0x6c, 0x10, 0x20, 0x30, 3 ^ 0x6c ^ 0x10 ^ 0x20 ^ 0x30],
        wire
    );
    assert_eq!(0x6f, wire[8]);
    roundtrip(&packet);
}

#[test]
fn borrowed_and_owned_packets_compare_by_content() {
    let payload = [5u8, 6, 7];
    let borrowed = MspPacket {
        cmd: 3,
        direction: MspPacketDirection::Unsupported,
        data: Cow::Borrowed(&payload[..]),
    };
    let owned = MspPacket {
        cmd: 3,
        direction: MspPacketDirection::Unsupported,
        data: Cow::Owned(vec![5, 6, 7]),
    };
    assert_eq!(borrowed, owned);
    assert_eq!(borrowed, borrowed.clone());
    assert_eq!(owned.clone(), owned);

    let other_cmd = MspPacket { cmd: 4, ..owned.clone() };
    assert_ne!(owned, other_cmd);
    let other_direction =
        MspPacket { direction: MspPacketDirection::ToFlightController, ..owned.clone() };
    assert_ne!(owned, other_direction);
    let other_data = MspPacket { data: Cow::Owned(vec![5, 6, 8]), ..owned.clone() };
    assert_ne!(owned, other_data);
    let shorter = MspPacket { data: Cow::Owned(vec![5, 6]), ..owned.clone() };
    assert_ne!(owned, shorter);
}

#[test]
fn buffer_one_byte_too_short_is_refused() {
    let packet = MspPacket {
        cmd: 2,
        direction: MspPacketDirection::ToFlightController,
        data: Cow::Owned(vec![0xbe, 0xef]),
    };
    let mut output = vec![0xaa; 7];
    assert_eq!(
        Err(MspPacketParseError::OutputBufferSizeMismatch),
        packet.serialize(&mut output)
    );
    assert_eq!(vec![0xaa; 7], output);
}

#[test]
fn buffer_one_byte_too_long_is_refused() {
    let packet = MspPacket {
        cmd: 2,
        direction: MspPacketDirection::ToFlightController,
        data: Cow::Owned(vec![0xbe, 0xef]),
    };
    let mut output = vec![0x55; 9];
    assert_eq!(
        Err(MspPacketParseError::OutputBufferSizeMismatch),
        packet.serialize(&mut output)
    );
    assert_eq!(vec![0x55; 9], output);
}

#[test]
fn empty_buffer_is_refused() {
    let packet = MspPacket {
        cmd: 2,
        direction: MspPacketDirection::ToFlightController,
        data: Cow::Owned(vec![]),
    };
    let mut output: Vec<u8> = Vec::new();
    assert_eq!(
        Err(MspPacketParseError::OutputBufferSizeMismatch),
        packet.serialize(&mut output)
    );
}

#[test]
fn payload_longer_than_length_byte_is_refused() {
    let packet = MspPacket {
        cmd: 2,
        direction: MspPacketDirection::ToFlightController,
        data: Cow::Owned(vec![1; 256]),
    };
    assert_eq!(262, packet.packet_size_bytes());
    let mut output = vec![0x77; 262];
    assert_eq!(Err(MspPacketParseError::InvalidDataLength), packet.serialize(&mut output));
    assert_eq!(vec![0x77; 262], output);
}

#[test]
fn empty_payload_takes_six_bytes() {
    let packet = MspPacket {
        cmd: 200,
        direction: MspPacketDirection::FromFlightController,
        data: Cow::Owned(vec![]),
    };
    let wire = to_wire(&packet);
    assert_eq!(vec![b'$', b'M', b'>', 0, 200, 200], wire);
    roundtrip(&packet);
}

#[test]
fn largest_payload_takes_261_bytes() {
    let payload: Vec<u8> = (0..255u8).collect();
    let packet = MspPacket {
        cmd: 0x42,
        direction: MspPacketDirection::ToFlightController,
        data: Cow::Owned(payload.clone()),
    };
    assert_eq!(261, packet.packet_size_bytes());
    let wire = to_wire(&packet);
    assert_eq!(261, wire.len());
    assert_eq!(255, wire[3]);
    assert_eq!(&payload[..], &wire[5..260]);
    let mut crc = 255u8 ^ 0x42;
    for b in &payload {
        crc ^= *b;
    }
    assert_eq!(crc, wire[260]);
    roundtrip(&packet);
}

#[test]
fn checksum_does_not_depend_on_payload_order() {
    let a = MspPacket {
        cmd: 9,
        direction: MspPacketDirection::ToFlightController,
        data: Cow::Owned(vec![1, 2, 3, 0x80, 0x7f]),
    };
    let b = MspPacket {
        cmd: 9,
        direction: MspPacketDirection::ToFlightController,
        data: Cow::Owned(vec![0x7f, 3, 0x80, 1, 2]),
    };
    let wire_a = to_wire(&a);
    let wire_b = to_wire(&b);
    assert_eq!(5 ^ 9 ^ 1 ^ 2 ^ 3 ^ 0x80 ^ 0x7f, wire_a[10]);
    assert_eq!(wire_a[10], wire_b[10]);
    assert_ne!(wire_a, wire_b);
}

#[test]
fn noise_before_a_packet_is_skipped() {
    let packet = MspPacket {
        cmd: 100,
        direction: MspPacketDirection::Unsupported,
        data: Cow::Owned(vec![0x44, 0x20, 0x00, 0x80]),
    };
    let wire = to_wire(&packet);
    let mut parser = MspParser::new();
    let noise = [0u8, 0xff, b'M', b'<', 7, 7, 0x25, 0x23];
    for r in feed(&mut parser, &noise) {
        assert_eq!(Ok(None), r);
    }
    assert!(parser.state_is_between_packets());
    let mut results = feed(&mut parser, &wire);
    assert_eq!(Some(Ok(Some(packet))), results.pop());
    for r in results {
        assert_eq!(Ok(None), r);
    }
    assert!(parser.state_is_between_packets());
}

#[test]
fn broken_preamble_starts_over() {
    let mut parser = MspParser::new();
    assert!(parser.state_is_between_packets());
    assert_eq!(Ok(None), parser.parse(b'$'));
    assert!(!parser.state_is_between_packets());
    assert_eq!(Ok(None), parser.parse(b'X'));
    assert!(parser.state_is_between_packets());
}

#[test]
fn unknown_direction_starts_over_without_error() {
    let mut parser = MspParser::new();
    assert_eq!(Ok(None), parser.parse(b'$'));
    assert_eq!(Ok(None), parser.parse(b'M'));
    assert!(!parser.state_is_between_packets());
    assert_eq!(Ok(None), parser.parse(b'?'));
    assert!(parser.state_is_between_packets());

    let packet = MspPacket {
        cmd: 1,
        direction: MspPacketDirection::ToFlightController,
        data: Cow::Owned(vec![9]),
    };
    let mut results = feed(&mut parser, &to_wire(&packet));
    assert_eq!(Some(Ok(Some(packet))), results.pop());
}

#[test]
fn wrong_checksum_is_reported_and_parser_recovers() {
    let packet = MspPacket {
        cmd: 2,
        direction: MspPacketDirection::ToFlightController,
        data: Cow::Owned(vec![0xbe, 0xef]),
    };
    let mut wire = to_wire(&packet);
    assert_eq!(0x51, wire[7]);
    wire[7] = 0x50;

    let mut parser = MspParser::new();
    let mut results = feed(&mut parser, &wire);
    assert_eq!(
        Some(Err(MspPacketParseError::CrcMismatch { expected: 0x50, calculated: 0x51 })),
        results.pop()
    );
    for r in results {
        assert_eq!(Ok(None), r);
    }
    assert!(parser.state_is_between_packets());

    let mut results = feed(&mut parser, &to_wire(&packet));
    assert_eq!(Some(Ok(Some(packet))), results.pop());
}

#[test]
fn two_packets_back_to_back() {
    let first = MspPacket {
        cmd: 1,
        direction: MspPacketDirection::ToFlightController,
        data: Cow::Owned(vec![1, 2, 3]),
    };
    let second = MspPacket {
        cmd: 2,
        direction: MspPacketDirection::FromFlightController,
        data: Cow::Owned(vec![]),
    };
    let mut stream = to_wire(&first);
    stream.extend(to_wire(&second));
    let mut parser = MspParser::new();
    let mut found = Vec::new();
    for r in feed(&mut parser, &stream) {
        if let Ok(Some(p)) = r {
            found.push(p);
        }
    }
    assert_eq!(vec![first, second], found);
}
