use packet_marshaling::marshaling::Bincode;
use packet_marshaling::marshaling::PacketMarshalingStrategy;
use packet_marshaling::NetworkPacket;

#[test]
fn scenario_small_packet_round_trip() {
    let packet = NetworkPacket {
        id: 1,
        payload: b"hi".to_vec(),
    };
    let size = Bincode::serialized_size(&packet).unwrap();
    assert_eq!(size, 18);
    let mut buffer = vec![0u8; size];
    Bincode::serialize_into(&mut buffer, &packet).unwrap();
    let decoded = Bincode::deserialize(&buffer).unwrap();
    assert_eq!(decoded, packet);
}

#[test]
fn encoding_layout_is_fixint_little_endian() {
    let packet = NetworkPacket {
        id: 1,
        payload: b"hi".to_vec(),
    };
    let mut buffer = vec![0u8; 18];
    Bincode::serialize_into(&mut buffer, &packet).unwrap();
    let expected = vec![
        1, 0, 0, 0, 0, 0, 0, 0, // identifier, little endian
        2, 0, 0, 0, 0, 0, 0, 0, // payload length, little endian
        0x68, 0x69, // the payload bytes of "hi"
    ];
    assert_eq!(buffer, expected);
}

#[test]
fn one_byte_short_buffer_is_refused() {
    let packet = NetworkPacket {
        id: 1,
        payload: b"hi".to_vec(),
    };
    let size = Bincode::serialized_size(&packet).unwrap();
    let mut buffer = vec![0u8; size - 1];
    let outcome = Bincode::serialize_into(&mut buffer, &packet);
    assert!(outcome.is_err());
    assert_eq!(buffer.len(), size - 1);
}

#[test]
fn empty_buffer_decode_is_refused() {
    let outcome = Bincode::deserialize(&[]);
    assert!(outcome.is_err());
    assert!(!outcome.unwrap_err().message.is_empty());
}

#[test]
fn garbage_short_buffers_are_refused() {
    for len in 1..16 {
        let garbage = vec![0xffu8; len];
        assert!(Bincode::deserialize(&garbage).is_err());
    }
}

#[test]
fn truncated_payload_is_refused() {
    // A header promising five payload bytes, followed by only two of them.
    let mut buffer = vec![0u8; 16];
    buffer[8] = 5;
    buffer.push(0x61);
    buffer.push(0x62);
    assert!(Bincode::deserialize(&buffer).is_err());
}

#[test]
fn encoding_is_deterministic() {
    let first = NetworkPacket {
        id: 42,
        payload: b"same bytes".to_vec(),
    };
    let second = NetworkPacket {
        id: 42,
        payload: b"same bytes".to_vec(),
    };
    let size = Bincode::serialized_size(&first).unwrap();
    let mut buffer_a = vec![0u8; size];
    let mut buffer_b = vec![0u8; size];
    Bincode::serialize_into(&mut buffer_a, &first).unwrap();
    Bincode::serialize_into(&mut buffer_b, &second).unwrap();
    assert_eq!(buffer_a, buffer_b);
}

#[test]
fn oversized_buffer_writes_prefix_and_keeps_tail() {
    let packet = NetworkPacket {
        id: 1,
        payload: b"hi".to_vec(),
    };
    let mut buffer = vec![0xaau8; 24];
    Bincode::serialize_into(&mut buffer, &packet).unwrap();
    let mut exact = vec![0u8; 18];
    Bincode::serialize_into(&mut exact, &packet).unwrap();
    assert_eq!(&buffer[..18], &exact[..]);
    assert_eq!(&buffer[18..], &[0xaau8; 6][..]);
}

#[test]
fn trailing_bytes_are_ignored_on_decode() {
    let packet = NetworkPacket {
        id: 9,
        payload: b"tail".to_vec(),
    };
    let size = Bincode::serialized_size(&packet).unwrap();
    let mut buffer = vec![0u8; size];
    Bincode::serialize_into(&mut buffer, &packet).unwrap();
    buffer.push(0xff);
    buffer.push(0x00);
    let decoded = Bincode::deserialize(&buffer).unwrap();
    assert_eq!(decoded, packet);
}

#[test]
fn empty_payload_round_trip() {
    let packet = NetworkPacket {
        id: 7,
        payload: Vec::new(),
    };
    let size = Bincode::serialized_size(&packet).unwrap();
    assert_eq!(size, 16);
    let mut buffer = vec![0u8; size];
    Bincode::serialize_into(&mut buffer, &packet).unwrap();
    let decoded = Bincode::deserialize(&buffer).unwrap();
    assert_eq!(decoded, packet);
}

#[test]
fn largest_id_round_trip() {
    let packet = NetworkPacket {
        id: u64::MAX,
        payload: vec![0, 255, 1, 254],
    };
    let size = Bincode::serialized_size(&packet).unwrap();
    assert_eq!(size, 20);
    let mut buffer = vec![0u8; size];
    Bincode::serialize_into(&mut buffer, &packet).unwrap();
    let decoded = Bincode::deserialize(&buffer).unwrap();
    assert_eq!(decoded, packet);
}

#[test]
fn sixteen_zero_bytes_decode_to_empty_packet() {
    let buffer = vec![0u8; 16];
    let decoded = Bincode::deserialize(&buffer).unwrap();
    assert_eq!(
        decoded,
        NetworkPacket {
            id: 0,
            payload: Vec::new(),
        }
    );
}

#[test]
fn packets_with_different_payloads_are_unequal() {
    let a = NetworkPacket {
        id: 3,
        payload: b"one".to_vec(),
    };
    let b = NetworkPacket {
        id: 3,
        payload: b"two".to_vec(),
    };
    assert_ne!(a, b);
    let c = NetworkPacket {
        id: 4,
        payload: b"one".to_vec(),
    };
    assert_ne!(a, c);
}
