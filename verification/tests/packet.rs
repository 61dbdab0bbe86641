use bytes::BytesMut;
use tds_rpc::error::Error;
use tds_rpc::packet::{Packet, PacketHeader, PacketStatus, PacketType, HEADER_BYTES};

fn packet(payload: &[u8]) -> Packet {
    let mut header = PacketHeader::new(0, 1);
    header.set_type(PacketType::TabularResult);
    header.set_status(PacketStatus::EndOfMessage);

    Packet::new(header, BytesMut::from(payload))
}

#[test]
fn encodes_length_into_the_header() {
    let mut buf = BytesMut::new();
    packet(&[1, 2, 3, 4]).encode(&mut buf).unwrap();

    assert_eq!(&buf[2..4], &(HEADER_BYTES as u16 + 4).to_be_bytes());
}

#[test]
fn appends_to_a_non_empty_buffer_without_corrupting_it() {
    let mut buf = BytesMut::new();
    packet(&[1, 2, 3, 4]).encode(&mut buf).unwrap();
    let first = buf.clone();

    packet(&[5, 6]).encode(&mut buf).unwrap();

    // The first packet is untouched and the second carries its own length.
    assert_eq!(&buf[..first.len()], &first[..]);
    assert_eq!(
        &buf[first.len() + 2..first.len() + 4],
        &(HEADER_BYTES as u16 + 2).to_be_bytes()
    );
    assert_eq!(buf.len(), 2 * HEADER_BYTES + 6);
}

#[test]
fn rejects_a_payload_larger_than_the_length_field() {
    let mut buf = BytesMut::new();
    let oversized = packet(&vec![0u8; u16::MAX as usize]);

    assert!(oversized.encode(&mut buf).is_err());
}

#[test]
fn the_refusal_names_the_size_and_leaves_the_buffer_alone() {
    let mut buf = BytesMut::from(&[9u8, 9][..]);
    let smallest = vec![0u8; u16::MAX as usize - HEADER_BYTES + 1];
    match packet(&smallest).encode(&mut buf) {
        Err(Error::Protocol(text)) => assert_eq!(
            text,
            "packet of 65536 bytes exceeds the maximum packet length"
        ),
        Ok(()) => panic!("expected a refusal"),
    }
    assert_eq!(&buf[..], &[9, 9]);
    assert!(packet(&smallest[1..]).encode(&mut buf).is_ok());
    assert_eq!(&buf[4..6], &[0xFF, 0xFF]);
    assert_eq!(buf.len(), 2 + u16::MAX as usize);
}

#[test]
fn a_packet_has_this_wire_form() {
    let header = PacketHeader {
        ty: PacketType::Rpc,
        status: PacketStatus::NormalMessage,
        length: 7,
        spid: 0x1234,
        id: 5,
        window: 6,
    };
    let mut buf = BytesMut::new();
    Packet::new(header, BytesMut::from(&[0xAA, 0xBB][..]))
        .encode(&mut buf)
        .unwrap();
    assert_eq!(&buf[..], &[3, 0, 0, 10, 0x12, 0x34, 5, 6, 0xAA, 0xBB]);
}

#[test]
fn a_packet_is_read_back_with_its_length() {
    let mut buf = BytesMut::new();
    let payload: Vec<u8> = (0..300).map(|i| i as u8).collect();
    packet(&payload).encode(&mut buf).unwrap();
    let read = Packet::decode(&mut buf).unwrap();
    assert!(buf.is_empty());
    assert!(read.is_last());
    let (header, body) = read.into_parts();
    assert_eq!(header.ty, PacketType::TabularResult);
    assert_eq!(header.status(), PacketStatus::EndOfMessage);
    assert_eq!(header.length, 308);
    assert_eq!(header.spid, 0);
    assert_eq!(header.id, 1);
    assert_eq!(header.window, 0);
    assert_eq!(&body[..], &payload[..]);
}

#[test]
fn decoding_takes_the_length_field_as_it_is() {
    let mut buf = BytesMut::from(&[18u8, 1, 0xAB, 0xCD, 1, 2, 3, 4, 77][..]);
    let (header, body) = Packet::decode(&mut buf).unwrap().into_parts();
    assert_eq!(header.ty, PacketType::PreLogin);
    assert_eq!(header.length, 0xABCD);
    assert_eq!(header.spid, 0x0102);
    assert_eq!(&body[..], &[77]);
}

#[test]
fn a_packet_that_is_not_the_last_says_so() {
    for status in [
        PacketStatus::NormalMessage,
        PacketStatus::IgnoreEvent,
        PacketStatus::ResetConnection,
        PacketStatus::ResetConnectionSkipTran,
    ] {
        let mut header = PacketHeader::new(0, 1);
        header.set_status(status);
        assert!(!Packet::new(header, BytesMut::new()).is_last());
    }
}

fn refusal(bytes: &[u8]) -> (String, Vec<u8>) {
    let mut buf = BytesMut::from(bytes);
    match Packet::decode(&mut buf) {
        Err(Error::Protocol(text)) => (text.into_owned(), buf.to_vec()),
        Ok(packet) => panic!("unexpected packet {:?}", packet),
    }
}

#[test]
fn an_unknown_packet_type_is_refused() {
    assert_eq!(
        refusal(&[5, 1, 0, 8]),
        (
            "header: invalid packet type: 5".to_string(),
            vec![1, 0, 8]
        )
    );
    assert_eq!(
        refusal(&[255]),
        ("header: invalid packet type: 255".to_string(), vec![])
    );
}

#[test]
fn an_unknown_packet_status_is_refused() {
    assert_eq!(
        refusal(&[4, 2, 0, 8]),
        ("header: invalid packet status".to_string(), vec![0, 8])
    );
}

#[test]
fn packet_codes_are_read_back() {
    for code in 0..=255u8 {
        if let Some(ty) = PacketType::from_code(code) {
            assert_eq!(ty.code(), code);
        }
        if let Some(status) = PacketStatus::from_code(code) {
            assert_eq!(status.code(), code);
        }
    }
    let types = (0..=255u8).filter(|c| PacketType::from_code(*c).is_some());
    assert_eq!(
        types.collect::<Vec<u8>>(),
        vec![1, 2, 3, 4, 6, 7, 8, 14, 16, 17, 18]
    );
    let statuses = (0..=255u8).filter(|c| PacketStatus::from_code(*c).is_some());
    assert_eq!(statuses.collect::<Vec<u8>>(), vec![0, 1, 3, 8, 16]);
}

#[test]
fn a_payload_can_be_extended() {
    let mut packet = packet(&[1]);
    packet.extend(BytesMut::from(&[2u8, 3][..]));
    packet.extend_from_slice(&[4, 5]);
    let (_, body) = packet.into_parts();
    assert_eq!(&body[..], &[1, 2, 3, 4, 5]);
}

#[test]
fn incomplete_headers_are_left_alone() {
    let mut buf = BytesMut::from(&[4u8, 1, 0, 8, 0, 0, 1][..]);
    assert!(Packet::try_decode(&mut buf).is_none());
    assert_eq!(buf.len(), 7);
    buf.extend_from_slice(&[0]);
    let packet = Packet::try_decode(&mut buf).unwrap().unwrap();
    assert!(buf.is_empty());
    assert!(packet.is_last());
    assert!(packet.into_parts().1.is_empty());
    let mut bad = BytesMut::from(&[5u8, 1, 0, 8, 0, 0, 1, 0][..]);
    assert!(Packet::try_decode(&mut bad).unwrap().is_err());
    assert_eq!(bad.len(), 7);
}

#[test]
fn try_encode_writes_like_encode() {
    let mut one = BytesMut::new();
    let mut two = BytesMut::new();
    packet(&[1, 2]).encode(&mut one).unwrap();
    packet(&[1, 2]).try_encode(&mut two).unwrap().unwrap();
    assert_eq!(one, two);
    let oversized = packet(&vec![0u8; u16::MAX as usize]);
    assert!(oversized.try_encode(&mut two).unwrap().is_err());
    assert_eq!(one, two);
}

#[test]
fn a_new_header_is_that_of_a_login() {
    let mut header = PacketHeader::new(300, 2);
    assert_eq!(header.ty, PacketType::TdsV7Login);
    assert_eq!(header.status(), PacketStatus::ResetConnection);
    assert_eq!(header.length, 300);
    assert_eq!(header.id, 2);
    header.set_length(9);
    assert_eq!(header.length, 9);
}
