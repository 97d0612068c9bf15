use discortp::discord::{IpDiscoveryPacket, IpDiscoveryType, MutableIpDiscoveryPacket};
use twilight_voice::packet::{
    build_response, decode_response, encode_request, CodecError, ADDRESS_LEN, DECLARED_LEN,
    PACKET_LEN, REQUEST, RESPONSE,
};

fn response_with_address(address: &[u8], port: u16) -> Vec<u8> {
    let mut bytes = vec![0u8; 74];
    bytes[1] = 2;
    bytes[3] = 70;
    bytes[8..8 + address.len()].copy_from_slice(address);
    bytes[72..74].copy_from_slice(&port.to_be_bytes());
    bytes
}

#[test]
fn constants_of_the_format() {
    assert_eq!(PACKET_LEN, 74);
    assert_eq!(ADDRESS_LEN, 64);
    assert_eq!(DECLARED_LEN, 70);
    assert_eq!(REQUEST, 1);
    assert_eq!(RESPONSE, 2);
}

#[test]
fn request_has_the_fixed_layout() {
    let bytes = encode_request(1234);
    let mut expected = vec![0u8; 74];
    expected[1] = 1;
    expected[3] = 70;
    expected[6] = 0x04;
    expected[7] = 0xd2;
    assert_eq!(bytes, expected);
}

#[test]
fn request_writes_the_ssrc_big_endian() {
    let bytes = encode_request(0xdead_beef);
    assert_eq!(bytes.len(), 74);
    assert_eq!(&bytes[0..8], &[0, 1, 0, 70, 0xde, 0xad, 0xbe, 0xef]);
    assert!(bytes[8..].iter().all(|b| *b == 0));
    assert_eq!(&encode_request(0)[4..8], &[0, 0, 0, 0]);
    assert_eq!(&encode_request(u32::MAX)[4..8], &[255, 255, 255, 255]);
}

#[test]
fn response_has_the_fixed_layout() {
    let bytes = build_response("203.0.113.5", 5000, 1234).unwrap();
    let mut expected = vec![0u8; 74];
    expected[1] = 2;
    expected[3] = 70;
    expected[6] = 0x04;
    expected[7] = 0xd2;
    expected[8..19].copy_from_slice(b"203.0.113.5");
    expected[72] = 0x13;
    expected[73] = 0x88;
    assert_eq!(bytes, expected);
}

#[test]
fn response_round_trips() {
    for (ip, port, ssrc) in [
        ("203.0.113.5", 5000u16, 1234u32),
        ("0.0.0.0", 0, 0),
        ("255.255.255.255", 65535, u32::MAX),
        ("192.168.1.77", 443, 7),
        ("", 1, 1),
        ("2001:db8::1", 50000, 99),
        ("h\u{f4}te.example", 256, 65536),
    ] {
        let bytes = build_response(ip, port, ssrc).unwrap();
        assert_eq!(bytes.len(), 74);
        assert_eq!(decode_response(&bytes), Ok((ip.to_string(), port)));
    }
}

#[test]
fn response_round_trips_for_every_port_byte() {
    for port in [0u16, 1, 255, 256, 257, 0x1234, 0xff00, 0x00ff, 65535] {
        let bytes = build_response("10.0.0.1", port, 5).unwrap();
        assert_eq!(bytes[72], (port >> 8) as u8);
        assert_eq!(bytes[73], (port & 0xff) as u8);
        assert_eq!(decode_response(&bytes), Ok(("10.0.0.1".to_string(), port)));
    }
}

#[test]
fn address_may_fill_the_whole_field() {
    let ip = "a".repeat(64);
    let bytes = build_response(&ip, 9, 9).unwrap();
    assert_eq!(bytes.len(), 74);
    assert_eq!(decode_response(&bytes), Ok((ip, 9)));
}

#[test]
fn address_of_more_than_64_bytes_is_refused() {
    assert_eq!(build_response(&"a".repeat(65), 9, 9), Err(CodecError::AddressTooLong));
    assert_eq!(build_response(&"\u{e9}".repeat(33), 9, 9), Err(CodecError::AddressTooLong));
    assert!(build_response(&"\u{e9}".repeat(32), 9, 9).is_ok());
}

#[test]
fn short_buffers_are_refused() {
    assert_eq!(decode_response(&[]), Err(CodecError::TooShort));
    assert_eq!(decode_response(&[0, 2]), Err(CodecError::TooShort));
    let bytes = build_response("203.0.113.5", 5000, 1234).unwrap();
    for len in 0..74 {
        assert_eq!(decode_response(&bytes[..len]), Err(CodecError::TooShort));
    }
    assert!(decode_response(&bytes[..74]).is_ok());
}

#[test]
fn other_kinds_are_refused() {
    assert_eq!(decode_response(&encode_request(1234)), Err(CodecError::NotResponse));
    let mut bytes = build_response("203.0.113.5", 5000, 1234).unwrap();
    bytes[1] = 3;
    assert_eq!(decode_response(&bytes), Err(CodecError::NotResponse));
    bytes[1] = 0;
    assert_eq!(decode_response(&bytes), Err(CodecError::NotResponse));
    bytes[0] = 2;
    bytes[1] = 2;
    assert_eq!(decode_response(&bytes), Err(CodecError::NotResponse));
    bytes[0] = 0;
    assert_eq!(decode_response(&bytes), Ok(("203.0.113.5".to_string(), 5000)));
}

#[test]
fn short_is_reported_before_kind() {
    assert_eq!(decode_response(&[0u8; 73]), Err(CodecError::TooShort));
    assert_eq!(decode_response(&[0u8; 74]), Err(CodecError::NotResponse));
}

#[test]
fn address_that_is_not_utf8_is_refused() {
    assert_eq!(
        decode_response(&response_with_address(&[0xff, 0xfe], 1)),
        Err(CodecError::InvalidAddress)
    );
    assert_eq!(
        decode_response(&response_with_address(&[b'1', 0xc3], 1)),
        Err(CodecError::InvalidAddress)
    );
    assert_eq!(
        decode_response(&response_with_address(&[0xc3, 0xa9], 1)),
        Ok(("\u{e9}".to_string(), 1))
    );
}

#[test]
fn only_padding_at_the_end_comes_off() {
    assert_eq!(
        decode_response(&response_with_address(b"a\0b", 7)),
        Ok(("a\0b".to_string(), 7))
    );
    assert_eq!(
        decode_response(&response_with_address(b"\0\01", 7)),
        Ok(("\0\01".to_string(), 7))
    );
    assert_eq!(decode_response(&response_with_address(b"", 7)), Ok((String::new(), 7)));
}

#[test]
fn bytes_after_the_packet_are_ignored() {
    let mut bytes = build_response("203.0.113.5", 5000, 1234).unwrap();
    bytes.extend_from_slice(&[0xff; 20]);
    assert_eq!(decode_response(&bytes), Ok(("203.0.113.5".to_string(), 5000)));
}

#[test]
fn length_and_ssrc_fields_do_not_decide() {
    let mut bytes = build_response("203.0.113.5", 5000, 1234).unwrap();
    bytes[2] = 9;
    bytes[3] = 9;
    bytes[4] = 9;
    assert_eq!(decode_response(&bytes), Ok(("203.0.113.5".to_string(), 5000)));
}

#[test]
fn request_is_what_the_packet_crate_writes() {
    for ssrc in [0u32, 1, 1234, 0x0102_0304, u32::MAX] {
        let mut buffer = [0u8; 74];
        {
            let mut packet = MutableIpDiscoveryPacket::new(&mut buffer).unwrap();
            packet.set_pkt_type(IpDiscoveryType::Request);
            packet.set_ssrc(ssrc);
            packet.set_length(70);
        }
        assert_eq!(IpDiscoveryPacket::const_packet_size(), PACKET_LEN);
        assert_eq!(encode_request(ssrc), buffer.to_vec());
    }
}

#[test]
fn response_is_what_the_packet_crate_reads() {
    let bytes = build_response("203.0.113.5", 5000, 1234).unwrap();
    let packet = IpDiscoveryPacket::new(&bytes).unwrap();
    assert_eq!(packet.get_pkt_type(), IpDiscoveryType::Response);
    assert_eq!(packet.get_length(), 70);
    assert_eq!(packet.get_ssrc(), 1234);
    assert_eq!(packet.get_port(), 5000);
    let address = packet.get_address();
    assert_eq!(address.len(), 64);
    assert_eq!(&address[..11], b"203.0.113.5");
    assert!(address[11..].iter().all(|b| *b == 0));
}

#[test]
fn decode_reads_what_the_packet_crate_writes() {
    let mut buffer = [0u8; 74];
    {
        let mut packet = MutableIpDiscoveryPacket::new(&mut buffer).unwrap();
        packet.set_pkt_type(IpDiscoveryType::Response);
        packet.set_length(70);
        packet.set_ssrc(77);
        packet.set_address(b"198.51.100.23");
        packet.set_port(61234);
    }
    assert_eq!(decode_response(&buffer), Ok(("198.51.100.23".to_string(), 61234)));
}

#[test]
fn ill_formed_encodings_are_refused() {
    for address in [
        &[0xc0u8, 0x80][..],
        &[0xe0, 0x80, 0x80],
        &[0xed, 0xa0, 0x80],
        &[0xf4, 0x90, 0x80, 0x80],
        &[0xf8, 0x88, 0x80, 0x80, 0x80],
        &[0x80],
        &[b'a', 0xe2, 0x82],
    ] {
        assert_eq!(
            decode_response(&response_with_address(address, 2)),
            Err(CodecError::InvalidAddress)
        );
    }
    assert_eq!(
        decode_response(&response_with_address(&[0xf0, 0x9f, 0x98, 0x80], 2)),
        Ok(("\u{1f600}".to_string(), 2))
    );
    assert_eq!(
        decode_response(&response_with_address(&[0xe2, 0x82, 0xac], 2)),
        Ok(("\u{20ac}".to_string(), 2))
    );
}

#[test]
fn encoding_cut_by_the_field_is_refused() {
    let mut address = vec![b'a'; 63];
    address.push(0xc3);
    assert_eq!(
        decode_response(&response_with_address(&address, 2)),
        Err(CodecError::InvalidAddress)
    );
}
