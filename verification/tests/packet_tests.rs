use dhcp4::addr::{AsciiText, Ipv4Address, MacAddress};
use dhcp4::dhcp::{Cookie, DhcpPacket, Flags, HardwareAddressType, MessageOperation};
use dhcp4::error::DhcpError;
use dhcp4::option::{DhcpOption, DhcpOptions, MessageType};

/// A client Discover datagram: 240 header bytes and five options.
fn client_request_bytes() -> Vec<u8> {
    let mut b: Vec<u8> = Vec::new();
    b.extend_from_slice(&[1, 1, 6, 0]); // BootRequest, Ethernet, 6-octet mac, no hops
    b.extend_from_slice(&[0x00, 0x00, 0x3d, 0x1d]); // transaction id
    b.extend_from_slice(&[0, 0]); // seconds
    b.extend_from_slice(&[0, 0]); // unicast
    b.extend_from_slice(&[0; 16]); // client, your, server, gateway
    b.extend_from_slice(&[0x00, 0x0b, 0x82, 0x01, 0xfc, 0x42]); // chaddr
    b.extend_from_slice(&[0; 10]); // chaddr padding
    b.extend_from_slice(&[0; 64]); // server hostname
    b.extend_from_slice(&[0; 128]); // boot filename
    b.extend_from_slice(&[0x63, 0x82, 0x53, 0x63]); // cookie
    b.extend_from_slice(&[53, 1, 1]); // message type: discover
    b.extend_from_slice(&[61, 7, 1, 0x00, 0x0b, 0x82, 0x01, 0xfc, 0x42]); // client id
    b.extend_from_slice(&[50, 4, 0, 0, 0, 0]); // requested ip
    b.extend_from_slice(&[55, 4, 1, 3, 6, 42]); // parameter request list
    b.push(255); // end
    b
}

#[test]
fn test_without_options() {
    let buffer = client_request_bytes();
    let from_bytes: &[u8] = buffer.as_slice();
    let packet = DhcpPacket::from_bytes(from_bytes).unwrap();

    assert_eq!(packet.hardware_type, HardwareAddressType::Ethernet);
    assert_eq!(packet.hops, 0);
    assert_eq!(packet.transaction_id, 0x0003d1d);
    assert_eq!(packet.seconds, 0);
    assert_eq!(packet.flags, Flags::Unicast);
    assert_eq!(packet.client, Ipv4Address::new(0, 0, 0, 0));
    assert_eq!(packet.your, Ipv4Address::new(0, 0, 0, 0));
    assert_eq!(packet.server, Ipv4Address::new(0, 0, 0, 0));
    assert_eq!(packet.gateway, Ipv4Address::new(0, 0, 0, 0));
    assert_eq!(
        packet.client_hardware,
        MacAddress::from_bytes(vec![0x00, 0x0b, 0x82, 0x01, 0xfc, 0x42]).unwrap()
    );
    assert_eq!(packet.server_hostname, AsciiText::empty());
    assert_eq!(packet.filename, AsciiText::empty());
    assert_eq!(packet.cookie, Cookie::Dhcp);
    assert_eq!(packet.options.options().len(), 5);

    let to_bytes: Vec<u8> = packet.to_bytes();
    assert_eq!(to_bytes[..240], from_bytes[..240]);
}

#[test]
fn test_short_buffer_is_length_error() {
    assert_eq!(
        DhcpPacket::from_bytes(&[1, 1, 6, 0]).map(|_| ()),
        Err(DhcpError::InvalidPacketLength(4))
    );
}

#[test]
fn test_wrong_cookie_is_cookie_error() {
    let mut buffer = client_request_bytes();
    buffer[239] = 0x64;
    assert_eq!(
        DhcpPacket::from_bytes(buffer.as_slice()).map(|_| ()),
        Err(DhcpError::CookieParseError)
    );
}

#[test]
fn test_cookie_from_bytes() {
    assert_eq!(Cookie::from_bytes(0x63, 0x82, 0x53, 0x63), Ok(Cookie::Dhcp));
    assert_eq!(
        Cookie::from_bytes(0x63, 0x82, 0x53, 0x62),
        Err(DhcpError::CookieParseError)
    );
    assert_eq!(
        Cookie::from_bytes(1, 2, 3, 4),
        Err(DhcpError::CookieParseError)
    );
}

#[test]
fn test_header_field_errors() {
    let mut buffer = client_request_bytes();
    buffer[0] = 9;
    assert_eq!(
        DhcpPacket::from_bytes(buffer.as_slice()).map(|_| ()),
        Err(DhcpError::MessageOperationInvalid)
    );

    let mut buffer = client_request_bytes();
    buffer[1] = 2;
    assert_eq!(
        DhcpPacket::from_bytes(buffer.as_slice()).map(|_| ()),
        Err(DhcpError::HardwareAddressTypeParseError)
    );

    let mut buffer = client_request_bytes();
    buffer[10] = 1;
    assert_eq!(
        DhcpPacket::from_bytes(buffer.as_slice()).map(|_| ()),
        Err(DhcpError::InvalidFlag)
    );
}

#[test]
fn test_hardware_length_six_reads_six_octets() {
    let buffer = client_request_bytes();
    let packet = DhcpPacket::from_bytes(buffer.as_slice()).unwrap();
    assert_eq!(
        packet.client_hardware.as_bytes(),
        &[0x00, 0x0b, 0x82, 0x01, 0xfc, 0x42]
    );
    // serialization emits the 6 octets plus 10 zero bytes
    let bytes = packet.to_bytes();
    assert_eq!(&bytes[28..34], &[0x00, 0x0b, 0x82, 0x01, 0xfc, 0x42]);
    assert_eq!(&bytes[34..44], &[0u8; 10]);
}

#[test]
fn test_hardware_length_eight_reads_eight_octets() {
    let mut buffer = client_request_bytes();
    buffer[2] = 8;
    buffer[34] = 0xaa;
    buffer[35] = 0xbb;
    let packet = DhcpPacket::from_bytes(buffer.as_slice()).unwrap();
    assert_eq!(
        packet.client_hardware.as_bytes(),
        &[0x00, 0x0b, 0x82, 0x01, 0xfc, 0x42, 0xaa, 0xbb]
    );
    let bytes = packet.to_bytes();
    assert_eq!(&bytes[28..36], &[0x00, 0x0b, 0x82, 0x01, 0xfc, 0x42, 0xaa, 0xbb]);
    assert_eq!(&bytes[36..44], &[0u8; 8]);
}

#[test]
fn test_hardware_length_other_is_error() {
    let mut buffer = client_request_bytes();
    buffer[2] = 7;
    assert_eq!(
        DhcpPacket::from_bytes(buffer.as_slice()).map(|_| ()),
        Err(DhcpError::HardwareAddressParseError)
    );
}

#[test]
fn test_header_round_trip_240_bytes() {
    // a 240-byte buffer with no options re-encodes to the same 240 bytes
    let buffer = &client_request_bytes()[..240];
    let packet = DhcpPacket::from_bytes(buffer).unwrap();
    assert_eq!(packet.options.options().len(), 0);
    let bytes = packet.to_bytes();
    assert_eq!(bytes.as_slice(), buffer);
}

#[test]
fn test_hostname_field_round_trip() {
    let mut buffer = client_request_bytes();
    buffer[44] = b's';
    buffer[45] = b'r';
    buffer[46] = b'v';
    let packet = DhcpPacket::from_bytes(buffer.as_slice()).unwrap();
    assert_eq!(
        packet.server_hostname,
        AsciiText::from_ascii(vec![b's', b'r', b'v']).unwrap()
    );
    let bytes = packet.to_bytes();
    assert_eq!(bytes[..240], buffer[..240]);
}

#[test]
fn test_into_bytes_with_server_ips() {
    let packet = DhcpPacket::new(
        MessageOperation::BootReply,
        HardwareAddressType::Ethernet,
        0,
        0x11223344,
        0,
        Flags::Unicast,
        Ipv4Address::new(0, 0, 0, 0),
        Ipv4Address::new(192, 168, 0, 10),
        Ipv4Address::new(0, 0, 0, 0),
        Ipv4Address::new(0, 0, 0, 0),
        MacAddress::from_bytes(vec![0, 1, 2, 3, 4, 5]).unwrap(),
        AsciiText::empty(),
        AsciiText::empty(),
        DhcpOptions::from_options(vec![
            DhcpOption::MessageType(MessageType::Offer),
            DhcpOption::End,
        ]),
    );
    let ips = vec![Ipv4Address::new(10, 0, 0, 1), Ipv4Address::new(10, 0, 0, 2)];
    let copies = packet.into_bytes_with_server_ips(ips);
    assert_eq!(copies.len(), 2);
    assert_eq!(copies[0].0, Ipv4Address::new(10, 0, 0, 1));
    assert_eq!(&copies[0].1[20..24], &[10, 0, 0, 1]);
    assert_eq!(copies[1].0, Ipv4Address::new(10, 0, 0, 2));
    assert_eq!(&copies[1].1[20..24], &[10, 0, 0, 2]);
    // the copies differ only in the server field
    assert_eq!(copies[0].1[..20], copies[1].1[..20]);
    assert_eq!(copies[0].1[24..], copies[1].1[24..]);
}

#[test]
fn test_options_mut_on_packet() {
    let buffer = client_request_bytes();
    let mut packet = DhcpPacket::from_bytes(buffer.as_slice()).unwrap();
    packet
        .options_mut()
        .upsert(DhcpOption::MessageType(MessageType::Request));
    assert_eq!(
        packet.options().option(53),
        Some(&DhcpOption::MessageType(MessageType::Request))
    );
}
