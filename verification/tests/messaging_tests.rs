use dhcp4::addr::{Ipv4Address, MacAddress};
use dhcp4::dhcp::{DhcpPacket, Flags, MessageOperation};
use dhcp4::error::DhcpError;
use dhcp4::messaging::DhcpMessaging;
use dhcp4::option::{DhcpOption, DhcpOptions, MessageType, IP_ADDRESS_LEASE_TIME, MESSAGE_TYPE,
    REQUESTED_IP_ADDRESS, SERVER_IDENTIFIER};

#[test]
fn test() {
    let client_mac = MacAddress::from_bytes(vec![0, 1, 2, 3, 4, 5]).unwrap();
    let client_ip = Ipv4Address::new(1, 2, 3, 4);
    let server_ip = Ipv4Address::new(5, 6, 7, 8);

    let discover = DhcpMessaging::discover(
        client_mac.clone(),
        None,
        None,
        None,
        None,
        None,
        None,
        DhcpOptions::new(),
    );

    let offer = discover.into_offer(7200, client_ip, server_ip, None, None, DhcpOptions::new());
    let _request = offer.into_request(
        client_mac,
        2,
        Some(client_ip),
        false,
        None,
        None,
        None,
        None,
        None,
        None,
        None,
        DhcpOptions::new(),
    );
}

#[test]
fn test_discover_offer_request_exchange() {
    let client_mac = MacAddress::from_bytes(vec![0, 1, 2, 3, 4, 5]).unwrap();
    let client_ip = Ipv4Address::new(192, 168, 0, 10);
    let server_ip = Ipv4Address::new(192, 168, 0, 1);
    let unspecified = Ipv4Address::new(0, 0, 0, 0);

    let discover = DhcpMessaging::discover(
        client_mac.clone(),
        None,
        None,
        None,
        None,
        None,
        None,
        DhcpOptions::new(),
    );
    assert_eq!(
        discover.packet().option(MESSAGE_TYPE),
        Some(&DhcpOption::MessageType(MessageType::Discover))
    );
    assert_eq!(discover.packet().flags, Flags::Broadcast);
    assert_eq!(discover.packet().client, unspecified);
    assert_eq!(discover.packet().your, unspecified);
    assert_eq!(discover.packet().server, unspecified);
    assert_eq!(discover.packet().gateway, unspecified);

    let offer = discover.into_offer(7200, client_ip, server_ip, None, None, DhcpOptions::new());
    assert_eq!(
        offer.packet().option(MESSAGE_TYPE),
        Some(&DhcpOption::MessageType(MessageType::Offer))
    );
    assert_eq!(
        offer.packet().option(SERVER_IDENTIFIER),
        Some(&DhcpOption::ServerIdentifier(server_ip))
    );
    assert_eq!(
        offer.packet().option(IP_ADDRESS_LEASE_TIME),
        Some(&DhcpOption::IpAddressLeaseTime(7200))
    );
    assert_eq!(offer.packet().option(REQUESTED_IP_ADDRESS), None);

    let request = offer.into_request(
        client_mac,
        2,
        Some(client_ip),
        false,
        None,
        None,
        None,
        None,
        None,
        None,
        None,
        DhcpOptions::new(),
    );
    assert_eq!(request.packet().operation, MessageOperation::BootRequest);
    assert_eq!(
        request.packet().option(MESSAGE_TYPE),
        Some(&DhcpOption::MessageType(MessageType::Request))
    );
}

#[test]
fn test_request_to_ack_and_nak() {
    let client_mac = MacAddress::from_bytes(vec![0, 1, 2, 3, 4, 5]).unwrap();
    let client_ip = Ipv4Address::new(192, 168, 0, 10);
    let server_ip = Ipv4Address::new(192, 168, 0, 1);

    let build_request = || {
        let discover = DhcpMessaging::discover(
            client_mac.clone(),
            Some(client_ip),
            None,
            None,
            None,
            None,
            None,
            DhcpOptions::new(),
        );
        let offer =
            discover.into_offer(7200, client_ip, server_ip, None, None, DhcpOptions::new());
        offer.into_request(
            client_mac.clone(),
            0,
            Some(client_ip),
            false,
            Some(client_ip),
            None,
            None,
            None,
            Some(server_ip),
            None,
            None,
            DhcpOptions::new(),
        )
    };

    let ack = build_request().into_ack(
        3600,
        client_ip,
        server_ip,
        None,
        None,
        None,
        None,
        DhcpOptions::new(),
    );
    assert_eq!(ack.packet().operation, MessageOperation::BootReply);
    assert_eq!(
        ack.packet().option(MESSAGE_TYPE),
        Some(&DhcpOption::MessageType(MessageType::Ack))
    );
    assert_eq!(
        ack.packet().option(IP_ADDRESS_LEASE_TIME),
        Some(&DhcpOption::IpAddressLeaseTime(3600))
    );
    assert_eq!(ack.packet().option(REQUESTED_IP_ADDRESS), None);

    let nak = build_request().into_nak(server_ip, None, None, None);
    assert_eq!(nak.packet().operation, MessageOperation::BootReply);
    assert_eq!(
        nak.packet().option(MESSAGE_TYPE),
        Some(&DhcpOption::MessageType(MessageType::Nak))
    );
    assert_eq!(nak.packet().your, Ipv4Address::new(0, 0, 0, 0));
    assert_eq!(nak.packet().server, Ipv4Address::new(0, 0, 0, 0));
    assert_eq!(nak.packet().option(IP_ADDRESS_LEASE_TIME), None);
}

#[test]
fn test_inform_to_ack() {
    let client_mac = MacAddress::from_bytes(vec![0, 1, 2, 3, 4, 5]).unwrap();
    let client_ip = Ipv4Address::new(192, 168, 0, 10);
    let server_ip = Ipv4Address::new(192, 168, 0, 1);

    let inform = DhcpMessaging::inform(
        client_mac,
        client_ip,
        None,
        None,
        Some(vec![1, 3, 6]),
        None,
        false,
        DhcpOptions::new(),
    );
    assert_eq!(
        inform.packet().option(MESSAGE_TYPE),
        Some(&DhcpOption::MessageType(MessageType::Inform))
    );
    assert_eq!(inform.packet().flags, Flags::Unicast);

    let ack = inform.into_ack(
        client_ip,
        server_ip,
        None,
        None,
        None,
        None,
        DhcpOptions::new(),
    );
    assert_eq!(
        ack.packet().option(MESSAGE_TYPE),
        Some(&DhcpOption::MessageType(MessageType::Ack))
    );
    assert_eq!(
        ack.packet().option(SERVER_IDENTIFIER),
        Some(&DhcpOption::ServerIdentifier(server_ip))
    );
    assert_eq!(ack.packet().option(IP_ADDRESS_LEASE_TIME), None);
}

#[test]
fn test_decline_and_release() {
    let client_mac = MacAddress::from_bytes(vec![0, 1, 2, 3, 4, 5]).unwrap();
    let client_ip = Ipv4Address::new(192, 168, 0, 10);

    let decline = DhcpMessaging::decline(client_mac.clone());
    assert_eq!(decline.packet().operation, MessageOperation::BootRequest);
    assert_eq!(
        decline.packet().option(MESSAGE_TYPE),
        Some(&DhcpOption::MessageType(MessageType::Decline))
    );

    let release = DhcpMessaging::release(client_mac, client_ip);
    assert_eq!(release.packet().operation, MessageOperation::BootRequest);
    assert_eq!(release.packet().client, client_ip);
    assert_eq!(
        release.packet().option(MESSAGE_TYPE),
        Some(&DhcpOption::MessageType(MessageType::Release))
    );
}

#[test]
fn test_classification_by_message_type() {
    let client_mac = MacAddress::from_bytes(vec![0, 1, 2, 3, 4, 5]).unwrap();
    let discover = DhcpMessaging::discover(
        client_mac,
        None,
        None,
        None,
        None,
        None,
        None,
        DhcpOptions::new(),
    );
    let bytes = DhcpMessaging::Discover(discover).to_bytes();
    let classified = DhcpMessaging::from_bytes(bytes.as_slice()).unwrap();
    assert!(matches!(classified, DhcpMessaging::Discover(_)));
    assert_eq!(
        classified.packet().option(MESSAGE_TYPE),
        Some(&DhcpOption::MessageType(MessageType::Discover))
    );
}

#[test]
fn test_classification_without_message_type_fails() {
    let buffer = {
        let mut b: Vec<u8> = Vec::new();
        b.extend_from_slice(&[1, 1, 6, 0]);
        b.extend_from_slice(&[0, 0, 0, 1]);
        b.extend_from_slice(&[0, 0, 0, 0]);
        b.extend_from_slice(&[0; 16]);
        b.extend_from_slice(&[0; 16]);
        b.extend_from_slice(&[0; 64]);
        b.extend_from_slice(&[0; 128]);
        b.extend_from_slice(&[0x63, 0x82, 0x53, 0x63]);
        b.push(255);
        b
    };
    assert!(DhcpPacket::from_bytes(buffer.as_slice()).is_ok());
    let classified = DhcpMessaging::from_bytes(buffer.as_slice()).map(|_| ());
    assert_eq!(classified, Err(DhcpError::DhcpMessagePacketError));
}
