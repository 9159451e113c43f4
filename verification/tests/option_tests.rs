use dhcp4::addr::{AsciiText, Ipv4Address};
use dhcp4::error::DhcpError;
use dhcp4::option::{ClientIdentifier, DhcpOption, DhcpOptions, Ipv4WithMask, MessageType,
    RelayAgentInformationSubOption, StaticRoute, HOST_NAME,
    MAXIMUM_DATAGRAM_REASSEMBLY_SIZE, MAXIMUM_DHCP_MESSAGE_SIZE, MESSAGE_TYPE, POLICY_FILTER,
    ROUTER, STATIC_ROUTE, SUBNET_MASK, TCP_DEFAULT_TTL, TIME_OFFSET};

fn round_trip(option: DhcpOption) {
    let bytes = option.to_bytes();
    assert_eq!(bytes[0], option.tag());
    assert_eq!(bytes[1] as usize, bytes.len() - 2);
    let decoded = DhcpOption::from_bytes(bytes[0], bytes[1] as usize, &bytes[2..]).unwrap();
    assert_eq!(decoded, option);
}

#[test]
fn test_option_round_trips() {
    round_trip(DhcpOption::SubnetMask(Ipv4Address::new(255, 255, 255, 0)));
    round_trip(DhcpOption::TimeOffset(-3600));
    round_trip(DhcpOption::Router(vec![
        Ipv4Address::new(192, 168, 0, 1),
        Ipv4Address::new(10, 0, 0, 1),
    ]));
    round_trip(DhcpOption::HostName(
        AsciiText::from_ascii(vec![b'h', b'o', b's', b't']).unwrap(),
    ));
    round_trip(DhcpOption::IpForwarding(true));
    round_trip(DhcpOption::PolicyFilter(vec![Ipv4WithMask {
        ipv4addr: Ipv4Address::new(10, 0, 0, 0),
        mask: Ipv4Address::new(255, 0, 0, 0),
    }]));
    round_trip(DhcpOption::StaticRoute(vec![StaticRoute {
        destination: Ipv4Address::new(10, 1, 2, 0),
        router: Ipv4Address::new(10, 1, 2, 1),
    }]));
    round_trip(DhcpOption::MaximumDatagramReassemblySize(600));
    round_trip(DhcpOption::PathMtuPlateauTable(vec![68, 296, 1492]));
    round_trip(DhcpOption::TcpDefaultTTL(64));
    round_trip(DhcpOption::IpAddressLeaseTime(86400));
    round_trip(DhcpOption::MessageType(MessageType::Offer));
    round_trip(DhcpOption::ParameterRequestList(vec![1, 3, 6, 42]));
    round_trip(DhcpOption::ClientIdentifier(ClientIdentifier::new(
        1,
        vec![0, 11, 130, 1, 252, 66],
    )));
    round_trip(DhcpOption::RelayAgentInformation(vec![
        RelayAgentInformationSubOption::AgentCircuit(vec![9, 9]),
        RelayAgentInformationSubOption::AgentRemote(vec![7]),
        RelayAgentInformationSubOption::Unknown(vec![1, 2, 3]),
    ]));
    round_trip(DhcpOption::Unknown(200, vec![1, 2, 3]));
}

#[test]
fn test_maximum_sizes_below_576_are_value_errors() {
    assert_eq!(
        DhcpOption::from_bytes(MAXIMUM_DHCP_MESSAGE_SIZE, 2, &[2, 63]),
        Err(DhcpError::OptionInvalidValueError(MAXIMUM_DHCP_MESSAGE_SIZE))
    );
    assert_eq!(
        DhcpOption::from_bytes(MAXIMUM_DATAGRAM_REASSEMBLY_SIZE, 2, &[2, 63]),
        Err(DhcpError::OptionInvalidValueError(MAXIMUM_DATAGRAM_REASSEMBLY_SIZE))
    );
    assert_eq!(
        DhcpOption::from_bytes(MAXIMUM_DHCP_MESSAGE_SIZE, 2, &[2, 64]).unwrap(),
        DhcpOption::MaximumDhcpMessageSize(576)
    );
    assert_eq!(
        DhcpOption::from_bytes(MAXIMUM_DATAGRAM_REASSEMBLY_SIZE, 2, &[2, 64]).unwrap(),
        DhcpOption::MaximumDatagramReassemblySize(576)
    );
}

#[test]
fn test_tcp_default_ttl_zero_is_value_error() {
    assert_eq!(
        DhcpOption::from_bytes(TCP_DEFAULT_TTL, 1, &[0]),
        Err(DhcpError::OptionInvalidValueError(TCP_DEFAULT_TTL))
    );
}

#[test]
fn test_option_decode_too_short_is_parse_error() {
    assert_eq!(
        DhcpOption::from_bytes(SUBNET_MASK, 2, &[255, 255]),
        Err(DhcpError::OptionParseError(SUBNET_MASK))
    );
    assert_eq!(
        DhcpOption::from_bytes(TIME_OFFSET, 2, &[0, 1]),
        Err(DhcpError::OptionParseError(TIME_OFFSET))
    );
    assert_eq!(
        DhcpOption::from_bytes(HOST_NAME, 0, &[]),
        Err(DhcpError::OptionParseError(HOST_NAME))
    );
    assert_eq!(
        DhcpOption::from_bytes(ROUTER, 5, &[1, 2, 3, 4, 5]),
        Err(DhcpError::OptionParseError(ROUTER))
    );
    assert_eq!(
        DhcpOption::from_bytes(POLICY_FILTER, 4, &[1, 2, 3, 4]),
        Err(DhcpError::OptionParseError(POLICY_FILTER))
    );
    assert_eq!(
        DhcpOption::from_bytes(STATIC_ROUTE, 9, &[1, 2, 3, 4, 5, 6, 7, 8, 9]),
        Err(DhcpError::OptionParseError(STATIC_ROUTE))
    );
}

#[test]
fn test_unknown_tag_falls_back_to_raw_bytes() {
    let decoded = DhcpOption::from_bytes(200, 3, &[9, 8, 7]).unwrap();
    assert_eq!(decoded, DhcpOption::Unknown(200, vec![9, 8, 7]));
    assert_eq!(decoded.tag(), 200);
}

#[test]
fn test_options_serialize_in_ascending_tag_order() {
    let options = DhcpOptions::from_options(vec![
        DhcpOption::MessageType(MessageType::Discover),
        DhcpOption::SubnetMask(Ipv4Address::new(255, 255, 0, 0)),
        DhcpOption::End,
    ]);
    let bytes = options.to_bytes();
    assert_eq!(bytes, vec![1, 4, 255, 255, 0, 0, 53, 1, 1, 255]);
}

#[test]
fn test_options_upsert_overwrites_by_tag() {
    let mut options = DhcpOptions::new();
    options.upsert(DhcpOption::MessageType(MessageType::Discover));
    options.upsert(DhcpOption::MessageType(MessageType::Request));
    assert_eq!(
        options.option(MESSAGE_TYPE),
        Some(&DhcpOption::MessageType(MessageType::Request))
    );
    assert_eq!(options.options().len(), 1);
    options.remove(MESSAGE_TYPE);
    assert_eq!(options.option(MESSAGE_TYPE), None);
    assert_eq!(options.options().len(), 0);
}

#[test]
fn test_options_merge_overwrites_present_slots() {
    let mut base = DhcpOptions::from_options(vec![
        DhcpOption::MessageType(MessageType::Discover),
        DhcpOption::IpAddressLeaseTime(60),
    ]);
    let other = DhcpOptions::from_options(vec![DhcpOption::MessageType(MessageType::Offer)]);
    base.merge(other);
    assert_eq!(
        base.option(MESSAGE_TYPE),
        Some(&DhcpOption::MessageType(MessageType::Offer))
    );
    assert_eq!(base.try_u32_option(51), Ok(60));
}

#[test]
fn test_options_stream_parse_skips_pad_and_stops_at_end() {
    // pad, subnet mask, end, then trailing garbage that End cuts off
    let bytes: &[u8] = &[0, 0, 1, 4, 255, 255, 255, 0, 255, 99];
    let options = DhcpOptions::from_bytes(bytes).unwrap();
    assert_eq!(
        options.option(SUBNET_MASK),
        Some(&DhcpOption::SubnetMask(Ipv4Address::new(255, 255, 255, 0)))
    );
    assert_eq!(options.option(255), Some(&DhcpOption::End));
    assert_eq!(options.options().len(), 2);
}

#[test]
fn test_options_stream_parse_empty_input() {
    let options = DhcpOptions::from_bytes(&[]).unwrap();
    assert_eq!(options.options().len(), 0);
}

#[test]
fn test_options_stream_parse_truncated_unit() {
    assert_eq!(
        DhcpOptions::from_bytes(&[1, 4, 255, 255]).map(|_| ()),
        Err(DhcpError::OptionParseError(1))
    );
    assert_eq!(
        DhcpOptions::from_bytes(&[1]).map(|_| ()),
        Err(DhcpError::OptionParseError(1))
    );
}

#[test]
fn test_try_accessors() {
    let options = DhcpOptions::from_options(vec![
        DhcpOption::MessageType(MessageType::Ack),
        DhcpOption::SubnetMask(Ipv4Address::new(255, 0, 0, 0)),
        DhcpOption::IpForwarding(true),
        DhcpOption::TimeOffset(-60),
        DhcpOption::DefaultIpTTL(32),
        DhcpOption::InterfaceMtu(1500),
        DhcpOption::ParameterRequestList(vec![1, 3]),
        DhcpOption::Router(vec![Ipv4Address::new(10, 0, 0, 1)]),
        DhcpOption::HostName(AsciiText::from_ascii(vec![b'a']).unwrap()),
    ]);
    assert_eq!(options.try_ipv4_option(1), Ok(Ipv4Address::new(255, 0, 0, 0)));
    assert_eq!(options.try_to_bool(19), Ok(true));
    assert_eq!(options.try_to_i32(2), Ok(-60));
    assert_eq!(options.try_u8_option(23), Ok(32));
    assert_eq!(options.try_u16_option(26), Ok(1500));
    assert_eq!(options.try_vec_u8_option(55), Ok(vec![1, 3]));
    assert_eq!(
        options.try_ipv4vec_option(3),
        Ok(vec![Ipv4Address::new(10, 0, 0, 1)])
    );
    assert_eq!(
        options.try_ascii_option(12),
        Ok(AsciiText::from_ascii(vec![b'a']).unwrap())
    );
    // absent slot
    assert_eq!(options.try_u32_option(51), Err(DhcpError::OptionNotExist(51)));
    // wrong kind for the accessor
    assert_eq!(options.try_u8_option(1), Err(DhcpError::ConversionError(1)));
}

#[test]
fn test_option_mut_updates_in_place() {
    let mut options = DhcpOptions::from_options(vec![DhcpOption::MessageType(
        MessageType::Discover,
    )]);
    match options.option_mut(MESSAGE_TYPE) {
        Some(o) => *o = DhcpOption::MessageType(MessageType::Offer),
        None => panic!("slot must be occupied"),
    }
    assert_eq!(
        options.option(MESSAGE_TYPE),
        Some(&DhcpOption::MessageType(MessageType::Offer))
    );
    assert!(options.option_mut(0).is_none());
}
