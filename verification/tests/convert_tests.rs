use dhcp4::addr::{AsciiText, Ipv4Address};
use dhcp4::convert::{ascii_to_option_bytes, bool_to_option_bytes, i16_to_option_bytes,
    i32_to_option_bytes, ipv4_list_to_option_bytes, ipv4_to_option_bytes,
    pair_list_to_option_bytes, parse_ascii, parse_bool, parse_i32, parse_ipv4,
    parse_ipv4_list, parse_ipv4_pair_list, parse_message_type, parse_netbios_node_type,
    parse_overload, parse_relay_agent_sub_options, parse_u16, parse_u16_list, parse_u32,
    parse_u8, parse_vec_u8, relay_agent_list_to_option_bytes, u16_list_to_option_bytes,
    u16_to_option_bytes, u32_to_option_bytes, u8_to_option_bytes, vec_u8_to_option_bytes,
    MESSAGE_TYPE_DECLINE, NODE_TYPE_M, OVERLOAD_SNAME, RELAY_AGENT_CIRCUIT, RELAY_AGENT_REMOTE};
use dhcp4::error::DhcpError;
use dhcp4::option::{MessageType, NetBiosNodeType, Overload, RelayAgentInformationSubOption};

#[test]
fn test_parse_ipv4() {
    let bytes: &[u8] = &[1, 2, 3, 4];
    let ip = Ipv4Address::new(1, 2, 3, 4);
    let parsed_ip: Ipv4Address = parse_ipv4(bytes, 0).unwrap();
    assert_eq!(ip, parsed_ip);
}

#[test]
fn test_parse_ipv4_vec() {
    let bytes: &[u8] = &[1, 2, 3, 4, 5, 5, 5, 5];
    let ips = vec![Ipv4Address::new(1, 2, 3, 4), Ipv4Address::new(5, 5, 5, 5)];
    let parsed_ip: Vec<Ipv4Address> = parse_ipv4_list(bytes, 0).unwrap();
    assert_eq!(ips, parsed_ip);
}

#[test]
fn test_parse_u8() {
    let bytes: &[u8] = &[111];
    let result: u8 = parse_u8(bytes, 0).unwrap();
    assert_eq!(111 as u8, result);
}

#[test]
fn test_parse_u16() {
    let bytes: &[u8] = &[111, 222];
    let result: u16 = parse_u16(bytes, 0).unwrap();
    assert_eq!(28638 as u16, result);
}

#[test]
fn test_parse_u32() {
    let bytes: &[u8] = &[111, 222, 111, 222];
    let result: u32 = parse_u32(bytes, 0).unwrap();
    assert_eq!(1876848606 as u32, result);
}

#[test]
fn test_parse_i32() {
    let bytes: &[u8] = &[1, 2, 3, 4];
    let result: i32 = parse_i32(bytes, 0).unwrap();
    assert_eq!(16909060 as i32, result);
}

#[test]
fn test_parse_ascii_string() {
    let bytes: &[u8] = &['D' as u8, 'h' as u8, 'c' as u8, 'p' as u8];
    let result: AsciiText = parse_ascii(bytes, 0).unwrap();
    assert_eq!(
        AsciiText::from_ascii(vec!['D' as u8, 'h' as u8, 'c' as u8, 'p' as u8]).unwrap(),
        result
    );
}

#[test]
fn test_parse_bool() {
    let bytes: &[u8] = &[0];
    let result: bool = parse_bool(bytes, 0).unwrap();
    assert_eq!(false, result);
}

#[test]
fn test_parse_ipv4_tuple_vec() {
    let bytes: &[u8] = &[1, 2, 3, 4, 5, 6, 7, 8];
    let result: Vec<(Ipv4Address, Ipv4Address)> = parse_ipv4_pair_list(bytes, 0).unwrap();
    assert_eq!(
        vec![(Ipv4Address::new(1, 2, 3, 4), Ipv4Address::new(5, 6, 7, 8))],
        result
    );
}

#[test]
fn test_parse_u8_vec() {
    let bytes: &[u8] = &[1, 100, 200];
    let result: Vec<u8> = parse_vec_u8(bytes, 0).unwrap();
    assert_eq!(vec![1, 100, 200], result);
}

#[test]
fn test_parse_u16_vec() {
    let bytes: &[u8] = &[10, 100, 200, 10];
    let result: Vec<u16> = parse_u16_list(bytes, 0).unwrap();
    assert_eq!(vec![2660, 51210], result);
}

#[test]
fn test_parse_netbios_node_type() {
    let bytes: &[u8] = &[2];
    let result: NetBiosNodeType = parse_netbios_node_type(bytes, 0).unwrap();
    assert_eq!(NetBiosNodeType::P, result);
}

#[test]
fn test_parse_overload() {
    let bytes: &[u8] = &[3];
    let result: Overload = parse_overload(bytes, 0).unwrap();
    assert_eq!(Overload::Both, result);
}

#[test]
fn test_parse_message_type() {
    let bytes: &[u8] = &[5];
    let result: MessageType = parse_message_type(bytes, 0).unwrap();
    assert_eq!(MessageType::Ack, result);
}

#[test]
fn test_parse_relay_agent_information_sub_option() {
    let bytes: &[u8] = &[RELAY_AGENT_REMOTE, 3, 1, 2, 3, RELAY_AGENT_CIRCUIT, 1, 1];
    let result: Vec<RelayAgentInformationSubOption> =
        parse_relay_agent_sub_options(bytes, 0).unwrap();
    assert_eq!(
        vec![
            RelayAgentInformationSubOption::AgentRemote(vec![1, 2, 3]),
            RelayAgentInformationSubOption::AgentCircuit(vec![1]),
        ],
        result
    );
}

#[test]
fn test_into_bytes_ipv4() {
    let bytes: &[u8] = &[0 as u8, 4, 1, 2, 3, 4];
    assert_eq!(bytes, ipv4_to_option_bytes(Ipv4Address::new(1, 2, 3, 4), 0).as_slice())
}

#[test]
fn test_into_bytes_ipv4_vec() {
    let bytes: &[u8] = &[0 as u8, 8, 1, 2, 3, 4, 5, 5, 5, 5];
    let ips = vec![Ipv4Address::new(1, 2, 3, 4), Ipv4Address::new(5, 5, 5, 5)];
    assert_eq!(bytes, ipv4_list_to_option_bytes(&ips, 0).as_slice())
}

#[test]
fn test_into_bytes_u16() {
    let bytes: &[u8] = &[0 as u8, 2, 1, 0];
    assert_eq!(bytes, u16_to_option_bytes(256 as u16, 0).as_slice());
}

#[test]
fn test_into_bytes_u32() {
    let bytes: &[u8] = &[0 as u8, 4, 255, 255, 255, 255];
    assert_eq!(bytes, u32_to_option_bytes(u32::MAX, 0).as_slice());
}

#[test]
fn test_into_bytes_i16() {
    let bytes: &[u8] = &[0 as u8, 2, 127, 255];
    assert_eq!(bytes, i16_to_option_bytes(i16::MAX, 0).as_slice())
}

#[test]
fn test_into_bytes_i32() {
    let bytes: &[u8] = &[0 as u8, 4, 127, 255, 255, 255];
    assert_eq!(bytes, i32_to_option_bytes(i32::MAX, 0).as_slice())
}

#[test]
fn test_into_bytes_ascii_string() {
    let bytes: &[u8] = &[0 as u8, 2, 65, 122];
    let text = AsciiText::from_ascii(vec![65, 122]).unwrap();
    assert_eq!(bytes, ascii_to_option_bytes(&text, 0).as_slice())
}

#[test]
fn test_into_bytes_bool() {
    let bytes: &[u8] = &[0 as u8, 1, 0];
    assert_eq!(bytes, bool_to_option_bytes(false, 0).as_slice())
}

#[test]
fn test_into_bytes_ipv4_tuple_vec() {
    let bytes: &[u8] = &[0 as u8, 16, 1, 1, 2, 2, 3, 3, 4, 4, 5, 5, 6, 6, 7, 7, 8, 8];
    let pairs = vec![
        (Ipv4Address::new(1, 1, 2, 2), Ipv4Address::new(3, 3, 4, 4)),
        (Ipv4Address::new(5, 5, 6, 6), Ipv4Address::new(7, 7, 8, 8)),
    ];
    assert_eq!(bytes, pair_list_to_option_bytes(&pairs, 0).as_slice());
}

#[test]
fn test_into_bytes_u8() {
    let bytes: &[u8] = &[0 as u8, 1, 5];
    assert_eq!(bytes, u8_to_option_bytes(5 as u8, 0).as_slice());
}

#[test]
fn test_into_bytes_u16_vec() {
    let bytes: &[u8] = &[0 as u8, 2, 4, 87];
    assert_eq!(bytes, u16_to_option_bytes(1111 as u16, 0).as_slice());
}

#[test]
fn test_into_bytes_u8_vec() {
    let bytes: &[u8] = &[0 as u8, 3, 0, 2, 3];
    assert_eq!(bytes, vec_u8_to_option_bytes(&vec![0 as u8, 2, 3], 0).as_slice())
}

#[test]
fn test_into_bytes_netbios_node_type() {
    let bytes: &[u8] = &[0 as u8, 1, NODE_TYPE_M];
    assert_eq!(bytes, u8_to_option_bytes(NODE_TYPE_M, 0).as_slice())
}

#[test]
fn test_into_bytes_overload() {
    let bytes: &[u8] = &[0 as u8, 1, OVERLOAD_SNAME];
    assert_eq!(bytes, u8_to_option_bytes(OVERLOAD_SNAME, 0).as_slice())
}

#[test]
fn test_into_bytes_message_type() {
    let bytes: &[u8] = &[0 as u8, 1, MESSAGE_TYPE_DECLINE];
    assert_eq!(bytes, u8_to_option_bytes(MESSAGE_TYPE_DECLINE, 0).as_slice())
}

#[test]
fn test_into_bytes_relay_agent_information_vec() {
    let bytes: &[u8] = &[0 as u8, 8, 1, 1, 1, 2, 3, 5, 6, 7];
    let data = vec![
        RelayAgentInformationSubOption::AgentCircuit(vec![1 as u8]),
        RelayAgentInformationSubOption::AgentRemote(vec![5, 6, 7]),
    ];
    assert_eq!(bytes, relay_agent_list_to_option_bytes(&data, 0).as_slice())
}

#[test]
fn test_parse_list_length_not_multiple_of_four() {
    assert_eq!(
        parse_ipv4_list(&[1, 2, 3], 7),
        Err(DhcpError::OptionParseError(7))
    );
    assert_eq!(
        parse_ipv4_list(&[1, 2, 3, 4, 5], 3),
        Err(DhcpError::OptionParseError(3))
    );
}

#[test]
fn test_parse_pair_list_length_not_multiple_of_eight() {
    assert_eq!(
        parse_ipv4_pair_list(&[1, 2, 3, 4, 5, 6, 7, 8, 9], 21),
        Err(DhcpError::OptionParseError(21))
    );
}

#[test]
fn test_parse_u16_list_length_not_multiple_of_two() {
    assert_eq!(
        parse_u16_list(&[1, 2, 3], 25),
        Err(DhcpError::OptionParseError(25))
    );
}

#[test]
fn test_parse_bool_rejects_other_values() {
    assert_eq!(parse_bool(&[2], 19), Err(DhcpError::OptionParseError(19)));
    assert_eq!(parse_bool(&[], 19), Err(DhcpError::OptionParseError(19)));
}

#[test]
fn test_parse_ascii_rejects_non_ascii() {
    assert_eq!(
        parse_ascii(&[65, 200, 66], 12),
        Err(DhcpError::OptionParseError(12))
    );
}

#[test]
fn test_parse_relay_agent_truncated_sub_option() {
    assert_eq!(
        parse_relay_agent_sub_options(&[RELAY_AGENT_CIRCUIT, 5, 1, 2], 82),
        Err(DhcpError::OptionParseError(82))
    );
    assert_eq!(
        parse_relay_agent_sub_options(&[], 82),
        Err(DhcpError::OptionParseError(82))
    );
}

#[test]
fn test_i16_negative_two_complement() {
    let bytes: &[u8] = &[0 as u8, 2, 255, 255];
    assert_eq!(bytes, i16_to_option_bytes(-1 as i16, 0).as_slice());
}

#[test]
fn test_i32_negative_round_trip() {
    let encoded = i32_to_option_bytes(-123456, 77);
    assert_eq!(encoded[0], 77);
    assert_eq!(encoded[1], 4);
    let decoded = parse_i32(&encoded[2..], 77).unwrap();
    assert_eq!(decoded, -123456);
}

#[test]
fn test_u16_list_round_trip() {
    let values = vec![0u16, 1, 255, 256, 65535];
    let encoded = u16_list_to_option_bytes(&values, 25);
    assert_eq!(encoded[1], 10);
    let decoded = parse_u16_list(&encoded[2..], 25).unwrap();
    assert_eq!(decoded, values);
}
