use vstd::prelude::*;

use crate::addr::{ascii_wf, AsciiText, Ipv4Address};
use crate::error::{DhcpError, DhcpResult};
use crate::option::{relay_views, Ipv4WithMask, MessageType, NetBiosNodeType, Overload,
    RelayAgentInformationSubOption, SpecRelaySubOption, StaticRoute};
use vstd::arithmetic::div_mod::{lemma_div_denominator, lemma_fundamental_div_mod,
    lemma_fundamental_div_mod_converse};
use vstd::slice::{slice_subrange, slice_to_vec};

verus! {

pub const MESSAGE_TYPE_DISCOVER: u8 = 1;
pub const MESSAGE_TYPE_OFFER: u8 = 2;
pub const MESSAGE_TYPE_REQUEST: u8 = 3;
pub const MESSAGE_TYPE_DECLINE: u8 = 4;
pub const MESSAGE_TYPE_PACK: u8 = 5;
pub const MESSAGE_TYPE_NAK: u8 = 6;
pub const MESSAGE_TYPE_RELEASE: u8 = 7;
pub const MESSAGE_TYPE_INFORM: u8 = 8;

pub const NODE_TYPE_B: u8 = 1;
pub const NODE_TYPE_P: u8 = 2;
pub const NODE_TYPE_M: u8 = 4;
pub const NODE_TYPE_H: u8 = 8;

pub const RELAY_AGENT_CIRCUIT: u8 = 1;
pub const RELAY_AGENT_REMOTE: u8 = 2;

pub const OVERLOAD_FILE: u8 = 1;
pub const OVERLOAD_SNAME: u8 = 2;
pub const OVERLOAD_BOTH: u8 = 3;

// ---------------------------------------------------------------------------
// Big-endian integers
// ---------------------------------------------------------------------------

/// The value of two bytes read big-endian.
pub open spec fn be16(hi: u8, lo: u8) -> u16 {
    (hi * 256 + lo) as u16
}

pub open spec fn u16_hi(v: u16) -> u8 {
    (v / 256) as u8
}

pub open spec fn u16_lo(v: u16) -> u8 {
    (v % 256) as u8
}

/// The two bytes of a 16-bit value, big-endian.
pub open spec fn u16_payload(v: u16) -> Seq<u8> {
    seq![u16_hi(v), u16_lo(v)]
}

/// The value of four bytes read big-endian.
pub open spec fn be32(b0: u8, b1: u8, b2: u8, b3: u8) -> u32 {
    (b0 * 0x1000000 + b1 * 0x10000 + b2 * 0x100 + b3) as u32
}

/// The four bytes of a 32-bit value, big-endian.
pub open spec fn u32_payload(v: u32) -> Seq<u8> {
    seq![
        (v / 0x1000000) as u8,
        ((v / 0x10000) % 256) as u8,
        ((v / 0x100) % 256) as u8,
        (v % 256) as u8,
    ]
}

/// The signed reading of a 32-bit big-endian value (two's complement).
pub open spec fn i32_from_u32(v: u32) -> i32 {
    if v < 0x80000000 {
        v as i32
    } else {
        (v - 0x100000000) as i32
    }
}

/// The 32-bit two's complement pattern of a signed value.
pub open spec fn u32_from_i32(v: i32) -> u32 {
    if v >= 0 {
        v as u32
    } else {
        (v + 0x100000000) as u32
    }
}

/// The 16-bit two's complement pattern of a signed value.
pub open spec fn u16_from_i16(v: i16) -> u16 {
    if v >= 0 {
        v as u16
    } else {
        (v + 0x10000) as u16
    }
}

// ---------------------------------------------------------------------------
// IPv4 addresses and lists
// ---------------------------------------------------------------------------

/// The address held at offset `i` of the byte sequence.
pub open spec fn ipv4_at(d: Seq<u8>, i: int) -> Ipv4Address {
    Ipv4Address { o0: d[i], o1: d[i + 1], o2: d[i + 2], o3: d[i + 3] }
}

/// The four octets of an address.
pub open spec fn ipv4_payload(ip: Ipv4Address) -> Seq<u8> {
    seq![ip.o0, ip.o1, ip.o2, ip.o3]
}

pub open spec fn ipv4_octet(ip: Ipv4Address, k: int) -> u8 {
    if k == 0 {
        ip.o0
    } else if k == 1 {
        ip.o1
    } else if k == 2 {
        ip.o2
    } else {
        ip.o3
    }
}

/// Every 4-byte chunk as one address, in order.
pub open spec fn parse_ipv4s(d: Seq<u8>) -> Seq<Ipv4Address> {
    Seq::new(d.len() / 4, |i: int| ipv4_at(d, 4 * i))
}

/// The octets of the addresses, concatenated in order.
pub open spec fn ipv4s_payload(l: Seq<Ipv4Address>) -> Seq<u8> {
    Seq::new(4 * l.len(), |j: int| ipv4_octet(l[j / 4], j % 4))
}

// ---------------------------------------------------------------------------
// 16-bit lists
// ---------------------------------------------------------------------------

/// Every 2-byte chunk as one big-endian value, in order.
pub open spec fn parse_u16s(d: Seq<u8>) -> Seq<u16> {
    Seq::new(d.len() / 2, |i: int| be16(d[2 * i], d[2 * i + 1]))
}

/// The bytes of the values, concatenated big-endian in order.
pub open spec fn u16s_payload(l: Seq<u16>) -> Seq<u8> {
    Seq::new(
        2 * l.len(),
        |j: int|
            if j % 2 == 0 {
                u16_hi(l[j / 2])
            } else {
                u16_lo(l[j / 2])
            },
    )
}

// ---------------------------------------------------------------------------
// Address pairs: policy filters and static routes
// ---------------------------------------------------------------------------

/// The pair of addresses held at offset `i`.
pub open spec fn pair_at(d: Seq<u8>, i: int) -> (Ipv4Address, Ipv4Address) {
    (ipv4_at(d, i), ipv4_at(d, i + 4))
}

/// Every 8-byte chunk as one pair of addresses, in order.
pub open spec fn parse_pairs(d: Seq<u8>) -> Seq<(Ipv4Address, Ipv4Address)> {
    Seq::new(d.len() / 8, |i: int| pair_at(d, 8 * i))
}

pub open spec fn pair_octet(p: (Ipv4Address, Ipv4Address), k: int) -> u8 {
    if k < 4 {
        ipv4_octet(p.0, k)
    } else {
        ipv4_octet(p.1, k - 4)
    }
}

/// The octets of the pairs, concatenated in order.
pub open spec fn pairs_payload(l: Seq<(Ipv4Address, Ipv4Address)>) -> Seq<u8> {
    Seq::new(8 * l.len(), |j: int| pair_octet(l[j / 8], j % 8))
}

/// The address-with-mask held at offset `i`.
pub open spec fn mask_at(d: Seq<u8>, i: int) -> Ipv4WithMask {
    Ipv4WithMask { ipv4addr: ipv4_at(d, i), mask: ipv4_at(d, i + 4) }
}

/// Every 8-byte chunk as an address with its mask, in order.
pub open spec fn parse_masks(d: Seq<u8>) -> Seq<Ipv4WithMask> {
    Seq::new(d.len() / 8, |i: int| mask_at(d, 8 * i))
}

pub open spec fn mask_octet(m: Ipv4WithMask, k: int) -> u8 {
    if k < 4 {
        ipv4_octet(m.ipv4addr, k)
    } else {
        ipv4_octet(m.mask, k - 4)
    }
}

/// The octets of the filters, concatenated in order.
pub open spec fn masks_payload(l: Seq<Ipv4WithMask>) -> Seq<u8> {
    Seq::new(8 * l.len(), |j: int| mask_octet(l[j / 8], j % 8))
}

/// The static route held at offset `i`.
pub open spec fn route_at(d: Seq<u8>, i: int) -> StaticRoute {
    StaticRoute { destination: ipv4_at(d, i), router: ipv4_at(d, i + 4) }
}

/// Every 8-byte chunk as one static route, in order.
pub open spec fn parse_routes(d: Seq<u8>) -> Seq<StaticRoute> {
    Seq::new(d.len() / 8, |i: int| route_at(d, 8 * i))
}

pub open spec fn route_octet(s: StaticRoute, k: int) -> u8 {
    if k < 4 {
        ipv4_octet(s.destination, k)
    } else {
        ipv4_octet(s.router, k - 4)
    }
}

/// The octets of the routes, concatenated in order.
pub open spec fn routes_payload(l: Seq<StaticRoute>) -> Seq<u8> {
    Seq::new(8 * l.len(), |j: int| route_octet(l[j / 8], j % 8))
}

// ---------------------------------------------------------------------------
// Relay agent information sub-options
// ---------------------------------------------------------------------------

pub open spec fn relay_sub_data(s: SpecRelaySubOption) -> Seq<u8> {
    match s {
        SpecRelaySubOption::AgentCircuit(d) => d,
        SpecRelaySubOption::AgentRemote(d) => d,
        SpecRelaySubOption::Unknown(d) => d,
    }
}

pub open spec fn relay_sub_tag(s: SpecRelaySubOption) -> u8 {
    match s {
        SpecRelaySubOption::AgentCircuit(_) => RELAY_AGENT_CIRCUIT,
        SpecRelaySubOption::AgentRemote(_) => RELAY_AGENT_REMOTE,
        SpecRelaySubOption::Unknown(_) => 0,
    }
}

/// The sub-option named by a sub-tag, carrying the given data.
pub open spec fn relay_sub_of(t: u8, d: Seq<u8>) -> SpecRelaySubOption {
    if t == RELAY_AGENT_CIRCUIT {
        SpecRelaySubOption::AgentCircuit(d)
    } else if t == RELAY_AGENT_REMOTE {
        SpecRelaySubOption::AgentRemote(d)
    } else {
        SpecRelaySubOption::Unknown(d)
    }
}

/// `[sub_tag, sub_length]` then the sub-option's data.
pub open spec fn relay_sub_payload(s: SpecRelaySubOption) -> Seq<u8> {
    seq![relay_sub_tag(s), relay_sub_data(s).len() as u8] + relay_sub_data(s)
}

/// The encodings of the sub-options, concatenated in order.
pub open spec fn relay_payload(l: Seq<SpecRelaySubOption>) -> Seq<u8>
    decreases l.len(),
{
    if l.len() == 0 {
        Seq::empty()
    } else {
        relay_sub_payload(l[0]) + relay_payload(l.drop_first())
    }
}

/// One `[sub_tag, sub_length, data]` unit after another until the bytes are
/// exhausted; empty input, a missing length byte, or a sub-length that
/// overruns the input gives nothing.
pub open spec fn parse_relay_stream(d: Seq<u8>) -> Option<Seq<SpecRelaySubOption>>
    decreases d.len(),
{
    if d.len() < 2 {
        None
    } else {
        let sl = d[1] as int;
        if d.len() < 2 + sl {
            None
        } else {
            let sub = relay_sub_of(d[0], d.subrange(2, 2 + sl));
            let rest = d.subrange(2 + sl, d.len() as int);
            if rest.len() == 0 {
                Some(seq![sub])
            } else {
                match parse_relay_stream(rest) {
                    Some(t) => Some(seq![sub] + t),
                    None => None,
                }
            }
        }
    }
}

pub open spec fn relay_opt_concat(
    a: Seq<SpecRelaySubOption>,
    o: Option<Seq<SpecRelaySubOption>>,
) -> Option<Seq<SpecRelaySubOption>> {
    match o {
        Some(t) => Some(a + t),
        None => None,
    }
}

/// Encoding distributes over concatenation of sub-option lists.
pub proof fn lemma_relay_payload_concat(a: Seq<SpecRelaySubOption>, b: Seq<SpecRelaySubOption>)
    ensures
        relay_payload(a + b) == relay_payload(a) + relay_payload(b),
    decreases a.len(),
{
    if a.len() == 0 {
        assert(a + b =~= b);
        assert(relay_payload(a) + relay_payload(b) =~= relay_payload(b));
    } else {
        assert((a + b).drop_first() =~= a.drop_first() + b);
        lemma_relay_payload_concat(a.drop_first(), b);
        assert((a + b)[0] == a[0]);
        assert(relay_payload(a + b) =~= relay_payload(a) + relay_payload(b));
    }
}

// ---------------------------------------------------------------------------
// Scalar parsers
// ---------------------------------------------------------------------------

/// A single byte; too short a slice is a parse error carrying the tag.
pub fn parse_u8(data: &[u8], tag: u8) -> (r: DhcpResult<u8>)
    ensures
        data@.len() >= 1 ==> (r matches Ok(v) && v == data@[0]),
        data@.len() < 1 ==> (r matches Err(e) && e == DhcpError::OptionParseError(tag)),
{
    if data.len() < 1 {
        Err(DhcpError::OptionParseError(tag))
    } else {
        Ok(data[0])
    }
}

/// Two bytes read big-endian; too short a slice is a parse error.
pub fn parse_u16(data: &[u8], tag: u8) -> (r: DhcpResult<u16>)
    ensures
        data@.len() >= 2 ==> (r matches Ok(v) && v == be16(data@[0], data@[1])),
        data@.len() < 2 ==> (r matches Err(e) && e == DhcpError::OptionParseError(tag)),
{
    if data.len() < 2 {
        Err(DhcpError::OptionParseError(tag))
    } else {
        Ok((data[0] as u16) * 256 + (data[1] as u16))
    }
}

/// Four bytes read big-endian; too short a slice is a parse error.
pub fn parse_u32(data: &[u8], tag: u8) -> (r: DhcpResult<u32>)
    ensures
        data@.len() >= 4 ==> (r matches Ok(v) && v == be32(
            data@[0],
            data@[1],
            data@[2],
            data@[3],
        )),
        data@.len() < 4 ==> (r matches Err(e) && e == DhcpError::OptionParseError(tag)),
{
    if data.len() < 4 {
        Err(DhcpError::OptionParseError(tag))
    } else {
        Ok(
            (data[0] as u32) * 0x1000000 + (data[1] as u32) * 0x10000 + (data[2] as u32) * 0x100
                + (data[3] as u32),
        )
    }
}

/// Four bytes read big-endian as a two's complement signed value.
pub fn parse_i32(data: &[u8], tag: u8) -> (r: DhcpResult<i32>)
    ensures
        data@.len() >= 4 ==> (r matches Ok(v) && v == i32_from_u32(
            be32(data@[0], data@[1], data@[2], data@[3]),
        )),
        data@.len() < 4 ==> (r matches Err(e) && e == DhcpError::OptionParseError(tag)),
{
    if data.len() < 4 {
        Err(DhcpError::OptionParseError(tag))
    } else {
        let u: u32 = (data[0] as u32) * 0x1000000 + (data[1] as u32) * 0x10000 + (data[2]
            as u32) * 0x100 + (data[3] as u32);
        if u < 0x80000000 {
            Ok(u as i32)
        } else {
            let wide: i64 = (u as i64) - 0x100000000i64;
            Ok(wide as i32)
        }
    }
}

/// The next four bytes as address octets; too short a slice is a parse error.
pub fn parse_ipv4(data: &[u8], tag: u8) -> (r: DhcpResult<Ipv4Address>)
    ensures
        data@.len() >= 4 ==> (r matches Ok(v) && v == ipv4_at(data@, 0)),
        data@.len() < 4 ==> (r matches Err(e) && e == DhcpError::OptionParseError(tag)),
{
    if data.len() < 4 {
        Err(DhcpError::OptionParseError(tag))
    } else {
        Ok(Ipv4Address::new(data[0], data[1], data[2], data[3]))
    }
}

/// Exactly one byte holding 0 or 1; anything else is a parse error.
pub fn parse_bool(data: &[u8], tag: u8) -> (r: DhcpResult<bool>)
    ensures
        data@.len() >= 1 && data@[0] == 0 ==> (r matches Ok(v) && v == false),
        data@.len() >= 1 && data@[0] == 1 ==> (r matches Ok(v) && v == true),
        data@.len() < 1 || data@[0] > 1 ==> (r matches Err(e) && e
            == DhcpError::OptionParseError(tag)),
{
    if data.len() < 1 {
        Err(DhcpError::OptionParseError(tag))
    } else if data[0] == 0 {
        Ok(false)
    } else if data[0] == 1 {
        Ok(true)
    } else {
        Err(DhcpError::OptionParseError(tag))
    }
}

/// The whole slice as text; any byte outside 7-bit ASCII is a parse error.
pub fn parse_ascii(data: &[u8], tag: u8) -> (r: DhcpResult<AsciiText>)
    ensures
        ascii_wf(data@) ==> (r matches Ok(t) && t@ == data@),
        !ascii_wf(data@) ==> (r matches Err(e) && e == DhcpError::OptionParseError(tag)),
{
    let owned = slice_to_vec(data);
    match AsciiText::from_ascii(owned) {
        Some(t) => Ok(t),
        None => Err(DhcpError::OptionParseError(tag)),
    }
}

/// The whole slice as raw bytes; never fails.
pub fn parse_vec_u8(data: &[u8], _tag: u8) -> (r: DhcpResult<Vec<u8>>)
    ensures
        r matches Ok(v) && v@ == data@,
{
    Ok(slice_to_vec(data))
}

pub open spec fn netbios_of(b: u8) -> Option<NetBiosNodeType> {
    if b == NODE_TYPE_B {
        Some(NetBiosNodeType::B)
    } else if b == NODE_TYPE_P {
        Some(NetBiosNodeType::P)
    } else if b == NODE_TYPE_M {
        Some(NetBiosNodeType::M)
    } else if b == NODE_TYPE_H {
        Some(NetBiosNodeType::H)
    } else {
        None
    }
}

pub open spec fn netbios_byte(t: NetBiosNodeType) -> u8 {
    match t {
        NetBiosNodeType::B => NODE_TYPE_B,
        NetBiosNodeType::P => NODE_TYPE_P,
        NetBiosNodeType::M => NODE_TYPE_M,
        NetBiosNodeType::H => NODE_TYPE_H,
    }
}

/// One byte naming a NetBIOS node type; any other value is a parse error.
pub fn parse_netbios_node_type(data: &[u8], tag: u8) -> (r: DhcpResult<NetBiosNodeType>)
    ensures
        data@.len() >= 1 && netbios_of(data@[0]) is Some ==> (r matches Ok(v) && Some(v)
            == netbios_of(data@[0])),
        data@.len() < 1 || netbios_of(data@[0]) is None ==> (r matches Err(e) && e
            == DhcpError::OptionParseError(tag)),
{
    if data.len() < 1 {
        return Err(DhcpError::OptionParseError(tag));
    }
    let b = data[0];
    if b == NODE_TYPE_B {
        Ok(NetBiosNodeType::B)
    } else if b == NODE_TYPE_P {
        Ok(NetBiosNodeType::P)
    } else if b == NODE_TYPE_M {
        Ok(NetBiosNodeType::M)
    } else if b == NODE_TYPE_H {
        Ok(NetBiosNodeType::H)
    } else {
        Err(DhcpError::OptionParseError(tag))
    }
}

pub open spec fn overload_of(b: u8) -> Option<Overload> {
    if b == OVERLOAD_FILE {
        Some(Overload::File)
    } else if b == OVERLOAD_SNAME {
        Some(Overload::Sname)
    } else if b == OVERLOAD_BOTH {
        Some(Overload::Both)
    } else {
        None
    }
}

pub open spec fn overload_byte(o: Overload) -> u8 {
    match o {
        Overload::File => OVERLOAD_FILE,
        Overload::Sname => OVERLOAD_SNAME,
        Overload::Both => OVERLOAD_BOTH,
    }
}

/// One byte naming an overload mode; any other value is a parse error.
pub fn parse_overload(data: &[u8], tag: u8) -> (r: DhcpResult<Overload>)
    ensures
        data@.len() >= 1 && overload_of(data@[0]) is Some ==> (r matches Ok(v) && Some(v)
            == overload_of(data@[0])),
        data@.len() < 1 || overload_of(data@[0]) is None ==> (r matches Err(e) && e
            == DhcpError::OptionParseError(tag)),
{
    if data.len() < 1 {
        return Err(DhcpError::OptionParseError(tag));
    }
    let b = data[0];
    if b == OVERLOAD_FILE {
        Ok(Overload::File)
    } else if b == OVERLOAD_SNAME {
        Ok(Overload::Sname)
    } else if b == OVERLOAD_BOTH {
        Ok(Overload::Both)
    } else {
        Err(DhcpError::OptionParseError(tag))
    }
}

pub open spec fn message_type_of(b: u8) -> Option<MessageType> {
    if b == MESSAGE_TYPE_DISCOVER {
        Some(MessageType::Discover)
    } else if b == MESSAGE_TYPE_OFFER {
        Some(MessageType::Offer)
    } else if b == MESSAGE_TYPE_REQUEST {
        Some(MessageType::Request)
    } else if b == MESSAGE_TYPE_DECLINE {
        Some(MessageType::Decline)
    } else if b == MESSAGE_TYPE_PACK {
        Some(MessageType::Ack)
    } else if b == MESSAGE_TYPE_NAK {
        Some(MessageType::Nak)
    } else if b == MESSAGE_TYPE_RELEASE {
        Some(MessageType::Release)
    } else if b == MESSAGE_TYPE_INFORM {
        Some(MessageType::Inform)
    } else {
        None
    }
}

pub open spec fn message_type_byte(m: MessageType) -> u8 {
    match m {
        MessageType::Discover => MESSAGE_TYPE_DISCOVER,
        MessageType::Offer => MESSAGE_TYPE_OFFER,
        MessageType::Request => MESSAGE_TYPE_REQUEST,
        MessageType::Decline => MESSAGE_TYPE_DECLINE,
        MessageType::Ack => MESSAGE_TYPE_PACK,
        MessageType::Nak => MESSAGE_TYPE_NAK,
        MessageType::Release => MESSAGE_TYPE_RELEASE,
        MessageType::Inform => MESSAGE_TYPE_INFORM,
    }
}

/// One byte naming a DHCP message type; any other value is a parse error.
pub fn parse_message_type(data: &[u8], tag: u8) -> (r: DhcpResult<MessageType>)
    ensures
        data@.len() >= 1 && message_type_of(data@[0]) is Some ==> (r matches Ok(v) && Some(v)
            == message_type_of(data@[0])),
        data@.len() < 1 || message_type_of(data@[0]) is None ==> (r matches Err(e) && e
            == DhcpError::OptionParseError(tag)),
{
    if data.len() < 1 {
        return Err(DhcpError::OptionParseError(tag));
    }
    let b = data[0];
    if b == MESSAGE_TYPE_DISCOVER {
        Ok(MessageType::Discover)
    } else if b == MESSAGE_TYPE_OFFER {
        Ok(MessageType::Offer)
    } else if b == MESSAGE_TYPE_REQUEST {
        Ok(MessageType::Request)
    } else if b == MESSAGE_TYPE_DECLINE {
        Ok(MessageType::Decline)
    } else if b == MESSAGE_TYPE_PACK {
        Ok(MessageType::Ack)
    } else if b == MESSAGE_TYPE_NAK {
        Ok(MessageType::Nak)
    } else if b == MESSAGE_TYPE_RELEASE {
        Ok(MessageType::Release)
    } else if b == MESSAGE_TYPE_INFORM {
        Ok(MessageType::Inform)
    } else {
        Err(DhcpError::OptionParseError(tag))
    }
}

// ---------------------------------------------------------------------------
// Scalar encoders
// ---------------------------------------------------------------------------

/// `[tag, 4, o0, o1, o2, o3]`.
pub fn ipv4_to_option_bytes(ip: Ipv4Address, tag: u8) -> (r: Vec<u8>)
    ensures
        r@ == seq![tag, 4u8] + ipv4_payload(ip),
{
    let mut r: Vec<u8> = Vec::new();
    r.push(tag);
    r.push(4);
    r.push(ip.o0);
    r.push(ip.o1);
    r.push(ip.o2);
    r.push(ip.o3);
    proof {
        assert(r@ =~= seq![tag, 4u8] + ipv4_payload(ip));
    }
    r
}

/// `[tag, 2]` then the value big-endian.
pub fn u16_to_option_bytes(v: u16, tag: u8) -> (r: Vec<u8>)
    ensures
        r@ == seq![tag, 2u8] + u16_payload(v),
{
    let mut r: Vec<u8> = Vec::new();
    r.push(tag);
    r.push(2);
    r.push((v / 256) as u8);
    r.push((v % 256) as u8);
    proof {
        assert(r@ =~= seq![tag, 2u8] + u16_payload(v));
    }
    r
}

/// `[tag, 4]` then the value big-endian.
pub fn u32_to_option_bytes(v: u32, tag: u8) -> (r: Vec<u8>)
    ensures
        r@ == seq![tag, 4u8] + u32_payload(v),
{
    let mut r: Vec<u8> = Vec::new();
    r.push(tag);
    r.push(4);
    r.push((v / 0x1000000) as u8);
    r.push(((v / 0x10000) % 256) as u8);
    r.push(((v / 0x100) % 256) as u8);
    r.push((v % 256) as u8);
    proof {
        assert(r@ =~= seq![tag, 4u8] + u32_payload(v));
    }
    r
}

/// `[tag, 2]` then the two's complement pattern big-endian.
pub fn i16_to_option_bytes(v: i16, tag: u8) -> (r: Vec<u8>)
    ensures
        r@ == seq![tag, 2u8] + u16_payload(u16_from_i16(v)),
{
    let u: u16 = if v >= 0 {
        v as u16
    } else {
        let wide: i32 = (v as i32) + 0x10000i32;
        wide as u16
    };
    let mut r: Vec<u8> = Vec::new();
    r.push(tag);
    r.push(2);
    r.push((u / 256) as u8);
    r.push((u % 256) as u8);
    proof {
        assert(r@ =~= seq![tag, 2u8] + u16_payload(u16_from_i16(v)));
    }
    r
}

/// `[tag, 4]` then the two's complement pattern big-endian.
pub fn i32_to_option_bytes(v: i32, tag: u8) -> (r: Vec<u8>)
    ensures
        r@ == seq![tag, 4u8] + u32_payload(u32_from_i32(v)),
{
    let u: u32 = if v >= 0 {
        v as u32
    } else {
        let wide: i64 = (v as i64) + 0x100000000i64;
        wide as u32
    };
    u32_to_option_bytes(u, tag)
}

/// `[tag, length]` then the text's bytes, never padded.
pub fn ascii_to_option_bytes(t: &AsciiText, tag: u8) -> (r: Vec<u8>)
    requires
        t@.len() <= 255,
    ensures
        r@ == seq![tag, t@.len() as u8] + t@,
{
    let n = t.len();
    let mut r: Vec<u8> = Vec::new();
    r.push(tag);
    r.push(n as u8);
    let bytes = t.as_bytes();
    let mut i: usize = 0;
    while i < n
        invariant
            n == t@.len(),
            bytes@ == t@,
            0 <= i <= n,
            r@ == seq![tag, n as u8] + t@.take(i as int),
        decreases n - i,
    {
        r.push(bytes[i]);
        proof {
            assert(seq![tag, n as u8] + t@.take(i as int) + seq![t@[i as int]] =~= seq![
                tag,
                n as u8,
            ] + t@.take(i + 1));
        }
        i += 1;
    }
    proof {
        assert(t@.take(n as int) =~= t@);
    }
    r
}

/// `[tag, 1]` then 1 for true, 0 for false.
pub fn bool_to_option_bytes(b: bool, tag: u8) -> (r: Vec<u8>)
    ensures
        r@ == seq![tag, 1u8, if b { 1u8 } else { 0u8 }],
{
    let mut r: Vec<u8> = Vec::new();
    r.push(tag);
    r.push(1);
    r.push(if b { 1 } else { 0 });
    proof {
        assert(r@ =~= seq![tag, 1u8, if b { 1u8 } else { 0u8 }]);
    }
    r
}

/// `[tag, 1, value]`.
pub fn u8_to_option_bytes(v: u8, tag: u8) -> (r: Vec<u8>)
    ensures
        r@ == seq![tag, 1u8, v],
{
    let mut r: Vec<u8> = Vec::new();
    r.push(tag);
    r.push(1);
    r.push(v);
    proof {
        assert(r@ =~= seq![tag, 1u8, v]);
    }
    r
}

/// `[tag, length]` then the bytes as given, never padded.
pub fn vec_u8_to_option_bytes(data: &Vec<u8>, tag: u8) -> (r: Vec<u8>)
    requires
        data@.len() <= 255,
    ensures
        r@ == seq![tag, data@.len() as u8] + data@,
{
    let n = data.len();
    let mut r: Vec<u8> = Vec::new();
    r.push(tag);
    r.push(n as u8);
    let mut i: usize = 0;
    while i < n
        invariant
            n == data@.len(),
            0 <= i <= n,
            r@ == seq![tag, n as u8] + data@.take(i as int),
        decreases n - i,
    {
        r.push(data[i]);
        proof {
            assert(seq![tag, n as u8] + data@.take(i as int) + seq![data@[i as int]] =~= seq![
                tag,
                n as u8,
            ] + data@.take(i + 1));
        }
        i += 1;
    }
    proof {
        assert(data@.take(n as int) =~= data@);
    }
    r
}

/// `[tag, 1]` then the node type's code.
pub fn netbios_node_type_to_option_bytes(t: NetBiosNodeType, tag: u8) -> (r: Vec<u8>)
    ensures
        r@ == seq![tag, 1u8, netbios_byte(t)],
{
    let b = match t {
        NetBiosNodeType::B => NODE_TYPE_B,
        NetBiosNodeType::P => NODE_TYPE_P,
        NetBiosNodeType::M => NODE_TYPE_M,
        NetBiosNodeType::H => NODE_TYPE_H,
    };
    u8_to_option_bytes(b, tag)
}

/// `[tag, 1]` then the overload mode's code.
pub fn overload_to_option_bytes(o: Overload, tag: u8) -> (r: Vec<u8>)
    ensures
        r@ == seq![tag, 1u8, overload_byte(o)],
{
    let b = match o {
        Overload::File => OVERLOAD_FILE,
        Overload::Sname => OVERLOAD_SNAME,
        Overload::Both => OVERLOAD_BOTH,
    };
    u8_to_option_bytes(b, tag)
}

// ---------------------------------------------------------------------------
// List parsers
// ---------------------------------------------------------------------------

/// Every 4-byte chunk as one address; a length not a multiple of 4 is a
/// parse error carrying the tag.
pub fn parse_ipv4_list(data: &[u8], tag: u8) -> (r: DhcpResult<Vec<Ipv4Address>>)
    ensures
        data@.len() % 4 == 0 ==> (r matches Ok(l) && l@ == parse_ipv4s(data@)),
        data@.len() % 4 != 0 ==> (r matches Err(e) && e == DhcpError::OptionParseError(tag)),
{
    let n = data.len();
    if n % 4 != 0 {
        return Err(DhcpError::OptionParseError(tag));
    }
    let mut l: Vec<Ipv4Address> = Vec::new();
    let mut off: usize = 0;
    while off < n
        invariant
            n == data@.len(),
            n % 4 == 0,
            off % 4 == 0,
            0 <= off <= n,
            l@.len() == off / 4,
            forall|k: int| 0 <= k < l@.len() ==> l@[k] == ipv4_at(data@, 4 * k),
        decreases n - off,
    {
        let ip = Ipv4Address::new(data[off], data[off + 1], data[off + 2], data[off + 3]);
        l.push(ip);
        off += 4;
    }
    proof {
        assert(l@ =~= parse_ipv4s(data@));
    }
    Ok(l)
}

/// Every 2-byte chunk as one big-endian value; a length not a multiple of 2
/// is a parse error carrying the tag.
pub fn parse_u16_list(data: &[u8], tag: u8) -> (r: DhcpResult<Vec<u16>>)
    ensures
        data@.len() % 2 == 0 ==> (r matches Ok(l) && l@ == parse_u16s(data@)),
        data@.len() % 2 != 0 ==> (r matches Err(e) && e == DhcpError::OptionParseError(tag)),
{
    let n = data.len();
    if n % 2 != 0 {
        return Err(DhcpError::OptionParseError(tag));
    }
    let mut l: Vec<u16> = Vec::new();
    let mut off: usize = 0;
    while off < n
        invariant
            n == data@.len(),
            n % 2 == 0,
            off % 2 == 0,
            0 <= off <= n,
            l@.len() == off / 2,
            forall|k: int| 0 <= k < l@.len() ==> l@[k] == be16(data@[2 * k], data@[2 * k + 1]),
        decreases n - off,
    {
        let v: u16 = (data[off] as u16) * 256 + (data[off + 1] as u16);
        l.push(v);
        off += 2;
    }
    proof {
        assert(l@ =~= parse_u16s(data@));
    }
    Ok(l)
}

/// Every 8-byte chunk as one pair of addresses; a length not a multiple of 8
/// is a parse error carrying the tag.
pub fn parse_ipv4_pair_list(data: &[u8], tag: u8) -> (r: DhcpResult<
    Vec<(Ipv4Address, Ipv4Address)>,
>)
    ensures
        data@.len() % 8 == 0 ==> (r matches Ok(l) && l@ == parse_pairs(data@)),
        data@.len() % 8 != 0 ==> (r matches Err(e) && e == DhcpError::OptionParseError(tag)),
{
    let n = data.len();
    if n % 8 != 0 {
        return Err(DhcpError::OptionParseError(tag));
    }
    let mut l: Vec<(Ipv4Address, Ipv4Address)> = Vec::new();
    let mut off: usize = 0;
    while off < n
        invariant
            n == data@.len(),
            n % 8 == 0,
            off % 8 == 0,
            0 <= off <= n,
            l@.len() == off / 8,
            forall|k: int| 0 <= k < l@.len() ==> l@[k] == pair_at(data@, 8 * k),
        decreases n - off,
    {
        let first = Ipv4Address::new(data[off], data[off + 1], data[off + 2], data[off + 3]);
        let second = Ipv4Address::new(
            data[off + 4],
            data[off + 5],
            data[off + 6],
            data[off + 7],
        );
        l.push((first, second));
        off += 8;
    }
    proof {
        assert(l@ =~= parse_pairs(data@));
    }
    Ok(l)
}

/// Every 8-byte chunk as an address with its mask; a length not a multiple
/// of 8 is a parse error carrying the tag.
pub fn parse_policy_filter_list(data: &[u8], tag: u8) -> (r: DhcpResult<Vec<Ipv4WithMask>>)
    ensures
        data@.len() % 8 == 0 ==> (r matches Ok(l) && l@ == parse_masks(data@)),
        data@.len() % 8 != 0 ==> (r matches Err(e) && e == DhcpError::OptionParseError(tag)),
{
    let n = data.len();
    if n % 8 != 0 {
        return Err(DhcpError::OptionParseError(tag));
    }
    let mut l: Vec<Ipv4WithMask> = Vec::new();
    let mut off: usize = 0;
    while off < n
        invariant
            n == data@.len(),
            n % 8 == 0,
            off % 8 == 0,
            0 <= off <= n,
            l@.len() == off / 8,
            forall|k: int| 0 <= k < l@.len() ==> l@[k] == mask_at(data@, 8 * k),
        decreases n - off,
    {
        let ipv4addr = Ipv4Address::new(data[off], data[off + 1], data[off + 2], data[off + 3]);
        let mask = Ipv4Address::new(data[off + 4], data[off + 5], data[off + 6], data[off + 7]);
        l.push(Ipv4WithMask { ipv4addr, mask });
        off += 8;
    }
    proof {
        assert(l@ =~= parse_masks(data@));
    }
    Ok(l)
}

/// Every 8-byte chunk as one static route; a length not a multiple of 8 is
/// a parse error carrying the tag.
pub fn parse_static_route_list(data: &[u8], tag: u8) -> (r: DhcpResult<Vec<StaticRoute>>)
    ensures
        data@.len() % 8 == 0 ==> (r matches Ok(l) && l@ == parse_routes(data@)),
        data@.len() % 8 != 0 ==> (r matches Err(e) && e == DhcpError::OptionParseError(tag)),
{
    let n = data.len();
    if n % 8 != 0 {
        return Err(DhcpError::OptionParseError(tag));
    }
    let mut l: Vec<StaticRoute> = Vec::new();
    let mut off: usize = 0;
    while off < n
        invariant
            n == data@.len(),
            n % 8 == 0,
            off % 8 == 0,
            0 <= off <= n,
            l@.len() == off / 8,
            forall|k: int| 0 <= k < l@.len() ==> l@[k] == route_at(data@, 8 * k),
        decreases n - off,
    {
        let destination = Ipv4Address::new(
            data[off],
            data[off + 1],
            data[off + 2],
            data[off + 3],
        );
        let router = Ipv4Address::new(data[off + 4], data[off + 5], data[off + 6], data[off + 7]);
        l.push(StaticRoute { destination, router });
        off += 8;
    }
    proof {
        assert(l@ =~= parse_routes(data@));
    }
    Ok(l)
}

// ---------------------------------------------------------------------------
// List encoders
// ---------------------------------------------------------------------------

/// Appends the four octets of the address.
pub(crate) fn push_ipv4(r: &mut Vec<u8>, ip: Ipv4Address)
    ensures
        final(r)@ == old(r)@ + ipv4_payload(ip),
{
    r.push(ip.o0);
    r.push(ip.o1);
    r.push(ip.o2);
    r.push(ip.o3);
    proof {
        assert(r@ =~= old(r)@ + ipv4_payload(ip));
    }
}

/// `[tag, length]` then every address's octets in order.
pub fn ipv4_list_to_option_bytes(l: &Vec<Ipv4Address>, tag: u8) -> (r: Vec<u8>)
    requires
        4 * l@.len() <= 255,
    ensures
        r@ == seq![tag, (4 * l@.len()) as u8] + ipv4s_payload(l@),
{
    let n = l.len();
    let mut r: Vec<u8> = Vec::new();
    r.push(tag);
    r.push((4 * n) as u8);
    let mut i: usize = 0;
    while i < n
        invariant
            n == l@.len(),
            4 * n <= 255,
            0 <= i <= n,
            r@.len() == 2 + 4 * i,
            r@[0] == tag,
            r@[1] == (4 * n) as u8,
            forall|j: int| 0 <= j < 4 * i ==> #[trigger] r@[2 + j] == ipv4_octet(l@[j / 4], j % 4),
        decreases n - i,
    {
        push_ipv4(&mut r, l[i]);
        i += 1;
    }
    proof {
        assert forall|k: int| 0 <= k < 4 * l@.len() implies r@[2 + k] == ipv4s_payload(l@)[k] by {
            assert(r@[2 + k] == ipv4_octet(l@[k / 4], k % 4));
        }
        assert(r@ =~= seq![tag, (4 * l@.len()) as u8] + ipv4s_payload(l@));
    }
    r
}

/// `[tag, length]` then every value big-endian in order.
pub fn u16_list_to_option_bytes(l: &Vec<u16>, tag: u8) -> (r: Vec<u8>)
    requires
        2 * l@.len() <= 255,
    ensures
        r@ == seq![tag, (2 * l@.len()) as u8] + u16s_payload(l@),
{
    let n = l.len();
    let mut r: Vec<u8> = Vec::new();
    r.push(tag);
    r.push((2 * n) as u8);
    let mut i: usize = 0;
    while i < n
        invariant
            n == l@.len(),
            2 * n <= 255,
            0 <= i <= n,
            r@.len() == 2 + 2 * i,
            r@[0] == tag,
            r@[1] == (2 * n) as u8,
            forall|j: int| 0 <= j < 2 * i ==> #[trigger] r@[2 + j] == (if j % 2 == 0 {
                u16_hi(l@[j / 2])
            } else {
                u16_lo(l@[j / 2])
            }),
        decreases n - i,
    {
        let v = l[i];
        r.push((v / 256) as u8);
        r.push((v % 256) as u8);
        i += 1;
    }
    proof {
        assert forall|k: int| 0 <= k < 2 * l@.len() implies r@[2 + k] == u16s_payload(l@)[k] by {
            assert(r@[2 + k] == (if k % 2 == 0 {
                u16_hi(l@[k / 2])
            } else {
                u16_lo(l@[k / 2])
            }));
        }
        assert(r@ =~= seq![tag, (2 * l@.len()) as u8] + u16s_payload(l@));
    }
    r
}

/// `[tag, length]` then both addresses of every pair in order.
pub fn pair_list_to_option_bytes(l: &Vec<(Ipv4Address, Ipv4Address)>, tag: u8) -> (r: Vec<u8>)
    requires
        8 * l@.len() <= 255,
    ensures
        r@ == seq![tag, (8 * l@.len()) as u8] + pairs_payload(l@),
{
    let n = l.len();
    let mut r: Vec<u8> = Vec::new();
    r.push(tag);
    r.push((8 * n) as u8);
    let mut i: usize = 0;
    while i < n
        invariant
            n == l@.len(),
            8 * n <= 255,
            0 <= i <= n,
            r@.len() == 2 + 8 * i,
            r@[0] == tag,
            r@[1] == (8 * n) as u8,
            forall|j: int| 0 <= j < 8 * i ==> #[trigger] r@[2 + j] == pair_octet(l@[j / 8], j % 8),
        decreases n - i,
    {
        let p = l[i];
        push_ipv4(&mut r, p.0);
        push_ipv4(&mut r, p.1);
        i += 1;
    }
    proof {
        assert forall|k: int| 0 <= k < 8 * l@.len() implies r@[2 + k] == pairs_payload(l@)[k] by {
            assert(r@[2 + k] == pair_octet(l@[k / 8], k % 8));
        }
        assert(r@ =~= seq![tag, (8 * l@.len()) as u8] + pairs_payload(l@));
    }
    r
}

/// `[tag, length]` then every filter's address and mask in order.
pub fn policy_filter_list_to_option_bytes(l: &Vec<Ipv4WithMask>, tag: u8) -> (r: Vec<u8>)
    requires
        8 * l@.len() <= 255,
    ensures
        r@ == seq![tag, (8 * l@.len()) as u8] + masks_payload(l@),
{
    let n = l.len();
    let mut r: Vec<u8> = Vec::new();
    r.push(tag);
    r.push((8 * n) as u8);
    let mut i: usize = 0;
    while i < n
        invariant
            n == l@.len(),
            8 * n <= 255,
            0 <= i <= n,
            r@.len() == 2 + 8 * i,
            r@[0] == tag,
            r@[1] == (8 * n) as u8,
            forall|j: int| 0 <= j < 8 * i ==> #[trigger] r@[2 + j] == mask_octet(l@[j / 8], j % 8),
        decreases n - i,
    {
        let m = l[i];
        push_ipv4(&mut r, m.ipv4addr);
        push_ipv4(&mut r, m.mask);
        i += 1;
    }
    proof {
        assert forall|k: int| 0 <= k < 8 * l@.len() implies r@[2 + k] == masks_payload(l@)[k] by {
            assert(r@[2 + k] == mask_octet(l@[k / 8], k % 8));
        }
        assert(r@ =~= seq![tag, (8 * l@.len()) as u8] + masks_payload(l@));
    }
    r
}

/// `[tag, length]` then every route's destination and router in order.
pub fn static_route_list_to_option_bytes(l: &Vec<StaticRoute>, tag: u8) -> (r: Vec<u8>)
    requires
        8 * l@.len() <= 255,
    ensures
        r@ == seq![tag, (8 * l@.len()) as u8] + routes_payload(l@),
{
    let n = l.len();
    let mut r: Vec<u8> = Vec::new();
    r.push(tag);
    r.push((8 * n) as u8);
    let mut i: usize = 0;
    while i < n
        invariant
            n == l@.len(),
            8 * n <= 255,
            0 <= i <= n,
            r@.len() == 2 + 8 * i,
            r@[0] == tag,
            r@[1] == (8 * n) as u8,
            forall|j: int| 0 <= j < 8 * i ==> #[trigger] r@[2 + j] == route_octet(l@[j / 8], j % 8),
        decreases n - i,
    {
        let s = l[i];
        push_ipv4(&mut r, s.destination);
        push_ipv4(&mut r, s.router);
        i += 1;
    }
    proof {
        assert forall|k: int| 0 <= k < 8 * l@.len() implies r@[2 + k] == routes_payload(l@)[k] by {
            assert(r@[2 + k] == route_octet(l@[k / 8], k % 8));
        }
        assert(r@ =~= seq![tag, (8 * l@.len()) as u8] + routes_payload(l@));
    }
    r
}

/// `[tag, 1]` then the message type's code.
pub fn message_type_to_option_bytes(m: MessageType, tag: u8) -> (r: Vec<u8>)
    ensures
        r@ == seq![tag, 1u8, message_type_byte(m)],
{
    let b = match m {
        MessageType::Discover => MESSAGE_TYPE_DISCOVER,
        MessageType::Offer => MESSAGE_TYPE_OFFER,
        MessageType::Request => MESSAGE_TYPE_REQUEST,
        MessageType::Decline => MESSAGE_TYPE_DECLINE,
        MessageType::Ack => MESSAGE_TYPE_PACK,
        MessageType::Nak => MESSAGE_TYPE_NAK,
        MessageType::Release => MESSAGE_TYPE_RELEASE,
        MessageType::Inform => MESSAGE_TYPE_INFORM,
    };
    u8_to_option_bytes(b, tag)
}


// ---------------------------------------------------------------------------
// Relay agent parser and encoder
// ---------------------------------------------------------------------------

/// One `[sub_tag, sub_length, data]` unit after another; empty input, a
/// missing length byte, or a sub-length that overruns the input is a parse
/// error carrying the tag.
pub fn parse_relay_agent_sub_options(data: &[u8], tag: u8) -> (r: DhcpResult<
    Vec<RelayAgentInformationSubOption>,
>)
    ensures
        parse_relay_stream(data@) matches Some(t) ==> (r matches Ok(l) && relay_views(l@) == t),
        parse_relay_stream(data@) is None ==> (r matches Err(e) && e
            == DhcpError::OptionParseError(tag)),
{
    let n = data.len();
    if n == 0 {
        return Err(DhcpError::OptionParseError(tag));
    }
    let mut l: Vec<RelayAgentInformationSubOption> = Vec::new();
    let mut i: usize = 0;
    proof {
        assert(data@.subrange(0, n as int) =~= data@);
        assert(relay_views(l@) =~= Seq::<SpecRelaySubOption>::empty());
        match parse_relay_stream(data@) {
            Some(t) => {
                assert(Seq::<SpecRelaySubOption>::empty() + t =~= t);
            },
            None => {},
        }
    }
    while i < n
        invariant
            n == data@.len(),
            n > 0,
            0 <= i <= n,
            parse_relay_stream(data@) == (if i == n {
                Some(relay_views(l@))
            } else {
                relay_opt_concat(
                    relay_views(l@),
                    parse_relay_stream(data@.subrange(i as int, n as int)),
                )
            }),
        decreases n - i,
    {
        let ghost pre = data@.subrange(i as int, n as int);
        if i + 1 >= n {
            proof {
                assert(pre.len() < 2);
            }
            return Err(DhcpError::OptionParseError(tag));
        }
        let st = data[i];
        let sl = data[i + 1] as usize;
        proof {
            assert(pre[0] == data@[i as int]);
            assert(pre[1] == data@[i as int + 1]);
        }
        if n - i - 2 < sl {
            proof {
                assert(pre.len() < 2 + sl);
            }
            return Err(DhcpError::OptionParseError(tag));
        }
        let sub_bytes = slice_to_vec(slice_subrange(data, i + 2, i + 2 + sl));
        let sub = if st == RELAY_AGENT_CIRCUIT {
            RelayAgentInformationSubOption::AgentCircuit(sub_bytes)
        } else if st == RELAY_AGENT_REMOTE {
            RelayAgentInformationSubOption::AgentRemote(sub_bytes)
        } else {
            RelayAgentInformationSubOption::Unknown(sub_bytes)
        };
        let ghost old_views = relay_views(l@);
        proof {
            assert(pre.subrange(2, 2 + sl as int) =~= data@.subrange(
                i as int + 2,
                i as int + 2 + sl as int,
            ));
            assert(pre.subrange(2 + sl as int, pre.len() as int) =~= data@.subrange(
                i as int + 2 + sl as int,
                n as int,
            ));
            assert(sub@ == relay_sub_of(pre[0], pre.subrange(2, 2 + sl as int)));
        }
        l.push(sub);
        i = i + 2 + sl;
        proof {
            assert(relay_views(l@) =~= old_views + seq![sub@]);
            if i == n {
                assert(parse_relay_stream(pre) == Some(seq![sub@]));
                assert(old_views + seq![sub@] =~= relay_views(l@));
            } else {
                let rest = data@.subrange(i as int, n as int);
                match parse_relay_stream(rest) {
                    Some(t) => {
                        assert(parse_relay_stream(pre) == Some(seq![sub@] + t));
                        assert(old_views + (seq![sub@] + t) =~= (old_views + seq![sub@]) + t);
                    },
                    None => {
                        assert(parse_relay_stream(pre) is None);
                    },
                }
            }
        }
    }
    Ok(l)
}

/// Appends the two big-endian bytes of the value.
pub(crate) fn push_u16_be(r: &mut Vec<u8>, v: u16)
    ensures
        final(r)@ == old(r)@ + u16_payload(v),
{
    r.push((v / 256) as u8);
    r.push((v % 256) as u8);
    proof {
        assert(r@ =~= old(r)@ + u16_payload(v));
    }
}

/// Appends the four big-endian bytes of the value.
pub(crate) fn push_u32_be(r: &mut Vec<u8>, v: u32)
    ensures
        final(r)@ == old(r)@ + u32_payload(v),
{
    r.push((v / 0x1000000) as u8);
    r.push(((v / 0x10000) % 256) as u8);
    r.push(((v / 0x100) % 256) as u8);
    r.push((v % 256) as u8);
    proof {
        assert(r@ =~= old(r)@ + u32_payload(v));
    }
}

/// Appends all bytes of the slice.
pub(crate) fn push_bytes(r: &mut Vec<u8>, data: &[u8])
    ensures
        final(r)@ == old(r)@ + data@,
{
    let n = data.len();
    let mut i: usize = 0;
    while i < n
        invariant
            n == data@.len(),
            0 <= i <= n,
            r@ == old(r)@ + data@.take(i as int),
        decreases n - i,
    {
        r.push(data[i]);
        proof {
            assert(old(r)@ + data@.take(i as int) + seq![data@[i as int]] =~= old(r)@
                + data@.take(i + 1));
        }
        i += 1;
    }
    proof {
        assert(data@.take(n as int) =~= data@);
    }
}

/// `[tag, length]` then each sub-option as `[sub_tag, sub_length, data]`.
pub fn relay_agent_list_to_option_bytes(l: &Vec<RelayAgentInformationSubOption>, tag: u8) -> (r:
    Vec<u8>)
    requires
        relay_payload(relay_views(l@)).len() <= 255,
        forall|k: int| 0 <= k < l@.len() ==> relay_sub_data(#[trigger] l@[k]@).len() <= 255,
    ensures
        r@ == seq![tag, relay_payload(relay_views(l@)).len() as u8] + relay_payload(
            relay_views(l@),
        ),
{
    let n = l.len();
    let mut payload: Vec<u8> = Vec::new();
    let mut i: usize = 0;
    while i < n
        invariant
            n == l@.len(),
            0 <= i <= n,
            payload@ == relay_payload(relay_views(l@.take(i as int))),
            relay_payload(relay_views(l@)).len() <= 255,
            forall|k: int| 0 <= k < l@.len() ==> relay_sub_data(#[trigger] l@[k]@).len() <= 255,
        decreases n - i,
    {
        let (stag, sdata): (u8, &Vec<u8>) = match &l[i] {
            RelayAgentInformationSubOption::AgentRemote(d) => (RELAY_AGENT_REMOTE, d),
            RelayAgentInformationSubOption::AgentCircuit(d) => (RELAY_AGENT_CIRCUIT, d),
            RelayAgentInformationSubOption::Unknown(d) => (0, d),
        };
        proof {
            assert(stag == relay_sub_tag(l@[i as int]@));
            assert(sdata@ == relay_sub_data(l@[i as int]@));
            assert(relay_sub_data(l@[i as int]@).len() <= 255);
        }
        let ghost p0 = payload@;
        payload.push(stag);
        payload.push(sdata.len() as u8);
        push_bytes(&mut payload, sdata.as_slice());
        proof {
            let m = l@[i as int]@;
            assert(payload@ =~= p0 + relay_sub_payload(m));
            assert(relay_views(l@.take(i + 1)) =~= relay_views(l@.take(i as int)) + seq![m]);
            lemma_relay_payload_concat(relay_views(l@.take(i as int)), seq![m]);
            assert(seq![m].drop_first() =~= Seq::<SpecRelaySubOption>::empty());
            assert(relay_payload(Seq::<SpecRelaySubOption>::empty()) == Seq::<u8>::empty());
            assert(relay_payload(seq![m]) =~= relay_sub_payload(m));
            assert(payload@ =~= relay_payload(relay_views(l@.take(i + 1))));
        }
        i += 1;
    }
    proof {
        assert(l@.take(n as int) =~= l@);
    }
    let len_byte: u8 = payload.len() as u8;
    let mut r: Vec<u8> = Vec::new();
    r.push(tag);
    r.push(len_byte);
    r.append(&mut payload);
    proof {
        assert(r@ =~= seq![tag, relay_payload(relay_views(l@)).len() as u8] + relay_payload(
            relay_views(l@),
        ));
    }
    r
}


// ---------------------------------------------------------------------------
// Round trips: decoding an encoding gives the value back
// ---------------------------------------------------------------------------

/// Reading back the two big-endian bytes of a value gives the value.
pub proof fn lemma_u16_round_trip(v: u16)
    ensures
        be16(u16_hi(v), u16_lo(v)) == v,
{
    lemma_fundamental_div_mod(v as int, 256);
}

/// The two bytes written for a value read back as themselves.
pub proof fn lemma_be16_bytes(hi: u8, lo: u8)
    ensures
        u16_hi(be16(hi, lo)) == hi,
        u16_lo(be16(hi, lo)) == lo,
{
    lemma_fundamental_div_mod_converse(hi as int * 256 + lo as int, 256, hi as int, lo as int);
}

/// Reading back the four big-endian bytes of a value gives the value.
pub proof fn lemma_u32_round_trip(v: u32)
    ensures
        be32(u32_payload(v)[0], u32_payload(v)[1], u32_payload(v)[2], u32_payload(v)[3]) == v,
{
    let x = v as int;
    lemma_fundamental_div_mod(x, 0x100);
    lemma_fundamental_div_mod(x / 0x100, 0x100);
    lemma_fundamental_div_mod(x / 0x10000, 0x100);
    lemma_div_denominator(x, 0x100, 0x100);
    lemma_div_denominator(x, 0x10000, 0x100);
}

/// The four bytes written for a value read back as themselves.
pub proof fn lemma_be32_bytes(b0: u8, b1: u8, b2: u8, b3: u8)
    ensures
        u32_payload(be32(b0, b1, b2, b3)) == seq![b0, b1, b2, b3],
{
    let x = b0 as int * 0x1000000 + b1 as int * 0x10000 + b2 as int * 0x100 + b3 as int;
    lemma_fundamental_div_mod_converse(
        x,
        0x100,
        b0 as int * 0x10000 + b1 as int * 0x100 + b2 as int,
        b3 as int,
    );
    lemma_fundamental_div_mod_converse(
        b0 as int * 0x10000 + b1 as int * 0x100 + b2 as int,
        0x100,
        b0 as int * 0x100 + b1 as int,
        b2 as int,
    );
    lemma_fundamental_div_mod_converse(
        b0 as int * 0x100 + b1 as int,
        0x100,
        b0 as int,
        b1 as int,
    );
    lemma_div_denominator(x, 0x100, 0x100);
    lemma_div_denominator(x, 0x10000, 0x100);
    assert(u32_payload(be32(b0, b1, b2, b3)) =~= seq![b0, b1, b2, b3]);
}

/// The signed reading of a value's two's complement pattern is the value.
pub proof fn lemma_i32_round_trip(v: i32)
    ensures
        i32_from_u32(u32_from_i32(v)) == v,
{
}

/// Parsing an address list's encoding gives the list back.
pub proof fn lemma_ipv4s_round_trip(l: Seq<Ipv4Address>)
    ensures
        parse_ipv4s(ipv4s_payload(l)) == l,
        ipv4s_payload(l).len() % 4 == 0,
{
    let p = ipv4s_payload(l);
    lemma_fundamental_div_mod_converse((4 * l.len()) as int, 4, l.len() as int, 0);
    assert forall|i: int| 0 <= i < l.len() implies parse_ipv4s(p)[i] == l[i] by {
        lemma_fundamental_div_mod_converse(4 * i, 4, i, 0);
        lemma_fundamental_div_mod_converse(4 * i + 1, 4, i, 1);
        lemma_fundamental_div_mod_converse(4 * i + 2, 4, i, 2);
        lemma_fundamental_div_mod_converse(4 * i + 3, 4, i, 3);
        assert(p[4 * i] == ipv4_octet(l[i], 0));
        assert(p[4 * i + 1] == ipv4_octet(l[i], 1));
        assert(p[4 * i + 2] == ipv4_octet(l[i], 2));
        assert(p[4 * i + 3] == ipv4_octet(l[i], 3));
    }
    assert(parse_ipv4s(p) =~= l);
}

/// Parsing a 16-bit list's encoding gives the list back.
pub proof fn lemma_u16s_round_trip(l: Seq<u16>)
    ensures
        parse_u16s(u16s_payload(l)) == l,
        u16s_payload(l).len() % 2 == 0,
{
    let p = u16s_payload(l);
    lemma_fundamental_div_mod_converse((2 * l.len()) as int, 2, l.len() as int, 0);
    assert forall|i: int| 0 <= i < l.len() implies parse_u16s(p)[i] == l[i] by {
        lemma_fundamental_div_mod_converse(2 * i, 2, i, 0);
        lemma_fundamental_div_mod_converse(2 * i + 1, 2, i, 1);
        assert(p[2 * i] == u16_hi(l[i]));
        assert(p[2 * i + 1] == u16_lo(l[i]));
        lemma_u16_round_trip(l[i]);
    }
    assert(parse_u16s(p) =~= l);
}

/// Parsing a pair list's encoding gives the list back.
pub proof fn lemma_pairs_round_trip(l: Seq<(Ipv4Address, Ipv4Address)>)
    ensures
        parse_pairs(pairs_payload(l)) == l,
        pairs_payload(l).len() % 8 == 0,
{
    let p = pairs_payload(l);
    lemma_fundamental_div_mod_converse((8 * l.len()) as int, 8, l.len() as int, 0);
    assert forall|i: int| 0 <= i < l.len() implies parse_pairs(p)[i] == l[i] by {
        lemma_fundamental_div_mod_converse(8 * i, 8, i, 0);
        lemma_fundamental_div_mod_converse(8 * i + 1, 8, i, 1);
        lemma_fundamental_div_mod_converse(8 * i + 2, 8, i, 2);
        lemma_fundamental_div_mod_converse(8 * i + 3, 8, i, 3);
        lemma_fundamental_div_mod_converse(8 * i + 4, 8, i, 4);
        lemma_fundamental_div_mod_converse(8 * i + 5, 8, i, 5);
        lemma_fundamental_div_mod_converse(8 * i + 6, 8, i, 6);
        lemma_fundamental_div_mod_converse(8 * i + 7, 8, i, 7);
        assert forall|k: int| 0 <= k < 8 implies p[8 * i + k] == pair_octet(l[i], k) by {}
        assert(parse_pairs(p)[i] == pair_at(p, 8 * i));
        assert(pair_at(p, 8 * i).0 == l[i].0);
        assert(pair_at(p, 8 * i).1 == l[i].1);
    }
    assert(parse_pairs(p) =~= l);
}

/// Parsing a policy filter list's encoding gives the list back.
pub proof fn lemma_masks_round_trip(l: Seq<Ipv4WithMask>)
    ensures
        parse_masks(masks_payload(l)) == l,
        masks_payload(l).len() % 8 == 0,
{
    let p = masks_payload(l);
    lemma_fundamental_div_mod_converse((8 * l.len()) as int, 8, l.len() as int, 0);
    assert forall|i: int| 0 <= i < l.len() implies parse_masks(p)[i] == l[i] by {
        lemma_fundamental_div_mod_converse(8 * i, 8, i, 0);
        lemma_fundamental_div_mod_converse(8 * i + 1, 8, i, 1);
        lemma_fundamental_div_mod_converse(8 * i + 2, 8, i, 2);
        lemma_fundamental_div_mod_converse(8 * i + 3, 8, i, 3);
        lemma_fundamental_div_mod_converse(8 * i + 4, 8, i, 4);
        lemma_fundamental_div_mod_converse(8 * i + 5, 8, i, 5);
        lemma_fundamental_div_mod_converse(8 * i + 6, 8, i, 6);
        lemma_fundamental_div_mod_converse(8 * i + 7, 8, i, 7);
        assert forall|k: int| 0 <= k < 8 implies p[8 * i + k] == mask_octet(l[i], k) by {}
        assert(parse_masks(p)[i] == mask_at(p, 8 * i));
        assert(mask_at(p, 8 * i).ipv4addr == l[i].ipv4addr);
        assert(mask_at(p, 8 * i).mask == l[i].mask);
    }
    assert(parse_masks(p) =~= l);
}

/// Parsing a static route list's encoding gives the list back.
pub proof fn lemma_routes_round_trip(l: Seq<StaticRoute>)
    ensures
        parse_routes(routes_payload(l)) == l,
        routes_payload(l).len() % 8 == 0,
{
    let p = routes_payload(l);
    lemma_fundamental_div_mod_converse((8 * l.len()) as int, 8, l.len() as int, 0);
    assert forall|i: int| 0 <= i < l.len() implies parse_routes(p)[i] == l[i] by {
        lemma_fundamental_div_mod_converse(8 * i, 8, i, 0);
        lemma_fundamental_div_mod_converse(8 * i + 1, 8, i, 1);
        lemma_fundamental_div_mod_converse(8 * i + 2, 8, i, 2);
        lemma_fundamental_div_mod_converse(8 * i + 3, 8, i, 3);
        lemma_fundamental_div_mod_converse(8 * i + 4, 8, i, 4);
        lemma_fundamental_div_mod_converse(8 * i + 5, 8, i, 5);
        lemma_fundamental_div_mod_converse(8 * i + 6, 8, i, 6);
        lemma_fundamental_div_mod_converse(8 * i + 7, 8, i, 7);
        assert forall|k: int| 0 <= k < 8 implies p[8 * i + k] == route_octet(l[i], k) by {}
        assert(parse_routes(p)[i] == route_at(p, 8 * i));
        assert(route_at(p, 8 * i).destination == l[i].destination);
        assert(route_at(p, 8 * i).router == l[i].router);
    }
    assert(parse_routes(p) =~= l);
}

/// Every sub-option takes at least two bytes on the wire.
pub proof fn lemma_relay_payload_len(l: Seq<SpecRelaySubOption>)
    ensures
        l.len() > 0 ==> relay_payload(l).len() >= 2,
    decreases l.len(),
{
    if l.len() > 0 {
        lemma_relay_payload_len(l.drop_first());
    }
}

/// Parsing a non-empty sub-option list's encoding gives the list back,
/// as long as every sub-option's data fits its one length byte.
pub proof fn lemma_relay_round_trip(l: Seq<SpecRelaySubOption>)
    requires
        l.len() >= 1,
        forall|k: int| 0 <= k < l.len() ==> relay_sub_data(#[trigger] l[k]).len() <= 255,
    ensures
        parse_relay_stream(relay_payload(l)) == Some(l),
    decreases l.len(),
{
    let d = relay_payload(l);
    let m = l[0];
    let sl = relay_sub_data(m).len() as int;
    assert(d == relay_sub_payload(m) + relay_payload(l.drop_first()));
    assert(d[0] == relay_sub_tag(m));
    assert(d[1] == sl as u8);
    assert(d.len() >= 2 + sl);
    assert(d.subrange(2, 2 + sl) =~= relay_sub_data(m));
    assert(relay_sub_of(relay_sub_tag(m), relay_sub_data(m)) == m);
    let rest = d.subrange(2 + sl, d.len() as int);
    assert(rest =~= relay_payload(l.drop_first()));
    if l.len() == 1 {
        assert(l.drop_first() =~= Seq::<SpecRelaySubOption>::empty());
        assert(relay_payload(l.drop_first()).len() == 0);
        assert(rest.len() == 0);
        assert(seq![m] =~= l);
    } else {
        lemma_relay_payload_len(l.drop_first());
        assert(rest.len() > 0);
        assert forall|k: int| 0 <= k < l.drop_first().len() implies relay_sub_data(
            #[trigger] l.drop_first()[k],
        ).len() <= 255 by {
            assert(l.drop_first()[k] == l[k + 1]);
        }
        lemma_relay_round_trip(l.drop_first());
        assert(seq![m] + l.drop_first() =~= l);
    }
}


/// A parsed sub-option stream re-encodes to the same number of bytes, and
/// every parsed sub-option's data fits one length byte.
pub proof fn lemma_relay_parse_sizes(d: Seq<u8>)
    ensures
        parse_relay_stream(d) matches Some(l) ==> relay_payload(l).len() == d.len() && (forall|
            k: int,
        | 0 <= k < l.len() ==> relay_sub_data(#[trigger] l[k]).len() <= 255),
    decreases d.len(),
{
    if d.len() >= 2 {
        let sl = d[1] as int;
        if d.len() >= 2 + sl {
            let sub = relay_sub_of(d[0], d.subrange(2, 2 + sl));
            let rest = d.subrange(2 + sl, d.len() as int);
            assert(relay_sub_data(sub).len() == sl);
            if rest.len() == 0 {
                assert(seq![sub].drop_first() =~= Seq::<SpecRelaySubOption>::empty());
                assert(relay_payload(Seq::<SpecRelaySubOption>::empty()) == Seq::<u8>::empty());
                assert(relay_payload(seq![sub]).len() == 2 + sl);
            } else {
                lemma_relay_parse_sizes(rest);
                match parse_relay_stream(rest) {
                    Some(t) => {
                        lemma_relay_payload_concat(seq![sub], t);
                        assert(seq![sub] + t =~= parse_relay_stream(d)->Some_0);
                        assert(seq![sub].drop_first() =~= Seq::<SpecRelaySubOption>::empty());
                        assert(relay_payload(Seq::<SpecRelaySubOption>::empty())
                            == Seq::<u8>::empty());
                        assert(relay_payload(seq![sub]).len() == 2 + sl);
                        assert forall|k: int| 0 <= k < (seq![sub] + t).len() implies relay_sub_data(
                            #[trigger] (seq![sub] + t)[k],
                        ).len() <= 255 by {
                            if k == 0 {
                                assert((seq![sub] + t)[0] == sub);
                            } else {
                                assert((seq![sub] + t)[k] == t[k - 1]);
                            }
                        }
                    },
                    None => {},
                }
            }
        }
    }
}

} // verus!



