use vstd::prelude::*;

use crate::addr::{ascii_wf, mac_wf, AsciiText, Ipv4Address, MacAddress};
use crate::convert::{be16, be32, ipv4_at, ipv4_payload, lemma_be16_bytes, lemma_be32_bytes,
    push_bytes, push_ipv4, push_u16_be, push_u32_be, u16_payload, u32_payload};
use crate::error::{DhcpError, DhcpResult};
use crate::option::{empty_slots, opts_bytes, opts_decode_from, opts_encodable, DhcpOption,
    DhcpOptions, SpecDhcpOption, IP_ADDRESS_LEASE_TIME, MESSAGE, MESSAGE_TYPE,
    PARAMETER_REQUEST_LIST, REQUESTED_IP_ADDRESS, SERVER_IDENTIFIER};
use vstd::slice::{slice_subrange, slice_to_vec};

verus! {

pub const MESSAGE_OPERATION_BOOT_REQUEST: u8 = 1;
pub const MESSAGE_OPERATION_BOOT_REPLY: u8 = 2;

pub const HARDWARE_ADDRESS_TYPE_ETHERNET: u8 = 1;

// The four bytes of the fixed magic cookie marking a payload as DHCP.
pub const DHCP_COOKIE_0: u8 = 0x63;
pub const DHCP_COOKIE_1: u8 = 0x82;
pub const DHCP_COOKIE_2: u8 = 0x53;
pub const DHCP_COOKIE_3: u8 = 0x63;

/// `n` zero bytes (none for a negative count).
pub open spec fn zero_seq(n: int) -> Seq<u8> {
    Seq::new(
        if n >= 0 {
            n as nat
        } else {
            0
        },
        |i: int| 0u8,
    )
}

/// The bytes, zero-filled at the end to a total of `n`.
pub open spec fn padded(s: Seq<u8>, n: int) -> Seq<u8> {
    s + zero_seq(n - s.len())
}

/// The bytes, with each zero or non-ASCII byte dropped.
pub open spec fn text_filter(s: Seq<u8>) -> Seq<u8>
    decreases s.len(),
{
    if s.len() == 0 {
        Seq::empty()
    } else {
        let rest = text_filter(s.drop_first());
        if s[0] != 0 && s[0] < 128 {
            seq![s[0]] + rest
        } else {
            rest
        }
    }
}

/// Filtering distributes over concatenation.
pub proof fn lemma_text_filter_concat(a: Seq<u8>, b: Seq<u8>)
    ensures
        text_filter(a + b) == text_filter(a) + text_filter(b),
    decreases a.len(),
{
    if a.len() == 0 {
        assert(a + b =~= b);
        assert(text_filter(a) + text_filter(b) =~= text_filter(b));
    } else {
        assert((a + b).drop_first() =~= a.drop_first() + b);
        assert((a + b)[0] == a[0]);
        lemma_text_filter_concat(a.drop_first(), b);
        assert(text_filter(a + b) =~= text_filter(a) + text_filter(b));
    }
}

/// The bytes as text, with each zero or non-ASCII byte dropped.
fn filtered_ascii(data: &[u8]) -> (r: AsciiText)
    ensures
        r@ == text_filter(data@),
        r@.len() <= data@.len(),
        ascii_wf(r@),
{
    let n = data.len();
    let mut v: Vec<u8> = Vec::new();
    proof {
        assert(data@.take(0) =~= Seq::<u8>::empty());
        assert(v@ =~= text_filter(data@.take(0)));
    }
    let mut i: usize = 0;
    while i < n
        invariant
            n == data@.len(),
            0 <= i <= n,
            v@ == text_filter(data@.take(i as int)),
            v@.len() <= i,
            ascii_wf(v@),
        decreases n - i,
    {
        let ghost pre = v@;
        let b = data[i];
        if b != 0 && b < 128 {
            v.push(b);
        }
        proof {
            let single = seq![data@[i as int]];
            assert(data@.take(i + 1) =~= data@.take(i as int) + single);
            lemma_text_filter_concat(data@.take(i as int), single);
            assert(single.drop_first() =~= Seq::<u8>::empty());
            assert(text_filter(Seq::<u8>::empty()) == Seq::<u8>::empty());
            if b != 0 && b < 128 {
                assert(text_filter(single) =~= seq![data@[i as int]]);
                assert(v@ =~= pre + seq![data@[i as int]]);
            } else {
                assert(text_filter(single) =~= Seq::<u8>::empty());
            }
            assert(v@ =~= text_filter(data@.take(i + 1)));
        }
        i += 1;
    }
    proof {
        assert(data@.take(n as int) =~= data@);
    }
    match AsciiText::from_ascii(v) {
        Some(t) => t,
        None => AsciiText::empty(),
    }
}

/// The bytes, zero-filled at the end to the given total length.
pub fn bytes_fill_zeroes(bytes: &[u8], length: u8) -> (r: Vec<u8>)
    requires
        bytes@.len() <= length as int,
    ensures
        r@ == padded(bytes@, length as int),
{
    let mut filled = slice_to_vec(bytes);
    proof {
        assert(filled@ =~= bytes@ + zero_seq(0));
    }
    while filled.len() < length as usize
        invariant
            bytes@.len() <= filled@.len() <= length as int,
            filled@ == bytes@ + zero_seq(filled@.len() - bytes@.len()),
        decreases length as int - filled@.len(),
    {
        let ghost pre = filled@;
        filled.push(0);
        proof {
            assert(filled@ =~= bytes@ + zero_seq(filled@.len() - bytes@.len()));
        }
    }
    proof {
        assert(filled@ =~= padded(bytes@, length as int));
    }
    filled
}

/// Hardware Address type
#[derive(Clone, Copy, Debug, PartialEq, Eq, Structural)]
pub enum HardwareAddressType {
    Ethernet,
}

pub open spec fn hardware_type_byte(t: HardwareAddressType) -> u8 {
    match t {
        HardwareAddressType::Ethernet => HARDWARE_ADDRESS_TYPE_ETHERNET,
    }
}

impl HardwareAddressType {
    /// Only 1, Ethernet, is accepted.
    pub fn from_byte(value: u8) -> (r: DhcpResult<Self>)
        ensures
            value == HARDWARE_ADDRESS_TYPE_ETHERNET ==> r == Ok::<Self, DhcpError>(
                HardwareAddressType::Ethernet,
            ),
            value != HARDWARE_ADDRESS_TYPE_ETHERNET ==> r == Err::<Self, DhcpError>(
                DhcpError::HardwareAddressTypeParseError,
            ),
    {
        if value == HARDWARE_ADDRESS_TYPE_ETHERNET {
            Ok(HardwareAddressType::Ethernet)
        } else {
            Err(DhcpError::HardwareAddressTypeParseError)
        }
    }

    pub fn to_byte(&self) -> (r: u8)
        ensures
            r == hardware_type_byte(*self),
    {
        match self {
            HardwareAddressType::Ethernet => HARDWARE_ADDRESS_TYPE_ETHERNET,
        }
    }
}

/// Message Operation
///
/// Describes `op` field in dhcp packet.
///
/// Client uses [`MessageOperation::BootRequest`] and Server uses
/// [`MessageOperation::BootReply`]
#[derive(Clone, Copy, Debug, PartialEq, Eq, Structural)]
pub enum MessageOperation {
    BootRequest,
    BootReply,
}

pub open spec fn operation_byte(o: MessageOperation) -> u8 {
    match o {
        MessageOperation::BootRequest => MESSAGE_OPERATION_BOOT_REQUEST,
        MessageOperation::BootReply => MESSAGE_OPERATION_BOOT_REPLY,
    }
}

impl MessageOperation {
    /// 1 is a request, 2 a reply; anything else is an error.
    pub fn from_byte(value: u8) -> (r: DhcpResult<Self>)
        ensures
            value == MESSAGE_OPERATION_BOOT_REQUEST ==> r == Ok::<Self, DhcpError>(
                MessageOperation::BootRequest,
            ),
            value == MESSAGE_OPERATION_BOOT_REPLY ==> r == Ok::<Self, DhcpError>(
                MessageOperation::BootReply,
            ),
            value != MESSAGE_OPERATION_BOOT_REQUEST && value != MESSAGE_OPERATION_BOOT_REPLY ==> r
                == Err::<Self, DhcpError>(DhcpError::MessageOperationInvalid),
    {
        if value == MESSAGE_OPERATION_BOOT_REQUEST {
            Ok(MessageOperation::BootRequest)
        } else if value == MESSAGE_OPERATION_BOOT_REPLY {
            Ok(MessageOperation::BootReply)
        } else {
            Err(DhcpError::MessageOperationInvalid)
        }
    }

    pub fn to_byte(&self) -> (r: u8)
        ensures
            r == operation_byte(*self),
    {
        match self {
            MessageOperation::BootRequest => MESSAGE_OPERATION_BOOT_REQUEST,
            MessageOperation::BootReply => MESSAGE_OPERATION_BOOT_REPLY,
        }
    }
}

/// Transmission behaviour during dhcp communication.
///
/// Client uses broadcast until network configuration is done.
#[derive(Clone, Copy, Debug, PartialEq, Eq, Structural)]
pub enum Flags {
    Unicast,
    Broadcast,
}

pub open spec fn flags_bytes(f: Flags) -> Seq<u8> {
    match f {
        Flags::Unicast => seq![0u8, 0u8],
        Flags::Broadcast => seq![0u8, 1u8],
    }
}

impl Flags {
    /// `[0, 0]` is unicast, `[0, 1]` broadcast; anything else is an error.
    pub fn from_bytes(hi: u8, lo: u8) -> (r: DhcpResult<Self>)
        ensures
            hi == 0 && lo == 0 ==> r == Ok::<Self, DhcpError>(Flags::Unicast),
            hi == 0 && lo == 1 ==> r == Ok::<Self, DhcpError>(Flags::Broadcast),
            hi != 0 || lo > 1 ==> r == Err::<Self, DhcpError>(DhcpError::InvalidFlag),
    {
        if hi == 0 && lo == 0 {
            Ok(Flags::Unicast)
        } else if hi == 0 && lo == 1 {
            Ok(Flags::Broadcast)
        } else {
            Err(DhcpError::InvalidFlag)
        }
    }

    pub fn to_bytes(&self) -> (r: (u8, u8))
        ensures
            seq![r.0, r.1] == flags_bytes(*self),
    {
        match self {
            Flags::Unicast => (0, 0),
            Flags::Broadcast => (0, 1),
        }
    }
}

/// Dhcp uses always `Dhcp` cookie.
#[derive(Clone, Copy, Debug, PartialEq, Eq, Structural)]
pub enum Cookie {
    Dhcp,
}

pub open spec fn cookie_bytes(c: Cookie) -> Seq<u8> {
    seq![DHCP_COOKIE_0, DHCP_COOKIE_1, DHCP_COOKIE_2, DHCP_COOKIE_3]
}

/// The four bytes are the fixed DHCP marker.
pub open spec fn is_dhcp_cookie(b0: u8, b1: u8, b2: u8, b3: u8) -> bool {
    b0 == DHCP_COOKIE_0 && b1 == DHCP_COOKIE_1 && b2 == DHCP_COOKIE_2 && b3 == DHCP_COOKIE_3
}

impl Cookie {
    /// Only the fixed DHCP marker is accepted; any other four bytes are a
    /// cookie error.
    pub fn from_bytes(b0: u8, b1: u8, b2: u8, b3: u8) -> (r: DhcpResult<Self>)
        ensures
            is_dhcp_cookie(b0, b1, b2, b3) ==> r == Ok::<Self, DhcpError>(Cookie::Dhcp),
            !is_dhcp_cookie(b0, b1, b2, b3) ==> r == Err::<Self, DhcpError>(
                DhcpError::CookieParseError,
            ),
    {
        if b0 == DHCP_COOKIE_0 && b1 == DHCP_COOKIE_1 && b2 == DHCP_COOKIE_2 && b3
            == DHCP_COOKIE_3 {
            Ok(Cookie::Dhcp)
        } else {
            Err(DhcpError::CookieParseError)
        }
    }

    pub fn to_bytes(&self) -> (r: Vec<u8>)
        ensures
            r@ == cookie_bytes(*self),
    {
        let mut r: Vec<u8> = Vec::new();
        r.push(DHCP_COOKIE_0);
        r.push(DHCP_COOKIE_1);
        r.push(DHCP_COOKIE_2);
        r.push(DHCP_COOKIE_3);
        proof {
            assert(r@ =~= cookie_bytes(*self));
        }
        r
    }
}


// ---------------------------------------------------------------------------
// The packet
// ---------------------------------------------------------------------------

/// Represents a complete DHCP packet.
///
/// Use [`DhcpPacket::from_bytes`] to parse a received datagram and
/// [`DhcpPacket::to_bytes`] to serialize one for transmission.
///
/// Construct a new packet from scratch with [`DhcpPacket::new`]
#[derive(Clone, Debug)]
pub struct DhcpPacket {
    pub operation: MessageOperation,
    pub hardware_type: HardwareAddressType,
    pub hops: u8,
    pub transaction_id: u32,
    pub seconds: u16,
    pub flags: Flags,
    pub client: Ipv4Address,
    pub your: Ipv4Address,
    pub server: Ipv4Address,
    pub gateway: Ipv4Address,
    pub client_hardware: MacAddress,
    pub server_hostname: AsciiText,
    pub filename: AsciiText,
    pub cookie: Cookie,
    pub options: DhcpOptions,
}

/// The hardware address bytes, zero-filled to the 16-byte field.
pub open spec fn chaddr_bytes(m: Seq<u8>) -> Seq<u8> {
    padded(m, 16)
}

/// Bytes 0 through 19 of the wire layout: operation, hardware type and
/// length, hop count, transaction id, seconds, flags, client and "your"
/// addresses.
pub open spec fn packet_prefix(p: DhcpPacket) -> Seq<u8> {
    seq![
        operation_byte(p.operation),
        hardware_type_byte(p.hardware_type),
        p.client_hardware@.len() as u8,
        p.hops,
    ] + u32_payload(p.transaction_id) + u16_payload(p.seconds) + flags_bytes(p.flags)
        + ipv4_payload(p.client) + ipv4_payload(p.your)
}

/// Bytes 24 on: gateway address, hardware address field, hostname and
/// filename fields, cookie, and the option area.
pub open spec fn packet_rest(p: DhcpPacket) -> Seq<u8> {
    ipv4_payload(p.gateway) + chaddr_bytes(p.client_hardware@) + padded(p.server_hostname@, 64)
        + padded(p.filename@, 128) + cookie_bytes(p.cookie) + opts_bytes(p.options@)
}

/// The packet's whole wire form: 240 fixed-layout header bytes, the server
/// address standing at offsets 20 through 23, then the option area.
pub open spec fn packet_bytes(p: DhcpPacket) -> Seq<u8> {
    packet_prefix(p) + ipv4_payload(p.server) + packet_rest(p)
}

/// The header error a byte buffer decodes to, if any, in the order the
/// fields are read: total length, operation, hardware type, flags, hardware
/// address length, cookie, then the option area.
pub open spec fn packet_decode_err(d: Seq<u8>) -> Option<DhcpError> {
    if d.len() < 240 {
        Some(DhcpError::InvalidPacketLength(d.len() as u8))
    } else if d[0] != MESSAGE_OPERATION_BOOT_REQUEST && d[0] != MESSAGE_OPERATION_BOOT_REPLY {
        Some(DhcpError::MessageOperationInvalid)
    } else if d[1] != HARDWARE_ADDRESS_TYPE_ETHERNET {
        Some(DhcpError::HardwareAddressTypeParseError)
    } else if d[10] != 0 || d[11] > 1 {
        Some(DhcpError::InvalidFlag)
    } else if d[2] != 6 && d[2] != 8 {
        Some(DhcpError::HardwareAddressParseError)
    } else if !is_dhcp_cookie(d[236], d[237], d[238], d[239]) {
        Some(DhcpError::CookieParseError)
    } else {
        match opts_decode_from(d.subrange(240, d.len() as int), 0, empty_slots()) {
            Ok(_) => None,
            Err(e) => Some(e),
        }
    }
}

/// The packet is the decoding of the byte buffer: each header field read at
/// its fixed offset, the hardware address as many octets as byte 2 says,
/// text fields with zero and non-ASCII bytes dropped, and the option area
/// parsed as a stream.
pub open spec fn packet_decoded(p: DhcpPacket, d: Seq<u8>) -> bool {
    &&& p.operation == (if d[0] == MESSAGE_OPERATION_BOOT_REQUEST {
        MessageOperation::BootRequest
    } else {
        MessageOperation::BootReply
    })
    &&& p.hardware_type == HardwareAddressType::Ethernet
    &&& p.hops == d[3]
    &&& p.transaction_id == be32(d[4], d[5], d[6], d[7])
    &&& p.seconds == be16(d[8], d[9])
    &&& p.flags == (if d[11] == 0 {
        Flags::Unicast
    } else {
        Flags::Broadcast
    })
    &&& p.client == ipv4_at(d, 12)
    &&& p.your == ipv4_at(d, 16)
    &&& p.server == ipv4_at(d, 20)
    &&& p.gateway == ipv4_at(d, 24)
    &&& p.client_hardware@ == d.subrange(28, 28 + d[2] as int)
    &&& p.server_hostname@ == text_filter(d.subrange(44, 108))
    &&& p.filename@ == text_filter(d.subrange(108, 236))
    &&& p.cookie == Cookie::Dhcp
    &&& opts_decode_from(d.subrange(240, d.len() as int), 0, empty_slots()) matches Ok(s)
        && p.options@ == s
}

impl DhcpPacket {
    /// The parts have their wire-legal sizes: a 6- or 8-octet hardware
    /// address, text fitting the 64- and 128-byte fields, and a proper,
    /// encodable option set.
    pub open spec fn wf(&self) -> bool {
        &&& mac_wf(self.client_hardware@)
        &&& self.server_hostname@.len() <= 64
        &&& self.filename@.len() <= 128
        &&& self.options.wf()
        &&& opts_encodable(self.options@)
    }

    pub fn new(
        operation: MessageOperation,
        hardware_type: HardwareAddressType,
        hops: u8,
        transaction_id: u32,
        seconds: u16,
        flags: Flags,
        client: Ipv4Address,
        your: Ipv4Address,
        server: Ipv4Address,
        gateway: Ipv4Address,
        client_hardware: MacAddress,
        server_hostname: AsciiText,
        filename: AsciiText,
        options: DhcpOptions,
    ) -> (r: DhcpPacket)
        requires
            mac_wf(client_hardware@),
            server_hostname@.len() <= 64,
            filename@.len() <= 128,
            options.wf(),
            opts_encodable(options@),
        ensures
            r == (DhcpPacket {
                operation,
                hardware_type,
                hops,
                transaction_id,
                seconds,
                flags,
                client,
                your,
                server,
                gateway,
                client_hardware,
                server_hostname,
                filename,
                cookie: Cookie::Dhcp,
                options,
            }),
            r.wf(),
    {
        DhcpPacket {
            operation,
            hardware_type,
            hops,
            transaction_id,
            seconds,
            flags,
            client,
            your,
            server,
            gateway,
            client_hardware,
            server_hostname,
            filename,
            cookie: Cookie::Dhcp,
            options,
        }
    }

    /* dhcp packet fields */

    pub fn operation(&self) -> (r: &MessageOperation)
        ensures
            r == self.operation,
    {
        &self.operation
    }

    pub fn hardware_type(&self) -> (r: &HardwareAddressType)
        ensures
            r == self.hardware_type,
    {
        &self.hardware_type
    }

    pub fn hops(&self) -> (r: u8)
        ensures
            r == self.hops,
    {
        self.hops
    }

    pub fn transaction_id(&self) -> (r: u32)
        ensures
            r == self.transaction_id,
    {
        self.transaction_id
    }

    pub fn seconds(&self) -> (r: u16)
        ensures
            r == self.seconds,
    {
        self.seconds
    }

    pub fn flags(&self) -> (r: &Flags)
        ensures
            r == self.flags,
    {
        &self.flags
    }

    pub fn client(&self) -> (r: &Ipv4Address)
        ensures
            r == self.client,
    {
        &self.client
    }

    pub fn your(&self) -> (r: &Ipv4Address)
        ensures
            r == self.your,
    {
        &self.your
    }

    pub fn server(&self) -> (r: &Ipv4Address)
        ensures
            r == self.server,
    {
        &self.server
    }

    pub fn gateway(&self) -> (r: &Ipv4Address)
        ensures
            r == self.gateway,
    {
        &self.gateway
    }

    pub fn client_hardware(&self) -> (r: &MacAddress)
        ensures
            r == self.client_hardware,
    {
        &self.client_hardware
    }

    pub fn hostname(&self) -> (r: &AsciiText)
        ensures
            r == self.server_hostname,
    {
        &self.server_hostname
    }

    pub fn filename(&self) -> (r: &AsciiText)
        ensures
            r == self.filename,
    {
        &self.filename
    }

    pub fn cookie(&self) -> (r: &Cookie)
        ensures
            r == self.cookie,
    {
        &self.cookie
    }

    pub fn option(&self, tag: u8) -> (r: Option<&DhcpOption>)
        requires
            self.options.wf(),
        ensures
            r matches Some(o) ==> self.options@[tag as int] == Some(o@),
            r is None ==> self.options@[tag as int] is None,
    {
        self.options.option(tag)
    }

    pub fn options(&self) -> (r: &DhcpOptions)
        ensures
            r == self.options,
    {
        &self.options
    }

    pub fn options_mut(&mut self) -> (r: &mut DhcpOptions)
        ensures
            *r == old(self).options,
            *final(self) == (DhcpPacket { options: *final(r), ..*old(self) }),
    {
        &mut self.options
    }

    /* dhcp control options */

    pub fn client_requested_ip(&self) -> (r: Option<&DhcpOption>)
        requires
            self.options.wf(),
        ensures
            r matches Some(o) ==> self.options@[REQUESTED_IP_ADDRESS as int] == Some(o@),
            r is None ==> self.options@[REQUESTED_IP_ADDRESS as int] is None,
    {
        self.option(REQUESTED_IP_ADDRESS)
    }

    pub fn client_lease_time(&self) -> (r: Option<&DhcpOption>)
        requires
            self.options.wf(),
        ensures
            r matches Some(o) ==> self.options@[IP_ADDRESS_LEASE_TIME as int] == Some(o@),
            r is None ==> self.options@[IP_ADDRESS_LEASE_TIME as int] is None,
    {
        self.option(IP_ADDRESS_LEASE_TIME)
    }

    pub fn message_type(&self) -> (r: Option<&DhcpOption>)
        requires
            self.options.wf(),
        ensures
            r matches Some(o) ==> self.options@[MESSAGE_TYPE as int] == Some(o@),
            r is None ==> self.options@[MESSAGE_TYPE as int] is None,
    {
        self.option(MESSAGE_TYPE)
    }

    pub fn server_identifier(&self) -> (r: Option<&DhcpOption>)
        requires
            self.options.wf(),
        ensures
            r matches Some(o) ==> self.options@[SERVER_IDENTIFIER as int] == Some(o@),
            r is None ==> self.options@[SERVER_IDENTIFIER as int] is None,
    {
        self.option(SERVER_IDENTIFIER)
    }

    pub fn client_parameter_request_list(&self) -> (r: Option<&DhcpOption>)
        requires
            self.options.wf(),
        ensures
            r matches Some(o) ==> self.options@[PARAMETER_REQUEST_LIST as int] == Some(o@),
            r is None ==> self.options@[PARAMETER_REQUEST_LIST as int] is None,
    {
        self.option(PARAMETER_REQUEST_LIST)
    }

    pub fn message(&self) -> (r: Option<&DhcpOption>)
        requires
            self.options.wf(),
        ensures
            r matches Some(o) ==> self.options@[MESSAGE as int] == Some(o@),
            r is None ==> self.options@[MESSAGE as int] is None,
    {
        self.option(MESSAGE)
    }

    /// The packet's wire form, byte-exact per the fixed layout.
    pub fn to_bytes(&self) -> (r: Vec<u8>)
        requires
            self.wf(),
        ensures
            r@ == packet_bytes(*self),
    {
        let mut r: Vec<u8> = Vec::new();
        r.push(self.operation.to_byte());
        r.push(self.hardware_type.to_byte());
        r.push(self.client_hardware.size());
        r.push(self.hops);
        let ghost head = seq![
            operation_byte(self.operation),
            hardware_type_byte(self.hardware_type),
            self.client_hardware@.len() as u8,
            self.hops,
        ];
        proof {
            assert(r@ =~= head);
        }
        push_u32_be(&mut r, self.transaction_id);
        push_u16_be(&mut r, self.seconds);
        let (f0, f1) = self.flags.to_bytes();
        let ghost mid = r@;
        r.push(f0);
        r.push(f1);
        proof {
            assert(r@ =~= mid + flags_bytes(self.flags));
        }
        push_ipv4(&mut r, self.client);
        push_ipv4(&mut r, self.your);
        proof {
            assert(r@ =~= packet_prefix(*self));
        }
        push_ipv4(&mut r, self.server);
        push_ipv4(&mut r, self.gateway);
        let chaddr = bytes_fill_zeroes(self.client_hardware.as_bytes(), 16);
        push_bytes(&mut r, chaddr.as_slice());
        let hostname = bytes_fill_zeroes(self.server_hostname.as_bytes(), 64);
        push_bytes(&mut r, hostname.as_slice());
        let filename = bytes_fill_zeroes(self.filename.as_bytes(), 128);
        push_bytes(&mut r, filename.as_slice());
        let cookie = self.cookie.to_bytes();
        push_bytes(&mut r, cookie.as_slice());
        let options = self.options.to_bytes();
        push_bytes(&mut r, options.as_slice());
        proof {
            assert(r@ =~= packet_bytes(*self));
        }
        r
    }

    /// Parses one received datagram: 240 fixed-layout header bytes, each
    /// field with its own error, then the option area.
    pub fn from_bytes(value: &[u8]) -> (r: DhcpResult<DhcpPacket>)
        ensures
            packet_decode_err(value@) matches Some(e) ==> (r matches Err(e2) && e2 == e),
            packet_decode_err(value@) is None ==> (r matches Ok(p) && packet_decoded(p, value@)
                && p.wf()),
    {
        let n = value.len();
        if n < 240 {
            return Err(DhcpError::InvalidPacketLength(n as u8));
        }
        let operation = match MessageOperation::from_byte(value[0]) {
            Ok(o) => o,
            Err(e) => {
                return Err(e);
            },
        };
        let hardware_type = match HardwareAddressType::from_byte(value[1]) {
            Ok(t) => t,
            Err(e) => {
                return Err(e);
            },
        };
        let hops = value[3];
        let transaction_id: u32 = (value[4] as u32) * 0x1000000 + (value[5] as u32) * 0x10000 + (
        value[6] as u32) * 0x100 + (value[7] as u32);
        let seconds: u16 = (value[8] as u16) * 256 + (value[9] as u16);
        let flags = match Flags::from_bytes(value[10], value[11]) {
            Ok(f) => f,
            Err(e) => {
                return Err(e);
            },
        };
        let client = Ipv4Address::new(value[12], value[13], value[14], value[15]);
        let your = Ipv4Address::new(value[16], value[17], value[18], value[19]);
        let server = Ipv4Address::new(value[20], value[21], value[22], value[23]);
        let gateway = Ipv4Address::new(value[24], value[25], value[26], value[27]);
        let hlen = value[2];
        if hlen != 6 && hlen != 8 {
            return Err(DhcpError::HardwareAddressParseError);
        }
        let mac_bytes = slice_to_vec(slice_subrange(value, 28, 28 + hlen as usize));
        let client_hardware = match MacAddress::from_bytes(mac_bytes) {
            Ok(m) => m,
            Err(e) => {
                return Err(e);
            },
        };
        let server_hostname = filtered_ascii(slice_subrange(value, 44, 108));
        let filename = filtered_ascii(slice_subrange(value, 108, 236));
        let cookie = match Cookie::from_bytes(value[236], value[237], value[238], value[239]) {
            Ok(c) => c,
            Err(e) => {
                return Err(e);
            },
        };
        let options = match DhcpOptions::from_bytes(slice_subrange(value, 240, n)) {
            Ok(o) => o,
            Err(e) => {
                return Err(e);
            },
        };
        Ok(
            DhcpPacket {
                operation,
                hardware_type,
                hops,
                transaction_id,
                seconds,
                flags,
                client,
                your,
                server,
                gateway,
                client_hardware,
                server_hostname,
                filename,
                cookie,
                options,
            },
        )
    }
}


// ---------------------------------------------------------------------------
// Per-server copies and the header round trip
// ---------------------------------------------------------------------------

/// The same packet with only the server address changed.
pub open spec fn spec_with_server(p: DhcpPacket, ip: Ipv4Address) -> DhcpPacket {
    DhcpPacket { server: ip, ..p }
}

impl DhcpPacket {
    /// One serialized copy per candidate server address, each differing
    /// from the packet's wire form only in the server field at offsets 20
    /// through 23.
    pub fn into_bytes_with_server_ips(self, ips: Vec<Ipv4Address>) -> (r: Vec<
        (Ipv4Address, Vec<u8>),
    >)
        requires
            self.wf(),
        ensures
            r@.len() == ips@.len(),
            forall|k: int| 0 <= k < ips@.len() ==> (#[trigger] r@[k]).0 == ips@[k] && r@[k].1@
                == packet_bytes(spec_with_server(self, ips@[k])),
    {
        let base = self.to_bytes();
        let mut r: Vec<(Ipv4Address, Vec<u8>)> = Vec::new();
        let n = ips.len();
        let mut k: usize = 0;
        while k < n
            invariant
                n == ips@.len(),
                0 <= k <= n,
                base@ == packet_bytes(self),
                r@.len() == k,
                forall|j: int| 0 <= j < k ==> (#[trigger] r@[j]).0 == ips@[j] && r@[j].1@
                    == packet_bytes(spec_with_server(self, ips@[j])),
            decreases n - k,
        {
            let ip = ips[k];
            let mut b = crate::addr::copy_vec(&base);
            b.set(20, ip.o0);
            b.set(21, ip.o1);
            b.set(22, ip.o2);
            b.set(23, ip.o3);
            proof {
                let q = spec_with_server(self, ip);
                assert(packet_prefix(q) =~= packet_prefix(self));
                assert(packet_rest(q) =~= packet_rest(self));
                assert(b@ =~= packet_bytes(q));
            }
            r.push((ip, b));
            k += 1;
        }
        r
    }
}

/// The first `k` bytes are non-zero ASCII and the rest are zero.
pub open spec fn ascii_run_then_zeros(s: Seq<u8>, k: int) -> bool {
    &&& 0 <= k <= s.len()
    &&& forall|j: int| #![auto] 0 <= j < k ==> s[j] != 0 && s[j] < 128
    &&& forall|j: int| #![auto] k <= j < s.len() ==> s[j] == 0
}

/// An ASCII run followed only by zero bytes: the shape in which the wire
/// layout stores the hostname and filename fields.
pub open spec fn nul_padded_ascii(s: Seq<u8>) -> bool {
    exists|k: int| ascii_run_then_zeros(s, k)
}

/// Filtering a field whose first `k` bytes are non-zero ASCII and whose
/// tail is zero keeps exactly the first `k` bytes.
pub proof fn lemma_text_filter_prefix(s: Seq<u8>, k: int)
    requires
        0 <= k <= s.len(),
        forall|j: int| 0 <= j < k ==> s[j] != 0 && s[j] < 128,
        forall|j: int| k <= j < s.len() ==> s[j] == 0,
    ensures
        text_filter(s) == s.take(k),
    decreases s.len(),
{
    if s.len() == 0 {
        assert(text_filter(s) =~= s.take(k));
    } else if k == 0 {
        lemma_text_filter_prefix(s.drop_first(), 0);
        assert(s.drop_first().take(0) =~= Seq::<u8>::empty());
        assert(text_filter(s) =~= s.take(0));
    } else {
        lemma_text_filter_prefix(s.drop_first(), k - 1);
        assert(seq![s[0]] + s.drop_first().take(k - 1) =~= s.take(k));
        assert(text_filter(s) =~= s.take(k));
    }
}

/// A NUL-padded ASCII field survives the decode-side filtering and the
/// encode-side zero fill unchanged.
pub proof fn lemma_text_filter_nul_padded(s: Seq<u8>)
    requires
        nul_padded_ascii(s),
    ensures
        padded(text_filter(s), s.len() as int) == s,
        text_filter(s).len() <= s.len(),
{
    let k = choose|k: int| ascii_run_then_zeros(s, k);
    lemma_text_filter_prefix(s, k);
    assert(padded(s.take(k), s.len() as int) =~= s);
}

/// Decoding a 240-byte buffer with no options and re-encoding the packet
/// reproduces all 240 bytes exactly. The buffer's text fields must be
/// NUL-padded ASCII and the hardware-address field's tail zero-filled, as
/// the wire layout prescribes: a stray byte there is dropped by decoding
/// and cannot be restored.
pub proof fn lemma_header_round_trip(p: DhcpPacket, d: Seq<u8>)
    requires
        d.len() == 240,
        packet_decode_err(d) is None,
        packet_decoded(p, d),
        forall|i: int| 28 + d[2] <= i < 44 ==> d[i] == 0,
        nul_padded_ascii(d.subrange(44, 108)),
        nul_padded_ascii(d.subrange(108, 236)),
    ensures
        packet_bytes(p) == d,
{
    lemma_be32_bytes(d[4], d[5], d[6], d[7]);
    lemma_be16_bytes(d[8], d[9]);
    let hn = d.subrange(44, 108);
    lemma_text_filter_nul_padded(hn);
    let fnm = d.subrange(108, 236);
    lemma_text_filter_nul_padded(fnm);
    assert(d.subrange(240, 240) =~= Seq::<u8>::empty());
    assert(opts_decode_from(Seq::<u8>::empty(), 0, empty_slots()) == Ok::<
        Seq<Option<SpecDhcpOption>>,
        DhcpError,
    >(empty_slots()));
    assert(p.options@ == empty_slots());
    crate::option::lemma_opts_bytes_empty(empty_slots(), 0);
    assert(packet_prefix(p) =~= d.subrange(0, 20));
    assert(ipv4_payload(p.server) =~= d.subrange(20, 24));
    assert(chaddr_bytes(p.client_hardware@) =~= d.subrange(28, 44));
    assert(padded(p.server_hostname@, 64) =~= hn);
    assert(padded(p.filename@, 128) =~= fnm);
    assert(packet_rest(p) =~= d.subrange(24, 240));
    assert(packet_bytes(p) =~= d);
}

} // verus!


