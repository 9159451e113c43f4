use vstd::prelude::*;

use crate::addr::{mac_wf, AsciiText, Ipv4Address, MacAddress};
use crate::dhcp::{packet_bytes, packet_decode_err, packet_decoded, DhcpPacket, Flags,
    HardwareAddressType, MessageOperation};
use crate::error::{DhcpError, DhcpResult};
use crate::option::{empty_slots, lemma_merge_encodable, opts_decode_from, opts_encodable,
    spec_merge, upsert_all,
    ClientIdentifier, DhcpOption, DhcpOptions, MessageType, SpecDhcpOption, CLIENT_IDENTIFIER,
    IP_ADDRESS_LEASE_TIME, MAXIMUM_DHCP_MESSAGE_SIZE, MESSAGE, MESSAGE_TYPE,
    PARAMETER_REQUEST_LIST, REQUESTED_IP_ADDRESS, SERVER_IDENTIFIER, VENDOR_CLASS_IDENTIFIER};

verus! {

/// Relies on rand::random to draw a fresh transaction id; nothing is
/// assumed of the value drawn.
#[verifier::external_body]
fn random_u32() -> u32 {
    rand::random()
}

/// The slots with the option placed in its tag's slot, when one is given.
pub open spec fn maybe_update(
    s: Seq<Option<SpecDhcpOption>>,
    tag: u8,
    o: Option<SpecDhcpOption>,
) -> Seq<Option<SpecDhcpOption>> {
    match o {
        Some(v) => s.update(tag as int, Some(v)),
        None => s,
    }
}

pub open spec fn requested_ip_opt(x: Option<Ipv4Address>) -> Option<SpecDhcpOption> {
    match x {
        Some(ip) => Some(SpecDhcpOption::RequestedIpAddress(ip)),
        None => None,
    }
}

pub open spec fn lease_opt(x: Option<u32>) -> Option<SpecDhcpOption> {
    match x {
        Some(v) => Some(SpecDhcpOption::IpAddressLeaseTime(v)),
        None => None,
    }
}

pub open spec fn client_id_opt(x: Option<ClientIdentifier>) -> Option<SpecDhcpOption> {
    match x {
        Some(c) => Some(SpecDhcpOption::ClientIdentifier(c@)),
        None => None,
    }
}

pub open spec fn vendor_class_opt(x: Option<Vec<u8>>) -> Option<SpecDhcpOption> {
    match x {
        Some(v) => Some(SpecDhcpOption::VendorClassIdentifier(v@)),
        None => None,
    }
}

pub open spec fn param_list_opt(x: Option<Vec<u8>>) -> Option<SpecDhcpOption> {
    match x {
        Some(v) => Some(SpecDhcpOption::ParameterRequestList(v@)),
        None => None,
    }
}

pub open spec fn max_size_opt(x: Option<u16>) -> Option<SpecDhcpOption> {
    match x {
        Some(v) => Some(SpecDhcpOption::MaximumDhcpMessageSize(v)),
        None => None,
    }
}

pub open spec fn message_opt(x: Option<AsciiText>) -> Option<SpecDhcpOption> {
    match x {
        Some(t) => Some(SpecDhcpOption::Message(t@)),
        None => None,
    }
}

pub open spec fn server_id_opt(x: Option<Ipv4Address>) -> Option<SpecDhcpOption> {
    match x {
        Some(ip) => Some(SpecDhcpOption::ServerIdentifier(ip)),
        None => None,
    }
}

/// Represents a Dhcp Packet depending on the message type: Discover.
///
/// Conversation functions are available according to rfc.
pub struct DhcpDiscoverPacket {
    pub packet: DhcpPacket,
}

/// Represents a Dhcp Packet depending on the message type: Offer.
///
/// Conversation functions are available according to rfc.
pub struct DhcpOfferPacket {
    pub packet: DhcpPacket,
}

/// Represents a Dhcp Packet depending on the message type: Request.
///
/// Conversation functions are available according to rfc.
pub struct DhcpRequestPacket {
    pub packet: DhcpPacket,
}

/// Represents a Dhcp Packet depending on the message type: Inform.
///
/// Conversation functions are available according to rfc.
pub struct DhcpInformPacket {
    pub packet: DhcpPacket,
}

/// Represents a Dhcp Packet depending on the message type: Release.
///
/// Conversation functions are available according to rfc.
pub struct DhcpReleasePacket {
    pub packet: DhcpPacket,
}

/// Represents a Dhcp Packet depending on the message type: Decline.
///
/// Conversation functions are available according to rfc.
pub struct DhcpDeclinePacket {
    pub packet: DhcpPacket,
}

/// Represents a Dhcp Packet depending on the message type: Ack.
///
/// Conversation functions are available according to rfc.
pub struct DhcpAckPacket {
    pub packet: DhcpPacket,
}

/// Represents a Dhcp Packet depending on the message type: Nak.
///
/// Conversation functions are available according to rfc.
pub struct DhcpNakPacket {
    pub packet: DhcpPacket,
}

impl DhcpDiscoverPacket {
    pub fn packet(&self) -> (r: &DhcpPacket)
        ensures
            r == self.packet,
    {
        &self.packet
    }
}

impl DhcpOfferPacket {
    pub fn packet(&self) -> (r: &DhcpPacket)
        ensures
            r == self.packet,
    {
        &self.packet
    }
}

impl DhcpRequestPacket {
    pub fn packet(&self) -> (r: &DhcpPacket)
        ensures
            r == self.packet,
    {
        &self.packet
    }
}

impl DhcpInformPacket {
    pub fn packet(&self) -> (r: &DhcpPacket)
        ensures
            r == self.packet,
    {
        &self.packet
    }
}

impl DhcpReleasePacket {
    pub fn packet(&self) -> (r: &DhcpPacket)
        ensures
            r == self.packet,
    {
        &self.packet
    }
}

impl DhcpDeclinePacket {
    pub fn packet(&self) -> (r: &DhcpPacket)
        ensures
            r == self.packet,
    {
        &self.packet
    }
}

impl DhcpAckPacket {
    pub fn packet(&self) -> (r: &DhcpPacket)
        ensures
            r == self.packet,
    {
        &self.packet
    }
}

impl DhcpNakPacket {
    pub fn packet(&self) -> (r: &DhcpPacket)
        ensures
            r == self.packet,
    {
        &self.packet
    }
}

/// Represents all dhcp message types with possible conversations.
///
/// Reflects the Client/Server communication.
pub enum DhcpMessaging {
    Discover(DhcpDiscoverPacket),
    Offer(DhcpOfferPacket),
    Request(DhcpRequestPacket),
    Inform(DhcpInformPacket),
    Release(DhcpReleasePacket),
    Decline(DhcpDeclinePacket),
    Ack(DhcpAckPacket),
    Nak(DhcpNakPacket),
}

/// The packet a message wraps, whatever its role.
pub open spec fn spec_packet(m: DhcpMessaging) -> DhcpPacket {
    match m {
        DhcpMessaging::Discover(p) => p.packet,
        DhcpMessaging::Offer(p) => p.packet,
        DhcpMessaging::Request(p) => p.packet,
        DhcpMessaging::Inform(p) => p.packet,
        DhcpMessaging::Release(p) => p.packet,
        DhcpMessaging::Decline(p) => p.packet,
        DhcpMessaging::Ack(p) => p.packet,
        DhcpMessaging::Nak(p) => p.packet,
    }
}

/// The message role named by a packet's MESSAGE_TYPE option, wrapping the
/// packet; a packet with that option absent, or holding anything but a
/// message type, has no role.
pub open spec fn spec_classify(p: DhcpPacket) -> Result<DhcpMessaging, DhcpError> {
    match p.options@[MESSAGE_TYPE as int] {
        Some(SpecDhcpOption::MessageType(t)) => Ok(
            match t {
                MessageType::Discover => DhcpMessaging::Discover(DhcpDiscoverPacket { packet: p }),
                MessageType::Offer => DhcpMessaging::Offer(DhcpOfferPacket { packet: p }),
                MessageType::Request => DhcpMessaging::Request(DhcpRequestPacket { packet: p }),
                MessageType::Inform => DhcpMessaging::Inform(DhcpInformPacket { packet: p }),
                MessageType::Release => DhcpMessaging::Release(DhcpReleasePacket { packet: p }),
                MessageType::Decline => DhcpMessaging::Decline(DhcpDeclinePacket { packet: p }),
                MessageType::Ack => DhcpMessaging::Ack(DhcpAckPacket { packet: p }),
                MessageType::Nak => DhcpMessaging::Nak(DhcpNakPacket { packet: p }),
            },
        ),
        _ => Err(DhcpError::DhcpMessagePacketError),
    }
}

impl DhcpMessaging {
    /// Inner packet
    pub fn packet(&self) -> (r: &DhcpPacket)
        ensures
            r == spec_packet(*self),
    {
        match self {
            DhcpMessaging::Discover(p) => &p.packet,
            DhcpMessaging::Offer(p) => &p.packet,
            DhcpMessaging::Request(p) => &p.packet,
            DhcpMessaging::Inform(p) => &p.packet,
            DhcpMessaging::Release(p) => &p.packet,
            DhcpMessaging::Decline(p) => &p.packet,
            DhcpMessaging::Ack(p) => &p.packet,
            DhcpMessaging::Nak(p) => &p.packet,
        }
    }

    /// The wrapped packet's wire form.
    pub fn to_bytes(self) -> (r: Vec<u8>)
        requires
            spec_packet(self).wf(),
        ensures
            r@ == packet_bytes(spec_packet(self)),
    {
        match self {
            DhcpMessaging::Discover(p) => p.packet.to_bytes(),
            DhcpMessaging::Offer(p) => p.packet.to_bytes(),
            DhcpMessaging::Request(p) => p.packet.to_bytes(),
            DhcpMessaging::Inform(p) => p.packet.to_bytes(),
            DhcpMessaging::Release(p) => p.packet.to_bytes(),
            DhcpMessaging::Decline(p) => p.packet.to_bytes(),
            DhcpMessaging::Ack(p) => p.packet.to_bytes(),
            DhcpMessaging::Nak(p) => p.packet.to_bytes(),
        }
    }

    /// Classifies a packet by its MESSAGE_TYPE option.
    pub fn from_packet(packet: DhcpPacket) -> (r: DhcpResult<DhcpMessaging>)
        requires
            packet.options.wf(),
        ensures
            r == spec_classify(packet),
    {
        let found = match packet.option(MESSAGE_TYPE) {
            Some(DhcpOption::MessageType(t)) => Some(*t),
            _ => None,
        };
        match found {
            Some(MessageType::Discover) => Ok(
                DhcpMessaging::Discover(DhcpDiscoverPacket { packet }),
            ),
            Some(MessageType::Offer) => Ok(DhcpMessaging::Offer(DhcpOfferPacket { packet })),
            Some(MessageType::Request) => Ok(
                DhcpMessaging::Request(DhcpRequestPacket { packet }),
            ),
            Some(MessageType::Inform) => Ok(DhcpMessaging::Inform(DhcpInformPacket { packet })),
            Some(MessageType::Release) => Ok(
                DhcpMessaging::Release(DhcpReleasePacket { packet }),
            ),
            Some(MessageType::Decline) => Ok(
                DhcpMessaging::Decline(DhcpDeclinePacket { packet }),
            ),
            Some(MessageType::Ack) => Ok(DhcpMessaging::Ack(DhcpAckPacket { packet })),
            Some(MessageType::Nak) => Ok(DhcpMessaging::Nak(DhcpNakPacket { packet })),
            None => Err(DhcpError::DhcpMessagePacketError),
        }
    }

    /// Parses one received datagram and classifies it by its MESSAGE_TYPE
    /// option.
    pub fn from_bytes(value: &[u8]) -> (r: DhcpResult<DhcpMessaging>)
        ensures
            packet_decode_err(value@) matches Some(e) ==> (r matches Err(e2) && e2 == e),
            r matches Ok(m) ==> packet_decode_err(value@) is None && packet_decoded(
                spec_packet(m),
                value@,
            ) && spec_packet(m).wf() && spec_classify(spec_packet(m)) == Ok::<
                DhcpMessaging,
                DhcpError,
            >(m),
            packet_decode_err(value@) is None ==> (r matches Err(e) ==> e
                == DhcpError::DhcpMessagePacketError),
            packet_decode_err(value@) is None ==> (opts_decode_from(
                value@.subrange(240, value@.len() as int),
                0,
                empty_slots(),
            ) matches Ok(s) && (s[MESSAGE_TYPE as int] matches Some(o) && o is MessageType ==> r
                is Ok)),
    {
        let packet = match DhcpPacket::from_bytes(value) {
            Ok(p) => p,
            Err(e) => {
                return Err(e);
            },
        };
        Self::from_packet(packet)
    }
}


// ---------------------------------------------------------------------------
// Client-side constructors
// ---------------------------------------------------------------------------

/// The options a Discover carries: the caller's extra options, then the
/// Discover message type, then each supplied negotiation option, and never
/// a server identifier.
pub open spec fn discover_options(
    base: Seq<Option<SpecDhcpOption>>,
    requested: Option<Ipv4Address>,
    lease: Option<u32>,
    cid: Option<ClientIdentifier>,
    vci: Option<Vec<u8>>,
    prl: Option<Vec<u8>>,
    max: Option<u16>,
) -> Seq<Option<SpecDhcpOption>> {
    let s1 = base.update(
        MESSAGE_TYPE as int,
        Some(SpecDhcpOption::MessageType(MessageType::Discover)),
    );
    let s2 = maybe_update(s1, REQUESTED_IP_ADDRESS, requested_ip_opt(requested));
    let s3 = maybe_update(s2, IP_ADDRESS_LEASE_TIME, lease_opt(lease));
    let s4 = maybe_update(s3, CLIENT_IDENTIFIER, client_id_opt(cid));
    let s5 = maybe_update(s4, VENDOR_CLASS_IDENTIFIER, vendor_class_opt(vci));
    let s6 = maybe_update(s5, PARAMETER_REQUEST_LIST, param_list_opt(prl));
    let s7 = maybe_update(s6, MAXIMUM_DHCP_MESSAGE_SIZE, max_size_opt(max));
    s7.update(SERVER_IDENTIFIER as int, None)
}

/// The options an Inform carries: the caller's extra options, then the
/// Inform message type, then each supplied negotiation option.
pub open spec fn inform_options(
    base: Seq<Option<SpecDhcpOption>>,
    cid: Option<ClientIdentifier>,
    vci: Option<Vec<u8>>,
    prl: Option<Vec<u8>>,
    max: Option<u16>,
) -> Seq<Option<SpecDhcpOption>> {
    let s1 = base.update(
        MESSAGE_TYPE as int,
        Some(SpecDhcpOption::MessageType(MessageType::Inform)),
    );
    let s2 = maybe_update(s1, CLIENT_IDENTIFIER, client_id_opt(cid));
    let s3 = maybe_update(s2, VENDOR_CLASS_IDENTIFIER, vendor_class_opt(vci));
    let s4 = maybe_update(s3, PARAMETER_REQUEST_LIST, param_list_opt(prl));
    maybe_update(s4, MAXIMUM_DHCP_MESSAGE_SIZE, max_size_opt(max))
}

impl DhcpMessaging {
    /// Creates a decline packet.
    pub fn decline(client_mac_address: MacAddress) -> (r: DhcpDeclinePacket)
        requires
            mac_wf(client_mac_address@),
        ensures
            r.packet.operation == MessageOperation::BootRequest,
            r.packet.hardware_type == HardwareAddressType::Ethernet,
            r.packet.hops == 0,
            r.packet.seconds == 0,
            r.packet.flags == Flags::Unicast,
            r.packet.client == Ipv4Address::spec_unspecified(),
            r.packet.your == Ipv4Address::spec_unspecified(),
            r.packet.server == Ipv4Address::spec_unspecified(),
            r.packet.gateway == Ipv4Address::spec_unspecified(),
            r.packet.client_hardware == client_mac_address,
            r.packet.server_hostname@ == Seq::<u8>::empty(),
            r.packet.filename@ == Seq::<u8>::empty(),
            r.packet.options@ == empty_slots().update(
                MESSAGE_TYPE as int,
                Some(SpecDhcpOption::MessageType(MessageType::Decline)),
            ),
            r.packet.wf(),
    {
        let mut init: Vec<DhcpOption> = Vec::new();
        init.push(DhcpOption::MessageType(MessageType::Decline));
        let options = DhcpOptions::from_options(init);
        proof {
            let m = SpecDhcpOption::MessageType(MessageType::Decline);
            assert(init@.map_values(|o: DhcpOption| o@) =~= seq![m]);
            assert(seq![m].drop_first() =~= Seq::<SpecDhcpOption>::empty());
            let s1 = empty_slots().update(MESSAGE_TYPE as int, Some(m));
            assert(upsert_all(s1, Seq::<SpecDhcpOption>::empty()) == s1);
            assert(options@ == s1);
            assert(opts_encodable(options@));
        }
        let packet = DhcpPacket::new(
            MessageOperation::BootRequest,
            HardwareAddressType::Ethernet,
            0,
            random_u32(),
            0,
            Flags::Unicast,
            Ipv4Address::unspecified(),
            Ipv4Address::unspecified(),
            Ipv4Address::unspecified(),
            Ipv4Address::unspecified(),
            client_mac_address,
            AsciiText::empty(),
            AsciiText::empty(),
            options,
        );
        DhcpDeclinePacket { packet }
    }

    /// Creates a release packet.
    pub fn release(client_mac_address: MacAddress, client_ip_address: Ipv4Address) -> (r:
        DhcpReleasePacket)
        requires
            mac_wf(client_mac_address@),
        ensures
            r.packet.operation == MessageOperation::BootRequest,
            r.packet.hardware_type == HardwareAddressType::Ethernet,
            r.packet.hops == 0,
            r.packet.seconds == 0,
            r.packet.flags == Flags::Unicast,
            r.packet.client == client_ip_address,
            r.packet.your == Ipv4Address::spec_unspecified(),
            r.packet.server == Ipv4Address::spec_unspecified(),
            r.packet.gateway == Ipv4Address::spec_unspecified(),
            r.packet.client_hardware == client_mac_address,
            r.packet.server_hostname@ == Seq::<u8>::empty(),
            r.packet.filename@ == Seq::<u8>::empty(),
            r.packet.options@ == empty_slots().update(
                MESSAGE_TYPE as int,
                Some(SpecDhcpOption::MessageType(MessageType::Release)),
            ),
            r.packet.wf(),
    {
        let mut init: Vec<DhcpOption> = Vec::new();
        init.push(DhcpOption::MessageType(MessageType::Release));
        let options = DhcpOptions::from_options(init);
        proof {
            let m = SpecDhcpOption::MessageType(MessageType::Release);
            assert(init@.map_values(|o: DhcpOption| o@) =~= seq![m]);
            assert(seq![m].drop_first() =~= Seq::<SpecDhcpOption>::empty());
            let s1 = empty_slots().update(MESSAGE_TYPE as int, Some(m));
            assert(upsert_all(s1, Seq::<SpecDhcpOption>::empty()) == s1);
            assert(options@ == s1);
            assert(opts_encodable(options@));
        }
        let packet = DhcpPacket::new(
            MessageOperation::BootRequest,
            HardwareAddressType::Ethernet,
            0,
            random_u32(),
            0,
            Flags::Unicast,
            client_ip_address,
            Ipv4Address::unspecified(),
            Ipv4Address::unspecified(),
            Ipv4Address::unspecified(),
            client_mac_address,
            AsciiText::empty(),
            AsciiText::empty(),
            options,
        );
        DhcpReleasePacket { packet }
    }

    /// Creates a inform packet.
    #[verifier::rlimit(50)]
    pub fn inform(
        client_mac_address: MacAddress,
        client_ip_address: Ipv4Address,
        client_identifier: Option<ClientIdentifier>,
        vendor_class_identifier: Option<Vec<u8>>,
        parameter_requested_list: Option<Vec<u8>>,
        maximum_accepted_size: Option<u16>,
        broadcast: bool,
        additional_options: DhcpOptions,
    ) -> (r: DhcpInformPacket)
        requires
            mac_wf(client_mac_address@),
            additional_options.wf(),
            opts_encodable(additional_options@),
            client_identifier matches Some(c) ==> c@.data.len() <= 254,
            vendor_class_identifier matches Some(v) ==> v@.len() <= 255,
            parameter_requested_list matches Some(v) ==> v@.len() <= 255,
        ensures
            r.packet.operation == MessageOperation::BootRequest,
            r.packet.hardware_type == HardwareAddressType::Ethernet,
            r.packet.hops == 0,
            r.packet.seconds == 0,
            r.packet.flags == (if broadcast {
                Flags::Broadcast
            } else {
                Flags::Unicast
            }),
            r.packet.client == client_ip_address,
            r.packet.your == Ipv4Address::spec_unspecified(),
            r.packet.server == Ipv4Address::spec_unspecified(),
            r.packet.gateway == Ipv4Address::spec_unspecified(),
            r.packet.client_hardware == client_mac_address,
            r.packet.server_hostname@ == Seq::<u8>::empty(),
            r.packet.filename@ == Seq::<u8>::empty(),
            r.packet.options@ == inform_options(
                additional_options@,
                client_identifier,
                vendor_class_identifier,
                parameter_requested_list,
                maximum_accepted_size,
            ),
            r.packet.wf(),
    {
        let mut options = additional_options;
        options.upsert(DhcpOption::MessageType(MessageType::Inform));
        match client_identifier {
            Some(c) => options.upsert(DhcpOption::ClientIdentifier(c)),
            None => (),
        }
        match vendor_class_identifier {
            Some(v) => options.upsert(DhcpOption::VendorClassIdentifier(v)),
            None => (),
        }
        match parameter_requested_list {
            Some(v) => options.upsert(DhcpOption::ParameterRequestList(v)),
            None => (),
        }
        match maximum_accepted_size {
            Some(v) => options.upsert(DhcpOption::MaximumDhcpMessageSize(v)),
            None => (),
        }
        proof {
            assert(opts_encodable(options@));
        }
        let flag = if broadcast {
            Flags::Broadcast
        } else {
            Flags::Unicast
        };
        let packet = DhcpPacket::new(
            MessageOperation::BootRequest,
            HardwareAddressType::Ethernet,
            0,
            random_u32(),
            0,
            flag,
            client_ip_address,
            Ipv4Address::unspecified(),
            Ipv4Address::unspecified(),
            Ipv4Address::unspecified(),
            client_mac_address,
            AsciiText::empty(),
            AsciiText::empty(),
            options,
        );
        DhcpInformPacket { packet }
    }

    /// Creates a discover packet: always broadcast, with any server
    /// identifier cleared.
    #[verifier::rlimit(50)]
    pub fn discover(
        client_mac_address: MacAddress,
        requested_ip_address: Option<Ipv4Address>,
        lease_time: Option<u32>,
        client_identifier: Option<ClientIdentifier>,
        vendor_class_identifier: Option<Vec<u8>>,
        parameter_requested_list: Option<Vec<u8>>,
        maximum_accepted_size: Option<u16>,
        additional_options: DhcpOptions,
    ) -> (r: DhcpDiscoverPacket)
        requires
            mac_wf(client_mac_address@),
            additional_options.wf(),
            opts_encodable(additional_options@),
            client_identifier matches Some(c) ==> c@.data.len() <= 254,
            vendor_class_identifier matches Some(v) ==> v@.len() <= 255,
            parameter_requested_list matches Some(v) ==> v@.len() <= 255,
        ensures
            r.packet.operation == MessageOperation::BootRequest,
            r.packet.hardware_type == HardwareAddressType::Ethernet,
            r.packet.hops == 0,
            r.packet.seconds == 0,
            r.packet.flags == Flags::Broadcast,
            r.packet.client == Ipv4Address::spec_unspecified(),
            r.packet.your == Ipv4Address::spec_unspecified(),
            r.packet.server == Ipv4Address::spec_unspecified(),
            r.packet.gateway == Ipv4Address::spec_unspecified(),
            r.packet.client_hardware == client_mac_address,
            r.packet.server_hostname@ == Seq::<u8>::empty(),
            r.packet.filename@ == Seq::<u8>::empty(),
            r.packet.options@ == discover_options(
                additional_options@,
                requested_ip_address,
                lease_time,
                client_identifier,
                vendor_class_identifier,
                parameter_requested_list,
                maximum_accepted_size,
            ),
            r.packet.wf(),
    {
        let mut options = additional_options;
        options.upsert(DhcpOption::MessageType(MessageType::Discover));
        match requested_ip_address {
            Some(ip) => options.upsert(DhcpOption::RequestedIpAddress(ip)),
            None => (),
        }
        match lease_time {
            Some(v) => options.upsert(DhcpOption::IpAddressLeaseTime(v)),
            None => (),
        }
        match client_identifier {
            Some(c) => options.upsert(DhcpOption::ClientIdentifier(c)),
            None => (),
        }
        match vendor_class_identifier {
            Some(v) => options.upsert(DhcpOption::VendorClassIdentifier(v)),
            None => (),
        }
        match parameter_requested_list {
            Some(v) => options.upsert(DhcpOption::ParameterRequestList(v)),
            None => (),
        }
        match maximum_accepted_size {
            Some(v) => options.upsert(DhcpOption::MaximumDhcpMessageSize(v)),
            None => (),
        }
        options.remove(SERVER_IDENTIFIER);
        proof {
            assert(opts_encodable(options@));
        }
        let packet = DhcpPacket::new(
            MessageOperation::BootRequest,
            HardwareAddressType::Ethernet,
            0,
            random_u32(),
            0,
            Flags::Broadcast,
            Ipv4Address::unspecified(),
            Ipv4Address::unspecified(),
            Ipv4Address::unspecified(),
            Ipv4Address::unspecified(),
            client_mac_address,
            AsciiText::empty(),
            AsciiText::empty(),
            options,
        );
        DhcpDiscoverPacket { packet }
    }
}


// ---------------------------------------------------------------------------
// Role transitions
// ---------------------------------------------------------------------------

/// The options an Offer carries after a Discover: the Discover's options
/// overwritten by the caller's extras, a human-readable message when given,
/// the four client negotiation options stripped, and server identifier,
/// lease time and the Offer message type set.
pub open spec fn offer_options(
    base: Seq<Option<SpecDhcpOption>>,
    extra: Seq<Option<SpecDhcpOption>>,
    msg: Option<AsciiText>,
    server_ip: Ipv4Address,
    lease: u32,
) -> Seq<Option<SpecDhcpOption>> {
    let s0 = spec_merge(base, extra);
    let s1 = maybe_update(s0, MESSAGE, message_opt(msg));
    let s2 = s1.update(REQUESTED_IP_ADDRESS as int, None);
    let s3 = s2.update(PARAMETER_REQUEST_LIST as int, None);
    let s4 = s3.update(CLIENT_IDENTIFIER as int, None);
    let s5 = s4.update(MAXIMUM_DHCP_MESSAGE_SIZE as int, None);
    let s6 = s5.update(
        SERVER_IDENTIFIER as int,
        Some(SpecDhcpOption::ServerIdentifier(server_ip)),
    );
    let s7 = s6.update(
        IP_ADDRESS_LEASE_TIME as int,
        Some(SpecDhcpOption::IpAddressLeaseTime(lease)),
    );
    s7.update(MESSAGE_TYPE as int, Some(SpecDhcpOption::MessageType(MessageType::Offer)))
}

/// The options an Ack carries after an Inform: the Inform's options
/// overwritten by the caller's extras, the four client negotiation options
/// and any lease time stripped, and server identifier, optional message and
/// vendor class, and the Ack message type set.
pub open spec fn inform_ack_options(
    base: Seq<Option<SpecDhcpOption>>,
    extra: Seq<Option<SpecDhcpOption>>,
    msg: Option<AsciiText>,
    vci: Option<Vec<u8>>,
    server_ip: Ipv4Address,
) -> Seq<Option<SpecDhcpOption>> {
    let s0 = spec_merge(base, extra);
    let s1 = s0.update(REQUESTED_IP_ADDRESS as int, None);
    let s2 = s1.update(PARAMETER_REQUEST_LIST as int, None);
    let s3 = s2.update(CLIENT_IDENTIFIER as int, None);
    let s4 = s3.update(MAXIMUM_DHCP_MESSAGE_SIZE as int, None);
    let s5 = s4.update(IP_ADDRESS_LEASE_TIME as int, None);
    let s6 = s5.update(
        SERVER_IDENTIFIER as int,
        Some(SpecDhcpOption::ServerIdentifier(server_ip)),
    );
    let s7 = maybe_update(s6, MESSAGE, message_opt(msg));
    let s8 = maybe_update(s7, VENDOR_CLASS_IDENTIFIER, vendor_class_opt(vci));
    s8.update(MESSAGE_TYPE as int, Some(SpecDhcpOption::MessageType(MessageType::Ack)))
}

/// The options an Ack carries after a Request: as after an Inform, but the
/// lease time is set rather than stripped.
pub open spec fn request_ack_options(
    base: Seq<Option<SpecDhcpOption>>,
    extra: Seq<Option<SpecDhcpOption>>,
    msg: Option<AsciiText>,
    vci: Option<Vec<u8>>,
    server_ip: Ipv4Address,
    lease: u32,
) -> Seq<Option<SpecDhcpOption>> {
    let s0 = spec_merge(base, extra);
    let s1 = s0.update(REQUESTED_IP_ADDRESS as int, None);
    let s2 = s1.update(PARAMETER_REQUEST_LIST as int, None);
    let s3 = s2.update(CLIENT_IDENTIFIER as int, None);
    let s4 = s3.update(MAXIMUM_DHCP_MESSAGE_SIZE as int, None);
    let s5 = s4.update(
        SERVER_IDENTIFIER as int,
        Some(SpecDhcpOption::ServerIdentifier(server_ip)),
    );
    let s6 = maybe_update(s5, MESSAGE, message_opt(msg));
    let s7 = maybe_update(s6, VENDOR_CLASS_IDENTIFIER, vendor_class_opt(vci));
    let s8 = s7.update(
        IP_ADDRESS_LEASE_TIME as int,
        Some(SpecDhcpOption::IpAddressLeaseTime(lease)),
    );
    s8.update(MESSAGE_TYPE as int, Some(SpecDhcpOption::MessageType(MessageType::Ack)))
}

/// The options a Nak carries after a Request: the negotiation options and
/// lease time stripped; server identifier and the Nak message type set; an
/// optional message, client identifier and vendor class passed through.
pub open spec fn nak_options(
    base: Seq<Option<SpecDhcpOption>>,
    msg: Option<AsciiText>,
    cid: Option<ClientIdentifier>,
    vci: Option<Vec<u8>>,
    server_ip: Ipv4Address,
) -> Seq<Option<SpecDhcpOption>> {
    let s1 = base.update(REQUESTED_IP_ADDRESS as int, None);
    let s2 = s1.update(IP_ADDRESS_LEASE_TIME as int, None);
    let s3 = s2.update(PARAMETER_REQUEST_LIST as int, None);
    let s4 = s3.update(CLIENT_IDENTIFIER as int, None);
    let s5 = s4.update(MAXIMUM_DHCP_MESSAGE_SIZE as int, None);
    let s6 = s5.update(
        SERVER_IDENTIFIER as int,
        Some(SpecDhcpOption::ServerIdentifier(server_ip)),
    );
    let s7 = maybe_update(s6, MESSAGE, message_opt(msg));
    let s8 = s7.update(MESSAGE_TYPE as int, Some(SpecDhcpOption::MessageType(MessageType::Nak)));
    let s9 = maybe_update(s8, CLIENT_IDENTIFIER, client_id_opt(cid));
    maybe_update(s9, VENDOR_CLASS_IDENTIFIER, vendor_class_opt(vci))
}

/// The negotiation options a Request inserts over the caller's extras: the
/// Request message type and each negotiation option that was supplied.
pub open spec fn request_options(
    extra: Seq<Option<SpecDhcpOption>>,
    requested: Option<Ipv4Address>,
    lease: Option<u32>,
    cid: Option<ClientIdentifier>,
    vci: Option<Vec<u8>>,
    server_id: Option<Ipv4Address>,
    prl: Option<Vec<u8>>,
    max: Option<u16>,
) -> Seq<Option<SpecDhcpOption>> {
    let s1 = extra.update(
        MESSAGE_TYPE as int,
        Some(SpecDhcpOption::MessageType(MessageType::Request)),
    );
    let s2 = maybe_update(s1, REQUESTED_IP_ADDRESS, requested_ip_opt(requested));
    let s3 = maybe_update(s2, IP_ADDRESS_LEASE_TIME, lease_opt(lease));
    let s4 = maybe_update(s3, CLIENT_IDENTIFIER, client_id_opt(cid));
    let s5 = maybe_update(s4, VENDOR_CLASS_IDENTIFIER, vendor_class_opt(vci));
    let s6 = maybe_update(s5, SERVER_IDENTIFIER, server_id_opt(server_id));
    let s7 = maybe_update(s6, PARAMETER_REQUEST_LIST, param_list_opt(prl));
    maybe_update(s7, MAXIMUM_DHCP_MESSAGE_SIZE, max_size_opt(max))
}

impl DhcpDiscoverPacket {
    /// Converts a discover packet into an offer packet
    #[verifier::rlimit(50)]
    pub fn into_offer(
        self,
        lease: u32,
        client_ip_address: Ipv4Address,
        server_ip_address: Ipv4Address,
        filename: Option<AsciiText>,
        message: Option<AsciiText>,
        additional_options: DhcpOptions,
    ) -> (r: DhcpOfferPacket)
        requires
            self.packet.wf(),
            additional_options.wf(),
            opts_encodable(additional_options@),
            filename matches Some(t) ==> t@.len() <= 128,
            message matches Some(t) ==> t@.len() <= 255,
        ensures
            r.packet.operation == MessageOperation::BootReply,
            r.packet.hardware_type == HardwareAddressType::Ethernet,
            r.packet.hops == 0,
            r.packet.seconds == 0,
            r.packet.client == Ipv4Address::spec_unspecified(),
            r.packet.your == client_ip_address,
            r.packet.server == server_ip_address,
            r.packet.filename@ == (match filename {
                Some(t) => t@,
                None => Seq::<u8>::empty(),
            }),
            r.packet.transaction_id == self.packet.transaction_id,
            r.packet.flags == self.packet.flags,
            r.packet.gateway == self.packet.gateway,
            r.packet.client_hardware == self.packet.client_hardware,
            r.packet.server_hostname == self.packet.server_hostname,
            r.packet.options@ == offer_options(
                self.packet.options@,
                additional_options@,
                message,
                server_ip_address,
                lease,
            ),
            r.packet.wf(),
    {
        let mut packet = self.packet;
        packet.operation = MessageOperation::BootReply;
        packet.hardware_type = HardwareAddressType::Ethernet;
        packet.hops = 0;
        packet.seconds = 0;
        packet.client = Ipv4Address::unspecified();
        packet.your = client_ip_address;
        packet.server = server_ip_address;
        packet.filename = match filename {
            Some(t) => t,
            None => AsciiText::empty(),
        };
        proof {
            lemma_merge_encodable(packet.options@, additional_options@);
        }
        packet.options.merge(additional_options);
        match message {
            Some(t) => packet.options.upsert(DhcpOption::Message(t)),
            None => (),
        }
        packet.options.remove(REQUESTED_IP_ADDRESS);
        packet.options.remove(PARAMETER_REQUEST_LIST);
        packet.options.remove(CLIENT_IDENTIFIER);
        packet.options.remove(MAXIMUM_DHCP_MESSAGE_SIZE);
        packet.options.upsert(DhcpOption::ServerIdentifier(server_ip_address));
        packet.options.upsert(DhcpOption::IpAddressLeaseTime(lease));
        packet.options.upsert(DhcpOption::MessageType(MessageType::Offer));
        proof {
            assert(opts_encodable(packet.options@));
        }
        DhcpOfferPacket { packet }
    }
}

impl DhcpInformPacket {
    /// Converts an inform packet into an ack packet
    #[verifier::rlimit(50)]
    pub fn into_ack(
        self,
        client_ip_address: Ipv4Address,
        server_ip_address: Ipv4Address,
        filename: Option<AsciiText>,
        server_name: Option<AsciiText>,
        message: Option<AsciiText>,
        vendor_class_identifier: Option<Vec<u8>>,
        additional_options: DhcpOptions,
    ) -> (r: DhcpAckPacket)
        requires
            self.packet.wf(),
            additional_options.wf(),
            opts_encodable(additional_options@),
            filename matches Some(t) ==> t@.len() <= 128,
            server_name matches Some(t) ==> t@.len() <= 64,
            message matches Some(t) ==> t@.len() <= 255,
            vendor_class_identifier matches Some(v) ==> v@.len() <= 255,
        ensures
            r.packet.operation == MessageOperation::BootReply,
            r.packet.hardware_type == HardwareAddressType::Ethernet,
            r.packet.hops == 0,
            r.packet.seconds == 0,
            r.packet.client == client_ip_address,
            r.packet.filename@ == (match filename {
                Some(t) => t@,
                None => Seq::<u8>::empty(),
            }),
            r.packet.server_hostname@ == (match server_name {
                Some(t) => t@,
                None => Seq::<u8>::empty(),
            }),
            r.packet.transaction_id == self.packet.transaction_id,
            r.packet.flags == self.packet.flags,
            r.packet.your == self.packet.your,
            r.packet.server == self.packet.server,
            r.packet.gateway == self.packet.gateway,
            r.packet.client_hardware == self.packet.client_hardware,
            r.packet.options@ == inform_ack_options(
                self.packet.options@,
                additional_options@,
                message,
                vendor_class_identifier,
                server_ip_address,
            ),
            r.packet.wf(),
    {
        let mut packet = self.packet;
        packet.operation = MessageOperation::BootReply;
        packet.hardware_type = HardwareAddressType::Ethernet;
        packet.hops = 0;
        packet.seconds = 0;
        packet.client = client_ip_address;
        packet.filename = match filename {
            Some(t) => t,
            None => AsciiText::empty(),
        };
        packet.server_hostname = match server_name {
            Some(t) => t,
            None => AsciiText::empty(),
        };
        proof {
            lemma_merge_encodable(packet.options@, additional_options@);
        }
        packet.options.merge(additional_options);
        packet.options.remove(REQUESTED_IP_ADDRESS);
        packet.options.remove(PARAMETER_REQUEST_LIST);
        packet.options.remove(CLIENT_IDENTIFIER);
        packet.options.remove(MAXIMUM_DHCP_MESSAGE_SIZE);
        packet.options.remove(IP_ADDRESS_LEASE_TIME);
        packet.options.upsert(DhcpOption::ServerIdentifier(server_ip_address));
        match message {
            Some(t) => packet.options.upsert(DhcpOption::Message(t)),
            None => (),
        }
        match vendor_class_identifier {
            Some(v) => packet.options.upsert(DhcpOption::VendorClassIdentifier(v)),
            None => (),
        }
        packet.options.upsert(DhcpOption::MessageType(MessageType::Ack));
        proof {
            assert(opts_encodable(packet.options@));
        }
        DhcpAckPacket { packet }
    }
}

impl DhcpRequestPacket {
    /// Converts an request packet into an ack packet
    #[verifier::rlimit(50)]
    pub fn into_ack(
        self,
        lease: u32,
        client_ip_address: Ipv4Address,
        server_ip_address: Ipv4Address,
        filename: Option<AsciiText>,
        server_name: Option<AsciiText>,
        message: Option<AsciiText>,
        vendor_class_identifier: Option<Vec<u8>>,
        additional_options: DhcpOptions,
    ) -> (r: DhcpAckPacket)
        requires
            self.packet.wf(),
            additional_options.wf(),
            opts_encodable(additional_options@),
            filename matches Some(t) ==> t@.len() <= 128,
            server_name matches Some(t) ==> t@.len() <= 64,
            message matches Some(t) ==> t@.len() <= 255,
            vendor_class_identifier matches Some(v) ==> v@.len() <= 255,
        ensures
            r.packet.operation == MessageOperation::BootReply,
            r.packet.hardware_type == HardwareAddressType::Ethernet,
            r.packet.hops == 0,
            r.packet.seconds == 0,
            r.packet.client == client_ip_address,
            r.packet.filename@ == (match filename {
                Some(t) => t@,
                None => Seq::<u8>::empty(),
            }),
            r.packet.server_hostname@ == (match server_name {
                Some(t) => t@,
                None => Seq::<u8>::empty(),
            }),
            r.packet.transaction_id == self.packet.transaction_id,
            r.packet.flags == self.packet.flags,
            r.packet.your == self.packet.your,
            r.packet.server == self.packet.server,
            r.packet.gateway == self.packet.gateway,
            r.packet.client_hardware == self.packet.client_hardware,
            r.packet.options@ == request_ack_options(
                self.packet.options@,
                additional_options@,
                message,
                vendor_class_identifier,
                server_ip_address,
                lease,
            ),
            r.packet.wf(),
    {
        let mut packet = self.packet;
        packet.operation = MessageOperation::BootReply;
        packet.hardware_type = HardwareAddressType::Ethernet;
        packet.hops = 0;
        packet.seconds = 0;
        packet.client = client_ip_address;
        packet.filename = match filename {
            Some(t) => t,
            None => AsciiText::empty(),
        };
        packet.server_hostname = match server_name {
            Some(t) => t,
            None => AsciiText::empty(),
        };
        proof {
            lemma_merge_encodable(packet.options@, additional_options@);
        }
        packet.options.merge(additional_options);
        packet.options.remove(REQUESTED_IP_ADDRESS);
        packet.options.remove(PARAMETER_REQUEST_LIST);
        packet.options.remove(CLIENT_IDENTIFIER);
        packet.options.remove(MAXIMUM_DHCP_MESSAGE_SIZE);
        packet.options.upsert(DhcpOption::ServerIdentifier(server_ip_address));
        match message {
            Some(t) => packet.options.upsert(DhcpOption::Message(t)),
            None => (),
        }
        match vendor_class_identifier {
            Some(v) => packet.options.upsert(DhcpOption::VendorClassIdentifier(v)),
            None => (),
        }
        packet.options.upsert(DhcpOption::IpAddressLeaseTime(lease));
        packet.options.upsert(DhcpOption::MessageType(MessageType::Ack));
        proof {
            assert(opts_encodable(packet.options@));
        }
        DhcpAckPacket { packet }
    }

    /// Converts an request packet into a nak packet
    #[verifier::rlimit(50)]
    pub fn into_nak(
        self,
        server_ip_address: Ipv4Address,
        message: Option<AsciiText>,
        client_identifier: Option<ClientIdentifier>,
        vendor_class_identifier: Option<Vec<u8>>,
    ) -> (r: DhcpNakPacket)
        requires
            self.packet.wf(),
            message matches Some(t) ==> t@.len() <= 255,
            client_identifier matches Some(c) ==> c@.data.len() <= 254,
            vendor_class_identifier matches Some(v) ==> v@.len() <= 255,
        ensures
            r.packet.operation == MessageOperation::BootReply,
            r.packet.hardware_type == HardwareAddressType::Ethernet,
            r.packet.hops == 0,
            r.packet.seconds == 0,
            r.packet.your == Ipv4Address::spec_unspecified(),
            r.packet.server == Ipv4Address::spec_unspecified(),
            r.packet.client == self.packet.client,
            r.packet.gateway == self.packet.gateway,
            r.packet.transaction_id == self.packet.transaction_id,
            r.packet.flags == self.packet.flags,
            r.packet.client_hardware == self.packet.client_hardware,
            r.packet.server_hostname == self.packet.server_hostname,
            r.packet.filename == self.packet.filename,
            r.packet.options@ == nak_options(
                self.packet.options@,
                message,
                client_identifier,
                vendor_class_identifier,
                server_ip_address,
            ),
            r.packet.wf(),
    {
        let mut packet = self.packet;
        packet.your = Ipv4Address::unspecified();
        packet.server = Ipv4Address::unspecified();
        packet.operation = MessageOperation::BootReply;
        packet.hops = 0;
        packet.hardware_type = HardwareAddressType::Ethernet;
        packet.seconds = 0;
        packet.options.remove(REQUESTED_IP_ADDRESS);
        packet.options.remove(IP_ADDRESS_LEASE_TIME);
        packet.options.remove(PARAMETER_REQUEST_LIST);
        packet.options.remove(CLIENT_IDENTIFIER);
        packet.options.remove(MAXIMUM_DHCP_MESSAGE_SIZE);
        packet.options.upsert(DhcpOption::ServerIdentifier(server_ip_address));
        match message {
            Some(t) => packet.options.upsert(DhcpOption::Message(t)),
            None => (),
        }
        packet.options.upsert(DhcpOption::MessageType(MessageType::Nak));
        match client_identifier {
            Some(c) => packet.options.upsert(DhcpOption::ClientIdentifier(c)),
            None => (),
        }
        match vendor_class_identifier {
            Some(v) => packet.options.upsert(DhcpOption::VendorClassIdentifier(v)),
            None => (),
        }
        proof {
            assert(opts_encodable(packet.options@));
        }
        DhcpNakPacket { packet }
    }
}

impl DhcpOfferPacket {
    /// Converts an offer packet into an request packet
    #[verifier::rlimit(50)]
    pub fn into_request(
        self,
        client_hardware_address: MacAddress,
        seconds: u16,
        client_ip_address: Option<Ipv4Address>,
        broadcast: bool,
        requested_ip_address: Option<Ipv4Address>,
        lease_time: Option<u32>,
        client_identifier: Option<ClientIdentifier>,
        vendor_class_identifier: Option<Vec<u8>>,
        server_identifier: Option<Ipv4Address>,
        parameter_requested_list: Option<Vec<u8>>,
        maximum_accepted_size: Option<u16>,
        additional_options: DhcpOptions,
    ) -> (r: DhcpRequestPacket)
        requires
            self.packet.wf(),
            mac_wf(client_hardware_address@),
            additional_options.wf(),
            opts_encodable(additional_options@),
            client_identifier matches Some(c) ==> c@.data.len() <= 254,
            vendor_class_identifier matches Some(v) ==> v@.len() <= 255,
            parameter_requested_list matches Some(v) ==> v@.len() <= 255,
        ensures
            r.packet.operation == MessageOperation::BootRequest,
            r.packet.hardware_type == HardwareAddressType::Ethernet,
            r.packet.hops == 0,
            r.packet.seconds == seconds,
            r.packet.flags == (if broadcast {
                Flags::Broadcast
            } else {
                Flags::Unicast
            }),
            r.packet.client_hardware == client_hardware_address,
            r.packet.client == (match client_ip_address {
                Some(ip) => ip,
                None => Ipv4Address::spec_unspecified(),
            }),
            r.packet.your == Ipv4Address::spec_unspecified(),
            r.packet.server == Ipv4Address::spec_unspecified(),
            r.packet.gateway == Ipv4Address::spec_unspecified(),
            r.packet.transaction_id == self.packet.transaction_id,
            r.packet.server_hostname == self.packet.server_hostname,
            r.packet.filename == self.packet.filename,
            r.packet.options@ == spec_merge(
                self.packet.options@,
                request_options(
                    additional_options@,
                    requested_ip_address,
                    lease_time,
                    client_identifier,
                    vendor_class_identifier,
                    server_identifier,
                    parameter_requested_list,
                    maximum_accepted_size,
                ),
            ),
            r.packet.wf(),
    {
        let mut options = additional_options;
        options.upsert(DhcpOption::MessageType(MessageType::Request));
        match requested_ip_address {
            Some(ip) => options.upsert(DhcpOption::RequestedIpAddress(ip)),
            None => (),
        }
        match lease_time {
            Some(v) => options.upsert(DhcpOption::IpAddressLeaseTime(v)),
            None => (),
        }
        match client_identifier {
            Some(c) => options.upsert(DhcpOption::ClientIdentifier(c)),
            None => (),
        }
        match vendor_class_identifier {
            Some(v) => options.upsert(DhcpOption::VendorClassIdentifier(v)),
            None => (),
        }
        match server_identifier {
            Some(ip) => options.upsert(DhcpOption::ServerIdentifier(ip)),
            None => (),
        }
        match parameter_requested_list {
            Some(v) => options.upsert(DhcpOption::ParameterRequestList(v)),
            None => (),
        }
        match maximum_accepted_size {
            Some(v) => options.upsert(DhcpOption::MaximumDhcpMessageSize(v)),
            None => (),
        }
        let flags = if broadcast {
            Flags::Broadcast
        } else {
            Flags::Unicast
        };
        let mut packet = self.packet;
        packet.operation = MessageOperation::BootRequest;
        packet.hardware_type = HardwareAddressType::Ethernet;
        packet.hops = 0;
        packet.seconds = seconds;
        packet.flags = flags;
        packet.client_hardware = client_hardware_address;
        packet.client = match client_ip_address {
            Some(ip) => ip,
            None => Ipv4Address::unspecified(),
        };
        packet.your = Ipv4Address::unspecified();
        packet.server = Ipv4Address::unspecified();
        packet.gateway = Ipv4Address::unspecified();
        proof {
            assert(opts_encodable(options@));
            lemma_merge_encodable(packet.options@, options@);
        }
        packet.options.merge(options);
        DhcpRequestPacket { packet }
    }
}

} // verus!


