use vstd::prelude::*;

use crate::addr::{ascii_wf, copy_vec, AsciiText, Ipv4Address};
use crate::convert::{ascii_to_option_bytes, be16, be32, bool_to_option_bytes,
    i32_from_u32, ipv4_at, ipv4_payload, ipv4s_payload,
    ipv4_list_to_option_bytes, ipv4_to_option_bytes, i32_to_option_bytes, lemma_i32_round_trip,
    lemma_ipv4s_round_trip, lemma_masks_round_trip, lemma_relay_round_trip,
    lemma_routes_round_trip, lemma_u16_round_trip, lemma_u16s_round_trip, lemma_u32_round_trip,
    masks_payload, message_type_byte, message_type_of, message_type_to_option_bytes,
    netbios_byte, netbios_of, netbios_node_type_to_option_bytes, overload_byte, overload_of,
    overload_to_option_bytes, parse_ascii, parse_bool, parse_i32, parse_ipv4, parse_ipv4_list,
    parse_ipv4s, parse_masks, parse_message_type, parse_netbios_node_type, parse_overload,
    parse_policy_filter_list, parse_relay_agent_sub_options, parse_relay_stream, parse_routes,
    parse_static_route_list, parse_u16, parse_u16_list, parse_u16s, parse_u32, parse_u8,
    parse_vec_u8, policy_filter_list_to_option_bytes, push_bytes,
    relay_agent_list_to_option_bytes, relay_payload, relay_sub_data, routes_payload,
    static_route_list_to_option_bytes, u16_list_to_option_bytes, u16_payload,
    u16_to_option_bytes, u16s_payload, u32_from_i32, u32_payload, u32_to_option_bytes,
    u8_to_option_bytes, vec_u8_to_option_bytes};
use crate::error::{DhcpError, DhcpResult};
use vstd::slice::{slice_subrange, slice_to_vec};

verus! {

// RFC 2132
pub const PAD: u8 = 0;
pub const SUBNET_MASK: u8 = 1;
pub const TIME_OFFSET: u8 = 2;
pub const ROUTER: u8 = 3;
pub const TIME_SERVER: u8 = 4;
pub const NAME_SERVER: u8 = 5;
pub const DOMAIN_NAME_SERVER: u8 = 6;
pub const LOG_SERVER: u8 = 7;
pub const COOKIE_SERVER: u8 = 8;
pub const LPR_SERVER: u8 = 9;
pub const IMPRESS_SERVER: u8 = 10;
pub const RESOURCE_LOCATION_SERVER: u8 = 11;
pub const HOST_NAME: u8 = 12;
pub const BOOT_FILE_SIZE: u8 = 13;
pub const MERIT_DUMP_FILE: u8 = 14;
pub const DOMAIN_NAME: u8 = 15;
pub const SWAP_SERVER: u8 = 16;
pub const ROOT_PATH: u8 = 17;
pub const EXTENSION_PATH: u8 = 18;
pub const IP_FORWARDING: u8 = 19;
pub const NON_LOCAL_SOURCE_ROUTING: u8 = 20;
pub const POLICY_FILTER: u8 = 21;
pub const MAXIMUM_DATAGRAM_REASSEMBLY_SIZE: u8 = 22;
pub const DEFAULT_IP_TTL: u8 = 23;
pub const PATH_MTU_AGING_TIMEOUT: u8 = 24;
pub const PATH_MTU_PLATEAU_TABLE: u8 = 25;
pub const INTERFACE_MTU: u8 = 26;
pub const ALL_SUBNETS_LOCAL: u8 = 27;
pub const BROADCAST_ADDRESS: u8 = 28;
pub const PERFORM_MASK_DISCOVERY: u8 = 29;
pub const MASK_SUPPLIER: u8 = 30;
pub const PERFORM_ROUTER_DISCOVERY: u8 = 31;
pub const ROUTER_SOLICITATION_ADDRESS: u8 = 32;
pub const STATIC_ROUTE: u8 = 33;
pub const TRAILER_ENCAPSULATION: u8 = 34;
pub const ARP_CACHE_TIMEOUT: u8 = 35;
pub const ETHERNET_ENCAPSULATION: u8 = 36;
pub const TCP_DEFAULT_TTL: u8 = 37;
pub const TCP_KEEPALIVE_INTERVAL: u8 = 38;
pub const TCP_KEEPALIVE_GARGABE: u8 = 39;
pub const NETWORK_INFORMATION_SERVICE_DOMAIN: u8 = 40;
pub const NETWORK_INFORMATION_SERVERS: u8 = 41;
pub const NETWORK_TIME_PROTOCOL_SERVERS: u8 = 42;
pub const VENDOR_SPECIFIC: u8 = 43;
pub const NETBIOS_OVER_TCP_IP_NAME_SERVER: u8 = 44;
pub const NETBIOS_OVER_TCP_IP_DATAGRAM_DISTRIBUTION_SERVER: u8 = 45;
pub const NETBIOS_OVER_TCP_IP_NODE_TYPE: u8 = 46;
pub const NETBIOS_OVER_TCP_IP_SCOPE: u8 = 47;
pub const X_WINDOW_SYSTEM_FONT_SERVER: u8 = 48;
pub const X_WINDOW_SYSTEM_DISPLAY_MANAGER: u8 = 49;
pub const REQUESTED_IP_ADDRESS: u8 = 50;
pub const IP_ADDRESS_LEASE_TIME: u8 = 51;
pub const OPTION_OVERLOAD: u8 = 52;
pub const MESSAGE_TYPE: u8 = 53;
pub const SERVER_IDENTIFIER: u8 = 54;
pub const PARAMETER_REQUEST_LIST: u8 = 55;
pub const MESSAGE: u8 = 56;
pub const MAXIMUM_DHCP_MESSAGE_SIZE: u8 = 57;
pub const RENEWAL_TIME_VALUE: u8 = 58;
pub const REBINDING_TIME_VALUE: u8 = 59;
pub const VENDOR_CLASS_IDENTIFIER: u8 = 60;
pub const CLIENT_IDENTIFIER: u8 = 61;
pub const NETWORK_INFORMATION_SERVICE_PLUS_DOMAIN: u8 = 64;
pub const NETWORK_INFORMATION_SERVICE_PLUS_SERVERS: u8 = 65;
pub const TFTP_SERVER_NAME: u8 = 66;
pub const BOOT_FILE_NAME: u8 = 67;
pub const MOBILE_IP_HOME_AGENT: u8 = 68;
pub const SMTP_SERVER: u8 = 69;
pub const POP3_SERVER: u8 = 70;
pub const NNTP_SERVER: u8 = 71;
pub const WWW_SERVER: u8 = 72;
pub const FINGER_SERVER: u8 = 73;
pub const IRC_SERVER: u8 = 74;
pub const STREET_TALK_SERVER: u8 = 75;
pub const STREET_TALK_DIRECTORY_ASSISTANCE: u8 = 76;
pub const END: u8 = 255;

// RFC 3046
pub const RELAY_AGENT_INFORMATION: u8 = 82;

/// Static route
#[derive(Clone, Copy, Debug, PartialEq, Eq, Structural)]
pub struct StaticRoute {
    pub destination: Ipv4Address,
    pub router: Ipv4Address,
}

/// Ipv4 with mask
#[derive(Clone, Copy, Debug, PartialEq, Eq, Structural)]
pub struct Ipv4WithMask {
    pub ipv4addr: Ipv4Address,
    pub mask: Ipv4Address,
}

/// Relay Agent Information
#[derive(Clone, Debug, PartialEq)]
pub enum RelayAgentInformationSubOption {
    AgentCircuit(Vec<u8>),
    AgentRemote(Vec<u8>),
    Unknown(Vec<u8>),
}

/// The mathematical shape of one relay agent sub-option: its data as a byte
/// sequence.
pub enum SpecRelaySubOption {
    AgentCircuit(Seq<u8>),
    AgentRemote(Seq<u8>),
    Unknown(Seq<u8>),
}

impl View for RelayAgentInformationSubOption {
    type V = SpecRelaySubOption;

    open spec fn view(&self) -> SpecRelaySubOption {
        match self {
            RelayAgentInformationSubOption::AgentCircuit(d) => SpecRelaySubOption::AgentCircuit(
                d@,
            ),
            RelayAgentInformationSubOption::AgentRemote(d) => SpecRelaySubOption::AgentRemote(d@),
            RelayAgentInformationSubOption::Unknown(d) => SpecRelaySubOption::Unknown(d@),
        }
    }
}

/// The views of the sub-options, in order.
pub open spec fn relay_views(s: Seq<RelayAgentInformationSubOption>) -> Seq<SpecRelaySubOption> {
    s.map_values(|x: RelayAgentInformationSubOption| x@)
}

/// NetBios Node Type
#[derive(Clone, Copy, Debug, PartialEq, Eq, Structural)]
pub enum NetBiosNodeType {
    B,
    P,
    M,
    H,
}

/// DHCP Overload Option
#[derive(Clone, Copy, Debug, PartialEq, Eq, Structural)]
pub enum Overload {
    Sname,
    File,
    Both,
}

/// DHCP message type
///
/// Required in all DHCP packets
#[derive(Clone, Copy, Debug, PartialEq, Eq, Structural)]
pub enum MessageType {
    Discover,
    Offer,
    Request,
    Decline,
    Ack,
    Nak,
    Release,
    Inform,
}

/// Client identifier
#[derive(Clone, Debug, PartialEq)]
pub struct ClientIdentifier {
    pub(crate) typ: u8,
    pub(crate) data: Vec<u8>,
}

/// The mathematical shape of a client identifier: its type octet and data
/// bytes.
pub struct SpecClientIdentifier {
    pub typ: u8,
    pub data: Seq<u8>,
}

impl View for ClientIdentifier {
    type V = SpecClientIdentifier;

    closed spec fn view(&self) -> SpecClientIdentifier {
        SpecClientIdentifier { typ: self.typ, data: self.data@ }
    }
}

impl ClientIdentifier {
    pub fn new(typ: u8, data: Vec<u8>) -> (r: Self)
        ensures
            r@ == (SpecClientIdentifier { typ, data: data@ }),
    {
        Self { typ, data }
    }
}

/// Represents a single Dhcp Option
///
/// Use [`DhcpOption::from_bytes`] or [`DhcpOption::to_bytes`] to create/convert.
#[derive(Clone, Debug, PartialEq)]
pub enum DhcpOption {
    Pad,
    SubnetMask(Ipv4Address),
    TimeOffset(i32),
    Router(Vec<Ipv4Address>),
    TimeServer(Vec<Ipv4Address>),
    NameServer(Vec<Ipv4Address>),
    DomainNameServer(Vec<Ipv4Address>),
    LogServer(Vec<Ipv4Address>),
    CookieServer(Vec<Ipv4Address>),
    LPRServer(Vec<Ipv4Address>),
    ImpressServer(Vec<Ipv4Address>),
    ResourceLocationServer(Vec<Ipv4Address>),
    HostName(AsciiText),
    BootFileSize(u16),
    MeritDumpFile(AsciiText),
    DomainName(AsciiText),
    SwapServer(Ipv4Address),
    RootPath(AsciiText),
    ExtensionPath(AsciiText),
    IpForwarding(bool),
    NonLocalSourceRouting(bool),
    PolicyFilter(Vec<Ipv4WithMask>),
    MaximumDatagramReassemblySize(u16),
    DefaultIpTTL(u8),
    PathMtuAgingTimeout(u32),
    PathMtuPlateauTable(Vec<u16>),
    InterfaceMtu(u16),
    AllSubnetsLocal(bool),
    BroadcastAddress(Ipv4Address),
    PerformMaskDiscovery(bool),
    MaskSupplier(bool),
    PerformRouterDiscovery(bool),
    RouterSolicitationAddress(Ipv4Address),
    StaticRoute(Vec<StaticRoute>),
    TrailerEncapsulation(bool),
    ArpCacheTimeout(u32),
    EthernetEncapsulation(bool),
    TcpDefaultTTL(u8),
    TcpKeepAliveInterval(u32),
    TcpKeepAliveGarbage(bool),
    NetworkInformationServiceDomain(AsciiText),
    NetworkInformationServers(Vec<Ipv4Address>),
    NetworkTimeProtocolServers(Vec<Ipv4Address>),
    VendorSpecific(Vec<u8>),
    NetBiosOverTcpIpNameServer(Vec<Ipv4Address>),
    NetBiosOverTcpIpDatagramDistributionServer(Vec<Ipv4Address>),
    NetBiosOverTcpIpNodeType(NetBiosNodeType),
    NetBiosOverTcpIpScope(AsciiText),
    XWindowSystemFontServer(Vec<Ipv4Address>),
    XWindowSystemDisplayManager(Vec<Ipv4Address>),
    RequestedIpAddress(Ipv4Address),
    IpAddressLeaseTime(u32),
    OptionOverload(Overload),
    MessageType(MessageType),
    ServerIdentifier(Ipv4Address),
    ParameterRequestList(Vec<u8>),
    Message(AsciiText),
    MaximumDhcpMessageSize(u16),
    RenewalTimeValue(u32),
    RebindingTimeValue(u32),
    VendorClassIdentifier(Vec<u8>),
    ClientIdentifier(ClientIdentifier),
    NetworkInformationServicePlusDomain(AsciiText),
    NetworkInformationServicePlusServer(Vec<Ipv4Address>),
    TftpServer(AsciiText),
    BootFileName(AsciiText),
    MobileIpHomeAgent(Vec<Ipv4Address>),
    SmtpServer(Vec<Ipv4Address>),
    Pop3Server(Vec<Ipv4Address>),
    NntpServer(Vec<Ipv4Address>),
    WwwServer(Vec<Ipv4Address>),
    FingerServer(Vec<Ipv4Address>),
    IrcServer(Vec<Ipv4Address>),
    StreetTalkServer(Vec<Ipv4Address>),
    StreetTalkDirectoryAssistanceServer(Vec<Ipv4Address>),
    End,
    RelayAgentInformation(Vec<RelayAgentInformationSubOption>),
    Unknown(u8, Vec<u8>),
}

/// The mathematical shape of one option: each list- or byte-valued payload
/// as a sequence.
pub enum SpecDhcpOption {
    Pad,
    SubnetMask(Ipv4Address),
    TimeOffset(i32),
    Router(Seq<Ipv4Address>),
    TimeServer(Seq<Ipv4Address>),
    NameServer(Seq<Ipv4Address>),
    DomainNameServer(Seq<Ipv4Address>),
    LogServer(Seq<Ipv4Address>),
    CookieServer(Seq<Ipv4Address>),
    LPRServer(Seq<Ipv4Address>),
    ImpressServer(Seq<Ipv4Address>),
    ResourceLocationServer(Seq<Ipv4Address>),
    HostName(Seq<u8>),
    BootFileSize(u16),
    MeritDumpFile(Seq<u8>),
    DomainName(Seq<u8>),
    SwapServer(Ipv4Address),
    RootPath(Seq<u8>),
    ExtensionPath(Seq<u8>),
    IpForwarding(bool),
    NonLocalSourceRouting(bool),
    PolicyFilter(Seq<Ipv4WithMask>),
    MaximumDatagramReassemblySize(u16),
    DefaultIpTTL(u8),
    PathMtuAgingTimeout(u32),
    PathMtuPlateauTable(Seq<u16>),
    InterfaceMtu(u16),
    AllSubnetsLocal(bool),
    BroadcastAddress(Ipv4Address),
    PerformMaskDiscovery(bool),
    MaskSupplier(bool),
    PerformRouterDiscovery(bool),
    RouterSolicitationAddress(Ipv4Address),
    StaticRoute(Seq<StaticRoute>),
    TrailerEncapsulation(bool),
    ArpCacheTimeout(u32),
    EthernetEncapsulation(bool),
    TcpDefaultTTL(u8),
    TcpKeepAliveInterval(u32),
    TcpKeepAliveGarbage(bool),
    NetworkInformationServiceDomain(Seq<u8>),
    NetworkInformationServers(Seq<Ipv4Address>),
    NetworkTimeProtocolServers(Seq<Ipv4Address>),
    VendorSpecific(Seq<u8>),
    NetBiosOverTcpIpNameServer(Seq<Ipv4Address>),
    NetBiosOverTcpIpDatagramDistributionServer(Seq<Ipv4Address>),
    NetBiosOverTcpIpNodeType(NetBiosNodeType),
    NetBiosOverTcpIpScope(Seq<u8>),
    XWindowSystemFontServer(Seq<Ipv4Address>),
    XWindowSystemDisplayManager(Seq<Ipv4Address>),
    RequestedIpAddress(Ipv4Address),
    IpAddressLeaseTime(u32),
    OptionOverload(Overload),
    MessageType(MessageType),
    ServerIdentifier(Ipv4Address),
    ParameterRequestList(Seq<u8>),
    Message(Seq<u8>),
    MaximumDhcpMessageSize(u16),
    RenewalTimeValue(u32),
    RebindingTimeValue(u32),
    VendorClassIdentifier(Seq<u8>),
    ClientIdentifier(SpecClientIdentifier),
    NetworkInformationServicePlusDomain(Seq<u8>),
    NetworkInformationServicePlusServer(Seq<Ipv4Address>),
    TftpServer(Seq<u8>),
    BootFileName(Seq<u8>),
    MobileIpHomeAgent(Seq<Ipv4Address>),
    SmtpServer(Seq<Ipv4Address>),
    Pop3Server(Seq<Ipv4Address>),
    NntpServer(Seq<Ipv4Address>),
    WwwServer(Seq<Ipv4Address>),
    FingerServer(Seq<Ipv4Address>),
    IrcServer(Seq<Ipv4Address>),
    StreetTalkServer(Seq<Ipv4Address>),
    StreetTalkDirectoryAssistanceServer(Seq<Ipv4Address>),
    End,
    RelayAgentInformation(Seq<SpecRelaySubOption>),
    Unknown(u8, Seq<u8>),
}

impl View for DhcpOption {
    type V = SpecDhcpOption;

    open spec fn view(&self) -> SpecDhcpOption {
        match self {
            DhcpOption::Pad => SpecDhcpOption::Pad,
            DhcpOption::SubnetMask(v) => SpecDhcpOption::SubnetMask(*v),
            DhcpOption::TimeOffset(v) => SpecDhcpOption::TimeOffset(*v),
            DhcpOption::Router(v) => SpecDhcpOption::Router(v@),
            DhcpOption::TimeServer(v) => SpecDhcpOption::TimeServer(v@),
            DhcpOption::NameServer(v) => SpecDhcpOption::NameServer(v@),
            DhcpOption::DomainNameServer(v) => SpecDhcpOption::DomainNameServer(v@),
            DhcpOption::LogServer(v) => SpecDhcpOption::LogServer(v@),
            DhcpOption::CookieServer(v) => SpecDhcpOption::CookieServer(v@),
            DhcpOption::LPRServer(v) => SpecDhcpOption::LPRServer(v@),
            DhcpOption::ImpressServer(v) => SpecDhcpOption::ImpressServer(v@),
            DhcpOption::ResourceLocationServer(v) => SpecDhcpOption::ResourceLocationServer(v@),
            DhcpOption::HostName(v) => SpecDhcpOption::HostName(v@),
            DhcpOption::BootFileSize(v) => SpecDhcpOption::BootFileSize(*v),
            DhcpOption::MeritDumpFile(v) => SpecDhcpOption::MeritDumpFile(v@),
            DhcpOption::DomainName(v) => SpecDhcpOption::DomainName(v@),
            DhcpOption::SwapServer(v) => SpecDhcpOption::SwapServer(*v),
            DhcpOption::RootPath(v) => SpecDhcpOption::RootPath(v@),
            DhcpOption::ExtensionPath(v) => SpecDhcpOption::ExtensionPath(v@),
            DhcpOption::IpForwarding(v) => SpecDhcpOption::IpForwarding(*v),
            DhcpOption::NonLocalSourceRouting(v) => SpecDhcpOption::NonLocalSourceRouting(*v),
            DhcpOption::PolicyFilter(v) => SpecDhcpOption::PolicyFilter(v@),
            DhcpOption::MaximumDatagramReassemblySize(v) => SpecDhcpOption::MaximumDatagramReassemblySize(*v),
            DhcpOption::DefaultIpTTL(v) => SpecDhcpOption::DefaultIpTTL(*v),
            DhcpOption::PathMtuAgingTimeout(v) => SpecDhcpOption::PathMtuAgingTimeout(*v),
            DhcpOption::PathMtuPlateauTable(v) => SpecDhcpOption::PathMtuPlateauTable(v@),
            DhcpOption::InterfaceMtu(v) => SpecDhcpOption::InterfaceMtu(*v),
            DhcpOption::AllSubnetsLocal(v) => SpecDhcpOption::AllSubnetsLocal(*v),
            DhcpOption::BroadcastAddress(v) => SpecDhcpOption::BroadcastAddress(*v),
            DhcpOption::PerformMaskDiscovery(v) => SpecDhcpOption::PerformMaskDiscovery(*v),
            DhcpOption::MaskSupplier(v) => SpecDhcpOption::MaskSupplier(*v),
            DhcpOption::PerformRouterDiscovery(v) => SpecDhcpOption::PerformRouterDiscovery(*v),
            DhcpOption::RouterSolicitationAddress(v) => SpecDhcpOption::RouterSolicitationAddress(*v),
            DhcpOption::StaticRoute(v) => SpecDhcpOption::StaticRoute(v@),
            DhcpOption::TrailerEncapsulation(v) => SpecDhcpOption::TrailerEncapsulation(*v),
            DhcpOption::ArpCacheTimeout(v) => SpecDhcpOption::ArpCacheTimeout(*v),
            DhcpOption::EthernetEncapsulation(v) => SpecDhcpOption::EthernetEncapsulation(*v),
            DhcpOption::TcpDefaultTTL(v) => SpecDhcpOption::TcpDefaultTTL(*v),
            DhcpOption::TcpKeepAliveInterval(v) => SpecDhcpOption::TcpKeepAliveInterval(*v),
            DhcpOption::TcpKeepAliveGarbage(v) => SpecDhcpOption::TcpKeepAliveGarbage(*v),
            DhcpOption::NetworkInformationServiceDomain(v) => SpecDhcpOption::NetworkInformationServiceDomain(v@),
            DhcpOption::NetworkInformationServers(v) => SpecDhcpOption::NetworkInformationServers(v@),
            DhcpOption::NetworkTimeProtocolServers(v) => SpecDhcpOption::NetworkTimeProtocolServers(v@),
            DhcpOption::VendorSpecific(v) => SpecDhcpOption::VendorSpecific(v@),
            DhcpOption::NetBiosOverTcpIpNameServer(v) => SpecDhcpOption::NetBiosOverTcpIpNameServer(v@),
            DhcpOption::NetBiosOverTcpIpDatagramDistributionServer(v) => SpecDhcpOption::NetBiosOverTcpIpDatagramDistributionServer(v@),
            DhcpOption::NetBiosOverTcpIpNodeType(v) => SpecDhcpOption::NetBiosOverTcpIpNodeType(*v),
            DhcpOption::NetBiosOverTcpIpScope(v) => SpecDhcpOption::NetBiosOverTcpIpScope(v@),
            DhcpOption::XWindowSystemFontServer(v) => SpecDhcpOption::XWindowSystemFontServer(v@),
            DhcpOption::XWindowSystemDisplayManager(v) => SpecDhcpOption::XWindowSystemDisplayManager(v@),
            DhcpOption::RequestedIpAddress(v) => SpecDhcpOption::RequestedIpAddress(*v),
            DhcpOption::IpAddressLeaseTime(v) => SpecDhcpOption::IpAddressLeaseTime(*v),
            DhcpOption::OptionOverload(v) => SpecDhcpOption::OptionOverload(*v),
            DhcpOption::MessageType(v) => SpecDhcpOption::MessageType(*v),
            DhcpOption::ServerIdentifier(v) => SpecDhcpOption::ServerIdentifier(*v),
            DhcpOption::ParameterRequestList(v) => SpecDhcpOption::ParameterRequestList(v@),
            DhcpOption::Message(v) => SpecDhcpOption::Message(v@),
            DhcpOption::MaximumDhcpMessageSize(v) => SpecDhcpOption::MaximumDhcpMessageSize(*v),
            DhcpOption::RenewalTimeValue(v) => SpecDhcpOption::RenewalTimeValue(*v),
            DhcpOption::RebindingTimeValue(v) => SpecDhcpOption::RebindingTimeValue(*v),
            DhcpOption::VendorClassIdentifier(v) => SpecDhcpOption::VendorClassIdentifier(v@),
            DhcpOption::ClientIdentifier(v) => SpecDhcpOption::ClientIdentifier(v@),
            DhcpOption::NetworkInformationServicePlusDomain(v) => SpecDhcpOption::NetworkInformationServicePlusDomain(v@),
            DhcpOption::NetworkInformationServicePlusServer(v) => SpecDhcpOption::NetworkInformationServicePlusServer(v@),
            DhcpOption::TftpServer(v) => SpecDhcpOption::TftpServer(v@),
            DhcpOption::BootFileName(v) => SpecDhcpOption::BootFileName(v@),
            DhcpOption::MobileIpHomeAgent(v) => SpecDhcpOption::MobileIpHomeAgent(v@),
            DhcpOption::SmtpServer(v) => SpecDhcpOption::SmtpServer(v@),
            DhcpOption::Pop3Server(v) => SpecDhcpOption::Pop3Server(v@),
            DhcpOption::NntpServer(v) => SpecDhcpOption::NntpServer(v@),
            DhcpOption::WwwServer(v) => SpecDhcpOption::WwwServer(v@),
            DhcpOption::FingerServer(v) => SpecDhcpOption::FingerServer(v@),
            DhcpOption::IrcServer(v) => SpecDhcpOption::IrcServer(v@),
            DhcpOption::StreetTalkServer(v) => SpecDhcpOption::StreetTalkServer(v@),
            DhcpOption::StreetTalkDirectoryAssistanceServer(v) => SpecDhcpOption::StreetTalkDirectoryAssistanceServer(v@),
            DhcpOption::End => SpecDhcpOption::End,
            DhcpOption::RelayAgentInformation(v) => SpecDhcpOption::RelayAgentInformation(relay_views(v@)),
            DhcpOption::Unknown(t, d) => SpecDhcpOption::Unknown(*t, d@),
        }
    }
}

/// The tag that names the option's kind on the wire.
pub open spec fn spec_tag(o: SpecDhcpOption) -> u8 {
    match o {
        SpecDhcpOption::Pad => PAD,
        SpecDhcpOption::SubnetMask(_) => SUBNET_MASK,
        SpecDhcpOption::TimeOffset(_) => TIME_OFFSET,
        SpecDhcpOption::Router(_) => ROUTER,
        SpecDhcpOption::TimeServer(_) => TIME_SERVER,
        SpecDhcpOption::NameServer(_) => NAME_SERVER,
        SpecDhcpOption::DomainNameServer(_) => DOMAIN_NAME_SERVER,
        SpecDhcpOption::LogServer(_) => LOG_SERVER,
        SpecDhcpOption::CookieServer(_) => COOKIE_SERVER,
        SpecDhcpOption::LPRServer(_) => LPR_SERVER,
        SpecDhcpOption::ImpressServer(_) => IMPRESS_SERVER,
        SpecDhcpOption::ResourceLocationServer(_) => RESOURCE_LOCATION_SERVER,
        SpecDhcpOption::HostName(_) => HOST_NAME,
        SpecDhcpOption::BootFileSize(_) => BOOT_FILE_SIZE,
        SpecDhcpOption::MeritDumpFile(_) => MERIT_DUMP_FILE,
        SpecDhcpOption::DomainName(_) => DOMAIN_NAME,
        SpecDhcpOption::SwapServer(_) => SWAP_SERVER,
        SpecDhcpOption::RootPath(_) => ROOT_PATH,
        SpecDhcpOption::ExtensionPath(_) => EXTENSION_PATH,
        SpecDhcpOption::IpForwarding(_) => IP_FORWARDING,
        SpecDhcpOption::NonLocalSourceRouting(_) => NON_LOCAL_SOURCE_ROUTING,
        SpecDhcpOption::PolicyFilter(_) => POLICY_FILTER,
        SpecDhcpOption::MaximumDatagramReassemblySize(_) => MAXIMUM_DATAGRAM_REASSEMBLY_SIZE,
        SpecDhcpOption::DefaultIpTTL(_) => DEFAULT_IP_TTL,
        SpecDhcpOption::PathMtuAgingTimeout(_) => PATH_MTU_AGING_TIMEOUT,
        SpecDhcpOption::PathMtuPlateauTable(_) => PATH_MTU_PLATEAU_TABLE,
        SpecDhcpOption::InterfaceMtu(_) => INTERFACE_MTU,
        SpecDhcpOption::AllSubnetsLocal(_) => ALL_SUBNETS_LOCAL,
        SpecDhcpOption::BroadcastAddress(_) => BROADCAST_ADDRESS,
        SpecDhcpOption::PerformMaskDiscovery(_) => PERFORM_MASK_DISCOVERY,
        SpecDhcpOption::MaskSupplier(_) => MASK_SUPPLIER,
        SpecDhcpOption::PerformRouterDiscovery(_) => PERFORM_ROUTER_DISCOVERY,
        SpecDhcpOption::RouterSolicitationAddress(_) => ROUTER_SOLICITATION_ADDRESS,
        SpecDhcpOption::StaticRoute(_) => STATIC_ROUTE,
        SpecDhcpOption::TrailerEncapsulation(_) => TRAILER_ENCAPSULATION,
        SpecDhcpOption::ArpCacheTimeout(_) => ARP_CACHE_TIMEOUT,
        SpecDhcpOption::EthernetEncapsulation(_) => ETHERNET_ENCAPSULATION,
        SpecDhcpOption::TcpDefaultTTL(_) => TCP_DEFAULT_TTL,
        SpecDhcpOption::TcpKeepAliveInterval(_) => TCP_KEEPALIVE_INTERVAL,
        SpecDhcpOption::TcpKeepAliveGarbage(_) => TCP_KEEPALIVE_GARGABE,
        SpecDhcpOption::NetworkInformationServiceDomain(_) => NETWORK_INFORMATION_SERVICE_DOMAIN,
        SpecDhcpOption::NetworkInformationServers(_) => NETWORK_INFORMATION_SERVERS,
        SpecDhcpOption::NetworkTimeProtocolServers(_) => NETWORK_TIME_PROTOCOL_SERVERS,
        SpecDhcpOption::VendorSpecific(_) => VENDOR_SPECIFIC,
        SpecDhcpOption::NetBiosOverTcpIpNameServer(_) => NETBIOS_OVER_TCP_IP_NAME_SERVER,
        SpecDhcpOption::NetBiosOverTcpIpDatagramDistributionServer(_) => NETBIOS_OVER_TCP_IP_DATAGRAM_DISTRIBUTION_SERVER,
        SpecDhcpOption::NetBiosOverTcpIpNodeType(_) => NETBIOS_OVER_TCP_IP_NODE_TYPE,
        SpecDhcpOption::NetBiosOverTcpIpScope(_) => NETBIOS_OVER_TCP_IP_SCOPE,
        SpecDhcpOption::XWindowSystemFontServer(_) => X_WINDOW_SYSTEM_FONT_SERVER,
        SpecDhcpOption::XWindowSystemDisplayManager(_) => X_WINDOW_SYSTEM_DISPLAY_MANAGER,
        SpecDhcpOption::RequestedIpAddress(_) => REQUESTED_IP_ADDRESS,
        SpecDhcpOption::IpAddressLeaseTime(_) => IP_ADDRESS_LEASE_TIME,
        SpecDhcpOption::OptionOverload(_) => OPTION_OVERLOAD,
        SpecDhcpOption::MessageType(_) => MESSAGE_TYPE,
        SpecDhcpOption::ServerIdentifier(_) => SERVER_IDENTIFIER,
        SpecDhcpOption::ParameterRequestList(_) => PARAMETER_REQUEST_LIST,
        SpecDhcpOption::Message(_) => MESSAGE,
        SpecDhcpOption::MaximumDhcpMessageSize(_) => MAXIMUM_DHCP_MESSAGE_SIZE,
        SpecDhcpOption::RenewalTimeValue(_) => RENEWAL_TIME_VALUE,
        SpecDhcpOption::RebindingTimeValue(_) => REBINDING_TIME_VALUE,
        SpecDhcpOption::VendorClassIdentifier(_) => VENDOR_CLASS_IDENTIFIER,
        SpecDhcpOption::ClientIdentifier(_) => CLIENT_IDENTIFIER,
        SpecDhcpOption::NetworkInformationServicePlusDomain(_) => NETWORK_INFORMATION_SERVICE_PLUS_DOMAIN,
        SpecDhcpOption::NetworkInformationServicePlusServer(_) => NETWORK_INFORMATION_SERVICE_PLUS_SERVERS,
        SpecDhcpOption::TftpServer(_) => TFTP_SERVER_NAME,
        SpecDhcpOption::BootFileName(_) => BOOT_FILE_NAME,
        SpecDhcpOption::MobileIpHomeAgent(_) => MOBILE_IP_HOME_AGENT,
        SpecDhcpOption::SmtpServer(_) => SMTP_SERVER,
        SpecDhcpOption::Pop3Server(_) => POP3_SERVER,
        SpecDhcpOption::NntpServer(_) => NNTP_SERVER,
        SpecDhcpOption::WwwServer(_) => WWW_SERVER,
        SpecDhcpOption::FingerServer(_) => FINGER_SERVER,
        SpecDhcpOption::IrcServer(_) => IRC_SERVER,
        SpecDhcpOption::StreetTalkServer(_) => STREET_TALK_SERVER,
        SpecDhcpOption::StreetTalkDirectoryAssistanceServer(_) => STREET_TALK_DIRECTORY_ASSISTANCE,
        SpecDhcpOption::End => END,
        SpecDhcpOption::RelayAgentInformation(_) => RELAY_AGENT_INFORMATION,
        SpecDhcpOption::Unknown(t, _) => t,
    }
}

/// The option's payload bytes: what stands after the tag and length byte.
pub open spec fn spec_payload(o: SpecDhcpOption) -> Seq<u8> {
    match o {
        SpecDhcpOption::Pad => Seq::empty(),
        SpecDhcpOption::SubnetMask(v) => ipv4_payload(v),
        SpecDhcpOption::TimeOffset(v) => u32_payload(u32_from_i32(v)),
        SpecDhcpOption::Router(v) => ipv4s_payload(v),
        SpecDhcpOption::TimeServer(v) => ipv4s_payload(v),
        SpecDhcpOption::NameServer(v) => ipv4s_payload(v),
        SpecDhcpOption::DomainNameServer(v) => ipv4s_payload(v),
        SpecDhcpOption::LogServer(v) => ipv4s_payload(v),
        SpecDhcpOption::CookieServer(v) => ipv4s_payload(v),
        SpecDhcpOption::LPRServer(v) => ipv4s_payload(v),
        SpecDhcpOption::ImpressServer(v) => ipv4s_payload(v),
        SpecDhcpOption::ResourceLocationServer(v) => ipv4s_payload(v),
        SpecDhcpOption::HostName(v) => v,
        SpecDhcpOption::BootFileSize(v) => u16_payload(v),
        SpecDhcpOption::MeritDumpFile(v) => v,
        SpecDhcpOption::DomainName(v) => v,
        SpecDhcpOption::SwapServer(v) => ipv4_payload(v),
        SpecDhcpOption::RootPath(v) => v,
        SpecDhcpOption::ExtensionPath(v) => v,
        SpecDhcpOption::IpForwarding(v) => seq![if v { 1u8 } else { 0u8 }],
        SpecDhcpOption::NonLocalSourceRouting(v) => seq![if v { 1u8 } else { 0u8 }],
        SpecDhcpOption::PolicyFilter(v) => masks_payload(v),
        SpecDhcpOption::MaximumDatagramReassemblySize(v) => u16_payload(v),
        SpecDhcpOption::DefaultIpTTL(v) => seq![v],
        SpecDhcpOption::PathMtuAgingTimeout(v) => u32_payload(v),
        SpecDhcpOption::PathMtuPlateauTable(v) => u16s_payload(v),
        SpecDhcpOption::InterfaceMtu(v) => u16_payload(v),
        SpecDhcpOption::AllSubnetsLocal(v) => seq![if v { 1u8 } else { 0u8 }],
        SpecDhcpOption::BroadcastAddress(v) => ipv4_payload(v),
        SpecDhcpOption::PerformMaskDiscovery(v) => seq![if v { 1u8 } else { 0u8 }],
        SpecDhcpOption::MaskSupplier(v) => seq![if v { 1u8 } else { 0u8 }],
        SpecDhcpOption::PerformRouterDiscovery(v) => seq![if v { 1u8 } else { 0u8 }],
        SpecDhcpOption::RouterSolicitationAddress(v) => ipv4_payload(v),
        SpecDhcpOption::StaticRoute(v) => routes_payload(v),
        SpecDhcpOption::TrailerEncapsulation(v) => seq![if v { 1u8 } else { 0u8 }],
        SpecDhcpOption::ArpCacheTimeout(v) => u32_payload(v),
        SpecDhcpOption::EthernetEncapsulation(v) => seq![if v { 1u8 } else { 0u8 }],
        SpecDhcpOption::TcpDefaultTTL(v) => seq![v],
        SpecDhcpOption::TcpKeepAliveInterval(v) => u32_payload(v),
        SpecDhcpOption::TcpKeepAliveGarbage(v) => seq![if v { 1u8 } else { 0u8 }],
        SpecDhcpOption::NetworkInformationServiceDomain(v) => v,
        SpecDhcpOption::NetworkInformationServers(v) => ipv4s_payload(v),
        SpecDhcpOption::NetworkTimeProtocolServers(v) => ipv4s_payload(v),
        SpecDhcpOption::VendorSpecific(v) => v,
        SpecDhcpOption::NetBiosOverTcpIpNameServer(v) => ipv4s_payload(v),
        SpecDhcpOption::NetBiosOverTcpIpDatagramDistributionServer(v) => ipv4s_payload(v),
        SpecDhcpOption::NetBiosOverTcpIpNodeType(v) => seq![netbios_byte(v)],
        SpecDhcpOption::NetBiosOverTcpIpScope(v) => v,
        SpecDhcpOption::XWindowSystemFontServer(v) => ipv4s_payload(v),
        SpecDhcpOption::XWindowSystemDisplayManager(v) => ipv4s_payload(v),
        SpecDhcpOption::RequestedIpAddress(v) => ipv4_payload(v),
        SpecDhcpOption::IpAddressLeaseTime(v) => u32_payload(v),
        SpecDhcpOption::OptionOverload(v) => seq![overload_byte(v)],
        SpecDhcpOption::MessageType(v) => seq![message_type_byte(v)],
        SpecDhcpOption::ServerIdentifier(v) => ipv4_payload(v),
        SpecDhcpOption::ParameterRequestList(v) => v,
        SpecDhcpOption::Message(v) => v,
        SpecDhcpOption::MaximumDhcpMessageSize(v) => u16_payload(v),
        SpecDhcpOption::RenewalTimeValue(v) => u32_payload(v),
        SpecDhcpOption::RebindingTimeValue(v) => u32_payload(v),
        SpecDhcpOption::VendorClassIdentifier(v) => v,
        SpecDhcpOption::ClientIdentifier(v) => seq![v.typ] + v.data,
        SpecDhcpOption::NetworkInformationServicePlusDomain(v) => v,
        SpecDhcpOption::NetworkInformationServicePlusServer(v) => ipv4s_payload(v),
        SpecDhcpOption::TftpServer(v) => v,
        SpecDhcpOption::BootFileName(v) => v,
        SpecDhcpOption::MobileIpHomeAgent(v) => ipv4s_payload(v),
        SpecDhcpOption::SmtpServer(v) => ipv4s_payload(v),
        SpecDhcpOption::Pop3Server(v) => ipv4s_payload(v),
        SpecDhcpOption::NntpServer(v) => ipv4s_payload(v),
        SpecDhcpOption::WwwServer(v) => ipv4s_payload(v),
        SpecDhcpOption::FingerServer(v) => ipv4s_payload(v),
        SpecDhcpOption::IrcServer(v) => ipv4s_payload(v),
        SpecDhcpOption::StreetTalkServer(v) => ipv4s_payload(v),
        SpecDhcpOption::StreetTalkDirectoryAssistanceServer(v) => ipv4s_payload(v),
        SpecDhcpOption::End => Seq::empty(),
        SpecDhcpOption::RelayAgentInformation(v) => relay_payload(v),
        SpecDhcpOption::Unknown(_, d) => d,
    }
}

/// The option's whole encoding: `[tag, length, payload]`, with the length
/// byte equal to the payload's byte count; Pad and End are a single byte.
pub open spec fn opt_bytes(o: SpecDhcpOption) -> Seq<u8> {
    if o is Pad {
        seq![PAD]
    } else if o is End {
        seq![END]
    } else {
        seq![spec_tag(o), spec_payload(o).len() as u8] + spec_payload(o)
    }
}

/// The tags that decode to a typed variant rather than the raw fallback.
pub open spec fn is_known_tag(t: u8) -> bool {
    ||| t == PAD
    ||| t == SUBNET_MASK
    ||| t == TIME_OFFSET
    ||| t == ROUTER
    ||| t == TIME_SERVER
    ||| t == NAME_SERVER
    ||| t == DOMAIN_NAME_SERVER
    ||| t == LOG_SERVER
    ||| t == COOKIE_SERVER
    ||| t == LPR_SERVER
    ||| t == IMPRESS_SERVER
    ||| t == RESOURCE_LOCATION_SERVER
    ||| t == HOST_NAME
    ||| t == BOOT_FILE_SIZE
    ||| t == MERIT_DUMP_FILE
    ||| t == DOMAIN_NAME
    ||| t == SWAP_SERVER
    ||| t == ROOT_PATH
    ||| t == EXTENSION_PATH
    ||| t == IP_FORWARDING
    ||| t == NON_LOCAL_SOURCE_ROUTING
    ||| t == POLICY_FILTER
    ||| t == MAXIMUM_DATAGRAM_REASSEMBLY_SIZE
    ||| t == DEFAULT_IP_TTL
    ||| t == PATH_MTU_AGING_TIMEOUT
    ||| t == PATH_MTU_PLATEAU_TABLE
    ||| t == INTERFACE_MTU
    ||| t == ALL_SUBNETS_LOCAL
    ||| t == BROADCAST_ADDRESS
    ||| t == PERFORM_MASK_DISCOVERY
    ||| t == MASK_SUPPLIER
    ||| t == PERFORM_ROUTER_DISCOVERY
    ||| t == ROUTER_SOLICITATION_ADDRESS
    ||| t == STATIC_ROUTE
    ||| t == TRAILER_ENCAPSULATION
    ||| t == ARP_CACHE_TIMEOUT
    ||| t == ETHERNET_ENCAPSULATION
    ||| t == TCP_DEFAULT_TTL
    ||| t == TCP_KEEPALIVE_INTERVAL
    ||| t == TCP_KEEPALIVE_GARGABE
    ||| t == NETWORK_INFORMATION_SERVICE_DOMAIN
    ||| t == NETWORK_INFORMATION_SERVERS
    ||| t == NETWORK_TIME_PROTOCOL_SERVERS
    ||| t == VENDOR_SPECIFIC
    ||| t == NETBIOS_OVER_TCP_IP_NAME_SERVER
    ||| t == NETBIOS_OVER_TCP_IP_DATAGRAM_DISTRIBUTION_SERVER
    ||| t == NETBIOS_OVER_TCP_IP_NODE_TYPE
    ||| t == NETBIOS_OVER_TCP_IP_SCOPE
    ||| t == X_WINDOW_SYSTEM_FONT_SERVER
    ||| t == X_WINDOW_SYSTEM_DISPLAY_MANAGER
    ||| t == REQUESTED_IP_ADDRESS
    ||| t == IP_ADDRESS_LEASE_TIME
    ||| t == OPTION_OVERLOAD
    ||| t == MESSAGE_TYPE
    ||| t == SERVER_IDENTIFIER
    ||| t == PARAMETER_REQUEST_LIST
    ||| t == MESSAGE
    ||| t == MAXIMUM_DHCP_MESSAGE_SIZE
    ||| t == RENEWAL_TIME_VALUE
    ||| t == REBINDING_TIME_VALUE
    ||| t == VENDOR_CLASS_IDENTIFIER
    ||| t == CLIENT_IDENTIFIER
    ||| t == NETWORK_INFORMATION_SERVICE_PLUS_DOMAIN
    ||| t == NETWORK_INFORMATION_SERVICE_PLUS_SERVERS
    ||| t == TFTP_SERVER_NAME
    ||| t == BOOT_FILE_NAME
    ||| t == MOBILE_IP_HOME_AGENT
    ||| t == SMTP_SERVER
    ||| t == POP3_SERVER
    ||| t == NNTP_SERVER
    ||| t == WWW_SERVER
    ||| t == FINGER_SERVER
    ||| t == IRC_SERVER
    ||| t == STREET_TALK_SERVER
    ||| t == STREET_TALK_DIRECTORY_ASSISTANCE
    ||| t == END
    ||| t == RELAY_AGENT_INFORMATION
}

/// The values on which the codec round-trips: the payload fits its one
/// length byte, text is ASCII, lists meet their tag's minimum length, and
/// domain constraints (minimum sizes, a nonzero TTL) hold.
pub open spec fn opt_valid(o: SpecDhcpOption) -> bool {
    match o {
        SpecDhcpOption::Pad => true,
        SpecDhcpOption::SubnetMask(_) => true,
        SpecDhcpOption::TimeOffset(_) => true,
        SpecDhcpOption::Router(v) => v.len() >= 1 && 4 * v.len() <= 255,
        SpecDhcpOption::TimeServer(v) => v.len() >= 1 && 4 * v.len() <= 255,
        SpecDhcpOption::NameServer(v) => v.len() >= 1 && 4 * v.len() <= 255,
        SpecDhcpOption::DomainNameServer(v) => v.len() >= 1 && 4 * v.len() <= 255,
        SpecDhcpOption::LogServer(v) => v.len() >= 1 && 4 * v.len() <= 255,
        SpecDhcpOption::CookieServer(v) => v.len() >= 1 && 4 * v.len() <= 255,
        SpecDhcpOption::LPRServer(v) => v.len() >= 1 && 4 * v.len() <= 255,
        SpecDhcpOption::ImpressServer(v) => v.len() >= 1 && 4 * v.len() <= 255,
        SpecDhcpOption::ResourceLocationServer(v) => v.len() >= 1 && 4 * v.len() <= 255,
        SpecDhcpOption::HostName(v) => ascii_wf(v) && v.len() >= 1 && v.len() <= 255,
        SpecDhcpOption::BootFileSize(_) => true,
        SpecDhcpOption::MeritDumpFile(v) => ascii_wf(v) && v.len() >= 1 && v.len() <= 255,
        SpecDhcpOption::DomainName(v) => ascii_wf(v) && v.len() >= 1 && v.len() <= 255,
        SpecDhcpOption::SwapServer(_) => true,
        SpecDhcpOption::RootPath(v) => ascii_wf(v) && v.len() >= 1 && v.len() <= 255,
        SpecDhcpOption::ExtensionPath(v) => ascii_wf(v) && v.len() >= 1 && v.len() <= 255,
        SpecDhcpOption::IpForwarding(_) => true,
        SpecDhcpOption::NonLocalSourceRouting(_) => true,
        SpecDhcpOption::PolicyFilter(v) => v.len() >= 1 && 8 * v.len() <= 255,
        SpecDhcpOption::MaximumDatagramReassemblySize(v) => v >= 576,
        SpecDhcpOption::DefaultIpTTL(_) => true,
        SpecDhcpOption::PathMtuAgingTimeout(_) => true,
        SpecDhcpOption::PathMtuPlateauTable(v) => v.len() >= 1 && 2 * v.len() <= 255,
        SpecDhcpOption::InterfaceMtu(_) => true,
        SpecDhcpOption::AllSubnetsLocal(_) => true,
        SpecDhcpOption::BroadcastAddress(_) => true,
        SpecDhcpOption::PerformMaskDiscovery(_) => true,
        SpecDhcpOption::MaskSupplier(_) => true,
        SpecDhcpOption::PerformRouterDiscovery(_) => true,
        SpecDhcpOption::RouterSolicitationAddress(_) => true,
        SpecDhcpOption::StaticRoute(v) => v.len() >= 1 && 8 * v.len() <= 255,
        SpecDhcpOption::TrailerEncapsulation(_) => true,
        SpecDhcpOption::ArpCacheTimeout(_) => true,
        SpecDhcpOption::EthernetEncapsulation(_) => true,
        SpecDhcpOption::TcpDefaultTTL(v) => v >= 1,
        SpecDhcpOption::TcpKeepAliveInterval(_) => true,
        SpecDhcpOption::TcpKeepAliveGarbage(_) => true,
        SpecDhcpOption::NetworkInformationServiceDomain(v) => ascii_wf(v) && v.len() >= 1 && v.len() <= 255,
        SpecDhcpOption::NetworkInformationServers(v) => v.len() >= 1 && 4 * v.len() <= 255,
        SpecDhcpOption::NetworkTimeProtocolServers(v) => v.len() >= 1 && 4 * v.len() <= 255,
        SpecDhcpOption::VendorSpecific(v) => v.len() >= 1 && v.len() <= 255,
        SpecDhcpOption::NetBiosOverTcpIpNameServer(v) => v.len() >= 1 && 4 * v.len() <= 255,
        SpecDhcpOption::NetBiosOverTcpIpDatagramDistributionServer(v) => v.len() >= 1 && 4 * v.len() <= 255,
        SpecDhcpOption::NetBiosOverTcpIpNodeType(_) => true,
        SpecDhcpOption::NetBiosOverTcpIpScope(v) => ascii_wf(v) && v.len() >= 1 && v.len() <= 255,
        SpecDhcpOption::XWindowSystemFontServer(v) => v.len() >= 1 && 4 * v.len() <= 255,
        SpecDhcpOption::XWindowSystemDisplayManager(v) => v.len() >= 1 && 4 * v.len() <= 255,
        SpecDhcpOption::RequestedIpAddress(_) => true,
        SpecDhcpOption::IpAddressLeaseTime(_) => true,
        SpecDhcpOption::OptionOverload(_) => true,
        SpecDhcpOption::MessageType(_) => true,
        SpecDhcpOption::ServerIdentifier(_) => true,
        SpecDhcpOption::ParameterRequestList(v) => v.len() >= 1 && v.len() <= 255,
        SpecDhcpOption::Message(v) => ascii_wf(v) && v.len() >= 1 && v.len() <= 255,
        SpecDhcpOption::MaximumDhcpMessageSize(v) => v >= 576,
        SpecDhcpOption::RenewalTimeValue(_) => true,
        SpecDhcpOption::RebindingTimeValue(_) => true,
        SpecDhcpOption::VendorClassIdentifier(v) => v.len() >= 1 && v.len() <= 255,
        SpecDhcpOption::ClientIdentifier(v) => v.data.len() <= 254,
        SpecDhcpOption::NetworkInformationServicePlusDomain(v) => ascii_wf(v) && v.len() >= 4 && v.len() <= 255,
        SpecDhcpOption::NetworkInformationServicePlusServer(v) => v.len() >= 1 && 4 * v.len() <= 255,
        SpecDhcpOption::TftpServer(v) => ascii_wf(v) && v.len() <= 255,
        SpecDhcpOption::BootFileName(v) => ascii_wf(v) && v.len() >= 1 && v.len() <= 255,
        SpecDhcpOption::MobileIpHomeAgent(v) => 4 * v.len() <= 255,
        SpecDhcpOption::SmtpServer(v) => v.len() >= 1 && 4 * v.len() <= 255,
        SpecDhcpOption::Pop3Server(v) => v.len() >= 1 && 4 * v.len() <= 255,
        SpecDhcpOption::NntpServer(v) => v.len() >= 1 && 4 * v.len() <= 255,
        SpecDhcpOption::WwwServer(v) => v.len() >= 1 && 4 * v.len() <= 255,
        SpecDhcpOption::FingerServer(v) => v.len() >= 1 && 4 * v.len() <= 255,
        SpecDhcpOption::IrcServer(v) => v.len() >= 1 && 4 * v.len() <= 255,
        SpecDhcpOption::StreetTalkServer(v) => v.len() >= 1 && 4 * v.len() <= 255,
        SpecDhcpOption::StreetTalkDirectoryAssistanceServer(v) => v.len() >= 1 && 4 * v.len() <= 255,
        SpecDhcpOption::End => true,
        SpecDhcpOption::RelayAgentInformation(v) => v.len() >= 1 && relay_payload(v).len() <= 255 && (forall|k: int| 0 <= k < v.len() ==> relay_sub_data(#[trigger] v[k]).len() <= 255),
        SpecDhcpOption::Unknown(t, d) => !is_known_tag(t) && d.len() <= 255,
    }
}

/// The payload fits its one length byte, so the encoding is faithful.
pub open spec fn opt_encodable(o: SpecDhcpOption) -> bool {
    match o {
        SpecDhcpOption::Pad => true,
        SpecDhcpOption::SubnetMask(_) => true,
        SpecDhcpOption::TimeOffset(_) => true,
        SpecDhcpOption::Router(v) => 4 * v.len() <= 255,
        SpecDhcpOption::TimeServer(v) => 4 * v.len() <= 255,
        SpecDhcpOption::NameServer(v) => 4 * v.len() <= 255,
        SpecDhcpOption::DomainNameServer(v) => 4 * v.len() <= 255,
        SpecDhcpOption::LogServer(v) => 4 * v.len() <= 255,
        SpecDhcpOption::CookieServer(v) => 4 * v.len() <= 255,
        SpecDhcpOption::LPRServer(v) => 4 * v.len() <= 255,
        SpecDhcpOption::ImpressServer(v) => 4 * v.len() <= 255,
        SpecDhcpOption::ResourceLocationServer(v) => 4 * v.len() <= 255,
        SpecDhcpOption::HostName(v) => v.len() <= 255,
        SpecDhcpOption::BootFileSize(_) => true,
        SpecDhcpOption::MeritDumpFile(v) => v.len() <= 255,
        SpecDhcpOption::DomainName(v) => v.len() <= 255,
        SpecDhcpOption::SwapServer(_) => true,
        SpecDhcpOption::RootPath(v) => v.len() <= 255,
        SpecDhcpOption::ExtensionPath(v) => v.len() <= 255,
        SpecDhcpOption::IpForwarding(_) => true,
        SpecDhcpOption::NonLocalSourceRouting(_) => true,
        SpecDhcpOption::PolicyFilter(v) => 8 * v.len() <= 255,
        SpecDhcpOption::MaximumDatagramReassemblySize(_) => true,
        SpecDhcpOption::DefaultIpTTL(_) => true,
        SpecDhcpOption::PathMtuAgingTimeout(_) => true,
        SpecDhcpOption::PathMtuPlateauTable(v) => 2 * v.len() <= 255,
        SpecDhcpOption::InterfaceMtu(_) => true,
        SpecDhcpOption::AllSubnetsLocal(_) => true,
        SpecDhcpOption::BroadcastAddress(_) => true,
        SpecDhcpOption::PerformMaskDiscovery(_) => true,
        SpecDhcpOption::MaskSupplier(_) => true,
        SpecDhcpOption::PerformRouterDiscovery(_) => true,
        SpecDhcpOption::RouterSolicitationAddress(_) => true,
        SpecDhcpOption::StaticRoute(v) => 8 * v.len() <= 255,
        SpecDhcpOption::TrailerEncapsulation(_) => true,
        SpecDhcpOption::ArpCacheTimeout(_) => true,
        SpecDhcpOption::EthernetEncapsulation(_) => true,
        SpecDhcpOption::TcpDefaultTTL(_) => true,
        SpecDhcpOption::TcpKeepAliveInterval(_) => true,
        SpecDhcpOption::TcpKeepAliveGarbage(_) => true,
        SpecDhcpOption::NetworkInformationServiceDomain(v) => v.len() <= 255,
        SpecDhcpOption::NetworkInformationServers(v) => 4 * v.len() <= 255,
        SpecDhcpOption::NetworkTimeProtocolServers(v) => 4 * v.len() <= 255,
        SpecDhcpOption::VendorSpecific(v) => v.len() <= 255,
        SpecDhcpOption::NetBiosOverTcpIpNameServer(v) => 4 * v.len() <= 255,
        SpecDhcpOption::NetBiosOverTcpIpDatagramDistributionServer(v) => 4 * v.len() <= 255,
        SpecDhcpOption::NetBiosOverTcpIpNodeType(_) => true,
        SpecDhcpOption::NetBiosOverTcpIpScope(v) => v.len() <= 255,
        SpecDhcpOption::XWindowSystemFontServer(v) => 4 * v.len() <= 255,
        SpecDhcpOption::XWindowSystemDisplayManager(v) => 4 * v.len() <= 255,
        SpecDhcpOption::RequestedIpAddress(_) => true,
        SpecDhcpOption::IpAddressLeaseTime(_) => true,
        SpecDhcpOption::OptionOverload(_) => true,
        SpecDhcpOption::MessageType(_) => true,
        SpecDhcpOption::ServerIdentifier(_) => true,
        SpecDhcpOption::ParameterRequestList(v) => v.len() <= 255,
        SpecDhcpOption::Message(v) => v.len() <= 255,
        SpecDhcpOption::MaximumDhcpMessageSize(_) => true,
        SpecDhcpOption::RenewalTimeValue(_) => true,
        SpecDhcpOption::RebindingTimeValue(_) => true,
        SpecDhcpOption::VendorClassIdentifier(v) => v.len() <= 255,
        SpecDhcpOption::ClientIdentifier(v) => v.data.len() <= 254,
        SpecDhcpOption::NetworkInformationServicePlusDomain(v) => v.len() <= 255,
        SpecDhcpOption::NetworkInformationServicePlusServer(v) => 4 * v.len() <= 255,
        SpecDhcpOption::TftpServer(v) => v.len() <= 255,
        SpecDhcpOption::BootFileName(v) => v.len() <= 255,
        SpecDhcpOption::MobileIpHomeAgent(v) => 4 * v.len() <= 255,
        SpecDhcpOption::SmtpServer(v) => 4 * v.len() <= 255,
        SpecDhcpOption::Pop3Server(v) => 4 * v.len() <= 255,
        SpecDhcpOption::NntpServer(v) => 4 * v.len() <= 255,
        SpecDhcpOption::WwwServer(v) => 4 * v.len() <= 255,
        SpecDhcpOption::FingerServer(v) => 4 * v.len() <= 255,
        SpecDhcpOption::IrcServer(v) => 4 * v.len() <= 255,
        SpecDhcpOption::StreetTalkServer(v) => 4 * v.len() <= 255,
        SpecDhcpOption::StreetTalkDirectoryAssistanceServer(v) => 4 * v.len() <= 255,
        SpecDhcpOption::End => true,
        SpecDhcpOption::RelayAgentInformation(v) => relay_payload(v).len() <= 255 && (forall|k: int| 0 <= k < v.len() ==> relay_sub_data(#[trigger] v[k]).len() <= 255),
        SpecDhcpOption::Unknown(_, d) => d.len() <= 255,
    }
}

/// What decoding a payload under the given tag gives: the typed option,
/// a parse error for a malformed payload, a value error for one outside
/// its domain, or the raw fallback for an unknown tag.
pub open spec fn opt_decode(tag: u8, data: Seq<u8>) -> Result<SpecDhcpOption, DhcpError> {
    if tag == PAD {
        Ok(SpecDhcpOption::Pad)
    } else if tag == SUBNET_MASK {
        if data.len() < 4 { Err(DhcpError::OptionParseError(tag)) } else { Ok(SpecDhcpOption::SubnetMask(ipv4_at(data, 0))) }
    } else if tag == TIME_OFFSET {
        if data.len() < 4 { Err(DhcpError::OptionParseError(tag)) } else { Ok(SpecDhcpOption::TimeOffset(i32_from_u32(be32(data[0], data[1], data[2], data[3])))) }
    } else if tag == ROUTER {
        if data.len() < 4 { Err(DhcpError::OptionParseError(tag)) } else if data.len() % 4 != 0 { Err(DhcpError::OptionParseError(tag)) } else { Ok(SpecDhcpOption::Router(parse_ipv4s(data))) }
    } else if tag == TIME_SERVER {
        if data.len() < 4 { Err(DhcpError::OptionParseError(tag)) } else if data.len() % 4 != 0 { Err(DhcpError::OptionParseError(tag)) } else { Ok(SpecDhcpOption::TimeServer(parse_ipv4s(data))) }
    } else if tag == NAME_SERVER {
        if data.len() < 4 { Err(DhcpError::OptionParseError(tag)) } else if data.len() % 4 != 0 { Err(DhcpError::OptionParseError(tag)) } else { Ok(SpecDhcpOption::NameServer(parse_ipv4s(data))) }
    } else if tag == DOMAIN_NAME_SERVER {
        if data.len() < 4 { Err(DhcpError::OptionParseError(tag)) } else if data.len() % 4 != 0 { Err(DhcpError::OptionParseError(tag)) } else { Ok(SpecDhcpOption::DomainNameServer(parse_ipv4s(data))) }
    } else if tag == LOG_SERVER {
        if data.len() < 4 { Err(DhcpError::OptionParseError(tag)) } else if data.len() % 4 != 0 { Err(DhcpError::OptionParseError(tag)) } else { Ok(SpecDhcpOption::LogServer(parse_ipv4s(data))) }
    } else if tag == COOKIE_SERVER {
        if data.len() < 4 { Err(DhcpError::OptionParseError(tag)) } else if data.len() % 4 != 0 { Err(DhcpError::OptionParseError(tag)) } else { Ok(SpecDhcpOption::CookieServer(parse_ipv4s(data))) }
    } else if tag == LPR_SERVER {
        if data.len() < 4 { Err(DhcpError::OptionParseError(tag)) } else if data.len() % 4 != 0 { Err(DhcpError::OptionParseError(tag)) } else { Ok(SpecDhcpOption::LPRServer(parse_ipv4s(data))) }
    } else if tag == IMPRESS_SERVER {
        if data.len() < 4 { Err(DhcpError::OptionParseError(tag)) } else if data.len() % 4 != 0 { Err(DhcpError::OptionParseError(tag)) } else { Ok(SpecDhcpOption::ImpressServer(parse_ipv4s(data))) }
    } else if tag == RESOURCE_LOCATION_SERVER {
        if data.len() < 4 { Err(DhcpError::OptionParseError(tag)) } else if data.len() % 4 != 0 { Err(DhcpError::OptionParseError(tag)) } else { Ok(SpecDhcpOption::ResourceLocationServer(parse_ipv4s(data))) }
    } else if tag == HOST_NAME {
        if data.len() < 1 { Err(DhcpError::OptionParseError(tag)) } else if !ascii_wf(data) { Err(DhcpError::OptionParseError(tag)) } else { Ok(SpecDhcpOption::HostName(data)) }
    } else if tag == BOOT_FILE_SIZE {
        if data.len() < 2 { Err(DhcpError::OptionParseError(tag)) } else { Ok(SpecDhcpOption::BootFileSize(be16(data[0], data[1]))) }
    } else if tag == MERIT_DUMP_FILE {
        if data.len() < 1 { Err(DhcpError::OptionParseError(tag)) } else if !ascii_wf(data) { Err(DhcpError::OptionParseError(tag)) } else { Ok(SpecDhcpOption::MeritDumpFile(data)) }
    } else if tag == DOMAIN_NAME {
        if data.len() < 1 { Err(DhcpError::OptionParseError(tag)) } else if !ascii_wf(data) { Err(DhcpError::OptionParseError(tag)) } else { Ok(SpecDhcpOption::DomainName(data)) }
    } else if tag == SWAP_SERVER {
        if data.len() < 4 { Err(DhcpError::OptionParseError(tag)) } else { Ok(SpecDhcpOption::SwapServer(ipv4_at(data, 0))) }
    } else if tag == ROOT_PATH {
        if data.len() < 1 { Err(DhcpError::OptionParseError(tag)) } else if !ascii_wf(data) { Err(DhcpError::OptionParseError(tag)) } else { Ok(SpecDhcpOption::RootPath(data)) }
    } else if tag == EXTENSION_PATH {
        if data.len() < 1 { Err(DhcpError::OptionParseError(tag)) } else if !ascii_wf(data) { Err(DhcpError::OptionParseError(tag)) } else { Ok(SpecDhcpOption::ExtensionPath(data)) }
    } else if tag == IP_FORWARDING {
        if data.len() < 1 || data[0] > 1 { Err(DhcpError::OptionParseError(tag)) } else { Ok(SpecDhcpOption::IpForwarding(data[0] == 1)) }
    } else if tag == NON_LOCAL_SOURCE_ROUTING {
        if data.len() < 1 || data[0] > 1 { Err(DhcpError::OptionParseError(tag)) } else { Ok(SpecDhcpOption::NonLocalSourceRouting(data[0] == 1)) }
    } else if tag == POLICY_FILTER {
        if data.len() < 8 { Err(DhcpError::OptionParseError(tag)) } else if data.len() % 8 != 0 { Err(DhcpError::OptionParseError(tag)) } else { Ok(SpecDhcpOption::PolicyFilter(parse_masks(data))) }
    } else if tag == MAXIMUM_DATAGRAM_REASSEMBLY_SIZE {
        if data.len() < 2 { Err(DhcpError::OptionParseError(tag)) } else if be16(data[0], data[1]) < 576 { Err(DhcpError::OptionInvalidValueError(tag)) } else { Ok(SpecDhcpOption::MaximumDatagramReassemblySize(be16(data[0], data[1]))) }
    } else if tag == DEFAULT_IP_TTL {
        if data.len() < 1 { Err(DhcpError::OptionParseError(tag)) } else { Ok(SpecDhcpOption::DefaultIpTTL(data[0])) }
    } else if tag == PATH_MTU_AGING_TIMEOUT {
        if data.len() < 4 { Err(DhcpError::OptionParseError(tag)) } else { Ok(SpecDhcpOption::PathMtuAgingTimeout(be32(data[0], data[1], data[2], data[3]))) }
    } else if tag == PATH_MTU_PLATEAU_TABLE {
        if data.len() < 2 { Err(DhcpError::OptionParseError(tag)) } else if data.len() % 2 != 0 { Err(DhcpError::OptionParseError(tag)) } else { Ok(SpecDhcpOption::PathMtuPlateauTable(parse_u16s(data))) }
    } else if tag == INTERFACE_MTU {
        if data.len() < 2 { Err(DhcpError::OptionParseError(tag)) } else { Ok(SpecDhcpOption::InterfaceMtu(be16(data[0], data[1]))) }
    } else if tag == ALL_SUBNETS_LOCAL {
        if data.len() < 1 || data[0] > 1 { Err(DhcpError::OptionParseError(tag)) } else { Ok(SpecDhcpOption::AllSubnetsLocal(data[0] == 1)) }
    } else if tag == BROADCAST_ADDRESS {
        if data.len() < 4 { Err(DhcpError::OptionParseError(tag)) } else { Ok(SpecDhcpOption::BroadcastAddress(ipv4_at(data, 0))) }
    } else if tag == PERFORM_MASK_DISCOVERY {
        if data.len() < 1 || data[0] > 1 { Err(DhcpError::OptionParseError(tag)) } else { Ok(SpecDhcpOption::PerformMaskDiscovery(data[0] == 1)) }
    } else if tag == MASK_SUPPLIER {
        if data.len() < 1 || data[0] > 1 { Err(DhcpError::OptionParseError(tag)) } else { Ok(SpecDhcpOption::MaskSupplier(data[0] == 1)) }
    } else if tag == PERFORM_ROUTER_DISCOVERY {
        if data.len() < 1 || data[0] > 1 { Err(DhcpError::OptionParseError(tag)) } else { Ok(SpecDhcpOption::PerformRouterDiscovery(data[0] == 1)) }
    } else if tag == ROUTER_SOLICITATION_ADDRESS {
        if data.len() < 4 { Err(DhcpError::OptionParseError(tag)) } else { Ok(SpecDhcpOption::RouterSolicitationAddress(ipv4_at(data, 0))) }
    } else if tag == STATIC_ROUTE {
        if data.len() < 8 { Err(DhcpError::OptionParseError(tag)) } else if data.len() % 8 != 0 { Err(DhcpError::OptionParseError(tag)) } else { Ok(SpecDhcpOption::StaticRoute(parse_routes(data))) }
    } else if tag == TRAILER_ENCAPSULATION {
        if data.len() < 1 || data[0] > 1 { Err(DhcpError::OptionParseError(tag)) } else { Ok(SpecDhcpOption::TrailerEncapsulation(data[0] == 1)) }
    } else if tag == ARP_CACHE_TIMEOUT {
        if data.len() < 4 { Err(DhcpError::OptionParseError(tag)) } else { Ok(SpecDhcpOption::ArpCacheTimeout(be32(data[0], data[1], data[2], data[3]))) }
    } else if tag == ETHERNET_ENCAPSULATION {
        if data.len() < 1 || data[0] > 1 { Err(DhcpError::OptionParseError(tag)) } else { Ok(SpecDhcpOption::EthernetEncapsulation(data[0] == 1)) }
    } else if tag == TCP_DEFAULT_TTL {
        if data.len() < 1 { Err(DhcpError::OptionParseError(tag)) } else if data[0] < 1 { Err(DhcpError::OptionInvalidValueError(tag)) } else { Ok(SpecDhcpOption::TcpDefaultTTL(data[0])) }
    } else if tag == TCP_KEEPALIVE_INTERVAL {
        if data.len() < 4 { Err(DhcpError::OptionParseError(tag)) } else { Ok(SpecDhcpOption::TcpKeepAliveInterval(be32(data[0], data[1], data[2], data[3]))) }
    } else if tag == TCP_KEEPALIVE_GARGABE {
        if data.len() < 1 || data[0] > 1 { Err(DhcpError::OptionParseError(tag)) } else { Ok(SpecDhcpOption::TcpKeepAliveGarbage(data[0] == 1)) }
    } else if tag == NETWORK_INFORMATION_SERVICE_DOMAIN {
        if data.len() < 1 { Err(DhcpError::OptionParseError(tag)) } else if !ascii_wf(data) { Err(DhcpError::OptionParseError(tag)) } else { Ok(SpecDhcpOption::NetworkInformationServiceDomain(data)) }
    } else if tag == NETWORK_INFORMATION_SERVERS {
        if data.len() < 4 { Err(DhcpError::OptionParseError(tag)) } else if data.len() % 4 != 0 { Err(DhcpError::OptionParseError(tag)) } else { Ok(SpecDhcpOption::NetworkInformationServers(parse_ipv4s(data))) }
    } else if tag == NETWORK_TIME_PROTOCOL_SERVERS {
        if data.len() < 4 { Err(DhcpError::OptionParseError(tag)) } else if data.len() % 4 != 0 { Err(DhcpError::OptionParseError(tag)) } else { Ok(SpecDhcpOption::NetworkTimeProtocolServers(parse_ipv4s(data))) }
    } else if tag == VENDOR_SPECIFIC {
        if data.len() < 1 { Err(DhcpError::OptionParseError(tag)) } else { Ok(SpecDhcpOption::VendorSpecific(data)) }
    } else if tag == NETBIOS_OVER_TCP_IP_NAME_SERVER {
        if data.len() < 4 { Err(DhcpError::OptionParseError(tag)) } else if data.len() % 4 != 0 { Err(DhcpError::OptionParseError(tag)) } else { Ok(SpecDhcpOption::NetBiosOverTcpIpNameServer(parse_ipv4s(data))) }
    } else if tag == NETBIOS_OVER_TCP_IP_DATAGRAM_DISTRIBUTION_SERVER {
        if data.len() < 4 { Err(DhcpError::OptionParseError(tag)) } else if data.len() % 4 != 0 { Err(DhcpError::OptionParseError(tag)) } else { Ok(SpecDhcpOption::NetBiosOverTcpIpDatagramDistributionServer(parse_ipv4s(data))) }
    } else if tag == NETBIOS_OVER_TCP_IP_NODE_TYPE {
        if data.len() < 1 { Err(DhcpError::OptionParseError(tag)) } else { match netbios_of(data[0]) { Some(v) => Ok(SpecDhcpOption::NetBiosOverTcpIpNodeType(v)), None => Err(DhcpError::OptionParseError(tag)) } }
    } else if tag == NETBIOS_OVER_TCP_IP_SCOPE {
        if data.len() < 1 { Err(DhcpError::OptionParseError(tag)) } else if !ascii_wf(data) { Err(DhcpError::OptionParseError(tag)) } else { Ok(SpecDhcpOption::NetBiosOverTcpIpScope(data)) }
    } else if tag == X_WINDOW_SYSTEM_FONT_SERVER {
        if data.len() < 4 { Err(DhcpError::OptionParseError(tag)) } else if data.len() % 4 != 0 { Err(DhcpError::OptionParseError(tag)) } else { Ok(SpecDhcpOption::XWindowSystemFontServer(parse_ipv4s(data))) }
    } else if tag == X_WINDOW_SYSTEM_DISPLAY_MANAGER {
        if data.len() < 4 { Err(DhcpError::OptionParseError(tag)) } else if data.len() % 4 != 0 { Err(DhcpError::OptionParseError(tag)) } else { Ok(SpecDhcpOption::XWindowSystemDisplayManager(parse_ipv4s(data))) }
    } else if tag == REQUESTED_IP_ADDRESS {
        if data.len() < 4 { Err(DhcpError::OptionParseError(tag)) } else { Ok(SpecDhcpOption::RequestedIpAddress(ipv4_at(data, 0))) }
    } else if tag == IP_ADDRESS_LEASE_TIME {
        if data.len() < 4 { Err(DhcpError::OptionParseError(tag)) } else { Ok(SpecDhcpOption::IpAddressLeaseTime(be32(data[0], data[1], data[2], data[3]))) }
    } else if tag == OPTION_OVERLOAD {
        if data.len() < 1 { Err(DhcpError::OptionParseError(tag)) } else { match overload_of(data[0]) { Some(v) => Ok(SpecDhcpOption::OptionOverload(v)), None => Err(DhcpError::OptionParseError(tag)) } }
    } else if tag == MESSAGE_TYPE {
        if data.len() < 1 { Err(DhcpError::OptionParseError(tag)) } else { match message_type_of(data[0]) { Some(v) => Ok(SpecDhcpOption::MessageType(v)), None => Err(DhcpError::OptionParseError(tag)) } }
    } else if tag == SERVER_IDENTIFIER {
        if data.len() < 4 { Err(DhcpError::OptionParseError(tag)) } else { Ok(SpecDhcpOption::ServerIdentifier(ipv4_at(data, 0))) }
    } else if tag == PARAMETER_REQUEST_LIST {
        if data.len() < 1 { Err(DhcpError::OptionParseError(tag)) } else { Ok(SpecDhcpOption::ParameterRequestList(data)) }
    } else if tag == MESSAGE {
        if data.len() < 1 { Err(DhcpError::OptionParseError(tag)) } else if !ascii_wf(data) { Err(DhcpError::OptionParseError(tag)) } else { Ok(SpecDhcpOption::Message(data)) }
    } else if tag == MAXIMUM_DHCP_MESSAGE_SIZE {
        if data.len() < 2 { Err(DhcpError::OptionParseError(tag)) } else if be16(data[0], data[1]) < 576 { Err(DhcpError::OptionInvalidValueError(tag)) } else { Ok(SpecDhcpOption::MaximumDhcpMessageSize(be16(data[0], data[1]))) }
    } else if tag == RENEWAL_TIME_VALUE {
        if data.len() < 4 { Err(DhcpError::OptionParseError(tag)) } else { Ok(SpecDhcpOption::RenewalTimeValue(be32(data[0], data[1], data[2], data[3]))) }
    } else if tag == REBINDING_TIME_VALUE {
        if data.len() < 4 { Err(DhcpError::OptionParseError(tag)) } else { Ok(SpecDhcpOption::RebindingTimeValue(be32(data[0], data[1], data[2], data[3]))) }
    } else if tag == VENDOR_CLASS_IDENTIFIER {
        if data.len() < 1 { Err(DhcpError::OptionParseError(tag)) } else { Ok(SpecDhcpOption::VendorClassIdentifier(data)) }
    } else if tag == CLIENT_IDENTIFIER {
        if data.len() < 1 { Err(DhcpError::OptionParseError(tag)) } else { Ok(SpecDhcpOption::ClientIdentifier(SpecClientIdentifier { typ: data[0], data: data.subrange(1, data.len() as int) })) }
    } else if tag == NETWORK_INFORMATION_SERVICE_PLUS_DOMAIN {
        if data.len() < 4 { Err(DhcpError::OptionParseError(tag)) } else if !ascii_wf(data) { Err(DhcpError::OptionParseError(tag)) } else { Ok(SpecDhcpOption::NetworkInformationServicePlusDomain(data)) }
    } else if tag == NETWORK_INFORMATION_SERVICE_PLUS_SERVERS {
        if data.len() < 4 { Err(DhcpError::OptionParseError(tag)) } else if data.len() % 4 != 0 { Err(DhcpError::OptionParseError(tag)) } else { Ok(SpecDhcpOption::NetworkInformationServicePlusServer(parse_ipv4s(data))) }
    } else if tag == TFTP_SERVER_NAME {
        if !ascii_wf(data) { Err(DhcpError::OptionParseError(tag)) } else { Ok(SpecDhcpOption::TftpServer(data)) }
    } else if tag == BOOT_FILE_NAME {
        if data.len() < 1 { Err(DhcpError::OptionParseError(tag)) } else if !ascii_wf(data) { Err(DhcpError::OptionParseError(tag)) } else { Ok(SpecDhcpOption::BootFileName(data)) }
    } else if tag == MOBILE_IP_HOME_AGENT {
        if data.len() % 4 != 0 { Err(DhcpError::OptionParseError(tag)) } else { Ok(SpecDhcpOption::MobileIpHomeAgent(parse_ipv4s(data))) }
    } else if tag == SMTP_SERVER {
        if data.len() < 4 { Err(DhcpError::OptionParseError(tag)) } else if data.len() % 4 != 0 { Err(DhcpError::OptionParseError(tag)) } else { Ok(SpecDhcpOption::SmtpServer(parse_ipv4s(data))) }
    } else if tag == POP3_SERVER {
        if data.len() < 4 { Err(DhcpError::OptionParseError(tag)) } else if data.len() % 4 != 0 { Err(DhcpError::OptionParseError(tag)) } else { Ok(SpecDhcpOption::Pop3Server(parse_ipv4s(data))) }
    } else if tag == NNTP_SERVER {
        if data.len() < 4 { Err(DhcpError::OptionParseError(tag)) } else if data.len() % 4 != 0 { Err(DhcpError::OptionParseError(tag)) } else { Ok(SpecDhcpOption::NntpServer(parse_ipv4s(data))) }
    } else if tag == WWW_SERVER {
        if data.len() < 4 { Err(DhcpError::OptionParseError(tag)) } else if data.len() % 4 != 0 { Err(DhcpError::OptionParseError(tag)) } else { Ok(SpecDhcpOption::WwwServer(parse_ipv4s(data))) }
    } else if tag == FINGER_SERVER {
        if data.len() < 4 { Err(DhcpError::OptionParseError(tag)) } else if data.len() % 4 != 0 { Err(DhcpError::OptionParseError(tag)) } else { Ok(SpecDhcpOption::FingerServer(parse_ipv4s(data))) }
    } else if tag == IRC_SERVER {
        if data.len() < 4 { Err(DhcpError::OptionParseError(tag)) } else if data.len() % 4 != 0 { Err(DhcpError::OptionParseError(tag)) } else { Ok(SpecDhcpOption::IrcServer(parse_ipv4s(data))) }
    } else if tag == STREET_TALK_SERVER {
        if data.len() < 4 { Err(DhcpError::OptionParseError(tag)) } else if data.len() % 4 != 0 { Err(DhcpError::OptionParseError(tag)) } else { Ok(SpecDhcpOption::StreetTalkServer(parse_ipv4s(data))) }
    } else if tag == STREET_TALK_DIRECTORY_ASSISTANCE {
        if data.len() < 4 { Err(DhcpError::OptionParseError(tag)) } else if data.len() % 4 != 0 { Err(DhcpError::OptionParseError(tag)) } else { Ok(SpecDhcpOption::StreetTalkDirectoryAssistanceServer(parse_ipv4s(data))) }
    } else if tag == END {
        Ok(SpecDhcpOption::End)
    } else if tag == RELAY_AGENT_INFORMATION {
        match parse_relay_stream(data) { Some(v) => Ok(SpecDhcpOption::RelayAgentInformation(v)), None => Err(DhcpError::OptionParseError(tag)) }
    } else {
        Ok(SpecDhcpOption::Unknown(tag, data))
    }
}


impl DhcpOption {
    /// Returns the Dhcp tag
    pub fn tag(&self) -> (r: u8)
        ensures
            r == spec_tag(self@),
    {
        match self {
            DhcpOption::Pad => PAD,
            DhcpOption::SubnetMask(_) => SUBNET_MASK,
            DhcpOption::TimeOffset(_) => TIME_OFFSET,
            DhcpOption::Router(_) => ROUTER,
            DhcpOption::TimeServer(_) => TIME_SERVER,
            DhcpOption::NameServer(_) => NAME_SERVER,
            DhcpOption::DomainNameServer(_) => DOMAIN_NAME_SERVER,
            DhcpOption::LogServer(_) => LOG_SERVER,
            DhcpOption::CookieServer(_) => COOKIE_SERVER,
            DhcpOption::LPRServer(_) => LPR_SERVER,
            DhcpOption::ImpressServer(_) => IMPRESS_SERVER,
            DhcpOption::ResourceLocationServer(_) => RESOURCE_LOCATION_SERVER,
            DhcpOption::HostName(_) => HOST_NAME,
            DhcpOption::BootFileSize(_) => BOOT_FILE_SIZE,
            DhcpOption::MeritDumpFile(_) => MERIT_DUMP_FILE,
            DhcpOption::DomainName(_) => DOMAIN_NAME,
            DhcpOption::SwapServer(_) => SWAP_SERVER,
            DhcpOption::RootPath(_) => ROOT_PATH,
            DhcpOption::ExtensionPath(_) => EXTENSION_PATH,
            DhcpOption::IpForwarding(_) => IP_FORWARDING,
            DhcpOption::NonLocalSourceRouting(_) => NON_LOCAL_SOURCE_ROUTING,
            DhcpOption::PolicyFilter(_) => POLICY_FILTER,
            DhcpOption::MaximumDatagramReassemblySize(_) => MAXIMUM_DATAGRAM_REASSEMBLY_SIZE,
            DhcpOption::DefaultIpTTL(_) => DEFAULT_IP_TTL,
            DhcpOption::PathMtuAgingTimeout(_) => PATH_MTU_AGING_TIMEOUT,
            DhcpOption::PathMtuPlateauTable(_) => PATH_MTU_PLATEAU_TABLE,
            DhcpOption::InterfaceMtu(_) => INTERFACE_MTU,
            DhcpOption::AllSubnetsLocal(_) => ALL_SUBNETS_LOCAL,
            DhcpOption::BroadcastAddress(_) => BROADCAST_ADDRESS,
            DhcpOption::PerformMaskDiscovery(_) => PERFORM_MASK_DISCOVERY,
            DhcpOption::MaskSupplier(_) => MASK_SUPPLIER,
            DhcpOption::PerformRouterDiscovery(_) => PERFORM_ROUTER_DISCOVERY,
            DhcpOption::RouterSolicitationAddress(_) => ROUTER_SOLICITATION_ADDRESS,
            DhcpOption::StaticRoute(_) => STATIC_ROUTE,
            DhcpOption::TrailerEncapsulation(_) => TRAILER_ENCAPSULATION,
            DhcpOption::ArpCacheTimeout(_) => ARP_CACHE_TIMEOUT,
            DhcpOption::EthernetEncapsulation(_) => ETHERNET_ENCAPSULATION,
            DhcpOption::TcpDefaultTTL(_) => TCP_DEFAULT_TTL,
            DhcpOption::TcpKeepAliveInterval(_) => TCP_KEEPALIVE_INTERVAL,
            DhcpOption::TcpKeepAliveGarbage(_) => TCP_KEEPALIVE_GARGABE,
            DhcpOption::NetworkInformationServiceDomain(_) => NETWORK_INFORMATION_SERVICE_DOMAIN,
            DhcpOption::NetworkInformationServers(_) => NETWORK_INFORMATION_SERVERS,
            DhcpOption::NetworkTimeProtocolServers(_) => NETWORK_TIME_PROTOCOL_SERVERS,
            DhcpOption::VendorSpecific(_) => VENDOR_SPECIFIC,
            DhcpOption::NetBiosOverTcpIpNameServer(_) => NETBIOS_OVER_TCP_IP_NAME_SERVER,
            DhcpOption::NetBiosOverTcpIpDatagramDistributionServer(_) => NETBIOS_OVER_TCP_IP_DATAGRAM_DISTRIBUTION_SERVER,
            DhcpOption::NetBiosOverTcpIpNodeType(_) => NETBIOS_OVER_TCP_IP_NODE_TYPE,
            DhcpOption::NetBiosOverTcpIpScope(_) => NETBIOS_OVER_TCP_IP_SCOPE,
            DhcpOption::XWindowSystemFontServer(_) => X_WINDOW_SYSTEM_FONT_SERVER,
            DhcpOption::XWindowSystemDisplayManager(_) => X_WINDOW_SYSTEM_DISPLAY_MANAGER,
            DhcpOption::RequestedIpAddress(_) => REQUESTED_IP_ADDRESS,
            DhcpOption::IpAddressLeaseTime(_) => IP_ADDRESS_LEASE_TIME,
            DhcpOption::OptionOverload(_) => OPTION_OVERLOAD,
            DhcpOption::MessageType(_) => MESSAGE_TYPE,
            DhcpOption::ServerIdentifier(_) => SERVER_IDENTIFIER,
            DhcpOption::ParameterRequestList(_) => PARAMETER_REQUEST_LIST,
            DhcpOption::Message(_) => MESSAGE,
            DhcpOption::MaximumDhcpMessageSize(_) => MAXIMUM_DHCP_MESSAGE_SIZE,
            DhcpOption::RenewalTimeValue(_) => RENEWAL_TIME_VALUE,
            DhcpOption::RebindingTimeValue(_) => REBINDING_TIME_VALUE,
            DhcpOption::VendorClassIdentifier(_) => VENDOR_CLASS_IDENTIFIER,
            DhcpOption::ClientIdentifier(_) => CLIENT_IDENTIFIER,
            DhcpOption::NetworkInformationServicePlusDomain(_) => NETWORK_INFORMATION_SERVICE_PLUS_DOMAIN,
            DhcpOption::NetworkInformationServicePlusServer(_) => NETWORK_INFORMATION_SERVICE_PLUS_SERVERS,
            DhcpOption::TftpServer(_) => TFTP_SERVER_NAME,
            DhcpOption::BootFileName(_) => BOOT_FILE_NAME,
            DhcpOption::MobileIpHomeAgent(_) => MOBILE_IP_HOME_AGENT,
            DhcpOption::SmtpServer(_) => SMTP_SERVER,
            DhcpOption::Pop3Server(_) => POP3_SERVER,
            DhcpOption::NntpServer(_) => NNTP_SERVER,
            DhcpOption::WwwServer(_) => WWW_SERVER,
            DhcpOption::FingerServer(_) => FINGER_SERVER,
            DhcpOption::IrcServer(_) => IRC_SERVER,
            DhcpOption::StreetTalkServer(_) => STREET_TALK_SERVER,
            DhcpOption::StreetTalkDirectoryAssistanceServer(_) => STREET_TALK_DIRECTORY_ASSISTANCE,
            DhcpOption::End => END,
            DhcpOption::RelayAgentInformation(_) => RELAY_AGENT_INFORMATION,
            DhcpOption::Unknown(tag, _) => *tag,
        }
    }

    /// Creates a new [`DhcpOption`] from byte slice
    pub fn from_bytes(tag: u8, _length: usize, data: &[u8]) -> (r: DhcpResult<Self>)
        ensures
            opt_decode(tag, data@) matches Ok(m) ==> (r matches Ok(o) && o@ == m),
            opt_decode(tag, data@) matches Err(e) ==> (r matches Err(e2) && e2 == e),
    {
        if tag == PAD {
            Ok(DhcpOption::Pad)
        } else if tag == SUBNET_MASK {
            match parse_ipv4(data, tag) {
                Ok(v) => Ok(DhcpOption::SubnetMask(v)),
                Err(e) => Err(e),
            }
        } else if tag == TIME_OFFSET {
            match parse_i32(data, tag) {
                Ok(v) => Ok(DhcpOption::TimeOffset(v)),
                Err(e) => Err(e),
            }
        } else if tag == ROUTER {
            if data.len() < 4 {
                Err(DhcpError::OptionParseError(tag))
            } else {
                match parse_ipv4_list(data, tag) {
                    Ok(v) => Ok(DhcpOption::Router(v)),
                    Err(e) => Err(e),
                }
            }
        } else if tag == TIME_SERVER {
            if data.len() < 4 {
                Err(DhcpError::OptionParseError(tag))
            } else {
                match parse_ipv4_list(data, tag) {
                    Ok(v) => Ok(DhcpOption::TimeServer(v)),
                    Err(e) => Err(e),
                }
            }
        } else if tag == NAME_SERVER {
            if data.len() < 4 {
                Err(DhcpError::OptionParseError(tag))
            } else {
                match parse_ipv4_list(data, tag) {
                    Ok(v) => Ok(DhcpOption::NameServer(v)),
                    Err(e) => Err(e),
                }
            }
        } else if tag == DOMAIN_NAME_SERVER {
            if data.len() < 4 {
                Err(DhcpError::OptionParseError(tag))
            } else {
                match parse_ipv4_list(data, tag) {
                    Ok(v) => Ok(DhcpOption::DomainNameServer(v)),
                    Err(e) => Err(e),
                }
            }
        } else if tag == LOG_SERVER {
            if data.len() < 4 {
                Err(DhcpError::OptionParseError(tag))
            } else {
                match parse_ipv4_list(data, tag) {
                    Ok(v) => Ok(DhcpOption::LogServer(v)),
                    Err(e) => Err(e),
                }
            }
        } else if tag == COOKIE_SERVER {
            if data.len() < 4 {
                Err(DhcpError::OptionParseError(tag))
            } else {
                match parse_ipv4_list(data, tag) {
                    Ok(v) => Ok(DhcpOption::CookieServer(v)),
                    Err(e) => Err(e),
                }
            }
        } else if tag == LPR_SERVER {
            if data.len() < 4 {
                Err(DhcpError::OptionParseError(tag))
            } else {
                match parse_ipv4_list(data, tag) {
                    Ok(v) => Ok(DhcpOption::LPRServer(v)),
                    Err(e) => Err(e),
                }
            }
        } else if tag == IMPRESS_SERVER {
            if data.len() < 4 {
                Err(DhcpError::OptionParseError(tag))
            } else {
                match parse_ipv4_list(data, tag) {
                    Ok(v) => Ok(DhcpOption::ImpressServer(v)),
                    Err(e) => Err(e),
                }
            }
        } else if tag == RESOURCE_LOCATION_SERVER {
            if data.len() < 4 {
                Err(DhcpError::OptionParseError(tag))
            } else {
                match parse_ipv4_list(data, tag) {
                    Ok(v) => Ok(DhcpOption::ResourceLocationServer(v)),
                    Err(e) => Err(e),
                }
            }
        } else if tag == HOST_NAME {
            if data.len() < 1 {
                Err(DhcpError::OptionParseError(tag))
            } else {
                match parse_ascii(data, tag) {
                    Ok(v) => Ok(DhcpOption::HostName(v)),
                    Err(e) => Err(e),
                }
            }
        } else if tag == BOOT_FILE_SIZE {
            match parse_u16(data, tag) {
                Ok(v) => Ok(DhcpOption::BootFileSize(v)),
                Err(e) => Err(e),
            }
        } else if tag == MERIT_DUMP_FILE {
            if data.len() < 1 {
                Err(DhcpError::OptionParseError(tag))
            } else {
                match parse_ascii(data, tag) {
                    Ok(v) => Ok(DhcpOption::MeritDumpFile(v)),
                    Err(e) => Err(e),
                }
            }
        } else if tag == DOMAIN_NAME {
            if data.len() < 1 {
                Err(DhcpError::OptionParseError(tag))
            } else {
                match parse_ascii(data, tag) {
                    Ok(v) => Ok(DhcpOption::DomainName(v)),
                    Err(e) => Err(e),
                }
            }
        } else if tag == SWAP_SERVER {
            match parse_ipv4(data, tag) {
                Ok(v) => Ok(DhcpOption::SwapServer(v)),
                Err(e) => Err(e),
            }
        } else if tag == ROOT_PATH {
            if data.len() < 1 {
                Err(DhcpError::OptionParseError(tag))
            } else {
                match parse_ascii(data, tag) {
                    Ok(v) => Ok(DhcpOption::RootPath(v)),
                    Err(e) => Err(e),
                }
            }
        } else if tag == EXTENSION_PATH {
            if data.len() < 1 {
                Err(DhcpError::OptionParseError(tag))
            } else {
                match parse_ascii(data, tag) {
                    Ok(v) => Ok(DhcpOption::ExtensionPath(v)),
                    Err(e) => Err(e),
                }
            }
        } else if tag == IP_FORWARDING {
            match parse_bool(data, tag) {
                Ok(v) => Ok(DhcpOption::IpForwarding(v)),
                Err(e) => Err(e),
            }
        } else if tag == NON_LOCAL_SOURCE_ROUTING {
            match parse_bool(data, tag) {
                Ok(v) => Ok(DhcpOption::NonLocalSourceRouting(v)),
                Err(e) => Err(e),
            }
        } else if tag == POLICY_FILTER {
            if data.len() < 8 {
                Err(DhcpError::OptionParseError(tag))
            } else {
                match parse_policy_filter_list(data, tag) {
                    Ok(v) => Ok(DhcpOption::PolicyFilter(v)),
                    Err(e) => Err(e),
                }
            }
        } else if tag == MAXIMUM_DATAGRAM_REASSEMBLY_SIZE {
            match parse_u16(data, tag) {
                Ok(v) => {
                    if v < 576 {
                        Err(DhcpError::OptionInvalidValueError(tag))
                    } else {
                        Ok(DhcpOption::MaximumDatagramReassemblySize(v))
                    }
                },
                Err(e) => Err(e),
            }
        } else if tag == DEFAULT_IP_TTL {
            match parse_u8(data, tag) {
                Ok(v) => Ok(DhcpOption::DefaultIpTTL(v)),
                Err(e) => Err(e),
            }
        } else if tag == PATH_MTU_AGING_TIMEOUT {
            match parse_u32(data, tag) {
                Ok(v) => Ok(DhcpOption::PathMtuAgingTimeout(v)),
                Err(e) => Err(e),
            }
        } else if tag == PATH_MTU_PLATEAU_TABLE {
            if data.len() < 2 {
                Err(DhcpError::OptionParseError(tag))
            } else {
                match parse_u16_list(data, tag) {
                    Ok(v) => Ok(DhcpOption::PathMtuPlateauTable(v)),
                    Err(e) => Err(e),
                }
            }
        } else if tag == INTERFACE_MTU {
            match parse_u16(data, tag) {
                Ok(v) => Ok(DhcpOption::InterfaceMtu(v)),
                Err(e) => Err(e),
            }
        } else if tag == ALL_SUBNETS_LOCAL {
            match parse_bool(data, tag) {
                Ok(v) => Ok(DhcpOption::AllSubnetsLocal(v)),
                Err(e) => Err(e),
            }
        } else if tag == BROADCAST_ADDRESS {
            match parse_ipv4(data, tag) {
                Ok(v) => Ok(DhcpOption::BroadcastAddress(v)),
                Err(e) => Err(e),
            }
        } else if tag == PERFORM_MASK_DISCOVERY {
            match parse_bool(data, tag) {
                Ok(v) => Ok(DhcpOption::PerformMaskDiscovery(v)),
                Err(e) => Err(e),
            }
        } else if tag == MASK_SUPPLIER {
            match parse_bool(data, tag) {
                Ok(v) => Ok(DhcpOption::MaskSupplier(v)),
                Err(e) => Err(e),
            }
        } else if tag == PERFORM_ROUTER_DISCOVERY {
            match parse_bool(data, tag) {
                Ok(v) => Ok(DhcpOption::PerformRouterDiscovery(v)),
                Err(e) => Err(e),
            }
        } else if tag == ROUTER_SOLICITATION_ADDRESS {
            match parse_ipv4(data, tag) {
                Ok(v) => Ok(DhcpOption::RouterSolicitationAddress(v)),
                Err(e) => Err(e),
            }
        } else if tag == STATIC_ROUTE {
            if data.len() < 8 {
                Err(DhcpError::OptionParseError(tag))
            } else {
                match parse_static_route_list(data, tag) {
                    Ok(v) => Ok(DhcpOption::StaticRoute(v)),
                    Err(e) => Err(e),
                }
            }
        } else if tag == TRAILER_ENCAPSULATION {
            match parse_bool(data, tag) {
                Ok(v) => Ok(DhcpOption::TrailerEncapsulation(v)),
                Err(e) => Err(e),
            }
        } else if tag == ARP_CACHE_TIMEOUT {
            match parse_u32(data, tag) {
                Ok(v) => Ok(DhcpOption::ArpCacheTimeout(v)),
                Err(e) => Err(e),
            }
        } else if tag == ETHERNET_ENCAPSULATION {
            match parse_bool(data, tag) {
                Ok(v) => Ok(DhcpOption::EthernetEncapsulation(v)),
                Err(e) => Err(e),
            }
        } else if tag == TCP_DEFAULT_TTL {
            match parse_u8(data, tag) {
                Ok(v) => {
                    if v < 1 {
                        Err(DhcpError::OptionInvalidValueError(tag))
                    } else {
                        Ok(DhcpOption::TcpDefaultTTL(v))
                    }
                },
                Err(e) => Err(e),
            }
        } else if tag == TCP_KEEPALIVE_INTERVAL {
            match parse_u32(data, tag) {
                Ok(v) => Ok(DhcpOption::TcpKeepAliveInterval(v)),
                Err(e) => Err(e),
            }
        } else if tag == TCP_KEEPALIVE_GARGABE {
            match parse_bool(data, tag) {
                Ok(v) => Ok(DhcpOption::TcpKeepAliveGarbage(v)),
                Err(e) => Err(e),
            }
        } else if tag == NETWORK_INFORMATION_SERVICE_DOMAIN {
            if data.len() < 1 {
                Err(DhcpError::OptionParseError(tag))
            } else {
                match parse_ascii(data, tag) {
                    Ok(v) => Ok(DhcpOption::NetworkInformationServiceDomain(v)),
                    Err(e) => Err(e),
                }
            }
        } else if tag == NETWORK_INFORMATION_SERVERS {
            if data.len() < 4 {
                Err(DhcpError::OptionParseError(tag))
            } else {
                match parse_ipv4_list(data, tag) {
                    Ok(v) => Ok(DhcpOption::NetworkInformationServers(v)),
                    Err(e) => Err(e),
                }
            }
        } else if tag == NETWORK_TIME_PROTOCOL_SERVERS {
            if data.len() < 4 {
                Err(DhcpError::OptionParseError(tag))
            } else {
                match parse_ipv4_list(data, tag) {
                    Ok(v) => Ok(DhcpOption::NetworkTimeProtocolServers(v)),
                    Err(e) => Err(e),
                }
            }
        } else if tag == VENDOR_SPECIFIC {
            if data.len() < 1 {
                Err(DhcpError::OptionParseError(tag))
            } else {
                match parse_vec_u8(data, tag) {
                    Ok(v) => Ok(DhcpOption::VendorSpecific(v)),
                    Err(e) => Err(e),
                }
            }
        } else if tag == NETBIOS_OVER_TCP_IP_NAME_SERVER {
            if data.len() < 4 {
                Err(DhcpError::OptionParseError(tag))
            } else {
                match parse_ipv4_list(data, tag) {
                    Ok(v) => Ok(DhcpOption::NetBiosOverTcpIpNameServer(v)),
                    Err(e) => Err(e),
                }
            }
        } else if tag == NETBIOS_OVER_TCP_IP_DATAGRAM_DISTRIBUTION_SERVER {
            if data.len() < 4 {
                Err(DhcpError::OptionParseError(tag))
            } else {
                match parse_ipv4_list(data, tag) {
                    Ok(v) => Ok(DhcpOption::NetBiosOverTcpIpDatagramDistributionServer(v)),
                    Err(e) => Err(e),
                }
            }
        } else if tag == NETBIOS_OVER_TCP_IP_NODE_TYPE {
            match parse_netbios_node_type(data, tag) {
                Ok(v) => Ok(DhcpOption::NetBiosOverTcpIpNodeType(v)),
                Err(e) => Err(e),
            }
        } else if tag == NETBIOS_OVER_TCP_IP_SCOPE {
            if data.len() < 1 {
                Err(DhcpError::OptionParseError(tag))
            } else {
                match parse_ascii(data, tag) {
                    Ok(v) => Ok(DhcpOption::NetBiosOverTcpIpScope(v)),
                    Err(e) => Err(e),
                }
            }
        } else if tag == X_WINDOW_SYSTEM_FONT_SERVER {
            if data.len() < 4 {
                Err(DhcpError::OptionParseError(tag))
            } else {
                match parse_ipv4_list(data, tag) {
                    Ok(v) => Ok(DhcpOption::XWindowSystemFontServer(v)),
                    Err(e) => Err(e),
                }
            }
        } else if tag == X_WINDOW_SYSTEM_DISPLAY_MANAGER {
            if data.len() < 4 {
                Err(DhcpError::OptionParseError(tag))
            } else {
                match parse_ipv4_list(data, tag) {
                    Ok(v) => Ok(DhcpOption::XWindowSystemDisplayManager(v)),
                    Err(e) => Err(e),
                }
            }
        } else if tag == REQUESTED_IP_ADDRESS {
            match parse_ipv4(data, tag) {
                Ok(v) => Ok(DhcpOption::RequestedIpAddress(v)),
                Err(e) => Err(e),
            }
        } else if tag == IP_ADDRESS_LEASE_TIME {
            match parse_u32(data, tag) {
                Ok(v) => Ok(DhcpOption::IpAddressLeaseTime(v)),
                Err(e) => Err(e),
            }
        } else if tag == OPTION_OVERLOAD {
            match parse_overload(data, tag) {
                Ok(v) => Ok(DhcpOption::OptionOverload(v)),
                Err(e) => Err(e),
            }
        } else if tag == MESSAGE_TYPE {
            match parse_message_type(data, tag) {
                Ok(v) => Ok(DhcpOption::MessageType(v)),
                Err(e) => Err(e),
            }
        } else if tag == SERVER_IDENTIFIER {
            match parse_ipv4(data, tag) {
                Ok(v) => Ok(DhcpOption::ServerIdentifier(v)),
                Err(e) => Err(e),
            }
        } else if tag == PARAMETER_REQUEST_LIST {
            if data.len() < 1 {
                Err(DhcpError::OptionParseError(tag))
            } else {
                match parse_vec_u8(data, tag) {
                    Ok(v) => Ok(DhcpOption::ParameterRequestList(v)),
                    Err(e) => Err(e),
                }
            }
        } else if tag == MESSAGE {
            if data.len() < 1 {
                Err(DhcpError::OptionParseError(tag))
            } else {
                match parse_ascii(data, tag) {
                    Ok(v) => Ok(DhcpOption::Message(v)),
                    Err(e) => Err(e),
                }
            }
        } else if tag == MAXIMUM_DHCP_MESSAGE_SIZE {
            match parse_u16(data, tag) {
                Ok(v) => {
                    if v < 576 {
                        Err(DhcpError::OptionInvalidValueError(tag))
                    } else {
                        Ok(DhcpOption::MaximumDhcpMessageSize(v))
                    }
                },
                Err(e) => Err(e),
            }
        } else if tag == RENEWAL_TIME_VALUE {
            match parse_u32(data, tag) {
                Ok(v) => Ok(DhcpOption::RenewalTimeValue(v)),
                Err(e) => Err(e),
            }
        } else if tag == REBINDING_TIME_VALUE {
            match parse_u32(data, tag) {
                Ok(v) => Ok(DhcpOption::RebindingTimeValue(v)),
                Err(e) => Err(e),
            }
        } else if tag == VENDOR_CLASS_IDENTIFIER {
            if data.len() < 1 {
                Err(DhcpError::OptionParseError(tag))
            } else {
                match parse_vec_u8(data, tag) {
                    Ok(v) => Ok(DhcpOption::VendorClassIdentifier(v)),
                    Err(e) => Err(e),
                }
            }
        } else if tag == CLIENT_IDENTIFIER {
            if data.len() < 1 {
                Err(DhcpError::OptionParseError(tag))
            } else {
                let rest = slice_to_vec(slice_subrange(data, 1, data.len()));
                Ok(DhcpOption::ClientIdentifier(ClientIdentifier { typ: data[0], data: rest }))
            }
        } else if tag == NETWORK_INFORMATION_SERVICE_PLUS_DOMAIN {
            if data.len() < 4 {
                Err(DhcpError::OptionParseError(tag))
            } else {
                match parse_ascii(data, tag) {
                    Ok(v) => Ok(DhcpOption::NetworkInformationServicePlusDomain(v)),
                    Err(e) => Err(e),
                }
            }
        } else if tag == NETWORK_INFORMATION_SERVICE_PLUS_SERVERS {
            if data.len() < 4 {
                Err(DhcpError::OptionParseError(tag))
            } else {
                match parse_ipv4_list(data, tag) {
                    Ok(v) => Ok(DhcpOption::NetworkInformationServicePlusServer(v)),
                    Err(e) => Err(e),
                }
            }
        } else if tag == TFTP_SERVER_NAME {
            match parse_ascii(data, tag) {
                Ok(v) => Ok(DhcpOption::TftpServer(v)),
                Err(e) => Err(e),
            }
        } else if tag == BOOT_FILE_NAME {
            if data.len() < 1 {
                Err(DhcpError::OptionParseError(tag))
            } else {
                match parse_ascii(data, tag) {
                    Ok(v) => Ok(DhcpOption::BootFileName(v)),
                    Err(e) => Err(e),
                }
            }
        } else if tag == MOBILE_IP_HOME_AGENT {
            match parse_ipv4_list(data, tag) {
                Ok(v) => Ok(DhcpOption::MobileIpHomeAgent(v)),
                Err(e) => Err(e),
            }
        } else if tag == SMTP_SERVER {
            if data.len() < 4 {
                Err(DhcpError::OptionParseError(tag))
            } else {
                match parse_ipv4_list(data, tag) {
                    Ok(v) => Ok(DhcpOption::SmtpServer(v)),
                    Err(e) => Err(e),
                }
            }
        } else if tag == POP3_SERVER {
            if data.len() < 4 {
                Err(DhcpError::OptionParseError(tag))
            } else {
                match parse_ipv4_list(data, tag) {
                    Ok(v) => Ok(DhcpOption::Pop3Server(v)),
                    Err(e) => Err(e),
                }
            }
        } else if tag == NNTP_SERVER {
            if data.len() < 4 {
                Err(DhcpError::OptionParseError(tag))
            } else {
                match parse_ipv4_list(data, tag) {
                    Ok(v) => Ok(DhcpOption::NntpServer(v)),
                    Err(e) => Err(e),
                }
            }
        } else if tag == WWW_SERVER {
            if data.len() < 4 {
                Err(DhcpError::OptionParseError(tag))
            } else {
                match parse_ipv4_list(data, tag) {
                    Ok(v) => Ok(DhcpOption::WwwServer(v)),
                    Err(e) => Err(e),
                }
            }
        } else if tag == FINGER_SERVER {
            if data.len() < 4 {
                Err(DhcpError::OptionParseError(tag))
            } else {
                match parse_ipv4_list(data, tag) {
                    Ok(v) => Ok(DhcpOption::FingerServer(v)),
                    Err(e) => Err(e),
                }
            }
        } else if tag == IRC_SERVER {
            if data.len() < 4 {
                Err(DhcpError::OptionParseError(tag))
            } else {
                match parse_ipv4_list(data, tag) {
                    Ok(v) => Ok(DhcpOption::IrcServer(v)),
                    Err(e) => Err(e),
                }
            }
        } else if tag == STREET_TALK_SERVER {
            if data.len() < 4 {
                Err(DhcpError::OptionParseError(tag))
            } else {
                match parse_ipv4_list(data, tag) {
                    Ok(v) => Ok(DhcpOption::StreetTalkServer(v)),
                    Err(e) => Err(e),
                }
            }
        } else if tag == STREET_TALK_DIRECTORY_ASSISTANCE {
            if data.len() < 4 {
                Err(DhcpError::OptionParseError(tag))
            } else {
                match parse_ipv4_list(data, tag) {
                    Ok(v) => Ok(DhcpOption::StreetTalkDirectoryAssistanceServer(v)),
                    Err(e) => Err(e),
                }
            }
        } else if tag == END {
            Ok(DhcpOption::End)
        } else if tag == RELAY_AGENT_INFORMATION {
            match parse_relay_agent_sub_options(data, tag) {
                Ok(v) => Ok(DhcpOption::RelayAgentInformation(v)),
                Err(e) => Err(e),
            }
        } else {
            Ok(DhcpOption::Unknown(tag, slice_to_vec(data)))
        }
    }

    /// Generates a new list of bytes with tag and content
    pub fn to_bytes(&self) -> (r: Vec<u8>)
        requires
            opt_encodable(self@),
        ensures
            r@ == opt_bytes(self@),
    {
        match self {
            DhcpOption::Pad => {
                let mut r: Vec<u8> = Vec::new();
                r.push(PAD);
                proof {
                    assert(r@ =~= opt_bytes(self@));
                }
                r
            },
            DhcpOption::SubnetMask(v) => {
                let r = ipv4_to_option_bytes(*v, SUBNET_MASK);
                proof {
                    assert(r@ =~= opt_bytes(self@));
                }
                r
            },
            DhcpOption::TimeOffset(v) => {
                let r = i32_to_option_bytes(*v, TIME_OFFSET);
                proof {
                    assert(r@ =~= opt_bytes(self@));
                }
                r
            },
            DhcpOption::Router(v) => {
                let r = ipv4_list_to_option_bytes(v, ROUTER);
                proof {
                    assert(r@ =~= opt_bytes(self@));
                }
                r
            },
            DhcpOption::TimeServer(v) => {
                let r = ipv4_list_to_option_bytes(v, TIME_SERVER);
                proof {
                    assert(r@ =~= opt_bytes(self@));
                }
                r
            },
            DhcpOption::NameServer(v) => {
                let r = ipv4_list_to_option_bytes(v, NAME_SERVER);
                proof {
                    assert(r@ =~= opt_bytes(self@));
                }
                r
            },
            DhcpOption::DomainNameServer(v) => {
                let r = ipv4_list_to_option_bytes(v, DOMAIN_NAME_SERVER);
                proof {
                    assert(r@ =~= opt_bytes(self@));
                }
                r
            },
            DhcpOption::LogServer(v) => {
                let r = ipv4_list_to_option_bytes(v, LOG_SERVER);
                proof {
                    assert(r@ =~= opt_bytes(self@));
                }
                r
            },
            DhcpOption::CookieServer(v) => {
                let r = ipv4_list_to_option_bytes(v, COOKIE_SERVER);
                proof {
                    assert(r@ =~= opt_bytes(self@));
                }
                r
            },
            DhcpOption::LPRServer(v) => {
                let r = ipv4_list_to_option_bytes(v, LPR_SERVER);
                proof {
                    assert(r@ =~= opt_bytes(self@));
                }
                r
            },
            DhcpOption::ImpressServer(v) => {
                let r = ipv4_list_to_option_bytes(v, IMPRESS_SERVER);
                proof {
                    assert(r@ =~= opt_bytes(self@));
                }
                r
            },
            DhcpOption::ResourceLocationServer(v) => {
                let r = ipv4_list_to_option_bytes(v, RESOURCE_LOCATION_SERVER);
                proof {
                    assert(r@ =~= opt_bytes(self@));
                }
                r
            },
            DhcpOption::HostName(v) => {
                let r = ascii_to_option_bytes(v, HOST_NAME);
                proof {
                    assert(r@ =~= opt_bytes(self@));
                }
                r
            },
            DhcpOption::BootFileSize(v) => {
                let r = u16_to_option_bytes(*v, BOOT_FILE_SIZE);
                proof {
                    assert(r@ =~= opt_bytes(self@));
                }
                r
            },
            DhcpOption::MeritDumpFile(v) => {
                let r = ascii_to_option_bytes(v, MERIT_DUMP_FILE);
                proof {
                    assert(r@ =~= opt_bytes(self@));
                }
                r
            },
            DhcpOption::DomainName(v) => {
                let r = ascii_to_option_bytes(v, DOMAIN_NAME);
                proof {
                    assert(r@ =~= opt_bytes(self@));
                }
                r
            },
            DhcpOption::SwapServer(v) => {
                let r = ipv4_to_option_bytes(*v, SWAP_SERVER);
                proof {
                    assert(r@ =~= opt_bytes(self@));
                }
                r
            },
            DhcpOption::RootPath(v) => {
                let r = ascii_to_option_bytes(v, ROOT_PATH);
                proof {
                    assert(r@ =~= opt_bytes(self@));
                }
                r
            },
            DhcpOption::ExtensionPath(v) => {
                let r = ascii_to_option_bytes(v, EXTENSION_PATH);
                proof {
                    assert(r@ =~= opt_bytes(self@));
                }
                r
            },
            DhcpOption::IpForwarding(v) => {
                let r = bool_to_option_bytes(*v, IP_FORWARDING);
                proof {
                    assert(r@ =~= opt_bytes(self@));
                }
                r
            },
            DhcpOption::NonLocalSourceRouting(v) => {
                let r = bool_to_option_bytes(*v, NON_LOCAL_SOURCE_ROUTING);
                proof {
                    assert(r@ =~= opt_bytes(self@));
                }
                r
            },
            DhcpOption::PolicyFilter(v) => {
                let r = policy_filter_list_to_option_bytes(v, POLICY_FILTER);
                proof {
                    assert(r@ =~= opt_bytes(self@));
                }
                r
            },
            DhcpOption::MaximumDatagramReassemblySize(v) => {
                let r = u16_to_option_bytes(*v, MAXIMUM_DATAGRAM_REASSEMBLY_SIZE);
                proof {
                    assert(r@ =~= opt_bytes(self@));
                }
                r
            },
            DhcpOption::DefaultIpTTL(v) => {
                let r = u8_to_option_bytes(*v, DEFAULT_IP_TTL);
                proof {
                    assert(r@ =~= opt_bytes(self@));
                }
                r
            },
            DhcpOption::PathMtuAgingTimeout(v) => {
                let r = u32_to_option_bytes(*v, PATH_MTU_AGING_TIMEOUT);
                proof {
                    assert(r@ =~= opt_bytes(self@));
                }
                r
            },
            DhcpOption::PathMtuPlateauTable(v) => {
                let r = u16_list_to_option_bytes(v, PATH_MTU_PLATEAU_TABLE);
                proof {
                    assert(r@ =~= opt_bytes(self@));
                }
                r
            },
            DhcpOption::InterfaceMtu(v) => {
                let r = u16_to_option_bytes(*v, INTERFACE_MTU);
                proof {
                    assert(r@ =~= opt_bytes(self@));
                }
                r
            },
            DhcpOption::AllSubnetsLocal(v) => {
                let r = bool_to_option_bytes(*v, ALL_SUBNETS_LOCAL);
                proof {
                    assert(r@ =~= opt_bytes(self@));
                }
                r
            },
            DhcpOption::BroadcastAddress(v) => {
                let r = ipv4_to_option_bytes(*v, BROADCAST_ADDRESS);
                proof {
                    assert(r@ =~= opt_bytes(self@));
                }
                r
            },
            DhcpOption::PerformMaskDiscovery(v) => {
                let r = bool_to_option_bytes(*v, PERFORM_MASK_DISCOVERY);
                proof {
                    assert(r@ =~= opt_bytes(self@));
                }
                r
            },
            DhcpOption::MaskSupplier(v) => {
                let r = bool_to_option_bytes(*v, MASK_SUPPLIER);
                proof {
                    assert(r@ =~= opt_bytes(self@));
                }
                r
            },
            DhcpOption::PerformRouterDiscovery(v) => {
                let r = bool_to_option_bytes(*v, PERFORM_ROUTER_DISCOVERY);
                proof {
                    assert(r@ =~= opt_bytes(self@));
                }
                r
            },
            DhcpOption::RouterSolicitationAddress(v) => {
                let r = ipv4_to_option_bytes(*v, ROUTER_SOLICITATION_ADDRESS);
                proof {
                    assert(r@ =~= opt_bytes(self@));
                }
                r
            },
            DhcpOption::StaticRoute(v) => {
                let r = static_route_list_to_option_bytes(v, STATIC_ROUTE);
                proof {
                    assert(r@ =~= opt_bytes(self@));
                }
                r
            },
            DhcpOption::TrailerEncapsulation(v) => {
                let r = bool_to_option_bytes(*v, TRAILER_ENCAPSULATION);
                proof {
                    assert(r@ =~= opt_bytes(self@));
                }
                r
            },
            DhcpOption::ArpCacheTimeout(v) => {
                let r = u32_to_option_bytes(*v, ARP_CACHE_TIMEOUT);
                proof {
                    assert(r@ =~= opt_bytes(self@));
                }
                r
            },
            DhcpOption::EthernetEncapsulation(v) => {
                let r = bool_to_option_bytes(*v, ETHERNET_ENCAPSULATION);
                proof {
                    assert(r@ =~= opt_bytes(self@));
                }
                r
            },
            DhcpOption::TcpDefaultTTL(v) => {
                let r = u8_to_option_bytes(*v, TCP_DEFAULT_TTL);
                proof {
                    assert(r@ =~= opt_bytes(self@));
                }
                r
            },
            DhcpOption::TcpKeepAliveInterval(v) => {
                let r = u32_to_option_bytes(*v, TCP_KEEPALIVE_INTERVAL);
                proof {
                    assert(r@ =~= opt_bytes(self@));
                }
                r
            },
            DhcpOption::TcpKeepAliveGarbage(v) => {
                let r = bool_to_option_bytes(*v, TCP_KEEPALIVE_GARGABE);
                proof {
                    assert(r@ =~= opt_bytes(self@));
                }
                r
            },
            DhcpOption::NetworkInformationServiceDomain(v) => {
                let r = ascii_to_option_bytes(v, NETWORK_INFORMATION_SERVICE_DOMAIN);
                proof {
                    assert(r@ =~= opt_bytes(self@));
                }
                r
            },
            DhcpOption::NetworkInformationServers(v) => {
                let r = ipv4_list_to_option_bytes(v, NETWORK_INFORMATION_SERVERS);
                proof {
                    assert(r@ =~= opt_bytes(self@));
                }
                r
            },
            DhcpOption::NetworkTimeProtocolServers(v) => {
                let r = ipv4_list_to_option_bytes(v, NETWORK_TIME_PROTOCOL_SERVERS);
                proof {
                    assert(r@ =~= opt_bytes(self@));
                }
                r
            },
            DhcpOption::VendorSpecific(v) => {
                let r = vec_u8_to_option_bytes(v, VENDOR_SPECIFIC);
                proof {
                    assert(r@ =~= opt_bytes(self@));
                }
                r
            },
            DhcpOption::NetBiosOverTcpIpNameServer(v) => {
                let r = ipv4_list_to_option_bytes(v, NETBIOS_OVER_TCP_IP_NAME_SERVER);
                proof {
                    assert(r@ =~= opt_bytes(self@));
                }
                r
            },
            DhcpOption::NetBiosOverTcpIpDatagramDistributionServer(v) => {
                let r = ipv4_list_to_option_bytes(v, NETBIOS_OVER_TCP_IP_DATAGRAM_DISTRIBUTION_SERVER);
                proof {
                    assert(r@ =~= opt_bytes(self@));
                }
                r
            },
            DhcpOption::NetBiosOverTcpIpNodeType(v) => {
                let r = netbios_node_type_to_option_bytes(*v, NETBIOS_OVER_TCP_IP_NODE_TYPE);
                proof {
                    assert(r@ =~= opt_bytes(self@));
                }
                r
            },
            DhcpOption::NetBiosOverTcpIpScope(v) => {
                let r = ascii_to_option_bytes(v, NETBIOS_OVER_TCP_IP_SCOPE);
                proof {
                    assert(r@ =~= opt_bytes(self@));
                }
                r
            },
            DhcpOption::XWindowSystemFontServer(v) => {
                let r = ipv4_list_to_option_bytes(v, X_WINDOW_SYSTEM_FONT_SERVER);
                proof {
                    assert(r@ =~= opt_bytes(self@));
                }
                r
            },
            DhcpOption::XWindowSystemDisplayManager(v) => {
                let r = ipv4_list_to_option_bytes(v, X_WINDOW_SYSTEM_DISPLAY_MANAGER);
                proof {
                    assert(r@ =~= opt_bytes(self@));
                }
                r
            },
            DhcpOption::RequestedIpAddress(v) => {
                let r = ipv4_to_option_bytes(*v, REQUESTED_IP_ADDRESS);
                proof {
                    assert(r@ =~= opt_bytes(self@));
                }
                r
            },
            DhcpOption::IpAddressLeaseTime(v) => {
                let r = u32_to_option_bytes(*v, IP_ADDRESS_LEASE_TIME);
                proof {
                    assert(r@ =~= opt_bytes(self@));
                }
                r
            },
            DhcpOption::OptionOverload(v) => {
                let r = overload_to_option_bytes(*v, OPTION_OVERLOAD);
                proof {
                    assert(r@ =~= opt_bytes(self@));
                }
                r
            },
            DhcpOption::MessageType(v) => {
                let r = message_type_to_option_bytes(*v, MESSAGE_TYPE);
                proof {
                    assert(r@ =~= opt_bytes(self@));
                }
                r
            },
            DhcpOption::ServerIdentifier(v) => {
                let r = ipv4_to_option_bytes(*v, SERVER_IDENTIFIER);
                proof {
                    assert(r@ =~= opt_bytes(self@));
                }
                r
            },
            DhcpOption::ParameterRequestList(v) => {
                let r = vec_u8_to_option_bytes(v, PARAMETER_REQUEST_LIST);
                proof {
                    assert(r@ =~= opt_bytes(self@));
                }
                r
            },
            DhcpOption::Message(v) => {
                let r = ascii_to_option_bytes(v, MESSAGE);
                proof {
                    assert(r@ =~= opt_bytes(self@));
                }
                r
            },
            DhcpOption::MaximumDhcpMessageSize(v) => {
                let r = u16_to_option_bytes(*v, MAXIMUM_DHCP_MESSAGE_SIZE);
                proof {
                    assert(r@ =~= opt_bytes(self@));
                }
                r
            },
            DhcpOption::RenewalTimeValue(v) => {
                let r = u32_to_option_bytes(*v, RENEWAL_TIME_VALUE);
                proof {
                    assert(r@ =~= opt_bytes(self@));
                }
                r
            },
            DhcpOption::RebindingTimeValue(v) => {
                let r = u32_to_option_bytes(*v, REBINDING_TIME_VALUE);
                proof {
                    assert(r@ =~= opt_bytes(self@));
                }
                r
            },
            DhcpOption::VendorClassIdentifier(v) => {
                let r = vec_u8_to_option_bytes(v, VENDOR_CLASS_IDENTIFIER);
                proof {
                    assert(r@ =~= opt_bytes(self@));
                }
                r
            },
            DhcpOption::ClientIdentifier(v) => {
                let mut r: Vec<u8> = Vec::new();
                r.push(CLIENT_IDENTIFIER);
                r.push((v.data.len() + 1) as u8);
                r.push(v.typ);
                push_bytes(&mut r, v.data.as_slice());
                proof {
                    assert(r@ =~= opt_bytes(self@));
                }
                r
            },
            DhcpOption::NetworkInformationServicePlusDomain(v) => {
                let r = ascii_to_option_bytes(v, NETWORK_INFORMATION_SERVICE_PLUS_DOMAIN);
                proof {
                    assert(r@ =~= opt_bytes(self@));
                }
                r
            },
            DhcpOption::NetworkInformationServicePlusServer(v) => {
                let r = ipv4_list_to_option_bytes(v, NETWORK_INFORMATION_SERVICE_PLUS_SERVERS);
                proof {
                    assert(r@ =~= opt_bytes(self@));
                }
                r
            },
            DhcpOption::TftpServer(v) => {
                let r = ascii_to_option_bytes(v, TFTP_SERVER_NAME);
                proof {
                    assert(r@ =~= opt_bytes(self@));
                }
                r
            },
            DhcpOption::BootFileName(v) => {
                let r = ascii_to_option_bytes(v, BOOT_FILE_NAME);
                proof {
                    assert(r@ =~= opt_bytes(self@));
                }
                r
            },
            DhcpOption::MobileIpHomeAgent(v) => {
                let r = ipv4_list_to_option_bytes(v, MOBILE_IP_HOME_AGENT);
                proof {
                    assert(r@ =~= opt_bytes(self@));
                }
                r
            },
            DhcpOption::SmtpServer(v) => {
                let r = ipv4_list_to_option_bytes(v, SMTP_SERVER);
                proof {
                    assert(r@ =~= opt_bytes(self@));
                }
                r
            },
            DhcpOption::Pop3Server(v) => {
                let r = ipv4_list_to_option_bytes(v, POP3_SERVER);
                proof {
                    assert(r@ =~= opt_bytes(self@));
                }
                r
            },
            DhcpOption::NntpServer(v) => {
                let r = ipv4_list_to_option_bytes(v, NNTP_SERVER);
                proof {
                    assert(r@ =~= opt_bytes(self@));
                }
                r
            },
            DhcpOption::WwwServer(v) => {
                let r = ipv4_list_to_option_bytes(v, WWW_SERVER);
                proof {
                    assert(r@ =~= opt_bytes(self@));
                }
                r
            },
            DhcpOption::FingerServer(v) => {
                let r = ipv4_list_to_option_bytes(v, FINGER_SERVER);
                proof {
                    assert(r@ =~= opt_bytes(self@));
                }
                r
            },
            DhcpOption::IrcServer(v) => {
                let r = ipv4_list_to_option_bytes(v, IRC_SERVER);
                proof {
                    assert(r@ =~= opt_bytes(self@));
                }
                r
            },
            DhcpOption::StreetTalkServer(v) => {
                let r = ipv4_list_to_option_bytes(v, STREET_TALK_SERVER);
                proof {
                    assert(r@ =~= opt_bytes(self@));
                }
                r
            },
            DhcpOption::StreetTalkDirectoryAssistanceServer(v) => {
                let r = ipv4_list_to_option_bytes(v, STREET_TALK_DIRECTORY_ASSISTANCE);
                proof {
                    assert(r@ =~= opt_bytes(self@));
                }
                r
            },
            DhcpOption::End => {
                let mut r: Vec<u8> = Vec::new();
                r.push(END);
                proof {
                    assert(r@ =~= opt_bytes(self@));
                }
                r
            },
            DhcpOption::RelayAgentInformation(v) => {
                proof {
                    assert forall|k: int| 0 <= k < v@.len() implies relay_sub_data(
                        #[trigger] v@[k]@,
                    ).len() <= 255 by {
                        assert(relay_views(v@)[k] == v@[k]@);
                        assert(relay_sub_data(relay_views(v@)[k]).len() <= 255);
                    }
                }
                let r = relay_agent_list_to_option_bytes(v, RELAY_AGENT_INFORMATION);
                proof {
                    assert(r@ =~= opt_bytes(self@));
                }
                r
            },
            DhcpOption::Unknown(tag, d) => {
                let r = vec_u8_to_option_bytes(d, *tag);
                proof {
                    assert(r@ =~= opt_bytes(self@));
                }
                r
            },
        }
    }
}

/// Decoding an option's own encoding under its own tag gives the option
/// back, and the encoding's length byte equals the payload's byte count.
pub proof fn lemma_option_round_trip(o: SpecDhcpOption)
    requires
        opt_valid(o),
    ensures
        opt_decode(spec_tag(o), spec_payload(o)) == Ok::<SpecDhcpOption, DhcpError>(o),
        !(o is Pad) && !(o is End) ==> (opt_bytes(o) == seq![
            spec_tag(o),
            spec_payload(o).len() as u8,
        ] + spec_payload(o) && spec_payload(o).len() <= 255),
{
    match o {
        SpecDhcpOption::Pad => {},
        SpecDhcpOption::SubnetMask(v) => {},
        SpecDhcpOption::TimeOffset(v) => {
            lemma_u32_round_trip(u32_from_i32(v));
            lemma_i32_round_trip(v);
        },
        SpecDhcpOption::Router(v) => {
            lemma_ipv4s_round_trip(v);
        },
        SpecDhcpOption::TimeServer(v) => {
            lemma_ipv4s_round_trip(v);
        },
        SpecDhcpOption::NameServer(v) => {
            lemma_ipv4s_round_trip(v);
        },
        SpecDhcpOption::DomainNameServer(v) => {
            lemma_ipv4s_round_trip(v);
        },
        SpecDhcpOption::LogServer(v) => {
            lemma_ipv4s_round_trip(v);
        },
        SpecDhcpOption::CookieServer(v) => {
            lemma_ipv4s_round_trip(v);
        },
        SpecDhcpOption::LPRServer(v) => {
            lemma_ipv4s_round_trip(v);
        },
        SpecDhcpOption::ImpressServer(v) => {
            lemma_ipv4s_round_trip(v);
        },
        SpecDhcpOption::ResourceLocationServer(v) => {
            lemma_ipv4s_round_trip(v);
        },
        SpecDhcpOption::HostName(v) => {},
        SpecDhcpOption::BootFileSize(v) => {
            lemma_u16_round_trip(v);
        },
        SpecDhcpOption::MeritDumpFile(v) => {},
        SpecDhcpOption::DomainName(v) => {},
        SpecDhcpOption::SwapServer(v) => {},
        SpecDhcpOption::RootPath(v) => {},
        SpecDhcpOption::ExtensionPath(v) => {},
        SpecDhcpOption::IpForwarding(v) => {},
        SpecDhcpOption::NonLocalSourceRouting(v) => {},
        SpecDhcpOption::PolicyFilter(v) => {
            lemma_masks_round_trip(v);
        },
        SpecDhcpOption::MaximumDatagramReassemblySize(v) => {
            lemma_u16_round_trip(v);
        },
        SpecDhcpOption::DefaultIpTTL(v) => {},
        SpecDhcpOption::PathMtuAgingTimeout(v) => {
            lemma_u32_round_trip(v);
        },
        SpecDhcpOption::PathMtuPlateauTable(v) => {
            lemma_u16s_round_trip(v);
        },
        SpecDhcpOption::InterfaceMtu(v) => {
            lemma_u16_round_trip(v);
        },
        SpecDhcpOption::AllSubnetsLocal(v) => {},
        SpecDhcpOption::BroadcastAddress(v) => {},
        SpecDhcpOption::PerformMaskDiscovery(v) => {},
        SpecDhcpOption::MaskSupplier(v) => {},
        SpecDhcpOption::PerformRouterDiscovery(v) => {},
        SpecDhcpOption::RouterSolicitationAddress(v) => {},
        SpecDhcpOption::StaticRoute(v) => {
            lemma_routes_round_trip(v);
        },
        SpecDhcpOption::TrailerEncapsulation(v) => {},
        SpecDhcpOption::ArpCacheTimeout(v) => {
            lemma_u32_round_trip(v);
        },
        SpecDhcpOption::EthernetEncapsulation(v) => {},
        SpecDhcpOption::TcpDefaultTTL(v) => {},
        SpecDhcpOption::TcpKeepAliveInterval(v) => {
            lemma_u32_round_trip(v);
        },
        SpecDhcpOption::TcpKeepAliveGarbage(v) => {},
        SpecDhcpOption::NetworkInformationServiceDomain(v) => {},
        SpecDhcpOption::NetworkInformationServers(v) => {
            lemma_ipv4s_round_trip(v);
        },
        SpecDhcpOption::NetworkTimeProtocolServers(v) => {
            lemma_ipv4s_round_trip(v);
        },
        SpecDhcpOption::VendorSpecific(v) => {},
        SpecDhcpOption::NetBiosOverTcpIpNameServer(v) => {
            lemma_ipv4s_round_trip(v);
        },
        SpecDhcpOption::NetBiosOverTcpIpDatagramDistributionServer(v) => {
            lemma_ipv4s_round_trip(v);
        },
        SpecDhcpOption::NetBiosOverTcpIpNodeType(v) => {
            assert(netbios_of(netbios_byte(v)) == Some(v));
        },
        SpecDhcpOption::NetBiosOverTcpIpScope(v) => {},
        SpecDhcpOption::XWindowSystemFontServer(v) => {
            lemma_ipv4s_round_trip(v);
        },
        SpecDhcpOption::XWindowSystemDisplayManager(v) => {
            lemma_ipv4s_round_trip(v);
        },
        SpecDhcpOption::RequestedIpAddress(v) => {},
        SpecDhcpOption::IpAddressLeaseTime(v) => {
            lemma_u32_round_trip(v);
        },
        SpecDhcpOption::OptionOverload(v) => {
            assert(overload_of(overload_byte(v)) == Some(v));
        },
        SpecDhcpOption::MessageType(v) => {
            assert(message_type_of(message_type_byte(v)) == Some(v));
        },
        SpecDhcpOption::ServerIdentifier(v) => {},
        SpecDhcpOption::ParameterRequestList(v) => {},
        SpecDhcpOption::Message(v) => {},
        SpecDhcpOption::MaximumDhcpMessageSize(v) => {
            lemma_u16_round_trip(v);
        },
        SpecDhcpOption::RenewalTimeValue(v) => {
            lemma_u32_round_trip(v);
        },
        SpecDhcpOption::RebindingTimeValue(v) => {
            lemma_u32_round_trip(v);
        },
        SpecDhcpOption::VendorClassIdentifier(v) => {},
        SpecDhcpOption::ClientIdentifier(v) => {
            assert((seq![v.typ] + v.data).subrange(1, (1 + v.data.len()) as int) =~= v.data);
        },
        SpecDhcpOption::NetworkInformationServicePlusDomain(v) => {},
        SpecDhcpOption::NetworkInformationServicePlusServer(v) => {
            lemma_ipv4s_round_trip(v);
        },
        SpecDhcpOption::TftpServer(v) => {},
        SpecDhcpOption::BootFileName(v) => {},
        SpecDhcpOption::MobileIpHomeAgent(v) => {
            lemma_ipv4s_round_trip(v);
        },
        SpecDhcpOption::SmtpServer(v) => {
            lemma_ipv4s_round_trip(v);
        },
        SpecDhcpOption::Pop3Server(v) => {
            lemma_ipv4s_round_trip(v);
        },
        SpecDhcpOption::NntpServer(v) => {
            lemma_ipv4s_round_trip(v);
        },
        SpecDhcpOption::WwwServer(v) => {
            lemma_ipv4s_round_trip(v);
        },
        SpecDhcpOption::FingerServer(v) => {
            lemma_ipv4s_round_trip(v);
        },
        SpecDhcpOption::IrcServer(v) => {
            lemma_ipv4s_round_trip(v);
        },
        SpecDhcpOption::StreetTalkServer(v) => {
            lemma_ipv4s_round_trip(v);
        },
        SpecDhcpOption::StreetTalkDirectoryAssistanceServer(v) => {
            lemma_ipv4s_round_trip(v);
        },
        SpecDhcpOption::End => {},
        SpecDhcpOption::RelayAgentInformation(v) => {
            lemma_relay_round_trip(v);
        },
        SpecDhcpOption::Unknown(t, d) => {},
    }
}


// ---------------------------------------------------------------------------
// The option set: one slot per tag
// ---------------------------------------------------------------------------

/// The number of slots: one for each possible tag.
pub const OPTIONS_SIZE: usize = 256;

pub open spec fn slot_view(s: Option<DhcpOption>) -> Option<SpecDhcpOption> {
    match s {
        Some(o) => Some(o@),
        None => None,
    }
}

/// The views of the slots, in tag order.
pub open spec fn slot_views(s: Seq<Option<DhcpOption>>) -> Seq<Option<SpecDhcpOption>> {
    s.map_values(|x: Option<DhcpOption>| slot_view(x))
}

/// All 256 slots empty.
pub open spec fn empty_slots() -> Seq<Option<SpecDhcpOption>> {
    Seq::new(256, |i: int| None)
}

/// There are 256 slots and an occupied slot holds an option of its own tag.
pub open spec fn opts_wf(s: Seq<Option<SpecDhcpOption>>) -> bool {
    &&& s.len() == 256
    &&& forall|i: int| 0 <= i < 256 ==> (#[trigger] s[i] matches Some(o) ==> spec_tag(o) == i)
}

/// Every occupied slot's payload fits its one length byte.
pub open spec fn opts_encodable(s: Seq<Option<SpecDhcpOption>>) -> bool {
    forall|i: int| 0 <= i < s.len() ==> (#[trigger] s[i] matches Some(o) ==> opt_encodable(o))
}

/// Placing each option of the list in its tag's slot, in order, so that a
/// later option with the same tag overwrites an earlier one.
pub open spec fn upsert_all(
    s: Seq<Option<SpecDhcpOption>>,
    l: Seq<SpecDhcpOption>,
) -> Seq<Option<SpecDhcpOption>>
    decreases l.len(),
{
    if l.len() == 0 {
        s
    } else {
        upsert_all(s.update(spec_tag(l[0]) as int, Some(l[0])), l.drop_first())
    }
}

/// Upserting keeps the slot-per-tag shape.
pub proof fn lemma_upsert_all_wf(s: Seq<Option<SpecDhcpOption>>, l: Seq<SpecDhcpOption>)
    requires
        opts_wf(s),
    ensures
        opts_wf(upsert_all(s, l)),
    decreases l.len(),
{
    if l.len() > 0 {
        lemma_upsert_all_wf(s.update(spec_tag(l[0]) as int, Some(l[0])), l.drop_first());
    }
}

/// Upserting a concatenation is upserting one list after the other.
pub proof fn lemma_upsert_all_concat(
    s: Seq<Option<SpecDhcpOption>>,
    a: Seq<SpecDhcpOption>,
    b: Seq<SpecDhcpOption>,
)
    ensures
        upsert_all(s, a + b) == upsert_all(upsert_all(s, a), b),
    decreases a.len(),
{
    if a.len() == 0 {
        assert(a + b =~= b);
    } else {
        assert((a + b).drop_first() =~= a.drop_first() + b);
        assert((a + b)[0] == a[0]);
        lemma_upsert_all_concat(s.update(spec_tag(a[0]) as int, Some(a[0])), a.drop_first(), b);
    }
}

/// Contains all DHCP Options
///
/// Holds one slot per tag; serialization walks the slots in ascending tag
/// order, whatever the insertion order was.
///
/// Use [`DhcpOptions::from_options`], [`DhcpOptions::new_with_options`] or
/// [`DhcpOptions::from_bytes`] for creation.
#[derive(Clone, Debug)]
pub struct DhcpOptions {
    options: Vec<Option<DhcpOption>>,
}

impl View for DhcpOptions {
    type V = Seq<Option<SpecDhcpOption>>;

    closed spec fn view(&self) -> Seq<Option<SpecDhcpOption>> {
        slot_views(self.options@)
    }
}

impl DhcpOptions {
    /// The slots have their proper shape: see [`opts_wf`].
    pub open spec fn wf(&self) -> bool {
        opts_wf(self@)
    }

    pub fn new() -> (r: Self)
        ensures
            r@ == empty_slots(),
            r.wf(),
    {
        let options = Self::new_with_options(Vec::new());
        proof {
            assert(slot_views(options@) =~= empty_slots());
        }
        Self { options }
    }

    /// Creates the slot vector for a collection of [`DhcpOption`].
    pub fn new_with_options(init_options: Vec<DhcpOption>) -> (r: Vec<Option<DhcpOption>>)
        ensures
            slot_views(r@) == upsert_all(empty_slots(), init_options@.map_values(
                |o: DhcpOption| o@,
            )),
            r@.len() == 256,
    {
        let ghost orig = init_options@.map_values(|o: DhcpOption| o@);
        let mut options: Vec<Option<DhcpOption>> = Vec::new();
        let mut t: usize = 0;
        while t < OPTIONS_SIZE
            invariant
                0 <= t <= 256,
                options@.len() == t,
                forall|i: int| 0 <= i < t ==> options@[i] is None,
            decreases 256 - t,
        {
            options.push(None);
            t += 1;
        }
        proof {
            assert(slot_views(options@) =~= empty_slots());
        }
        let mut init_options = init_options;
        let ghost orig_exec = init_options@;
        let mut i: usize = 0;
        let n = init_options.len();
        while i < n
            invariant
                n == orig_exec.len(),
                orig == orig_exec.map_values(|x: DhcpOption| x@),
                0 <= i <= n,
                init_options@ =~= orig_exec.skip(i as int),
                options@.len() == 256,
                slot_views(options@) == upsert_all(empty_slots(), orig.take(i as int)),
            decreases n - i,
        {
            let o = init_options.remove(0);
            let tag = o.tag();
            let ghost pre = slot_views(options@);
            options.set(tag as usize, Some(o));
            proof {
                assert(orig_exec.skip(i as int)[0] == orig_exec[i as int]);
                assert(orig[i as int] == orig_exec[i as int]@);
                assert(o@ == orig[i as int]);
                assert(slot_views(options@) =~= pre.update(spec_tag(o@) as int, Some(o@)));
                assert(orig.take(i + 1) =~= orig.take(i as int) + seq![orig[i as int]]);
                lemma_upsert_all_concat(empty_slots(), orig.take(i as int), seq![orig[i as int]]);
                assert(seq![orig[i as int]].drop_first() =~= Seq::<SpecDhcpOption>::empty());
                let updated = pre.update(spec_tag(orig[i as int]) as int, Some(orig[i as int]));
                assert(upsert_all(updated, Seq::<SpecDhcpOption>::empty()) == updated);
                assert(upsert_all(pre, seq![orig[i as int]]) == updated);
                assert(init_options@ =~= orig_exec.skip(i + 1));
            }
            i += 1;
        }
        proof {
            assert(orig.take(n as int) =~= orig);
        }
        options
    }

    /// A collection with each given option in its tag's slot, a later one
    /// overwriting an earlier one of the same tag.
    pub fn from_options(init_options: Vec<DhcpOption>) -> (r: Self)
        ensures
            r@ == upsert_all(empty_slots(), init_options@.map_values(|o: DhcpOption| o@)),
            r.wf(),
    {
        let ghost orig = init_options@.map_values(|o: DhcpOption| o@);
        let options = Self::new_with_options(init_options);
        proof {
            assert(opts_wf(empty_slots()));
            lemma_upsert_all_wf(empty_slots(), orig);
        }
        Self { options }
    }

    pub fn option(&self, tag: u8) -> (r: Option<&DhcpOption>)
        requires
            self.wf(),
        ensures
            r matches Some(o) ==> self@[tag as int] == Some(o@),
            r is None ==> self@[tag as int] is None,
    {
        match &self.options[tag as usize] {
            Some(o) => Some(o),
            None => None,
        }
    }

    pub fn option_mut(&mut self, tag: u8) -> (r: Option<&mut DhcpOption>)
        requires
            old(self).wf(),
        ensures
            old(self)@[tag as int] is None ==> (r is None && final(self)@ == old(self)@),
            old(self)@[tag as int] matches Some(m) ==> (r matches Some(p) && (*p)@ == m
                && final(self)@ == old(self)@.update(tag as int, Some((*final(p))@))),
    {
        if self.options[tag as usize].is_none() {
            return None;
        }
        let slot = &mut self.options[tag as usize];
        match slot {
            Some(o) => Some(o),
            None => None,
        }
    }

    pub fn message_type(&self) -> (r: Option<&DhcpOption>)
        requires
            self.wf(),
        ensures
            r matches Some(o) ==> self@[MESSAGE_TYPE as int] == Some(o@),
            r is None ==> self@[MESSAGE_TYPE as int] is None,
    {
        self.option(MESSAGE_TYPE)
    }

    /// Insert or update a single [`DhcpOption`]
    pub fn upsert(&mut self, option: DhcpOption)
        requires
            old(self).wf(),
        ensures
            final(self)@ == old(self)@.update(spec_tag(option@) as int, Some(option@)),
            final(self).wf(),
    {
        let tag = option.tag();
        let ghost pre = self@;
        self.options.set(tag as usize, Some(option));
        proof {
            assert(self@ =~= pre.update(tag as int, Some(option@)));
        }
    }

    /// Insert or update a single [`DhcpOption`] wrapped as [`Option`]
    pub fn upsert_option(&mut self, option: Option<DhcpOption>)
        requires
            old(self).wf(),
        ensures
            option matches Some(o) ==> final(self)@ == old(self)@.update(
                spec_tag(o@) as int,
                Some(o@),
            ),
            option is None ==> final(self)@ == old(self)@,
            final(self).wf(),
    {
        match option {
            Some(o) => self.upsert(o),
            None => (),
        }
    }

    /// Remove a single [`DhcpOption`]
    pub fn remove(&mut self, tag: u8)
        requires
            old(self).wf(),
        ensures
            final(self)@ == old(self)@.update(tag as int, None),
            final(self).wf(),
    {
        let ghost pre = self@;
        self.options.set(tag as usize, None);
        proof {
            assert(self@ =~= pre.update(tag as int, None));
        }
    }
}


// ---------------------------------------------------------------------------
// Option set: merge, stream serialization and parse
// ---------------------------------------------------------------------------

/// Every slot occupied in `b` overwrites the one in `a`.
pub open spec fn spec_merge(
    a: Seq<Option<SpecDhcpOption>>,
    b: Seq<Option<SpecDhcpOption>>,
) -> Seq<Option<SpecDhcpOption>> {
    Seq::new(
        256,
        |i: int|
            if b[i] is Some {
                b[i]
            } else {
                a[i]
            },
    )
}

pub open spec fn slot_bytes(s: Option<SpecDhcpOption>) -> Seq<u8> {
    match s {
        Some(o) => opt_bytes(o),
        None => Seq::empty(),
    }
}

/// The encodings of the slots from index `i` on, in ascending tag order.
pub open spec fn opts_bytes_from(s: Seq<Option<SpecDhcpOption>>, i: int) -> Seq<u8>
    decreases s.len() - i,
{
    if i < 0 || i >= s.len() {
        Seq::empty()
    } else {
        slot_bytes(s[i]) + opts_bytes_from(s, i + 1)
    }
}

/// The whole option area: every occupied slot's encoding, ascending by tag.
pub open spec fn opts_bytes(s: Seq<Option<SpecDhcpOption>>) -> Seq<u8> {
    opts_bytes_from(s, 0)
}

/// A decoded option carries the tag it was decoded under.
pub proof fn lemma_opt_decode_tag(tag: u8, data: Seq<u8>)
    ensures
        opt_decode(tag, data) matches Ok(m) ==> spec_tag(m) == tag,
{
}

/// An option decoded from a payload that fits one length byte can be
/// encoded back within one length byte.
#[verifier::rlimit(50)]
pub proof fn lemma_opt_decode_encodable(tag: u8, data: Seq<u8>)
    requires
        data.len() <= 255,
    ensures
        opt_decode(tag, data) matches Ok(m) ==> opt_encodable(m),
{
    vstd::arithmetic::div_mod::lemma_fundamental_div_mod(data.len() as int, 4);
    vstd::arithmetic::div_mod::lemma_fundamental_div_mod(data.len() as int, 2);
    vstd::arithmetic::div_mod::lemma_fundamental_div_mod(data.len() as int, 8);
    crate::convert::lemma_relay_parse_sizes(data);
}

/// The streaming decode of the option area from offset `i`, slots
/// accumulated in `acc`: a Pad byte is skipped, End fills its slot and
/// terminates, and any other tag reads one length byte and that many
/// payload bytes; input exhausted mid-unit is a parse error.
pub open spec fn opts_decode_from(
    d: Seq<u8>,
    i: int,
    acc: Seq<Option<SpecDhcpOption>>,
) -> Result<Seq<Option<SpecDhcpOption>>, DhcpError>
    decreases d.len() - i,
{
    if i < 0 || i >= d.len() {
        Ok(acc)
    } else {
        let tag = d[i];
        if tag == PAD {
            opts_decode_from(d, i + 1, acc)
        } else if tag == END {
            Ok(acc.update(END as int, Some(SpecDhcpOption::End)))
        } else if i + 1 >= d.len() {
            Err(DhcpError::OptionParseError(tag))
        } else {
            let dl = d[i + 1] as int;
            if i + 2 + dl > d.len() {
                Err(DhcpError::OptionParseError(tag))
            } else {
                match opt_decode(tag, d.subrange(i + 2, i + 2 + dl)) {
                    Ok(m) => opts_decode_from(d, i + 2 + dl, acc.update(tag as int, Some(m))),
                    Err(e) => Err(e),
                }
            }
        }
    }
}

/// A merge of two encodable slot sets is encodable.
pub proof fn lemma_merge_encodable(a: Seq<Option<SpecDhcpOption>>, b: Seq<Option<SpecDhcpOption>>)
    requires
        opts_encodable(a),
        opts_encodable(b),
        a.len() == 256,
        b.len() == 256,
    ensures
        opts_encodable(spec_merge(a, b)),
{
    let m = spec_merge(a, b);
    assert forall|i: int| 0 <= i < m.len() implies (match #[trigger] m[i] {
        Some(o) => opt_encodable(o),
        None => true,
    }) by {
        if b[i] is Some {
            assert(m[i] == b[i]);
        } else {
            assert(m[i] == a[i]);
        }
    }
}

/// Slots that are all empty from `i` on contribute no bytes.
pub proof fn lemma_opts_bytes_empty(s: Seq<Option<SpecDhcpOption>>, i: int)
    requires
        forall|j: int| i <= j < s.len() ==> s[j] is None,
    ensures
        opts_bytes_from(s, i) == Seq::<u8>::empty(),
    decreases s.len() - i,
{
    if 0 <= i < s.len() {
        lemma_opts_bytes_empty(s, i + 1);
        assert(opts_bytes_from(s, i) =~= Seq::<u8>::empty());
    }
}

/// The options present, in ascending tag order.
pub open spec fn present_opts(s: Seq<Option<SpecDhcpOption>>) -> Seq<SpecDhcpOption>
    decreases s.len(),
{
    if s.len() == 0 {
        Seq::empty()
    } else {
        match s[0] {
            Some(o) => seq![o] + present_opts(s.drop_first()),
            None => present_opts(s.drop_first()),
        }
    }
}

pub proof fn lemma_present_opts_concat(
    a: Seq<Option<SpecDhcpOption>>,
    b: Seq<Option<SpecDhcpOption>>,
)
    ensures
        present_opts(a + b) == present_opts(a) + present_opts(b),
    decreases a.len(),
{
    if a.len() == 0 {
        assert(a + b =~= b);
        assert(present_opts(a) + present_opts(b) =~= present_opts(b));
    } else {
        assert((a + b).drop_first() =~= a.drop_first() + b);
        assert((a + b)[0] == a[0]);
        lemma_present_opts_concat(a.drop_first(), b);
        assert(present_opts(a + b) =~= present_opts(a) + present_opts(b));
    }
}

impl DhcpOptions {
    /// Inserts all options present in the other collection, overwriting
    /// this collection's slots.
    pub fn merge(&mut self, options: Self)
        requires
            old(self).wf(),
            options.wf(),
        ensures
            final(self)@ == spec_merge(old(self)@, options@),
            final(self).wf(),
    {
        let ghost other = options@;
        let mut src = options.options;
        let mut i: usize = 256;
        while i > 0
            invariant
                0 <= i <= 256,
                src@.len() == i,
                other.len() == 256,
                opts_wf(other),
                slot_views(src@) =~= other.take(i as int),
                self@.len() == 256,
                opts_wf(self@),
                forall|j: int| 0 <= j < i ==> self@[j] == old(self)@[j],
                forall|j: int| i <= j < 256 ==> self@[j] == (if other[j] is Some {
                    other[j]
                } else {
                    old(self)@[j]
                }),
            decreases i,
        {
            let ghost pre_src = src@;
            let slot = src.pop();
            let ghost pre = self@;
            proof {
                assert(slot_views(pre_src)[i - 1] == slot_view(pre_src[i - 1]));
                assert(other.take(i as int)[i - 1] == other[i - 1]);
            }
            match slot {
                Some(Some(o)) => {
                    proof {
                        assert(other[i - 1] == Some(o@));
                    }
                    self.options.set(i - 1, Some(o));
                    proof {
                        assert(self@ =~= pre.update(i - 1, Some(o@)));
                    }
                },
                _ => {
                    proof {
                        assert(pre_src[i - 1] is None);
                        assert(other[i - 1] is None);
                    }
                },
            }
            proof {
                assert forall|j: int| 0 <= j < i - 1 implies #[trigger] slot_views(src@)[j]
                    == other[j] by {
                    assert(slot_views(src@)[j] == slot_view(src@[j]));
                    assert(src@[j] == pre_src[j]);
                    assert(slot_views(pre_src)[j] == slot_view(pre_src[j]));
                    assert(other.take(i as int)[j] == other[j]);
                }
                assert(slot_views(src@) =~= other.take(i - 1));
            }
            i -= 1;
        }
        proof {
            assert(self@ =~= spec_merge(old(self)@, other));
        }
    }

    /// Generates bytes from all defined [`DhcpOption`], walking the slots
    /// in ascending tag order.
    /// Mostly used in conjunction with [`DhcpPacket`](crate::DhcpPacket)
    pub fn to_bytes(&self) -> (r: Vec<u8>)
        requires
            self.wf(),
            opts_encodable(self@),
        ensures
            r@ == opts_bytes(self@),
    {
        let mut r: Vec<u8> = Vec::new();
        let mut i: usize = 0;
        proof {
            assert(Seq::<u8>::empty() + opts_bytes_from(self@, 0) =~= opts_bytes_from(self@, 0));
        }
        while i < OPTIONS_SIZE
            invariant
                self.wf(),
                opts_encodable(self@),
                0 <= i <= 256,
                opts_bytes(self@) == r@ + opts_bytes_from(self@, i as int),
            decreases 256 - i,
        {
            let ghost pre = r@;
            match &self.options[i] {
                Some(o) => {
                    let ob = o.to_bytes();
                    push_bytes(&mut r, ob.as_slice());
                },
                None => (),
            }
            proof {
                assert(opts_bytes_from(self@, i as int) == slot_bytes(self@[i as int])
                    + opts_bytes_from(self@, i + 1));
                assert(r@ + opts_bytes_from(self@, i + 1) =~= pre + opts_bytes_from(
                    self@,
                    i as int,
                ));
            }
            i += 1;
        }
        proof {
            assert(opts_bytes_from(self@, 256) == Seq::<u8>::empty());
            assert(r@ + Seq::<u8>::empty() =~= r@);
        }
        r
    }

    /// Generate [`DhcpOptions`] by parsing the given byte slice as a
    /// stream of `[tag, length, payload]` units.
    /// Mostly used in conjunction with [`DhcpPacket`](crate::DhcpPacket)
    pub fn from_bytes(bytes: &[u8]) -> (r: DhcpResult<DhcpOptions>)
        ensures
            opts_decode_from(bytes@, 0, empty_slots()) matches Ok(s) ==> (r matches Ok(o) && o@
                == s && o.wf() && opts_encodable(o@)),
            opts_decode_from(bytes@, 0, empty_slots()) matches Err(e) ==> (r matches Err(e2) && e2
                == e),
    {
        let mut options = Self::new_with_options(Vec::new());
        proof {
            assert(Seq::<DhcpOption>::empty().map_values(|o: DhcpOption| o@)
                =~= Seq::<SpecDhcpOption>::empty());
            assert(upsert_all(empty_slots(), Seq::<SpecDhcpOption>::empty()) == empty_slots());
            assert(slot_views(options@) =~= empty_slots());
            assert(opts_wf(empty_slots()));
        }
        let n = bytes.len();
        let mut i: usize = 0;
        while i < n
            invariant
                n == bytes@.len(),
                0 <= i <= n,
                options@.len() == 256,
                opts_wf(slot_views(options@)),
                opts_encodable(slot_views(options@)),
                opts_decode_from(bytes@, 0, empty_slots()) == opts_decode_from(
                    bytes@,
                    i as int,
                    slot_views(options@),
                ),
            decreases n - i,
        {
            let tag = bytes[i];
            if tag == PAD {
                i += 1;
            } else if tag == END {
                let ghost pre = slot_views(options@);
                options.set(END as usize, Some(DhcpOption::End));
                proof {
                    assert(slot_views(options@) =~= pre.update(
                        END as int,
                        Some(SpecDhcpOption::End),
                    ));
                }
                return Ok(Self { options });
            } else {
                if i + 1 >= n {
                    return Err(DhcpError::OptionParseError(tag));
                }
                let dl = bytes[i + 1] as usize;
                if n - i - 2 < dl {
                    return Err(DhcpError::OptionParseError(tag));
                }
                let data = slice_subrange(bytes, i + 2, i + 2 + dl);
                match DhcpOption::from_bytes(tag, dl, data) {
                    Ok(o) => {
                        let ghost pre = slot_views(options@);
                        let ghost m = o@;
                        proof {
                            lemma_opt_decode_tag(tag, data@);
                            lemma_opt_decode_encodable(tag, data@);
                        }
                        options.set(tag as usize, Some(o));
                        proof {
                            assert(slot_views(options@) =~= pre.update(tag as int, Some(m)));
                        }
                        i = i + 2 + dl;
                    },
                    Err(e) => {
                        return Err(e);
                    },
                }
            }
        }
        Ok(Self { options })
    }

    pub fn parameter_request_list(&self) -> (r: Option<&[u8]>)
        requires
            self.wf(),
        ensures
            (match self@[PARAMETER_REQUEST_LIST as int] {
                Some(SpecDhcpOption::ParameterRequestList(d)) => r matches Some(s) && s@ == d,
                _ => r is None,
            }),
    {
        match &self.options[PARAMETER_REQUEST_LIST as usize] {
            Some(DhcpOption::ParameterRequestList(data)) => Some(data.as_slice()),
            _ => None,
        }
    }

    /// A reference to all defined [`DhcpOption`], in ascending tag order.
    pub fn options(&self) -> (r: Vec<&DhcpOption>)
        requires
            self.wf(),
        ensures
            r@.map_values(|p: &DhcpOption| p@) == present_opts(self@),
    {
        let mut r: Vec<&DhcpOption> = Vec::new();
        proof {
            assert(self@.take(0) =~= Seq::<Option<SpecDhcpOption>>::empty());
            assert(r@.map_values(|p: &DhcpOption| p@) =~= present_opts(self@.take(0)));
        }
        let mut i: usize = 0;
        while i < OPTIONS_SIZE
            invariant
                self.wf(),
                0 <= i <= 256,
                r@.map_values(|p: &DhcpOption| p@) == present_opts(self@.take(i as int)),
            decreases 256 - i,
        {
            let ghost pre = r@.map_values(|p: &DhcpOption| p@);
            match &self.options[i] {
                Some(o) => {
                    r.push(o);
                    proof {
                        assert(r@.map_values(|p: &DhcpOption| p@) =~= pre + seq![o@]);
                    }
                },
                None => (),
            }
            proof {
                let single = seq![self@[i as int]];
                assert(self@.take(i + 1) =~= self@.take(i as int) + single);
                lemma_present_opts_concat(self@.take(i as int), single);
                assert(single.drop_first() =~= Seq::<Option<SpecDhcpOption>>::empty());
                assert(present_opts(Seq::<Option<SpecDhcpOption>>::empty())
                    == Seq::<SpecDhcpOption>::empty());
                match self@[i as int] {
                    Some(m) => {
                        assert(present_opts(single) =~= seq![m]);
                        assert(r@.map_values(|p: &DhcpOption| p@) =~= present_opts(
                            self@.take(i + 1),
                        ));
                    },
                    None => {
                        assert(present_opts(single) =~= Seq::<SpecDhcpOption>::empty());
                        assert(r@.map_values(|p: &DhcpOption| p@) =~= present_opts(
                            self@.take(i + 1),
                        ));
                    },
                }
            }
            i += 1;
        }
        proof {
            assert(self@.take(256) =~= self@);
        }
        r
    }
}

// ---------------------------------------------------------------------------
// Typed access to option values
// ---------------------------------------------------------------------------

/// The boolean-flag value the option carries, if it is of such a kind.
pub open spec fn bool_value(o: SpecDhcpOption) -> Option<bool> {
    match o {
        SpecDhcpOption::IpForwarding(v) => Some(v),
        SpecDhcpOption::NonLocalSourceRouting(v) => Some(v),
        SpecDhcpOption::AllSubnetsLocal(v) => Some(v),
        SpecDhcpOption::MaskSupplier(v) => Some(v),
        SpecDhcpOption::TrailerEncapsulation(v) => Some(v),
        SpecDhcpOption::EthernetEncapsulation(v) => Some(v),
        SpecDhcpOption::TcpKeepAliveGarbage(v) => Some(v),
        _ => None,
    }
}

/// The raw-bytes value the option carries, if it is of such a kind.
pub open spec fn vec_u8_value(o: SpecDhcpOption) -> Option<Seq<u8>> {
    match o {
        SpecDhcpOption::VendorSpecific(v) => Some(v),
        SpecDhcpOption::ParameterRequestList(v) => Some(v),
        SpecDhcpOption::VendorClassIdentifier(v) => Some(v),
        _ => None,
    }
}

/// The text value the option carries, if it is of such a kind.
pub open spec fn ascii_value(o: SpecDhcpOption) -> Option<Seq<u8>> {
    match o {
        SpecDhcpOption::HostName(v) => Some(v),
        SpecDhcpOption::MeritDumpFile(v) => Some(v),
        SpecDhcpOption::DomainName(v) => Some(v),
        SpecDhcpOption::RootPath(v) => Some(v),
        SpecDhcpOption::ExtensionPath(v) => Some(v),
        SpecDhcpOption::NetworkInformationServiceDomain(v) => Some(v),
        SpecDhcpOption::Message(v) => Some(v),
        SpecDhcpOption::NetworkInformationServicePlusDomain(v) => Some(v),
        SpecDhcpOption::TftpServer(v) => Some(v),
        SpecDhcpOption::BootFileName(v) => Some(v),
        _ => None,
    }
}

/// The single-address value the option carries, if it is of such a kind.
pub open spec fn ipv4_value(o: SpecDhcpOption) -> Option<Ipv4Address> {
    match o {
        SpecDhcpOption::SubnetMask(v) => Some(v),
        SpecDhcpOption::SwapServer(v) => Some(v),
        SpecDhcpOption::BroadcastAddress(v) => Some(v),
        SpecDhcpOption::RouterSolicitationAddress(v) => Some(v),
        SpecDhcpOption::RequestedIpAddress(v) => Some(v),
        SpecDhcpOption::ServerIdentifier(v) => Some(v),
        _ => None,
    }
}

/// The address-list value the option carries, if it is of such a kind.
pub open spec fn ipv4vec_value(o: SpecDhcpOption) -> Option<Seq<Ipv4Address>> {
    match o {
        SpecDhcpOption::Router(v) => Some(v),
        SpecDhcpOption::TimeServer(v) => Some(v),
        SpecDhcpOption::NameServer(v) => Some(v),
        SpecDhcpOption::DomainNameServer(v) => Some(v),
        SpecDhcpOption::LogServer(v) => Some(v),
        SpecDhcpOption::CookieServer(v) => Some(v),
        SpecDhcpOption::LPRServer(v) => Some(v),
        SpecDhcpOption::ImpressServer(v) => Some(v),
        SpecDhcpOption::ResourceLocationServer(v) => Some(v),
        SpecDhcpOption::NetworkInformationServers(v) => Some(v),
        SpecDhcpOption::NetworkTimeProtocolServers(v) => Some(v),
        SpecDhcpOption::NetBiosOverTcpIpNameServer(v) => Some(v),
        SpecDhcpOption::NetBiosOverTcpIpDatagramDistributionServer(v) => Some(v),
        SpecDhcpOption::XWindowSystemFontServer(v) => Some(v),
        SpecDhcpOption::XWindowSystemDisplayManager(v) => Some(v),
        SpecDhcpOption::NetworkInformationServicePlusServer(v) => Some(v),
        SpecDhcpOption::MobileIpHomeAgent(v) => Some(v),
        SpecDhcpOption::SmtpServer(v) => Some(v),
        SpecDhcpOption::Pop3Server(v) => Some(v),
        SpecDhcpOption::NntpServer(v) => Some(v),
        SpecDhcpOption::WwwServer(v) => Some(v),
        SpecDhcpOption::FingerServer(v) => Some(v),
        SpecDhcpOption::IrcServer(v) => Some(v),
        SpecDhcpOption::StreetTalkServer(v) => Some(v),
        SpecDhcpOption::StreetTalkDirectoryAssistanceServer(v) => Some(v),
        _ => None,
    }
}

/// The 8-bit value the option carries, if it is of such a kind.
pub open spec fn u8_value(o: SpecDhcpOption) -> Option<u8> {
    match o {
        SpecDhcpOption::DefaultIpTTL(v) => Some(v),
        SpecDhcpOption::TcpDefaultTTL(v) => Some(v),
        _ => None,
    }
}

/// The 16-bit value the option carries, if it is of such a kind.
pub open spec fn u16_value(o: SpecDhcpOption) -> Option<u16> {
    match o {
        SpecDhcpOption::BootFileSize(v) => Some(v),
        SpecDhcpOption::InterfaceMtu(v) => Some(v),
        SpecDhcpOption::MaximumDhcpMessageSize(v) => Some(v),
        _ => None,
    }
}

/// The 32-bit value the option carries, if it is of such a kind.
pub open spec fn u32_value(o: SpecDhcpOption) -> Option<u32> {
    match o {
        SpecDhcpOption::PathMtuAgingTimeout(v) => Some(v),
        SpecDhcpOption::ArpCacheTimeout(v) => Some(v),
        SpecDhcpOption::TcpKeepAliveInterval(v) => Some(v),
        SpecDhcpOption::IpAddressLeaseTime(v) => Some(v),
        SpecDhcpOption::RenewalTimeValue(v) => Some(v),
        SpecDhcpOption::RebindingTimeValue(v) => Some(v),
        _ => None,
    }
}

/// The signed 32-bit value the option carries, if it is of such a kind.
pub open spec fn i32_value(o: SpecDhcpOption) -> Option<i32> {
    match o {
        SpecDhcpOption::TimeOffset(v) => Some(v),
        _ => None,
    }
}

impl DhcpOption {
    /// Try to get value if type is known without match
    pub fn try_to_bool(&self) -> (r: DhcpResult<bool>)
        ensures
            bool_value(self@) matches Some(v) ==> r == Ok::<bool, DhcpError>(v),
            bool_value(self@) is None ==> (r matches Err(e) && e == DhcpError::ConversionError(
                spec_tag(self@),
            )),
    {
        match self {
            DhcpOption::IpForwarding(v) => Ok(*v),
            DhcpOption::NonLocalSourceRouting(v) => Ok(*v),
            DhcpOption::AllSubnetsLocal(v) => Ok(*v),
            DhcpOption::MaskSupplier(v) => Ok(*v),
            DhcpOption::TrailerEncapsulation(v) => Ok(*v),
            DhcpOption::EthernetEncapsulation(v) => Ok(*v),
            DhcpOption::TcpKeepAliveGarbage(v) => Ok(*v),
            _ => Err(DhcpError::ConversionError(self.tag())),
        }
    }

    /// Try to get value if type is known without match
    pub fn try_to_vec_u8(&self) -> (r: DhcpResult<Vec<u8>>)
        ensures
            vec_u8_value(self@) matches Some(v) ==> (r matches Ok(x) && x@ == v),
            vec_u8_value(self@) is None ==> (r matches Err(e) && e == DhcpError::ConversionError(
                spec_tag(self@),
            )),
    {
        match self {
            DhcpOption::VendorSpecific(v) => Ok(copy_vec(v)),
            DhcpOption::ParameterRequestList(v) => Ok(copy_vec(v)),
            DhcpOption::VendorClassIdentifier(v) => Ok(copy_vec(v)),
            _ => Err(DhcpError::ConversionError(self.tag())),
        }
    }

    /// Try to get value if type is known without match
    pub fn try_to_ascii(&self) -> (r: DhcpResult<AsciiText>)
        ensures
            ascii_value(self@) matches Some(v) ==> (r matches Ok(x) && x@ == v),
            ascii_value(self@) is None ==> (r matches Err(e) && e == DhcpError::ConversionError(
                spec_tag(self@),
            )),
    {
        match self {
            DhcpOption::HostName(v) => Ok(v.duplicate()),
            DhcpOption::MeritDumpFile(v) => Ok(v.duplicate()),
            DhcpOption::DomainName(v) => Ok(v.duplicate()),
            DhcpOption::RootPath(v) => Ok(v.duplicate()),
            DhcpOption::ExtensionPath(v) => Ok(v.duplicate()),
            DhcpOption::NetworkInformationServiceDomain(v) => Ok(v.duplicate()),
            DhcpOption::Message(v) => Ok(v.duplicate()),
            DhcpOption::NetworkInformationServicePlusDomain(v) => Ok(v.duplicate()),
            DhcpOption::TftpServer(v) => Ok(v.duplicate()),
            DhcpOption::BootFileName(v) => Ok(v.duplicate()),
            _ => Err(DhcpError::ConversionError(self.tag())),
        }
    }

    /// Try to get value if type is known without match
    pub fn try_to_ipv4(&self) -> (r: DhcpResult<Ipv4Address>)
        ensures
            ipv4_value(self@) matches Some(v) ==> r == Ok::<Ipv4Address, DhcpError>(v),
            ipv4_value(self@) is None ==> (r matches Err(e) && e == DhcpError::ConversionError(
                spec_tag(self@),
            )),
    {
        match self {
            DhcpOption::SubnetMask(v) => Ok(*v),
            DhcpOption::SwapServer(v) => Ok(*v),
            DhcpOption::BroadcastAddress(v) => Ok(*v),
            DhcpOption::RouterSolicitationAddress(v) => Ok(*v),
            DhcpOption::RequestedIpAddress(v) => Ok(*v),
            DhcpOption::ServerIdentifier(v) => Ok(*v),
            _ => Err(DhcpError::ConversionError(self.tag())),
        }
    }

    /// Try to get value if type is known without match
    pub fn try_to_ipv4vec(&self) -> (r: DhcpResult<Vec<Ipv4Address>>)
        ensures
            ipv4vec_value(self@) matches Some(v) ==> (r matches Ok(x) && x@ == v),
            ipv4vec_value(self@) is None ==> (r matches Err(e) && e == DhcpError::ConversionError(
                spec_tag(self@),
            )),
    {
        match self {
            DhcpOption::Router(v) => Ok(copy_vec(v)),
            DhcpOption::TimeServer(v) => Ok(copy_vec(v)),
            DhcpOption::NameServer(v) => Ok(copy_vec(v)),
            DhcpOption::DomainNameServer(v) => Ok(copy_vec(v)),
            DhcpOption::LogServer(v) => Ok(copy_vec(v)),
            DhcpOption::CookieServer(v) => Ok(copy_vec(v)),
            DhcpOption::LPRServer(v) => Ok(copy_vec(v)),
            DhcpOption::ImpressServer(v) => Ok(copy_vec(v)),
            DhcpOption::ResourceLocationServer(v) => Ok(copy_vec(v)),
            DhcpOption::NetworkInformationServers(v) => Ok(copy_vec(v)),
            DhcpOption::NetworkTimeProtocolServers(v) => Ok(copy_vec(v)),
            DhcpOption::NetBiosOverTcpIpNameServer(v) => Ok(copy_vec(v)),
            DhcpOption::NetBiosOverTcpIpDatagramDistributionServer(v) => Ok(copy_vec(v)),
            DhcpOption::XWindowSystemFontServer(v) => Ok(copy_vec(v)),
            DhcpOption::XWindowSystemDisplayManager(v) => Ok(copy_vec(v)),
            DhcpOption::NetworkInformationServicePlusServer(v) => Ok(copy_vec(v)),
            DhcpOption::MobileIpHomeAgent(v) => Ok(copy_vec(v)),
            DhcpOption::SmtpServer(v) => Ok(copy_vec(v)),
            DhcpOption::Pop3Server(v) => Ok(copy_vec(v)),
            DhcpOption::NntpServer(v) => Ok(copy_vec(v)),
            DhcpOption::WwwServer(v) => Ok(copy_vec(v)),
            DhcpOption::FingerServer(v) => Ok(copy_vec(v)),
            DhcpOption::IrcServer(v) => Ok(copy_vec(v)),
            DhcpOption::StreetTalkServer(v) => Ok(copy_vec(v)),
            DhcpOption::StreetTalkDirectoryAssistanceServer(v) => Ok(copy_vec(v)),
            _ => Err(DhcpError::ConversionError(self.tag())),
        }
    }

    /// Try to get value if type is known without match
    pub fn try_to_u8(&self) -> (r: DhcpResult<u8>)
        ensures
            u8_value(self@) matches Some(v) ==> r == Ok::<u8, DhcpError>(v),
            u8_value(self@) is None ==> (r matches Err(e) && e == DhcpError::ConversionError(
                spec_tag(self@),
            )),
    {
        match self {
            DhcpOption::DefaultIpTTL(v) => Ok(*v),
            DhcpOption::TcpDefaultTTL(v) => Ok(*v),
            _ => Err(DhcpError::ConversionError(self.tag())),
        }
    }

    /// Try to get value if type is known without match
    pub fn try_to_u16(&self) -> (r: DhcpResult<u16>)
        ensures
            u16_value(self@) matches Some(v) ==> r == Ok::<u16, DhcpError>(v),
            u16_value(self@) is None ==> (r matches Err(e) && e == DhcpError::ConversionError(
                spec_tag(self@),
            )),
    {
        match self {
            DhcpOption::BootFileSize(v) => Ok(*v),
            DhcpOption::InterfaceMtu(v) => Ok(*v),
            DhcpOption::MaximumDhcpMessageSize(v) => Ok(*v),
            _ => Err(DhcpError::ConversionError(self.tag())),
        }
    }

    /// Try to get value if type is known without match
    pub fn try_to_u32(&self) -> (r: DhcpResult<u32>)
        ensures
            u32_value(self@) matches Some(v) ==> r == Ok::<u32, DhcpError>(v),
            u32_value(self@) is None ==> (r matches Err(e) && e == DhcpError::ConversionError(
                spec_tag(self@),
            )),
    {
        match self {
            DhcpOption::PathMtuAgingTimeout(v) => Ok(*v),
            DhcpOption::ArpCacheTimeout(v) => Ok(*v),
            DhcpOption::TcpKeepAliveInterval(v) => Ok(*v),
            DhcpOption::IpAddressLeaseTime(v) => Ok(*v),
            DhcpOption::RenewalTimeValue(v) => Ok(*v),
            DhcpOption::RebindingTimeValue(v) => Ok(*v),
            _ => Err(DhcpError::ConversionError(self.tag())),
        }
    }

    /// Try to get value if type is known without match
    pub fn try_to_i32(&self) -> (r: DhcpResult<i32>)
        ensures
            i32_value(self@) matches Some(v) ==> r == Ok::<i32, DhcpError>(v),
            i32_value(self@) is None ==> (r matches Err(e) && e == DhcpError::ConversionError(
                spec_tag(self@),
            )),
    {
        match self {
            DhcpOption::TimeOffset(v) => Ok(*v),
            _ => Err(DhcpError::ConversionError(self.tag())),
        }
    }

}

impl DhcpOptions {
    /// Try to extract option value
    pub fn try_ascii_option(&self, tag: u8) -> (r: DhcpResult<AsciiText>)
        requires
            self.wf(),
        ensures
            self@[tag as int] is None ==> (r matches Err(e) && e == DhcpError::OptionNotExist(
                tag,
            )),
            self@[tag as int] matches Some(o) ==> ((ascii_value(o) matches Some(v) ==> (r matches Ok(x) && x@ == v))
                && (ascii_value(o) is None ==> (r matches Err(e) && e
                == DhcpError::ConversionError(tag)))),
    {
        match self.option(tag) {
            Some(o) => o.try_to_ascii(),
            None => Err(DhcpError::OptionNotExist(tag)),
        }
    }

    /// Try to extract option value
    pub fn try_ipv4_option(&self, tag: u8) -> (r: DhcpResult<Ipv4Address>)
        requires
            self.wf(),
        ensures
            self@[tag as int] is None ==> (r matches Err(e) && e == DhcpError::OptionNotExist(
                tag,
            )),
            self@[tag as int] matches Some(o) ==> ((ipv4_value(o) matches Some(v) ==> r == Ok::<Ipv4Address, DhcpError>(v))
                && (ipv4_value(o) is None ==> (r matches Err(e) && e
                == DhcpError::ConversionError(tag)))),
    {
        match self.option(tag) {
            Some(o) => o.try_to_ipv4(),
            None => Err(DhcpError::OptionNotExist(tag)),
        }
    }

    /// Try to extract option value
    pub fn try_ipv4vec_option(&self, tag: u8) -> (r: DhcpResult<Vec<Ipv4Address>>)
        requires
            self.wf(),
        ensures
            self@[tag as int] is None ==> (r matches Err(e) && e == DhcpError::OptionNotExist(
                tag,
            )),
            self@[tag as int] matches Some(o) ==> ((ipv4vec_value(o) matches Some(v) ==> (r matches Ok(x) && x@ == v))
                && (ipv4vec_value(o) is None ==> (r matches Err(e) && e
                == DhcpError::ConversionError(tag)))),
    {
        match self.option(tag) {
            Some(o) => o.try_to_ipv4vec(),
            None => Err(DhcpError::OptionNotExist(tag)),
        }
    }

    /// Try to extract option value
    pub fn try_u8_option(&self, tag: u8) -> (r: DhcpResult<u8>)
        requires
            self.wf(),
        ensures
            self@[tag as int] is None ==> (r matches Err(e) && e == DhcpError::OptionNotExist(
                tag,
            )),
            self@[tag as int] matches Some(o) ==> ((u8_value(o) matches Some(v) ==> r == Ok::<u8, DhcpError>(v))
                && (u8_value(o) is None ==> (r matches Err(e) && e
                == DhcpError::ConversionError(tag)))),
    {
        match self.option(tag) {
            Some(o) => o.try_to_u8(),
            None => Err(DhcpError::OptionNotExist(tag)),
        }
    }

    /// Try to extract option value
    pub fn try_u16_option(&self, tag: u8) -> (r: DhcpResult<u16>)
        requires
            self.wf(),
        ensures
            self@[tag as int] is None ==> (r matches Err(e) && e == DhcpError::OptionNotExist(
                tag,
            )),
            self@[tag as int] matches Some(o) ==> ((u16_value(o) matches Some(v) ==> r == Ok::<u16, DhcpError>(v))
                && (u16_value(o) is None ==> (r matches Err(e) && e
                == DhcpError::ConversionError(tag)))),
    {
        match self.option(tag) {
            Some(o) => o.try_to_u16(),
            None => Err(DhcpError::OptionNotExist(tag)),
        }
    }

    /// Try to extract option value
    pub fn try_u32_option(&self, tag: u8) -> (r: DhcpResult<u32>)
        requires
            self.wf(),
        ensures
            self@[tag as int] is None ==> (r matches Err(e) && e == DhcpError::OptionNotExist(
                tag,
            )),
            self@[tag as int] matches Some(o) ==> ((u32_value(o) matches Some(v) ==> r == Ok::<u32, DhcpError>(v))
                && (u32_value(o) is None ==> (r matches Err(e) && e
                == DhcpError::ConversionError(tag)))),
    {
        match self.option(tag) {
            Some(o) => o.try_to_u32(),
            None => Err(DhcpError::OptionNotExist(tag)),
        }
    }

    /// Try to extract option value
    pub fn try_vec_u8_option(&self, tag: u8) -> (r: DhcpResult<Vec<u8>>)
        requires
            self.wf(),
        ensures
            self@[tag as int] is None ==> (r matches Err(e) && e == DhcpError::OptionNotExist(
                tag,
            )),
            self@[tag as int] matches Some(o) ==> ((vec_u8_value(o) matches Some(v) ==> (r matches Ok(x) && x@ == v))
                && (vec_u8_value(o) is None ==> (r matches Err(e) && e
                == DhcpError::ConversionError(tag)))),
    {
        match self.option(tag) {
            Some(o) => o.try_to_vec_u8(),
            None => Err(DhcpError::OptionNotExist(tag)),
        }
    }

    /// Try to extract option value
    pub fn try_to_i32(&self, tag: u8) -> (r: DhcpResult<i32>)
        requires
            self.wf(),
        ensures
            self@[tag as int] is None ==> (r matches Err(e) && e == DhcpError::OptionNotExist(
                tag,
            )),
            self@[tag as int] matches Some(o) ==> ((i32_value(o) matches Some(v) ==> r == Ok::<i32, DhcpError>(v))
                && (i32_value(o) is None ==> (r matches Err(e) && e
                == DhcpError::ConversionError(tag)))),
    {
        match self.option(tag) {
            Some(o) => o.try_to_i32(),
            None => Err(DhcpError::OptionNotExist(tag)),
        }
    }

    /// Try to extract option value
    pub fn try_to_bool(&self, tag: u8) -> (r: DhcpResult<bool>)
        requires
            self.wf(),
        ensures
            self@[tag as int] is None ==> (r matches Err(e) && e == DhcpError::OptionNotExist(
                tag,
            )),
            self@[tag as int] matches Some(o) ==> ((bool_value(o) matches Some(v) ==> r == Ok::<bool, DhcpError>(v))
                && (bool_value(o) is None ==> (r matches Err(e) && e
                == DhcpError::ConversionError(tag)))),
    {
        match self.option(tag) {
            Some(o) => o.try_to_bool(),
            None => Err(DhcpError::OptionNotExist(tag)),
        }
    }

}

} // verus!
