//! A verified model of the DHCP wire format (RFC 2131 / RFC 2132): the
//! fixed-layout packet header, the tag-length-value option stream with its
//! typed per-tag codec, and the message-role transitions of a client/server
//! exchange (Discover, Offer, Request, Ack, Nak, Inform, Release, Decline).

/// DHCP Errors
pub mod error;

/// Addresses and ASCII text, as the wire format holds them
pub mod addr;

/// DHCP options
pub mod option;

/// DHCP Conversation
pub mod convert;

/// The DHCP packet: fixed header plus option area
pub mod dhcp;

/// Client/Server communication helper
pub mod messaging;

pub use crate::addr::{AsciiText, Ipv4Address, MacAddress};
pub use crate::dhcp::{bytes_fill_zeroes, Cookie, DhcpPacket, Flags, HardwareAddressType,
    MessageOperation};
