use vstd::prelude::*;

verus! {

/// Result with DhcpError or any type
pub type DhcpResult<T> = Result<T, DhcpError>;

/// Contains all DHCP errors
#[derive(Clone, Copy, Debug, PartialEq, Eq, Structural)]
pub enum DhcpError {
    MessageOperationInvalid,
    HardwareAddressTypeParseError,
    HardwareAddressParseError,
    TransactionIdParseError,
    SecondsParseError,
    ClientAddressParseError,
    YourAddressParseError,
    ServerAddressParseError,
    GatewayAddressParseError,
    CookieParseError,
    InvalidFlag,
    OptionParseError(u8),
    OptionInvalidValueError(u8),
    DhcpMessagePacketError,
    ConversionError(u8),
    OptionNotExist(u8),
    InvalidPacketLength(u8),
}

} // verus!
