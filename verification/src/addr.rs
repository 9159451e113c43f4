use vstd::prelude::*;

use crate::error::{DhcpError, DhcpResult};

verus! {

/// One IPv4 address, held as its four octets in network order.
#[derive(Clone, Copy, Debug, PartialEq, Eq, Structural)]
pub struct Ipv4Address {
    pub o0: u8,
    pub o1: u8,
    pub o2: u8,
    pub o3: u8,
}

impl Ipv4Address {
    pub open spec fn spec_unspecified() -> Ipv4Address {
        Ipv4Address { o0: 0, o1: 0, o2: 0, o3: 0 }
    }

    pub fn new(o0: u8, o1: u8, o2: u8, o3: u8) -> (r: Ipv4Address)
        ensures
            r == (Ipv4Address { o0, o1, o2, o3 }),
    {
        Ipv4Address { o0, o1, o2, o3 }
    }

    /// The all-zero address, 0.0.0.0.
    pub fn unspecified() -> (r: Ipv4Address)
        ensures
            r == Ipv4Address::spec_unspecified(),
    {
        Ipv4Address { o0: 0, o1: 0, o2: 0, o3: 0 }
    }
}

/// Every byte of the sequence is 7-bit ASCII.
pub open spec fn ascii_wf(s: Seq<u8>) -> bool {
    forall|i: int| 0 <= i < s.len() ==> s[i] < 128
}

/// Text whose bytes are all 7-bit ASCII, established on construction.
#[derive(Clone, Debug, PartialEq)]
pub struct AsciiText {
    bytes: Vec<u8>,
}

impl View for AsciiText {
    type V = Seq<u8>;

    closed spec fn view(&self) -> Seq<u8> {
        self.bytes@
    }
}

impl AsciiText {
    /// The empty text.
    pub fn empty() -> (r: AsciiText)
        ensures
            r@ == Seq::<u8>::empty(),
    {
        AsciiText { bytes: Vec::new() }
    }

    /// Accepts the bytes as text exactly when every one is 7-bit ASCII.
    pub fn from_ascii(bytes: Vec<u8>) -> (r: Option<AsciiText>)
        ensures
            ascii_wf(bytes@) ==> (r matches Some(t) && t@ == bytes@),
            !ascii_wf(bytes@) ==> r is None,
    {
        let n = bytes.len();
        let mut i: usize = 0;
        while i < n
            invariant
                n == bytes@.len(),
                0 <= i <= n,
                forall|j: int| 0 <= j < i ==> bytes@[j] < 128,
            decreases n - i,
        {
            if bytes[i] >= 128 {
                return None;
            }
            i += 1;
        }
        Some(AsciiText { bytes })
    }

    pub fn len(&self) -> (r: usize)
        ensures
            r == self@.len(),
    {
        self.bytes.len()
    }

    pub fn as_bytes(&self) -> (r: &[u8])
        ensures
            r@ == self@,
    {
        self.bytes.as_slice()
    }

    /// A copy with the same bytes.
    pub fn duplicate(&self) -> (r: AsciiText)
        ensures
            r@ == self@,
    {
        let bytes = copy_vec(&self.bytes);
        AsciiText { bytes }
    }
}

/// The byte length is that of a 6- or 8-octet hardware address.
pub open spec fn mac_wf(s: Seq<u8>) -> bool {
    s.len() == 6 || s.len() == 8
}

/// A hardware (MAC) address of 6 or 8 octets.
#[derive(Clone, Debug, PartialEq)]
pub struct MacAddress {
    bytes: Vec<u8>,
}

impl View for MacAddress {
    type V = Seq<u8>;

    closed spec fn view(&self) -> Seq<u8> {
        self.bytes@
    }
}

impl MacAddress {
    /// Accepts the bytes exactly when there are 6 or 8 of them.
    pub fn from_bytes(bytes: Vec<u8>) -> (r: DhcpResult<MacAddress>)
        ensures
            mac_wf(bytes@) ==> (r matches Ok(m) && m@ == bytes@),
            !mac_wf(bytes@) ==> (r matches Err(e) && e == DhcpError::HardwareAddressParseError),
    {
        if bytes.len() == 6 || bytes.len() == 8 {
            Ok(MacAddress { bytes })
        } else {
            Err(DhcpError::HardwareAddressParseError)
        }
    }

    /// The number of significant octets, 6 or 8.
    pub fn size(&self) -> (r: u8)
        requires
            mac_wf(self@),
        ensures
            r as int == self@.len(),
    {
        if self.bytes.len() == 6 {
            6
        } else {
            8
        }
    }

    pub fn as_bytes(&self) -> (r: &[u8])
        ensures
            r@ == self@,
    {
        self.bytes.as_slice()
    }

    /// A copy with the same bytes.
    pub fn duplicate(&self) -> (r: MacAddress)
        ensures
            r@ == self@,
    {
        let bytes = copy_vec(&self.bytes);
        MacAddress { bytes }
    }
}

/// A fresh vector with the same elements.
pub fn copy_vec<T: Copy>(v: &Vec<T>) -> (r: Vec<T>)
    ensures
        r@ == v@,
{
    let n = v.len();
    let mut r: Vec<T> = Vec::new();
    let mut i: usize = 0;
    while i < n
        invariant
            n == v@.len(),
            0 <= i <= n,
            r@ == v@.take(i as int),
        decreases n - i,
    {
        r.push(v[i]);
        proof {
            assert(r@ =~= v@.take(i + 1));
        }
        i += 1;
    }
    proof {
        assert(v@.take(n as int) =~= v@);
    }
    r
}

} // verus!
