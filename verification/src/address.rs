//! Network addresses and endpoints, as the messages carry them.

use vstd::prelude::*;

verus! {

/// A network address, tagged with its family.
#[derive(Clone, Copy, Debug, PartialEq, Eq)]
pub enum IpAddress {
    /// A four-octet address.
    V4([u8; 4]),
    /// A sixteen-octet address.
    V6([u8; 16]),
}

impl IpAddress {
    /// The number of octets of the address.
    pub open spec fn spec_len(self) -> nat {
        match self {
            IpAddress::V4(_) => 4,
            IpAddress::V6(_) => 16,
        }
    }

    /// The family tag that stands before the address on the wire.
    pub open spec fn spec_version(self) -> u16 {
        match self {
            IpAddress::V4(_) => 4,
            IpAddress::V6(_) => 6,
        }
    }

    /// The octets of the address, in network order.
    pub open spec fn spec_octets(self) -> Seq<u8> {
        match self {
            IpAddress::V4(a) => a@,
            IpAddress::V6(a) => a@,
        }
    }

    /// The number of octets of the address: 4 or 16.
    pub fn len(&self) -> (n: u16)
        ensures
            n == self.spec_len(),
    {
        match *self {
            IpAddress::V4(_) => 4,
            IpAddress::V6(_) => 16,
        }
    }

    /// The family tag of the address: 4 or 6.
    pub fn version(&self) -> (v: u16)
        ensures
            v == self.spec_version(),
    {
        match *self {
            IpAddress::V4(_) => 4,
            IpAddress::V6(_) => 6,
        }
    }

    /// The octets of the address, in network order.
    pub fn octets(&self) -> (out: Vec<u8>)
        ensures
            out@ == self.spec_octets(),
    {
        let mut octets = Vec::<u8>::new();
        match self {
            IpAddress::V4(addr) => octets.extend_from_slice(addr.as_slice()),
            IpAddress::V6(addr) => octets.extend_from_slice(addr.as_slice()),
        }
        assert(octets@ =~= self.spec_octets());
        octets
    }
}

/// An address and a port.
#[derive(Clone, Copy, Debug, PartialEq, Eq)]
pub struct Endpoint {
    pub addr: IpAddress,
    pub port: u16,
}

impl Endpoint {
    /// The endpoint of a four-octet address.
    pub fn v4(a: u8, b: u8, c: u8, d: u8, port: u16) -> (e: Endpoint)
        ensures
            e == (Endpoint { addr: IpAddress::V4([a, b, c, d]), port }),
    {
        Endpoint { addr: IpAddress::V4([a, b, c, d]), port }
    }

    /// The endpoint of a sixteen-octet address.
    pub fn v6(octets: [u8; 16], port: u16) -> (e: Endpoint)
        ensures
            e == (Endpoint { addr: IpAddress::V6(octets), port }),
    {
        Endpoint { addr: IpAddress::V6(octets), port }
    }
}

} // verus!
