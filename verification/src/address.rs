//! IPv4 addresses as plain values.

use vstd::prelude::*;

verus! {

/// An IPv4 address, held as its four octets in network order: `a.b.c.d`.
#[derive(Clone, Copy, Debug, PartialEq, Eq, Structural)]
pub struct Ipv4Address {
    pub a: u8,
    pub b: u8,
    pub c: u8,
    pub d: u8,
}

impl View for Ipv4Address {
    type V = Seq<u8>;

    /// The four octets, most significant first.
    open spec fn view(&self) -> Seq<u8> {
        seq![self.a, self.b, self.c, self.d]
    }
}

impl Ipv4Address {
    /// The address `a.b.c.d`.
    pub fn new(a: u8, b: u8, c: u8, d: u8) -> (address: Ipv4Address)
        ensures
            address == (Ipv4Address { a, b, c, d }),
    {
        Ipv4Address { a, b, c, d }
    }

    /// The four octets, most significant first.
    pub fn octets(&self) -> (octets: [u8; 4])
        ensures
            octets@ == self@,
    {
        [self.a, self.b, self.c, self.d]
    }
}

/// An address of a host or an interface. Only IPv4 addresses are scanned
/// from or to, so nothing of an IPv6 address is kept but its family.
#[derive(Clone, Copy, Debug, PartialEq, Eq, Structural)]
pub enum HostAddress {
    V4(Ipv4Address),
    V6,
}

/// Two addresses with the same octets are the same address.
pub proof fn lemma_view_injective(x: Ipv4Address, y: Ipv4Address)
    requires
        x@ == y@,
    ensures
        x == y,
{
    assert(x@[0] == y@[0]);
    assert(x@[1] == y@[1]);
    assert(x@[2] == y@[2]);
    assert(x@[3] == y@[3]);
}

} // verus!
