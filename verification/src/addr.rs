//! Link-layer and network-layer addresses as plain octets.

use vstd::prelude::*;

verus! {

/// A 6-octet Ethernet hardware address, most significant octet first.
#[derive(Clone, Copy, Debug, PartialEq, Eq, Hash, Structural)]
pub struct MacAddress(pub u8, pub u8, pub u8, pub u8, pub u8, pub u8);

/// A 4-octet IPv4 address, in network order.
#[derive(Clone, Copy, Debug, PartialEq, Eq, Hash, Structural)]
pub struct Ipv4Address(pub u8, pub u8, pub u8, pub u8);

impl MacAddress {
    /// The octets in the order they appear on the wire.
    pub open spec fn wire(self) -> Seq<u8> {
        seq![self.0, self.1, self.2, self.3, self.4, self.5]
    }

    /// The address read from six consecutive octets of `s`, starting at `at`.
    pub open spec fn read(s: Seq<u8>, at: int) -> MacAddress {
        MacAddress(s[at], s[at + 1], s[at + 2], s[at + 3], s[at + 4], s[at + 5])
    }

    /// The all-ones address, which every station on the segment accepts.
    pub open spec fn spec_broadcast() -> MacAddress {
        MacAddress(0xff, 0xff, 0xff, 0xff, 0xff, 0xff)
    }

    #[verifier::when_used_as_spec(spec_broadcast)]
    pub fn broadcast() -> (m: MacAddress)
        ensures
            m == Self::spec_broadcast(),
    {
        MacAddress(0xff, 0xff, 0xff, 0xff, 0xff, 0xff)
    }

    pub fn is_broadcast(&self) -> (b: bool)
        ensures
            b == (*self == Self::spec_broadcast()),
    {
        self.0 == 0xff && self.1 == 0xff && self.2 == 0xff && self.3 == 0xff && self.4 == 0xff
            && self.5 == 0xff
    }

    pub fn from_octets(octets: [u8; 6]) -> (m: MacAddress)
        ensures
            m.wire() == octets@,
    {
        let m = MacAddress(octets[0], octets[1], octets[2], octets[3], octets[4], octets[5]);
        assert(m.wire() =~= octets@);
        m
    }

    pub fn octets(&self) -> (octets: [u8; 6])
        ensures
            octets@ == self.wire(),
    {
        let octets: [u8; 6] = [self.0, self.1, self.2, self.3, self.4, self.5];
        assert(octets@ =~= self.wire());
        octets
    }
}

impl Ipv4Address {
    /// The octets in the order they appear on the wire.
    pub open spec fn wire(self) -> Seq<u8> {
        seq![self.0, self.1, self.2, self.3]
    }

    /// The address read from four consecutive octets of `s`, starting at `at`.
    pub open spec fn read(s: Seq<u8>, at: int) -> Ipv4Address {
        Ipv4Address(s[at], s[at + 1], s[at + 2], s[at + 3])
    }

    pub fn from_octets(octets: [u8; 4]) -> (a: Ipv4Address)
        ensures
            a.wire() == octets@,
    {
        let a = Ipv4Address(octets[0], octets[1], octets[2], octets[3]);
        assert(a.wire() =~= octets@);
        a
    }

    pub fn octets(&self) -> (octets: [u8; 4])
        ensures
            octets@ == self.wire(),
    {
        let octets: [u8; 4] = [self.0, self.1, self.2, self.3];
        assert(octets@ =~= self.wire());
        octets
    }
}

} // verus!
