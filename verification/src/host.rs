//! The local end of a resolution: which interface, and which of its
//! addresses the host speaks with.

use crate::addr::{Ipv4Address, MacAddress};
use crate::error::Error;
use vstd::prelude::*;

verus! {

/// A network address bound to an interface.
#[derive(Clone, Copy, Debug, PartialEq, Eq, Hash, Structural)]
pub enum IpAddress {
    V4(Ipv4Address),
    /// An IPv6 address as its 128 bits. It is carried along, never spoken with.
    V6(u128),
}

/// A snapshot of one network interface as the system lists it.
#[derive(Clone, Debug, PartialEq, Eq)]
pub struct InterfaceHandle {
    pub index: u32,
    pub description: String,
    /// Absent on interfaces without a hardware address.
    pub mac: Option<MacAddress>,
    /// The bound addresses, in the order the system reports them.
    pub ips: Vec<IpAddress>,
}

/// The two addresses the host uses on the interface it asks from.
#[derive(Clone, Copy, Debug, PartialEq, Eq, Hash, Structural)]
pub struct HostIdentity {
    pub ip: Ipv4Address,
    pub mac: MacAddress,
}

/// The first IPv4 address among `ips`, in their order.
pub open spec fn spec_first_ipv4(ips: Seq<IpAddress>) -> Option<Ipv4Address>
    decreases ips.len(),
{
    if ips.len() == 0 {
        None
    } else {
        match ips[0] {
            IpAddress::V4(ip) => Some(ip),
            IpAddress::V6(_) => spec_first_ipv4(ips.drop_first()),
        }
    }
}

/// The position of the first interface with the given index.
pub open spec fn spec_position(interfaces: Seq<InterfaceHandle>, index: u32) -> Option<int>
    decreases interfaces.len(),
{
    if interfaces.len() == 0 {
        None
    } else if interfaces[0].index == index {
        Some(0)
    } else {
        match spec_position(interfaces.drop_first(), index) {
            Some(at) => Some(at + 1),
            None => None,
        }
    }
}

/// The identity of the host on `interface`: its hardware address and its
/// first IPv4 address. The hardware address is asked for first, so an
/// interface that lacks both fails with `MissingMacAddress`.
pub open spec fn spec_host_identity(interface: InterfaceHandle) -> Result<HostIdentity, Error> {
    match interface.mac {
        None => Err(Error::MissingMacAddress),
        Some(mac) => match spec_first_ipv4(interface.ips@) {
            None => Err(Error::NoIpv4),
            Some(ip) => Ok(HostIdentity { ip, mac }),
        },
    }
}

/// The identity of the host on the first interface with the given index.
pub open spec fn spec_select_host(interfaces: Seq<InterfaceHandle>, index: u32) -> Result<
    HostIdentity,
    Error,
> {
    match spec_position(interfaces, index) {
        None => Err(Error::InvalidInterface),
        Some(at) => spec_host_identity(interfaces[at]),
    }
}

/// `spec_first_ipv4` gives an address exactly when one of `ips` is IPv4, and
/// then the one before which every address is IPv6.
pub proof fn lemma_first_ipv4(ips: Seq<IpAddress>)
    ensures
        match spec_first_ipv4(ips) {
            Some(ip) => exists|at: int|
                0 <= at < ips.len() && #[trigger] ips[at] == IpAddress::V4(ip) && forall|j: int|
                    0 <= j < at ==> #[trigger] ips[j] is V6,
            None => forall|j: int| 0 <= j < ips.len() ==> #[trigger] ips[j] is V6,
        },
    decreases ips.len(),
{
    if ips.len() > 0 {
        let rest = ips.drop_first();
        lemma_first_ipv4(rest);
        match ips[0] {
            IpAddress::V4(ip) => {
                assert(ips[0] == IpAddress::V4(ip));
            },
            IpAddress::V6(_) => {
                match spec_first_ipv4(rest) {
                    Some(ip) => {
                        let at = choose|at: int|
                            0 <= at < rest.len() && #[trigger] rest[at] == IpAddress::V4(ip)
                                && forall|j: int| 0 <= j < at ==> #[trigger] rest[j] is V6;
                        assert(ips[at + 1] == rest[at]);
                        assert forall|j: int| 0 <= j < at + 1 implies #[trigger] ips[j] is V6 by {
                            if j > 0 {
                                assert(ips[j] == rest[j - 1]);
                            }
                        }
                    },
                    None => {
                        assert forall|j: int| 0 <= j < ips.len() implies #[trigger] ips[j]
                            is V6 by {
                            if j > 0 {
                                assert(ips[j] == rest[j - 1]);
                            }
                        }
                    },
                }
            },
        }
    }
}

/// `spec_position` gives a position exactly when some interface has the
/// index, and then the first such position.
pub proof fn lemma_position(interfaces: Seq<InterfaceHandle>, index: u32)
    ensures
        match spec_position(interfaces, index) {
            Some(at) => 0 <= at < interfaces.len() && interfaces[at].index == index && forall|
                j: int,
            |
                0 <= j < at ==> (#[trigger] interfaces[j]).index != index,
            None => forall|j: int|
                0 <= j < interfaces.len() ==> (#[trigger] interfaces[j]).index != index,
        },
    decreases interfaces.len(),
{
    if interfaces.len() > 0 && interfaces[0].index != index {
        let rest = interfaces.drop_first();
        lemma_position(rest, index);
        match spec_position(rest, index) {
            Some(at) => {
                assert(interfaces[at + 1] == rest[at]);
                assert forall|j: int| 0 <= j < at + 1 implies (#[trigger] interfaces[j]).index
                    != index by {
                    if j > 0 {
                        assert(interfaces[j] == rest[j - 1]);
                    }
                }
            },
            None => {
                assert forall|j: int| 0 <= j < interfaces.len() implies (
                #[trigger] interfaces[j]).index != index by {
                    if j > 0 {
                        assert(interfaces[j] == rest[j - 1]);
                    }
                }
            },
        }
    }
}

/// Finds the first IPv4 address among `ips`.
pub fn first_ipv4(ips: &[IpAddress]) -> (found: Option<Ipv4Address>)
    ensures
        found == spec_first_ipv4(ips@),
{
    let mut at: usize = 0;
    assert(ips@.skip(0) =~= ips@);
    while at < ips.len()
        invariant
            at <= ips@.len(),
            spec_first_ipv4(ips@) == spec_first_ipv4(ips@.skip(at as int)),
        decreases ips@.len() - at,
    {
        let ghost rest = ips@.skip(at as int);
        assert(rest[0] == ips@[at as int]);
        assert(rest.drop_first() =~= ips@.skip(at + 1));
        match ips[at] {
            IpAddress::V4(ip) => {
                return Some(ip);
            },
            IpAddress::V6(_) => {},
        }
        at += 1;
    }
    assert(ips@.skip(at as int).len() == 0);
    None
}

/// Finds the position of the first interface with the given index.
///
/// Fails with `InvalidInterface` exactly when no interface has the index.
pub fn find_interface(interfaces: &[InterfaceHandle], index: u32) -> (found: Result<usize, Error>)
    ensures
        match found {
            Ok(at) => at < interfaces@.len() && spec_position(interfaces@, index) == Some(
                at as int,
            ),
            Err(error) => error == Error::InvalidInterface && spec_position(interfaces@, index)
                is None,
        },
{
    let mut at: usize = 0;
    assert(interfaces@.skip(0) =~= interfaces@);
    while at < interfaces.len()
        invariant
            at <= interfaces@.len(),
            spec_position(interfaces@, index) == match spec_position(
                interfaces@.skip(at as int),
                index,
            ) {
                Some(p) => Some(p + at),
                None => None,
            },
        decreases interfaces@.len() - at,
    {
        let ghost rest = interfaces@.skip(at as int);
        assert(rest[0] == interfaces@[at as int]);
        assert(rest.drop_first() =~= interfaces@.skip(at + 1));
        if interfaces[at].index == index {
            return Ok(at);
        }
        at += 1;
    }
    assert(interfaces@.skip(at as int).len() == 0);
    Err(Error::InvalidInterface)
}

/// Reads the host's identity off an interface.
///
/// Fails with `MissingMacAddress` where the interface reports no hardware
/// address, else with `NoIpv4` where none of its addresses is IPv4.
pub fn host_identity(interface: &InterfaceHandle) -> (host: Result<HostIdentity, Error>)
    ensures
        host == spec_host_identity(*interface),
{
    match interface.mac {
        None => Err(Error::MissingMacAddress),
        Some(mac) => match first_ipv4(interface.ips.as_slice()) {
            None => Err(Error::NoIpv4),
            Some(ip) => Ok(HostIdentity { ip, mac }),
        },
    }
}

/// Picks the interface with the given index and reads the host's identity
/// off it.
pub fn select_host(interfaces: &[InterfaceHandle], index: u32) -> (host: Result<
    HostIdentity,
    Error,
>)
    ensures
        host == spec_select_host(interfaces@, index),
{
    match find_interface(interfaces, index) {
        Ok(at) => host_identity(&interfaces[at]),
        Err(error) => Err(error),
    }
}

} // verus!
