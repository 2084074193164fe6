//! The address model of the socket layer, and the lossless conversion
//! between its two address representations.
//!
//! The structured representation is [`SocketAddr`]: a tagged IPv4/IPv6
//! address together with a port. The alternate representation is the
//! packet-info form the operating system uses in ancillary control
//! messages: a per-family structure carrying the address only, so the port
//! travels beside it. The conversion is lossless for address and port; an
//! IPv6 zone/scope id is not part of the model and is not preserved (a
//! documented gap of the packet-info path).

use vstd::prelude::*;

verus! {

/// An IP address: four octets, or sixteen.
#[derive(Clone, Copy, Debug)]
pub enum IpAddr {
    V4([u8; 4]),
    V6([u8; 16]),
}

/// A socket address: an IP address together with a 16-bit port.
#[derive(Clone, Copy, Debug)]
pub struct SocketAddr {
    pub ip: IpAddr,
    pub port: u16,
}

/// The IPv4 packet-info structure: interface index, the address a received
/// datagram was sent to (or the source address to send with), and the
/// header destination address.
#[derive(Clone, Copy, PartialEq, Debug)]
pub struct InPktInfo {
    pub ifindex: u32,
    pub spec_dst: [u8; 4],
    pub addr: [u8; 4],
}

/// The IPv6 packet-info structure: the address, and an interface index.
#[derive(Clone, Copy, PartialEq, Debug)]
pub struct In6PktInfo {
    pub addr: [u8; 16],
    pub ifindex: u32,
}

/// Packet-info of either address family.
#[derive(Clone, Copy, PartialEq, Debug)]
pub enum PktInfo {
    V4(InPktInfo),
    V6(In6PktInfo),
}

/// Compares two octet arrays for equality.
fn octets_eq<const N: usize>(a: &[u8; N], b: &[u8; N]) -> (r: bool)
    ensures
        r == (a == b),
{
    broadcast use vstd::array::group_array_axioms;

    let mut i: usize = 0;
    while i < N
        invariant
            0 <= i <= N,
            forall|j: int| 0 <= j < i ==> a@[j] == b@[j],
        decreases N - i,
    {
        if a[i] != b[i] {
            return false;
        }
        i = i + 1;
    }
    proof {
        assert(*a =~= *b);
    }
    true
}

impl PartialEq for IpAddr {
    fn eq(&self, o: &IpAddr) -> (r: bool) {
        match (self, o) {
            (IpAddr::V4(a), IpAddr::V4(b)) => octets_eq(a, b),
            (IpAddr::V6(a), IpAddr::V6(b)) => octets_eq(a, b),
            _ => false,
        }
    }
}

impl vstd::std_specs::cmp::PartialEqSpecImpl for IpAddr {
    open spec fn obeys_eq_spec() -> bool {
        true
    }

    open spec fn eq_spec(&self, o: &IpAddr) -> bool {
        *self == *o
    }
}

impl PartialEq for SocketAddr {
    fn eq(&self, o: &SocketAddr) -> (r: bool) {
        self.ip == o.ip && self.port == o.port
    }
}

impl vstd::std_specs::cmp::PartialEqSpecImpl for SocketAddr {
    open spec fn obeys_eq_spec() -> bool {
        true
    }

    open spec fn eq_spec(&self, o: &SocketAddr) -> bool {
        *self == *o
    }
}

/// Whether an IP address is the "any"/wildcard address of its family: every
/// octet zero.
pub open spec fn is_unspecified(ip: IpAddr) -> bool {
    match ip {
        IpAddr::V4(o) => forall|i: int| 0 <= i < 4 ==> o@[i] == 0,
        IpAddr::V6(o) => forall|i: int| 0 <= i < 16 ==> o@[i] == 0,
    }
}

impl IpAddr {
    pub fn is_v4(&self) -> (r: bool)
        ensures
            r == (*self is V4),
    {
        match self {
            IpAddr::V4(_) => true,
            IpAddr::V6(_) => false,
        }
    }

    pub fn is_v6(&self) -> (r: bool)
        ensures
            r == (*self is V6),
    {
        match self {
            IpAddr::V4(_) => false,
            IpAddr::V6(_) => true,
        }
    }
}

impl SocketAddr {
    pub fn new(ip: IpAddr, port: u16) -> (r: Self)
        ensures
            r == (SocketAddr { ip, port }),
    {
        SocketAddr { ip, port }
    }

    pub fn ip(&self) -> (r: IpAddr)
        ensures
            r == self.ip,
    {
        self.ip
    }

    pub fn port(&self) -> (r: u16)
        ensures
            r == self.port,
    {
        self.port
    }
}

/// The packet-info form of an IP address: the address of the right family,
/// with no interface index picked (it stays zero, so the operating system
/// chooses the route).
pub open spec fn pktinfo_of(ip: IpAddr) -> PktInfo {
    match ip {
        IpAddr::V4(o) => PktInfo::V4(InPktInfo { ifindex: 0, spec_dst: o, addr: o }),
        IpAddr::V6(o) => PktInfo::V6(In6PktInfo { addr: o, ifindex: 0 }),
    }
}

/// The IP address a packet-info structure carries: for IPv4 the header
/// destination field, for IPv6 the address field. The interface index is
/// dropped.
pub open spec fn ip_of_pktinfo(pi: PktInfo) -> IpAddr {
    match pi {
        PktInfo::V4(p) => IpAddr::V4(p.spec_dst),
        PktInfo::V6(p) => IpAddr::V6(p.addr),
    }
}

/// Converts an IP address into its packet-info representation.
pub fn to_pktinfo(ip: &IpAddr) -> (r: PktInfo)
    ensures
        r == pktinfo_of(*ip),
{
    match ip {
        IpAddr::V4(o) => PktInfo::V4(InPktInfo { ifindex: 0, spec_dst: *o, addr: *o }),
        IpAddr::V6(o) => PktInfo::V6(In6PktInfo { addr: *o, ifindex: 0 }),
    }
}

/// Reads the IP address back out of a packet-info structure.
pub fn from_pktinfo(pi: &PktInfo) -> (r: IpAddr)
    ensures
        r == ip_of_pktinfo(*pi),
{
    match pi {
        PktInfo::V4(p) => IpAddr::V4(p.spec_dst),
        PktInfo::V6(p) => IpAddr::V6(p.addr),
    }
}

/// Reconstructs a full local socket address from received packet-info
/// metadata and the port remembered at bind time (packet-info carries the
/// address only, never the port).
pub fn local_from_pktinfo(pi: &PktInfo, port: u16) -> (r: SocketAddr)
    ensures
        r == (SocketAddr { ip: ip_of_pktinfo(*pi), port }),
{
    SocketAddr { ip: from_pktinfo(pi), port }
}

/// Address round trip: converting any address with any port into the
/// packet-info representation and back yields the identical address and
/// port.
pub proof fn lemma_address_round_trip(a: SocketAddr)
    ensures
        (SocketAddr { ip: ip_of_pktinfo(pktinfo_of(a.ip)), port: a.port }) == a,
{
}

/// The reverse direction holds for every packet-info value this layer
/// produces: one whose interface index is zero and (for IPv4) whose two
/// address fields agree converts back without loss.
pub proof fn lemma_pktinfo_round_trip(pi: PktInfo)
    requires
        pi matches PktInfo::V4(p) ==> p.ifindex == 0 && p.spec_dst == p.addr,
        pi matches PktInfo::V6(p) ==> p.ifindex == 0,
    ensures
        pktinfo_of(ip_of_pktinfo(pi)) == pi,
{
}

/// The wildcard ("any") address covering both address families — the IPv6
/// unspecified address — at the given port.
pub fn wildcard(port: u16) -> (r: SocketAddr)
    ensures
        r.ip is V6,
        is_unspecified(r.ip),
        r.port == port,
{
    SocketAddr { ip: IpAddr::V6([0u8; 16]), port }
}

/// The wildcard address of the same family as the given remote address,
/// with no port picked: what a datagram socket is locally bound to before
/// connecting to that remote.
pub fn wildcard_same_family(remote: &SocketAddr) -> (r: SocketAddr)
    ensures
        r.ip is V4 <==> remote.ip is V4,
        is_unspecified(r.ip),
        r.port == 0,
{
    match remote.ip {
        IpAddr::V4(_) => SocketAddr { ip: IpAddr::V4([0u8; 4]), port: 0 },
        IpAddr::V6(_) => SocketAddr { ip: IpAddr::V6([0u8; 16]), port: 0 },
    }
}

} // verus!
