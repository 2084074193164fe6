//! Address conversion: the packet-info representation round trip, and the
//! wildcard constructors.

use std_embedded_nal::addr::{
    from_pktinfo, local_from_pktinfo, to_pktinfo, wildcard, wildcard_same_family, In6PktInfo,
    InPktInfo, IpAddr, PktInfo, SocketAddr,
};

const DOC_V6: [u8; 16] = [0x20, 0x01, 0x0d, 0xb8, 0, 0, 0, 0, 0, 0, 0, 0, 0, 0, 0, 0x17];

#[test]
fn equal_ipv4() {
    let ip = IpAddr::V4([192, 0, 2, 42]);
    let pi = to_pktinfo(&ip);
    match pi {
        PktInfo::V4(p) => {
            assert_eq!(p.ifindex, 0);
            assert_eq!(p.spec_dst, [192, 0, 2, 42]);
            assert_eq!(p.addr, [192, 0, 2, 42]);
        }
        PktInfo::V6(_) => panic!("family changed in conversion"),
    }
    assert_eq!(from_pktinfo(&pi), ip);
}

#[test]
fn equal_ipv6() {
    let ip = IpAddr::V6(DOC_V6);
    let pi = to_pktinfo(&ip);
    match pi {
        PktInfo::V6(p) => {
            assert_eq!(p.ifindex, 0);
            assert_eq!(p.addr, DOC_V6);
        }
        PktInfo::V4(_) => panic!("family changed in conversion"),
    }
    assert_eq!(from_pktinfo(&pi), ip);
}

#[test]
fn equal_port() {
    let a = SocketAddr::new(IpAddr::V6(DOC_V6), 42);
    let back = local_from_pktinfo(&to_pktinfo(&a.ip()), a.port());
    assert_eq!(back, a);
    assert_eq!(back.port(), 42);

    let b = SocketAddr::new(IpAddr::V4([192, 0, 2, 42]), 65535);
    let back = local_from_pktinfo(&to_pktinfo(&b.ip()), b.port());
    assert_eq!(back, b);

    let c = SocketAddr::new(IpAddr::V4([0, 0, 0, 0]), 0);
    assert_eq!(local_from_pktinfo(&to_pktinfo(&c.ip()), c.port()), c);
}

#[test]
fn pktinfo_reconstruction() {
    // starting from the metadata side: what this layer produces converts
    // back without loss
    let pi = PktInfo::V4(InPktInfo { ifindex: 0, spec_dst: [10, 0, 0, 1], addr: [10, 0, 0, 1] });
    assert_eq!(to_pktinfo(&from_pktinfo(&pi)), pi);
    let pi6 = PktInfo::V6(In6PktInfo { addr: DOC_V6, ifindex: 0 });
    assert_eq!(to_pktinfo(&from_pktinfo(&pi6)), pi6);
    // a received interface index is dropped: the address still comes back
    let seen = PktInfo::V6(In6PktInfo { addr: DOC_V6, ifindex: 3 });
    assert_eq!(from_pktinfo(&seen), IpAddr::V6(DOC_V6));
}

#[test]
fn wildcard_addresses() {
    let w = wildcard(9876);
    assert_eq!(w, SocketAddr::new(IpAddr::V6([0; 16]), 9876));
    assert!(w.ip().is_v6());

    let remote4 = SocketAddr::new(IpAddr::V4([127, 0, 0, 1]), 80);
    assert_eq!(wildcard_same_family(&remote4), SocketAddr::new(IpAddr::V4([0; 4]), 0));
    let remote6 = SocketAddr::new(IpAddr::V6(DOC_V6), 80);
    assert_eq!(wildcard_same_family(&remote6), SocketAddr::new(IpAddr::V6([0; 16]), 0));
}

#[test]
fn address_family_queries() {
    assert!(IpAddr::V4([1, 2, 3, 4]).is_v4());
    assert!(!IpAddr::V4([1, 2, 3, 4]).is_v6());
    assert!(IpAddr::V6([0; 16]).is_v6());
    assert!(!IpAddr::V6([0; 16]).is_v4());
    assert_ne!(IpAddr::V4([1, 2, 3, 4]), IpAddr::V6([0; 16]));
    assert_ne!(
        SocketAddr::new(IpAddr::V4([1, 2, 3, 4]), 1),
        SocketAddr::new(IpAddr::V4([1, 2, 3, 4]), 2)
    );
}
