//! Name resolution: the verified selection and framing logic, against the
//! platform resolver where this host offers one.

use async_std::net::ToSocketAddrs;
use std_embedded_nal::addr::{IpAddr, SocketAddr};
use std_embedded_nal::dns::{choose_address, host_with_fake_port, reverse_name_into, AddrType};
use std_embedded_nal::error::Error;

const LOOPBACK6: [u8; 16] = [0, 0, 0, 0, 0, 0, 0, 0, 0, 0, 0, 0, 0, 0, 0, 1];

fn from_os_addr(a: async_std::net::SocketAddr) -> SocketAddr {
    match a {
        async_std::net::SocketAddr::V4(v) => SocketAddr::new(IpAddr::V4(v.ip().octets()), v.port()),
        async_std::net::SocketAddr::V6(v) => SocketAddr::new(IpAddr::V6(v.ip().octets()), v.port()),
    }
}

fn resolve_list(host: &str) -> Result<Vec<SocketAddr>, std::io::Error> {
    async_std::task::block_on(async {
        let addrs = (host, 1234u16).to_socket_addrs().await?;
        Ok(addrs.map(from_os_addr).collect())
    })
}

#[test]
fn resolve_localhost() {
    // against this host's resolver (its localhost entry may be IPv4-only)
    let resolved = resolve_list("localhost").unwrap();
    let v4 = choose_address(&resolved, AddrType::IPv4).unwrap();
    assert_eq!(v4, IpAddr::V4([127, 0, 0, 1]));

    // the selection rule on a resolver answer that carries both families
    let both = vec![
        SocketAddr::new(IpAddr::V6(LOOPBACK6), 1234),
        SocketAddr::new(IpAddr::V4([127, 0, 0, 1]), 1234),
    ];
    assert_eq!(choose_address(&both, AddrType::IPv4).unwrap(), IpAddr::V4([127, 0, 0, 1]));
    assert_eq!(choose_address(&both, AddrType::IPv6).unwrap(), IpAddr::V6(LOOPBACK6));
    assert_eq!(choose_address(&both, AddrType::Either).unwrap(), IpAddr::V6(LOOPBACK6));
}

#[test]
fn resolve_invalid() {
    let outcome: Result<IpAddr, Error> = match resolve_list("example.invalid") {
        Err(_) => Err(Error::NotFound),
        Ok(resolved) => choose_address(&resolved, AddrType::Either),
    };
    assert!(outcome.is_err());
}

#[test]
fn reverse_localhost() {
    let sa: async_std::net::SocketAddr = "127.0.0.1:1234".parse().unwrap();
    let (name, _service) = dns_lookup::getnameinfo(&sa, 0).unwrap();
    let is_address = name.parse::<async_std::net::IpAddr>().is_ok();
    let mut buffer: Vec<u8> = vec![0; 128];
    let len = reverse_name_into(name.as_bytes(), is_address, &mut buffer).unwrap();
    assert_eq!(&buffer[..len], b"localhost");
}

#[test]
fn reverse_invalid() {
    let sa: async_std::net::SocketAddr = "255.255.255.255:1234".parse().unwrap();
    let outcome: Result<usize, Error> = match dns_lookup::getnameinfo(&sa, 0) {
        Err(_) => Err(Error::NotFound),
        Ok((name, _service)) => {
            let is_address = name.parse::<async_std::net::IpAddr>().is_ok();
            let mut buffer: Vec<u8> = vec![0; 128];
            reverse_name_into(name.as_bytes(), is_address, &mut buffer)
        }
    };
    assert!(outcome.is_err());
}

#[test]
fn selection_takes_first_match() {
    let list = vec![
        SocketAddr::new(IpAddr::V4([192, 0, 2, 1]), 1),
        SocketAddr::new(IpAddr::V4([192, 0, 2, 2]), 2),
        SocketAddr::new(IpAddr::V6(LOOPBACK6), 3),
    ];
    assert_eq!(choose_address(&list, AddrType::IPv4).unwrap(), IpAddr::V4([192, 0, 2, 1]));
    assert_eq!(choose_address(&list, AddrType::Either).unwrap(), IpAddr::V4([192, 0, 2, 1]));
    assert_eq!(choose_address(&list, AddrType::IPv6).unwrap(), IpAddr::V6(LOOPBACK6));

    let empty: Vec<SocketAddr> = Vec::new();
    assert_eq!(choose_address(&empty, AddrType::Either), Err(Error::NotFound));
    let only6 = vec![SocketAddr::new(IpAddr::V6(LOOPBACK6), 1)];
    assert_eq!(choose_address(&only6, AddrType::IPv4), Err(Error::NotFound));
}

#[test]
fn lookup_name_framing() {
    assert_eq!(host_with_fake_port(b"localhost"), b"localhost:1234");
    assert_eq!(host_with_fake_port(b"2001:db8::17"), b"[2001:db8::17]:1234");
    assert_eq!(host_with_fake_port(b""), b":1234");
}

#[test]
fn reverse_name_buffer_handling() {
    // fits: the name stands at the front, the rest is untouched
    let mut buffer: Vec<u8> = vec![7; 12];
    let len = reverse_name_into(b"localhost", false, &mut buffer).unwrap();
    assert_eq!(len, 9);
    assert_eq!(&buffer[..9], b"localhost");
    assert_eq!(&buffer[9..], &[7, 7, 7]);

    // too long: refused whole, buffer untouched
    let mut small: Vec<u8> = vec![7; 4];
    assert_eq!(reverse_name_into(b"localhost", false, &mut small), Err(Error::TooLong));
    assert_eq!(small, vec![7; 4]);

    // a stringified address is no host name
    let mut buffer: Vec<u8> = vec![0; 64];
    assert_eq!(reverse_name_into(b"127.0.0.1", true, &mut buffer), Err(Error::NotFound));
}
