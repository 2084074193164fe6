//! Name-resolution decisions.
//!
//! The platform resolver itself is an external collaborator; this module
//! holds everything the layer decides around it: how a host name is framed
//! for a resolver that insists on a port, which of the resolved addresses
//! is returned for a family preference, and how a reverse-resolved name is
//! handed back to the caller's buffer.

use vstd::prelude::*;

use crate::addr::{IpAddr, SocketAddr};
use crate::error::Error;

verus! {

/// The caller's address-family preference for a lookup.
#[derive(Clone, Copy, PartialEq, Eq, Structural, Debug)]
pub enum AddrType {
    IPv4,
    IPv6,
    Either,
}

/// Whether an address of this family satisfies the preference: `IPv4` and
/// `IPv6` accept only their own family, `Either` accepts both.
pub open spec fn accepts(t: AddrType, ip: IpAddr) -> bool {
    match t {
        AddrType::IPv4 => ip is V4,
        AddrType::IPv6 => ip is V6,
        AddrType::Either => true,
    }
}

/// The first address in the list whose family satisfies the preference.
pub open spec fn first_match(s: Seq<SocketAddr>, t: AddrType) -> Option<IpAddr>
    decreases s.len(),
{
    if s.len() == 0 {
        None
    } else if accepts(t, s[0].ip) {
        Some(s[0].ip)
    } else {
        first_match(s.skip(1), t)
    }
}

proof fn lemma_first_match_skip(s: Seq<SocketAddr>, t: AddrType, i: int)
    requires
        0 <= i <= s.len(),
        forall|j: int| 0 <= j < i ==> !accepts(t, s[j].ip),
    ensures
        first_match(s, t) == first_match(s.skip(i), t),
    decreases i,
{
    if i > 0 {
        lemma_first_match_skip(s, t, i - 1);
        let s1 = s.skip(i - 1);
        assert(s1[0] == s[i - 1]);
        assert(first_match(s1, t) == first_match(s1.skip(1), t));
        assert(s1.skip(1) =~= s.skip(i));
    } else {
        assert(s.skip(0) =~= s);
    }
}

/// What a forward lookup hands back always satisfies the caller's family
/// preference: the selection never falls back to the other family.
pub proof fn lemma_first_match_accepted(s: Seq<SocketAddr>, t: AddrType)
    ensures
        first_match(s, t) matches Some(ip) ==> accepts(t, ip),
    decreases s.len(),
{
    if s.len() > 0 && !accepts(t, s[0].ip) {
        lemma_first_match_accepted(s.skip(1), t);
    }
}

/// Checks a family preference against one address.
pub fn addr_type_accepts(t: AddrType, ip: &IpAddr) -> (r: bool)
    ensures
        r == accepts(t, *ip),
{
    match t {
        AddrType::IPv4 => ip.is_v4(),
        AddrType::IPv6 => ip.is_v6(),
        AddrType::Either => true,
    }
}

/// Picks the answer of a forward lookup: the first resolved address whose
/// family satisfies the preference, or the not-found error when no address
/// matches (the resolver reports an empty result as success, so the error
/// is decided here).
pub fn choose_address(resolved: &Vec<SocketAddr>, addr_type: AddrType) -> (r: Result<
    IpAddr,
    Error,
>)
    ensures
        r == match first_match(resolved@, addr_type) {
            Some(ip) => Ok::<IpAddr, Error>(ip),
            None => Err::<IpAddr, Error>(Error::NotFound),
        },
{
    let n = resolved.len();
    let mut i: usize = 0;
    while i < n
        invariant
            0 <= i <= n,
            n == resolved@.len(),
            forall|j: int| 0 <= j < i ==> !accepts(addr_type, resolved@[j].ip),
        decreases n - i,
    {
        let a = &resolved[i];
        if addr_type_accepts(addr_type, &a.ip) {
            proof {
                lemma_first_match_skip(resolved@, addr_type, i as int);
            }
            return Ok(a.ip);
        }
        i = i + 1;
    }
    proof {
        lemma_first_match_skip(resolved@, addr_type, n as int);
        assert(resolved@.skip(n as int) =~= Seq::<SocketAddr>::empty());
    }
    Err(Error::NotFound)
}

/// The ASCII colon that marks a host name as an IPv6 literal.
pub open spec fn has_colon(s: Seq<u8>) -> bool {
    exists|i: int| 0 <= i < s.len() && s[i] == 58u8
}

/// The bytes of `":1234"`: the fake port appended for a resolver interface
/// that insists on one, although only the address part of its answer is
/// used.
pub open spec fn fake_port_suffix() -> Seq<u8> {
    seq![58u8, 49u8, 50u8, 51u8, 52u8]
}

/// Frames a host name for the resolver, which accepts only `host:port`
/// strings: appends the fake port, and wraps an IPv6 literal (recognised by
/// a contained colon) in the brackets that syntax requires.
pub fn host_with_fake_port(host: &[u8]) -> (r: Vec<u8>)
    ensures
        has_colon(host@) ==> r@ == seq![91u8] + host@ + seq![93u8] + fake_port_suffix(),
        !has_colon(host@) ==> r@ == host@ + fake_port_suffix(),
{
    let n = host.len();
    let mut colon = false;
    let mut i: usize = 0;
    while i < n
        invariant
            0 <= i <= n,
            n == host@.len(),
            colon == exists|j: int| 0 <= j < i && host@[j] == 58u8,
        decreases n - i,
    {
        if host[i] == 58u8 {
            colon = true;
        }
        i = i + 1;
    }
    let mut r: Vec<u8> = Vec::new();
    if colon {
        r.push(91u8);
    }
    let ghost prefix = r@;
    let mut i: usize = 0;
    while i < n
        invariant
            0 <= i <= n,
            n == host@.len(),
            r@ == prefix + host@.take(i as int),
        decreases n - i,
    {
        r.push(host[i]);
        i = i + 1;
    }
    proof {
        assert(host@.take(n as int) =~= host@);
    }
    if colon {
        r.push(93u8);
    }
    r.push(58u8);
    r.push(49u8);
    r.push(50u8);
    r.push(51u8);
    r.push(52u8);
    proof {
        if has_colon(host@) {
            assert(r@ =~= seq![91u8] + host@ + seq![93u8] + fake_port_suffix());
        } else {
            assert(r@ =~= host@ + fake_port_suffix());
        }
    }
    r
}

/// Hands a reverse-resolved name back in the caller's buffer.
///
/// A name that is merely a stringified IP address counts as not found (the
/// caller asked for a host name); a name longer than the buffer is refused
/// whole rather than truncated. On success the name stands at the front of
/// the buffer and the rest of the buffer is untouched, and the returned
/// length says how much of it is the name.
pub fn reverse_name_into(name: &[u8], name_is_address: bool, buffer: &mut Vec<u8>) -> (r: Result<
    usize,
    Error,
>)
    ensures
        name_is_address ==> r == Err::<usize, Error>(Error::NotFound) && *final(buffer) == *old(
            buffer,
        ),
        !name_is_address && name@.len() > old(buffer)@.len() ==> r == Err::<usize, Error>(
            Error::TooLong,
        ) && *final(buffer) == *old(buffer),
        !name_is_address && name@.len() <= old(buffer)@.len() ==> (r matches Ok(len) && len
            == name@.len() && final(buffer)@ == name@ + old(buffer)@.skip(name@.len() as int)),
{
    if name_is_address {
        return Err(Error::NotFound);
    }
    let n = name.len();
    if n > buffer.len() {
        return Err(Error::TooLong);
    }
    let mut i: usize = 0;
    while i < n
        invariant
            0 <= i <= n,
            n == name@.len(),
            n <= buffer@.len(),
            buffer@.len() == old(buffer)@.len(),
            forall|j: int| 0 <= j < i ==> buffer@[j] == name@[j],
            forall|j: int| i <= j < buffer@.len() ==> buffer@[j] == old(buffer)@[j],
        decreases n - i,
    {
        let b = name[i];
        buffer[i] = b;
        i = i + 1;
    }
    proof {
        assert(buffer@ =~= name@ + old(buffer)@.skip(n as int));
    }
    Ok(n)
}

} // verus!
