//! The three UDP socket roles of the cooperatively suspending stack, and
//! the decisions of the multiplexed (wildcard-bound) receiver.
//!
//! A multiply-bound socket is bound to the wildcard address, so it cannot
//! know which of its local addresses a datagram was sent to without help:
//! the operating system reports that address per packet in a packet-info
//! control message once the family-appropriate socket option is enabled at
//! bind time. The port is not part of that metadata, so it is remembered
//! once, at bind time. Everything around the control-message-carrying send
//! and receive calls is decided and verified here; the calls themselves are
//! the shell's.

use vstd::prelude::*;

use crate::addr::{ip_of_pktinfo, pktinfo_of, to_pktinfo, PktInfo, SocketAddr};
use crate::error::{Error, Violation};

verus! {

/// A datagram socket connected to one peer; send and receive carry no
/// addresses.
pub struct ConnectedSocket<S> {
    pub socket: S,
}

/// A datagram socket bound to exactly one local address, remembered at bind
/// time; no per-packet metadata is needed since every datagram it receives
/// was sent to that address.
pub struct UniquelyBoundSocket<S> {
    pub socket: S,
    pub bound_address: SocketAddr,
}

/// A datagram socket bound to the wildcard address, with the packet-info
/// option enabled and the resolved local port remembered at bind time.
pub struct MultiplyBoundSocket<S> {
    pub socket: S,
    pub port: u16,
}

/// The packet-info socket option to enable at bind time, by address family.
#[derive(Clone, Copy, PartialEq, Eq, Structural, Debug)]
pub enum PktInfoOption {
    /// The IPv4 variant (`IP_PKTINFO`).
    V4PacketInfo,
    /// The IPv6 variant (`IPV6_RECVPKTINFO`).
    V6RecvPacketInfo,
}

/// Which packet-info socket option a wildcard bind enables: the variant of
/// the bind address's family.
pub fn pktinfo_option_for(local: &SocketAddr) -> (r: PktInfoOption)
    ensures
        r is V4PacketInfo <==> local.ip is V4,
{
    if local.ip.is_v4() {
        PktInfoOption::V4PacketInfo
    } else {
        PktInfoOption::V6RecvPacketInfo
    }
}

/// A datagram must leave in one operating-system call: a send that
/// transmitted fewer bytes than the whole datagram breaks a buffering
/// assumption and is fatal, not retryable.
pub fn check_full_send(sent: usize, expected: usize) -> (r: Result<(), Error>)
    ensures
        r == if sent == expected {
            Ok::<(), Error>(())
        } else {
            Err::<(), Error>(Error::Fatal(Violation::PartialSend))
        },
{
    if sent == expected {
        Ok(())
    } else {
        Err(Error::Fatal(Violation::PartialSend))
    }
}

impl<S> ConnectedSocket<S> {
    /// The socket a successful connect returns.
    pub fn new(socket: S) -> (r: Self)
        ensures
            r.socket == socket,
    {
        ConnectedSocket { socket }
    }
}

impl<S> UniquelyBoundSocket<S> {
    /// The socket a successful single bind returns; the address the
    /// operating system reports for the bound handle is remembered.
    pub fn new(socket: S, bound_address: SocketAddr) -> (r: Self)
        ensures
            r.socket == socket,
            r.bound_address == bound_address,
    {
        UniquelyBoundSocket { socket, bound_address }
    }

    /// Whether the local address a caller hands to send is the one the
    /// socket was bound to — anything else is a caller contract bug, not a
    /// runtime I/O error.
    pub fn local_matches(&self, local: &SocketAddr) -> (r: bool)
        ensures
            r == (*local == self.bound_address),
    {
        *local == self.bound_address
    }

    /// Assembles the result of a receive: the length and remote address the
    /// operating system reported, and the one local address this socket can
    /// ever receive on.
    pub fn receive_result(&self, length: usize, remote: SocketAddr) -> (r: (
        usize,
        SocketAddr,
        SocketAddr,
    ))
        ensures
            r == (length, self.bound_address, remote),
    {
        (length, self.bound_address, remote)
    }
}

impl<S> MultiplyBoundSocket<S> {
    /// The socket a successful wildcard bind returns. The local port is
    /// remembered once: the one the caller asked for, or, when the caller
    /// asked for any port, the one the operating system reports it picked.
    pub fn new(socket: S, requested: &SocketAddr, reported_port: u16) -> (r: Self)
        ensures
            r.socket == socket,
            r.port == if requested.port != 0 {
                requested.port
            } else {
                reported_port
            },
    {
        let port = if requested.port != 0 {
            requested.port
        } else {
            reported_port
        };
        MultiplyBoundSocket { socket, port }
    }

    /// The control message for a send: packet-info carrying the
    /// caller-specified source address, so the operating system transmits
    /// with it. The send primitive differs per family of the remote
    /// address, so the source must be of that same family; and a datagram
    /// can only leave from the port the socket is bound to.
    pub fn send_control_info(&self, local: &SocketAddr, remote: &SocketAddr) -> (r: PktInfo)
        requires
            local.port == 0 || local.port == self.port,
            local.ip is V4 <==> remote.ip is V4,
        ensures
            r == pktinfo_of(local.ip),
            r is V4 <==> remote.ip is V4,
    {
        to_pktinfo(&local.ip)
    }

    /// Interprets the outcome of a control-message-carrying receive.
    ///
    /// The local address is the packet-info address together with the
    /// remembered port. A missing packet-info message — although the option
    /// was configured successfully — and a missing remote address both
    /// break an operating-system guarantee: they are fatal, never a normal
    /// error.
    pub fn interpret_receive(&self, length: usize, remote: Option<SocketAddr>, pktinfo: Option<
        PktInfo,
    >) -> (r: Result<(usize, SocketAddr, SocketAddr), Error>)
        ensures
            r == match (pktinfo, remote) {
                (Some(pi), Some(rem)) => Ok::<(usize, SocketAddr, SocketAddr), Error>(
                    (length, SocketAddr { ip: ip_of_pktinfo(pi), port: self.port }, rem),
                ),
                (None, _) => Err::<(usize, SocketAddr, SocketAddr), Error>(
                    Error::Fatal(Violation::MissingPacketInfo),
                ),
                (Some(_), None) => Err::<(usize, SocketAddr, SocketAddr), Error>(
                    Error::Fatal(Violation::MissingRemoteAddress),
                ),
            },
    {
        match (pktinfo, remote) {
            (Some(pi), Some(rem)) => {
                let local = crate::addr::local_from_pktinfo(&pi, self.port);
                Ok((length, local, rem))
            },
            (None, _) => Err(Error::Fatal(Violation::MissingPacketInfo)),
            (Some(_), None) => Err(Error::Fatal(Violation::MissingRemoteAddress)),
        }
    }
}

} // verus!
