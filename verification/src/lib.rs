//! A network-socket abstraction layer: a uniform interface over blocking,
//! non-blocking and cooperatively suspending socket use, built around a small
//! per-socket lifecycle state machine.
//!
//! The operating-system calls themselves (and the reactor that drives the
//! suspending variant) live outside this crate; every decision this layer
//! makes — call ordering, address conversion, error classification, and the
//! recovery of the true local address of a datagram from packet-info
//! metadata — is verified here.

use vstd::prelude::*;

pub mod addr;
pub mod dns;
pub mod error;
pub mod tcp;
pub mod udp;
pub mod udp_multi;

pub use error::Error;

verus! {

/// Handle to the operating system's network stack.
///
/// It owns no resources and may be freely cloned; sockets are created in a
/// `Building` state and configured through later calls.
#[derive(Clone)]
pub struct Stack;

impl Default for Stack {
    fn default() -> (r: Self)
        ensures
            r is Stack,
    {
        Stack
    }
}

/// Lifecycle of one socket: freshly created and not yet attached to any
/// address, connected to one peer, or bound locally.
///
/// Transitions are one-way: a socket is configured exactly once, and send,
/// receive and accept are valid only in the state their contract names.
pub enum SocketState<C, B> {
    Building,
    Connected(C),
    Bound(B),
}

impl<C, B> SocketState<C, B> {
    /// Every socket starts out `Building`; no operating-system interaction
    /// has happened yet.
    pub fn new() -> (r: Self)
        ensures
            r is Building,
    {
        SocketState::Building
    }

    /// The connected payload, or the out-of-order error in any other state.
    pub fn get_running(&mut self) -> (r: Result<&mut C, Error>)
        ensures
            *old(self) is Connected <==> r is Ok,
            r matches Ok(c) ==> *c == old(self)->Connected_0 && *final(self) == SocketState::<
                C,
                B,
            >::Connected(*final(c)),
            r matches Err(e) ==> e == Error::OutOfOrder && *final(self) == *old(self),
    {
        match self {
            SocketState::Connected(c) => Ok(c),
            _ => Err(Error::OutOfOrder),
        }
    }

    /// The bound payload, or the out-of-order error in any other state.
    pub fn get_bound(&mut self) -> (r: Result<&mut B, Error>)
        ensures
            *old(self) is Bound <==> r is Ok,
            r matches Ok(b) ==> *b == old(self)->Bound_0 && *final(self) == SocketState::<
                C,
                B,
            >::Bound(*final(b)),
            r matches Err(e) ==> e == Error::OutOfOrder && *final(self) == *old(self),
    {
        match self {
            SocketState::Bound(b) => Ok(b),
            _ => Err(Error::OutOfOrder),
        }
    }
}

impl<T> SocketState<T, T> {
    /// The payload of either configured state; `Building` is out of order.
    pub fn get_any(&self) -> (r: Result<&T, Error>)
        ensures
            !(self is Building) <==> r is Ok,
            r matches Ok(t) ==> (self is Connected && *t == self->Connected_0)
                || (self is Bound && *t == self->Bound_0),
            r matches Err(e) ==> e == Error::OutOfOrder,
    {
        match self {
            SocketState::Connected(t) => Ok(t),
            SocketState::Bound(t) => Ok(t),
            _ => Err(Error::OutOfOrder),
        }
    }

    /// Mutable access to the payload of either configured state.
    pub fn get_any_mut(&mut self) -> (r: Result<&mut T, Error>)
        ensures
            !(*old(self) is Building) <==> r is Ok,
            r matches Ok(t) ==> (*old(self) is Connected && *t == old(self)->Connected_0
                && *final(self) == SocketState::<T, T>::Connected(*final(t))) || (*old(self) is Bound
                && *t == old(self)->Bound_0 && *final(self) == SocketState::<T, T>::Bound(
                *final(t),
            )),
            r matches Err(e) ==> e == Error::OutOfOrder && *final(self) == *old(self),
    {
        match self {
            SocketState::Connected(t) => Ok(t),
            SocketState::Bound(t) => Ok(t),
            _ => Err(Error::OutOfOrder),
        }
    }
}

} // verus!
