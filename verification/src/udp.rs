//! UDP sockets of the blocking and non-blocking stack: the lifecycle state
//! machine around one datagram socket handle.
//!
//! A connected socket exchanges datagrams with one peer; a bound socket
//! receives from anyone on one port. Both roles use the same handle type,
//! so receive is legal in either configured state.

use vstd::prelude::*;

use crate::SocketState;
use crate::error::Error;

verus! {

/// A UDP socket: a lifecycle state around one datagram socket handle.
pub struct UdpSocket<S> {
    pub state: SocketState<S, S>,
}

impl<S> UdpSocket<S> {
    /// A fresh socket; no operating-system resource is attached yet.
    pub fn new() -> (r: Self)
        ensures
            r.state is Building,
    {
        UdpSocket { state: SocketState::new() }
    }

    /// The transition a successful connect makes: the handle is bound to
    /// the wildcard address of the peer's family and connected to the peer.
    pub fn set_connected(&mut self, s: S)
        ensures
            final(self).state == SocketState::<S, S>::Connected(s),
    {
        self.state = SocketState::Connected(s);
    }

    /// The transition a successful bind makes.
    pub fn set_bound(&mut self, s: S)
        ensures
            final(self).state == SocketState::<S, S>::Bound(s),
    {
        self.state = SocketState::Bound(s);
    }

    /// The handle of a configured socket, in whichever state: what a caller
    /// waits on for readiness. A socket still being built has none, and
    /// can never report would-block.
    pub fn any_handle(&self) -> (r: Option<&S>)
        ensures
            r is Some <==> !(self.state is Building),
            r matches Some(h) ==> (self.state is Connected && *h == self.state->Connected_0) || (
            self.state is Bound && *h == self.state->Bound_0),
    {
        match self.state.get_any() {
            Ok(h) => Some(h),
            Err(_) => None,
        }
    }

    /// The handle of a connected socket, or the out-of-order error: the
    /// state check of send.
    pub fn running(&mut self) -> (r: Result<&mut S, Error>)
        ensures
            old(self).state is Connected <==> r is Ok,
            r matches Ok(s) ==> *s == old(self).state->Connected_0 && final(self).state
                == SocketState::<S, S>::Connected(*final(s)),
            r matches Err(e) ==> e == Error::OutOfOrder && *final(self) == *old(self),
    {
        self.state.get_running()
    }

    /// The handle of a bound socket, or the out-of-order error: the state
    /// check of send-to.
    pub fn bound(&mut self) -> (r: Result<&mut S, Error>)
        ensures
            old(self).state is Bound <==> r is Ok,
            r matches Ok(s) ==> *s == old(self).state->Bound_0 && final(self).state
                == SocketState::<S, S>::Bound(*final(s)),
            r matches Err(e) ==> e == Error::OutOfOrder && *final(self) == *old(self),
    {
        self.state.get_bound()
    }

    /// The handle of a socket in either configured state, or the
    /// out-of-order error: the state check of receive, which is legal on a
    /// connected and on a bound socket alike.
    pub fn any(&self) -> (r: Result<&S, Error>)
        ensures
            !(self.state is Building) <==> r is Ok,
            r matches Ok(s) ==> (self.state is Connected && *s == self.state->Connected_0) || (
            self.state is Bound && *s == self.state->Bound_0),
            r matches Err(e) ==> e == Error::OutOfOrder,
    {
        self.state.get_any()
    }

    /// Mutable access to the handle of a socket in either configured
    /// state: the state check of receive on the non-blocking stack, whose
    /// receive call takes the handle exclusively.
    pub fn any_mut(&mut self) -> (r: Result<&mut S, Error>)
        ensures
            !(old(self).state is Building) <==> r is Ok,
            r matches Ok(s) ==> (old(self).state is Connected && *s == old(
                self,
            ).state->Connected_0 && final(self).state == SocketState::<S, S>::Connected(*final(s)))
                || (old(self).state is Bound && *s == old(self).state->Bound_0 && final(self).state
                == SocketState::<S, S>::Bound(*final(s))),
            r matches Err(e) ==> e == Error::OutOfOrder && *final(self) == *old(self),
    {
        self.state.get_any_mut()
    }
}

} // verus!
