//! TCP sockets: the lifecycle state machine and the error classification of
//! the stream-oriented stack.
//!
//! The payload types are generic: the blocking shell instantiates them with
//! its stream and listener handles. Everything the layer decides — which
//! state each operation is legal in, which operating-system errors mean
//! "retry later", and which mean the peer is gone — is verified here.

use vstd::prelude::*;

use crate::SocketState;
use crate::error::{is_retryable, Error, NbError, OsError, OsErrorKind};

verus! {

/// The error type of the TCP stack: any error of the layer, wrapped.
#[derive(Clone, Copy, PartialEq, Eq, Structural, Debug)]
pub struct TcpError(pub Error);

impl From<Error> for TcpError {
    fn from(e: Error) -> (r: Self) {
        TcpError(e)
    }
}

impl vstd::std_specs::convert::FromSpecImpl<Error> for TcpError {
    open spec fn obeys_from_spec() -> bool {
        true
    }

    open spec fn from_spec(e: Error) -> Self {
        TcpError(e)
    }
}

/// The two classes of TCP failure a portable caller can react to.
#[derive(Clone, Copy, PartialEq, Eq, Structural, Debug)]
pub enum TcpErrorKind {
    /// The connection was closed by the peer.
    PipeClosed,
    /// Anything else.
    Other,
}

impl TcpError {
    /// Folds an operating-system error into the non-blocking scheme:
    /// would-block and timed-out become the retryable signal, everything
    /// else passes through wrapped, unmodified.
    pub fn to_nb(e: OsError) -> (r: NbError<TcpError>)
        ensures
            is_retryable(e.kind) ==> r is WouldBlock,
            !is_retryable(e.kind) ==> r == NbError::Other(TcpError(Error::Os(e))),
    {
        match e.kind {
            OsErrorKind::WouldBlock | OsErrorKind::TimedOut => NbError::WouldBlock,
            _ => NbError::Other(TcpError(Error::Os(e))),
        }
    }

    /// Classifies the error: a broken pipe means the peer closed the
    /// connection, everything else is opaque.
    pub fn kind(&self) -> (r: TcpErrorKind)
        ensures
            r is PipeClosed <==> (self.0 matches Error::Os(e) && e.kind
                == OsErrorKind::BrokenPipe),
    {
        match self.0 {
            Error::Os(e) => match e.kind {
                OsErrorKind::BrokenPipe => TcpErrorKind::PipeClosed,
                _ => TcpErrorKind::Other,
            },
            _ => TcpErrorKind::Other,
        }
    }
}

/// The error of a read that was to fill a buffer exactly: the stream may
/// end first, which is told apart from every other failure.
#[derive(Clone, Copy, PartialEq, Eq, Structural, Debug)]
pub enum ReadExactError<E> {
    UnexpectedEof,
    Other(E),
}

/// Classifies the error of an exact read: an unexpected end of the stream
/// is its own case, everything else passes through wrapped, unmodified.
pub fn map_read_exact_error(e: OsError) -> (r: ReadExactError<Error>)
    ensures
        e.kind == OsErrorKind::UnexpectedEof ==> r is UnexpectedEof,
        e.kind != OsErrorKind::UnexpectedEof ==> r == ReadExactError::Other(Error::Os(e)),
{
    match e.kind {
        OsErrorKind::UnexpectedEof => ReadExactError::UnexpectedEof,
        _ => ReadExactError::Other(Error::Os(e)),
    }
}

/// One established TCP connection of the suspending stack, around the
/// shell's stream handle.
pub struct TcpConnection<S> {
    pub stream: S,
}

impl<S> TcpConnection<S> {
    /// The connection a successful connect returns.
    pub fn new(stream: S) -> (r: Self)
        ensures
            r.stream == stream,
    {
        TcpConnection { stream }
    }
}

/// A TCP socket: a lifecycle state around a connected stream handle `S` or
/// a bound listener handle `L`.
pub struct TcpSocket<S, L> {
    pub state: SocketState<S, L>,
}

impl<S, L> TcpSocket<S, L> {
    /// A fresh socket; no operating-system resource is attached yet.
    pub fn new() -> (r: Self)
        ensures
            r.state is Building,
    {
        TcpSocket { state: SocketState::new() }
    }

    /// The socket an accept returns: already connected to the peer, born
    /// from the listener without mutating it.
    pub fn connected(s: S) -> (r: Self)
        ensures
            r.state == SocketState::<S, L>::Connected(s),
    {
        TcpSocket { state: SocketState::Connected(s) }
    }

    /// The transition a successful connect makes: whatever came before is
    /// replaced by the connected handle.
    pub fn set_connected(&mut self, s: S)
        ensures
            final(self).state == SocketState::<S, L>::Connected(s),
    {
        self.state = SocketState::Connected(s);
    }

    /// The transition a successful bind makes.
    pub fn set_bound(&mut self, l: L)
        ensures
            final(self).state == SocketState::<S, L>::Bound(l),
    {
        self.state = SocketState::Bound(l);
    }

    /// The stream of a connected socket, or the out-of-order error: the
    /// state check of send and receive.
    pub fn running(&mut self) -> (r: Result<&mut S, TcpError>)
        ensures
            old(self).state is Connected <==> r is Ok,
            r matches Ok(s) ==> *s == old(self).state->Connected_0 && final(self).state
                == SocketState::<S, L>::Connected(*final(s)),
            r matches Err(e) ==> e == TcpError(Error::OutOfOrder) && *final(self) == *old(self),
    {
        match self.state.get_running() {
            Ok(s) => Ok(s),
            Err(e) => Err(TcpError::from(e)),
        }
    }

    /// The listener of a bound socket, or the out-of-order error: the state
    /// check of accept.
    pub fn bound(&mut self) -> (r: Result<&mut L, TcpError>)
        ensures
            old(self).state is Bound <==> r is Ok,
            r matches Ok(l) ==> *l == old(self).state->Bound_0 && final(self).state
                == SocketState::<S, L>::Bound(*final(l)),
            r matches Err(e) ==> e == TcpError(Error::OutOfOrder) && *final(self) == *old(self),
    {
        match self.state.get_bound() {
            Ok(l) => Ok(l),
            Err(e) => Err(TcpError::from(e)),
        }
    }
}

} // verus!
