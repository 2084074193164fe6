//! The error taxonomy of the socket layer.
//!
//! Errors are always returned to the immediate caller and never swallowed;
//! no function here retries anything on its own.

use vstd::prelude::*;

verus! {

/// Classification of an operating-system error, as the surrounding shell
/// reports it. Only the kinds the layer's decisions depend on are told
/// apart; everything else is `Other`.
#[derive(Clone, Copy, PartialEq, Eq, Structural, Debug)]
pub enum OsErrorKind {
    /// The operation has not completed and must be retried later.
    WouldBlock,
    /// The operation ran into its configured timeout.
    TimedOut,
    /// The peer closed the connection.
    BrokenPipe,
    /// A stream ended before the requested amount of data arrived.
    UnexpectedEof,
    /// Any other operating-system failure.
    Other,
}

/// An opaque operating-system error: its classified kind together with the
/// raw error code, passed through unmodified.
#[derive(Clone, Copy, PartialEq, Eq, Structural, Debug)]
pub struct OsError {
    pub kind: OsErrorKind,
    pub code: i32,
}

/// An operating-system guarantee that this layer relies on was broken; no
/// well-defined recovery exists and the caller may abort.
#[derive(Clone, Copy, PartialEq, Eq, Structural, Debug)]
pub enum Violation {
    /// A datagram send transmitted fewer bytes than the whole datagram.
    PartialSend,
    /// No packet-info control message arrived although the socket option
    /// was configured successfully.
    MissingPacketInfo,
    /// A datagram receive reported no remote address.
    MissingRemoteAddress,
}

/// The error type of the socket layer.
#[derive(Clone, Copy, PartialEq, Eq, Structural, Debug)]
pub enum Error {
    /// An operation was requested in the wrong socket state (the right
    /// order is: create, connect or bind, then send/receive/accept).
    OutOfOrder,
    /// A name lookup yielded no matching address.
    NotFound,
    /// A resolved name does not fit in the caller's buffer.
    TooLong,
    /// An operating-system error, wrapped unmodified.
    Os(OsError),
    /// A broken operating-system guarantee; unrecoverable.
    Fatal(Violation),
}

/// Whether an operating-system error means "retry later": would-block and
/// timed-out are the retryable signals, everything else is a hard failure.
pub open spec fn is_retryable(k: OsErrorKind) -> bool {
    k == OsErrorKind::WouldBlock || k == OsErrorKind::TimedOut
}

/// A non-blocking outcome: either the single retryable signal, or a hard
/// error.
#[derive(Clone, Copy, PartialEq, Eq, Structural, Debug)]
pub enum NbError<E> {
    WouldBlock,
    Other(E),
}

/// Folds an operating-system error into the non-blocking scheme: would-block
/// and timed-out become the retryable signal, all other errors pass through
/// wrapped, unmodified.
pub fn to_nb(e: OsError) -> (r: NbError<Error>)
    ensures
        is_retryable(e.kind) ==> r is WouldBlock,
        !is_retryable(e.kind) ==> r == NbError::Other(Error::Os(e)),
{
    match e.kind {
        OsErrorKind::WouldBlock | OsErrorKind::TimedOut => NbError::WouldBlock,
        _ => NbError::Other(Error::Os(e)),
    }
}

impl Error {
    /// A short human-readable description of the error.
    pub fn message(&self) -> (r: &'static str)
        ensures
            *self is OutOfOrder ==> r@ == "Out of order operations requested"@,
            *self is NotFound ==> r@ == "Not found"@,
            *self is TooLong ==> r@ == "Name too long"@,
            *self is Os ==> r@ == "Operating system error"@,
            *self is Fatal ==> r@ == "Contract violation"@,
    {
        match self {
            Error::OutOfOrder => "Out of order operations requested",
            Error::NotFound => "Not found",
            Error::TooLong => "Name too long",
            Error::Os(_) => "Operating system error",
            Error::Fatal(_) => "Contract violation",
        }
    }
}

} // verus!
