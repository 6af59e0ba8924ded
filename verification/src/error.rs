use vstd::prelude::*;

use crate::config::Protocol;

verus! {

/// Why a transport attempt failed, as observed and reported by the embedding.
/// The core treats the value as opaque: it is recorded into the `Failed`
/// state and replayed unchanged while the backoff window is open.
#[derive(Clone, Copy, Debug, PartialEq, Eq, Structural)]
pub enum TransportErrorKind {
    /// The remote did not answer in time.
    Timeout,
    /// The connection was refused.
    Refused,
    /// The connection was closed after it had been established.
    Closed,
    /// Any other I/O failure.
    Io,
}

/// An opaque transport failure.
#[derive(Clone, Copy, Debug, PartialEq, Eq, Structural)]
pub struct TransportError {
    pub kind: TransportErrorKind,
}

/// Errors surfaced by dispatching a send through a server or the pool.
#[derive(Clone, Copy, Debug, PartialEq, Eq, Structural)]
pub enum PoolError {
    /// A transport attempt failed, or a cached failure was replayed because
    /// the server is still inside its backoff window.
    Transport(TransportError),
    /// The pool holds no configured servers.
    NoServersAvailable,
    /// The named protocol has no transport implementation.
    UnsupportedProtocol(Protocol),
    /// The embedding could not reach the shared bookkeeping state (for
    /// example, a poisoned lock). Never produced by this core; reserved for
    /// the embedding's success path, where there is no safe response value
    /// to fabricate.
    Lock,
}

} // verus!
