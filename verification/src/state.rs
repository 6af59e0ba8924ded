use vstd::prelude::*;

use crate::error::TransportError;
use crate::extensions::ExtensionOptions;

verus! {

/// Connection health of one name server. Exactly one variant is active;
/// payloads are ignored by ranking and compared only by the embedding.
#[derive(Clone, Debug, PartialEq, Eq)]
pub enum ConnectionState {
    /// No exchange has completed yet. `send_ext`, when present, is the
    /// extension payload to request on first contact.
    Initializing { send_ext: Option<ExtensionOptions> },
    /// At least one exchange succeeded. `ext` is `None` when the remote does
    /// not support the extension.
    Established { ext: Option<ExtensionOptions> },
    /// The last attempt failed. `at` (milliseconds on the embedding's clock)
    /// anchors the backoff window.
    Failed { error: TransportError, at: u64 },
}

/// Rank of a state for selection purposes: Initializing > Established >
/// Failed; payloads never influence the rank. Kept in one place so the
/// ranking policy is independent of the transition logic.
pub open spec fn state_rank(s: ConnectionState) -> int {
    match s {
        ConnectionState::Initializing { .. } => 3,
        ConnectionState::Established { .. } => 2,
        ConnectionState::Failed { .. } => 1,
    }
}

impl ConnectionState {
    pub fn rank(&self) -> (r: u64)
        ensures
            r as int == state_rank(*self),
    {
        match self {
            ConnectionState::Initializing { .. } => 3,
            ConnectionState::Established { .. } => 2,
            ConnectionState::Failed { .. } => 1,
        }
    }
}

} // verus!
