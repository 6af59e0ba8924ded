//! Upstream-server selection and health tracking for a DNS resolver client.
//!
//! The crate is the decision core of a resolver's name-server pool: it tracks,
//! per configured server, a connection state machine (initializing,
//! established, failed), lifetime success/failure counters, a backoff window
//! after failures, and a statistics-driven ranking that picks the server most
//! likely to answer the next query.
//!
//! The core performs no I/O itself. An embedding drives it as an event loop:
//! it calls `send_begin` to learn whether (and to which server) a query may be
//! transmitted, performs the transport work, and reports the observed outcome
//! back through `send_success` or `send_failure`. A `send_begin` that returns
//! an error means no transport attempt is to be made for this call.

use vstd::prelude::*;

mod config;
mod error;
mod extensions;
mod pool;
mod server;
mod state;
mod stats;
mod zone;

pub use crate::config::{Protocol, ResolverConfig, ResolverOptions, ServerConfig, SocketEndpoint};
pub use crate::error::{PoolError, TransportError, TransportErrorKind};
pub use crate::extensions::ExtensionOptions;
pub use crate::pool::{Dispatch, NameServerPool};
pub use crate::server::NameServer;
pub use crate::state::ConnectionState;
pub use crate::stats::ServerStats;
pub use crate::zone::ZoneType;

verus! {

/// Lower clamp available to embeddings that compute an exponential backoff;
/// the reconnect decision itself uses only the maximum delay.
pub const MIN_RETRY_DELAY_MS: u64 = 500;

/// Length of the backoff window: a failed server is not retried until this
/// many milliseconds have passed since the failure was recorded.
pub const MAX_RETRY_DELAY_MS: u64 = 360000;

} // verus!
