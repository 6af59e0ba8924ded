use vstd::prelude::*;

use crate::config::ServerConfig;
use crate::error::{PoolError, TransportError};
use crate::extensions::ExtensionOptions;
use crate::state::ConnectionState;
use crate::stats::{fresh_stats, success_extension, ServerStats};
use crate::MAX_RETRY_DELAY_MS;

verus! {

/// The backoff window anchored at `at` has elapsed at `now`: a failed server
/// is reconnected by the first call arriving at or after
/// `at + MAX_RETRY_DELAY_MS`, and not before.
pub open spec fn backoff_expired(at: u64, now: u64) -> bool {
    now >= at + MAX_RETRY_DELAY_MS
}

/// Stats after a reconnect: a fresh `Initializing` state with no extension
/// request, with the lifetime counters of `prior` preserved.
pub open spec fn reinitialized(prior: ServerStats) -> ServerStats {
    ServerStats {
        state: ConnectionState::Initializing { send_ext: None },
        successes: prior.successes,
        failures: prior.failures,
    }
}

/// What `try_reconnect` does, as a relation between the server before
/// (`pre`) and after (`post`) the call and its result `r`:
/// - a server not in `Failed` state is left untouched (`Ok(false)`);
/// - a failed server whose backoff window is still open is left untouched
///   and the stored failure is replayed (`Err`), so no transport attempt is
///   made;
/// - a failed server whose window has elapsed is reset to `Initializing`
///   with its counters preserved (`Ok(true)`: the embedding must rebuild the
///   transport from `pre.config`).
pub open spec fn reconnect_transition(
    pre: NameServer,
    now: u64,
    post: NameServer,
    r: Result<bool, PoolError>,
) -> bool {
    &&& (!(pre.stats.state is Failed) ==> r == Ok::<bool, PoolError>(false) && post == pre)
    &&& (pre.stats.state is Failed && !backoff_expired(pre.stats.state->at, now) ==> r == Err::<
        bool,
        PoolError,
    >(PoolError::Transport(pre.stats.state->error)) && post == pre)
    &&& (pre.stats.state is Failed && backoff_expired(pre.stats.state->at, now) ==> r == Ok::<
        bool,
        PoolError,
    >(true) && post.stats == reinitialized(pre.stats) && post.config == pre.config)
}

/// What `send_begin` does: a server whose protocol has no transport
/// implementation is refused untouched; otherwise it behaves as
/// `try_reconnect`. `Ok` means the embedding may transmit (rebuilding the
/// transport first when the carried flag is true); `Err` means no transport
/// attempt is to be made for this call.
pub open spec fn begin_transition(
    pre: NameServer,
    now: u64,
    post: NameServer,
    r: Result<bool, PoolError>,
) -> bool {
    if pre.config.protocol.supported() {
        reconnect_transition(pre, now, post, r)
    } else {
        r == Err::<bool, PoolError>(PoolError::UnsupportedProtocol(pre.config.protocol)) && post
            == pre
    }
}

/// Backoff correctness and counter preservation. A server that entered
/// `Failed` at time `t` is split by `t + MAX_RETRY_DELAY_MS` into exactly two
/// outcomes of a reconnect decision: every call strictly before that instant
/// replays the stored error and leaves the server untouched — so no transport
/// attempt is made inside the window — and the first call at or after it
/// installs a fresh `Initializing` state whose `successes` and `failures`
/// equal their values immediately before the reconnect.
pub proof fn lemma_backoff_window(
    pre: NameServer,
    now: u64,
    post: NameServer,
    r: Result<bool, PoolError>,
)
    requires
        pre.stats.state is Failed,
        reconnect_transition(pre, now, post, r),
    ensures
        now < pre.stats.state->at + MAX_RETRY_DELAY_MS ==> r == Err::<bool, PoolError>(
            PoolError::Transport(pre.stats.state->error),
        ) && post == pre,
        now >= pre.stats.state->at + MAX_RETRY_DELAY_MS ==> r == Ok::<bool, PoolError>(true)
            && post.stats.state == (ConnectionState::Initializing { send_ext: None })
            && post.stats.successes == pre.stats.successes && post.stats.failures
            == pre.stats.failures && post.config == pre.config,
{
}

/// One configured upstream server: its immutable identity (`config`) and its
/// live health record (`stats`). The transport handle itself lives in the
/// embedding, which rebuilds it whenever this core reports a reconnect.
#[derive(Clone, Debug, PartialEq, Eq)]
pub struct NameServer {
    pub config: ServerConfig,
    pub stats: ServerStats,
}

impl NameServer {
    /// A freshly configured server: Initializing, zeroed counters.
    pub fn new(config: ServerConfig) -> (r: NameServer)
        ensures
            r.config == config,
            r.stats == fresh_stats(),
    {
        NameServer { config, stats: ServerStats::default() }
    }

    /// Decide whether the server may be used at `now`. A failed server inside
    /// its backoff window replays the stored error without any transport
    /// attempt; one whose window has elapsed is reset to a fresh
    /// `Initializing` state with its lifetime counters preserved, and
    /// `Ok(true)` tells the embedding to rebuild the transport from `config`
    /// (installing a fresh stats cell there also heals a poisoned lock).
    pub fn try_reconnect(&mut self, now: u64) -> (r: Result<bool, PoolError>)
        ensures
            reconnect_transition(*old(self), now, *final(self), r),
    {
        let failed: Option<(TransportError, u64)> = match &self.stats.state {
            ConnectionState::Failed { error, at } => Some((*error, *at)),
            _ => None,
        };
        match failed {
            None => Ok(false),
            Some((error, at)) => {
                if now >= at && now - at >= MAX_RETRY_DELAY_MS {
                    let successes = self.stats.successes;
                    let failures = self.stats.failures;
                    self.stats = ServerStats::init(None, successes, failures);
                    Ok(true)
                } else {
                    Err(PoolError::Transport(error))
                }
            },
        }
    }

    /// Decide whether a query may be transmitted to this server at `now`.
    /// An unsupported protocol is refused here, fail-fast, since no transport
    /// could ever be built for it; otherwise the call is `try_reconnect`.
    /// After `Ok`, the embedding transmits and reports the outcome through
    /// `send_success` or `send_failure`; after `Err`, it makes no attempt.
    pub fn send_begin(&mut self, now: u64) -> (r: Result<bool, PoolError>)
        ensures
            begin_transition(*old(self), now, *final(self), r),
    {
        if !self.config.protocol.is_supported() {
            return Err(PoolError::UnsupportedProtocol(self.config.protocol));
        }
        self.try_reconnect(now)
    }

    /// Record a completed, successful exchange. `remote_ext` is the extension
    /// payload the embedding extracted from the response, if any.
    pub fn send_success(&mut self, remote_ext: Option<ExtensionOptions>)
        requires
            old(self).stats.successes < u64::MAX,
        ensures
            final(self).config == old(self).config,
            final(self).stats.successes == old(self).stats.successes + 1,
            final(self).stats.failures == old(self).stats.failures,
            final(self).stats.state == (ConnectionState::Established {
                ext: success_extension(old(self).stats.state, remote_ext),
            }),
    {
        self.stats.next_success(remote_ext);
    }

    /// Record a completed, failed exchange observed at `now`. The embedding
    /// also reports a failed transport rebuild here, which keeps the server
    /// in `Failed` state with a refreshed timestamp, restarting the window.
    pub fn send_failure(&mut self, error: TransportError, now: u64)
        requires
            old(self).stats.failures < u64::MAX,
        ensures
            final(self).config == old(self).config,
            final(self).stats.failures == old(self).stats.failures + 1,
            final(self).stats.successes == old(self).stats.successes,
            final(self).stats.state == (ConnectionState::Failed { error, at: now }),
    {
        self.stats.next_failure(error, now);
    }
}

} // verus!
