use vstd::prelude::*;

use crate::error::TransportError;
use crate::extensions::ExtensionOptions;
use crate::state::{state_rank, ConnectionState};

verus! {

/// Connection state plus lifetime counters for one server. The counters are
/// monotone: each completed attempt increments exactly one of them, and a
/// reconnect preserves both.
#[derive(Clone, Debug, PartialEq, Eq)]
pub struct ServerStats {
    pub state: ConnectionState,
    pub successes: u64,
    pub failures: u64,
}

/// Stats of a server that has never been contacted.
pub open spec fn fresh_stats() -> ServerStats {
    ServerStats {
        state: ConnectionState::Initializing { send_ext: None },
        successes: 0,
        failures: 0,
    }
}

/// The extension payload recorded by a successful exchange: the payload the
/// response carried, or, when the response carried none, the payload already
/// negotiated by a prior `Established` state (a transient omission must not
/// clear a negotiated capability).
pub open spec fn success_extension(
    prior: ConnectionState,
    remote_ext: Option<ExtensionOptions>,
) -> Option<ExtensionOptions> {
    match remote_ext {
        Some(e) => Some(e),
        None => match prior {
            ConnectionState::Established { ext } => ext,
            _ => None,
        },
    }
}

/// `a` ranks at least as preferred as `b`: higher state rank first; at equal
/// rank, strictly fewer failures; at equal failures, fewer-or-equal successes
/// (to spread load toward under-used healthy servers).
///
/// The direction of the failure-count step is a deliberate policy choice:
/// fewer recorded failures are preferred, so traffic drains away from
/// flaky servers rather than toward them.
pub open spec fn preferred(a: ServerStats, b: ServerStats) -> bool {
    if state_rank(a.state) != state_rank(b.state) {
        state_rank(a.state) > state_rank(b.state)
    } else if a.failures != b.failures {
        a.failures < b.failures
    } else {
        a.successes <= b.successes
    }
}

impl ServerStats {
    /// A stats record at the start of a (re)connection: state Initializing
    /// with the given extension request, counters carried over.
    pub fn init(send_ext: Option<ExtensionOptions>, successes: u64, failures: u64) -> (r:
        ServerStats)
        ensures
            r == (ServerStats {
                state: ConnectionState::Initializing { send_ext },
                successes,
                failures,
            }),
    {
        ServerStats { state: ConnectionState::Initializing { send_ext }, successes, failures }
    }

    /// Record one successful exchange: bump `successes`, move to
    /// `Established`, and keep a previously negotiated extension when the
    /// response omitted one.
    pub fn next_success(&mut self, remote_ext: Option<ExtensionOptions>)
        requires
            old(self).successes < u64::MAX,
        ensures
            final(self).successes == old(self).successes + 1,
            final(self).failures == old(self).failures,
            final(self).state == (ConnectionState::Established {
                ext: success_extension(old(self).state, remote_ext),
            }),
    {
        self.successes = self.successes + 1;
        let mut taken = ConnectionState::Initializing { send_ext: None };
        core::mem::swap(&mut self.state, &mut taken);
        let ext = match remote_ext {
            Some(e) => Some(e),
            None => match taken {
                ConnectionState::Established { ext } => ext,
                _ => None,
            },
        };
        self.state = ConnectionState::Established { ext };
    }

    /// Record one failed exchange: bump `failures` and move to `Failed`,
    /// anchoring the backoff window at `at`.
    pub fn next_failure(&mut self, error: TransportError, at: u64)
        requires
            old(self).failures < u64::MAX,
        ensures
            final(self).failures == old(self).failures + 1,
            final(self).successes == old(self).successes,
            final(self).state == (ConnectionState::Failed { error, at }),
    {
        self.failures = self.failures + 1;
        self.state = ConnectionState::Failed { error, at };
    }

    /// Executable form of the ranking relation `preferred`.
    pub fn is_preferred(&self, other: &ServerStats) -> (r: bool)
        ensures
            r == preferred(*self, *other),
    {
        let ra = self.state.rank();
        let rb = other.state.rank();
        if ra != rb {
            ra > rb
        } else if self.failures != other.failures {
            self.failures < other.failures
        } else {
            self.successes <= other.successes
        }
    }
}

impl Default for ServerStats {
    /// Stats of a freshly configured server: Initializing with no extension
    /// request and zeroed counters.
    fn default() -> (r: ServerStats)
        ensures
            r == fresh_stats(),
    {
        ServerStats {
            state: ConnectionState::Initializing { send_ext: None },
            successes: 0,
            failures: 0,
        }
    }
}

/// Ranking totality over state ranks: between two stats of different state
/// ranks, the higher-ranked one is preferred and the lower-ranked one is not,
/// regardless of the counters.
pub proof fn lemma_rank_dominates(a: ServerStats, b: ServerStats)
    requires
        state_rank(a.state) > state_rank(b.state),
    ensures
        preferred(a, b),
        !preferred(b, a),
{
}

/// `preferred` is total: any two stats are comparable.
pub proof fn lemma_preferred_total(a: ServerStats, b: ServerStats)
    ensures
        preferred(a, b) || preferred(b, a),
{
}

/// `preferred` is transitive, so a linear scan finds a maximum.
pub proof fn lemma_preferred_transitive(a: ServerStats, b: ServerStats, c: ServerStats)
    requires
        preferred(a, b),
        preferred(b, c),
    ensures
        preferred(a, c),
{
}

} // verus!
