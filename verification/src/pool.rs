use vstd::prelude::*;

use crate::config::{ResolverConfig, ResolverOptions};
use crate::error::{PoolError, TransportError};
use crate::extensions::ExtensionOptions;
use crate::server::{begin_transition, NameServer};
use crate::state::ConnectionState;
use crate::stats::{
    fresh_stats, lemma_preferred_total, lemma_preferred_transitive, preferred, success_extension,
};

verus! {

/// A pool dispatch decision: which server the query goes to, and whether the
/// embedding must rebuild that server's transport before transmitting.
#[derive(Clone, Copy, Debug, PartialEq, Eq, Structural)]
pub struct Dispatch {
    pub server: usize,
    pub rebuilt: bool,
}

/// `i` is the index the pool selects: the first index whose stats rank at
/// least as preferred as every server's. Selection always scans the current
/// stats; it never relies on an order frozen at insertion time, since stats
/// change between dispatches.
pub open spec fn is_selected(servers: Seq<NameServer>, i: int) -> bool {
    &&& 0 <= i < servers.len()
    &&& forall|j: int|
        0 <= j < servers.len() ==> #[trigger] preferred(servers[i].stats, servers[j].stats)
    &&& forall|j: int| 0 <= j < i ==> !(#[trigger] preferred(servers[j].stats, servers[i].stats))
}

/// The servers configured for one resolver instance, plus the selection
/// policy over them. Membership is fixed at construction; only the
/// per-member health state changes afterwards.
#[derive(Clone, Debug)]
pub struct NameServerPool {
    pub servers: Vec<NameServer>,
    pub options: ResolverOptions,
}

impl NameServerPool {
    /// One fresh server per configured entry, in configuration order.
    pub fn from_config(config: &ResolverConfig, options: &ResolverOptions) -> (r: NameServerPool)
        ensures
            r.servers@.len() == config.name_servers@.len(),
            forall|i: int|
                0 <= i < r.servers@.len() ==> (#[trigger] r.servers@[i]).config
                    == config.name_servers@[i] && r.servers@[i].stats == fresh_stats(),
            r.options == *options,
    {
        let mut servers: Vec<NameServer> = Vec::new();
        let mut i: usize = 0;
        while i < config.name_servers.len()
            invariant
                i <= config.name_servers@.len(),
                servers@.len() == i as int,
                forall|j: int|
                    0 <= j < i as int ==> (#[trigger] servers@[j]).config
                        == config.name_servers@[j] && servers@[j].stats == fresh_stats(),
            decreases config.name_servers@.len() - i as int,
        {
            let cfg = config.name_servers[i];
            servers.push(NameServer::new(cfg));
            i = i + 1;
        }
        NameServerPool { servers, options: *options }
    }

    /// The index the next dispatch goes to: the first server ranked at least
    /// as preferred as every other, by a scan of the current stats. `None`
    /// exactly when the pool is empty.
    pub fn select_best(&self) -> (r: Option<usize>)
        ensures
            (r is None) <==> self.servers@.len() == 0,
            r matches Some(i) ==> is_selected(self.servers@, i as int),
    {
        if self.servers.len() == 0 {
            return None;
        }
        let mut best: usize = 0;
        let mut k: usize = 1;
        while k < self.servers.len()
            invariant
                1 <= k <= self.servers@.len(),
                best < k,
                forall|j: int|
                    0 <= j < k as int ==> #[trigger] preferred(
                        self.servers@[best as int].stats,
                        self.servers@[j].stats,
                    ),
                forall|j: int|
                    0 <= j < best as int ==> !(#[trigger] preferred(
                        self.servers@[j].stats,
                        self.servers@[best as int].stats,
                    )),
            decreases self.servers@.len() - k as int,
        {
            let cand_pref = self.servers[k].stats.is_preferred(&self.servers[best].stats);
            let best_pref = self.servers[best].stats.is_preferred(&self.servers[k].stats);
            if cand_pref && !best_pref {
                proof {
                    let s = self.servers@;
                    assert forall|j: int| 0 <= j < k as int + 1 implies #[trigger] preferred(
                        s[k as int].stats,
                        s[j].stats,
                    ) by {
                        if j < k as int {
                            lemma_preferred_transitive(
                                s[k as int].stats,
                                s[best as int].stats,
                                s[j].stats,
                            );
                        }
                    }
                    assert forall|j: int| 0 <= j < k as int implies !(#[trigger] preferred(
                        s[j].stats,
                        s[k as int].stats,
                    )) by {
                        if preferred(s[j].stats, s[k as int].stats) {
                            lemma_preferred_transitive(
                                s[j].stats,
                                s[k as int].stats,
                                s[best as int].stats,
                            );
                            if best as int <= j {
                                lemma_preferred_transitive(
                                    s[best as int].stats,
                                    s[j].stats,
                                    s[k as int].stats,
                                );
                            }
                        }
                    }
                }
                best = k;
            } else {
                proof {
                    if !cand_pref {
                        lemma_preferred_total(
                            self.servers@[k as int].stats,
                            self.servers@[best as int].stats,
                        );
                    }
                }
            }
            k = k + 1;
        }
        Some(best)
    }

    /// Decide one outgoing send at `now`. An empty pool is refused with
    /// `NoServersAvailable` and no server is touched; otherwise the call is
    /// delegated to the selected server's `send_begin`, whose outcome is
    /// returned verbatim. No second server is tried within one call: a caller
    /// retrying simply calls again, and the re-ranking then in force may pick
    /// a different server.
    pub fn send_begin(&mut self, now: u64) -> (r: Result<Dispatch, PoolError>)
        ensures
            final(self).options == old(self).options,
            final(self).servers@.len() == old(self).servers@.len(),
            old(self).servers@.len() == 0 ==> r == Err::<Dispatch, PoolError>(
                PoolError::NoServersAvailable,
            ) && final(self).servers@ == old(self).servers@,
            r matches Ok(d) ==> is_selected(old(self).servers@, d.server as int)
                && begin_transition(
                old(self).servers@[d.server as int],
                now,
                final(self).servers@[d.server as int],
                Ok(d.rebuilt),
            ) && (forall|j: int|
                0 <= j < old(self).servers@.len() && j != d.server as int ==> final(self).servers@[j] == old(self).servers@[j]),
            r matches Err(e) ==> final(self).servers@ == old(self).servers@ && (old(self).servers@.len() > 0 ==> exists|i: int|
                #[trigger] is_selected(old(self).servers@, i) && begin_transition(
                    old(self).servers@[i],
                    now,
                    old(self).servers@[i],
                    Err::<bool, PoolError>(e),
                )),
    {
        let sel = self.select_best();
        match sel {
            None => Err(PoolError::NoServersAvailable),
            Some(i) => {
                let outcome = self.servers[i].send_begin(now);
                match outcome {
                    Ok(rebuilt) => Ok(Dispatch { server: i, rebuilt }),
                    Err(e) => {
                        proof {
                            assert(self.servers@ =~= old(self).servers@);
                        }
                        Err(e)
                    },
                }
            },
        }
    }

    /// Report a successful exchange back to the server it was dispatched to.
    pub fn send_success(&mut self, server: usize, remote_ext: Option<ExtensionOptions>)
        requires
            server < old(self).servers@.len(),
            old(self).servers@[server as int].stats.successes < u64::MAX,
        ensures
            final(self).options == old(self).options,
            final(self).servers@.len() == old(self).servers@.len(),
            forall|j: int|
                0 <= j < old(self).servers@.len() && j != server as int ==> final(self).servers@[j]
                    == old(self).servers@[j],
            final(self).servers@[server as int].config == old(self).servers@[server as int].config,
            final(self).servers@[server as int].stats.successes == old(self).servers@[server as int].stats.successes + 1,
            final(self).servers@[server as int].stats.failures == old(self).servers@[server as int].stats.failures,
            final(self).servers@[server as int].stats.state == (ConnectionState::Established {
                ext: success_extension(old(self).servers@[server as int].stats.state, remote_ext),
            }),
    {
        self.servers[server].send_success(remote_ext);
    }

    /// Report a failed exchange (or a failed transport rebuild) observed at
    /// `now` back to the server it was dispatched to.
    pub fn send_failure(&mut self, server: usize, error: TransportError, now: u64)
        requires
            server < old(self).servers@.len(),
            old(self).servers@[server as int].stats.failures < u64::MAX,
        ensures
            final(self).options == old(self).options,
            final(self).servers@.len() == old(self).servers@.len(),
            forall|j: int|
                0 <= j < old(self).servers@.len() && j != server as int ==> final(self).servers@[j]
                    == old(self).servers@[j],
            final(self).servers@[server as int].config == old(self).servers@[server as int].config,
            final(self).servers@[server as int].stats.failures == old(self).servers@[server as int].stats.failures + 1,
            final(self).servers@[server as int].stats.successes == old(self).servers@[server as int].stats.successes,
            final(self).servers@[server as int].stats.state == (ConnectionState::Failed {
                error,
                at: now,
            }),
    {
        self.servers[server].send_failure(error, now);
    }
}

} // verus!
