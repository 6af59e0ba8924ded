use name_server_pool::{
    ConnectionState, Dispatch, NameServerPool, PoolError, Protocol, ResolverConfig,
    ResolverOptions, ServerConfig, ServerStats, SocketEndpoint, TransportError,
    TransportErrorKind, ZoneType, MAX_RETRY_DELAY_MS,
};

fn endpoint(ip: u128) -> SocketEndpoint {
    SocketEndpoint { ip, port: 53 }
}

fn server_config(ip: u128) -> ServerConfig {
    ServerConfig { socket_addr: endpoint(ip), protocol: Protocol::Udp }
}

fn pool_of(ips: Vec<u128>) -> NameServerPool {
    let mut name_servers = Vec::new();
    for ip in ips {
        name_servers.push(server_config(ip));
    }
    NameServerPool::from_config(&ResolverConfig { name_servers }, &ResolverOptions {})
}

fn timeout() -> TransportError {
    TransportError { kind: TransportErrorKind::Timeout }
}

#[test]
fn from_config_builds_one_fresh_server_per_entry() {
    let pool = pool_of(vec![1, 2, 3]);
    assert_eq!(pool.servers.len(), 3);
    for (i, server) in pool.servers.iter().enumerate() {
        assert_eq!(server.config, server_config([1, 2, 3][i]));
        assert_eq!(server.stats, ServerStats::default());
    }
}

#[test]
fn empty_pool_returns_no_servers_available() {
    let mut pool = pool_of(vec![]);
    assert_eq!(pool.select_best(), None);
    assert_eq!(pool.send_begin(0), Err(PoolError::NoServersAvailable));
    assert_eq!(pool.servers.len(), 0);
}

#[test]
fn pool_selects_initializing_over_established() {
    // Server X is established with a good record; server Y has not been
    // contacted yet. State rank dominates the counters, so Y is selected.
    let mut pool = pool_of(vec![10, 20]);
    pool.servers[0].stats =
        ServerStats { state: ConnectionState::Established { ext: None }, successes: 5, failures: 0 };
    assert_eq!(pool.select_best(), Some(1));
    assert_eq!(pool.send_begin(0), Ok(Dispatch { server: 1, rebuilt: false }));
}

#[test]
fn pool_breaks_ties_by_first_index() {
    let mut pool = pool_of(vec![10, 20, 30]);
    assert_eq!(pool.select_best(), Some(0));
    // A strictly better later server takes over; equal servers do not.
    pool.servers[0].stats.failures = 1;
    pool.servers[1].stats.failures = 1;
    assert_eq!(pool.select_best(), Some(2));
}

#[test]
fn pool_send_reports_outcomes_to_the_dispatched_server() {
    let mut pool = pool_of(vec![10, 20]);
    let dispatch = pool.send_begin(0).unwrap();
    pool.send_success(dispatch.server, None);
    assert_eq!(pool.servers[dispatch.server].stats.successes, 1);
    assert_eq!(
        pool.servers[dispatch.server].stats.state,
        ConnectionState::Established { ext: None }
    );
    // The other server is untouched.
    let other = 1 - dispatch.server;
    assert_eq!(pool.servers[other].stats, ServerStats::default());
}

#[test]
fn single_server_backoff_scenario() {
    // One server; its first send fails with a transport timeout at t0. A
    // send shortly after replays the cached error without a transport
    // attempt; a send past the backoff window reconnects.
    let t0: u64 = 50_000;
    let mut pool = pool_of(vec![42]);

    assert_eq!(pool.send_begin(t0), Ok(Dispatch { server: 0, rebuilt: false }));
    pool.send_failure(0, timeout(), t0);
    assert_eq!(pool.servers[0].stats.failures, 1);

    // Within the window: the same error, and the failure record untouched.
    assert_eq!(pool.send_begin(t0 + 1_000), Err(PoolError::Transport(timeout())));
    assert_eq!(pool.servers[0].stats.state, ConnectionState::Failed { error: timeout(), at: t0 });
    assert_eq!(pool.servers[0].stats.failures, 1);

    // Past the window: a fresh attempt is allowed, counters preserved.
    assert_eq!(
        pool.send_begin(t0 + MAX_RETRY_DELAY_MS + 1_000),
        Ok(Dispatch { server: 0, rebuilt: true })
    );
    assert_eq!(pool.servers[0].stats.state, ConnectionState::Initializing { send_ext: None });
    assert_eq!(pool.servers[0].stats.failures, 1);
    assert_eq!(pool.servers[0].stats.successes, 0);
}

#[test]
fn failed_server_is_avoided_while_another_is_healthy() {
    let t0: u64 = 1_000;
    let mut pool = pool_of(vec![10, 20]);
    pool.send_failure(0, timeout(), t0);
    // The healthy server outranks the failed one.
    assert_eq!(pool.send_begin(t0 + 10), Ok(Dispatch { server: 1, rebuilt: false }));
}

#[test]
fn pool_error_variants_are_distinct() {
    let errors = vec![
        PoolError::Transport(timeout()),
        PoolError::NoServersAvailable,
        PoolError::UnsupportedProtocol(Protocol::Tls),
        PoolError::Lock,
    ];
    for (i, a) in errors.iter().enumerate() {
        for (j, b) in errors.iter().enumerate() {
            assert_eq!(a == b, i == j);
        }
    }
}

#[test]
fn zone_type_variants_are_distinct() {
    let zones = vec![ZoneType::Master, ZoneType::Slave, ZoneType::Hint, ZoneType::Forward];
    for (i, a) in zones.iter().enumerate() {
        for (j, b) in zones.iter().enumerate() {
            assert_eq!(a == b, i == j);
        }
    }
}
