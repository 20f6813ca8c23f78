use pavex_server::config::ServerConfiguration;
use pavex_server::handle::{ServerHandle, ServerPhase};
use pavex_server::incoming::IncomingStream;
use pavex_server::address::SocketAddress;
use pavex_server::server::Server;

fn started(workers: usize) -> ServerHandle {
    let cfg = ServerConfiguration::new().set_workers(workers);
    let incoming = IncomingStream::from_bound_addr(SocketAddress::loopback(8080));
    Server::new().set_config(cfg).listen(incoming).serve(1)
}

#[test]
fn serve_returns_a_serving_handle() {
    let handle = started(2);
    assert_eq!(handle.phase(), ServerPhase::Serving);
    assert!(handle.accept_allowed());
    assert!(!handle.is_resolved());
    assert_eq!(handle.worker_count(), 2);
    assert_eq!(handle.connections_accepted(), 0);
    for w in 0..2 {
        let stats = handle.worker_stats(w);
        assert_eq!(stats.received, 0);
        assert_eq!(stats.active, 0);
    }
}

#[test]
fn default_pool_is_one_worker_per_core() {
    let incoming = IncomingStream::from_bound_addr(SocketAddress::loopback(8080));
    let handle = Server::new().listen(incoming).serve(4);
    assert_eq!(handle.worker_count(), 4);
}

#[test]
fn round_robin_splits_evenly() {
    // 12 connections over 3 workers: each worker receives exactly 4.
    let mut handle = started(3);
    for i in 0..12u64 {
        let w = handle.dispatch();
        assert_eq!(w as u64, i % 3);
    }
    assert_eq!(handle.connections_accepted(), 12);
    for w in 0..3 {
        assert_eq!(handle.worker_stats(w).received, 4);
    }
}

#[test]
fn uneven_load_differs_by_at_most_one() {
    // 5 connections over 2 workers: 3 and 2.
    let mut handle = started(2);
    for _ in 0..5 {
        handle.dispatch();
    }
    assert_eq!(handle.worker_stats(0).received, 3);
    assert_eq!(handle.worker_stats(1).received, 2);
}

#[test]
fn graceful_shutdown_drains_before_resolving() {
    let mut handle = started(2);
    let w = handle.dispatch();
    assert_eq!(handle.worker_stats(w).active, 1);

    handle.shutdown();
    assert_eq!(handle.phase(), ServerPhase::ShuttingDown);
    assert!(!handle.accept_allowed());
    // The in-flight connection blocks resolution...
    assert!(!handle.try_resolve());
    assert!(!handle.is_resolved());

    // ...and completes normally, with its response streamed, before the
    // handle resolves.
    handle.connection_finished(w, false);
    assert_eq!(handle.worker_stats(w).completed, 1);
    assert!(handle.try_resolve());
    assert!(handle.is_resolved());
    assert_eq!(handle.phase(), ServerPhase::Stopped);
}

#[test]
fn shutdown_is_idempotent() {
    let mut handle = started(1);
    handle.shutdown();
    handle.shutdown();
    assert_eq!(handle.phase(), ServerPhase::ShuttingDown);
    assert!(handle.try_resolve());
    handle.shutdown();
    assert_eq!(handle.phase(), ServerPhase::Stopped);
}

#[test]
fn handler_failure_is_isolated_to_its_connection() {
    // A handler failure tears down its connection only: the same worker then
    // serves the next connection normally.
    let mut handle = started(1);
    let w = handle.dispatch();
    handle.connection_finished(w, true);
    assert_eq!(handle.phase(), ServerPhase::Serving);
    assert!(handle.accept_allowed());

    let w2 = handle.dispatch();
    assert_eq!(w2, w);
    handle.connection_finished(w2, false);

    let stats = handle.worker_stats(w);
    assert_eq!(stats.received, 2);
    assert_eq!(stats.failed, 1);
    assert_eq!(stats.completed, 1);
    assert_eq!(stats.active, 0);
}

#[test]
fn handler_failure_leaves_siblings_untouched() {
    let mut handle = started(2);
    let first = handle.dispatch();
    let second = handle.dispatch();
    assert_ne!(first, second);
    handle.connection_finished(first, true);
    let sibling = handle.worker_stats(second);
    assert_eq!(sibling.active, 1);
    assert_eq!(sibling.failed, 0);
    handle.connection_finished(second, false);
    assert_eq!(handle.worker_stats(second).completed, 1);
}

#[test]
fn grace_expiry_force_closes_remaining_connections() {
    let mut handle = started(2);
    let a = handle.dispatch();
    let b = handle.dispatch();
    handle.shutdown();
    handle.connection_finished(a, false);
    assert!(!handle.try_resolve());
    // The grace period has expired with one connection still in flight.
    handle.force_shutdown();
    assert!(handle.is_resolved());
    assert_eq!(handle.worker_stats(b).aborted, 1);
    assert_eq!(handle.worker_stats(b).active, 0);
    assert_eq!(handle.worker_stats(a).completed, 1);
}
