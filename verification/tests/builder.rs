use pavex_server::config::ServerConfiguration;
use pavex_server::incoming::IncomingStream;
use pavex_server::address::{IpAddress, SocketAddress};
use pavex_server::server::Server;

#[test]
fn new_server_has_default_config() {
    let server = Server::new();
    let cfg = server.get_config();
    assert_eq!(cfg.n_workers, None);
    assert_eq!(cfg.shutdown_grace_millis, None);
    assert!(cfg.http1_enabled);
    assert!(cfg.http2_enabled);
}

#[test]
fn set_config_overwrites_wholesale() {
    let cfg = ServerConfiguration::new()
        .set_workers(2)
        .set_shutdown_grace_millis(1500)
        .set_http2(false);
    let server = Server::new().set_config(cfg);
    let got = server.get_config();
    assert_eq!(got.n_workers, Some(2));
    assert_eq!(got.shutdown_grace_millis, Some(1500));
    assert!(got.http1_enabled);
    assert!(!got.http2_enabled);
}

#[test]
fn configuration_builder_accumulates() {
    let cfg = ServerConfiguration::default().set_http1(false).set_workers(7);
    assert_eq!(cfg.n_workers, Some(7));
    assert!(!cfg.http1_enabled);
    assert!(cfg.http2_enabled);
    assert_eq!(cfg.shutdown_grace_millis, None);
}

#[test]
fn resolved_worker_count_defaults_to_core_count() {
    let cfg = ServerConfiguration::new();
    assert_eq!(cfg.resolved_worker_count(8), 8);
    let fixed = cfg.set_workers(3);
    assert_eq!(fixed.resolved_worker_count(8), 3);
}

#[test]
fn serve_requires_a_registered_listener() {
    // With no prior `bind`/`listen` call, `serve` must not be reached: the
    // unverified edge checks this and aborts as a fatal programmer error.
    let server = Server::new();
    assert!(!server.can_serve());
}

#[test]
fn listen_registers_sources_in_order() {
    let a = IncomingStream::from_bound_addr(SocketAddress::loopback(8080));
    let b = IncomingStream::from_bound_addr(SocketAddress {
        ip: IpAddress::V4(10, 0, 0, 1),
        port: 9090,
    });
    let server = Server::new().listen(a).listen(b);
    assert!(server.can_serve());
    let handle = server.serve(1);
    let addrs = handle.local_addrs();
    assert_eq!(addrs.len(), 2);
    assert_eq!(addrs[0], SocketAddress::loopback(8080));
    assert_eq!(addrs[1].port, 9090);
}
