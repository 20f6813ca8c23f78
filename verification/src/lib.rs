//! Verified core of an HTTP server transport.
//!
//! A [`Server`](server::Server) accumulates bound listening sockets and a
//! configuration, then `serve` turns it into a running pool: one acceptor per
//! socket hands connections round-robin to a fixed set of workers, and a
//! [`ServerHandle`](handle::ServerHandle) supervises the pool until graceful
//! shutdown has drained every connection.

pub mod address;
pub mod body;
pub mod config;
pub mod dispatch;
pub mod handle;
pub mod incoming;
pub mod server;
