//! Client-side connection establishment and graceful shutdown.
//!
//! This library holds the verified core of a proxying client pipeline:
//! deciding whether a request tunnels through an upstream HTTP proxy
//! (and building the CONNECT handshake bytes, credentials included),
//! deciding whether the resulting stream is upgraded to TLS (and
//! interpreting the handshake outcome), and a coordination primitive
//! that lets a server drain outstanding work before it terminates.
//!
//! All I/O — connecting, driving the TLS engine, awaiting — lives
//! outside this crate; the functions here take the outside world's
//! answers as plain values and say exactly what is decided for each.

pub mod address;
pub mod connect;
pub mod context;
pub mod encoding;
pub mod graceful;
pub mod proxy;
pub mod tls;
