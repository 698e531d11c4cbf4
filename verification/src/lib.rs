//! A local traffic-interception layer that points a game client at a
//! community server: a service-discovery responder, a session tunnel, an
//! HTTPS reverse proxy and a UDP network-quality echo service, together with
//! the shared connection state and the supervisor that runs them as a unit.
//!
//! This crate holds the verified core: the wire payloads, the header and URL
//! construction, the public-address cache, the hosts-file rewriting and the
//! supervisor state machine. The unverified binary around it performs the
//! socket, TLS and file work and hands plain values in and out.

pub mod api;
pub mod cache;
pub mod context;
pub mod discovery;
pub mod hosts;
pub mod numbers;
pub mod patch;
pub mod proxy;
pub mod qos;
pub mod supervisor;
pub mod text;
pub mod tunnel;

use vstd::prelude::*;

verus! {

/// The local service-discovery (redirector) port, TLS.
pub const REDIRECTOR_PORT: u16 = 42230;

/// The local session-tunnel port, plaintext TCP. The discovery response
/// directs the game client to this port.
pub const MAIN_PORT: u16 = 42231;

/// The local network-quality echo port, UDP.
pub const QOS_PORT: u16 = 42232;

/// The local HTTP reverse-proxy port, TLS. Kept distinct from the
/// redirector port so that every service owns exactly one port.
pub const HTTPS_PORT: u16 = 42233;

} // verus!
