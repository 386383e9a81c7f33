//! Session registry and event-pump core for a remote-desktop bridge.
//!
//! A host drives one or more remote display sessions through opaque
//! 64-bit handles. This crate owns the registry that maps handles to
//! live sessions, the translation between boundary-safe event values
//! and protocol event values, the decoding of incoming bitmap events
//! (decompressing run-length-encoded payloads through the protocol
//! library), and the decisions of the per-session read pump. The
//! blocking I/O itself — opening the transport, the handshake, the
//! readiness wait, the socket reads and writes — stays with the caller,
//! which hands this crate plain values and acts on what it returns.

pub mod bitmap;
pub mod errors;
pub mod events;
pub mod pump;
pub mod registry;
pub mod session;
