//! Verified core of a BLE environmental-sensor collector.
//!
//! Battery-powered beacons broadcast measurements in two advertisement
//! layouts.  A constrained listener scans for them, deduplicates by
//! source and measurement sequence, stamps them with reconstructed
//! wall-clock time, and streams them to a gateway over an encrypted,
//! length-framed session; the gateway decodes physical quantities and
//! hands rows to a relational store.  This crate holds the verified
//! logic of both sides: wire parsing, unit conversion, deduplication,
//! the bounded handoff queue, framing, the record codec, time
//! reconciliation, reconnect backoff, and the session flow around the
//! Noise handshake.  Socket and database I/O live with the embedding
//! programs.

pub mod bytes;
pub mod config;
pub mod convert;
pub mod dedup;
pub mod frame;
pub mod http;
pub mod led;
pub mod queue;
pub mod record;
pub mod scanner;
pub mod schema;
pub mod sender;
pub mod session;
pub mod timesync;
pub mod wire;
