//! Proof-serving orchestration layer in front of a zero-knowledge proving
//! backend.
//!
//! The crate holds the verified core of the service: the circuit registry,
//! the request validation and error/status mapping of the synchronous
//! transport, the pure computation steps of the proof coordinator, the
//! one-shot session protocol, and the subprocess proving pipeline modelled
//! as a state machine.  Filesystem access, network listeners and the
//! cryptographic backend itself stay outside; they interact with this crate
//! through plain values.

pub mod strutil;

pub mod hexfmt;

pub mod types;

pub mod circuit;

pub mod prover;

pub mod config;

pub mod command;

pub mod attestation;

pub mod routes;

pub mod session;

pub mod pipeline;
