//! Fault-injection engine of a test proxy that sits in front of a blockchain
//! RPC node.
//!
//! For each inbound JSON-RPC call the engine decides whether the call is
//! forwarded to the node as it is, or answered with a synthetic event: a rate
//! limit, a timeout, added latency, a fabricated transaction signature, or a
//! signature that never confirms. The engine itself performs no I/O: it hands
//! back a plan that says how long to wait and what to send.
//!
//! - [`service`] holds the shared state and the engine: [`service::rpc`]
//!   handles a raw body, [`service::decide`] a request that was read already,
//!   with random values given by the caller.
//! - [`event`] is the catalog of events and what each of them does.
//! - [`plan`] defines what the engine hands back, and [`plan::relay`] ends a
//!   forward once the node has answered.
//! - [`request`] reads the request out of a body, through [`json`].
//! - [`registry`] keeps the fabricated signatures.
//! - [`probability`], [`draws`] and [`random`] hold the success rates, the
//!   random values of one request and the source they are drawn from.
//! - [`config`] is the configuration with its defaults.
//! - [`laws`] states and proves what holds of every decision.

pub mod base58;
pub mod config;
pub mod draws;
pub mod error;
pub mod event;
pub mod json;
pub mod laws;
pub mod plan;
pub mod probability;
pub mod random;
pub mod registry;
pub mod request;
pub mod service;
