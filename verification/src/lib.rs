//! Event-to-state reconciliation and aggregation for decoded smart-contract
//! events.
//!
//! A stream of decoded events (transfers, pool creations, swaps) is projected
//! into relational state: ownership records, pool metadata and cross-chain
//! aggregate swap volume. Everything around that core — block scanning,
//! reorg handling, persistence transport, process bootstrapping — belongs to
//! an external indexing runtime and stays outside this library.

pub mod handlers;
pub mod laws;
pub mod params;
pub mod states;
pub mod store;
