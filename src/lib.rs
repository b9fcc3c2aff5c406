//! Operator-side logic of a trust-minimized Bitcoin bridge: the transaction
//! model and its binary framing, the one-time-signature connector factories,
//! the keyed material store, the peg-out graph builders, the threshold-signing
//! session, and the operator agent's keys, signatures and funding selection.

pub mod tx;
pub mod codec;
pub mod connectors;
pub mod registry;
pub mod db;
pub mod graph;
pub mod musig;
pub mod agent;
pub mod transactions;
