//! Client-side engine for the node-to-node and node-to-client mini-protocols
//! of a fork-able ledger: chain synchronisation, block retrieval, ledger-state
//! queries and transaction relay.
//!
//! Every protocol client here is a state machine over plain values. A driver
//! owns the transport: it performs the action a client asks for and hands the
//! peer's message back as the next event.

pub mod point;
pub mod era;
pub mod magic;
pub mod failure;
pub mod txsubmission;
pub mod submit;
pub mod chainsync;
pub mod blockfetch;
pub mod statequery;
pub mod address;
pub mod utxo;
pub mod session;
