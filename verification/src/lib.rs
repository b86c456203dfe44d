//! Core logic of a trust-minimized BTC/XMR atomic swap: confirmation
//! accounting for watched Bitcoin outputs, timelock status derivation, the
//! wire codec of the peer sub-protocols, the peer-session event model, the
//! maker and taker state machines, and the persistence adapter that records
//! the latest state of every swap.
//!
//! Everything here is pure logic over plain values. Chain RPC, networking
//! and the async runtime live outside the library and hand values in.

pub mod alice;
pub mod bob;
pub mod codec;
pub mod database;
pub mod monero;
pub mod protocol;
pub mod recover;
pub mod session;
pub mod timelock;
pub mod wallet;
