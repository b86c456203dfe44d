//! Types shared by the maker and taker state machines.

use vstd::prelude::*;

verus! {

/// The outcome of the execution-setup protocol: the agreed amounts, the two
/// relative timelocks, and the taker's refund address.
#[derive(Debug, Clone, Copy, PartialEq, Eq, Structural)]
pub struct Setup {
    /// Satoshi the taker locks.
    pub btc: u64,
    /// Piconero the maker locks.
    pub xmr: u64,
    /// Blocks from lock-transaction inclusion after which either party may
    /// cancel.
    pub cancel_timelock: u32,
    /// Blocks from cancel-transaction inclusion after which the maker may
    /// punish.
    pub punish_timelock: u32,
    /// Where the taker's Bitcoin goes on refund.
    pub refund_address: u64,
}

impl Setup {
    /// Record the outcome of the quote and execution-setup round: the
    /// amount the taker asked a price for, the quoted Monero amount, and
    /// the environment's timelocks.
    pub fn new(
        btc: u64,
        xmr: u64,
        cancel_timelock: u32,
        punish_timelock: u32,
        refund_address: u64,
    ) -> (r: Self)
        ensures
            r == (Setup { btc, xmr, cancel_timelock, punish_timelock, refund_address }),
    {
        Setup { btc, xmr, cancel_timelock, punish_timelock, refund_address }
    }
}

/// Why a swap task aborts.
#[derive(Debug, Clone, Copy, PartialEq, Eq, Structural)]
pub enum SwapError {
    /// An event arrived that the current state has no transition for.
    ProtocolViolation,
    /// An internal invariant was violated, such as reaching the cancelled
    /// state before the cancel timelock expired.
    InvariantViolation,
}

} // verus!
