//! The Monero wallet's watch decision: when a counterparty's lock transfer
//! counts as locked, and when it counts as cheating.

use vstd::prelude::*;

verus! {

/// What one look at the counterparty's lock transfer concludes.
#[derive(Debug, Clone, Copy, PartialEq, Eq, Structural)]
pub enum TransferStatus {
    /// The transfer pays less than agreed: the watch fails at once, the
    /// offended side cancels via the timelock path.
    InsufficientFunds,
    /// The transfer pays the agreed amount and has reached the finality
    /// target.
    Locked,
    /// The transfer pays the agreed amount but needs more confirmations.
    Pending,
}

/// Judge the counterparty's lock transfer against the agreed amount and
/// the chain's finality target. A short amount fails regardless of how
/// many confirmations it has.
pub fn evaluate_transfer(
    expected_amount: u64,
    received_amount: u64,
    confirmations: u64,
    finality_target: u64,
) -> (r: TransferStatus)
    ensures
        received_amount < expected_amount ==> r == TransferStatus::InsufficientFunds,
        received_amount >= expected_amount && confirmations >= finality_target ==> r
            == TransferStatus::Locked,
        received_amount >= expected_amount && confirmations < finality_target ==> r
            == TransferStatus::Pending,
{
    if received_amount < expected_amount {
        TransferStatus::InsufficientFunds
    } else if confirmations >= finality_target {
        TransferStatus::Locked
    } else {
        TransferStatus::Pending
    }
}

} // verus!
