//! Derivation of the relative-timelock status that the two state machines
//! branch on: neither timelock expired, the cancel window open, or the
//! punish window open.

use vstd::prelude::*;
use crate::wallet::ScriptStatus;

verus! {

/// Which of the two relative Bitcoin timelocks has elapsed.
///
/// The cancel timelock is anchored to the lock transaction's confirmation
/// height, the punish timelock to the cancel transaction's.
#[derive(Debug, Clone, Copy, PartialEq, Eq, Structural)]
pub enum ExpiredTimelocks {
    /// Neither timelock has elapsed.
    Neither,
    /// The cancel timelock has elapsed, the punish timelock has not.
    Cancel,
    /// The punish timelock has elapsed as well.
    Punish,
}

/// Whether a status has at least `target` confirmations.
pub open spec fn spec_meets_target(status: ScriptStatus, target: u32) -> bool {
    status matches ScriptStatus::Confirmed(c) && c.depth + 1 >= target
}

/// The timelock status derived from the chain: `Neither` until the lock
/// transaction has `cancel_timelock` confirmations, then `Cancel` until the
/// cancel transaction has `punish_timelock` confirmations, then `Punish`.
pub open spec fn spec_expired_timelocks(
    cancel_timelock: u32,
    punish_timelock: u32,
    lock_status: ScriptStatus,
    cancel_status: ScriptStatus,
) -> ExpiredTimelocks {
    if !spec_meets_target(lock_status, cancel_timelock) {
        ExpiredTimelocks::Neither
    } else if !spec_meets_target(cancel_status, punish_timelock) {
        ExpiredTimelocks::Cancel
    } else {
        ExpiredTimelocks::Punish
    }
}

/// Derive the timelock status from the watcher's view of the lock and
/// cancel transactions.
pub fn expired_timelocks(
    cancel_timelock: u32,
    punish_timelock: u32,
    lock_status: ScriptStatus,
    cancel_status: ScriptStatus,
) -> (r: ExpiredTimelocks)
    requires
        lock_status matches ScriptStatus::Confirmed(c) ==> c.depth < u32::MAX,
        cancel_status matches ScriptStatus::Confirmed(c) ==> c.depth < u32::MAX,
    ensures
        r == spec_expired_timelocks(cancel_timelock, punish_timelock, lock_status, cancel_status),
{
    if !lock_status.is_confirmed_with(cancel_timelock) {
        ExpiredTimelocks::Neither
    } else if !cancel_status.is_confirmed_with(punish_timelock) {
        ExpiredTimelocks::Cancel
    } else {
        ExpiredTimelocks::Punish
    }
}

} // verus!
