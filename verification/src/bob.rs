//! The taker's swap state machine.
//!
//! The driver that runs a swap alternates outside work (chain RPC, peer
//! messages, timers) with decisions. Every decision lives here: a pure
//! transition function from the current state and the observed event to the
//! next state, together with the action the driver has to perform in each
//! state. The driver persists every new state before it continues.

use vstd::prelude::*;
use crate::codec::TransferProof;
use crate::database::Database;
use crate::protocol::{Setup, SwapError};
use crate::timelock::ExpiredTimelocks;
use crate::wallet::TxId;

verus! {

/// The taker's view of a swap. The taker owns the Bitcoin until the Monero
/// is swept.
#[derive(Debug, Clone, Copy, PartialEq, Eq, Structural)]
pub enum BobState {
    /// The swap exists; nothing has been negotiated yet.
    Started { btc_amount: u64 },
    /// Spot price received and execution setup finished.
    ExecutionSetupDone { setup: Setup },
    /// The taker's lock transaction is broadcast.
    BtcLocked { setup: Setup, tx_lock_id: TxId },
    /// The maker announced the Monero lock transfer.
    XmrLockProofReceived {
        setup: Setup,
        tx_lock_id: TxId,
        lock_transfer_proof: TransferProof,
        monero_wallet_restore_blockheight: u64,
    },
    /// The Monero lock transfer is final and pays the agreed amount.
    XmrLocked { setup: Setup, tx_lock_id: TxId, monero_wallet_restore_blockheight: u64 },
    /// The encrypted redeem signature reached the maker.
    EncSigSent { setup: Setup, tx_lock_id: TxId },
    /// The maker's redeem transaction is on-chain, revealing the scalar the
    /// taker needs to claim the Monero.
    BtcRedeemed { setup: Setup, tx_lock_id: TxId },
    /// The cancel timelock elapsed before the happy path finished.
    CancelTimelockExpired { setup: Setup, tx_lock_id: TxId },
    /// The cancel transaction is on-chain.
    BtcCancelled { setup: Setup, tx_lock_id: TxId },
    /// The taker refunded the Bitcoin.
    BtcRefunded { setup: Setup, tx_lock_id: TxId },
    /// The Monero is swept to the taker's receive address.
    XmrRedeemed { tx_lock_id: TxId },
    /// The maker punished the taker's inactivity.
    BtcPunished { tx_lock_id: TxId },
    /// Nothing was ever broadcast; the swap ended without touching funds.
    SafelyAborted,
}

/// The terminal states: fixed points of the transition function.
pub open spec fn spec_is_complete(state: BobState) -> bool {
    ||| state is BtcRefunded
    ||| state is XmrRedeemed
    ||| state is BtcPunished
    ||| state is SafelyAborted
}

pub fn is_complete(state: &BobState) -> (r: bool)
    ensures
        r == spec_is_complete(*state),
{
    matches!(
        state,
        BobState::BtcRefunded { .. }
            | BobState::XmrRedeemed { .. }
            | BobState::BtcPunished { .. }
            | BobState::SafelyAborted
    )
}

/// What the driver observed while performing the current state's action.
#[derive(Debug, Clone, Copy, PartialEq, Eq, Structural)]
pub enum BobEvent {
    /// Quote received and execution setup finished.
    SetupCompleted { setup: Setup },
    /// The lock transaction is signed and broadcast.
    BtcLockBroadcast { tx_lock_id: TxId },
    /// The maker's transfer proof arrived; the Monero chain tip was
    /// recorded beforehand as a restore-height hint.
    TransferProofReceived { proof: TransferProof, monero_wallet_restore_blockheight: u64 },
    /// The cancel timelock elapsed, or had already elapsed when the state
    /// was entered.
    CancelTimelockFired,
    /// The Monero lock transfer is final and pays the agreed amount.
    XmrLockConfirmed,
    /// The Monero lock transfer pays less than agreed: cancel regardless of
    /// the remaining timelock budget.
    XmrLockInsufficient,
    /// The maker acknowledged the encrypted signature.
    EncryptedSignatureAcked,
    /// The maker's redeem transaction appeared on-chain.
    BtcRedeemSeen,
    /// The claimed Monero is swept to the receive address.
    XmrSwept,
    /// The cancel transaction is on-chain (broadcast first if needed).
    CancelTxEnsured,
    /// The refund transaction is broadcast.
    BtcRefundCompleted,
    /// The maker's punish transaction appeared on-chain.
    PunishTxSeen,
}

/// The transition function. Terminal states ignore every event; a state
/// fed an event it has no transition for is a protocol violation.
pub open spec fn spec_next(state: BobState, event: BobEvent) -> Result<BobState, SwapError> {
    if spec_is_complete(state) {
        Ok(state)
    } else {
        match (state, event) {
            (
                BobState::Started { btc_amount },
                BobEvent::SetupCompleted { setup },
            ) => Ok(BobState::ExecutionSetupDone { setup }),
            (
                BobState::ExecutionSetupDone { setup },
                BobEvent::BtcLockBroadcast { tx_lock_id },
            ) => Ok(BobState::BtcLocked { setup, tx_lock_id }),
            (
                BobState::BtcLocked { setup, tx_lock_id },
                BobEvent::TransferProofReceived { proof, monero_wallet_restore_blockheight },
            ) => Ok(
                BobState::XmrLockProofReceived {
                    setup,
                    tx_lock_id,
                    lock_transfer_proof: proof,
                    monero_wallet_restore_blockheight,
                },
            ),
            (
                BobState::BtcLocked { setup, tx_lock_id },
                BobEvent::CancelTimelockFired,
            ) => Ok(BobState::CancelTimelockExpired { setup, tx_lock_id }),
            (
                BobState::XmrLockProofReceived {
                    setup,
                    tx_lock_id,
                    lock_transfer_proof,
                    monero_wallet_restore_blockheight,
                },
                BobEvent::XmrLockConfirmed,
            ) => Ok(BobState::XmrLocked { setup, tx_lock_id, monero_wallet_restore_blockheight }),
            (
                BobState::XmrLockProofReceived { setup, tx_lock_id, .. },
                BobEvent::XmrLockInsufficient,
            ) => Ok(BobState::CancelTimelockExpired { setup, tx_lock_id }),
            (
                BobState::XmrLockProofReceived { setup, tx_lock_id, .. },
                BobEvent::CancelTimelockFired,
            ) => Ok(BobState::CancelTimelockExpired { setup, tx_lock_id }),
            (
                BobState::XmrLocked { setup, tx_lock_id, .. },
                BobEvent::EncryptedSignatureAcked,
            ) => Ok(BobState::EncSigSent { setup, tx_lock_id }),
            (
                BobState::XmrLocked { setup, tx_lock_id, .. },
                BobEvent::CancelTimelockFired,
            ) => Ok(BobState::CancelTimelockExpired { setup, tx_lock_id }),
            (
                BobState::EncSigSent { setup, tx_lock_id },
                BobEvent::BtcRedeemSeen,
            ) => Ok(BobState::BtcRedeemed { setup, tx_lock_id }),
            (
                BobState::EncSigSent { setup, tx_lock_id },
                BobEvent::CancelTimelockFired,
            ) => Ok(BobState::CancelTimelockExpired { setup, tx_lock_id }),
            (
                BobState::BtcRedeemed { setup, tx_lock_id },
                BobEvent::XmrSwept,
            ) => Ok(BobState::XmrRedeemed { tx_lock_id }),
            (
                BobState::CancelTimelockExpired { setup, tx_lock_id },
                BobEvent::CancelTxEnsured,
            ) => Ok(BobState::BtcCancelled { setup, tx_lock_id }),
            (
                BobState::BtcCancelled { setup, tx_lock_id },
                BobEvent::BtcRefundCompleted,
            ) => Ok(BobState::BtcRefunded { setup, tx_lock_id }),
            (
                BobState::BtcCancelled { setup, tx_lock_id },
                BobEvent::PunishTxSeen,
            ) => Ok(BobState::BtcPunished { tx_lock_id }),
            _ => Err(SwapError::ProtocolViolation),
        }
    }
}

/// Step the machine: the next state for this event, or the error that
/// aborts the swap task.
pub fn next_state(state: BobState, event: BobEvent) -> (r: Result<BobState, SwapError>)
    ensures
        r == spec_next(state, event),
{
    if is_complete(&state) {
        return Ok(state);
    }
    match (state, event) {
        (
            BobState::Started { btc_amount: _ },
            BobEvent::SetupCompleted { setup },
        ) => Ok(BobState::ExecutionSetupDone { setup }),
        (
            BobState::ExecutionSetupDone { setup },
            BobEvent::BtcLockBroadcast { tx_lock_id },
        ) => Ok(BobState::BtcLocked { setup, tx_lock_id }),
        (
            BobState::BtcLocked { setup, tx_lock_id },
            BobEvent::TransferProofReceived { proof, monero_wallet_restore_blockheight },
        ) => Ok(
            BobState::XmrLockProofReceived {
                setup,
                tx_lock_id,
                lock_transfer_proof: proof,
                monero_wallet_restore_blockheight,
            },
        ),
        (
            BobState::BtcLocked { setup, tx_lock_id },
            BobEvent::CancelTimelockFired,
        ) => Ok(BobState::CancelTimelockExpired { setup, tx_lock_id }),
        (
            BobState::XmrLockProofReceived {
                setup,
                tx_lock_id,
                lock_transfer_proof: _,
                monero_wallet_restore_blockheight,
            },
            BobEvent::XmrLockConfirmed,
        ) => Ok(BobState::XmrLocked { setup, tx_lock_id, monero_wallet_restore_blockheight }),
        (
            BobState::XmrLockProofReceived { setup, tx_lock_id, .. },
            BobEvent::XmrLockInsufficient,
        ) => Ok(BobState::CancelTimelockExpired { setup, tx_lock_id }),
        (
            BobState::XmrLockProofReceived { setup, tx_lock_id, .. },
            BobEvent::CancelTimelockFired,
        ) => Ok(BobState::CancelTimelockExpired { setup, tx_lock_id }),
        (
            BobState::XmrLocked { setup, tx_lock_id, .. },
            BobEvent::EncryptedSignatureAcked,
        ) => Ok(BobState::EncSigSent { setup, tx_lock_id }),
        (
            BobState::XmrLocked { setup, tx_lock_id, .. },
            BobEvent::CancelTimelockFired,
        ) => Ok(BobState::CancelTimelockExpired { setup, tx_lock_id }),
        (
            BobState::EncSigSent { setup, tx_lock_id },
            BobEvent::BtcRedeemSeen,
        ) => Ok(BobState::BtcRedeemed { setup, tx_lock_id }),
        (
            BobState::EncSigSent { setup, tx_lock_id },
            BobEvent::CancelTimelockFired,
        ) => Ok(BobState::CancelTimelockExpired { setup, tx_lock_id }),
        (
            BobState::BtcRedeemed { setup: _, tx_lock_id },
            BobEvent::XmrSwept,
        ) => Ok(BobState::XmrRedeemed { tx_lock_id }),
        (
            BobState::CancelTimelockExpired { setup, tx_lock_id },
            BobEvent::CancelTxEnsured,
        ) => Ok(BobState::BtcCancelled { setup, tx_lock_id }),
        (
            BobState::BtcCancelled { setup, tx_lock_id },
            BobEvent::BtcRefundCompleted,
        ) => Ok(BobState::BtcRefunded { setup, tx_lock_id }),
        (
            BobState::BtcCancelled { setup: _, tx_lock_id },
            BobEvent::PunishTxSeen,
        ) => Ok(BobState::BtcPunished { tx_lock_id }),
        _ => Err(SwapError::ProtocolViolation),
    }
}

/// The outside work the driver performs in a state before it can observe
/// the next event. Waits race the named event against the cancel-timelock
/// countdown; when both complete in the same poll, the on-chain evidence
/// wins.
#[derive(Debug, Clone, Copy, PartialEq, Eq, Structural)]
pub enum BobAction {
    /// Dial the maker, request a spot price and run the execution setup.
    RequestQuoteAndSetup,
    /// Dial the maker again, then sign and broadcast the lock transaction.
    LockBtc,
    /// Record the Monero tip, then await the transfer proof or cancel.
    AwaitTransferProofOrCancel,
    /// Watch the Monero lock for finality and amount, or cancel.
    WatchXmrLockOrCancel,
    /// Send the encrypted signature until acked, or cancel.
    SendEncSigOrCancel,
    /// Watch the chain for the maker's redeem transaction, or cancel.
    WatchRedeemOrCancel,
    /// Claim the Monero with the revealed scalar, refresh, sweep it to the
    /// receive address.
    ClaimAndSweepXmr,
    /// Broadcast the cancel transaction unless it is already on-chain.
    EnsureCancelOnChain,
    /// Check which timelock applies and refund, or record the punish.
    ResolveCancel,
    /// Terminal: nothing left to do.
    NoWork,
}

/// The action each state asks of the driver.
pub fn action_of(state: &BobState) -> (a: BobAction)
    ensures
        state is Started ==> a == BobAction::RequestQuoteAndSetup,
        state is ExecutionSetupDone ==> a == BobAction::LockBtc,
        state is BtcLocked ==> a == BobAction::AwaitTransferProofOrCancel,
        state is XmrLockProofReceived ==> a == BobAction::WatchXmrLockOrCancel,
        state is XmrLocked ==> a == BobAction::SendEncSigOrCancel,
        state is EncSigSent ==> a == BobAction::WatchRedeemOrCancel,
        state is BtcRedeemed ==> a == BobAction::ClaimAndSweepXmr,
        state is CancelTimelockExpired ==> a == BobAction::EnsureCancelOnChain,
        state is BtcCancelled ==> a == BobAction::ResolveCancel,
        spec_is_complete(*state) ==> a == BobAction::NoWork,
{
    match state {
        BobState::Started { .. } => BobAction::RequestQuoteAndSetup,
        BobState::ExecutionSetupDone { .. } => BobAction::LockBtc,
        BobState::BtcLocked { .. } => BobAction::AwaitTransferProofOrCancel,
        BobState::XmrLockProofReceived { .. } => BobAction::WatchXmrLockOrCancel,
        BobState::XmrLocked { .. } => BobAction::SendEncSigOrCancel,
        BobState::EncSigSent { .. } => BobAction::WatchRedeemOrCancel,
        BobState::BtcRedeemed { .. } => BobAction::ClaimAndSweepXmr,
        BobState::CancelTimelockExpired { .. } => BobAction::EnsureCancelOnChain,
        BobState::BtcCancelled { .. } => BobAction::ResolveCancel,
        BobState::BtcRefunded { .. } => BobAction::NoWork,
        BobState::XmrRedeemed { .. } => BobAction::NoWork,
        BobState::BtcPunished { .. } => BobAction::NoWork,
        BobState::SafelyAborted => BobAction::NoWork,
    }
}

/// Which way the swap leaves the cancelled state.
#[derive(Debug, Clone, Copy, PartialEq, Eq, Structural)]
pub enum CancelBranch {
    /// The cancel window is open: refund the Bitcoin.
    Refund,
    /// The punish window is open: the maker may already have punished.
    Punish,
}

/// Decide the branch after cancellation. Reaching the cancelled state while
/// neither timelock has expired violates an internal invariant and aborts
/// the swap task.
pub fn refund_or_punish(epoch: ExpiredTimelocks) -> (r: Result<CancelBranch, SwapError>)
    ensures
        epoch is Neither ==> r == Err::<CancelBranch, SwapError>(SwapError::InvariantViolation),
        epoch is Cancel ==> r == Ok::<CancelBranch, SwapError>(CancelBranch::Refund),
        epoch is Punish ==> r == Ok::<CancelBranch, SwapError>(CancelBranch::Punish),
{
    match epoch {
        ExpiredTimelocks::Neither => Err(SwapError::InvariantViolation),
        ExpiredTimelocks::Cancel => Ok(CancelBranch::Refund),
        ExpiredTimelocks::Punish => Ok(CancelBranch::Punish),
    }
}

/// The edges of the taker's state graph, by variant.
pub open spec fn bob_edge(a: BobState, b: BobState) -> bool {
    ||| (a is Started && b is ExecutionSetupDone)
    ||| (a is ExecutionSetupDone && b is BtcLocked)
    ||| (a is BtcLocked && b is XmrLockProofReceived)
    ||| (a is BtcLocked && b is CancelTimelockExpired)
    ||| (a is XmrLockProofReceived && b is XmrLocked)
    ||| (a is XmrLockProofReceived && b is CancelTimelockExpired)
    ||| (a is XmrLocked && b is EncSigSent)
    ||| (a is XmrLocked && b is CancelTimelockExpired)
    ||| (a is EncSigSent && b is BtcRedeemed)
    ||| (a is EncSigSent && b is CancelTimelockExpired)
    ||| (a is BtcRedeemed && b is XmrRedeemed)
    ||| (a is CancelTimelockExpired && b is BtcCancelled)
    ||| (a is BtcCancelled && b is BtcRefunded)
    ||| (a is BtcCancelled && b is BtcPunished)
}

/// Every transition either stays put or follows an edge of the state
/// graph: whatever events a driver feeds the machine, the persisted
/// sequence of states is a path in the graph. From a state that is not
/// terminal, every accepted event moves along an edge.
pub proof fn lemma_next_follows_graph(state: BobState, event: BobEvent)
    ensures
        spec_next(state, event) matches Ok(next) ==> next == state || bob_edge(state, next),
        !spec_is_complete(state) ==> (spec_next(state, event) matches Ok(next) ==> bob_edge(
            state,
            next,
        )),
{
}

/// The states a driver persists, in order, form a walk along the edges of
/// the state graph starting at the initial state.
pub open spec fn valid_path(initial: BobState, trace: Seq<BobState>) -> bool {
    &&& trace.len() > 0 ==> bob_edge(initial, trace[0])
    &&& forall|i: int| 0 <= i < trace.len() - 1 ==> bob_edge(#[trigger] trace[i], trace[i + 1])
}

/// What driving the machine over a sequence of events yields: the states
/// it passes through, and the final state or the error of the first
/// rejected event.
pub open spec fn spec_run(state: BobState, events: Seq<BobEvent>) -> (
    Seq<BobState>,
    Result<BobState, SwapError>,
)
    decreases events.len(),
{
    if events.len() == 0 || spec_is_complete(state) {
        (Seq::<BobState>::empty(), Ok(state))
    } else {
        match spec_next(state, events[0]) {
            Ok(next) => {
                let rest = spec_run(next, events.skip(1));
                (seq![next] + rest.0, rest.1)
            },
            Err(e) => (Seq::<BobState>::empty(), Err(e)),
        }
    }
}

/// Drive one swap over a sequence of observed events, recording every new
/// state under the swap's id before taking the next step, exactly as the
/// swap task does between its suspension points.
///
/// Stops when the state is terminal, when the events are exhausted, or at
/// the first rejected event. The returned trace is the sequence of states
/// that was persisted: always a prefix of a valid path through the state
/// graph, and the store ends up holding exactly its last entry.
pub fn run_swap(swap_id: u64, initial: BobState, events: &Vec<BobEvent>, db: &mut Database) -> (r:
    (Vec<BobState>, Result<BobState, SwapError>))
    requires
        old(db).wf(),
    ensures
        final(db).wf(),
        r.0@ == spec_run(initial, events@).0,
        r.1 == spec_run(initial, events@).1,
        valid_path(initial, r.0@),
        r.0@.len() == 0 ==> final(db)@ == old(db)@,
        r.0@.len() > 0 ==> final(db)@ == old(db)@.insert(
            swap_id,
            crate::database::Swap::Bob(r.0@.last()),
        ),
        r.1 matches Ok(s) ==> s == (if r.0@.len() == 0 {
            initial
        } else {
            r.0@.last()
        }),
{
    let mut state = initial;
    let mut trace: Vec<BobState> = Vec::new();
    let mut i: usize = 0;
    proof {
        assert(events@.skip(0) =~= events@);
        assert(trace@ + spec_run(state, events@.skip(0)).0 =~= spec_run(initial, events@).0);
    }
    while i < events.len() && !is_complete(&state)
        invariant
            db.wf(),
            i <= events@.len(),
            valid_path(initial, trace@),
            trace@ + spec_run(state, events@.skip(i as int)).0 == spec_run(initial, events@).0,
            spec_run(state, events@.skip(i as int)).1 == spec_run(initial, events@).1,
            state == (if trace@.len() == 0 {
                initial
            } else {
                trace@.last()
            }),
            trace@.len() == 0 ==> db@ == old(db)@,
            trace@.len() > 0 ==> db@ == old(db)@.insert(
                swap_id,
                crate::database::Swap::Bob(trace@.last()),
            ),
        decreases events@.len() - i,
    {
        proof {
            assert(events@.skip(i as int)[0] == events@[i as int]);
            assert(events@.skip(i as int).skip(1) =~= events@.skip(i + 1 as int));
        }
        match next_state(state, events[i]) {
            Ok(next) => {
                proof {
                    lemma_next_follows_graph(state, events@[i as int]);
                    assert((trace@ + seq![next]) + spec_run(next, events@.skip(i + 1 as int)).0
                        =~= trace@ + spec_run(state, events@.skip(i as int)).0);
                }
                db.insert_latest_state(swap_id, crate::database::Swap::Bob(next));
                trace.push(next);
                state = next;
            },
            Err(e) => {
                proof {
                    assert(trace@ + spec_run(state, events@.skip(i as int)).0 =~= trace@);
                }
                return (trace, Err(e));
            },
        }
        i = i + 1;
    }
    proof {
        assert(events@.skip(i as int).len() == 0 || spec_is_complete(state));
        assert(trace@ + spec_run(state, events@.skip(i as int)).0 =~= trace@);
    }
    (trace, Ok(state))
}

/// Terminal states are fixed points: once complete, every event leaves the
/// state unchanged.
pub proof fn lemma_terminal_fixed(state: BobState, event: BobEvent)
    requires
        spec_is_complete(state),
    ensures
        spec_next(state, event) == Ok::<BobState, SwapError>(state),
{
}

/// The Monero is only ever claimed after the maker's redeem transaction
/// was seen on-chain: in every persisted path the state just before
/// `XmrRedeemed` is `BtcRedeemed`, so the scalar the claim needs is
/// already revealed when the claim is made.
pub proof fn lemma_redeem_reveals_key(initial: BobState, trace: Seq<BobState>)
    requires
        valid_path(initial, trace),
        trace.len() > 0,
        trace.last() is XmrRedeemed,
    ensures
        trace.len() == 1 ==> initial is BtcRedeemed,
        trace.len() > 1 ==> trace[trace.len() - 2] is BtcRedeemed,
{
}

} // verus!
