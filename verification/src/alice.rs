//! The maker's swap state machine.
//!
//! Mirrors the taker's machine: a pure transition function from state and
//! observed event to the next state. The maker sells Monero for Bitcoin and
//! bounds its risk with the cancel and punish timelocks.

use vstd::prelude::*;
use crate::codec::TransferProof;
use crate::database::Database;
use crate::protocol::{Setup, SwapError};
use crate::wallet::TxId;

verus! {

/// The maker's view of a swap.
#[derive(Debug, Clone, Copy, PartialEq, Eq, Structural)]
pub enum AliceState {
    /// A connection was accepted; the quote is being negotiated.
    Started { btc_amount: u64 },
    /// Execution setup finished; the shared cryptographic state is
    /// recorded.
    Negotiated { setup: Setup },
    /// The taker's lock transaction appeared.
    BtcLockTransactionSeen { setup: Setup, tx_lock_id: TxId },
    /// The taker's lock transaction reached finality.
    BtcLocked { setup: Setup, tx_lock_id: TxId },
    /// The Monero lock transaction is broadcast; its transfer proof is
    /// recorded at once so crash recovery cannot double-spend.
    XmrLockTransactionSent { setup: Setup, tx_lock_id: TxId, transfer_proof: TransferProof },
    /// The taker acknowledged the transfer proof.
    XmrLocked { setup: Setup, tx_lock_id: TxId },
    /// The taker's encrypted redeem signature arrived.
    EncSigLearned { setup: Setup, tx_lock_id: TxId, tx_redeem_encsig: u64 },
    /// The redeem transaction is final: the maker holds the Bitcoin.
    BtcRedeemed { tx_lock_id: TxId },
    /// The cancel timelock elapsed before the happy path finished.
    CancelTimelockExpired { setup: Setup, tx_lock_id: TxId },
    /// The cancel transaction is on-chain.
    BtcCancelled { setup: Setup, tx_lock_id: TxId },
    /// The taker's refund transaction was observed; it reveals what the
    /// maker needs to recover the locked Monero.
    BtcRefunded { setup: Setup, tx_lock_id: TxId },
    /// The locked Monero is swept back to the maker.
    XmrRefunded { tx_lock_id: TxId },
    /// The punish timelock elapsed and the taker never refunded.
    BtcPunishable { setup: Setup, tx_lock_id: TxId },
    /// The punish transaction is confirmed: the maker keeps the Bitcoin.
    BtcPunished { tx_lock_id: TxId },
    /// Nothing was ever broadcast; the swap ended without touching funds.
    SafelyAborted,
}

/// The maker's terminal states.
pub open spec fn spec_is_complete(state: AliceState) -> bool {
    ||| state is BtcRedeemed
    ||| state is XmrRefunded
    ||| state is BtcPunished
    ||| state is SafelyAborted
}

pub fn is_complete(state: &AliceState) -> (r: bool)
    ensures
        r == spec_is_complete(*state),
{
    matches!(
        state,
        AliceState::BtcRedeemed { .. }
            | AliceState::XmrRefunded { .. }
            | AliceState::BtcPunished { .. }
            | AliceState::SafelyAborted
    )
}

/// What the maker's driver observed while performing the current state's
/// action.
#[derive(Debug, Clone, Copy, PartialEq, Eq, Structural)]
pub enum AliceEvent {
    /// Quote accepted and execution setup finished.
    SetupCompleted { setup: Setup },
    /// Setup failed before anything was broadcast.
    SetupFailed,
    /// The taker's lock transaction appeared in the mempool.
    BtcLockSeen { tx_lock_id: TxId },
    /// The taker's lock transaction reached the finality target.
    BtcLockFinal,
    /// The Monero lock transaction is broadcast.
    XmrLockBroadcast { transfer_proof: TransferProof },
    /// The taker acknowledged the transfer proof.
    TransferProofAcked,
    /// The taker's encrypted redeem signature arrived.
    EncSigReceived { tx_redeem_encsig: u64 },
    /// The redeem transaction reached finality.
    RedeemConfirmed,
    /// The cancel timelock elapsed, or had already elapsed when the state
    /// was entered.
    CancelTimelockFired,
    /// The cancel transaction is on-chain (broadcast first if needed).
    CancelTxEnsured,
    /// The taker's refund transaction was observed.
    RefundSeen,
    /// The recovered Monero is swept back to the maker's wallet.
    XmrSweptBack,
    /// The punish timelock elapsed without a refund.
    PunishTimelockFired,
    /// The punish transaction is confirmed.
    PunishConfirmed,
}

/// The maker's transition function. Terminal states ignore every event; a
/// state fed an event it has no transition for is a protocol violation.
///
/// The Monero lock is only ever broadcast from `BtcLocked` while the
/// cancel timelock still runs; once it is out, the proof delivery proceeds
/// even if the cancel timelock fires in parallel.
pub open spec fn spec_next(state: AliceState, event: AliceEvent) -> Result<AliceState, SwapError> {
    if spec_is_complete(state) {
        Ok(state)
    } else {
        match (state, event) {
            (
                AliceState::Started { btc_amount },
                AliceEvent::SetupCompleted { setup },
            ) => Ok(AliceState::Negotiated { setup }),
            (
                AliceState::Started { btc_amount },
                AliceEvent::SetupFailed,
            ) => Ok(AliceState::SafelyAborted),
            (
                AliceState::Negotiated { setup },
                AliceEvent::BtcLockSeen { tx_lock_id },
            ) => Ok(AliceState::BtcLockTransactionSeen { setup, tx_lock_id }),
            (
                AliceState::BtcLockTransactionSeen { setup, tx_lock_id },
                AliceEvent::BtcLockFinal,
            ) => Ok(AliceState::BtcLocked { setup, tx_lock_id }),
            (
                AliceState::BtcLockTransactionSeen { setup, tx_lock_id },
                AliceEvent::CancelTimelockFired,
            ) => Ok(AliceState::CancelTimelockExpired { setup, tx_lock_id }),
            (
                AliceState::BtcLocked { setup, tx_lock_id },
                AliceEvent::XmrLockBroadcast { transfer_proof },
            ) => Ok(AliceState::XmrLockTransactionSent { setup, tx_lock_id, transfer_proof }),
            (
                AliceState::BtcLocked { setup, tx_lock_id },
                AliceEvent::CancelTimelockFired,
            ) => Ok(AliceState::CancelTimelockExpired { setup, tx_lock_id }),
            (
                AliceState::XmrLockTransactionSent { setup, tx_lock_id, transfer_proof },
                AliceEvent::TransferProofAcked,
            ) => Ok(AliceState::XmrLocked { setup, tx_lock_id }),
            (
                AliceState::XmrLocked { setup, tx_lock_id },
                AliceEvent::EncSigReceived { tx_redeem_encsig },
            ) => Ok(AliceState::EncSigLearned { setup, tx_lock_id, tx_redeem_encsig }),
            (
                AliceState::XmrLocked { setup, tx_lock_id },
                AliceEvent::CancelTimelockFired,
            ) => Ok(AliceState::CancelTimelockExpired { setup, tx_lock_id }),
            (
                AliceState::EncSigLearned { setup, tx_lock_id, tx_redeem_encsig },
                AliceEvent::RedeemConfirmed,
            ) => Ok(AliceState::BtcRedeemed { tx_lock_id }),
            (
                AliceState::EncSigLearned { setup, tx_lock_id, tx_redeem_encsig },
                AliceEvent::CancelTimelockFired,
            ) => Ok(AliceState::CancelTimelockExpired { setup, tx_lock_id }),
            (
                AliceState::CancelTimelockExpired { setup, tx_lock_id },
                AliceEvent::CancelTxEnsured,
            ) => Ok(AliceState::BtcCancelled { setup, tx_lock_id }),
            (
                AliceState::BtcCancelled { setup, tx_lock_id },
                AliceEvent::RefundSeen,
            ) => Ok(AliceState::BtcRefunded { setup, tx_lock_id }),
            (
                AliceState::BtcCancelled { setup, tx_lock_id },
                AliceEvent::PunishTimelockFired,
            ) => Ok(AliceState::BtcPunishable { setup, tx_lock_id }),
            (
                AliceState::BtcRefunded { setup, tx_lock_id },
                AliceEvent::XmrSweptBack,
            ) => Ok(AliceState::XmrRefunded { tx_lock_id }),
            (
                AliceState::BtcPunishable { setup, tx_lock_id },
                AliceEvent::PunishConfirmed,
            ) => Ok(AliceState::BtcPunished { tx_lock_id }),
            _ => Err(SwapError::ProtocolViolation),
        }
    }
}

/// Step the maker's machine.
pub fn next_state(state: AliceState, event: AliceEvent) -> (r: Result<AliceState, SwapError>)
    ensures
        r == spec_next(state, event),
{
    if is_complete(&state) {
        return Ok(state);
    }
    match (state, event) {
        (
            AliceState::Started { btc_amount: _ },
            AliceEvent::SetupCompleted { setup },
        ) => Ok(AliceState::Negotiated { setup }),
        (
            AliceState::Started { btc_amount: _ },
            AliceEvent::SetupFailed,
        ) => Ok(AliceState::SafelyAborted),
        (
            AliceState::Negotiated { setup },
            AliceEvent::BtcLockSeen { tx_lock_id },
        ) => Ok(AliceState::BtcLockTransactionSeen { setup, tx_lock_id }),
        (
            AliceState::BtcLockTransactionSeen { setup, tx_lock_id },
            AliceEvent::BtcLockFinal,
        ) => Ok(AliceState::BtcLocked { setup, tx_lock_id }),
        (
            AliceState::BtcLockTransactionSeen { setup, tx_lock_id },
            AliceEvent::CancelTimelockFired,
        ) => Ok(AliceState::CancelTimelockExpired { setup, tx_lock_id }),
        (
            AliceState::BtcLocked { setup, tx_lock_id },
            AliceEvent::XmrLockBroadcast { transfer_proof },
        ) => Ok(AliceState::XmrLockTransactionSent { setup, tx_lock_id, transfer_proof }),
        (
            AliceState::BtcLocked { setup, tx_lock_id },
            AliceEvent::CancelTimelockFired,
        ) => Ok(AliceState::CancelTimelockExpired { setup, tx_lock_id }),
        (
            AliceState::XmrLockTransactionSent { setup, tx_lock_id, transfer_proof: _ },
            AliceEvent::TransferProofAcked,
        ) => Ok(AliceState::XmrLocked { setup, tx_lock_id }),
        (
            AliceState::XmrLocked { setup, tx_lock_id },
            AliceEvent::EncSigReceived { tx_redeem_encsig },
        ) => Ok(AliceState::EncSigLearned { setup, tx_lock_id, tx_redeem_encsig }),
        (
            AliceState::XmrLocked { setup, tx_lock_id },
            AliceEvent::CancelTimelockFired,
        ) => Ok(AliceState::CancelTimelockExpired { setup, tx_lock_id }),
        (
            AliceState::EncSigLearned { setup: _, tx_lock_id, tx_redeem_encsig: _ },
            AliceEvent::RedeemConfirmed,
        ) => Ok(AliceState::BtcRedeemed { tx_lock_id }),
        (
            AliceState::EncSigLearned { setup, tx_lock_id, tx_redeem_encsig: _ },
            AliceEvent::CancelTimelockFired,
        ) => Ok(AliceState::CancelTimelockExpired { setup, tx_lock_id }),
        (
            AliceState::CancelTimelockExpired { setup, tx_lock_id },
            AliceEvent::CancelTxEnsured,
        ) => Ok(AliceState::BtcCancelled { setup, tx_lock_id }),
        (
            AliceState::BtcCancelled { setup, tx_lock_id },
            AliceEvent::RefundSeen,
        ) => Ok(AliceState::BtcRefunded { setup, tx_lock_id }),
        (
            AliceState::BtcCancelled { setup, tx_lock_id },
            AliceEvent::PunishTimelockFired,
        ) => Ok(AliceState::BtcPunishable { setup, tx_lock_id }),
        (
            AliceState::BtcRefunded { setup: _, tx_lock_id },
            AliceEvent::XmrSweptBack,
        ) => Ok(AliceState::XmrRefunded { tx_lock_id }),
        (
            AliceState::BtcPunishable { setup: _, tx_lock_id },
            AliceEvent::PunishConfirmed,
        ) => Ok(AliceState::BtcPunished { tx_lock_id }),
        _ => Err(SwapError::ProtocolViolation),
    }
}

/// The edges of the maker's state graph, by variant.
pub open spec fn alice_edge(a: AliceState, b: AliceState) -> bool {
    ||| (a is Started && b is Negotiated)
    ||| (a is Started && b is SafelyAborted)
    ||| (a is Negotiated && b is BtcLockTransactionSeen)
    ||| (a is BtcLockTransactionSeen && b is BtcLocked)
    ||| (a is BtcLockTransactionSeen && b is CancelTimelockExpired)
    ||| (a is BtcLocked && b is XmrLockTransactionSent)
    ||| (a is BtcLocked && b is CancelTimelockExpired)
    ||| (a is XmrLockTransactionSent && b is XmrLocked)
    ||| (a is XmrLocked && b is EncSigLearned)
    ||| (a is XmrLocked && b is CancelTimelockExpired)
    ||| (a is EncSigLearned && b is BtcRedeemed)
    ||| (a is EncSigLearned && b is CancelTimelockExpired)
    ||| (a is CancelTimelockExpired && b is BtcCancelled)
    ||| (a is BtcCancelled && b is BtcRefunded)
    ||| (a is BtcCancelled && b is BtcPunishable)
    ||| (a is BtcRefunded && b is XmrRefunded)
    ||| (a is BtcPunishable && b is BtcPunished)
}

/// Every transition either stays put or follows an edge of the graph.
/// From a state that is not terminal, every accepted event moves along an
/// edge.
pub proof fn lemma_next_follows_graph(state: AliceState, event: AliceEvent)
    ensures
        spec_next(state, event) matches Ok(next) ==> next == state || alice_edge(state, next),
        !spec_is_complete(state) ==> (spec_next(state, event) matches Ok(next) ==> alice_edge(
            state,
            next,
        )),
{
}

/// The outside work the maker's driver performs in a state. Waits race the
/// named event against the cancel-timelock countdown; on-chain evidence
/// wins a tie.
#[derive(Debug, Clone, Copy, PartialEq, Eq, Structural)]
pub enum AliceAction {
    /// Answer the quote and run the execution setup.
    RunQuoteAndSetup,
    /// Watch the mempool for the taker's lock transaction.
    WatchForBtcLock,
    /// Wait for the lock transaction's finality, or cancel.
    AwaitBtcLockFinalityOrCancel,
    /// Broadcast the Monero lock transaction, or cancel.
    LockXmrOrCancel,
    /// Send the transfer proof until acked; the Monero is already out, so
    /// no cancel interrupts this.
    SendTransferProof,
    /// Await the taker's encrypted signature, or cancel.
    AwaitEncSigOrCancel,
    /// Decrypt the adaptor signature, broadcast the redeem, await its
    /// finality, or cancel.
    RedeemBtcOrCancel,
    /// Broadcast the cancel transaction unless it is already on-chain.
    EnsureCancelOnChain,
    /// Watch for the taker's refund until the punish timelock elapses.
    AwaitRefundOrPunishTimelock,
    /// Recover the Monero with the revealed scalar and sweep it back.
    SweepXmrBack,
    /// Broadcast the punish transaction and await its confirmation.
    PunishBtc,
    /// Terminal: nothing left to do.
    NoWork,
}

/// The action each state asks of the maker's driver.
pub fn action_of(state: &AliceState) -> (a: AliceAction)
    ensures
        state is Started ==> a == AliceAction::RunQuoteAndSetup,
        state is Negotiated ==> a == AliceAction::WatchForBtcLock,
        state is BtcLockTransactionSeen ==> a == AliceAction::AwaitBtcLockFinalityOrCancel,
        state is BtcLocked ==> a == AliceAction::LockXmrOrCancel,
        state is XmrLockTransactionSent ==> a == AliceAction::SendTransferProof,
        state is XmrLocked ==> a == AliceAction::AwaitEncSigOrCancel,
        state is EncSigLearned ==> a == AliceAction::RedeemBtcOrCancel,
        state is CancelTimelockExpired ==> a == AliceAction::EnsureCancelOnChain,
        state is BtcCancelled ==> a == AliceAction::AwaitRefundOrPunishTimelock,
        state is BtcRefunded ==> a == AliceAction::SweepXmrBack,
        state is BtcPunishable ==> a == AliceAction::PunishBtc,
        spec_is_complete(*state) ==> a == AliceAction::NoWork,
{
    match state {
        AliceState::Started { .. } => AliceAction::RunQuoteAndSetup,
        AliceState::Negotiated { .. } => AliceAction::WatchForBtcLock,
        AliceState::BtcLockTransactionSeen { .. } => AliceAction::AwaitBtcLockFinalityOrCancel,
        AliceState::BtcLocked { .. } => AliceAction::LockXmrOrCancel,
        AliceState::XmrLockTransactionSent { .. } => AliceAction::SendTransferProof,
        AliceState::XmrLocked { .. } => AliceAction::AwaitEncSigOrCancel,
        AliceState::EncSigLearned { .. } => AliceAction::RedeemBtcOrCancel,
        AliceState::CancelTimelockExpired { .. } => AliceAction::EnsureCancelOnChain,
        AliceState::BtcCancelled { .. } => AliceAction::AwaitRefundOrPunishTimelock,
        AliceState::BtcRefunded { .. } => AliceAction::SweepXmrBack,
        AliceState::BtcPunishable { .. } => AliceAction::PunishBtc,
        AliceState::BtcRedeemed { .. } => AliceAction::NoWork,
        AliceState::XmrRefunded { .. } => AliceAction::NoWork,
        AliceState::BtcPunished { .. } => AliceAction::NoWork,
        AliceState::SafelyAborted => AliceAction::NoWork,
    }
}

/// The states the maker's driver persists form a walk along the edges of
/// the state graph starting at the initial state.
pub open spec fn valid_path(initial: AliceState, trace: Seq<AliceState>) -> bool {
    &&& trace.len() > 0 ==> alice_edge(initial, trace[0])
    &&& forall|i: int| 0 <= i < trace.len() - 1 ==> alice_edge(#[trigger] trace[i], trace[i + 1])
}

/// What driving the machine over a sequence of events yields: the states
/// it passes through, and the final state or the error of the first
/// rejected event.
pub open spec fn spec_run(state: AliceState, events: Seq<AliceEvent>) -> (
    Seq<AliceState>,
    Result<AliceState, SwapError>,
)
    decreases events.len(),
{
    if events.len() == 0 || spec_is_complete(state) {
        (Seq::<AliceState>::empty(), Ok(state))
    } else {
        match spec_next(state, events[0]) {
            Ok(next) => {
                let rest = spec_run(next, events.skip(1));
                (seq![next] + rest.0, rest.1)
            },
            Err(e) => (Seq::<AliceState>::empty(), Err(e)),
        }
    }
}

/// Drive one maker-side swap over a sequence of observed events, recording
/// every new state under the swap's id before taking the next step.
///
/// Stops when the state is terminal, when the events are exhausted, or at
/// the first rejected event. The returned trace is the persisted state
/// sequence: always a prefix of a valid path through the state graph, and
/// the store ends up holding exactly its last entry.
pub fn run_swap(swap_id: u64, initial: AliceState, events: &Vec<AliceEvent>, db: &mut Database) -> (
    r: (Vec<AliceState>, Result<AliceState, SwapError>))
    requires
        old(db).wf(),
    ensures
        final(db).wf(),
        r.0@ == spec_run(initial, events@).0,
        r.1 == spec_run(initial, events@).1,
        valid_path(initial, r.0@),
        r.0@.len() == 0 ==> final(db)@ == old(db)@,
        r.0@.len() > 0 ==> final(db)@ == old(db)@.insert(
            swap_id,
            crate::database::Swap::Alice(r.0@.last()),
        ),
        r.1 matches Ok(s) ==> s == (if r.0@.len() == 0 {
            initial
        } else {
            r.0@.last()
        }),
{
    let mut state = initial;
    let mut trace: Vec<AliceState> = Vec::new();
    let mut i: usize = 0;
    proof {
        assert(events@.skip(0) =~= events@);
        assert(trace@ + spec_run(state, events@.skip(0)).0 =~= spec_run(initial, events@).0);
    }
    while i < events.len() && !is_complete(&state)
        invariant
            db.wf(),
            i <= events@.len(),
            valid_path(initial, trace@),
            trace@ + spec_run(state, events@.skip(i as int)).0 == spec_run(initial, events@).0,
            spec_run(state, events@.skip(i as int)).1 == spec_run(initial, events@).1,
            state == (if trace@.len() == 0 {
                initial
            } else {
                trace@.last()
            }),
            trace@.len() == 0 ==> db@ == old(db)@,
            trace@.len() > 0 ==> db@ == old(db)@.insert(
                swap_id,
                crate::database::Swap::Alice(trace@.last()),
            ),
        decreases events@.len() - i,
    {
        proof {
            assert(events@.skip(i as int)[0] == events@[i as int]);
            assert(events@.skip(i as int).skip(1) =~= events@.skip(i + 1 as int));
        }
        match next_state(state, events[i]) {
            Ok(next) => {
                proof {
                    lemma_next_follows_graph(state, events@[i as int]);
                    assert((trace@ + seq![next]) + spec_run(next, events@.skip(i + 1 as int)).0
                        =~= trace@ + spec_run(state, events@.skip(i as int)).0);
                }
                db.insert_latest_state(swap_id, crate::database::Swap::Alice(next));
                trace.push(next);
                state = next;
            },
            Err(e) => {
                proof {
                    assert(trace@ + spec_run(state, events@.skip(i as int)).0 =~= trace@);
                }
                return (trace, Err(e));
            },
        }
        i = i + 1;
    }
    proof {
        assert(events@.skip(i as int).len() == 0 || spec_is_complete(state));
        assert(trace@ + spec_run(state, events@.skip(i as int)).0 =~= trace@);
    }
    (trace, Ok(state))
}

/// Terminal states are fixed points.
pub proof fn lemma_terminal_fixed(state: AliceState, event: AliceEvent)
    requires
        spec_is_complete(state),
    ensures
        spec_next(state, event) == Ok::<AliceState, SwapError>(state),
{
}

/// The maker only ever redeems after learning the taker's encrypted
/// signature: in every persisted path the state just before `BtcRedeemed`
/// is `EncSigLearned`, so the broadcast completing the adaptor signature
/// reveals the scalar the taker needs. And redeeming forecloses
/// punishing: `BtcRedeemed` has no outgoing edge, so no path continues
/// from it, in particular not to `BtcPunished`.
pub proof fn lemma_redeem_needs_enc_sig(initial: AliceState, trace: Seq<AliceState>)
    requires
        valid_path(initial, trace),
    ensures
        trace.len() == 1 && trace.last() is BtcRedeemed ==> initial is EncSigLearned,
        trace.len() > 1 && trace.last() is BtcRedeemed ==> trace[trace.len()
            - 2] is EncSigLearned,
        forall|i: int| 0 <= i < trace.len() - 1 ==> !((#[trigger] trace[i]) is BtcRedeemed),
{
}

} // verus!
