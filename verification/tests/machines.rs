use swap::alice;
use swap::alice::{AliceEvent, AliceState};
use swap::bob;
use swap::bob::{action_of, refund_or_punish, run_swap, BobAction, BobEvent, BobState, CancelBranch};
use swap::codec::TransferProof;
use swap::database::{Database, Swap};
use swap::monero::{evaluate_transfer, TransferStatus};
use swap::protocol::{Setup, SwapError};
use swap::timelock::ExpiredTimelocks;
use swap::wallet::TxId;

fn setup() -> Setup {
    Setup::new(1_000_000, 10_000_000_000_000, 10, 20, 7)
}

#[test]
fn happy_path_ends_in_xmr_redeemed_for_the_taker() {
    let mut db = Database::new();
    let proof = TransferProof { tx_hash: 11, tx_key: 22 };
    let events = vec![
        BobEvent::SetupCompleted { setup: setup() },
        BobEvent::BtcLockBroadcast { tx_lock_id: TxId(42) },
        BobEvent::TransferProofReceived { proof, monero_wallet_restore_blockheight: 2_000_000 },
        BobEvent::XmrLockConfirmed,
        BobEvent::EncryptedSignatureAcked,
        BobEvent::BtcRedeemSeen,
        BobEvent::XmrSwept,
    ];
    let (trace, result) = run_swap(5, BobState::Started { btc_amount: 1_000_000 }, &events, &mut db);

    assert_eq!(result, Ok(BobState::XmrRedeemed { tx_lock_id: TxId(42) }));
    assert_eq!(trace.len(), 7);
    assert_eq!(trace[0], BobState::ExecutionSetupDone { setup: setup() });
    assert_eq!(trace[1], BobState::BtcLocked { setup: setup(), tx_lock_id: TxId(42) });
    assert_eq!(trace[6], BobState::XmrRedeemed { tx_lock_id: TxId(42) });
    assert_eq!(
        db.get_state(5),
        Some(Swap::Bob(BobState::XmrRedeemed { tx_lock_id: TxId(42) }))
    );
}

#[test]
fn happy_path_ends_in_btc_redeemed_for_the_maker() {
    let mut state = AliceState::Started { btc_amount: 1_000_000 };
    let proof = TransferProof { tx_hash: 11, tx_key: 22 };
    let events = vec![
        AliceEvent::SetupCompleted { setup: setup() },
        AliceEvent::BtcLockSeen { tx_lock_id: TxId(42) },
        AliceEvent::BtcLockFinal,
        AliceEvent::XmrLockBroadcast { transfer_proof: proof },
        AliceEvent::TransferProofAcked,
        AliceEvent::EncSigReceived { tx_redeem_encsig: 77 },
        AliceEvent::RedeemConfirmed,
    ];
    for event in events {
        state = alice::next_state(state, event).unwrap();
    }
    assert_eq!(state, AliceState::BtcRedeemed { tx_lock_id: TxId(42) });
    assert!(alice::is_complete(&state));
}

#[test]
fn unreachable_maker_leaves_setup_done_and_no_btc_locked() {
    // Every dial fails, so the driver never observes an event.
    let mut db = Database::new();
    let events: Vec<BobEvent> = vec![];
    let initial = BobState::ExecutionSetupDone { setup: setup() };
    let (trace, result) = run_swap(5, initial, &events, &mut db);

    assert_eq!(result, Ok(initial));
    assert!(trace.is_empty());
    assert_eq!(db.get_state(5), None);
}

#[test]
fn cancel_path_refunds_the_taker() {
    let mut db = Database::new();
    let initial = BobState::BtcLocked { setup: setup(), tx_lock_id: TxId(42) };
    let events = vec![
        BobEvent::CancelTimelockFired,
        BobEvent::CancelTxEnsured,
        BobEvent::BtcRefundCompleted,
    ];
    let (trace, result) = run_swap(5, initial, &events, &mut db);

    assert_eq!(
        trace,
        vec![
            BobState::CancelTimelockExpired { setup: setup(), tx_lock_id: TxId(42) },
            BobState::BtcCancelled { setup: setup(), tx_lock_id: TxId(42) },
            BobState::BtcRefunded { setup: setup(), tx_lock_id: TxId(42) },
        ]
    );
    assert_eq!(result, Ok(BobState::BtcRefunded { setup: setup(), tx_lock_id: TxId(42) }));
}

#[test]
fn punish_path_traverses_the_maker_states() {
    let mut db = Database::new();
    let initial = AliceState::BtcLocked { setup: setup(), tx_lock_id: TxId(42) };
    let events = vec![
        AliceEvent::CancelTimelockFired,
        AliceEvent::CancelTxEnsured,
        AliceEvent::PunishTimelockFired,
        AliceEvent::PunishConfirmed,
    ];
    let (trace, result) = alice::run_swap(8, initial, &events, &mut db);
    assert_eq!(
        trace,
        vec![
            AliceState::CancelTimelockExpired { setup: setup(), tx_lock_id: TxId(42) },
            AliceState::BtcCancelled { setup: setup(), tx_lock_id: TxId(42) },
            AliceState::BtcPunishable { setup: setup(), tx_lock_id: TxId(42) },
            AliceState::BtcPunished { tx_lock_id: TxId(42) },
        ]
    );
    assert_eq!(result, Ok(AliceState::BtcPunished { tx_lock_id: TxId(42) }));
    assert_eq!(
        db.get_state(8),
        Some(Swap::Alice(AliceState::BtcPunished { tx_lock_id: TxId(42) }))
    );
}

#[test]
fn maker_refund_path_recovers_the_monero() {
    let mut state = AliceState::BtcCancelled { setup: setup(), tx_lock_id: TxId(42) };
    state = alice::next_state(state, AliceEvent::RefundSeen).unwrap();
    assert_eq!(state, AliceState::BtcRefunded { setup: setup(), tx_lock_id: TxId(42) });
    assert_eq!(alice::action_of(&state), alice::AliceAction::SweepXmrBack);
    state = alice::next_state(state, AliceEvent::XmrSweptBack).unwrap();
    assert_eq!(state, AliceState::XmrRefunded { tx_lock_id: TxId(42) });
    assert!(alice::is_complete(&state));
}

#[test]
fn short_monero_lock_fails_the_watch_with_insufficient_funds() {
    // The maker locked half of the agreed amount: the watch fails at once,
    // however deep the transfer already is.
    let agreed: u64 = 10_000_000_000_000;
    assert_eq!(
        evaluate_transfer(agreed, agreed / 2, 100, 10),
        TransferStatus::InsufficientFunds
    );
    assert_eq!(evaluate_transfer(agreed, agreed, 9, 10), TransferStatus::Pending);
    assert_eq!(evaluate_transfer(agreed, agreed, 10, 10), TransferStatus::Locked);
}

#[test]
fn short_monero_lock_routes_through_cancel() {
    let proof = TransferProof { tx_hash: 11, tx_key: 22 };
    let state = BobState::XmrLockProofReceived {
        setup: setup(),
        tx_lock_id: TxId(42),
        lock_transfer_proof: proof,
        monero_wallet_restore_blockheight: 2_000_000,
    };
    let next = bob::next_state(state, BobEvent::XmrLockInsufficient).unwrap();
    assert_eq!(next, BobState::CancelTimelockExpired { setup: setup(), tx_lock_id: TxId(42) });
}

#[test]
fn driver_stops_at_the_first_rejected_event() {
    let mut db = Database::new();
    let initial = BobState::BtcLocked { setup: setup(), tx_lock_id: TxId(42) };
    let events = vec![BobEvent::CancelTimelockFired, BobEvent::XmrSwept];
    let (trace, result) = run_swap(5, initial, &events, &mut db);

    // The first transition was persisted; the rejected event changed nothing.
    assert_eq!(
        trace,
        vec![BobState::CancelTimelockExpired { setup: setup(), tx_lock_id: TxId(42) }]
    );
    assert_eq!(result, Err(SwapError::ProtocolViolation));
    assert_eq!(
        db.get_state(5),
        Some(Swap::Bob(BobState::CancelTimelockExpired { setup: setup(), tx_lock_id: TxId(42) }))
    );
}

#[test]
fn driver_stops_consuming_events_once_complete() {
    let mut db = Database::new();
    let initial = BobState::BtcRedeemed { setup: setup(), tx_lock_id: TxId(42) };
    let events = vec![BobEvent::XmrSwept, BobEvent::CancelTimelockFired];
    let (trace, result) = run_swap(5, initial, &events, &mut db);

    assert_eq!(trace, vec![BobState::XmrRedeemed { tx_lock_id: TxId(42) }]);
    assert_eq!(result, Ok(BobState::XmrRedeemed { tx_lock_id: TxId(42) }));
}

#[test]
fn terminal_states_ignore_every_event() {
    let terminal = BobState::XmrRedeemed { tx_lock_id: TxId(42) };
    assert_eq!(bob::next_state(terminal, BobEvent::CancelTimelockFired), Ok(terminal));
    assert_eq!(bob::next_state(BobState::SafelyAborted, BobEvent::XmrSwept), Ok(BobState::SafelyAborted));

    let terminal = AliceState::BtcPunished { tx_lock_id: TxId(42) };
    assert_eq!(alice::next_state(terminal, AliceEvent::RefundSeen), Ok(terminal));
}

#[test]
fn mismatched_event_is_a_protocol_violation() {
    let state = BobState::Started { btc_amount: 1 };
    assert_eq!(bob::next_state(state, BobEvent::XmrSwept), Err(SwapError::ProtocolViolation));
    let state = AliceState::Negotiated { setup: setup() };
    assert_eq!(
        alice::next_state(state, AliceEvent::PunishConfirmed),
        Err(SwapError::ProtocolViolation)
    );
}

#[test]
fn cancelled_before_expiry_is_an_invariant_violation() {
    assert_eq!(
        refund_or_punish(ExpiredTimelocks::Neither),
        Err(SwapError::InvariantViolation)
    );
    assert_eq!(refund_or_punish(ExpiredTimelocks::Cancel), Ok(CancelBranch::Refund));
    assert_eq!(refund_or_punish(ExpiredTimelocks::Punish), Ok(CancelBranch::Punish));
}

#[test]
fn actions_follow_the_state() {
    assert_eq!(
        action_of(&BobState::Started { btc_amount: 1 }),
        BobAction::RequestQuoteAndSetup
    );
    assert_eq!(action_of(&BobState::ExecutionSetupDone { setup: setup() }), BobAction::LockBtc);
    assert_eq!(
        action_of(&BobState::BtcLocked { setup: setup(), tx_lock_id: TxId(1) }),
        BobAction::AwaitTransferProofOrCancel
    );
    assert_eq!(action_of(&BobState::SafelyAborted), BobAction::NoWork);
}

#[test]
fn setup_failure_before_broadcast_aborts_the_maker_safely() {
    let next = alice::next_state(AliceState::Started { btc_amount: 1 }, AliceEvent::SetupFailed);
    assert_eq!(next, Ok(AliceState::SafelyAborted));
}

#[test]
fn persisting_a_state_and_reading_it_back_yields_it() {
    let mut db = Database::new();
    let first = Swap::Bob(BobState::Started { btc_amount: 1 });
    let second = Swap::Bob(BobState::ExecutionSetupDone { setup: setup() });
    let other = Swap::Alice(AliceState::Started { btc_amount: 9 });

    db.insert_latest_state(1, first);
    db.insert_latest_state(2, other);
    assert_eq!(db.get_state(1), Some(first));

    // A later transition replaces the record; nothing else moves.
    db.insert_latest_state(1, second);
    assert_eq!(db.get_state(1), Some(second));
    assert_eq!(db.get_state(2), Some(other));
    assert_eq!(db.get_state(3), None);

    let all = db.all();
    assert_eq!(all, vec![(1, second), (2, other)]);
}
