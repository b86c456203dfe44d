use swap::timelock::{expired_timelocks, ExpiredTimelocks};
use swap::wallet::{
    find_transaction_fee, finality_progress, newest_block_height, status_changed, status_from_history,
    status_of_script, update_script_histories, Confirmed, HistoryEntry, ScriptStatus, TxId, Watchable,
};

#[test]
fn given_depth_0_should_meet_confirmation_target_one() {
    let script = ScriptStatus::Confirmed(Confirmed { depth: 0 });

    let confirmed = script.is_confirmed_with(1);

    assert!(confirmed)
}

#[test]
fn given_confirmations_1_should_meet_confirmation_target_one() {
    let script = ScriptStatus::from_confirmations(1);

    let confirmed = script.is_confirmed_with(1);

    assert!(confirmed)
}

#[test]
fn given_inclusion_after_lastest_known_block_at_least_depth_0() {
    let included_in = 10;
    let latest_block = 9;

    let confirmed = Confirmed::from_inclusion_and_latest_block(included_in, latest_block);

    assert_eq!(confirmed.depth, 0)
}

#[test]
fn depth_is_difference_of_tip_and_inclusion_height() {
    let confirmed = Confirmed::from_inclusion_and_latest_block(100, 105);
    assert_eq!(confirmed.depth, 5);
    assert_eq!(confirmed.confirmations(), 6);
}

#[test]
fn confirmation_accounting_as_tip_advances() {
    // Lock transaction mined at height 100 while the tip is 100.
    let at_tip = Confirmed::from_inclusion_and_latest_block(100, 100);
    assert_eq!(at_tip.depth, 0);
    assert!(ScriptStatus::Confirmed(at_tip).is_confirmed_with(1));

    // The tip advances to 105.
    let deeper = Confirmed::from_inclusion_and_latest_block(100, 105);
    assert_eq!(deeper.depth, 5);
    let status = ScriptStatus::Confirmed(deeper);
    assert!(status.is_confirmed_with(6));
    assert!(!status.is_confirmed_with(7));
}

#[test]
fn from_confirmations_one_produces_depth_zero() {
    let status = ScriptStatus::from_confirmations(1);
    assert_eq!(status, ScriptStatus::Confirmed(Confirmed { depth: 0 }));
}

#[test]
fn from_confirmations_zero_is_in_mempool() {
    assert_eq!(ScriptStatus::from_confirmations(0), ScriptStatus::InMempool);
}

#[test]
fn mempool_and_confirmed_have_been_seen_unseen_has_not() {
    assert!(ScriptStatus::InMempool.has_been_seen());
    assert!(ScriptStatus::Confirmed(Confirmed { depth: 3 }).has_been_seen());
    assert!(!ScriptStatus::Unseen.has_been_seen());
    assert!(!ScriptStatus::InMempool.is_confirmed());
    assert!(ScriptStatus::Confirmed(Confirmed { depth: 0 }).is_confirmed());
}

#[test]
fn history_without_matching_row_is_unseen() {
    let history = vec![HistoryEntry { tx_hash: TxId(9), height: 5 }];
    let (status, warn) = status_from_history(&history, TxId(1), 10);
    assert_eq!(status, ScriptStatus::Unseen);
    assert!(!warn);
}

#[test]
fn history_row_at_height_zero_is_in_mempool() {
    let history = vec![HistoryEntry { tx_hash: TxId(1), height: 0 }];
    let (status, warn) = status_from_history(&history, TxId(1), 10);
    assert_eq!(status, ScriptStatus::InMempool);
    assert!(!warn);
}

#[test]
fn history_row_with_positive_height_is_confirmed() {
    let history = vec![HistoryEntry { tx_hash: TxId(1), height: 95 }];
    let (status, warn) = status_from_history(&history, TxId(1), 100);
    assert_eq!(status, ScriptStatus::Confirmed(Confirmed { depth: 5 }));
    assert!(!warn);
}

#[test]
fn two_matching_history_rows_use_the_last_and_warn() {
    let history = vec![
        HistoryEntry { tx_hash: TxId(1), height: 90 },
        HistoryEntry { tx_hash: TxId(2), height: 91 },
        HistoryEntry { tx_hash: TxId(1), height: 95 },
    ];
    let (status, warn) = status_from_history(&history, TxId(1), 100);
    assert_eq!(status, ScriptStatus::Confirmed(Confirmed { depth: 5 }));
    assert!(warn);
}

#[test]
fn neither_timelock_expired_while_lock_is_shallow() {
    let lock = ScriptStatus::Confirmed(Confirmed { depth: 3 });
    let cancel = ScriptStatus::Unseen;
    assert_eq!(expired_timelocks(10, 20, lock, cancel), ExpiredTimelocks::Neither);
}

#[test]
fn cancel_timelock_expires_after_ten_blocks_on_the_lock() {
    let lock = ScriptStatus::Confirmed(Confirmed { depth: 9 });
    let cancel = ScriptStatus::Unseen;
    assert_eq!(expired_timelocks(10, 20, lock, cancel), ExpiredTimelocks::Cancel);
}

#[test]
fn punish_timelock_expires_after_twenty_blocks_on_the_cancel() {
    let lock = ScriptStatus::Confirmed(Confirmed { depth: 30 });
    let cancel = ScriptStatus::Confirmed(Confirmed { depth: 19 });
    assert_eq!(expired_timelocks(10, 20, lock, cancel), ExpiredTimelocks::Punish);
}

#[test]
fn finality_progress_announces_only_growth() {
    let status = ScriptStatus::Confirmed(Confirmed { depth: 1 });
    let (met, seen, announce) = finality_progress(status, 3, 0);
    assert!(!met);
    assert_eq!(seen, 2);
    assert!(announce);

    // Same confirmations again: nothing new to announce.
    let (met, seen, announce) = finality_progress(status, 3, 2);
    assert!(!met);
    assert_eq!(seen, 2);
    assert!(!announce);

    let (met, seen, announce) = finality_progress(ScriptStatus::Confirmed(Confirmed { depth: 2 }), 3, 2);
    assert!(met);
    assert_eq!(seen, 3);
    assert!(announce);

    let (met, seen, announce) = finality_progress(ScriptStatus::InMempool, 3, 2);
    assert!(!met);
    assert_eq!(seen, 2);
    assert!(!announce);
}

#[test]
fn anything_yielding_id_and_script_is_watchable() {
    let tx = (TxId(1), 99u64);
    assert_eq!(tx.id(), TxId(1));
    assert_eq!(tx.script(), 99);

    let history = vec![HistoryEntry { tx_hash: TxId(1), height: 95 }];
    let (status, warn) = status_of_script(&tx, &history, 100);
    assert_eq!(status, ScriptStatus::Confirmed(Confirmed { depth: 5 }));
    assert!(!warn);
}

#[test]
fn draining_notifications_keeps_only_the_newest() {
    assert_eq!(newest_block_height(&vec![], 100), 100);
    assert_eq!(newest_block_height(&vec![101, 103, 102], 100), 102);
}

#[test]
fn batch_response_must_answer_every_watched_script() {
    let one_row = vec![HistoryEntry { tx_hash: TxId(1), height: 5 }];
    let table = update_script_histories(&vec![10, 20], vec![vec![], one_row.clone()]);
    assert_eq!(table, Some(vec![(10, vec![]), (20, one_row)]));

    let mismatched = update_script_histories(&vec![10, 20], vec![vec![]]);
    assert_eq!(mismatched, None);
}

#[test]
fn transaction_fee_is_found_by_id() {
    let transactions = vec![(TxId(1), 100), (TxId(2), 250)];
    assert_eq!(find_transaction_fee(&transactions, TxId(2)), Some(250));
    assert_eq!(find_transaction_fee(&transactions, TxId(3)), None);
}

#[test]
fn status_change_is_logged_only_on_change() {
    assert!(status_changed(&None, ScriptStatus::InMempool));
    assert!(!status_changed(&Some(ScriptStatus::InMempool), ScriptStatus::InMempool));
    assert!(status_changed(
        &Some(ScriptStatus::InMempool),
        ScriptStatus::Confirmed(Confirmed { depth: 0 })
    ));
}
