//! Status of a watched Bitcoin script: confirmation accounting and the
//! classification of a chain server's history rows for one transaction.

use vstd::prelude::*;

verus! {

/// Identifies a Bitcoin transaction among the history rows of a watched
/// script.
#[derive(Debug, Clone, Copy, PartialEq, Eq, Structural)]
pub struct TxId(pub u64);

/// A transaction that is included in a block.
#[derive(Debug, Clone, Copy, PartialEq, Eq, Structural)]
pub struct Confirmed {
    /// The depth of this transaction within the blockchain.
    ///
    /// Zero if the transaction is included in the latest block.
    pub depth: u32,
}

impl Confirmed {
    pub fn new(depth: u32) -> (r: Self)
        ensures
            r.depth == depth,
    {
        Self { depth }
    }

    /// Compute the depth of a transaction from its inclusion height and the
    /// latest known block.
    ///
    /// The latest known block may lag behind the true tip, so the depth
    /// saturates at 0 when the inclusion height exceeds it.
    pub fn from_inclusion_and_latest_block(inclusion_height: u32, latest_block: u32) -> (r: Self)
        ensures
            r.depth == Self::spec_depth(inclusion_height, latest_block),
    {
        let depth: u32 = if latest_block >= inclusion_height {
            latest_block - inclusion_height
        } else {
            0
        };

        Self { depth }
    }

    /// The saturating depth: `max(0, latest_block - inclusion_height)`.
    pub open spec fn spec_depth(inclusion_height: u32, latest_block: u32) -> u32 {
        if latest_block >= inclusion_height {
            (latest_block - inclusion_height) as u32
        } else {
            0
        }
    }

    pub fn confirmations(&self) -> (r: u32)
        requires
            self.depth < u32::MAX,
        ensures
            r == self.depth + 1,
    {
        self.depth + 1
    }

    pub fn meets_target(&self, target: u32) -> (r: bool)
        requires
            self.depth < u32::MAX,
        ensures
            r == (self.depth + 1 >= target),
    {
        self.confirmations() >= target
    }
}

/// What the chain currently says about a watched script.
#[derive(Debug, Clone, Copy, PartialEq, Eq, Structural)]
pub enum ScriptStatus {
    /// No history entry for the script.
    Unseen,
    /// A history entry exists, but at a height of zero or below: the
    /// transaction sits in the mempool.
    InMempool,
    /// The transaction is included in a block at the given depth.
    Confirmed(Confirmed),
}

impl ScriptStatus {
    pub fn from_confirmations(confirmations: u32) -> (r: Self)
        ensures
            confirmations == 0 ==> r is InMempool,
            confirmations > 0 ==> r == ScriptStatus::Confirmed(
                Confirmed { depth: (confirmations - 1) as u32 },
            ),
    {
        match confirmations {
            0 => Self::InMempool,
            confirmations => Self::Confirmed(Confirmed::new(confirmations - 1)),
        }
    }

    /// Check if the script has any confirmations.
    pub fn is_confirmed(&self) -> (r: bool)
        ensures
            r == (self is Confirmed),
    {
        matches!(self, ScriptStatus::Confirmed(_))
    }

    /// Check if the script has met the given confirmation target.
    pub fn is_confirmed_with(&self, target: u32) -> (r: bool)
        requires
            self matches ScriptStatus::Confirmed(c) ==> c.depth < u32::MAX,
        ensures
            r == (self matches ScriptStatus::Confirmed(c) && c.depth + 1 >= target),
    {
        match self {
            ScriptStatus::Confirmed(inner) => inner.meets_target(target),
            _ => false,
        }
    }

    pub fn has_been_seen(&self) -> (r: bool)
        ensures
            r == Self::spec_has_been_seen(*self),
    {
        matches!(self, ScriptStatus::InMempool | ScriptStatus::Confirmed(_))
    }

    /// A script has been seen once it has any history: in the mempool or
    /// confirmed, but never unseen.
    pub open spec fn spec_has_been_seen(s: ScriptStatus) -> bool {
        !(s is Unseen)
    }
}

/// A confirmed or mempool status counts as seen; unseen never does.
pub proof fn lemma_seen_statuses(c: Confirmed)
    ensures
        ScriptStatus::spec_has_been_seen(ScriptStatus::Confirmed(c)),
        ScriptStatus::spec_has_been_seen(ScriptStatus::InMempool),
        !ScriptStatus::spec_has_been_seen(ScriptStatus::Unseen),
{
}

/// The depth saturates: it is `max(0, latest_block - inclusion_height)`,
/// and in particular 0 whenever the inclusion height exceeds the latest
/// known block.
pub proof fn lemma_depth_saturating(inclusion_height: u32, latest_block: u32)
    ensures
        Confirmed::spec_depth(inclusion_height, latest_block) == (if latest_block - inclusion_height
            >= 0 {
            latest_block - inclusion_height
        } else {
            0
        }),
        inclusion_height >= latest_block ==> Confirmed::spec_depth(inclusion_height, latest_block)
            == 0,
{
}

/// One poll of the finality watch: decide from the script's status whether
/// the configured confirmation target is met, how many confirmations to
/// remember, and whether progress is worth announcing (only when the count
/// grew).
pub fn finality_progress(status: ScriptStatus, conf_target: u32, seen_confirmations: u32) -> (r: (
    bool,
    u32,
    bool,
))
    requires
        status matches ScriptStatus::Confirmed(c) ==> c.depth < u32::MAX,
    ensures
        r.0 == (status matches ScriptStatus::Confirmed(c) && c.depth + 1 >= conf_target),
        status matches ScriptStatus::Confirmed(c) ==> r.1 == (if c.depth + 1 > seen_confirmations {
            (c.depth + 1) as u32
        } else {
            seen_confirmations
        }) && r.2 == (c.depth + 1 > seen_confirmations),
        !(status is Confirmed) ==> r == (false, seen_confirmations, false),
{
    match status {
        ScriptStatus::Confirmed(inner) => {
            let confirmations = inner.confirmations();
            let announce = confirmations > seen_confirmations;
            let new_seen = if announce {
                confirmations
            } else {
                seen_confirmations
            };
            (inner.meets_target(conf_target), new_seen, announce)
        },
        _ => (false, seen_confirmations, false),
    }
}

/// Classify the history rows of the watched script for anything that
/// yields a transaction id and a script.
pub fn status_of_script<T: Watchable>(tx: &T, history: &Vec<HistoryEntry>, latest_block: u32) -> (r:
    (ScriptStatus, bool))
    ensures
        r.0 == spec_status_from_history(history@, tx.spec_id(), latest_block),
        r.1 == (match_count(history@, tx.spec_id()) > 1),
{
    let txid = tx.id();
    status_from_history(history, txid, latest_block)
}

/// Drain the pending block-header notifications, keeping only the newest:
/// the latest known height moves to the last pending header, or stays
/// where it is when none are pending.
pub fn newest_block_height(notifications: &Vec<u32>, current: u32) -> (r: u32)
    ensures
        notifications@.len() == 0 ==> r == current,
        notifications@.len() > 0 ==> r == notifications@.last(),
{
    if notifications.len() == 0 {
        current
    } else {
        notifications[notifications.len() - 1]
    }
}

/// Rebuild the watched-script table from a batch response. The server must
/// answer exactly one history per watched script; on a mismatch the
/// refresh fails and the old table stands.
pub fn update_script_histories(scripts: &Vec<u64>, histories: Vec<Vec<HistoryEntry>>) -> (r: Option<
    Vec<(u64, Vec<HistoryEntry>)>,
>)
    ensures
        scripts@.len() != histories@.len() ==> r is None,
        scripts@.len() == histories@.len() ==> (r matches Some(table) && table@.len()
            == scripts@.len() && forall|i: int|
            0 <= i < table@.len() ==> (#[trigger] table@[i]).0 == scripts@[i] && table@[i].1
                == histories@[i]),
{
    if scripts.len() != histories.len() {
        return None;
    }
    let n: usize = scripts.len();
    let mut rest = histories;
    let mut table: Vec<(u64, Vec<HistoryEntry>)> = Vec::new();
    let mut i: usize = 0;
    while i < n
        invariant
            n == scripts@.len(),
            n == histories@.len(),
            i <= n,
            rest@ =~= histories@.skip(i as int),
            table@.len() == i,
            forall|j: int|
                0 <= j < i ==> (#[trigger] table@[j]).0 == scripts@[j] && table@[j].1
                    == histories@[j],
        decreases n - i,
    {
        let history = rest.remove(0);
        proof {
            assert(histories@.skip(i as int)[0] == histories@[i as int]);
            assert(histories@.skip(i as int).remove(0) =~= histories@.skip(i + 1 as int));
        }
        table.push((scripts[i], history));
        i = i + 1;
    }
    Some(table)
}

/// The fee the wallet recorded for a transaction, if the transaction is in
/// the wallet's list at all; the first entry for the id decides.
pub fn find_transaction_fee(transactions: &Vec<(TxId, u64)>, txid: TxId) -> (r: Option<u64>)
    ensures
        r is Some <==> exists|i: int|
            0 <= i < transactions@.len() && (#[trigger] transactions@[i]).0 == txid,
        r matches Some(fee) ==> exists|i: int|
            0 <= i < transactions@.len() && (#[trigger] transactions@[i]) == (txid, fee)
                && forall|j: int| 0 <= j < i ==> (#[trigger] transactions@[j]).0 != txid,
{
    let n: usize = transactions.len();
    let mut i: usize = 0;
    while i < n
        invariant
            n == transactions@.len(),
            i <= n,
            forall|j: int| 0 <= j < i ==> (#[trigger] transactions@[j]).0 != txid,
        decreases n - i,
    {
        if transactions[i].0 == txid {
            return Some(transactions[i].1);
        }
        i = i + 1;
    }
    None
}

/// One poll of a status watch: a change is logged only when the status
/// differs from the last observed one, never on every poll.
pub fn status_changed(last_status: &Option<ScriptStatus>, new_status: ScriptStatus) -> (r: bool)
    ensures
        r == (*last_status != Some(new_status)),
{
    match last_status {
        Some(last) => !(*last == new_status),
        None => true,
    }
}

/// Defines a watchable transaction.
///
/// For a transaction to be watchable, two things must be known: its
/// transaction id and the specific output script whose history changes. A
/// transaction can have many outputs, but the protocol is interested in
/// exactly one of them.
pub trait Watchable {
    /// The transaction id the watcher filters history rows by.
    spec fn spec_id(&self) -> TxId;

    /// The watched output script.
    spec fn spec_script(&self) -> u64;

    fn id(&self) -> (r: TxId)
        ensures
            r == self.spec_id(),
    ;

    fn script(&self) -> (r: u64)
        ensures
            r == self.spec_script(),
    ;
}

impl Watchable for (TxId, u64) {
    open spec fn spec_id(&self) -> TxId {
        self.0
    }

    open spec fn spec_script(&self) -> u64 {
        self.1
    }

    fn id(&self) -> (r: TxId) {
        self.0
    }

    fn script(&self) -> (r: u64) {
        self.1
    }
}

/// One row of a script's history as reported by the chain server: the
/// transaction it belongs to and the height it was included at. A height of
/// zero or below means the transaction is still in the mempool.
#[derive(Debug, Clone, Copy, PartialEq, Eq, Structural)]
pub struct HistoryEntry {
    pub tx_hash: TxId,
    pub height: i32,
}

/// How many of the history rows belong to the given transaction.
pub open spec fn match_count(history: Seq<HistoryEntry>, txid: TxId) -> nat
    decreases history.len(),
{
    if history.len() == 0 {
        0
    } else {
        match_count(history.drop_last(), txid) + if history.last().tx_hash == txid {
            1nat
        } else {
            0nat
        }
    }
}

/// The last history row that belongs to the given transaction.
pub open spec fn last_match(history: Seq<HistoryEntry>, txid: TxId) -> HistoryEntry
    recommends
        match_count(history, txid) > 0,
    decreases history.len(),
{
    if history.len() == 0 {
        arbitrary()
    } else if history.last().tx_hash == txid {
        history.last()
    } else {
        last_match(history.drop_last(), txid)
    }
}

/// The status the watcher derives for one transaction from a script's
/// history rows: unseen without a matching row, in the mempool when the last
/// matching row sits at height zero or below, confirmed at saturating depth
/// otherwise.
pub open spec fn spec_status_from_history(
    history: Seq<HistoryEntry>,
    txid: TxId,
    latest_block: u32,
) -> ScriptStatus {
    if match_count(history, txid) == 0 {
        ScriptStatus::Unseen
    } else if last_match(history, txid).height <= 0 {
        ScriptStatus::InMempool
    } else {
        ScriptStatus::Confirmed(
            Confirmed {
                depth: Confirmed::spec_depth(last_match(history, txid).height as u32, latest_block),
            },
        )
    }
}

/// Classify the history rows of a watched script for one transaction.
///
/// Only rows whose transaction id matches are considered; with more than one
/// matching row the last one decides and the second component of the result
/// asks the caller to log a warning.
pub fn status_from_history(history: &Vec<HistoryEntry>, txid: TxId, latest_block: u32) -> (r: (
    ScriptStatus,
    bool,
))
    ensures
        r.0 == spec_status_from_history(history@, txid, latest_block),
        r.1 == (match_count(history@, txid) > 1),
{
    let mut found: Option<HistoryEntry> = None;
    let mut count: usize = 0;
    let mut i: usize = 0;

    while i < history.len()
        invariant
            i <= history.len(),
            count == match_count(history@.take(i as int), txid),
            count <= i,
            count > 0 ==> found == Some(last_match(history@.take(i as int), txid)),
            count == 0 ==> found is None,
        decreases history.len() - i,
    {
        let entry = history[i];
        proof {
            assert(history@.take(i + 1 as int).drop_last() =~= history@.take(i as int));
            assert(history@.take(i + 1 as int).last() == history@[i as int]);
        }
        if entry.tx_hash == txid {
            found = Some(entry);
            count = count + 1;
        }
        i = i + 1;
    }
    proof {
        assert(history@.take(history@.len() as int) =~= history@);
    }

    let warn = count > 1;

    match found {
        None => (ScriptStatus::Unseen, warn),
        Some(last) => {
            if last.height <= 0 {
                (ScriptStatus::InMempool, warn)
            } else {
                let status = ScriptStatus::Confirmed(
                    Confirmed::from_inclusion_and_latest_block(last.height as u32, latest_block),
                );
                (status, warn)
            }
        },
    }
}

} // verus!
