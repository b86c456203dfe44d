//! The persistence adapter: the latest state of every swap, keyed by the
//! swap's stable id.
//!
//! Each transition is recorded through `insert_latest_state` before the
//! machine continues; a recovered machine resumes from exactly the state
//! read back. The store is a sequence of key/state pairs with unique keys,
//! viewed as a map.

use vstd::prelude::*;
use crate::alice::AliceState;
use crate::bob::BobState;

verus! {

/// A stored state, tagged with the side it belongs to.
#[derive(Debug, Clone, Copy, PartialEq, Eq, Structural)]
pub enum Swap {
    Alice(AliceState),
    Bob(BobState),
}

/// The map a sequence of key/state pairs stands for; later entries win.
pub open spec fn map_of(entries: Seq<(u64, Swap)>) -> Map<u64, Swap>
    decreases entries.len(),
{
    if entries.len() == 0 {
        Map::empty()
    } else {
        map_of(entries.drop_last()).insert(entries.last().0, entries.last().1)
    }
}

/// No key occurs twice.
pub open spec fn keys_unique(entries: Seq<(u64, Swap)>) -> bool {
    forall|i: int, j: int|
        0 <= i < j < entries.len() ==> (#[trigger] entries[i]).0 != (#[trigger] entries[j]).0
}

/// A key is in the map exactly when some entry holds it.
proof fn lemma_map_of_domain(entries: Seq<(u64, Swap)>, key: u64)
    ensures
        map_of(entries).contains_key(key) <==> exists|i: int|
            0 <= i < entries.len() && (#[trigger] entries[i]).0 == key,
    decreases entries.len(),
{
    if entries.len() > 0 {
        lemma_map_of_domain(entries.drop_last(), key);
        if entries.last().0 == key {
            assert((#[trigger] entries[entries.len() - 1]).0 == key);
        } else if map_of(entries).contains_key(key) {
            let i = choose|i: int|
                0 <= i < entries.drop_last().len() && (#[trigger] entries.drop_last()[i]).0 == key;
            assert((#[trigger] entries[i]).0 == key);
        } else {
            assert forall|i: int|
                0 <= i < entries.len() && (#[trigger] entries[i]).0 == key implies false by {
                if i < entries.len() - 1 {
                    assert((#[trigger] entries.drop_last()[i]).0 == key);
                }
            }
        }
    }
}

/// With unique keys, the entry holding a key decides its value in the map.
proof fn lemma_map_of_entry(entries: Seq<(u64, Swap)>, i: int)
    requires
        keys_unique(entries),
        0 <= i < entries.len(),
    ensures
        map_of(entries).contains_key(entries[i].0),
        map_of(entries)[entries[i].0] == entries[i].1,
    decreases entries.len(),
{
    if i == entries.len() - 1 {
    } else {
        lemma_map_of_entry(entries.drop_last(), i);
        assert(entries.drop_last()[i] == entries[i]);
    }
}

/// Overwriting the entry that holds a key updates the map at that key.
proof fn lemma_map_of_update(entries: Seq<(u64, Swap)>, i: int, value: Swap)
    requires
        keys_unique(entries),
        0 <= i < entries.len(),
    ensures
        map_of(entries.update(i, (entries[i].0, value))) =~= map_of(entries).insert(
            entries[i].0,
            value,
        ),
    decreases entries.len(),
{
    let updated = entries.update(i, (entries[i].0, value));
    if i == entries.len() - 1 {
        assert(updated.drop_last() =~= entries.drop_last());
    } else {
        lemma_map_of_update(entries.drop_last(), i, value);
        assert(updated.drop_last() =~= entries.drop_last().update(i, (entries[i].0, value)));
        assert(updated.last() == entries.last());
        assert(entries[i].0 != entries.last().0);
    }
}

/// The latest state per swap id.
pub struct Database {
    entries: Vec<(u64, Swap)>,
}

impl View for Database {
    type V = Map<u64, Swap>;

    open spec fn view(&self) -> Map<u64, Swap> {
        map_of(self.entries_seq())
    }
}

impl Database {
    /// The stored pairs, in insertion order.
    pub closed spec fn entries_seq(&self) -> Seq<(u64, Swap)> {
        self.entries@
    }

    /// Each swap id occurs at most once.
    pub closed spec fn wf(&self) -> bool {
        keys_unique(self.entries@)
    }

    /// An empty store.
    pub fn new() -> (r: Self)
        ensures
            r.wf(),
            r@ == Map::<u64, Swap>::empty(),
            r.entries_seq() == Seq::<(u64, Swap)>::empty(),
    {
        Database { entries: Vec::new() }
    }

    /// Record the latest state of a swap, replacing any earlier one.
    pub fn insert_latest_state(&mut self, swap_id: u64, state: Swap)
        requires
            old(self).wf(),
        ensures
            final(self).wf(),
            final(self)@ == old(self)@.insert(swap_id, state),
    {
        let n: usize = self.entries.len();
        let mut i: usize = 0;
        while i < n
            invariant
                n == self.entries.len(),
                i <= n,
                self.entries@ == old(self).entries@,
                keys_unique(old(self).entries@),
                forall|j: int| 0 <= j < i ==> (#[trigger] old(self).entries@[j]).0 != swap_id,
            decreases n - i,
        {
            if self.entries[i].0 == swap_id {
                self.entries.set(i, (swap_id, state));
                proof {
                    assert(old(self).entries@[i as int].0 == swap_id);
                    lemma_map_of_update(old(self).entries@, i as int, state);
                    assert(self.entries@ =~= old(self).entries@.update(
                        i as int,
                        (swap_id, state),
                    ));
                    assert(map_of(self.entries@) =~= map_of(old(self).entries@).insert(
                        swap_id,
                        state,
                    ));
                    assert(keys_unique(self.entries@));
                }
                return ;
            }
            i = i + 1;
        }
        self.entries.push((swap_id, state));
        proof {
            assert(self.entries@.drop_last() =~= old(self).entries@);
        }
    }

    /// The latest recorded state of a swap, if any.
    pub fn get_state(&self, swap_id: u64) -> (r: Option<Swap>)
        requires
            self.wf(),
        ensures
            r == (if self@.contains_key(swap_id) {
                Some(self@[swap_id])
            } else {
                None::<Swap>
            }),
    {
        proof {
            lemma_map_of_domain(self.entries@, swap_id);
        }
        let n: usize = self.entries.len();
        let mut i: usize = 0;
        while i < n
            invariant
                n == self.entries.len(),
                keys_unique(self.entries@),
                self@ == map_of(self.entries@),
                i <= n,
                forall|j: int| 0 <= j < i ==> (#[trigger] self.entries@[j]).0 != swap_id,
                self@.contains_key(swap_id) <==> exists|j: int|
                    0 <= j < n && (#[trigger] self.entries@[j]).0 == swap_id,
            decreases n - i,
        {
            if self.entries[i].0 == swap_id {
                proof {
                    lemma_map_of_entry(self.entries@, i as int);
                }
                return Some(self.entries[i].1);
            }
            i = i + 1;
        }
        None
    }

    /// Every swap id with its latest state, in insertion order.
    pub fn all(&self) -> (r: Vec<(u64, Swap)>)
        requires
            self.wf(),
        ensures
            r@ == self.entries_seq(),
            forall|i: int|
                0 <= i < r@.len() ==> self@.contains_key((#[trigger] r@[i]).0) && self@[r@[i].0]
                    == r@[i].1,
    {
        let n: usize = self.entries.len();
        let mut out: Vec<(u64, Swap)> = Vec::new();
        let mut i: usize = 0;
        while i < n
            invariant
                n == self.entries.len(),
                i <= n,
                out@ =~= self.entries@.take(i as int),
            decreases n - i,
        {
            out.push(self.entries[i]);
            i = i + 1;
        }
        proof {
            assert(out@ =~= self.entries@);
            assert forall|i: int| 0 <= i < out@.len() implies self@.contains_key(
                (#[trigger] out@[i]).0,
            ) && self@[out@[i].0] == out@[i].1 by {
                lemma_map_of_entry(self.entries@, i);
            }
        }
        out
    }
}

/// Writing the state of a swap and reading it back yields that state, and
/// no other swap's record moves: no partial transition is observable.
pub proof fn lemma_persist_round_trip(db: Map<u64, Swap>, swap_id: u64, state: Swap, other: u64)
    ensures
        db.insert(swap_id, state)[swap_id] == state,
        other != swap_id && db.contains_key(other) ==> db.insert(swap_id, state)[other]
            == db[other],
{
}

} // verus!
