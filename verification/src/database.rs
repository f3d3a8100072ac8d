//! In-memory model of the per-swap store.
//!
//! The real store is an on-disk key-value database, an outside
//! collaborator.  Its contract is modeled here: an append-only log of
//! writes keyed by swap id, whose meaning is the last-write-wins map.
//! The driver writes the reached state after every transition, so the
//! store never reports a state later than what actually happened, and a
//! resumed swap starts from the last state written.

use vstd::prelude::*;

verus! {

/// The last-write-wins reading of a write log.
pub open spec fn map_of<T>(s: Seq<(u128, T)>) -> Map<u128, T>
    decreases s.len(),
{
    if s.len() == 0 {
        Map::empty()
    } else {
        map_of(s.drop_last()).insert(s.last().0, s.last().1)
    }
}

/// A key absent from every log entry is absent from the reading.
proof fn lemma_map_of_absent<T>(s: Seq<(u128, T)>, k: u128)
    requires
        forall|j: int| 0 <= j < s.len() ==> (#[trigger] s[j]).0 != k,
    ensures
        !map_of(s).dom().contains(k),
    decreases s.len(),
{
    if s.len() > 0 {
        assert(s.last() == s[s.len() - 1]);
        assert(forall|j: int| 0 <= j < s.drop_last().len()
            ==> (#[trigger] s.drop_last()[j]) == s[j]);
        lemma_map_of_absent(s.drop_last(), k);
    }
}

/// The reading of a key is the value of the last entry that wrote it.
proof fn lemma_map_of_found<T>(s: Seq<(u128, T)>, i: int, k: u128)
    requires
        0 <= i < s.len(),
        s[i].0 == k,
        forall|j: int| i < j < s.len() ==> (#[trigger] s[j]).0 != k,
    ensures
        map_of(s).dom().contains(k),
        map_of(s)[k] == s[i].1,
    decreases s.len(),
{
    assert(s.last() == s[s.len() - 1]);
    if i == s.len() - 1 {
    } else {
        assert(forall|j: int| 0 <= j < s.drop_last().len()
            ==> (#[trigger] s.drop_last()[j]) == s[j]);
        lemma_map_of_found(s.drop_last(), i, k);
    }
}

/// What the store holds per swap: the role and its latest state.
#[derive(Clone, Copy)]
pub enum PersistedSwap {
    /// A swap run in Alice's role.
    Alice(crate::alice::AliceState),
    /// A swap run in Bob's role.
    Bob(crate::bob::BobState),
}

/// The model store: a write log read as a map from swap id to record.
pub struct Database<T> {
    entries: Vec<(u128, T)>,
}

impl<T: Copy> Database<T> {
    /// The store's current contents: swap id to latest record.
    pub closed spec fn swaps(self) -> Map<u128, T> {
        map_of(self.entries@)
    }

    /// Opens an empty store.
    pub fn open() -> (r: Database<T>)
        ensures
            r.swaps() == Map::<u128, T>::empty(),
    {
        Database { entries: Vec::new() }
    }

    /// Records `state` as the latest state of `swap_id`.  The write is
    /// atomic: afterwards the store reads back exactly this record for
    /// this swap and is unchanged for every other swap.
    pub fn insert_latest_state(&mut self, swap_id: u128, state: T)
        ensures
            final(self).swaps() == old(self).swaps().insert(swap_id, state),
    {
        self.entries.push((swap_id, state));
        proof {
            assert(self.entries@.drop_last() =~= old(self).entries@);
        }
    }

    /// The latest record of `swap_id`, if any was ever written.
    pub fn get_state(&self, swap_id: u128) -> (r: Option<T>)
        ensures
            r == if self.swaps().dom().contains(swap_id) {
                Some(self.swaps()[swap_id])
            } else {
                Option::<T>::None
            },
    {
        let n = self.entries.len();
        let mut i: usize = n;
        while i > 0
            invariant
                i <= n,
                n == self.entries.len(),
                forall|j: int| i <= j < n ==> (#[trigger] self.entries@[j]).0 != swap_id,
            decreases i,
        {
            let (k, v) = self.entries[i - 1];
            if k == swap_id {
                proof {
                    lemma_map_of_found(self.entries@, i - 1, swap_id);
                }
                return Some(v);
            }
            i = i - 1;
        }
        proof {
            lemma_map_of_absent(self.entries@, swap_id);
        }
        None
    }

    /// Every swap id that the store holds a record for.  Ids written more
    /// than once appear more than once.
    pub fn list_swaps(&self) -> (r: Vec<u128>)
        ensures
            forall|k: u128| r@.contains(k) <==> self.swaps().dom().contains(k),
    {
        let n = self.entries.len();
        let mut out: Vec<u128> = Vec::new();
        let mut i: usize = 0;
        while i < n
            invariant
                i <= n,
                n == self.entries.len(),
                out@.len() == i,
                forall|j: int| 0 <= j < i ==> out@[j] == (#[trigger] self.entries@[j]).0,
            decreases n - i,
        {
            let (k, _) = self.entries[i];
            out.push(k);
            i = i + 1;
        }
        proof {
            assert forall|k: u128| out@.contains(k) implies self.swaps().dom().contains(k) by {
                let j = choose|j: int| 0 <= j < out@.len() && out@[j] == k;
                let m = last_index_of(self.entries@, k, j);
                lemma_map_of_found(self.entries@, m, k);
            }
            assert forall|k: u128| self.swaps().dom().contains(k) implies out@.contains(k) by {
                lemma_map_of_dom(self.entries@, k);
                let j = choose|j: int|
                    0 <= j < self.entries@.len() && (#[trigger] self.entries@[j]).0 == k;
                assert(out@[j] == k);
            }
        }
        out
    }
}

/// The index of the last entry that writes `k`, at or after `from`.
proof fn last_index_of<T>(s: Seq<(u128, T)>, k: u128, from: int) -> (r: int)
    requires
        0 <= from < s.len(),
        s[from].0 == k,
    ensures
        from <= r < s.len(),
        s[r].0 == k,
        forall|j: int| r < j < s.len() ==> (#[trigger] s[j]).0 != k,
    decreases s.len() - from,
{
    if exists|j: int| from < j < s.len() && (#[trigger] s[j]).0 == k {
        let j = choose|j: int| from < j < s.len() && (#[trigger] s[j]).0 == k;
        last_index_of(s, k, j)
    } else {
        from
    }
}

/// A key is in the reading's domain exactly when some entry wrote it.
proof fn lemma_map_of_dom<T>(s: Seq<(u128, T)>, k: u128)
    requires
        map_of(s).dom().contains(k),
    ensures
        exists|j: int| 0 <= j < s.len() && (#[trigger] s[j]).0 == k,
    decreases s.len(),
{
    if s.len() > 0 {
        if s.last().0 == k {
            assert(s[s.len() - 1].0 == k);
        } else {
            lemma_map_of_dom(s.drop_last(), k);
            let j = choose|j: int|
                0 <= j < s.drop_last().len() && (#[trigger] s.drop_last()[j]).0 == k;
            assert(s[j].0 == k);
        }
    }
}

} // verus!
