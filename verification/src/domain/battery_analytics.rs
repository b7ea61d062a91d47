use vstd::prelude::*;

verus! {

/// How many snapshots the history keeps.
pub const HISTORY_CAPACITY: usize = 1000;

/// The history of battery snapshots, oldest first.
pub struct BatteryAnalytics<S> {
    /// The snapshots in the order they were recorded.
    pub snapshots: Vec<S>,
}

/// The history after one more snapshot: the snapshot is appended, and the
/// oldest snapshots are dropped until at most `HISTORY_CAPACITY` remain, so
/// the history is the most recent `HISTORY_CAPACITY` snapshots (or all of
/// them, when there are fewer).
pub open spec fn history_after_add<S>(history: Seq<S>, snapshot: S) -> Seq<S> {
    let grown = history.push(snapshot);
    if grown.len() > HISTORY_CAPACITY {
        grown.subrange(grown.len() - HISTORY_CAPACITY, grown.len() as int)
    } else {
        grown
    }
}

impl<S> Default for BatteryAnalytics<S> {
    /// An empty history.
    fn default() -> (history: Self)
        ensures
            history.snapshots@ == Seq::<S>::empty(),
    {
        BatteryAnalytics { snapshots: Vec::new() }
    }
}

impl<S> BatteryAnalytics<S> {
    /// Records a snapshot, dropping the oldest ones while the history is
    /// over its capacity.
    pub fn add_snapshot(&mut self, snapshot: S)
        ensures
            final(self).snapshots@ == history_after_add(old(self).snapshots@, snapshot),
    {
        self.snapshots.push(snapshot);
        let ghost grown = self.snapshots@;
        let ghost mut dropped: int = 0;
        while self.snapshots.len() > HISTORY_CAPACITY
            invariant
                0 <= dropped <= grown.len(),
                grown == old(self).snapshots@.push(snapshot),
                self.snapshots@ == grown.subrange(dropped, grown.len() as int),
                dropped > 0 ==> grown.len() - dropped >= HISTORY_CAPACITY,
            decreases self.snapshots.len(),
        {
            self.snapshots.remove(0);
            proof {
                dropped = dropped + 1;
            }
        }
        assert(self.snapshots@ == history_after_add(old(self).snapshots@, snapshot));
    }
}

/// After an add, the history holds at most `HISTORY_CAPACITY` snapshots,
/// whatever it held before, and its newest snapshot is the one just added.
pub proof fn lemma_history_stays_bounded<S>(history: Seq<S>, snapshot: S)
    ensures
        history_after_add(history, snapshot).len() <= HISTORY_CAPACITY,
        history_after_add(history, snapshot).len() > 0,
        history_after_add(history, snapshot).last() == snapshot,
{
}

/// Adding keeps the order of what was there and drops only the oldest: the
/// history after the add is a suffix of the old history followed by the new
/// snapshot, and nothing is dropped while there is room.
pub proof fn lemma_history_keeps_order<S>(history: Seq<S>, snapshot: S)
    ensures
        exists|k: int|
            0 <= k <= history.len() && #[trigger] history_after_add(history, snapshot)
                == history.subrange(k, history.len() as int).push(snapshot),
        history.len() < HISTORY_CAPACITY ==> history_after_add(history, snapshot)
            == history.push(snapshot),
{
    let grown = history.push(snapshot);
    if grown.len() > HISTORY_CAPACITY {
        let k = grown.len() - HISTORY_CAPACITY;
        assert(history_after_add(history, snapshot) == history.subrange(
            k,
            history.len() as int,
        ).push(snapshot));
    } else {
        assert(history_after_add(history, snapshot) == history.subrange(
            0,
            history.len() as int,
        ).push(snapshot));
    }
}

} // verus!
