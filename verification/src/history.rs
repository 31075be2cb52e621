//! The local snapshot history: an append-only linear chain of snapshots,
//! together with the tip pointer that the publisher transmits.

use vstd::prelude::*;

verus! {

/// One snapshot: an immutable record with a content-derived identifier, a
/// link to its parent (`None` only for the root snapshot) and its creation
/// time in seconds since the UTC epoch.
#[derive(Clone, Copy, Debug, PartialEq, Eq)]
pub struct Snapshot {
    pub id: u64,
    pub parent: Option<u64>,
    pub timestamp: u64,
}

/// The history is a linear chain: the first snapshot has no parent, and every
/// later snapshot's parent is the identifier of the one created just before it.
pub open spec fn chain_ok(h: Seq<Snapshot>) -> bool {
    forall|k: int|
        0 <= k < h.len() ==> #[trigger] h[k].parent == (if k == 0 {
            None::<u64>
        } else {
            Some(h[k - 1].id)
        })
}

/// The identifier of the most recent snapshot, if any.
pub open spec fn tip_of(h: Seq<Snapshot>) -> Option<u64> {
    if h.len() == 0 {
        None
    } else {
        Some(h[h.len() - 1].id)
    }
}

/// Appending a snapshot whose parent is the current tip keeps the chain linear.
pub proof fn lemma_chain_push(h: Seq<Snapshot>, id: u64, timestamp: u64)
    requires
        chain_ok(h),
    ensures
        chain_ok(h.push(Snapshot { id, parent: tip_of(h), timestamp })),
{
    let h2 = h.push(Snapshot { id, parent: tip_of(h), timestamp });
    assert forall|k: int| 0 <= k < h2.len() implies #[trigger] h2[k].parent == (if k == 0 {
        None::<u64>
    } else {
        Some(h2[k - 1].id)
    }) by {
        if k < h.len() {
            assert(h2[k] == h[k]);
        }
    }
}

/// The locally persisted snapshot history with its tip pointer.
pub struct History {
    pub snapshots: Vec<Snapshot>,
}

impl View for History {
    type V = Seq<Snapshot>;

    open spec fn view(&self) -> Seq<Snapshot> {
        self.snapshots@
    }
}

impl History {
    /// Well-formed history: a linear chain of snapshots.
    pub open spec fn wf(self) -> bool {
        chain_ok(self@)
    }

    /// The tip always references the latest locally created snapshot.
    pub open spec fn spec_tip(self) -> Option<u64> {
        tip_of(self@)
    }

    /// An empty history: no snapshot has been created yet, the tip is unset.
    pub fn new() -> (h: History)
        ensures
            h@ == Seq::<Snapshot>::empty(),
            h.wf(),
            h.spec_tip() is None,
    {
        History { snapshots: Vec::new() }
    }

    /// How many snapshots have been created.
    pub fn len(&self) -> (n: usize)
        ensures
            n == self@.len(),
    {
        self.snapshots.len()
    }

    /// The identifier of the most recent snapshot, `None` while unset.
    pub fn tip(&self) -> (r: Option<u64>)
        ensures
            r == self.spec_tip(),
    {
        if self.snapshots.len() == 0 {
            None
        } else {
            Some(self.snapshots[self.snapshots.len() - 1].id)
        }
    }

    /// The snapshot at position `k` in creation order.
    pub fn snapshot_at(&self, k: usize) -> (s: Snapshot)
        requires
            k < self@.len(),
        ensures
            s == self@[k as int],
    {
        self.snapshots[k]
    }

    /// Record a freshly created snapshot: it is appended with the current tip
    /// as its parent, and the tip advances to it.
    pub fn record(&mut self, id: u64, timestamp: u64)
        requires
            old(self).wf(),
        ensures
            final(self).wf(),
            final(self)@ == old(self)@.push(
                Snapshot { id, parent: old(self).spec_tip(), timestamp },
            ),
            final(self).spec_tip() == Some(id),
    {
        let parent = self.tip();
        proof {
            lemma_chain_push(self@, id, timestamp);
        }
        self.snapshots.push(Snapshot { id, parent, timestamp });
    }
}

} // verus!
