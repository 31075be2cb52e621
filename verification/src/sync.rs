//! The synchronization state machine: on each timer tick it stages pending
//! working-tree changes, snapshots them on top of the history tip, and
//! attempts to publish the new tip; on cancellation it runs one final drain
//! pass of the same shape before terminating.
//!
//! The machine holds the decisions only. The caller owns the timer, the
//! working tree and the remote: it performs each requested [`Action`], feeds
//! the outcome back as an [`Event`], and the machine tracks the resulting
//! snapshot history.

use vstd::prelude::*;

use crate::history::{chain_ok, tip_of, History, Snapshot};

verus! {

/// The loop's control state. The design's single `Draining` state is refined
/// here into the `draining` flag on the three working phases: the drain pass
/// runs the same staging, committing and publishing phases as a normal cycle,
/// but ends in `Terminated` instead of returning to `Idle`.
#[derive(Clone, Copy, Debug, PartialEq, Eq)]
pub enum SyncState {
    /// Waiting for the next timer tick or for cancellation.
    Idle,
    /// Staging all working-tree changes and comparing them against the tip.
    Staging { draining: bool },
    /// Writing the staged changes as a new snapshot on top of the tip.
    Committing { draining: bool },
    /// Transmitting the tip to the remote.
    Publishing { draining: bool },
    /// The sole terminal state, reached only through a drain pass.
    Terminated,
}

/// What the caller observed: a suspension-point wakeup, or the outcome of the
/// action the machine last requested.
#[derive(Clone, Copy, Debug, PartialEq, Eq)]
pub enum Event {
    /// The sync period elapsed while idle.
    Tick,
    /// Cancellation was observed while idle.
    Cancelled,
    /// Staging succeeded; `dirty` says whether the staged set differs from
    /// the tree referenced by the tip.
    Staged { dirty: bool },
    /// Staging failed; the cycle is abandoned.
    StageFailed,
    /// A snapshot was created with this content-derived identifier at this
    /// UTC time (seconds since the epoch).
    Committed { id: u64, timestamp: u64 },
    /// Snapshot creation failed; publishing is skipped, the tip is unchanged.
    CommitFailed,
    /// The tip was transmitted to the remote.
    Pushed,
    /// Publishing failed; the local snapshot is retained.
    PushFailed,
}

/// What the caller must do next.
#[derive(Clone, Copy, Debug, PartialEq, Eq)]
pub enum Action {
    /// Wait for the next tick or for cancellation.
    Wait,
    /// Stage all working-tree changes and report whether any are pending.
    Stage,
    /// Create a snapshot of the staged changes.
    Commit,
    /// Transmit the tip to the remote.
    Push,
    /// The drain pass is complete; the process may exit.
    Exit,
}

/// The transition relation. Cancellation is observed only at the `Idle`
/// boundary; a failure in any phase abandons the cycle (drain passes end in
/// `Terminated`, normal cycles return to `Idle`); an event that cannot follow
/// the current state leaves it unchanged.
pub open spec fn next_state(s: SyncState, e: Event) -> SyncState {
    match (s, e) {
        (SyncState::Idle, Event::Tick) => SyncState::Staging { draining: false },
        (SyncState::Idle, Event::Cancelled) => SyncState::Staging { draining: true },
        (SyncState::Staging { draining }, Event::Staged { dirty }) => if dirty {
            SyncState::Committing { draining }
        } else if draining {
            SyncState::Terminated
        } else {
            SyncState::Idle
        },
        (SyncState::Staging { draining }, Event::StageFailed) => if draining {
            SyncState::Terminated
        } else {
            SyncState::Idle
        },
        (SyncState::Committing { draining }, Event::Committed { .. }) => SyncState::Publishing {
            draining,
        },
        (SyncState::Committing { draining }, Event::CommitFailed) => if draining {
            SyncState::Terminated
        } else {
            SyncState::Idle
        },
        (SyncState::Publishing { draining }, Event::Pushed) => if draining {
            SyncState::Terminated
        } else {
            SyncState::Idle
        },
        (SyncState::Publishing { draining }, Event::PushFailed) => if draining {
            SyncState::Terminated
        } else {
            SyncState::Idle
        },
        _ => s,
    }
}

/// The action each state demands of the caller.
pub open spec fn action_for(s: SyncState) -> Action {
    match s {
        SyncState::Idle => Action::Wait,
        SyncState::Staging { .. } => Action::Stage,
        SyncState::Committing { .. } => Action::Commit,
        SyncState::Publishing { .. } => Action::Push,
        SyncState::Terminated => Action::Exit,
    }
}

/// How one event changes the history: only a successful commit while in the
/// committing phase appends a snapshot, whose parent is the current tip.
/// Every other event, in particular a publish or commit failure, leaves the
/// history exactly as it was.
pub open spec fn next_history(s: SyncState, h: Seq<Snapshot>, e: Event) -> Seq<Snapshot> {
    match (s, e) {
        (SyncState::Committing { .. }, Event::Committed { id, timestamp }) => h.push(
            Snapshot { id, parent: tip_of(h), timestamp },
        ),
        _ => h,
    }
}

/// The state and history reached by feeding a sequence of events in order.
pub open spec fn run(s: SyncState, h: Seq<Snapshot>, es: Seq<Event>) -> (SyncState, Seq<Snapshot>)
    decreases es.len(),
{
    if es.len() == 0 {
        (s, h)
    } else {
        run(next_state(s, es[0]), next_history(s, h, es[0]), es.drop_first())
    }
}

/// The fixed ref mapping the publisher transmits: local `main` to remote
/// `main`, never any other branch.
pub fn push_refspec() -> (r: String)
    ensures
        r@ == "refs/heads/main:refs/heads/main"@,
{
    String::from_str("refs/heads/main:refs/heads/main")
}

/// The synchronization loop's state together with the snapshot history it has
/// produced.
pub struct SyncMachine {
    pub state: SyncState,
    pub history: History,
}

impl SyncMachine {
    /// Well-formed machine: the recorded history is a linear chain.
    pub open spec fn wf(self) -> bool {
        self.history.wf()
    }

    /// A fresh machine: idle, with no snapshot yet and the tip unset.
    pub fn new() -> (m: SyncMachine)
        ensures
            m.state == SyncState::Idle,
            m.history@ == Seq::<Snapshot>::empty(),
            m.wf(),
    {
        SyncMachine { state: SyncState::Idle, history: History::new() }
    }

    /// Feed one observed event: the state advances by the transition relation,
    /// the history is extended exactly when a snapshot was committed, and the
    /// returned action is what the new state demands.
    pub fn step(&mut self, e: Event) -> (a: Action)
        requires
            old(self).wf(),
        ensures
            final(self).wf(),
            final(self).state == next_state(old(self).state, e),
            final(self).history@ == next_history(old(self).state, old(self).history@, e),
            a == action_for(final(self).state),
    {
        let s = self.state;
        match (s, e) {
            (SyncState::Committing { draining }, Event::Committed { id, timestamp }) => {
                self.history.record(id, timestamp);
                self.state = SyncState::Publishing { draining };
            },
            _ => {
                self.state = next_state_exec(s, e);
            },
        }
        action_of(self.state)
    }
}

/// Executable form of the transition relation, for events that do not touch
/// the history.
fn next_state_exec(s: SyncState, e: Event) -> (r: SyncState)
    requires
        !(s matches SyncState::Committing { .. } && e matches Event::Committed { .. }),
    ensures
        r == next_state(s, e),
{
    match (s, e) {
        (SyncState::Idle, Event::Tick) => SyncState::Staging { draining: false },
        (SyncState::Idle, Event::Cancelled) => SyncState::Staging { draining: true },
        (SyncState::Staging { draining }, Event::Staged { dirty }) => {
            if dirty {
                SyncState::Committing { draining }
            } else if draining {
                SyncState::Terminated
            } else {
                SyncState::Idle
            }
        },
        (SyncState::Staging { draining }, Event::StageFailed) => {
            if draining {
                SyncState::Terminated
            } else {
                SyncState::Idle
            }
        },
        (SyncState::Committing { draining }, Event::CommitFailed) => {
            if draining {
                SyncState::Terminated
            } else {
                SyncState::Idle
            }
        },
        (SyncState::Publishing { draining }, Event::Pushed) => {
            if draining {
                SyncState::Terminated
            } else {
                SyncState::Idle
            }
        },
        (SyncState::Publishing { draining }, Event::PushFailed) => {
            if draining {
                SyncState::Terminated
            } else {
                SyncState::Idle
            }
        },
        _ => s,
    }
}

/// Executable form of [`action_for`].
pub fn action_of(s: SyncState) -> (a: Action)
    ensures
        a == action_for(s),
{
    match s {
        SyncState::Idle => Action::Wait,
        SyncState::Staging { .. } => Action::Stage,
        SyncState::Committing { .. } => Action::Commit,
        SyncState::Publishing { .. } => Action::Push,
        SyncState::Terminated => Action::Exit,
    }
}

/// Every step preserves linearity of the history chain.
pub proof fn lemma_step_preserves_chain(s: SyncState, h: Seq<Snapshot>, e: Event)
    requires
        chain_ok(h),
    ensures
        chain_ok(next_history(s, h, e)),
{
    match (s, e) {
        (SyncState::Committing { .. }, Event::Committed { id, timestamp }) => {
            crate::history::lemma_chain_push(h, id, timestamp);
        },
        _ => {},
    }
}

/// Only a successful commit ever changes the history: any other event — in
/// particular a publish failure — leaves every snapshot and the tip intact.
pub proof fn lemma_only_commit_extends(s: SyncState, h: Seq<Snapshot>, e: Event)
    ensures
        !(e matches Event::Committed { .. }) ==> next_history(s, h, e) == h,
        !(s matches SyncState::Committing { .. }) ==> next_history(s, h, e) == h,
{
}

/// A publish failure never removes or alters any local snapshot: the history,
/// and with it the snapshot just created and the tip, are exactly what they
/// were before the failure.
pub proof fn lemma_publish_failure_retains_snapshots(s: SyncState, h: Seq<Snapshot>)
    ensures
        next_history(s, h, Event::PushFailed) == h,
        tip_of(next_history(s, h, Event::PushFailed)) == tip_of(h),
{
}

/// Whatever the machine observes, in whatever order, the snapshot history
/// stays a linear chain: each snapshot's parent is the one created before it.
pub proof fn lemma_run_preserves_chain(s: SyncState, h: Seq<Snapshot>, es: Seq<Event>)
    requires
        chain_ok(h),
    ensures
        chain_ok(run(s, h, es).1),
    decreases es.len(),
{
    if es.len() > 0 {
        lemma_step_preserves_chain(s, h, es[0]);
        lemma_run_preserves_chain(next_state(s, es[0]), next_history(s, h, es[0]), es.drop_first());
    }
}

/// `Terminated` is the sole terminal state: no event leaves it, and nothing
/// committed there would change the history.
pub proof fn lemma_terminated_is_final(h: Seq<Snapshot>, e: Event)
    ensures
        next_state(SyncState::Terminated, e) == SyncState::Terminated,
        next_history(SyncState::Terminated, h, e) == h,
{
}

/// Running a concatenation of event sequences is running one after the other.
pub proof fn lemma_run_append(s: SyncState, h: Seq<Snapshot>, es1: Seq<Event>, es2: Seq<Event>)
    ensures
        run(s, h, es1 + es2) == run(run(s, h, es1).0, run(s, h, es1).1, es2),
    decreases es1.len(),
{
    if es1.len() == 0 {
        assert(es1 + es2 =~= es2);
    } else {
        assert((es1 + es2)[0] == es1[0]);
        assert((es1 + es2).drop_first() =~= es1.drop_first() + es2);
        lemma_run_append(next_state(s, es1[0]), next_history(s, h, es1[0]), es1.drop_first(), es2);
    }
}

/// The events of one full cycle in which the working tree had changed: a
/// tick, a dirty staging result, a successful commit, a successful publish.
pub open spec fn dirty_cycle(id: u64, ts: u64) -> Seq<Event> {
    seq![
        Event::Tick,
        Event::Staged { dirty: true },
        Event::Committed { id, timestamp: ts },
        Event::Pushed,
    ]
}

/// The events of `specs.len()` consecutive such cycles; `specs[k]` gives the
/// identifier and creation time of cycle `k`'s snapshot.
pub open spec fn dirty_cycles(specs: Seq<(u64, u64)>) -> Seq<Event>
    decreases specs.len(),
{
    if specs.len() == 0 {
        Seq::empty()
    } else {
        dirty_cycle(specs[0].0, specs[0].1) + dirty_cycles(specs.drop_first())
    }
}

/// One cycle with pending changes, starting idle, adds exactly one snapshot —
/// with the old tip as its parent — and returns to idle.
pub proof fn lemma_one_dirty_cycle(h: Seq<Snapshot>, id: u64, ts: u64)
    ensures
        run(SyncState::Idle, h, dirty_cycle(id, ts)) == (
            SyncState::Idle,
            h.push(Snapshot { id, parent: tip_of(h), timestamp: ts }),
        ),
{
    let h1 = h.push(Snapshot { id, parent: tip_of(h), timestamp: ts });
    let es = dirty_cycle(id, ts);
    let es1 = seq![
        Event::Staged { dirty: true },
        Event::Committed { id, timestamp: ts },
        Event::Pushed,
    ];
    let es2 = seq![Event::Committed { id, timestamp: ts }, Event::Pushed];
    let es3 = seq![Event::Pushed];
    assert(es.drop_first() =~= es1);
    assert(es1.drop_first() =~= es2);
    assert(es2.drop_first() =~= es3);
    assert(es3.drop_first() =~= Seq::<Event>::empty());
    assert(run(SyncState::Idle, h, es) == run(SyncState::Staging { draining: false }, h, es1));
    assert(run(SyncState::Staging { draining: false }, h, es1) == run(
        SyncState::Committing { draining: false },
        h,
        es2,
    ));
    assert(run(SyncState::Committing { draining: false }, h, es2) == run(
        SyncState::Publishing { draining: false },
        h1,
        es3,
    ));
    assert(run(SyncState::Publishing { draining: false }, h1, es3) == run(
        SyncState::Idle,
        h1,
        Seq::<Event>::empty(),
    ));
}

/// For any number of consecutive cycles in each of which the working tree had
/// changed, exactly one snapshot per cycle is created: the machine returns to
/// idle, the history has grown by exactly `specs.len()` snapshots, the chain
/// stays linear (each new snapshot's parent is the one created just before
/// it), the earlier snapshots are untouched, and the `k`-th new snapshot
/// carries the identifier and creation time of cycle `k`.
pub proof fn lemma_dirty_cycles(h: Seq<Snapshot>, specs: Seq<(u64, u64)>)
    requires
        chain_ok(h),
    ensures
        ({
            let r = run(SyncState::Idle, h, dirty_cycles(specs));
            &&& r.0 == SyncState::Idle
            &&& r.1.len() == h.len() + specs.len()
            &&& chain_ok(r.1)
            &&& forall|k: int| 0 <= k < h.len() ==> #[trigger] r.1[k] == h[k]
            &&& forall|k: int|
                0 <= k < specs.len() ==> (#[trigger] r.1[h.len() + k]).id == specs[k].0 && r.1[
                    h.len() + k
                ].timestamp == specs[k].1
        }),
    decreases specs.len(),
{
    if specs.len() == 0 {
        assert(dirty_cycles(specs) =~= Seq::<Event>::empty());
    } else {
        let id = specs[0].0;
        let ts = specs[0].1;
        let snap = Snapshot { id, parent: tip_of(h), timestamp: ts };
        let h1 = h.push(snap);
        let first = dirty_cycle(id, ts);
        let rest = dirty_cycles(specs.drop_first());
        lemma_run_append(SyncState::Idle, h, first, rest);
        lemma_one_dirty_cycle(h, id, ts);
        crate::history::lemma_chain_push(h, id, ts);
        lemma_dirty_cycles(h1, specs.drop_first());
        let r = run(SyncState::Idle, h, dirty_cycles(specs));
        let r1 = run(SyncState::Idle, h1, rest);
        assert(r == r1);
        assert forall|k: int| 0 <= k < specs.len() implies (#[trigger] r.1[h.len() + k]).id
            == specs[k].0 && r.1[h.len() + k].timestamp == specs[k].1 by {
            if k == 0 {
                assert(r1.1[h1.len() - 1] == h1[h1.len() - 1]);
            } else {
                assert(r1.1[h1.len() + (k - 1)].id == specs.drop_first()[k - 1].0);
                assert(specs.drop_first()[k - 1] == specs[k]);
            }
        }
    }
}

/// A cycle in which nothing changed creates no snapshot: the machine stages,
/// finds the staged set clean, and returns to idle with the history — and so
/// the tip — exactly as before.
pub proof fn lemma_clean_cycle(h: Seq<Snapshot>)
    ensures
        run(SyncState::Idle, h, seq![Event::Tick, Event::Staged { dirty: false }]) == (
            SyncState::Idle,
            h,
        ),
{
    let es = seq![Event::Tick, Event::Staged { dirty: false }];
    let es1 = seq![Event::Staged { dirty: false }];
    assert(es.drop_first() =~= es1);
    assert(es1.drop_first() =~= Seq::<Event>::empty());
    assert(run(SyncState::Idle, h, es) == run(SyncState::Staging { draining: false }, h, es1));
    assert(run(SyncState::Staging { draining: false }, h, es1) == run(
        SyncState::Idle,
        h,
        Seq::<Event>::empty(),
    ));
}

/// Cancellation with staged changes pending drains exactly once: one more
/// snapshot is created, one publish attempt is made (the machine passes
/// through the publishing phase, whose demanded action is `Push`), and the
/// machine terminates — whether or not that publish succeeds.
pub proof fn lemma_drain_with_pending(h: Seq<Snapshot>, id: u64, ts: u64, push_ok: bool)
    ensures
        ({
            let last = if push_ok {
                Event::Pushed
            } else {
                Event::PushFailed
            };
            let es = seq![
                Event::Cancelled,
                Event::Staged { dirty: true },
                Event::Committed { id, timestamp: ts },
                last,
            ];
            &&& run(SyncState::Idle, h, es) == (
                SyncState::Terminated,
                h.push(Snapshot { id, parent: tip_of(h), timestamp: ts }),
            )
            &&& run(SyncState::Idle, h, es.take(3)).0 == SyncState::Publishing { draining: true }
            &&& action_for(SyncState::Publishing { draining: true }) == Action::Push
        }),
{
    let last = if push_ok {
        Event::Pushed
    } else {
        Event::PushFailed
    };
    let h1 = h.push(Snapshot { id, parent: tip_of(h), timestamp: ts });
    let es = seq![
        Event::Cancelled,
        Event::Staged { dirty: true },
        Event::Committed { id, timestamp: ts },
        last,
    ];
    let es1 = seq![Event::Staged { dirty: true }, Event::Committed { id, timestamp: ts }, last];
    let es2 = seq![Event::Committed { id, timestamp: ts }, last];
    let es3 = seq![last];
    assert(es.drop_first() =~= es1);
    assert(es1.drop_first() =~= es2);
    assert(es2.drop_first() =~= es3);
    assert(es3.drop_first() =~= Seq::<Event>::empty());
    assert(run(SyncState::Idle, h, es) == run(SyncState::Staging { draining: true }, h, es1));
    assert(run(SyncState::Staging { draining: true }, h, es1) == run(
        SyncState::Committing { draining: true },
        h,
        es2,
    ));
    assert(run(SyncState::Committing { draining: true }, h, es2) == run(
        SyncState::Publishing { draining: true },
        h1,
        es3,
    ));
    assert(run(SyncState::Publishing { draining: true }, h1, es3) == run(
        SyncState::Terminated,
        h1,
        Seq::<Event>::empty(),
    ));
    let pre = es.take(3);
    let pre1 = seq![Event::Staged { dirty: true }, Event::Committed { id, timestamp: ts }];
    let pre2 = seq![Event::Committed { id, timestamp: ts }];
    assert(pre.drop_first() =~= pre1);
    assert(pre1.drop_first() =~= pre2);
    assert(pre2.drop_first() =~= Seq::<Event>::empty());
    assert(run(SyncState::Idle, h, pre) == run(SyncState::Staging { draining: true }, h, pre1));
    assert(run(SyncState::Staging { draining: true }, h, pre1) == run(
        SyncState::Committing { draining: true },
        h,
        pre2,
    ));
    assert(run(SyncState::Committing { draining: true }, h, pre2) == run(
        SyncState::Publishing { draining: true },
        h1,
        Seq::<Event>::empty(),
    ));
}

/// Cancellation with no pending changes creates no extra snapshot: the drain
/// pass stages, finds nothing, and the machine terminates with the history
/// unchanged.
pub proof fn lemma_drain_without_pending(h: Seq<Snapshot>)
    ensures
        run(SyncState::Idle, h, seq![Event::Cancelled, Event::Staged { dirty: false }]) == (
            SyncState::Terminated,
            h,
        ),
{
    let es = seq![Event::Cancelled, Event::Staged { dirty: false }];
    let es1 = seq![Event::Staged { dirty: false }];
    assert(es.drop_first() =~= es1);
    assert(es1.drop_first() =~= Seq::<Event>::empty());
    assert(run(SyncState::Idle, h, es) == run(SyncState::Staging { draining: true }, h, es1));
    assert(run(SyncState::Staging { draining: true }, h, es1) == run(
        SyncState::Terminated,
        h,
        Seq::<Event>::empty(),
    ));
}

} // verus!
