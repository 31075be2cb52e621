use gitsyncpush::sync::{Action, Event, SyncMachine, SyncState};

/// A working tree that changes before every tick yields one snapshot per
/// cycle, in a linear parent chain.
#[test]
fn dirty_cycles_build_linear_chain() {
    let mut m = SyncMachine::new();
    assert_eq!(m.history.tip(), None);

    let ids: [u64; 3] = [11, 22, 33];
    for (k, id) in ids.iter().enumerate() {
        assert_eq!(m.step(Event::Tick), Action::Stage);
        assert_eq!(m.step(Event::Staged { dirty: true }), Action::Commit);
        assert_eq!(
            m.step(Event::Committed { id: *id, timestamp: 1000 + k as u64 }),
            Action::Push
        );
        assert_eq!(m.step(Event::Pushed), Action::Wait);
        assert_eq!(m.state, SyncState::Idle);
    }

    assert_eq!(m.history.len(), 3);
    assert_eq!(m.history.tip(), Some(33));
    let s0 = m.history.snapshot_at(0);
    let s1 = m.history.snapshot_at(1);
    let s2 = m.history.snapshot_at(2);
    assert_eq!(s0.id, 11);
    assert_eq!(s0.parent, None);
    assert_eq!(s1.id, 22);
    assert_eq!(s1.parent, Some(11));
    assert_eq!(s2.id, 33);
    assert_eq!(s2.parent, Some(22));
    assert_eq!(s0.timestamp, 1000);
    assert_eq!(s1.timestamp, 1001);
    assert_eq!(s2.timestamp, 1002);
}

/// An unchanged working tree across a cycle creates no snapshot and leaves
/// the tip unchanged.
#[test]
fn clean_cycle_creates_nothing() {
    let mut m = SyncMachine::new();
    assert_eq!(m.step(Event::Tick), Action::Stage);
    assert_eq!(m.step(Event::Staged { dirty: false }), Action::Wait);
    assert_eq!(m.state, SyncState::Idle);
    assert_eq!(m.history.len(), 0);
    assert_eq!(m.history.tip(), None);
}

/// Three ticks with no file changes: zero snapshots, the tip remains unset.
#[test]
fn three_clean_ticks_leave_tip_unset() {
    let mut m = SyncMachine::new();
    for _ in 0..3 {
        assert_eq!(m.step(Event::Tick), Action::Stage);
        assert_eq!(m.step(Event::Staged { dirty: false }), Action::Wait);
    }
    assert_eq!(m.history.len(), 0);
    assert_eq!(m.history.tip(), None);
}

/// Cancellation with pending changes drains exactly once: one extra snapshot,
/// one publish attempt, then termination.
#[test]
fn cancellation_with_pending_drains_once() {
    let mut m = SyncMachine::new();
    assert_eq!(m.step(Event::Cancelled), Action::Stage);
    assert_eq!(m.step(Event::Staged { dirty: true }), Action::Commit);
    assert_eq!(m.step(Event::Committed { id: 7, timestamp: 42 }), Action::Push);
    assert_eq!(m.step(Event::Pushed), Action::Exit);
    assert_eq!(m.state, SyncState::Terminated);
    assert_eq!(m.history.len(), 1);
    assert_eq!(m.history.tip(), Some(7));
}

/// Termination mid-wait with one pending change: the final snapshot and the
/// publish attempt complete (even if the push fails) before exit.
#[test]
fn cancellation_drains_even_if_push_fails() {
    let mut m = SyncMachine::new();
    assert_eq!(m.step(Event::Cancelled), Action::Stage);
    assert_eq!(m.step(Event::Staged { dirty: true }), Action::Commit);
    assert_eq!(m.step(Event::Committed { id: 9, timestamp: 5 }), Action::Push);
    assert_eq!(m.step(Event::PushFailed), Action::Exit);
    assert_eq!(m.state, SyncState::Terminated);
    assert_eq!(m.history.len(), 1);
    assert_eq!(m.history.tip(), Some(9));
}

/// Cancellation with no pending changes creates no extra snapshot.
#[test]
fn cancellation_without_pending_creates_nothing() {
    let mut m = SyncMachine::new();
    assert_eq!(m.step(Event::Cancelled), Action::Stage);
    assert_eq!(m.step(Event::Staged { dirty: false }), Action::Exit);
    assert_eq!(m.state, SyncState::Terminated);
    assert_eq!(m.history.len(), 0);
}

/// A publish failure never removes or alters the snapshot just created, and
/// subsequent unchanged ticks produce no retry.
#[test]
fn push_failure_keeps_snapshot_and_no_retry() {
    let mut m = SyncMachine::new();
    assert_eq!(m.step(Event::Tick), Action::Stage);
    assert_eq!(m.step(Event::Staged { dirty: true }), Action::Commit);
    assert_eq!(m.step(Event::Committed { id: 5, timestamp: 77 }), Action::Push);
    assert_eq!(m.step(Event::PushFailed), Action::Wait);

    // The local snapshot persists, untouched.
    assert_eq!(m.history.len(), 1);
    assert_eq!(m.history.tip(), Some(5));
    let s = m.history.snapshot_at(0);
    assert_eq!(s.id, 5);
    assert_eq!(s.timestamp, 77);

    // Unchanged ticks afterwards never demand a push.
    for _ in 0..2 {
        assert_eq!(m.step(Event::Tick), Action::Stage);
        assert_eq!(m.step(Event::Staged { dirty: false }), Action::Wait);
    }
    assert_eq!(m.history.len(), 1);
}

/// A commit failure skips publishing and leaves the history unchanged.
#[test]
fn commit_failure_skips_push() {
    let mut m = SyncMachine::new();
    assert_eq!(m.step(Event::Tick), Action::Stage);
    assert_eq!(m.step(Event::Staged { dirty: true }), Action::Commit);
    assert_eq!(m.step(Event::CommitFailed), Action::Wait);
    assert_eq!(m.state, SyncState::Idle);
    assert_eq!(m.history.len(), 0);
}

/// A staging failure abandons the cycle only.
#[test]
fn stage_failure_abandons_cycle() {
    let mut m = SyncMachine::new();
    assert_eq!(m.step(Event::Tick), Action::Stage);
    assert_eq!(m.step(Event::StageFailed), Action::Wait);
    assert_eq!(m.state, SyncState::Idle);
    assert_eq!(m.history.len(), 0);

    // The next cycle proceeds normally.
    assert_eq!(m.step(Event::Tick), Action::Stage);
    assert_eq!(m.step(Event::Staged { dirty: true }), Action::Commit);
    assert_eq!(m.step(Event::Committed { id: 1, timestamp: 1 }), Action::Push);
    assert_eq!(m.step(Event::Pushed), Action::Wait);
    assert_eq!(m.history.len(), 1);
}

/// The ref mapping is fixed: local `main` to remote `main`.
#[test]
fn refspec_is_fixed() {
    assert_eq!(
        gitsyncpush::sync::push_refspec(),
        "refs/heads/main:refs/heads/main"
    );
}

/// Events that cannot follow the current state change nothing.
#[test]
fn unexpected_events_are_ignored() {
    let mut m = SyncMachine::new();
    assert_eq!(m.step(Event::Pushed), Action::Wait);
    assert_eq!(m.step(Event::Committed { id: 1, timestamp: 1 }), Action::Wait);
    assert_eq!(m.state, SyncState::Idle);
    assert_eq!(m.history.len(), 0);
}

/// No event leaves the terminal state.
#[test]
fn terminated_is_final() {
    let mut m = SyncMachine::new();
    assert_eq!(m.step(Event::Cancelled), Action::Stage);
    assert_eq!(m.step(Event::Staged { dirty: false }), Action::Exit);
    for e in [
        Event::Tick,
        Event::Cancelled,
        Event::Staged { dirty: true },
        Event::Committed { id: 3, timestamp: 3 },
        Event::Pushed,
    ] {
        assert_eq!(m.step(e), Action::Exit);
        assert_eq!(m.state, SyncState::Terminated);
    }
    assert_eq!(m.history.len(), 0);
}
