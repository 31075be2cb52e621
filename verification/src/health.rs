//! The readiness state shared with the probe server: a flag that is false
//! until initial repository setup completes, then true for the remainder of
//! the process, and the exact probe response derived from it.

use vstd::prelude::*;

verus! {

/// HTTP status for a ready repository.
pub const STATUS_READY: u16 = 200;

/// HTTP status for a repository that is not ready yet.
pub const STATUS_NOT_READY: u16 = 503;

/// The state the readiness probe reads. The flag starts false and the only
/// mutation offered, [`AppState::mark_ready`], sets it true, so across any
/// sequence of calls it moves from false to true at most once and never
/// reverts.
pub struct AppState {
    is_repo_ready: bool,
}

impl AppState {
    /// Whether initial repository setup has completed.
    pub closed spec fn spec_ready(self) -> bool {
        self.is_repo_ready
    }

    /// Before setup: not ready.
    pub fn new() -> (s: AppState)
        ensures
            !s.spec_ready(),
    {
        AppState { is_repo_ready: false }
    }

    /// Record that initial setup completed. Monotone: there is no way back.
    pub fn mark_ready(&mut self)
        ensures
            final(self).spec_ready(),
    {
        self.is_repo_ready = true;
    }

    /// Whether the repository is ready, as the probe reads it.
    pub fn is_ready(&self) -> (r: bool)
        ensures
            r == self.spec_ready(),
    {
        self.is_repo_ready
    }

    /// The readiness probe response: `503 "Repository is not ready"` before
    /// setup completes and `200 "Repository is ready"` afterward.
    pub fn probe_response(&self) -> (r: (u16, String))
        ensures
            self.spec_ready() ==> r.0 == STATUS_READY && r.1@ == "Repository is ready"@,
            !self.spec_ready() ==> r.0 == STATUS_NOT_READY && r.1@ == "Repository is not ready"@,
    {
        if self.is_repo_ready {
            (STATUS_READY, String::from_str("Repository is ready"))
        } else {
            (STATUS_NOT_READY, String::from_str("Repository is not ready"))
        }
    }
}

} // verus!
