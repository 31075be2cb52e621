//! Periodic working-tree synchronization: a verified model of the sync loop
//! that snapshots local changes into linear history and publishes the tip,
//! together with the readiness state read by an orchestration probe.

pub mod cli;
pub mod health;
pub mod history;
pub mod sync;
pub mod timefmt;
