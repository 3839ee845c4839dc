//! What is read back of what was written.

pub mod approvals;
pub mod checkpoints;
pub mod evals;
pub mod knowledge;
pub mod messages;
pub mod policies;
pub mod providers;
pub mod runs;
pub mod sessions;
pub mod tasks;
pub mod tenants;
pub mod tools;
pub mod triggers;
