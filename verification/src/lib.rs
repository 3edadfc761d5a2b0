//! Vero core contract logic: weighted guardian consensus over tasks, token
//! locking with a withdrawal time-lock, a treasury with delayed withdrawals,
//! an emergency pause with a failure-count circuit breaker, and state
//! snapshots.
//!
//! The host environment (storage, authentication, token and cross-contract
//! calls, events) is kept out of this crate: every entry point is a method
//! of [`contract::VeroContract`], which holds the whole contract state as
//! plain values and returns the outside work to perform as [`types::Effect`]s.
use vstd::prelude::*;

pub mod types;
pub mod validation;
pub mod gas;
pub mod consensus;
pub mod timelock;
pub mod storage;
pub mod contract;
pub mod task;
pub mod logic;
pub mod treasury;
pub mod guarantees;

verus! {

/// Weight a task needs when no threshold has been configured.
pub const DEFAULT_WEIGHT_THRESHOLD: u64 = 300;

} // verus!
