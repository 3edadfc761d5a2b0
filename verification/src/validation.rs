//! The ranges of accepted inputs.
use vstd::prelude::*;

verus! {

/// The largest task id: half of `u64::MAX`.
pub const MAX_TASK_ID: u64 = 9_223_372_036_854_775_807;
/// The largest token amount, for one lock and for a locked balance: half
/// of `i128::MAX`.
pub const MAX_TOKEN_AMOUNT: i128 = 85_070_591_730_234_615_865_843_651_857_942_052_863;
/// The largest lock threshold: a full locked balance must still exceed it.
pub const MAX_LOCK_THRESHOLD: i128 = 85_070_591_730_234_615_865_843_651_857_942_052_862;
/// The largest reputation score.
pub const MAX_REPUTATION_SCORE: u64 = 1_000_000_000;
/// The largest weight threshold.
pub const MAX_WEIGHT_THRESHOLD: u64 = 1_000_000_000_000;

pub open spec fn valid_task_id(task_id: u64) -> bool {
    1 <= task_id <= MAX_TASK_ID
}

pub open spec fn valid_amount(amount: i128) -> bool {
    0 < amount <= MAX_TOKEN_AMOUNT
}

pub open spec fn valid_lock_threshold(threshold: i128) -> bool {
    0 < threshold <= MAX_LOCK_THRESHOLD
}

pub open spec fn valid_reputation(score: u64) -> bool {
    0 < score <= MAX_REPUTATION_SCORE
}

pub open spec fn valid_weight_threshold(threshold: u64) -> bool {
    0 < threshold <= MAX_WEIGHT_THRESHOLD
}

pub fn is_valid_task_id(task_id: u64) -> (b: bool)
    ensures
        b == valid_task_id(task_id),
{
    1 <= task_id && task_id <= MAX_TASK_ID
}

pub fn is_valid_amount(amount: i128) -> (b: bool)
    ensures
        b == valid_amount(amount),
{
    0 < amount && amount <= MAX_TOKEN_AMOUNT
}

pub fn is_valid_lock_threshold(threshold: i128) -> (b: bool)
    ensures
        b == valid_lock_threshold(threshold),
{
    0 < threshold && threshold <= MAX_LOCK_THRESHOLD
}

pub fn is_valid_reputation(score: u64) -> (b: bool)
    ensures
        b == valid_reputation(score),
{
    0 < score && score <= MAX_REPUTATION_SCORE
}

pub fn is_valid_weight_threshold(threshold: u64) -> (b: bool)
    ensures
        b == valid_weight_threshold(threshold),
{
    0 < threshold && threshold <= MAX_WEIGHT_THRESHOLD
}

} // verus!
