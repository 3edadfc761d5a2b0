use vero_core_contracts::contract::VeroContract;
use vero_core_contracts::gas::{get_estimated_cost, BASE_INVOCATION_COST};
use vero_core_contracts::storage::{active_task_key, archived_task_key, task_voters_key, get_task_voters};
use vero_core_contracts::treasury::{cancel_withdrawal, execute_withdrawal, get_withdrawal_request, request_withdrawal};
use vero_core_contracts::task::register_tasks;
use vero_core_contracts::types::{BatchCall, ContractError, DataKey, Effect, Event, Operation, Task};

const ADMIN: u64 = 1;
const TOKEN: u64 = 2;
const VAULT: u64 = 3;
const DRIPS: u64 = 4;
const CONTRIBUTOR: u64 = 5;
/// The contract's own account.
const CONTRACT: u64 = 1000;
const LOCK_THRESHOLD: i128 = 100;
const DAY: u64 = 86400;
const THIRTY_DAYS: u64 = 30 * 24 * 60 * 60;

fn setup() -> VeroContract {
    let mut c = VeroContract::new(CONTRACT);
    c.initialize(ADMIN, TOKEN, LOCK_THRESHOLD).unwrap();
    c
}

/// A guardian with a reputation and enough locked tokens to vote.
fn voter(c: &mut VeroContract, guardian: u64, score: u64) {
    c.add_guardian(ADMIN, guardian).unwrap();
    c.set_reputation(ADMIN, guardian, score).unwrap();
    c.lock_tokens(guardian, LOCK_THRESHOLD + 1).unwrap();
}

// ─── Gas estimates ──────────────────────────────────────────────────

#[test]
fn test_all_costs_above_base_invocation_overhead() {
    let ops = [
        Operation::RegisterTask,
        Operation::Vote,
        Operation::AddGuardian,
        Operation::SetReputation,
        Operation::LockTokens,
        Operation::UnlockTokens,
        Operation::ResignGuardian,
        Operation::SetWeightThreshold,
        Operation::StartRewardStream,
        Operation::TogglePause,
        Operation::RecordFailure,
        Operation::ResetCircuitBreaker,
        Operation::UpgradeContract,
        Operation::RecordSnapshot,
        Operation::PurgeTask,
    ];
    for op in ops {
        assert!(get_estimated_cost(op) > BASE_INVOCATION_COST, "{:?} is below base overhead", op);
        assert!(get_estimated_cost(op) <= get_estimated_cost(Operation::UpgradeContract));
    }
}

#[test]
fn estimated_costs_match_the_schedule() {
    let c = VeroContract::new(CONTRACT);
    assert_eq!(get_estimated_cost(Operation::RegisterTask), 1_000_000);
    assert_eq!(get_estimated_cost(Operation::Vote), 1_960_000);
    assert_eq!(get_estimated_cost(Operation::AddGuardian), 700_000);
    assert_eq!(get_estimated_cost(Operation::SetReputation), 700_000);
    assert_eq!(get_estimated_cost(Operation::LockTokens), 1_250_000);
    assert_eq!(get_estimated_cost(Operation::UnlockTokens), 1_300_000);
    assert_eq!(get_estimated_cost(Operation::ResignGuardian), 1_400_000);
    assert_eq!(get_estimated_cost(Operation::SetWeightThreshold), 650_000);
    assert_eq!(get_estimated_cost(Operation::StartRewardStream), 1_330_000);
    assert_eq!(get_estimated_cost(Operation::TogglePause), 730_000);
    assert_eq!(get_estimated_cost(Operation::RecordFailure), 880_000);
    assert_eq!(get_estimated_cost(Operation::ResetCircuitBreaker), 800_000);
    assert_eq!(get_estimated_cost(Operation::UpgradeContract), 2_500_000);
    assert_eq!(get_estimated_cost(Operation::RecordSnapshot), 1_830_000);
    assert_eq!(get_estimated_cost(Operation::PurgeTask), 2_030_000);
    assert_eq!(c.get_estimated_cost(Operation::Vote), 1_960_000);
}

#[test]
fn error_codes_are_stable() {
    assert_eq!(ContractError::NotAuthorized.code(), 1);
    assert_eq!(ContractError::NotInitialized.code(), 7);
    assert_eq!(ContractError::ContractPaused.code(), 15);
    assert_eq!(ContractError::WithdrawalTimelockActive.code(), 23);
    assert_eq!(ContractError::TimeLockActive.code(), 28);
}

#[test]
fn storage_keys_name_the_task() {
    assert_eq!(active_task_key(7), DataKey::Task(7));
    assert_eq!(archived_task_key(7), DataKey::ArchivedTask(7));
    assert_eq!(task_voters_key(7), DataKey::TaskVoters(7));
}

// ─── Weighted consensus ─────────────────────────────────────────────

#[test]
fn test_single_high_rep_guardian_resolves_task() {
    let mut c = setup();
    c.set_weight_threshold(ADMIN, 300).unwrap();
    voter(&mut c, 10, 300);
    c.register_task(ADMIN, 1).unwrap();
    let effects = c.vote(10, 1, 5_000).unwrap();
    assert_eq!(effects, vec![
        Effect::Emit(Event::TaskResolved { task_id: 1, total_weight: 300 }),
        Effect::Emit(Event::WeightedVote { task_id: 1, guardian: 10, weight: 300 }),
    ]);

    let task = c.get_task(1).unwrap();
    assert_eq!(task.votes, 1);
    assert_eq!(task.total_weight_accrued, 300);
    assert!(task.is_done);
    assert_eq!(task.resolved_at, 5_000);
}

#[test]
fn test_weight_vs_count_logic() {
    let mut c = setup();
    c.set_weight_threshold(ADMIN, 300).unwrap();
    voter(&mut c, 10, 200);
    voter(&mut c, 11, 150);
    c.register_task(ADMIN, 20).unwrap();
    c.vote(10, 20, 1).unwrap();
    assert!(!c.get_task(20).unwrap().is_done);
    c.vote(11, 20, 2).unwrap();

    let task = c.get_task(20).unwrap();
    assert_eq!(task.votes, 2);
    assert_eq!(task.total_weight_accrued, 350);
    assert!(task.is_done);
    assert_eq!(task.resolved_at, 2);
}

#[test]
fn test_insufficient_weight_does_not_resolve_task() {
    let mut c = setup();
    c.set_weight_threshold(ADMIN, 600).unwrap();
    c.register_task(ADMIN, 100).unwrap();
    for g in 10..15u64 {
        voter(&mut c, g, 100);
        c.vote(g, 100, 1).unwrap();
    }
    let task = c.get_task(100).unwrap();
    assert_eq!(task.votes, 5);
    assert_eq!(task.total_weight_accrued, 500);
    assert!(!task.is_done);
    assert_eq!(get_task_voters(&c, 100), vec![10, 11, 12, 13, 14]);
}

#[test]
fn resolving_vote_releases_escrow_once() {
    let mut c = setup();
    c.set_vault_address(ADMIN, VAULT).unwrap();
    voter(&mut c, 10, 300);
    voter(&mut c, 11, 300);
    c.register_task(ADMIN, 7).unwrap();
    assert_eq!(c.vote(10, 7, 1).unwrap(), vec![
        Effect::Emit(Event::TaskResolved { task_id: 7, total_weight: 300 }),
        Effect::ReleaseFunds { vault: VAULT, task_id: 7 },
        Effect::Emit(Event::WeightedVote { task_id: 7, guardian: 10, weight: 300 }),
    ]);
    assert_eq!(c.vote(11, 7, 2).unwrap(), vec![Effect::Emit(Event::WeightedVote { task_id: 7, guardian: 11, weight: 300 })]);
    let task = c.get_task(7).unwrap();
    assert_eq!(task.resolved_at, 1);
    assert_eq!(task.total_weight_accrued, 600);
}

#[test]
fn vote_rejections_report_their_cause() {
    let mut c = VeroContract::new(CONTRACT);
    assert_eq!(c.add_guardian(ADMIN, 10), Err(ContractError::NotInitialized));
    // a guardian, but no token yet
    c.guardians.insert(10, true);
    assert_eq!(c.vote(10, 1, 0), Err(ContractError::NotInitialized));

    let mut c = setup();
    assert_eq!(c.vote(10, 1, 0), Err(ContractError::NotAuthorized));
    c.add_guardian(ADMIN, 10).unwrap();
    assert_eq!(c.vote(10, 1, 0), Err(ContractError::InsufficientLockedBalance));
    c.lock_tokens(10, LOCK_THRESHOLD).unwrap();
    // a balance equal to the threshold is not enough
    assert_eq!(c.vote(10, 1, 0), Err(ContractError::InsufficientLockedBalance));
    c.lock_tokens(10, 1).unwrap();
    assert_eq!(c.vote(10, 1, 0), Err(ContractError::NoReputationScore));
    assert_eq!(c.set_reputation(ADMIN, 10, 0), Err(ContractError::InvalidReputation));
    // a zero score can only come from storage written outside the entry points
    c.reputations.insert(10, 0);
    assert_eq!(c.vote(10, 1, 0), Err(ContractError::ZeroWeightVote));
    c.set_reputation(ADMIN, 10, 100).unwrap();
    assert_eq!(c.vote(10, 1, 0), Err(ContractError::TaskNotFound));
    c.register_task(ADMIN, 1).unwrap();
    c.cancel_task(ADMIN, 1).unwrap();
    assert_eq!(c.vote(10, 1, 0), Err(ContractError::TaskCancelled));

    c.register_task(ADMIN, 2).unwrap();
    c.vote(10, 2, 0).unwrap();
    assert_eq!(c.vote(10, 2, 0), Err(ContractError::DuplicateVote));
    assert_eq!(c.get_task(2).unwrap().votes, 1);

    c.pause(ADMIN).unwrap();
    c.register_task(ADMIN, 3).unwrap_err();
    assert_eq!(c.vote(10, 3, 0), Err(ContractError::ContractPaused));
}

#[test]
fn vote_weight_overflow_is_refused_without_change() {
    let mut c = setup();
    voter(&mut c, 10, 300);
    c.register_task(ADMIN, 1).unwrap();
    let mut full = c.get_task(1).unwrap();
    full.total_weight_accrued = u64::MAX - 299;
    c.tasks.insert(1, full);
    assert_eq!(c.vote(10, 1, 0), Err(ContractError::WeightOverflow));
    assert_eq!(c.get_task(1).unwrap(), full);
    assert!(get_task_voters(&c, 1).is_empty());
}

#[test]
fn vote_counter_saturates() {
    let mut c = setup();
    voter(&mut c, 10, 300);
    let task = Task { id: 1, votes: u32::MAX, is_done: false, total_weight_accrued: 0, is_cancelled: false, resolved_at: 0 };
    c.tasks.insert(1, task);
    c.vote(10, 1, 4).unwrap();
    let after = c.get_task(1).unwrap();
    assert_eq!(after.votes, u32::MAX);
    assert_eq!(after.total_weight_accrued, 300);
    assert!(after.is_done);
}

// ─── Guardians and reputation ───────────────────────────────────────

#[test]
fn test_calculate_voting_power_returns_score() {
    let mut c = setup();
    c.add_guardian(ADMIN, 10).unwrap();
    c.set_reputation(ADMIN, 10, 150).unwrap();
    assert_eq!(c.calculate_voting_power(10), Some(150));
    c.set_reputation(ADMIN, 10, 500).unwrap();
    assert_eq!(c.get_reputation(10), Some(500));
    assert_eq!(c.calculate_voting_power(10), Some(500));
    c.remove_guardian(ADMIN, 10).unwrap();
    assert!(!c.is_guardian(10));
    assert_eq!(c.calculate_voting_power(10), None);
}

// ─── Pause and circuit breaker ──────────────────────────────────────

#[test]
fn test_admin_can_toggle_pause() {
    let mut c = setup();
    assert!(!c.is_paused());
    c.toggle_pause(ADMIN).unwrap();
    assert!(c.is_paused());
    c.toggle_pause(ADMIN).unwrap();
    assert!(!c.is_paused());
}

#[test]
fn paused_contract_rejects_config_updates() {
    let mut c = setup();
    c.pause(ADMIN).unwrap();
    assert_eq!(c.add_guardian(ADMIN, 10), Err(ContractError::ContractPaused));
    assert_eq!(c.set_reputation(ADMIN, 10, 5), Err(ContractError::ContractPaused));
    assert_eq!(c.register_task(ADMIN, 1), Err(ContractError::ContractPaused));
    assert!(c.get_task(1).is_none());
    c.unpause(ADMIN).unwrap();
    c.add_guardian(ADMIN, 10).unwrap();
    assert!(c.is_guardian(10));
}

#[test]
fn circuit_breaker_pauses_after_too_many_failures() {
    let mut c = setup();
    for _ in 0..50 {
        c.record_failure();
    }
    assert!(!c.is_paused());
    c.record_failure();
    assert!(c.is_paused());
    c.reset_circuit_breaker(ADMIN);
    assert!(!c.is_paused());
    c.record_failure();
    assert!(!c.is_paused());
}

// ─── Tasks ──────────────────────────────────────────────────────────

#[test]
fn test_non_admin_cannot_register_task() {
    let mut c = setup();
    assert_eq!(c.register_task(42, 1), Err(ContractError::NotAuthorized));
    assert!(c.get_task(1).is_none());
}

#[test]
fn test_register_task_rejected_before_initialize() {
    let mut c = VeroContract::new(CONTRACT);
    assert_eq!(c.register_task(42, 1), Err(ContractError::NotInitialized));
}

#[test]
fn test_add_guardian_and_register_task() {
    let mut c = setup();
    c.add_guardian(ADMIN, 10).unwrap();
    c.register_task(ADMIN, 1).unwrap();
    let task = c.get_task(1).unwrap();
    assert_eq!(task.id, 1);
    assert_eq!(task.votes, 0);
    assert_eq!(task.total_weight_accrued, 0);
    assert_eq!(task.resolved_at, 0);
    assert!(!task.is_done);
    assert!(!task.is_cancelled);
}

#[test]
fn register_task_batch_size_boundaries_are_enforced() {
    let mut c = setup();
    let max_batch: Vec<u64> = (1..=32).collect();
    register_tasks(&mut c, ADMIN, &max_batch).unwrap();
    assert!(c.get_task(1).is_some());
    assert!(c.get_task(32).is_some());

    let oversized: Vec<u64> = (100..=132).collect();
    assert_eq!(register_tasks(&mut c, ADMIN, &oversized), Err(ContractError::BatchTooLarge));
    assert!(c.get_task(100).is_none());
    assert!(c.get_task(132).is_none());
}

#[test]
fn registering_again_keeps_the_task() {
    let mut c = setup();
    voter(&mut c, 10, 100);
    c.register_task(ADMIN, 1).unwrap();
    c.vote(10, 1, 0).unwrap();
    c.register_task(ADMIN, 1).unwrap();
    assert_eq!(c.get_task(1).unwrap().votes, 1);
}

// ─── Archive and purge ──────────────────────────────────────────────

#[test]
fn archive_requires_a_stale_resolved_task() {
    let mut c = setup();
    voter(&mut c, 10, 300);
    c.register_task(ADMIN, 61).unwrap();
    assert_eq!(c.archive_task(61, 0), Err(ContractError::TaskNotVerified));
    assert_eq!(c.archive_task(62, 0), Err(ContractError::TaskNotFound));
    c.vote(10, 61, 1_000).unwrap();
    assert_eq!(c.archive_task(61, 1_000 + THIRTY_DAYS), Err(ContractError::TaskNotStale));
    c.archive_task(61, 1_000 + THIRTY_DAYS + 1).unwrap();
    assert!(c.get_task(61).is_none());
    assert_eq!(c.get_archived_task(61).unwrap().resolved_at, 1_000);
    assert_eq!(c.archive_task(61, u64::MAX), Err(ContractError::TaskAlreadyArchived));
}

#[test]
fn test_purge_done_task_removes_storage() {
    let mut c = setup();
    voter(&mut c, 10, 300);
    c.register_task(ADMIN, 1).unwrap();
    c.vote(10, 1, 9).unwrap();
    assert!(c.get_task(1).unwrap().is_done);
    c.purge_task(ADMIN, 1).unwrap();
    assert!(c.get_task(1).is_none());
    assert!(get_task_voters(&c, 1).is_empty());
}

#[test]
fn test_purge_cancelled_task_removes_storage() {
    let mut c = setup();
    c.register_task(ADMIN, 2).unwrap();
    c.cancel_task(ADMIN, 2).unwrap();
    assert!(c.get_task(2).unwrap().is_cancelled);
    c.purge_task(ADMIN, 2).unwrap();
    assert!(c.get_task(2).is_none());
}

#[test]
fn test_purge_active_task_reverts() {
    let mut c = setup();
    c.register_task(ADMIN, 3).unwrap();
    assert_eq!(c.purge_task(ADMIN, 3), Err(ContractError::TaskNotTerminal));
    assert!(c.get_task(3).is_some());
    assert_eq!(c.purge_task(ADMIN, 999), Err(ContractError::TaskNotFound));
    c.cancel_task(ADMIN, 3).unwrap();
    assert_eq!(c.purge_task(42, 3), Err(ContractError::NotAuthorized));
    assert!(c.get_task(3).is_some());
}

#[test]
fn test_purge_archived_task_removes_storage() {
    let mut c = setup();
    voter(&mut c, 10, 300);
    c.register_task(ADMIN, 40).unwrap();
    c.vote(10, 40, 1_000).unwrap();
    c.archive_task(40, 1_000 + THIRTY_DAYS + 1).unwrap();
    assert!(c.get_archived_task(40).is_some());
    c.purge_task(ADMIN, 40).unwrap();
    assert!(c.get_task(40).is_none());
    assert!(c.get_archived_task(40).is_none());
}

// ─── Locking and the withdrawal time-lock ───────────────────────────

#[test]
fn lock_tokens_moves_tokens_into_the_contract() {
    let mut c = VeroContract::new(CONTRACT);
    assert_eq!(c.lock_tokens(10, 50), Err(ContractError::NotInitialized));
    let mut c = setup();
    assert_eq!(c.lock_tokens(10, 50).unwrap(), vec![Effect::TransferIn { token: TOKEN, from: 10, amount: 50 }]);
    c.lock_tokens(10, 25).unwrap();
    c.remove_guardian(ADMIN, 10).unwrap();
    c.request_unlock(10, 0).unwrap();
    assert_eq!(c.unlock_tokens(10, DAY).unwrap(), vec![Effect::TransferOut { token: TOKEN, to: 10, amount: 75 }]);
}

#[test]
fn test_unlock_tokens_blocked_without_timelock_request() {
    let mut c = setup();
    c.lock_tokens(10, 150).unwrap();
    assert_eq!(c.unlock_tokens(10, 1_000_000), Err(ContractError::WithdrawalTimelockActive));
}

#[test]
fn test_request_unlock_initiates_timelock() {
    let mut c = setup();
    voter(&mut c, 10, 300);
    c.request_unlock(10, 77).unwrap();
    assert_eq!(c.get_withdrawal_timelock(10), Some(77));
}

#[test]
fn test_unlock_tokens_blocked_before_24_hours() {
    let mut c = setup();
    voter(&mut c, 10, 300);
    c.remove_guardian(ADMIN, 10).unwrap();
    c.request_unlock(10, 1_000).unwrap();
    assert_eq!(c.unlock_tokens(10, 1_000 + DAY - 1), Err(ContractError::WithdrawalTimelockActive));
    assert_eq!(c.get_withdrawal_timelock(10), Some(1_000));
}

#[test]
fn test_unlock_tokens_succeeds_after_24_hours() {
    let mut c = setup();
    voter(&mut c, 10, 300);
    c.remove_guardian(ADMIN, 10).unwrap();
    c.request_unlock(10, 1_000).unwrap();
    let effects = c.unlock_tokens(10, 1_000 + DAY + 1).unwrap();
    assert_eq!(effects, vec![Effect::TransferOut { token: TOKEN, to: 10, amount: LOCK_THRESHOLD + 1 }]);
    assert!(c.get_withdrawal_timelock(10).is_none());
    // nothing is left to pay out
    c.request_unlock(10, 2_000_000).unwrap();
    assert!(c.unlock_tokens(10, 2_000_000 + DAY).unwrap().is_empty());
}

#[test]
fn test_request_unlock_fails_if_still_guardian() {
    let mut c = setup();
    voter(&mut c, 10, 300);
    c.request_unlock(10, 0).unwrap();
    assert_eq!(c.unlock_tokens(10, DAY + 1), Err(ContractError::StillGuardian));
}

#[test]
fn test_resign_guardian_blocked_before_24_hours() {
    let mut c = setup();
    voter(&mut c, 10, 300);
    c.request_unlock(10, 500).unwrap();
    assert_eq!(c.resign_guardian(10, 501), Err(ContractError::WithdrawalTimelockActive));
    assert!(c.is_guardian(10));
}

#[test]
fn test_resign_guardian_succeeds_after_24_hours() {
    let mut c = setup();
    voter(&mut c, 10, 300);
    c.request_unlock(10, 500).unwrap();
    let effects = c.resign_guardian(10, 500 + DAY + 1).unwrap();
    assert_eq!(effects, vec![Effect::TransferOut { token: TOKEN, to: 10, amount: LOCK_THRESHOLD + 1 }]);
    assert!(!c.is_guardian(10));
    assert_eq!(c.resign_guardian(10, 500 + DAY + 1), Err(ContractError::NotGuardian));
}

// ─── Reward streams ─────────────────────────────────────────────────

#[test]
fn reward_stream_requires_a_resolved_task_and_is_unique() {
    let mut c = setup();
    assert_eq!(c.start_reward_stream(ADMIN, DRIPS, CONTRIBUTOR, 999), Err(ContractError::TaskNotVerified));
    voter(&mut c, 10, 300);
    c.register_task(ADMIN, 77).unwrap();
    assert_eq!(c.start_reward_stream(ADMIN, DRIPS, CONTRIBUTOR, 77), Err(ContractError::TaskNotVerified));
    c.vote(10, 77, 1).unwrap();
    let effects = c.start_reward_stream(ADMIN, DRIPS, CONTRIBUTOR, 77).unwrap();
    assert_eq!(effects, vec![
        Effect::StartStream { drips: DRIPS, contributor: CONTRIBUTOR, task_id: 77 },
        Effect::Emit(Event::RewardStreamStarted { task_id: 77, contributor: CONTRIBUTOR }),
    ]);
    let stream = c.get_reward_stream(77).unwrap();
    assert_eq!(stream.task_id, 77);
    assert_eq!(stream.contributor, CONTRIBUTOR);
    assert_eq!(stream.drips_contract, DRIPS);
    assert!(stream.active);
    assert_eq!(c.start_reward_stream(ADMIN, DRIPS, CONTRIBUTOR, 77), Err(ContractError::StreamAlreadyActive));
}

// ─── Snapshots ──────────────────────────────────────────────────────

#[test]
fn valid_admin_config_update_succeeds() {
    let mut c = setup();
    c.add_guardian(ADMIN, 10).unwrap();
    c.set_reputation(ADMIN, 10, 500).unwrap();
    c.set_weight_threshold(ADMIN, 500).unwrap();
    c.set_vault_address(ADMIN, VAULT).unwrap();
    assert_eq!(c.get_weight_threshold(), 500);
    assert!(c.is_guardian(10));
    assert_eq!(c.get_reputation(10), Some(500));
    let snapshot = c.get_snapshot(12);
    assert_eq!(snapshot.vault_address, Some(VAULT));
    assert_eq!(snapshot.weight_threshold, 500);
    assert_eq!(snapshot.timestamp, 12);
}

#[test]
fn recorded_snapshots_can_be_read_back() {
    let mut c = setup();
    assert_eq!(c.get_snapshot_at(5).unwrap_err(), ContractError::SnapshotNotFound);
    c.register_task(ADMIN, 1).unwrap();
    assert_eq!(c.record_snapshot(5).unwrap(), vec![Effect::Emit(Event::SnapshotRecorded { timestamp: 5 })]);
    c.register_task(ADMIN, 2).unwrap();
    c.record_snapshot(9).unwrap();
    assert_eq!(c.get_snapshot_history(), vec![5, 9]);
    let first = c.get_snapshot_at(5).unwrap();
    assert_eq!(first.timestamp, 5);
    assert_eq!(first.tasks.len(), 1);
    assert_eq!(first.admin, Some(ADMIN));
    assert_eq!(c.get_snapshot_at(9).unwrap().tasks.len(), 2);
}

// ─── Batches ────────────────────────────────────────────────────────

#[test]
fn test_batch_execute_successful() {
    let mut c = setup();
    voter(&mut c, 10, 300);
    let calls = vec![BatchCall::RegisterTask(ADMIN, 1), BatchCall::Vote(10, 1)];
    c.batch_execute(&calls, 3).unwrap();
    assert_eq!(c.get_task(1).unwrap().votes, 1);
}

#[test]
fn test_batch_execute_reverts_on_failure() {
    let mut c = setup();
    voter(&mut c, 10, 300);
    let calls = vec![BatchCall::RegisterTask(ADMIN, 2), BatchCall::Vote(10, 99)];
    assert_eq!(c.batch_execute(&calls, 3), Err(ContractError::TaskNotFound));
    assert!(c.get_task(2).is_none());
}

#[test]
fn batch_effects_come_in_call_order() {
    let mut c = setup();
    c.set_vault_address(ADMIN, VAULT).unwrap();
    c.add_guardian(ADMIN, 10).unwrap();
    c.set_reputation(ADMIN, 10, 300).unwrap();
    let calls = vec![
        BatchCall::LockTokens(10, 200),
        BatchCall::RegisterTask(ADMIN, 1),
        BatchCall::Vote(10, 1),
        BatchCall::TogglePause(ADMIN),
    ];
    let effects = c.batch_execute(&calls, 3).unwrap();
    assert_eq!(effects, vec![
        Effect::TransferIn { token: TOKEN, from: 10, amount: 200 },
        Effect::Emit(Event::TaskResolved { task_id: 1, total_weight: 300 }),
        Effect::ReleaseFunds { vault: VAULT, task_id: 1 },
        Effect::Emit(Event::WeightedVote { task_id: 1, guardian: 10, weight: 300 }),
    ]);
    assert!(c.is_paused());
}

// ─── Treasury ───────────────────────────────────────────────────────

#[test]
fn treasury_withdrawal_waits_for_its_timelock() {
    let mut c = VeroContract::new(CONTRACT);
    assert_eq!(request_withdrawal(&mut c, ADMIN, 20, 500, 10), Err(ContractError::NotInitialized));
    let mut c = setup();
    assert_eq!(request_withdrawal(&mut c, 42, 20, 500, 10), Err(ContractError::NotAuthorized));
    let (id, requested) = request_withdrawal(&mut c, ADMIN, 20, 500, 10).unwrap();
    assert_eq!(id, 1);
    assert_eq!(requested, vec![Effect::Emit(Event::WithdrawalRequested { id: 1, recipient: 20, amount: 500 })]);
    assert_eq!(execute_withdrawal(&mut c, id, 10 + 17_279), Err(ContractError::TimeLockActive));
    let effects = execute_withdrawal(&mut c, id, 10 + 17_280).unwrap();
    assert_eq!(effects, vec![
        Effect::TransferOut { token: TOKEN, to: 20, amount: 500 },
        Effect::Emit(Event::WithdrawalExecuted { id: 1, recipient: 20, amount: 500 }),
    ]);
    assert!(get_withdrawal_request(&c, id).unwrap().is_executed);
    assert_eq!(execute_withdrawal(&mut c, id, u32::MAX), Err(ContractError::WithdrawalAlreadyExecuted));
    assert_eq!(cancel_withdrawal(&mut c, ADMIN, id), Err(ContractError::WithdrawalAlreadyExecuted));
    assert_eq!(execute_withdrawal(&mut c, 7, u32::MAX), Err(ContractError::WithdrawalNotFound));
}

#[test]
fn cancelled_withdrawal_is_never_paid() {
    let mut c = setup();
    let (id, _) = request_withdrawal(&mut c, ADMIN, 20, 500, u32::MAX - 5).unwrap();
    let (second, _) = request_withdrawal(&mut c, ADMIN, 21, 1, 0).unwrap();
    assert_eq!(second, 2);
    // the time-lock end saturates at the last ledger
    assert_eq!(execute_withdrawal(&mut c, id, u32::MAX - 1), Err(ContractError::TimeLockActive));
    assert_eq!(cancel_withdrawal(&mut c, ADMIN, id).unwrap(), vec![Effect::Emit(Event::WithdrawalCancelled { id })]);
    assert!(get_withdrawal_request(&c, id).unwrap().is_cancelled);
    assert_eq!(execute_withdrawal(&mut c, id, u32::MAX), Err(ContractError::WithdrawalCancelled));
    assert_eq!(cancel_withdrawal(&mut c, ADMIN, id), Err(ContractError::WithdrawalCancelled));
    assert_eq!(cancel_withdrawal(&mut c, 42, second), Err(ContractError::NotAuthorized));
}

#[test]
fn timelocks_are_kept_per_account() {
    let mut c = setup();
    c.lock_tokens(10, 40).unwrap();
    c.lock_tokens(11, 60).unwrap();
    c.request_unlock(10, 100).unwrap();
    c.request_unlock(11, 5_000).unwrap();
    assert_eq!(c.unlock_tokens(10, 100 + DAY).unwrap(), vec![Effect::TransferOut { token: TOKEN, to: 10, amount: 40 }]);
    assert_eq!(c.get_withdrawal_timelock(10), None);
    assert_eq!(c.get_withdrawal_timelock(11), Some(5_000));
    assert_eq!(c.unlock_tokens(11, 100 + DAY), Err(ContractError::WithdrawalTimelockActive));
    assert_eq!(c.unlock_tokens(11, 5_000 + DAY).unwrap(), vec![Effect::TransferOut { token: TOKEN, to: 11, amount: 60 }]);
}

#[test]
fn batches_run_back_to_back_like_one_batch() {
    let mut split = setup();
    voter(&mut split, 10, 300);
    let mut whole = setup();
    voter(&mut whole, 10, 300);
    let first = vec![BatchCall::RegisterTask(ADMIN, 1), BatchCall::RegisterTask(ADMIN, 2)];
    let second = vec![BatchCall::Vote(10, 2), BatchCall::RecordFailure(ADMIN)];
    let mut effects = split.batch_execute(&first, 4).unwrap();
    effects.extend(split.batch_execute(&second, 4).unwrap());
    let all: Vec<BatchCall> = first.iter().chain(second.iter()).copied().collect();
    assert_eq!(whole.batch_execute(&all, 4).unwrap(), effects);
    assert_eq!(split.get_task(2), whole.get_task(2));
    assert_eq!(whole.get_task(2).unwrap().votes, 1);
    assert_eq!(whole.get_task(1).unwrap().id, 1);
}

// ─── Input validation ───────────────────────────────────────────────

const MAX_TASK_ID: u64 = u64::MAX / 2;
const MAX_TOKEN_AMOUNT: i128 = i128::MAX / 2;
const MAX_LOCK_THRESHOLD: i128 = MAX_TOKEN_AMOUNT - 1;
const MAX_REPUTATION_SCORE: u64 = 1_000_000_000;
const MAX_WEIGHT_THRESHOLD: u64 = 1_000_000_000_000;

#[test]
fn initialize_rejects_self_token_and_invalid_thresholds_without_mutation() {
    let mut c = VeroContract::new(CONTRACT);
    assert_eq!(c.initialize(ADMIN, CONTRACT, LOCK_THRESHOLD), Err(ContractError::InvalidAddress));
    assert_eq!(c.initialize(ADMIN, TOKEN, 0), Err(ContractError::InvalidAmount));
    assert_eq!(c.initialize(ADMIN, TOKEN, -1), Err(ContractError::InvalidAmount));
    assert_eq!(c.initialize(ADMIN, TOKEN, MAX_TOKEN_AMOUNT), Err(ContractError::InvalidAmount));
    assert_eq!(c.initialize(ADMIN, TOKEN, i128::MAX), Err(ContractError::InvalidAmount));
    assert_eq!(c.get_admin(), None);

    c.initialize(ADMIN, TOKEN, LOCK_THRESHOLD).unwrap();
    assert_eq!(c.initialize(ADMIN, TOKEN, LOCK_THRESHOLD), Err(ContractError::AlreadyInitialized));
}

#[test]
fn numeric_minimum_and_maximum_boundaries_succeed() {
    let mut c = VeroContract::new(CONTRACT);
    c.initialize(ADMIN, TOKEN, 1).unwrap();
    c.add_guardian(ADMIN, 10).unwrap();
    c.set_reputation(ADMIN, 10, 1).unwrap();
    c.set_reputation(ADMIN, 10, MAX_REPUTATION_SCORE).unwrap();
    c.set_weight_threshold(ADMIN, MAX_WEIGHT_THRESHOLD).unwrap();
    c.register_task(ADMIN, MAX_TASK_ID).unwrap();
    c.lock_tokens(10, MAX_TOKEN_AMOUNT).unwrap();
    assert_eq!(c.get_reputation(10), Some(MAX_REPUTATION_SCORE));
    assert_eq!(c.get_weight_threshold(), MAX_WEIGHT_THRESHOLD);
    assert!(c.get_task(MAX_TASK_ID).is_some());
}

#[test]
fn maximum_lock_threshold_still_allows_max_balance_vote() {
    let mut c = VeroContract::new(CONTRACT);
    c.initialize(ADMIN, TOKEN, MAX_LOCK_THRESHOLD).unwrap();
    c.add_guardian(ADMIN, 10).unwrap();
    c.set_reputation(ADMIN, 10, 300).unwrap();
    c.register_task(ADMIN, 1).unwrap();
    c.lock_tokens(10, MAX_TOKEN_AMOUNT).unwrap();
    c.vote(10, 1, 0).unwrap();
    let task = c.get_task(1).unwrap();
    assert!(task.is_done);
    assert_eq!(task.total_weight_accrued, 300);
}

#[test]
fn guardian_address_validation_rejects_self_and_duplicate_roles() {
    let mut c = setup();
    assert_eq!(c.add_guardian(ADMIN, CONTRACT), Err(ContractError::InvalidAddress));
    assert_eq!(c.add_guardian(ADMIN, ADMIN), Err(ContractError::InvalidAddress));
    assert_eq!(c.add_guardian(42, 10), Err(ContractError::NotAuthorized));
    assert!(!c.is_guardian(CONTRACT));
    assert!(!c.is_guardian(ADMIN));
    assert!(!c.is_guardian(10));
}

#[test]
fn reputation_validation_rejects_zero_over_max_and_non_guardian() {
    let mut c = setup();
    c.add_guardian(ADMIN, 10).unwrap();
    c.set_reputation(ADMIN, 10, 100).unwrap();
    assert_eq!(c.set_reputation(ADMIN, 10, 0), Err(ContractError::InvalidReputation));
    assert_eq!(c.set_reputation(ADMIN, 10, u64::MAX), Err(ContractError::InvalidReputation));
    assert_eq!(c.set_reputation(ADMIN, 11, 100), Err(ContractError::NotGuardian));
    assert_eq!(c.get_reputation(10), Some(100));
    assert_eq!(c.get_reputation(11), None);
}

#[test]
fn weight_threshold_validation_rejects_zero_and_over_max_without_mutation() {
    let mut c = setup();
    c.set_weight_threshold(ADMIN, 750).unwrap();
    assert_eq!(c.get_weight_threshold(), 750);
    assert_eq!(c.set_weight_threshold(ADMIN, 0), Err(ContractError::InvalidThreshold));
    assert_eq!(c.set_weight_threshold(ADMIN, u64::MAX), Err(ContractError::InvalidThreshold));
    assert_eq!(c.set_weight_threshold(CONTRACT, 500), Err(ContractError::NotAuthorized));
    c.pause(ADMIN).unwrap();
    assert_eq!(c.set_weight_threshold(ADMIN, 500), Err(ContractError::ContractPaused));
    assert_eq!(c.get_weight_threshold(), 750);
}

#[test]
fn task_id_validation_rejects_zero_and_over_max_without_mutation() {
    let mut c = setup();
    assert_eq!(c.register_task(ADMIN, 0), Err(ContractError::InvalidTaskId));
    assert_eq!(c.register_task(ADMIN, u64::MAX), Err(ContractError::InvalidTaskId));
    assert_eq!(c.register_task(CONTRACT, 42), Err(ContractError::NotAuthorized));
    assert!(c.get_task(0).is_none());
    assert!(c.get_task(u64::MAX).is_none());
    assert!(c.get_task(42).is_none());
    c.register_task(ADMIN, 42).unwrap();
    assert!(c.get_task(42).is_some());
}

#[test]
fn vault_address_validation_rejects_self_without_mutation() {
    let mut c = setup();
    c.set_vault_address(ADMIN, VAULT).unwrap();
    assert_eq!(c.get_snapshot(0).vault_address, Some(VAULT));
    assert_eq!(c.set_vault_address(ADMIN, CONTRACT), Err(ContractError::InvalidAddress));
    assert_eq!(c.get_snapshot(0).vault_address, Some(VAULT));
}

#[test]
fn reward_stream_validation_rejects_invalid_addresses_and_ids() {
    let mut c = setup();
    voter(&mut c, 10, 300);
    c.register_task(ADMIN, 77).unwrap();
    c.vote(10, 77, 1).unwrap();
    assert_eq!(c.start_reward_stream(ADMIN, CONTRACT, CONTRIBUTOR, 77), Err(ContractError::InvalidAddress));
    assert_eq!(c.start_reward_stream(ADMIN, DRIPS, CONTRACT, 77), Err(ContractError::InvalidAddress));
    assert_eq!(c.start_reward_stream(ADMIN, CONTRIBUTOR, CONTRIBUTOR, 77), Err(ContractError::InvalidAddress));
    assert_eq!(c.start_reward_stream(ADMIN, DRIPS, CONTRIBUTOR, 0), Err(ContractError::InvalidTaskId));
    assert!(c.get_reward_stream(77).is_none());
    c.start_reward_stream(ADMIN, DRIPS, CONTRIBUTOR, 77).unwrap();
    assert!(c.get_reward_stream(77).unwrap().active);
}

#[test]
fn token_amount_validation_rejects_zero_negative_and_over_max_without_locking() {
    let mut c = setup();
    c.add_guardian(ADMIN, 10).unwrap();
    c.set_reputation(ADMIN, 10, 300).unwrap();
    c.register_task(ADMIN, 88).unwrap();
    assert_eq!(c.lock_tokens(10, 0), Err(ContractError::InvalidAmount));
    assert_eq!(c.lock_tokens(10, -1), Err(ContractError::InvalidAmount));
    assert_eq!(c.lock_tokens(10, i128::MAX), Err(ContractError::InvalidAmount));
    assert_eq!(c.vote(10, 88, 0), Err(ContractError::InsufficientLockedBalance));
    c.lock_tokens(10, LOCK_THRESHOLD + 1).unwrap();
    c.vote(10, 88, 0).unwrap();
    assert_eq!(c.get_task(88).unwrap().votes, 1);
}

#[test]
fn aggregate_locked_amount_above_max_is_rejected_without_transfer() {
    let mut c = setup();
    c.add_guardian(ADMIN, 10).unwrap();
    c.set_reputation(ADMIN, 10, 300).unwrap();
    c.lock_tokens(10, MAX_TOKEN_AMOUNT).unwrap();
    assert_eq!(c.lock_tokens(10, 1), Err(ContractError::InvalidAmount));
    c.register_task(ADMIN, 89).unwrap();
    c.vote(10, 89, 0).unwrap();
    assert_eq!(c.get_task(89).unwrap().votes, 1);
}

#[test]
fn checked_batch_refuses_a_timelock_end_beyond_the_clock() {
    let mut c = setup();
    c.lock_tokens(10, 50).unwrap();
    c.timelocks.insert(10, u64::MAX);
    let calls = vec![BatchCall::RegisterTask(ADMIN, 1), BatchCall::UnlockTokens(10)];
    assert!(!c.call_within_limits(BatchCall::UnlockTokens(10)));
    assert_eq!(c.checked_batch_execute(&calls, 5), None);
    assert!(c.get_task(1).is_none());
    // a refused call before the unlock ends the batch first
    let refused = vec![BatchCall::RegisterTask(ADMIN, 0), BatchCall::UnlockTokens(10)];
    assert_eq!(c.checked_batch_execute(&refused, 5), Some(Err(ContractError::InvalidTaskId)));
}

#[test]
fn any_authenticated_caller_sets_the_vault() {
    let mut c = VeroContract::new(CONTRACT);
    c.set_vault_address(42, VAULT).unwrap();
    assert_eq!(c.get_snapshot(0).vault_address, Some(VAULT));
    let mut c = setup();
    c.set_vault_address(42, VAULT).unwrap();
    assert_eq!(c.get_snapshot(0).vault_address, Some(VAULT));
}
