//! Token locking, withdrawal of locked tokens, guardian voting and state
//! snapshots.
use vstd::prelude::*;
use crate::types::{AccountId, ContractError, Effect, Event, Task, Snapshot, SnapshotView};
use crate::validation::{valid_amount, is_valid_amount, MAX_TOKEN_AMOUNT};
use crate::contract::{VeroContract, ContractView, applies, effects_view, snapshot_views};
use crate::consensus::{ConsensusState, ConsensusError, apply_vote, saturating_incr};
use crate::timelock::{timelock_outcome, timelock_end_fits, check_timelock_expired, clear_timelock, initiate_withdrawal};
use crate::storage::{has_voted, append_task_voter};

verus! {

broadcast use vstd::std_specs::hash::group_hash_axioms;

// ─── Locking and unlocking tokens ─────────────────────────────────────────

/// Locking `amount` tokens of `guardian`: the amount and the resulting
/// locked balance must lie in the accepted range; the tokens move into the
/// contract and the guardian's locked balance grows by `amount`.
pub open spec fn lock_outcome(v: ContractView, guardian: AccountId, amount: i128) -> Result<(ContractView, Seq<Effect>), ContractError> {
    if !valid_amount(amount) {
        Err(ContractError::InvalidAmount)
    } else {
        match v.token {
            None => Err(ContractError::NotInitialized),
            Some(token) => if v.locked_balance(guardian) + amount > MAX_TOKEN_AMOUNT {
                Err(ContractError::InvalidAmount)
            } else {
                Ok((
                    ContractView { locked: v.locked.insert(guardian, (v.locked_balance(guardian) + amount) as i128), ..v },
                    seq![Effect::TransferIn { token, from: guardian, amount }],
                ))
            },
        }
    }
}

pub fn lock_tokens(state: &mut VeroContract, guardian: AccountId, amount: i128) -> (r: Result<Vec<Effect>, ContractError>)
    ensures
        applies(old(state)@, final(state)@, effects_view(r), lock_outcome(old(state)@, guardian, amount)),
{
    if !is_valid_amount(amount) {
        return Err(ContractError::InvalidAmount);
    }
    let token = match state.token {
        Some(t) => t,
        None => {
            return Err(ContractError::NotInitialized);
        },
    };
    let prev: i128 = match state.locked.get(&guardian) {
        Some(b) => *b,
        None => 0,
    };
    if prev > MAX_TOKEN_AMOUNT - amount {
        return Err(ContractError::InvalidAmount);
    }
    state.locked.insert(guardian, prev + amount);
    let mut effects: Vec<Effect> = Vec::new();
    effects.push(Effect::TransferIn { token, from: guardian, amount });
    Ok(effects)
}

/// Starts the withdrawal time-lock of `guardian`.
pub fn request_unlock(state: &mut VeroContract, guardian: AccountId, now: u64) -> (r: Result<(), ContractError>)
    ensures
        r == Ok::<(), ContractError>(()),
        final(state)@ == (ContractView { timelocks: old(state)@.timelocks.insert(guardian, now), ..old(state)@ }),
{
    initiate_withdrawal(state, guardian, now);
    Ok(())
}

/// Paying out the locked tokens of `guardian` and clearing its time-lock.
pub open spec fn release_outcome(v: ContractView, guardian: AccountId) -> Result<(ContractView, Seq<Effect>), ContractError> {
    let amount = v.locked_balance(guardian);
    if amount > 0 {
        match v.token {
            None => Err(ContractError::NotInitialized),
            Some(token) => Ok((
                ContractView {
                    locked: v.locked.insert(guardian, 0),
                    timelocks: v.timelocks.remove(guardian),
                    ..v
                },
                seq![Effect::TransferOut { token, to: guardian, amount }],
            )),
        }
    } else {
        Ok((ContractView { timelocks: v.timelocks.remove(guardian), ..v }, Seq::empty()))
    }
}

/// Unlocking: only an account that is no longer a guardian, and only once
/// its time-lock has run out, gets its locked tokens back.
pub open spec fn unlock_outcome(v: ContractView, guardian: AccountId, now: u64) -> Result<(ContractView, Seq<Effect>), ContractError> {
    if v.is_guardian(guardian) {
        Err(ContractError::StillGuardian)
    } else {
        match timelock_outcome(v, guardian, now) {
            Err(e) => Err(e),
            Ok(_) => release_outcome(v, guardian),
        }
    }
}

/// Resigning: a guardian whose time-lock has run out stops being a guardian
/// and gets its locked tokens back.
pub open spec fn resign_outcome(v: ContractView, guardian: AccountId, now: u64) -> Result<(ContractView, Seq<Effect>), ContractError> {
    if !v.is_guardian(guardian) {
        Err(ContractError::NotGuardian)
    } else {
        match timelock_outcome(v, guardian, now) {
            Err(e) => Err(e),
            Ok(_) => release_outcome(ContractView { guardians: v.guardians.remove(guardian), ..v }, guardian),
        }
    }
}

/// An unlock that reaches the time-lock check stays clear of overflow.
pub open spec fn unlock_fits(v: ContractView, guardian: AccountId) -> bool {
    !v.is_guardian(guardian) ==> timelock_end_fits(v, guardian)
}

/// A resignation that reaches the time-lock check stays clear of overflow.
pub open spec fn resign_fits(v: ContractView, guardian: AccountId) -> bool {
    v.is_guardian(guardian) ==> timelock_end_fits(v, guardian)
}

fn release_locked(state: &mut VeroContract, guardian: AccountId) -> (r: Result<Vec<Effect>, ContractError>)
    ensures
        applies(old(state)@, final(state)@, effects_view(r), release_outcome(old(state)@, guardian)),
{
    let amount: i128 = match state.locked.get(&guardian) {
        Some(b) => *b,
        None => 0,
    };
    let mut effects: Vec<Effect> = Vec::new();
    if amount > 0 {
        let token = match state.token {
            Some(t) => t,
            None => {
                return Err(ContractError::NotInitialized);
            },
        };
        effects.push(Effect::TransferOut { token, to: guardian, amount });
        state.locked.insert(guardian, 0);
    }
    clear_timelock(state, guardian);
    Ok(effects)
}

pub fn unlock_tokens(state: &mut VeroContract, guardian: AccountId, now: u64) -> (r: Result<Vec<Effect>, ContractError>)
    requires
        unlock_fits(old(state)@, guardian),
    ensures
        applies(old(state)@, final(state)@, effects_view(r), unlock_outcome(old(state)@, guardian, now)),
{
    if state.is_guardian(guardian) {
        return Err(ContractError::StillGuardian);
    }
    check_timelock_expired(state, guardian, now)?;
    release_locked(state, guardian)
}

pub fn resign_guardian(state: &mut VeroContract, guardian: AccountId, now: u64) -> (r: Result<Vec<Effect>, ContractError>)
    requires
        resign_fits(old(state)@, guardian),
    ensures
        applies(old(state)@, final(state)@, effects_view(r), resign_outcome(old(state)@, guardian, now)),
{
    if !state.is_guardian(guardian) {
        return Err(ContractError::NotGuardian);
    }
    check_timelock_expired(state, guardian, now)?;
    let ghost before = state@;
    let removed = state.guardians.remove(&guardian);
    assert(state@ == (ContractView { guardians: before.guardians.remove(guardian), ..before }));
    let r = release_locked(state, guardian);
    if r.is_err() {
        // the whole call is refused: put the guardian back
        match removed {
            Some(flag) => {
                state.guardians.insert(guardian, flag);
            },
            None => {},
        }
        assert(state.guardians@ =~= before.guardians);
    }
    r
}

// ─── Voting ───────────────────────────────────────────────────────────────

/// The task after an accepted vote of `weight` at time `now`: the weight is
/// added, the vote counted (the counter saturates at `u32::MAX`), and the
/// task resolves (recording `now`) when its total first reaches
/// `threshold`.
pub open spec fn voted_task(t: Task, weight: u64, threshold: u64, now: u64) -> Task {
    let total = (t.total_weight_accrued + weight) as u64;
    let resolves = !t.is_done && total >= threshold;
    Task {
        votes: saturating_incr(t.votes),
        total_weight_accrued: total,
        is_done: t.is_done || resolves,
        resolved_at: if resolves { now } else { t.resolved_at },
        ..t
    }
}

/// A vote of `guardian` on `task_id` at time `now`.
pub open spec fn vote_outcome(v: ContractView, guardian: AccountId, task_id: u64, now: u64) -> Result<(ContractView, Seq<Effect>), ContractError> {
    if v.paused {
        Err(ContractError::ContractPaused)
    } else if !v.is_guardian(guardian) {
        Err(ContractError::NotAuthorized)
    } else if v.token is None {
        Err(ContractError::NotInitialized)
    } else if v.locked_balance(guardian) <= v.lock_threshold {
        Err(ContractError::InsufficientLockedBalance)
    } else if v.has_voted(task_id, guardian) {
        Err(ContractError::DuplicateVote)
    } else if !v.reputations.contains_key(guardian) {
        Err(ContractError::NoReputationScore)
    } else if v.reputations[guardian] == 0 {
        Err(ContractError::ZeroWeightVote)
    } else if !v.tasks.contains_key(task_id) {
        Err(ContractError::TaskNotFound)
    } else if v.tasks[task_id].is_cancelled {
        Err(ContractError::TaskCancelled)
    } else if v.tasks[task_id].total_weight_accrued + v.reputations[guardian] > u64::MAX {
        Err(ContractError::WeightOverflow)
    } else {
        let t = v.tasks[task_id];
        let next = voted_task(t, v.reputations[guardian], v.weight_threshold, now);
        let weight = v.reputations[guardian];
        let resolution = if !t.is_done && next.is_done {
            seq![Effect::Emit(Event::TaskResolved { task_id, total_weight: next.total_weight_accrued })]
                + if v.vault is Some {
                seq![Effect::ReleaseFunds { vault: v.vault->Some_0, task_id }]
            } else {
                Seq::empty()
            }
        } else {
            Seq::empty()
        };
        let effects = resolution.push(Effect::Emit(Event::WeightedVote { task_id, guardian, weight }));
        Ok((
            ContractView {
                tasks: v.tasks.insert(task_id, next),
                voters: v.voters.insert(task_id, v.task_voters(task_id).push(guardian)),
                ..v
            },
            effects,
        ))
    }
}

/// Casts the vote of `guardian` on `task_id`, weighted by the guardian's
/// reputation. A vote that brings the task's accrued weight to the
/// threshold resolves the task and, when a vault is configured, asks it to
/// release the task's funds.
pub fn process_vote(state: &mut VeroContract, guardian: AccountId, task_id: u64, now: u64) -> (r: Result<Vec<Effect>, ContractError>)
    ensures
        applies(old(state)@, final(state)@, effects_view(r), vote_outcome(old(state)@, guardian, task_id, now)),
{
    if state.paused {
        return Err(ContractError::ContractPaused);
    }
    if !state.is_guardian(guardian) {
        return Err(ContractError::NotAuthorized);
    }
    if state.token.is_none() {
        return Err(ContractError::NotInitialized);
    }
    let threshold = state.lock_threshold;
    let locked_balance: i128 = match state.locked.get(&guardian) {
        Some(b) => *b,
        None => 0,
    };
    if locked_balance <= threshold {
        return Err(ContractError::InsufficientLockedBalance);
    }
    if has_voted(state, task_id, guardian) {
        return Err(ContractError::DuplicateVote);
    }
    let weight: u64 = match state.reputations.get(&guardian) {
        Some(w) => *w,
        None => {
            return Err(ContractError::NoReputationScore);
        },
    };
    if weight == 0 {
        return Err(ContractError::ZeroWeightVote);
    }
    let mut t: Task = match state.tasks.get(&task_id) {
        Some(t) => *t,
        None => {
            return Err(ContractError::TaskNotFound);
        },
    };
    if t.is_cancelled {
        return Err(ContractError::TaskCancelled);
    }
    let was_done = t.is_done;
    let weight_threshold = state.weight_threshold;
    let mut progress = ConsensusState {
        total_weight_accrued: t.total_weight_accrued,
        votes: t.votes,
        is_done: t.is_done,
    };
    match apply_vote(&mut progress, weight, weight_threshold) {
        Ok(()) => {},
        Err(ConsensusError::ZeroWeight) => {
            return Err(ContractError::ZeroWeightVote);
        },
        Err(ConsensusError::WeightOverflow) => {
            return Err(ContractError::WeightOverflow);
        },
    }
    t.total_weight_accrued = progress.total_weight_accrued;
    t.votes = progress.votes;
    let mut effects: Vec<Effect> = Vec::new();
    if progress.is_done && !was_done {
        t.is_done = true;
        t.resolved_at = now;
        effects.push(Effect::Emit(Event::TaskResolved { task_id, total_weight: t.total_weight_accrued }));
        match state.vault {
            Some(vault) => {
                effects.push(Effect::ReleaseFunds { vault, task_id });
            },
            None => {},
        }
    }
    let ghost before = state@;
    append_task_voter(state, task_id, guardian);
    state.tasks.insert(task_id, t);
    effects.push(Effect::Emit(Event::WeightedVote { task_id, guardian, weight }));
    assert(t == voted_task(before.tasks[task_id], weight, weight_threshold, now));
    assert(effects@ =~= vote_outcome(old(state)@, guardian, task_id, now)->Ok_0.1);
    Ok(effects)
}

// ─── Snapshots ────────────────────────────────────────────────────────────

/// The snapshot of a state taken at time `now`.
pub open spec fn snapshot_of(v: ContractView, now: u64) -> SnapshotView {
    SnapshotView {
        timestamp: now,
        paused: v.paused,
        failure_count: v.failure_count,
        weight_threshold: v.weight_threshold,
        admin: v.admin,
        vault_address: v.vault,
        drips_address: v.drips,
        guardians: v.guardians,
        reputations: v.reputations,
        tasks: v.tasks,
        votes: v.voters,
        reward_streams: v.streams,
    }
}

pub fn get_snapshot(state: &VeroContract, now: u64) -> (s: Snapshot)
    ensures
        s@ == snapshot_of(state@, now),
{
    Snapshot {
        timestamp: now,
        paused: state.paused,
        failure_count: state.failure_count,
        weight_threshold: state.weight_threshold,
        admin: state.admin,
        vault_address: state.vault,
        drips_address: state.drips,
        guardians: state.guardians.clone(),
        reputations: state.reputations.clone(),
        tasks: state.tasks.clone(),
        votes: state.voters.clone(),
        reward_streams: state.streams.clone(),
    }
}

/// Records the snapshot of the current state under the time `now`.
pub fn record_snapshot(state: &mut VeroContract, now: u64) -> (r: Result<Vec<Effect>, ContractError>)
    ensures
        r is Ok,
        r matches Ok(effects) && effects@ == seq![Effect::Emit(Event::SnapshotRecorded { timestamp: now })],
        final(state)@ == (ContractView {
            snapshots: old(state)@.snapshots.insert(now, snapshot_of(old(state)@, now)),
            snapshot_history: old(state)@.snapshot_history.push(now),
            ..old(state)@
        }),
{
    let snapshot = get_snapshot(state, now);
    let ghost before = state.snapshots@;
    state.snapshot_history.push(now);
    state.snapshots.insert(now, snapshot);
    assert(snapshot_views(state.snapshots@) =~= snapshot_views(before).insert(now, snapshot@));
    let mut effects: Vec<Effect> = Vec::new();
    effects.push(Effect::Emit(Event::SnapshotRecorded { timestamp: now }));
    Ok(effects)
}

} // verus!
