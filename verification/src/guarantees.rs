//! Properties of the contract that span several calls.
use vstd::prelude::*;
use crate::types::{AccountId, BatchCall, ContractError, Effect, Event, Task};
use crate::contract::{
    ContractView, call_outcome, batch_outcome, initialize_outcome, start_reward_stream_outcome,
    record_failure_outcome, MAX_FAILURES,
};
use crate::logic::{vote_outcome, lock_outcome, unlock_outcome, resign_outcome, snapshot_of};
use crate::timelock::WITHDRAWAL_DELAY_SECONDS;
use crate::consensus::saturating_incr;
use crate::validation::{valid_amount, valid_weight_threshold, valid_lock_threshold, valid_reputation, valid_task_id, MAX_TOKEN_AMOUNT};
use crate::storage::archive_outcome;
use crate::task::{register_tasks_outcome, purge_task_outcome, registered};
use crate::treasury::{request_withdrawal_outcome, execute_withdrawal_outcome, cancel_withdrawal_outcome};

verus! {

/// The contract can be initialized only once.
pub proof fn lemma_initialize_once(
    v: ContractView,
    admin: AccountId,
    token: AccountId,
    lock_threshold: i128,
    admin2: AccountId,
    token2: AccountId,
    lock_threshold2: i128,
)
    requires
        initialize_outcome(v, admin, token, lock_threshold) is Ok,
    ensures
        initialize_outcome(v, admin, token, lock_threshold)->Ok_0.0.admin == Some(admin),
        initialize_outcome(
            initialize_outcome(v, admin, token, lock_threshold)->Ok_0.0,
            admin2,
            token2,
            lock_threshold2,
        ) == Err::<(ContractView, ()), ContractError>(ContractError::AlreadyInitialized),
{
}

/// Toggling the pause twice restores the state.
pub proof fn lemma_toggle_pause_twice(v: ContractView, admin: AccountId, now: u64)
    ensures
        call_outcome(call_outcome(v, BatchCall::TogglePause(admin), now)->Ok_0.0, BatchCall::TogglePause(admin), now)
            == Ok::<(ContractView, Seq<Effect>), ContractError>((v, Seq::empty())),
{
}

/// The calls that the emergency pause stops.
pub open spec fn stopped_by_pause(call: BatchCall) -> bool {
    match call {
        BatchCall::RegisterTask(..) | BatchCall::CancelTask(..) | BatchCall::Vote(..)
        | BatchCall::AddGuardian(..) | BatchCall::RemoveGuardian(..) | BatchCall::SetReputation(..)
        | BatchCall::StartRewardStream(..) | BatchCall::SetWeightThreshold(..) => true,
        _ => false,
    }
}

/// While the contract is paused, every call that the pause stops is refused
/// with `ContractPaused` (and so changes nothing).
pub proof fn lemma_pause_stops_calls(v: ContractView, call: BatchCall, now: u64)
    requires
        v.paused,
        stopped_by_pause(call),
    ensures
        call_outcome(v, call, now) == Err::<(ContractView, Seq<Effect>), ContractError>(ContractError::ContractPaused),
{
}

/// A vote resolves a task exactly when the task's accrued weight reaches the
/// weight threshold; it never resolves a task below the threshold.
pub proof fn lemma_vote_resolves_at_threshold(v: ContractView, guardian: AccountId, task_id: u64, now: u64)
    requires
        vote_outcome(v, guardian, task_id, now) is Ok,
        !v.tasks[task_id].is_done,
    ensures
        ({
            let t = vote_outcome(v, guardian, task_id, now)->Ok_0.0.tasks[task_id];
            &&& t.is_done <==> t.total_weight_accrued >= v.weight_threshold
            &&& t.is_done ==> t.resolved_at == now
        }),
{
}

/// A resolved task stays resolved, with its resolution time, through every
/// vote: no second resolution event and no second escrow release, only the
/// event of the counted vote.
pub proof fn lemma_resolution_is_final(v: ContractView, guardian: AccountId, task_id: u64, now: u64)
    requires
        vote_outcome(v, guardian, task_id, now) is Ok,
        v.tasks[task_id].is_done,
    ensures
        vote_outcome(v, guardian, task_id, now)->Ok_0.0.tasks[task_id].is_done,
        vote_outcome(v, guardian, task_id, now)->Ok_0.0.tasks[task_id].resolved_at == v.tasks[task_id].resolved_at,
        vote_outcome(v, guardian, task_id, now)->Ok_0.1 == seq![
            Effect::Emit(Event::WeightedVote { task_id, guardian, weight: v.reputations[guardian] }),
        ],
{
}

/// An accepted vote adds the guardian's reputation to the task's weight,
/// counts one vote (the counter saturates, never wraps) and records the
/// guardian as a voter.
pub proof fn lemma_vote_accrues_reputation(v: ContractView, guardian: AccountId, task_id: u64, now: u64)
    requires
        vote_outcome(v, guardian, task_id, now) is Ok,
    ensures
        ({
            let n = vote_outcome(v, guardian, task_id, now)->Ok_0.0;
            &&& v.is_guardian(guardian)
            &&& v.locked_balance(guardian) > v.lock_threshold
            &&& n.tasks[task_id].total_weight_accrued == v.tasks[task_id].total_weight_accrued + v.reputations[guardian]
            &&& n.tasks[task_id].votes == saturating_incr(v.tasks[task_id].votes)
            &&& n.tasks[task_id].votes >= v.tasks[task_id].votes
            &&& n.task_voters(task_id) == v.task_voters(task_id).push(guardian)
        }),
{
}

/// A guardian votes at most once on a task: once its vote is accepted,
/// every later vote of it on that task is refused.
pub proof fn lemma_one_vote_per_guardian(v: ContractView, guardian: AccountId, task_id: u64, now: u64, later: u64)
    requires
        vote_outcome(v, guardian, task_id, now) is Ok,
    ensures
        vote_outcome(vote_outcome(v, guardian, task_id, now)->Ok_0.0, guardian, task_id, later) is Err,
{
    let n = vote_outcome(v, guardian, task_id, now)->Ok_0.0;
    assert(n.task_voters(task_id).last() == guardian);
    assert(n.has_voted(task_id, guardian));
}

/// Locked tokens leave the contract only after the time-lock: an accepted
/// unlock or resignation had a time-lock started at least
/// [`WITHDRAWAL_DELAY_SECONDS`] earlier, clears it, and pays out exactly
/// the positive locked balance.
pub proof fn lemma_withdrawal_respects_timelock(v: ContractView, guardian: AccountId, now: u64)
    ensures
        unlock_outcome(v, guardian, now) is Ok ==> {
            let n = unlock_outcome(v, guardian, now)->Ok_0.0;
            &&& v.timelock(guardian) is Some
            &&& now >= v.timelock(guardian)->Some_0 + WITHDRAWAL_DELAY_SECONDS
            &&& n.timelock(guardian) is None
            &&& v.locked_balance(guardian) > 0 ==> n.locked_balance(guardian) == 0
                && unlock_outcome(v, guardian, now)->Ok_0.1 == seq![
                    Effect::TransferOut { token: v.token->Some_0, to: guardian, amount: v.locked_balance(guardian) },
                ]
        },
        resign_outcome(v, guardian, now) is Ok ==> {
            let n = resign_outcome(v, guardian, now)->Ok_0.0;
            &&& v.timelock(guardian) is Some
            &&& now >= v.timelock(guardian)->Some_0 + WITHDRAWAL_DELAY_SECONDS
            &&& n.timelock(guardian) is None
            &&& !n.is_guardian(guardian)
        },
{
}

/// Time-locks and locked balances are kept per account: starting, waiting
/// out or using the time-lock of one account leaves every other account's
/// time-lock and locked balance as they were.
pub proof fn lemma_timelocks_are_per_account(v: ContractView, account: AccountId, other: AccountId, now: u64)
    requires
        account != other,
    ensures
        call_outcome(v, BatchCall::RequestUnlock(account), now)->Ok_0.0.timelock(other) == v.timelock(other),
        unlock_outcome(v, account, now) is Ok ==> {
            let n = unlock_outcome(v, account, now)->Ok_0.0;
            n.timelock(other) == v.timelock(other) && n.locked_balance(other) == v.locked_balance(other)
        },
        resign_outcome(v, account, now) is Ok ==> {
            let n = resign_outcome(v, account, now)->Ok_0.0;
            &&& n.timelock(other) == v.timelock(other)
            &&& n.locked_balance(other) == v.locked_balance(other)
            &&& n.is_guardian(other) == v.is_guardian(other)
        },
{
}

/// Tokens locked by a non-guardian come back in full: after locking
/// `amount`, starting the time-lock at `start` and waiting it out, the
/// unlock pays out exactly `amount` and leaves nothing locked.
pub proof fn lemma_lock_unlock_round_trip(v: ContractView, account: AccountId, amount: i128, start: u64, now: u64)
    requires
        v.token is Some,
        !v.is_guardian(account),
        v.locked_balance(account) == 0,
        valid_amount(amount),
        now >= start + WITHDRAWAL_DELAY_SECONDS,
    ensures
        ({
            let locked = lock_outcome(v, account, amount)->Ok_0.0;
            let waiting = call_outcome(locked, BatchCall::RequestUnlock(account), start)->Ok_0.0;
            &&& lock_outcome(v, account, amount) is Ok
            &&& unlock_outcome(waiting, account, now) is Ok
            &&& unlock_outcome(waiting, account, now)->Ok_0.1 == seq![
                Effect::TransferOut { token: v.token->Some_0, to: account, amount },
            ]
            &&& unlock_outcome(waiting, account, now)->Ok_0.0.locked_balance(account) == 0
        }),
{
}

/// A newly registered task starts fresh; a task already active is kept.
pub proof fn lemma_register_keeps_existing(v: ContractView, admin: AccountId, ids: Seq<u64>, task_id: u64)
    requires
        register_tasks_outcome(v, admin, ids) is Ok,
        ids.contains(task_id) || v.tasks.contains_key(task_id),
    ensures
        ({
            let n = register_tasks_outcome(v, admin, ids)->Ok_0.0;
            &&& n.tasks.contains_key(task_id)
            &&& n.tasks[task_id] == (if v.tasks.contains_key(task_id) { v.tasks[task_id] } else { Task::fresh(task_id) })
        }),
{
}

/// Archiving moves a task, unchanged, from the active tasks to the archived
/// ones, and a task is archived only once.
pub proof fn lemma_archive_moves_task(v: ContractView, task_id: u64, now: u64, later: u64)
    requires
        archive_outcome(v, task_id, now) is Ok,
    ensures
        ({
            let n = archive_outcome(v, task_id, now)->Ok_0.0;
            &&& n.active_task(task_id) is None
            &&& n.archived_task(task_id) == v.active_task(task_id)
            &&& archive_outcome(n, task_id, later) == Err::<(ContractView, ()), ContractError>(ContractError::TaskAlreadyArchived)
        }),
{
}

/// Purging removes every trace of a task: active, archived and voters.
pub proof fn lemma_purge_clears_task(v: ContractView, admin: AccountId, task_id: u64)
    requires
        purge_task_outcome(v, admin, task_id) is Ok,
    ensures
        ({
            let n = purge_task_outcome(v, admin, task_id)->Ok_0.0;
            &&& n.active_task(task_id) is None
            &&& n.archived_task(task_id) is None
            &&& n.task_voters(task_id) == Seq::<AccountId>::empty()
        }),
{
}

/// A task gets at most one reward stream.
pub proof fn lemma_one_stream_per_task(v: ContractView, drips: AccountId, contributor: AccountId, task_id: u64, drips2: AccountId, contributor2: AccountId)
    requires
        start_reward_stream_outcome(v, drips, contributor, task_id) is Ok,
    ensures
        start_reward_stream_outcome(
            start_reward_stream_outcome(v, drips, contributor, task_id)->Ok_0.0,
            drips2,
            contributor2,
            task_id,
        ) is Err,
{
}

/// The snapshot recorded at time `now` is the state at that time, and it
/// is the last entry of the history.
pub proof fn lemma_snapshot_read_after_write(v: ContractView, now: u64)
    ensures
        ({
            let n = ContractView {
                snapshots: v.snapshots.insert(now, snapshot_of(v, now)),
                snapshot_history: v.snapshot_history.push(now),
                ..v
            };
            &&& n.snapshots.contains_key(now)
            &&& n.snapshots[now] == snapshot_of(v, now)
            &&& n.snapshots[now].tasks == v.tasks
            &&& n.snapshot_history.last() == now
        }),
{
}

/// The circuit breaker: more than [`MAX_FAILURES`] recorded failures pause
/// the contract, and recording failures never lifts a pause.
pub proof fn lemma_circuit_breaker(v: ContractView)
    ensures
        record_failure_outcome(v).failure_count > MAX_FAILURES ==> record_failure_outcome(v).paused,
        v.paused ==> record_failure_outcome(v).paused,
        record_failure_outcome(v).failure_count >= v.failure_count,
{
}

/// A batch of one call does what the call does.
pub proof fn lemma_single_call_batch(v: ContractView, call: BatchCall, now: u64)
    ensures
        batch_outcome(v, seq![call], now) == call_outcome(v, call, now),
{
    assert(seq![call].drop_first() =~= Seq::<BatchCall>::empty());
    if let Ok((n, e)) = call_outcome(v, call, now) {
        assert(batch_outcome(n, Seq::<BatchCall>::empty(), now) == Ok::<(ContractView, Seq<Effect>), ContractError>((n, Seq::<Effect>::empty())));
        assert(e + Seq::<Effect>::empty() =~= e);
    }
}

/// Running two batches one after the other is running their concatenation:
/// the second starts from the state the first leaves, and a refusal in
/// either refuses the whole.
pub proof fn lemma_batch_concatenation(v: ContractView, first: Seq<BatchCall>, second: Seq<BatchCall>, now: u64)
    ensures
        batch_outcome(v, first + second, now) == (match batch_outcome(v, first, now) {
            Err(e) => Err(e),
            Ok((mid, e1)) => match batch_outcome(mid, second, now) {
                Err(e) => Err(e),
                Ok((last, e2)) => Ok((last, e1 + e2)),
            },
        }),
    decreases first.len(),
{
    if first.len() == 0 {
        assert(first + second =~= second);
        if let Ok((last, e2)) = batch_outcome(v, second, now) {
            assert(Seq::<Effect>::empty() + e2 =~= e2);
        }
    } else {
        assert((first + second)[0] == first[0]);
        assert((first + second).drop_first() =~= first.drop_first() + second);
        if let Ok((next, e0)) = call_outcome(v, first[0], now) {
            lemma_batch_concatenation(next, first.drop_first(), second, now);
            if let Ok((mid, e1)) = batch_outcome(next, first.drop_first(), now) {
                if let Ok((last, e2)) = batch_outcome(mid, second, now) {
                    assert(e0 + (e1 + e2) =~= (e0 + e1) + e2);
                }
            }
        }
    }
}

/// The records of the state are filed under their own keys: a task under
/// its id, a reward stream under its task, a withdrawal request under its
/// number (never beyond the last one handed out), a snapshot under its time;
/// and every stored value lies in the range that its entry point accepts:
/// task ids, reputations, locked balances, the weight threshold and, once
/// set, the lock threshold.
pub open spec fn well_formed(v: ContractView) -> bool {
    &&& valid_weight_threshold(v.weight_threshold)
    &&& v.initialized ==> valid_lock_threshold(v.lock_threshold)
    &&& forall|k: AccountId| #[trigger] v.reputations.contains_key(k) ==> valid_reputation(v.reputations[k])
    &&& forall|k: AccountId| #[trigger] v.locked.contains_key(k) ==> 0 <= v.locked[k] <= MAX_TOKEN_AMOUNT
    &&& forall|k: u64| #[trigger] v.tasks.contains_key(k) ==> valid_task_id(k)
    &&& forall|k: u64| #[trigger] v.archived.contains_key(k) ==> valid_task_id(k)
    &&& forall|k: u64| #[trigger] v.tasks.contains_key(k) ==> v.tasks[k].id == k
    &&& forall|k: u64| #[trigger] v.archived.contains_key(k) ==> v.archived[k].id == k
    &&& forall|k: u64| #[trigger] v.streams.contains_key(k) ==> v.streams[k].task_id == k
    &&& forall|k: u64| #[trigger] v.withdrawals.contains_key(k) ==> v.withdrawals[k].id == k && 1 <= k
        <= v.withdrawal_counter
    &&& forall|k: u64| #[trigger] v.snapshots.contains_key(k) ==> v.snapshots[k].timestamp == k
}

/// A contract with empty storage is well formed.
pub proof fn lemma_empty_well_formed(own_account: AccountId)
    ensures
        well_formed(ContractView::empty(own_account)),
{
}

/// Every accepted call of the contract keeps the state well formed.
#[verifier::rlimit(100)]
pub proof fn lemma_call_keeps_well_formed(v: ContractView, call: BatchCall, now: u64)
    requires
        well_formed(v),
        call_outcome(v, call, now) is Ok,
    ensures
        well_formed(call_outcome(v, call, now)->Ok_0.0),
{
    let n = call_outcome(v, call, now)->Ok_0.0;
    match call {
        BatchCall::RegisterTask(admin, task_id) => {
            assert forall|k: u64| #[trigger] n.tasks.contains_key(k) implies n.tasks[k].id == k by {
                assert(n.tasks == registered(v.tasks, seq![task_id]));
            }
        },
        _ => {},
    }
}

/// A batch of accepted calls keeps the state well formed.
pub proof fn lemma_batch_keeps_well_formed(v: ContractView, calls: Seq<BatchCall>, now: u64)
    requires
        well_formed(v),
        batch_outcome(v, calls, now) is Ok,
    ensures
        well_formed(batch_outcome(v, calls, now)->Ok_0.0),
    decreases calls.len(),
{
    if calls.len() > 0 {
        lemma_call_keeps_well_formed(v, calls[0], now);
        lemma_batch_keeps_well_formed(call_outcome(v, calls[0], now)->Ok_0.0, calls.drop_first(), now);
    }
}

/// Archiving, purging, recording snapshots and the treasury operations keep
/// the state well formed.
pub proof fn lemma_other_calls_keep_well_formed(
    v: ContractView,
    admin: AccountId,
    recipient: AccountId,
    amount: i128,
    ids: Seq<u64>,
    key: u64,
    now: u64,
    ledger_seq: u32,
)
    requires
        well_formed(v),
    ensures
        archive_outcome(v, key, now) is Ok ==> well_formed(archive_outcome(v, key, now)->Ok_0.0),
        purge_task_outcome(v, admin, key) is Ok ==> well_formed(purge_task_outcome(v, admin, key)->Ok_0.0),
        register_tasks_outcome(v, admin, ids) is Ok ==> well_formed(register_tasks_outcome(v, admin, ids)->Ok_0.0),
        well_formed(ContractView {
            snapshots: v.snapshots.insert(now, snapshot_of(v, now)),
            snapshot_history: v.snapshot_history.push(now),
            ..v
        }),
        (request_withdrawal_outcome(v, admin, recipient, amount, ledger_seq) is Ok && v.withdrawal_counter < u64::MAX)
            ==> well_formed(request_withdrawal_outcome(v, admin, recipient, amount, ledger_seq)->Ok_0.0),
        execute_withdrawal_outcome(v, key, ledger_seq) is Ok ==> well_formed(execute_withdrawal_outcome(v, key, ledger_seq)->Ok_0.0),
        cancel_withdrawal_outcome(v, admin, key) is Ok ==> well_formed(cancel_withdrawal_outcome(v, admin, key)->Ok_0.0),
{
    if register_tasks_outcome(v, admin, ids) is Ok {
        let n = register_tasks_outcome(v, admin, ids)->Ok_0.0;
        assert forall|k: u64| #[trigger] n.tasks.contains_key(k) implies n.tasks[k].id == k by {
            assert(n.tasks == registered(v.tasks, ids));
        }
    }
}


// ─── What each call may change ─────────────────────────────────────────────

/// Which parts of the state each call may change. The contract's identity
/// (own account, admin, token, lock threshold, initialization) never changes
/// through a call; reputations change only by setting one; the guardian set
/// only by adding, removing or resigning a guardian; locked balances only by
/// locking, unlocking or resigning; the pause only by the pause controls and
/// the circuit breaker; tasks only by registering, cancelling or voting;
/// voter lists only by voting; time-locks only by starting, using or
/// resigning; the weight threshold only by setting it.
pub proof fn lemma_call_frame(v: ContractView, call: BatchCall, now: u64)
    requires
        call_outcome(v, call, now) is Ok,
    ensures
        ({
            let n = call_outcome(v, call, now)->Ok_0.0;
            &&& n.own_account == v.own_account
            &&& n.initialized == v.initialized
            &&& n.admin == v.admin
            &&& n.token == v.token
            &&& n.lock_threshold == v.lock_threshold
            &&& !(call is SetReputation) ==> n.reputations == v.reputations
            &&& !(call is AddGuardian || call is RemoveGuardian || call is ResignGuardian) ==> n.guardians == v.guardians
            &&& !(call is LockTokens || call is UnlockTokens || call is ResignGuardian) ==> n.locked == v.locked
            &&& !(call is Pause || call is Unpause || call is TogglePause || call is RecordFailure
                || call is ResetCircuitBreaker) ==> n.paused == v.paused
            &&& !(call is RegisterTask || call is CancelTask || call is Vote) ==> n.tasks == v.tasks
            &&& !(call is Vote) ==> n.voters == v.voters
            &&& !(call is RequestUnlock || call is UnlockTokens || call is ResignGuardian) ==> n.timelocks == v.timelocks
            &&& !(call is SetWeightThreshold) ==> n.weight_threshold == v.weight_threshold
        }),
{
}

/// The pause controls: after `Pause` the contract is paused, after `Unpause`
/// it runs, `TogglePause` flips it; none of them touches anything else.
pub proof fn lemma_pause_controls(v: ContractView, admin: AccountId, now: u64)
    ensures
        call_outcome(v, BatchCall::Pause(admin), now) is Ok,
        call_outcome(v, BatchCall::Unpause(admin), now) is Ok,
        call_outcome(v, BatchCall::TogglePause(admin), now) is Ok,
        call_outcome(v, BatchCall::Pause(admin), now)->Ok_0.0.paused,
        !call_outcome(v, BatchCall::Unpause(admin), now)->Ok_0.0.paused,
        call_outcome(v, BatchCall::TogglePause(admin), now)->Ok_0.0.paused != v.paused,
        (ContractView { paused: v.paused, ..call_outcome(v, BatchCall::Pause(admin), now)->Ok_0.0 }) == v,
        (ContractView { paused: v.paused, ..call_outcome(v, BatchCall::Unpause(admin), now)->Ok_0.0 }) == v,
        (ContractView { paused: v.paused, ..call_outcome(v, BatchCall::TogglePause(admin), now)->Ok_0.0 }) == v,
        call_outcome(v, BatchCall::Pause(admin), now)->Ok_0.1 == Seq::<Effect>::empty(),
        call_outcome(v, BatchCall::Unpause(admin), now)->Ok_0.1 == Seq::<Effect>::empty(),
{
}

/// A batch that first unpauses runs its next call as that call runs on a
/// contract that is not paused.
pub proof fn lemma_unpause_then_call(v: ContractView, admin: AccountId, call: BatchCall, now: u64)
    ensures
        batch_outcome(v, seq![BatchCall::Unpause(admin), call], now) == batch_outcome(
            ContractView { paused: false, ..v },
            seq![call],
            now,
        ),
{
    let calls = seq![BatchCall::Unpause(admin), call];
    assert(calls[0] == BatchCall::Unpause(admin));
    assert(calls.drop_first() =~= seq![call]);
    let u = ContractView { paused: false, ..v };
    assert(call_outcome(v, BatchCall::Unpause(admin), now) == Ok::<(ContractView, Seq<Effect>), ContractError>((u, Seq::empty())));
    if let Ok((last, more)) = batch_outcome(u, seq![call], now) {
        assert(Seq::<Effect>::empty() + more =~= more);
    }
}

// ─── Guardians ──────────────────────────────────────────────────────────────

/// Adding a guardian makes it a guardian and changes nothing else: every
/// other account keeps its guardian status, and every reputation (its own
/// included) is kept.
pub proof fn lemma_add_guardian_changes_only_membership(v: ContractView, admin: AccountId, guardian: AccountId, other: AccountId, now: u64)
    requires
        call_outcome(v, BatchCall::AddGuardian(admin, guardian), now) is Ok,
        other != guardian,
    ensures
        ({
            let n = call_outcome(v, BatchCall::AddGuardian(admin, guardian), now)->Ok_0.0;
            &&& n.is_guardian(guardian)
            &&& n.is_guardian(other) == v.is_guardian(other)
            &&& n.reputation(guardian) == v.reputation(guardian)
            &&& n.reputations == v.reputations
            &&& (ContractView { guardians: v.guardians, ..n }) == v
        }),
{
}

/// Removing a guardian ends its guardianship and changes nothing else; its
/// reputation is kept, so adding it back restores its voting power.
pub proof fn lemma_remove_guardian_changes_only_membership(v: ContractView, admin: AccountId, guardian: AccountId, other: AccountId, now: u64)
    requires
        call_outcome(v, BatchCall::RemoveGuardian(admin, guardian), now) is Ok,
        other != guardian,
    ensures
        ({
            let n = call_outcome(v, BatchCall::RemoveGuardian(admin, guardian), now)->Ok_0.0;
            &&& !n.is_guardian(guardian)
            &&& n.is_guardian(other) == v.is_guardian(other)
            &&& n.reputations == v.reputations
            &&& (ContractView { guardians: v.guardians, ..n }) == v
            &&& call_outcome(n, BatchCall::AddGuardian(admin, guardian), now) is Ok ==> {
                let back = call_outcome(n, BatchCall::AddGuardian(admin, guardian), now)->Ok_0.0;
                back.is_guardian(guardian) && back.reputation(guardian) == v.reputation(guardian)
            }
        }),
{
}

// ─── Votes ──────────────────────────────────────────────────────────────────

/// An accepted vote comes from a guardian that had not yet voted on the
/// task, and appends exactly that guardian to the task's voters.
pub proof fn lemma_vote_from_new_voter(v: ContractView, guardian: AccountId, task_id: u64, now: u64)
    requires
        vote_outcome(v, guardian, task_id, now) is Ok,
    ensures
        !v.task_voters(task_id).contains(guardian),
        vote_outcome(v, guardian, task_id, now)->Ok_0.0.task_voters(task_id) == v.task_voters(task_id).push(guardian),
        forall|t: u64| t != task_id ==> #[trigger] vote_outcome(v, guardian, task_id, now)->Ok_0.0.task_voters(t)
            == v.task_voters(t),
{
}

/// No guardian is counted twice: if no voter list holds an account twice,
/// no call makes one do so.
pub proof fn lemma_voters_stay_distinct(v: ContractView, call: BatchCall, now: u64)
    requires
        forall|t: u64| #[trigger] v.task_voters(t).no_duplicates(),
        call_outcome(v, call, now) is Ok,
    ensures
        forall|t: u64| #[trigger] call_outcome(v, call, now)->Ok_0.0.task_voters(t).no_duplicates(),
{
    let n = call_outcome(v, call, now)->Ok_0.0;
    if let BatchCall::Vote(guardian, task_id) = call {
        assert forall|t: u64| #[trigger] n.task_voters(t).no_duplicates() by {
            if t == task_id {
                let old_list = v.task_voters(task_id);
                let list = old_list.push(guardian);
                assert(n.task_voters(t) == list);
                assert(list.len() == old_list.len() + 1);
                assert(!old_list.contains(guardian));
                assert forall|i: int, j: int| 0 <= i < list.len() && 0 <= j < list.len() && i != j implies list[i]
                    != list[j] by {
                    if i == old_list.len() as int {
                        assert(list[j] == old_list[j]);
                        assert(list[i] == guardian);
                        if list[j] == guardian {
                            assert(old_list.contains(guardian));
                        }
                    } else if j == old_list.len() as int {
                        assert(list[i] == old_list[i]);
                        assert(list[j] == guardian);
                        if list[i] == guardian {
                            assert(old_list.contains(guardian));
                        }
                    } else {
                        assert(list[i] == old_list[i] && list[j] == old_list[j]);
                        assert(old_list.no_duplicates());
                        assert(old_list[i] != old_list[j]);
                    }
                }
            } else {
                assert(n.task_voters(t) == v.task_voters(t));
            }
        }
    } else {
        assert forall|t: u64| #[trigger] n.task_voters(t).no_duplicates() by {
            assert(n.task_voters(t) == v.task_voters(t));
        }
    }
}

// ─── Locked tokens ──────────────────────────────────────────────────────────

/// The tokens that `effects` move from `account` into the contract.
pub open spec fn paid_in(effects: Seq<Effect>, account: AccountId) -> int
    decreases effects.len(),
{
    if effects.len() == 0 {
        0
    } else {
        (match effects[0] {
            Effect::TransferIn { token: _, from, amount } => if from == account { amount as int } else { 0 },
            _ => 0,
        }) + paid_in(effects.drop_first(), account)
    }
}

/// The tokens that `effects` pay out of the contract to `account`.
pub open spec fn paid_out(effects: Seq<Effect>, account: AccountId) -> int
    decreases effects.len(),
{
    if effects.len() == 0 {
        0
    } else {
        (match effects[0] {
            Effect::TransferOut { token: _, to, amount } => if to == account { amount as int } else { 0 },
            _ => 0,
        }) + paid_out(effects.drop_first(), account)
    }
}

proof fn lemma_no_transfers(effects: Seq<Effect>, account: AccountId)
    requires
        forall|i: int| 0 <= i < effects.len() ==> !(#[trigger] effects[i] is TransferIn) && !(effects[i] is TransferOut),
    ensures
        paid_in(effects, account) == 0,
        paid_out(effects, account) == 0,
    decreases effects.len(),
{
    if effects.len() > 0 {
        let rest = effects.drop_first();
        assert forall|i: int| 0 <= i < rest.len() implies !(#[trigger] rest[i] is TransferIn) && !(rest[i] is TransferOut) by {
            assert(rest[i] == effects[i + 1]);
        }
        lemma_no_transfers(rest, account);
    }
}

proof fn lemma_single_transfer(e: Effect, account: AccountId)
    ensures
        paid_in(seq![e], account) == (match e {
            Effect::TransferIn { token: _, from, amount } => if from == account { amount as int } else { 0 },
            _ => 0,
        }),
        paid_out(seq![e], account) == (match e {
            Effect::TransferOut { token: _, to, amount } => if to == account { amount as int } else { 0 },
            _ => 0,
        }),
{
    let s = seq![e];
    assert(s.len() == 1 && s[0] == e);
    assert(s.drop_first() =~= Seq::<Effect>::empty());
    assert(paid_in(Seq::<Effect>::empty(), account) == 0);
    assert(paid_out(Seq::<Effect>::empty(), account) == 0);
}

/// Locked tokens are conserved: for every account, what a call moves in
/// from it minus what it pays out to it is exactly the change of its locked
/// balance. Tokens are never paid out without leaving the locked balance,
/// and never locked without being moved in.
pub proof fn lemma_locked_tokens_conserved(v: ContractView, call: BatchCall, now: u64, account: AccountId)
    requires
        call_outcome(v, call, now) is Ok,
    ensures
        ({
            let (n, effects) = call_outcome(v, call, now)->Ok_0;
            n.locked_balance(account) + paid_out(effects, account) == v.locked_balance(account) + paid_in(effects, account)
        }),
{
    let (n, effects) = call_outcome(v, call, now)->Ok_0;
    match call {
        BatchCall::LockTokens(guardian, amount) => {
            lemma_single_transfer(effects[0], account);
            assert(effects =~= seq![effects[0]]);
        },
        BatchCall::UnlockTokens(guardian) | BatchCall::ResignGuardian(guardian) => {
            if effects.len() > 0 {
                lemma_single_transfer(effects[0], account);
                assert(effects =~= seq![effects[0]]);
            } else {
                lemma_no_transfers(effects, account);
            }
        },
        _ => {
            assert forall|i: int| 0 <= i < effects.len() implies !(#[trigger] effects[i] is TransferIn)
                && !(effects[i] is TransferOut) by {
                if let BatchCall::Vote(g, t) = call {
                    let task = v.tasks[t];
                    assert(effects[i] is Emit || effects[i] is ReleaseFunds);
                }
            }
            lemma_no_transfers(effects, account);
        },
    }
}

/// Resigning pays the guardian exactly its positive locked balance and
/// leaves nothing locked for it, so the same tokens cannot be paid twice;
/// the guardian stops being one and its time-lock is used up.
pub proof fn lemma_resign_pays_once(v: ContractView, guardian: AccountId, now: u64)
    requires
        resign_outcome(v, guardian, now) is Ok,
    ensures
        ({
            let (n, effects) = resign_outcome(v, guardian, now)->Ok_0;
            &&& !n.is_guardian(guardian)
            &&& n.timelock(guardian) is None
            &&& v.locked_balance(guardian) > 0 ==> {
                &&& n.locked_balance(guardian) == 0
                &&& paid_out(effects, guardian) == v.locked_balance(guardian)
            }
            &&& v.locked_balance(guardian) <= 0 ==> {
                &&& n.locked_balance(guardian) == v.locked_balance(guardian)
                &&& paid_out(effects, guardian) == 0
            }
            &&& n.locked_balance(guardian) <= 0
            &&& well_formed(v) ==> n.locked_balance(guardian) == 0
        }),
{
    let (n, effects) = resign_outcome(v, guardian, now)->Ok_0;
    if effects.len() > 0 {
        lemma_single_transfer(effects[0], guardian);
        assert(effects =~= seq![effects[0]]);
    } else {
        lemma_no_transfers(effects, guardian);
    }
}

/// Once a guardian has resigned, its tokens have been paid: a later
/// unlock request followed by an unlock pays it nothing more.
pub proof fn lemma_no_payout_after_resign(v: ContractView, guardian: AccountId, now: u64, t1: u64, t2: u64)
    requires
        well_formed(v),
        resign_outcome(v, guardian, now) is Ok,
    ensures
        ({
            let n = resign_outcome(v, guardian, now)->Ok_0.0;
            call_outcome(n, BatchCall::RequestUnlock(guardian), t1) is Ok ==> {
                let m = call_outcome(n, BatchCall::RequestUnlock(guardian), t1)->Ok_0.0;
                call_outcome(m, BatchCall::UnlockTokens(guardian), t2) is Ok ==> {
                    let (last, effects) = call_outcome(m, BatchCall::UnlockTokens(guardian), t2)->Ok_0;
                    &&& paid_out(effects, guardian) == 0
                    &&& last.locked_balance(guardian) == 0
                }
            }
        }),
{
    lemma_resign_pays_once(v, guardian, now);
    let n = resign_outcome(v, guardian, now)->Ok_0.0;
    if call_outcome(n, BatchCall::RequestUnlock(guardian), t1) is Ok {
        lemma_call_frame(n, BatchCall::RequestUnlock(guardian), t1);
        let m = call_outcome(n, BatchCall::RequestUnlock(guardian), t1)->Ok_0.0;
        if call_outcome(m, BatchCall::UnlockTokens(guardian), t2) is Ok {
            let effects = call_outcome(m, BatchCall::UnlockTokens(guardian), t2)->Ok_0.1;
            assert(m.locked_balance(guardian) == 0);
            assert(effects.len() == 0);
            lemma_no_transfers(effects, guardian);
        }
    }
}

} // verus!
