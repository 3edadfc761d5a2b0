//! The contract state and its entry points.
use vstd::prelude::*;
use std::collections::HashMap;
use crate::types::{AccountId, Task, RewardStream, Snapshot, SnapshotView, WithdrawalRequest, Effect, Operation, ContractError, BatchCall, Event, voter_lists};
use crate::DEFAULT_WEIGHT_THRESHOLD;
use crate::gas::estimated_cost;
use crate::logic::{lock_outcome, unlock_outcome, resign_outcome, unlock_fits, resign_fits, vote_outcome, snapshot_of};
use crate::validation::{valid_lock_threshold, valid_reputation, valid_weight_threshold, valid_task_id, is_valid_lock_threshold, is_valid_reputation, is_valid_weight_threshold, is_valid_task_id};
use crate::storage::archive_outcome;
use crate::task::{register_tasks_outcome, cancel_task_outcome, purge_task_outcome};

verus! {

broadcast use vstd::std_specs::hash::group_hash_axioms;

/// The whole state that the contract keeps in host storage.
pub struct VeroContract {
    /// The contract's own account.
    pub own_account: AccountId,
    pub initialized: bool,
    pub admin: Option<AccountId>,
    pub token: Option<AccountId>,
    pub lock_threshold: i128,
    pub paused: bool,
    pub failure_count: u32,
    pub weight_threshold: u64,
    pub vault: Option<AccountId>,
    pub drips: Option<AccountId>,
    /// Registered guardians (a guardian maps to `true`).
    pub guardians: HashMap<AccountId, bool>,
    pub reputations: HashMap<AccountId, u64>,
    /// Tokens each account has locked in the contract.
    pub locked: HashMap<AccountId, i128>,
    /// When each account started its withdrawal time-lock.
    pub timelocks: HashMap<AccountId, u64>,
    /// Active (not archived) tasks, by id.
    pub tasks: HashMap<u64, Task>,
    pub archived: HashMap<u64, Task>,
    /// The guardians that voted on each task, in voting order.
    pub voters: HashMap<u64, Vec<AccountId>>,
    pub streams: HashMap<u64, RewardStream>,
    pub snapshots: HashMap<u64, Snapshot>,
    pub snapshot_history: Vec<u64>,
    pub withdrawals: HashMap<u64, WithdrawalRequest>,
    pub withdrawal_counter: u64,
}

/// The mathematical content of a [`VeroContract`].
pub struct ContractView {
    pub own_account: AccountId,
    pub initialized: bool,
    pub admin: Option<AccountId>,
    pub token: Option<AccountId>,
    pub lock_threshold: i128,
    pub paused: bool,
    pub failure_count: u32,
    pub weight_threshold: u64,
    pub vault: Option<AccountId>,
    pub drips: Option<AccountId>,
    pub guardians: Map<AccountId, bool>,
    pub reputations: Map<AccountId, u64>,
    pub locked: Map<AccountId, i128>,
    pub timelocks: Map<AccountId, u64>,
    pub tasks: Map<u64, Task>,
    pub archived: Map<u64, Task>,
    pub voters: Map<u64, Seq<AccountId>>,
    pub streams: Map<u64, RewardStream>,
    pub snapshots: Map<u64, SnapshotView>,
    pub snapshot_history: Seq<u64>,
    pub withdrawals: Map<u64, WithdrawalRequest>,
    pub withdrawal_counter: u64,
}

/// The views of a map of snapshots.
pub open spec fn snapshot_views(m: Map<u64, Snapshot>) -> Map<u64, SnapshotView> {
    m.map_values(|s: Snapshot| s@)
}

impl View for VeroContract {
    type V = ContractView;

    open spec fn view(&self) -> ContractView {
        ContractView {
            own_account: self.own_account,
            initialized: self.initialized,
            admin: self.admin,
            token: self.token,
            lock_threshold: self.lock_threshold,
            paused: self.paused,
            failure_count: self.failure_count,
            weight_threshold: self.weight_threshold,
            vault: self.vault,
            drips: self.drips,
            guardians: self.guardians@,
            reputations: self.reputations@,
            locked: self.locked@,
            timelocks: self.timelocks@,
            tasks: self.tasks@,
            archived: self.archived@,
            voters: voter_lists(self.voters@),
            streams: self.streams@,
            snapshots: snapshot_views(self.snapshots@),
            snapshot_history: self.snapshot_history@,
            withdrawals: self.withdrawals@,
            withdrawal_counter: self.withdrawal_counter,
        }
    }
}

impl ContractView {
    /// The state of a contract with account `own_account` whose storage is
    /// empty.
    pub open spec fn empty(own_account: AccountId) -> ContractView {
        ContractView {
            own_account,
            initialized: false,
            admin: None,
            token: None,
            lock_threshold: 0,
            paused: false,
            failure_count: 0,
            weight_threshold: DEFAULT_WEIGHT_THRESHOLD,
            vault: None,
            drips: None,
            guardians: Map::empty(),
            reputations: Map::empty(),
            locked: Map::empty(),
            timelocks: Map::empty(),
            tasks: Map::empty(),
            archived: Map::empty(),
            voters: Map::empty(),
            streams: Map::empty(),
            snapshots: Map::empty(),
            snapshot_history: Seq::empty(),
            withdrawals: Map::empty(),
            withdrawal_counter: 0,
        }
    }

    pub open spec fn is_guardian(self, account: AccountId) -> bool {
        self.guardians.contains_key(account) && self.guardians[account]
    }

    pub open spec fn reputation(self, account: AccountId) -> Option<u64> {
        if self.reputations.contains_key(account) {
            Some(self.reputations[account])
        } else {
            None
        }
    }

    /// Tokens locked by `account`; nothing locked reads as zero.
    pub open spec fn locked_balance(self, account: AccountId) -> i128 {
        if self.locked.contains_key(account) {
            self.locked[account]
        } else {
            0
        }
    }

    pub open spec fn timelock(self, account: AccountId) -> Option<u64> {
        if self.timelocks.contains_key(account) {
            Some(self.timelocks[account])
        } else {
            None
        }
    }

    pub open spec fn active_task(self, task_id: u64) -> Option<Task> {
        if self.tasks.contains_key(task_id) {
            Some(self.tasks[task_id])
        } else {
            None
        }
    }

    pub open spec fn archived_task(self, task_id: u64) -> Option<Task> {
        if self.archived.contains_key(task_id) {
            Some(self.archived[task_id])
        } else {
            None
        }
    }

    /// The guardians that voted on a task; none reads as empty.
    pub open spec fn task_voters(self, task_id: u64) -> Seq<AccountId> {
        if self.voters.contains_key(task_id) {
            self.voters[task_id]
        } else {
            Seq::empty()
        }
    }

    pub open spec fn has_voted(self, task_id: u64, account: AccountId) -> bool {
        self.task_voters(task_id).contains(account)
    }
}

/// `result` and the state change from `old` to `new` are what `outcome`
/// prescribes; a refused call leaves the state as it was.
pub open spec fn applies<T>(
    old: ContractView,
    new: ContractView,
    result: Result<T, crate::types::ContractError>,
    outcome: Result<(ContractView, T), crate::types::ContractError>,
) -> bool {
    match outcome {
        Ok((next, value)) => result == Ok::<T, crate::types::ContractError>(value) && new == next,
        Err(e) => result == Err::<T, crate::types::ContractError>(e) && new == old,
    }
}

/// The effects of a call, as a sequence.
pub open spec fn effects_view(r: Result<Vec<Effect>, crate::types::ContractError>) -> Result<Seq<Effect>, crate::types::ContractError> {
    match r {
        Ok(v) => Ok(v@),
        Err(e) => Err(e),
    }
}

impl VeroContract {
    /// A contract with account `own_account` and empty storage.
    pub fn new(own_account: AccountId) -> (c: VeroContract)
        ensures
            c@ == ContractView::empty(own_account),
    {
        let c = VeroContract {
            own_account,
            initialized: false,
            admin: None,
            token: None,
            lock_threshold: 0,
            paused: false,
            failure_count: 0,
            weight_threshold: DEFAULT_WEIGHT_THRESHOLD,
            vault: None,
            drips: None,
            guardians: HashMap::new(),
            reputations: HashMap::new(),
            locked: HashMap::new(),
            timelocks: HashMap::new(),
            tasks: HashMap::new(),
            archived: HashMap::new(),
            voters: HashMap::new(),
            streams: HashMap::new(),
            snapshots: HashMap::new(),
            snapshot_history: Vec::new(),
            withdrawals: HashMap::new(),
            withdrawal_counter: 0,
        };
        assert(voter_lists(c.voters@) =~= Map::empty());
        assert(snapshot_views(c.snapshots@) =~= Map::empty());
        c
    }

    pub fn is_guardian(&self, account: AccountId) -> (b: bool)
        ensures
            b == self@.is_guardian(account),
    {
        match self.guardians.get(&account) {
            Some(flag) => *flag,
            None => false,
        }
    }
}


impl VeroContract {
    /// Sets up the contract once: admin, staking token and the locked
    /// balance a guardian must exceed to vote.
    pub fn initialize(&mut self, admin: AccountId, token: AccountId, lock_threshold: i128) -> (r: Result<(), ContractError>)
        ensures
            applies(old(self)@, final(self)@, r, initialize_outcome(old(self)@, admin, token, lock_threshold)),
    {
        if self.initialized {
            return Err(ContractError::AlreadyInitialized);
        }
        if token == self.own_account {
            return Err(ContractError::InvalidAddress);
        }
        if !is_valid_lock_threshold(lock_threshold) {
            return Err(ContractError::InvalidAmount);
        }
        self.initialized = true;
        self.admin = Some(admin);
        self.token = Some(token);
        self.lock_threshold = lock_threshold;
        self.paused = false;
        Ok(())
    }

    pub fn get_admin(&self) -> (a: Option<AccountId>)
        ensures
            a == self@.admin,
    {
        self.admin
    }

    /// Flips the emergency pause.
    pub fn toggle_pause(&mut self, admin: AccountId) -> (r: Result<(), ContractError>)
        ensures
            r == Ok::<(), ContractError>(()),
            final(self)@ == (ContractView { paused: !old(self)@.paused, ..old(self)@ }),
    {
        self.paused = !self.paused;
        Ok(())
    }

    pub fn pause(&mut self, admin: AccountId) -> (r: Result<(), ContractError>)
        ensures
            r == Ok::<(), ContractError>(()),
            final(self)@ == (ContractView { paused: true, ..old(self)@ }),
    {
        self.paused = true;
        Ok(())
    }

    pub fn unpause(&mut self, admin: AccountId) -> (r: Result<(), ContractError>)
        ensures
            r == Ok::<(), ContractError>(()),
            final(self)@ == (ContractView { paused: false, ..old(self)@ }),
    {
        self.paused = false;
        Ok(())
    }

    pub fn is_paused(&self) -> (b: bool)
        ensures
            b == self@.paused,
    {
        self.paused
    }

    fn require_not_paused(&self) -> (r: Result<(), ContractError>)
        ensures
            r == (if self@.paused { Err(ContractError::ContractPaused) } else { Ok::<(), ContractError>(()) }),
    {
        if self.paused {
            Err(ContractError::ContractPaused)
        } else {
            Ok(())
        }
    }

    fn require_admin(&self, admin: AccountId) -> (r: Result<(), ContractError>)
        ensures
            r == admin_check(self@, admin),
    {
        match self.admin {
            Some(stored) => if stored == admin {
                Ok(())
            } else {
                Err(ContractError::NotAuthorized)
            },
            None => Err(ContractError::NotInitialized),
        }
    }

    /// Registers `guardian`; the caller must be the admin, and neither the
    /// contract itself nor the admin can be a guardian.
    pub fn add_guardian(&mut self, admin: AccountId, guardian: AccountId) -> (r: Result<(), ContractError>)
        ensures
            applies(old(self)@, final(self)@, r, add_guardian_outcome(old(self)@, admin, guardian)),
    {
        self.require_not_paused()?;
        self.require_admin(admin)?;
        if guardian == self.own_account || self.admin == Some(guardian) {
            return Err(ContractError::InvalidAddress);
        }
        self.guardians.insert(guardian, true);
        Ok(())
    }

    pub fn remove_guardian(&mut self, admin: AccountId, guardian: AccountId) -> (r: Result<(), ContractError>)
        ensures
            applies(old(self)@, final(self)@, r, remove_guardian_outcome(old(self)@, admin, guardian)),
    {
        self.require_not_paused()?;
        self.require_admin(admin)?;
        self.guardians.remove(&guardian);
        Ok(())
    }

    pub fn set_reputation(&mut self, admin: AccountId, guardian: AccountId, score: u64) -> (r: Result<(), ContractError>)
        ensures
            applies(old(self)@, final(self)@, r, set_reputation_outcome(old(self)@, admin, guardian, score)),
    {
        self.require_not_paused()?;
        self.require_admin(admin)?;
        if !is_valid_reputation(score) {
            return Err(ContractError::InvalidReputation);
        }
        if !self.is_guardian(guardian) {
            return Err(ContractError::NotGuardian);
        }
        self.reputations.insert(guardian, score);
        Ok(())
    }

    pub fn get_reputation(&self, guardian: AccountId) -> (score: Option<u64>)
        ensures
            score == self@.reputation(guardian),
    {
        match self.reputations.get(&guardian) {
            Some(s) => Some(*s),
            None => None,
        }
    }

    /// The weight a vote of `guardian` would carry: its reputation, if it is
    /// a guardian with one.
    pub fn calculate_voting_power(&self, guardian: AccountId) -> (power: Option<u64>)
        ensures
            power == (if self@.is_guardian(guardian) { self@.reputation(guardian) } else { None }),
    {
        if self.is_guardian(guardian) {
            self.get_reputation(guardian)
        } else {
            None
        }
    }

    pub fn lock_tokens(&mut self, guardian: AccountId, amount: i128) -> (r: Result<Vec<Effect>, ContractError>)
        ensures
            applies(old(self)@, final(self)@, effects_view(r), lock_outcome(old(self)@, guardian, amount)),
    {
        crate::logic::lock_tokens(self, guardian, amount)
    }

    pub fn request_unlock(&mut self, guardian: AccountId, now: u64) -> (r: Result<(), ContractError>)
        ensures
            r == Ok::<(), ContractError>(()),
            final(self)@ == (ContractView { timelocks: old(self)@.timelocks.insert(guardian, now), ..old(self)@ }),
    {
        crate::logic::request_unlock(self, guardian, now)
    }

    pub fn unlock_tokens(&mut self, guardian: AccountId, now: u64) -> (r: Result<Vec<Effect>, ContractError>)
        requires
            unlock_fits(old(self)@, guardian),
        ensures
            applies(old(self)@, final(self)@, effects_view(r), unlock_outcome(old(self)@, guardian, now)),
    {
        crate::logic::unlock_tokens(self, guardian, now)
    }

    pub fn resign_guardian(&mut self, guardian: AccountId, now: u64) -> (r: Result<Vec<Effect>, ContractError>)
        requires
            resign_fits(old(self)@, guardian),
        ensures
            applies(old(self)@, final(self)@, effects_view(r), resign_outcome(old(self)@, guardian, now)),
    {
        crate::logic::resign_guardian(self, guardian, now)
    }

    /// Sets the weight a task needs to resolve; the caller must be the admin.
    pub fn set_weight_threshold(&mut self, admin: AccountId, threshold: u64) -> (r: Result<(), ContractError>)
        ensures
            applies(old(self)@, final(self)@, r, set_weight_threshold_outcome(old(self)@, admin, threshold)),
    {
        self.require_not_paused()?;
        self.require_admin(admin)?;
        if !is_valid_weight_threshold(threshold) {
            return Err(ContractError::InvalidThreshold);
        }
        self.weight_threshold = threshold;
        Ok(())
    }

    pub fn get_weight_threshold(&self) -> (t: u64)
        ensures
            t == self@.weight_threshold,
    {
        self.weight_threshold
    }

    /// Sets the escrow vault, which cannot be the contract itself.
    pub fn set_vault_address(&mut self, admin: AccountId, vault: AccountId) -> (r: Result<(), ContractError>)
        ensures
            applies(old(self)@, final(self)@, r, set_vault_address_outcome(old(self)@, vault)),
    {
        if vault == self.own_account {
            return Err(ContractError::InvalidAddress);
        }
        self.vault = Some(vault);
        Ok(())
    }

    /// Registers one task; the caller must be the admin.
    pub fn register_task(&mut self, admin: AccountId, task_id: u64) -> (r: Result<(), ContractError>)
        ensures
            applies(old(self)@, final(self)@, r, when_running(old(self)@, register_tasks_outcome(old(self)@, admin, seq![task_id]))),
    {
        self.require_not_paused()?;
        let stored_admin = match self.admin {
            Some(a) => a,
            None => {
                return Err(ContractError::NotInitialized);
            },
        };
        if admin != stored_admin {
            return Err(ContractError::NotAuthorized);
        }
        let mut task_ids: Vec<u64> = Vec::new();
        task_ids.push(task_id);
        assert(task_ids@ =~= seq![task_id]);
        crate::task::register_tasks(self, admin, &task_ids)
    }

    pub fn cancel_task(&mut self, admin: AccountId, task_id: u64) -> (r: Result<(), ContractError>)
        ensures
            applies(old(self)@, final(self)@, r, when_running(old(self)@, cancel_task_outcome(old(self)@, admin, task_id))),
    {
        self.require_not_paused()?;
        crate::task::cancel_task(self, admin, task_id)
    }

    /// Purges a terminal task (done or cancelled) from storage: the task,
    /// active or archived, and its voter records. Refused with
    /// `TaskNotFound` if no task exists, `TaskNotTerminal` if the task is
    /// still active, and `NotAuthorized` if the caller is not the admin.
    pub fn purge_task(&mut self, admin: AccountId, task_id: u64) -> (r: Result<(), ContractError>)
        ensures
            applies(old(self)@, final(self)@, r, purge_task_outcome(old(self)@, admin, task_id)),
    {
        crate::task::purge_task(self, admin, task_id)
    }

    pub fn vote(&mut self, guardian: AccountId, task_id: u64, now: u64) -> (r: Result<Vec<Effect>, ContractError>)
        ensures
            applies(old(self)@, final(self)@, effects_view(r), vote_outcome(old(self)@, guardian, task_id, now)),
    {
        crate::logic::process_vote(self, guardian, task_id, now)
    }

    /// The active task with this id.
    pub fn get_task(&self, task_id: u64) -> (t: Option<Task>)
        ensures
            t == self@.active_task(task_id),
    {
        crate::storage::get_active_task(self, task_id)
    }

    pub fn archive_task(&mut self, task_id: u64, now: u64) -> (r: Result<(), ContractError>)
        ensures
            applies(old(self)@, final(self)@, r, archive_outcome(old(self)@, task_id, now)),
    {
        crate::storage::archive_task(self, task_id, now)
    }

    pub fn get_archived_task(&self, task_id: u64) -> (t: Option<Task>)
        ensures
            t == self@.archived_task(task_id),
    {
        crate::storage::get_archived_task(self, task_id)
    }

    /// Opens a reward stream for the contributor of a resolved task through
    /// the streaming contract `drips`.
    pub fn start_reward_stream(
        &mut self,
        admin: AccountId,
        drips: AccountId,
        contributor: AccountId,
        task_id: u64,
    ) -> (r: Result<Vec<Effect>, ContractError>)
        ensures
            applies(old(self)@, final(self)@, effects_view(r), start_reward_stream_outcome(old(self)@, drips, contributor, task_id)),
    {
        self.require_not_paused()?;
        if drips == self.own_account || contributor == self.own_account || drips == contributor {
            return Err(ContractError::InvalidAddress);
        }
        if !is_valid_task_id(task_id) {
            return Err(ContractError::InvalidTaskId);
        }
        let verified = match self.tasks.get(&task_id) {
            Some(t) => t.is_done,
            None => false,
        };
        if !verified {
            return Err(ContractError::TaskNotVerified);
        }
        if self.streams.contains_key(&task_id) {
            return Err(ContractError::StreamAlreadyActive);
        }
        self.streams.insert(task_id, RewardStream { task_id, contributor, drips_contract: drips, active: true });
        self.drips = Some(drips);
        let mut effects: Vec<Effect> = Vec::new();
        effects.push(Effect::StartStream { drips, contributor, task_id });
        effects.push(Effect::Emit(Event::RewardStreamStarted { task_id, contributor }));
        assert(effects@ =~= seq![
            Effect::StartStream { drips, contributor, task_id },
            Effect::Emit(Event::RewardStreamStarted { task_id, contributor }),
        ]);
        Ok(effects)
    }

    pub fn get_reward_stream(&self, task_id: u64) -> (s: Option<RewardStream>)
        ensures
            s == (if self@.streams.contains_key(task_id) { Some(self@.streams[task_id]) } else { None }),
    {
        match self.streams.get(&task_id) {
            Some(s) => Some(*s),
            None => None,
        }
    }

    /// Counts one failure; more than [`MAX_FAILURES`] pause the contract.
    pub fn record_failure(&mut self)
        ensures
            final(self)@ == record_failure_outcome(old(self)@),
    {
        self.failure_count = self.failure_count.saturating_add(1);
        if self.failure_count > MAX_FAILURES {
            self.paused = true;
        }
    }

    pub fn reset_circuit_breaker(&mut self, admin: AccountId)
        ensures
            final(self)@ == (ContractView { failure_count: 0, paused: false, ..old(self)@ }),
    {
        self.failure_count = 0;
        self.paused = false;
    }

    pub fn get_estimated_cost(&self, op: Operation) -> (cost: u64)
        ensures
            cost == estimated_cost(op),
    {
        crate::gas::get_estimated_cost(op)
    }

    /// Asks the host to replace the contract's code.
    pub fn upgrade_contract(&self, admin: AccountId, new_wasm_hash: [u8; 32]) -> (effects: Vec<Effect>)
        ensures
            effects@ == seq![Effect::UpdateWasm { wasm_hash: new_wasm_hash }],
    {
        let mut effects: Vec<Effect> = Vec::new();
        effects.push(Effect::UpdateWasm { wasm_hash: new_wasm_hash });
        effects
    }

    pub fn get_snapshot(&self, now: u64) -> (s: Snapshot)
        ensures
            s@ == snapshot_of(self@, now),
    {
        crate::logic::get_snapshot(self, now)
    }

    pub fn record_snapshot(&mut self, now: u64) -> (r: Result<Vec<Effect>, ContractError>)
        ensures
            r is Ok,
            r matches Ok(effects) && effects@ == seq![Effect::Emit(Event::SnapshotRecorded { timestamp: now })],
            final(self)@ == (ContractView {
                snapshots: old(self)@.snapshots.insert(now, snapshot_of(old(self)@, now)),
                snapshot_history: old(self)@.snapshot_history.push(now),
                ..old(self)@
            }),
    {
        crate::logic::record_snapshot(self, now)
    }

    /// The times of all recorded snapshots, oldest first.
    pub fn get_snapshot_history(&self) -> (h: Vec<u64>)
        ensures
            h@ == self@.snapshot_history,
    {
        let mut out: Vec<u64> = Vec::new();
        let n = self.snapshot_history.len();
        for i in 0..n
            invariant
                n == self.snapshot_history@.len(),
                out@ == self.snapshot_history@.take(i as int),
        {
            out.push(self.snapshot_history[i]);
            assert(out@ =~= self.snapshot_history@.take(i + 1));
        }
        assert(out@ =~= self.snapshot_history@);
        out
    }

    pub fn get_snapshot_at(&self, timestamp: u64) -> (r: Result<&Snapshot, ContractError>)
        ensures
            match r {
                Ok(s) => self@.snapshots.contains_key(timestamp) && s@ == self@.snapshots[timestamp],
                Err(e) => !self@.snapshots.contains_key(timestamp) && e == ContractError::SnapshotNotFound,
            },
    {
        match self.snapshots.get(&timestamp) {
            Some(s) => Ok(s),
            None => Err(ContractError::SnapshotNotFound),
        }
    }

    pub fn get_withdrawal_timelock(&self, guardian: AccountId) -> (t: Option<u64>)
        ensures
            t == self@.timelock(guardian),
    {
        match self.timelocks.get(&guardian) {
            Some(t) => Some(*t),
            None => None,
        }
    }
}

impl VeroContract {
    /// A copy of the whole state.
    fn duplicate(&self) -> (c: VeroContract)
        ensures
            c@ == self@,
    {
        let mut history: Vec<u64> = Vec::new();
        let n = self.snapshot_history.len();
        for i in 0..n
            invariant
                n == self.snapshot_history@.len(),
                history@ == self.snapshot_history@.take(i as int),
        {
            history.push(self.snapshot_history[i]);
            assert(history@ =~= self.snapshot_history@.take(i + 1));
        }
        assert(history@ =~= self.snapshot_history@);
        VeroContract {
            own_account: self.own_account,
            initialized: self.initialized,
            admin: self.admin,
            token: self.token,
            lock_threshold: self.lock_threshold,
            paused: self.paused,
            failure_count: self.failure_count,
            weight_threshold: self.weight_threshold,
            vault: self.vault,
            drips: self.drips,
            guardians: self.guardians.clone(),
            reputations: self.reputations.clone(),
            locked: self.locked.clone(),
            timelocks: self.timelocks.clone(),
            tasks: self.tasks.clone(),
            archived: self.archived.clone(),
            voters: self.voters.clone(),
            streams: self.streams.clone(),
            snapshots: self.snapshots.clone(),
            snapshot_history: history,
            withdrawals: self.withdrawals.clone(),
            withdrawal_counter: self.withdrawal_counter,
        }
    }

    /// Runs one call of a batch.
    fn execute_call(&mut self, call: BatchCall, now: u64) -> (r: Result<Vec<Effect>, ContractError>)
        requires
            call_fits(old(self)@, call),
        ensures
            applies(old(self)@, final(self)@, effects_view(r), call_outcome(old(self)@, call, now)),
    {
        match call {
            BatchCall::RegisterTask(admin, task_id) => {
                self.register_task(admin, task_id)?;
                Ok(Vec::new())
            },
            BatchCall::CancelTask(admin, task_id) => {
                self.cancel_task(admin, task_id)?;
                Ok(Vec::new())
            },
            BatchCall::Vote(guardian, task_id) => self.vote(guardian, task_id, now),
            BatchCall::AddGuardian(admin, guardian) => {
                self.add_guardian(admin, guardian)?;
                Ok(Vec::new())
            },
            BatchCall::RemoveGuardian(admin, guardian) => {
                self.remove_guardian(admin, guardian)?;
                Ok(Vec::new())
            },
            BatchCall::SetReputation(admin, guardian, score) => {
                self.set_reputation(admin, guardian, score)?;
                Ok(Vec::new())
            },
            BatchCall::LockTokens(guardian, amount) => self.lock_tokens(guardian, amount),
            BatchCall::RequestUnlock(guardian) => {
                self.request_unlock(guardian, now)?;
                Ok(Vec::new())
            },
            BatchCall::UnlockTokens(guardian) => self.unlock_tokens(guardian, now),
            BatchCall::ResignGuardian(guardian) => self.resign_guardian(guardian, now),
            BatchCall::SetWeightThreshold(admin, threshold) => {
                self.set_weight_threshold(admin, threshold)?;
                Ok(Vec::new())
            },
            BatchCall::SetVaultAddress(admin, vault) => {
                self.set_vault_address(admin, vault)?;
                Ok(Vec::new())
            },
            BatchCall::StartRewardStream(admin, drips, contributor, task_id) => self.start_reward_stream(admin, drips, contributor, task_id),
            BatchCall::TogglePause(admin) => {
                self.toggle_pause(admin)?;
                Ok(Vec::new())
            },
            BatchCall::Pause(admin) => {
                self.pause(admin)?;
                Ok(Vec::new())
            },
            BatchCall::Unpause(admin) => {
                self.unpause(admin)?;
                Ok(Vec::new())
            },
            BatchCall::RecordFailure(_admin) => {
                self.record_failure();
                Ok(Vec::new())
            },
            BatchCall::ResetCircuitBreaker(admin) => {
                self.reset_circuit_breaker(admin);
                Ok(Vec::new())
            },
        }
    }

    /// Whether `call` stays clear of arithmetic overflow on this state.
    pub fn call_within_limits(&self, call: BatchCall) -> (b: bool)
        ensures
            b == call_fits(self@, call),
    {
        match call {
            BatchCall::UnlockTokens(guardian) => self.is_guardian(guardian) || self.timelock_end_fits(guardian),
            BatchCall::ResignGuardian(guardian) => !self.is_guardian(guardian) || self.timelock_end_fits(guardian),
            _ => true,
        }
    }

    fn timelock_end_fits(&self, guardian: AccountId) -> (b: bool)
        ensures
            b == crate::timelock::timelock_end_fits(self@, guardian),
    {
        match self.timelocks.get(&guardian) {
            Some(start) => *start <= u64::MAX - crate::timelock::WITHDRAWAL_DELAY_SECONDS,
            None => true,
        }
    }

    /// Runs `calls` in order as one atomic unit, as [`Self::batch_execute`]
    /// does, when every call it reaches stays clear of arithmetic overflow;
    /// otherwise it returns `None` and changes nothing.
    pub fn checked_batch_execute(&mut self, calls: &Vec<BatchCall>, now: u64) -> (r: Option<Result<Vec<Effect>, ContractError>>)
        ensures
            r is None <==> !batch_fits(old(self)@, calls@, now),
            r is None ==> final(self)@ == old(self)@,
            r matches Some(res) ==> applies(old(self)@, final(self)@, effects_view(res), batch_outcome(old(self)@, calls@, now)),
    {
        let backup = self.duplicate();
        let mut effects: Vec<Effect> = Vec::new();
        let n = calls.len();
        let mut i: usize = 0;
        assert(calls@.skip(0) =~= calls@);
        proof {
            if let Ok((last, more)) = batch_outcome(self@, calls@, now) {
                assert(effects@ + more =~= more);
            }
        }
        while i < n
            invariant
                n == calls@.len(),
                i <= n,
                backup@ == old(self)@,
                batch_fits(old(self)@, calls@, now) == batch_fits(self@, calls@.skip(i as int), now),
                batch_outcome(old(self)@, calls@, now) == (match batch_outcome(self@, calls@.skip(i as int), now) {
                    Err(e) => Err(e),
                    Ok((last, more)) => Ok((last, effects@ + more)),
                }),
            decreases n - i,
        {
            let ghost rest = calls@.skip(i as int);
            assert(rest[0] == calls@[i as int]);
            assert(rest.drop_first() =~= calls@.skip(i + 1));
            if !self.call_within_limits(calls[i]) {
                *self = backup;
                return None;
            }
            let ghost acc = effects@;
            match self.execute_call(calls[i], now) {
                Ok(mut more) => {
                    proof {
                        let tail = batch_outcome(self@, calls@.skip(i + 1), now);
                        if let Ok((last, later)) = tail {
                            assert(acc + (more@ + later) =~= (acc + more@) + later);
                        }
                    }
                    effects.append(&mut more);
                },
                Err(e) => {
                    *self = backup;
                    return Some(Err(e));
                },
            }
            i = i + 1;
        }
        assert(calls@.skip(n as int) =~= Seq::<BatchCall>::empty());
        assert(effects@ + Seq::<Effect>::empty() =~= effects@);
        Some(Ok(effects))
    }

    /// Runs `calls` in order as one atomic unit: if any call is refused, the
    /// batch is refused with its error and the state stays as it was;
    /// otherwise the outside work of all calls is returned in order.
    pub fn batch_execute(&mut self, calls: &Vec<BatchCall>, now: u64) -> (r: Result<Vec<Effect>, ContractError>)
        requires
            batch_fits(old(self)@, calls@, now),
        ensures
            applies(old(self)@, final(self)@, effects_view(r), batch_outcome(old(self)@, calls@, now)),
    {
        match self.checked_batch_execute(calls, now) {
            Some(r) => r,
            None => {
                assert(false);
                Err(ContractError::NotAuthorized)
            },
        }
    }
}

/// `admin` is the stored admin; the error otherwise.
pub open spec fn admin_check(v: ContractView, admin: AccountId) -> Result<(), ContractError> {
    match v.admin {
        None => Err(ContractError::NotInitialized),
        Some(stored) => if stored == admin {
            Ok(())
        } else {
            Err(ContractError::NotAuthorized)
        },
    }
}

/// More recorded failures than this pause the contract.
pub const MAX_FAILURES: u32 = 50;

/// `outcome`, unless the contract is paused.
pub open spec fn when_running<T>(v: ContractView, outcome: Result<(ContractView, T), ContractError>) -> Result<(ContractView, T), ContractError> {
    if v.paused {
        Err(ContractError::ContractPaused)
    } else {
        outcome
    }
}

/// A call's outcome with no outside work.
pub open spec fn without_effects(outcome: Result<(ContractView, ()), ContractError>) -> Result<(ContractView, Seq<Effect>), ContractError> {
    match outcome {
        Ok((next, _)) => Ok((next, Seq::empty())),
        Err(e) => Err(e),
    }
}

/// Initializing sets the admin, the staking token and the lock threshold,
/// once. The token may not be the contract itself and the threshold must
/// lie in the accepted range.
pub open spec fn initialize_outcome(v: ContractView, admin: AccountId, token: AccountId, lock_threshold: i128) -> Result<(ContractView, ()), ContractError> {
    if v.initialized {
        Err(ContractError::AlreadyInitialized)
    } else if token == v.own_account {
        Err(ContractError::InvalidAddress)
    } else if !valid_lock_threshold(lock_threshold) {
        Err(ContractError::InvalidAmount)
    } else {
        Ok((
            ContractView { initialized: true, admin: Some(admin), token: Some(token), lock_threshold, paused: false, ..v },
            (),
        ))
    }
}

/// `outcome` for the stored admin, while the contract runs.
pub open spec fn admin_running<T>(v: ContractView, admin: AccountId, outcome: Result<(ContractView, T), ContractError>) -> Result<(ContractView, T), ContractError> {
    when_running(v, match admin_check(v, admin) {
        Err(e) => Err(e),
        Ok(_) => outcome,
    })
}

/// Adding a guardian: neither the contract itself nor the admin may be one.
pub open spec fn add_guardian_outcome(v: ContractView, admin: AccountId, guardian: AccountId) -> Result<(ContractView, ()), ContractError> {
    admin_running(v, admin, if guardian == v.own_account || v.admin == Some(guardian) {
        Err(ContractError::InvalidAddress)
    } else {
        Ok((ContractView { guardians: v.guardians.insert(guardian, true), ..v }, ()))
    })
}

pub open spec fn remove_guardian_outcome(v: ContractView, admin: AccountId, guardian: AccountId) -> Result<(ContractView, ()), ContractError> {
    admin_running(v, admin, Ok((ContractView { guardians: v.guardians.remove(guardian), ..v }, ())))
}

/// Setting a guardian's reputation to a score in the accepted range.
pub open spec fn set_reputation_outcome(v: ContractView, admin: AccountId, guardian: AccountId, score: u64) -> Result<(ContractView, ()), ContractError> {
    admin_running(v, admin, if !valid_reputation(score) {
        Err(ContractError::InvalidReputation)
    } else if !v.is_guardian(guardian) {
        Err(ContractError::NotGuardian)
    } else {
        Ok((ContractView { reputations: v.reputations.insert(guardian, score), ..v }, ()))
    })
}

/// Setting the weight a task needs, within the accepted range.
pub open spec fn set_weight_threshold_outcome(v: ContractView, admin: AccountId, threshold: u64) -> Result<(ContractView, ()), ContractError> {
    admin_running(v, admin, if !valid_weight_threshold(threshold) {
        Err(ContractError::InvalidThreshold)
    } else {
        Ok((ContractView { weight_threshold: threshold, ..v }, ()))
    })
}

/// Setting the escrow vault: the contract itself cannot be it. The caller
/// authenticates with the host; it need not be the stored admin.
pub open spec fn set_vault_address_outcome(v: ContractView, vault: AccountId) -> Result<(ContractView, ()), ContractError> {
    if vault == v.own_account {
        Err(ContractError::InvalidAddress)
    } else {
        Ok((ContractView { vault: Some(vault), ..v }, ()))
    }
}

/// Opening a reward stream for the contributor of a resolved task: at most
/// one stream per task; the streaming contract and the contributor are two
/// accounts other than the contract itself.
pub open spec fn start_reward_stream_outcome(v: ContractView, drips: AccountId, contributor: AccountId, task_id: u64) -> Result<(ContractView, Seq<Effect>), ContractError> {
    if v.paused {
        Err(ContractError::ContractPaused)
    } else if drips == v.own_account || contributor == v.own_account || drips == contributor {
        Err(ContractError::InvalidAddress)
    } else if !valid_task_id(task_id) {
        Err(ContractError::InvalidTaskId)
    } else if !v.tasks.contains_key(task_id) || !v.tasks[task_id].is_done {
        Err(ContractError::TaskNotVerified)
    } else if v.streams.contains_key(task_id) {
        Err(ContractError::StreamAlreadyActive)
    } else {
        Ok((
            ContractView {
                streams: v.streams.insert(task_id, RewardStream { task_id, contributor, drips_contract: drips, active: true }),
                drips: Some(drips),
                ..v
            },
            seq![
                Effect::StartStream { drips, contributor, task_id },
                Effect::Emit(Event::RewardStreamStarted { task_id, contributor }),
            ],
        ))
    }
}

/// One more recorded failure; past [`MAX_FAILURES`] the contract pauses.
pub open spec fn record_failure_outcome(v: ContractView) -> ContractView {
    let count = if v.failure_count == u32::MAX { u32::MAX } else { (v.failure_count + 1) as u32 };
    ContractView { failure_count: count, paused: v.paused || count > MAX_FAILURES, ..v }
}

/// The outcome of one call of a batch.
pub open spec fn call_outcome(v: ContractView, call: BatchCall, now: u64) -> Result<(ContractView, Seq<Effect>), ContractError> {
    match call {
        BatchCall::RegisterTask(admin, task_id) => without_effects(when_running(v, register_tasks_outcome(v, admin, seq![task_id]))),
        BatchCall::CancelTask(admin, task_id) => without_effects(when_running(v, cancel_task_outcome(v, admin, task_id))),
        BatchCall::Vote(guardian, task_id) => vote_outcome(v, guardian, task_id, now),
        BatchCall::AddGuardian(admin, guardian) => without_effects(add_guardian_outcome(v, admin, guardian)),
        BatchCall::RemoveGuardian(admin, guardian) => without_effects(remove_guardian_outcome(v, admin, guardian)),
        BatchCall::SetReputation(admin, guardian, score) => without_effects(set_reputation_outcome(v, admin, guardian, score)),
        BatchCall::LockTokens(guardian, amount) => lock_outcome(v, guardian, amount),
        BatchCall::RequestUnlock(guardian) => Ok((ContractView { timelocks: v.timelocks.insert(guardian, now), ..v }, Seq::empty())),
        BatchCall::UnlockTokens(guardian) => unlock_outcome(v, guardian, now),
        BatchCall::ResignGuardian(guardian) => resign_outcome(v, guardian, now),
        BatchCall::SetWeightThreshold(admin, threshold) => without_effects(set_weight_threshold_outcome(v, admin, threshold)),
        BatchCall::SetVaultAddress(_admin, vault) => without_effects(set_vault_address_outcome(v, vault)),
        BatchCall::StartRewardStream(_admin, drips, contributor, task_id) => start_reward_stream_outcome(v, drips, contributor, task_id),
        BatchCall::TogglePause(_admin) => Ok((ContractView { paused: !v.paused, ..v }, Seq::empty())),
        BatchCall::Pause(_admin) => Ok((ContractView { paused: true, ..v }, Seq::empty())),
        BatchCall::Unpause(_admin) => Ok((ContractView { paused: false, ..v }, Seq::empty())),
        BatchCall::RecordFailure(_admin) => Ok((record_failure_outcome(v), Seq::empty())),
        BatchCall::ResetCircuitBreaker(_admin) => Ok((ContractView { failure_count: 0, paused: false, ..v }, Seq::empty())),
    }
}

/// The call stays clear of arithmetic overflow: the end of a time-lock
/// that an unlock or a resignation reaches fits in a timestamp.
pub open spec fn call_fits(v: ContractView, call: BatchCall) -> bool {
    match call {
        BatchCall::UnlockTokens(guardian) => unlock_fits(v, guardian),
        BatchCall::ResignGuardian(guardian) => resign_fits(v, guardian),
        _ => true,
    }
}

/// The outcome of a batch: the calls run in order on the state that the
/// previous ones left, their outside work is concatenated, and the first
/// refused call refuses the whole batch.
pub open spec fn batch_outcome(v: ContractView, calls: Seq<BatchCall>, now: u64) -> Result<(ContractView, Seq<Effect>), ContractError>
    decreases calls.len(),
{
    if calls.len() == 0 {
        Ok((v, Seq::empty()))
    } else {
        match call_outcome(v, calls[0], now) {
            Err(e) => Err(e),
            Ok((next, effects)) => match batch_outcome(next, calls.drop_first(), now) {
                Err(e) => Err(e),
                Ok((last, more)) => Ok((last, effects + more)),
            },
        }
    }
}

/// Every call of the batch that runs stays clear of arithmetic overflow.
pub open spec fn batch_fits(v: ContractView, calls: Seq<BatchCall>, now: u64) -> bool
    decreases calls.len(),
{
    calls.len() > 0 ==> {
        &&& call_fits(v, calls[0])
        &&& (call_outcome(v, calls[0], now) matches Ok((next, _)) ==> batch_fits(next, calls.drop_first(), now))
    }
}

} // verus!
