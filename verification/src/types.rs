//! Plain data types shared by the contract logic.
use vstd::prelude::*;
use std::collections::HashMap;

verus! {

/// Accounts (guardians, admins, token and helper contracts) are identified
/// by an integer handle.
pub type AccountId = u64;

/// A task that guardians vote on.
#[derive(Clone, Copy, Debug, PartialEq, Eq, Structural)]
pub struct Task {
    pub id: u64,
    pub votes: u32,
    pub is_done: bool,
    pub total_weight_accrued: u64,
    pub is_cancelled: bool,
    pub resolved_at: u64,
}

impl Task {
    /// A freshly registered task: no votes, no weight, not resolved.
    pub open spec fn fresh(id: u64) -> Task {
        Task { id, votes: 0, is_done: false, total_weight_accrued: 0, is_cancelled: false, resolved_at: 0 }
    }

    pub fn new(id: u64) -> (t: Task)
        ensures
            t == Task::fresh(id),
    {
        Task { id, votes: 0, is_done: false, total_weight_accrued: 0, is_cancelled: false, resolved_at: 0 }
    }

    /// A task is terminal once it is resolved or cancelled.
    pub open spec fn spec_is_terminal(self) -> bool {
        self.is_done || self.is_cancelled
    }
}

/// A treasury withdrawal waiting out its time-lock.
#[derive(Clone, Copy, Debug, PartialEq, Eq, Structural)]
pub struct WithdrawalRequest {
    pub id: u64,
    pub recipient: AccountId,
    pub amount: i128,
    pub requested_at_ledger: u32,
    pub is_executed: bool,
    pub is_cancelled: bool,
}

/// A reward stream opened for the contributor of a resolved task.
#[derive(Clone, Copy, Debug, PartialEq, Eq, Structural)]
pub struct RewardStream {
    pub task_id: u64,
    pub contributor: AccountId,
    pub drips_contract: AccountId,
    pub active: bool,
}

/// Every public write operation of the contract.
#[derive(Clone, Copy, Debug, PartialEq, Eq, Structural)]
pub enum Operation {
    RegisterTask,
    Vote,
    AddGuardian,
    SetReputation,
    LockTokens,
    UnlockTokens,
    ResignGuardian,
    SetWeightThreshold,
    StartRewardStream,
    TogglePause,
    RecordFailure,
    ResetCircuitBreaker,
    UpgradeContract,
    /// `record_snapshot` — records a state snapshot.
    RecordSnapshot,
    PurgeTask,
}

/// Errors returned by the contract's entry points.
#[derive(Clone, Copy, Debug, PartialEq, Eq, Structural)]
pub enum ContractError {
    NotAuthorized,
    DuplicateVote,
    TaskNotVerified,
    StreamAlreadyActive,
    DripsCallFailed,
    AlreadyInitialized,
    NotInitialized,
    NoReputationScore,
    ZeroWeightVote,
    WeightOverflow,
    InsufficientLockedBalance,
    StillGuardian,
    NotGuardian,
    Locked,
    ContractPaused,
    EscrowUnavailable,
    TaskCancelled,
    TaskNotFound,
    BatchTooLarge,
    TaskAlreadyArchived,
    TaskNotStale,
    SnapshotNotFound,
    WithdrawalTimelockActive,
    TaskNotTerminal,
    WithdrawalNotFound,
    WithdrawalCancelled,
    WithdrawalAlreadyExecuted,
    TimeLockActive,
    /// An account that may not take the role it is given.
    InvalidAddress,
    /// A token amount or lock threshold outside the accepted range.
    InvalidAmount,
    /// A task id outside the accepted range.
    InvalidTaskId,
    /// A weight threshold outside the accepted range.
    InvalidThreshold,
    /// A reputation score outside the accepted range.
    InvalidReputation,
}

impl ContractError {
    /// The numeric code under which the host reports the error.
    pub open spec fn spec_code(self) -> u32 {
        match self {
            ContractError::NotAuthorized => 1,
            ContractError::DuplicateVote => 2,
            ContractError::TaskNotVerified => 3,
            ContractError::StreamAlreadyActive => 4,
            ContractError::DripsCallFailed => 5,
            ContractError::AlreadyInitialized => 6,
            ContractError::NotInitialized => 7,
            ContractError::NoReputationScore => 8,
            ContractError::ZeroWeightVote => 9,
            ContractError::WeightOverflow => 10,
            ContractError::InsufficientLockedBalance => 11,
            ContractError::StillGuardian => 12,
            ContractError::NotGuardian => 13,
            ContractError::Locked => 14,
            ContractError::ContractPaused => 15,
            ContractError::EscrowUnavailable => 16,
            ContractError::TaskCancelled => 17,
            ContractError::TaskNotFound => 18,
            ContractError::BatchTooLarge => 19,
            ContractError::TaskAlreadyArchived => 20,
            ContractError::TaskNotStale => 21,
            ContractError::SnapshotNotFound => 22,
            ContractError::WithdrawalTimelockActive => 23,
            ContractError::TaskNotTerminal => 24,
            ContractError::WithdrawalNotFound => 25,
            ContractError::WithdrawalCancelled => 26,
            ContractError::WithdrawalAlreadyExecuted => 27,
            ContractError::TimeLockActive => 28,
            ContractError::InvalidAddress => 29,
            ContractError::InvalidAmount => 30,
            ContractError::InvalidTaskId => 31,
            ContractError::InvalidThreshold => 32,
            ContractError::InvalidReputation => 33,
        }
    }

    pub fn code(&self) -> (c: u32)
        ensures
            c == self.spec_code(),
    {
        match self {
            ContractError::NotAuthorized => 1,
            ContractError::DuplicateVote => 2,
            ContractError::TaskNotVerified => 3,
            ContractError::StreamAlreadyActive => 4,
            ContractError::DripsCallFailed => 5,
            ContractError::AlreadyInitialized => 6,
            ContractError::NotInitialized => 7,
            ContractError::NoReputationScore => 8,
            ContractError::ZeroWeightVote => 9,
            ContractError::WeightOverflow => 10,
            ContractError::InsufficientLockedBalance => 11,
            ContractError::StillGuardian => 12,
            ContractError::NotGuardian => 13,
            ContractError::Locked => 14,
            ContractError::ContractPaused => 15,
            ContractError::EscrowUnavailable => 16,
            ContractError::TaskCancelled => 17,
            ContractError::TaskNotFound => 18,
            ContractError::BatchTooLarge => 19,
            ContractError::TaskAlreadyArchived => 20,
            ContractError::TaskNotStale => 21,
            ContractError::SnapshotNotFound => 22,
            ContractError::WithdrawalTimelockActive => 23,
            ContractError::TaskNotTerminal => 24,
            ContractError::WithdrawalNotFound => 25,
            ContractError::WithdrawalCancelled => 26,
            ContractError::WithdrawalAlreadyExecuted => 27,
            ContractError::TimeLockActive => 28,
            ContractError::InvalidAddress => 29,
            ContractError::InvalidAmount => 30,
            ContractError::InvalidTaskId => 31,
            ContractError::InvalidThreshold => 32,
            ContractError::InvalidReputation => 33,
        }
    }
}

/// Outside work that an entry point asks the host to perform once its state
/// change is accepted. Failure of any of them aborts the whole invocation.
#[derive(Clone, Copy, Debug, PartialEq, Eq)]
pub enum Effect {
    /// Move `amount` of `token` from `from` into the contract's own account.
    TransferIn { token: AccountId, from: AccountId, amount: i128 },
    /// Move `amount` of `token` from the contract's own account to `to`.
    TransferOut { token: AccountId, to: AccountId, amount: i128 },
    /// Ask the escrow vault to release the funds held for a resolved task.
    ReleaseFunds { vault: AccountId, task_id: u64 },
    /// Ask the streaming contract `drips` to open a reward stream for the
    /// contributor of a task.
    StartStream { drips: AccountId, contributor: AccountId, task_id: u64 },
    /// Replace the contract's code by the code with the given hash.
    UpdateWasm { wasm_hash: [u8; 32] },
    /// Publish an event.
    Emit(Event),
}

/// Events the contract publishes.
#[derive(Clone, Copy, Debug, PartialEq, Eq, Structural)]
pub enum Event {
    /// A task resolved with this much accrued weight.
    TaskResolved { task_id: u64, total_weight: u64 },
    /// A guardian's vote of this weight was counted.
    WeightedVote { task_id: u64, guardian: AccountId, weight: u64 },
    RewardStreamStarted { task_id: u64, contributor: AccountId },
    SnapshotRecorded { timestamp: u64 },
    WithdrawalRequested { id: u64, recipient: AccountId, amount: i128 },
    WithdrawalExecuted { id: u64, recipient: AccountId, amount: i128 },
    WithdrawalCancelled { id: u64 },
}

/// One call of a batch, with the arguments of the entry point it names.
#[derive(Clone, Copy, Debug, PartialEq, Eq, Structural)]
pub enum BatchCall {
    RegisterTask(AccountId, u64),
    CancelTask(AccountId, u64),
    Vote(AccountId, u64),
    AddGuardian(AccountId, AccountId),
    RemoveGuardian(AccountId, AccountId),
    SetReputation(AccountId, AccountId, u64),
    LockTokens(AccountId, i128),
    RequestUnlock(AccountId),
    UnlockTokens(AccountId),
    ResignGuardian(AccountId),
    SetWeightThreshold(AccountId, u64),
    SetVaultAddress(AccountId, AccountId),
    StartRewardStream(AccountId, AccountId, AccountId, u64),
    TogglePause(AccountId),
    Pause(AccountId),
    Unpause(AccountId),
    RecordFailure(AccountId),
    ResetCircuitBreaker(AccountId),
}

/// A copy of the contract state at one instant.
#[derive(Clone, Debug)]
pub struct Snapshot {
    pub timestamp: u64,
    pub paused: bool,
    pub failure_count: u32,
    pub weight_threshold: u64,
    pub admin: Option<AccountId>,
    pub vault_address: Option<AccountId>,
    pub drips_address: Option<AccountId>,
    pub guardians: HashMap<AccountId, bool>,
    pub reputations: HashMap<AccountId, u64>,
    pub tasks: HashMap<u64, Task>,
    /// The guardians that voted on each task, in voting order.
    pub votes: HashMap<u64, Vec<AccountId>>,
    pub reward_streams: HashMap<u64, RewardStream>,
}

/// The mathematical content of a [`Snapshot`].
pub struct SnapshotView {
    pub timestamp: u64,
    pub paused: bool,
    pub failure_count: u32,
    pub weight_threshold: u64,
    pub admin: Option<AccountId>,
    pub vault_address: Option<AccountId>,
    pub drips_address: Option<AccountId>,
    pub guardians: Map<AccountId, bool>,
    pub reputations: Map<AccountId, u64>,
    pub tasks: Map<u64, Task>,
    pub votes: Map<u64, Seq<AccountId>>,
    pub reward_streams: Map<u64, RewardStream>,
}

/// The voter lists of a map of vectors, as sequences.
pub open spec fn voter_lists(m: Map<u64, Vec<AccountId>>) -> Map<u64, Seq<AccountId>> {
    m.map_values(|v: Vec<AccountId>| v@)
}

impl View for Snapshot {
    type V = SnapshotView;

    open spec fn view(&self) -> SnapshotView {
        SnapshotView {
            timestamp: self.timestamp,
            paused: self.paused,
            failure_count: self.failure_count,
            weight_threshold: self.weight_threshold,
            admin: self.admin,
            vault_address: self.vault_address,
            drips_address: self.drips_address,
            guardians: self.guardians@,
            reputations: self.reputations@,
            tasks: self.tasks@,
            votes: voter_lists(self.votes@),
            reward_streams: self.reward_streams@,
        }
    }
}

/// Storage keys under which the contract keeps its state in the host.
#[derive(Clone, Copy, Debug, PartialEq, Eq, Structural)]
pub enum DataKey {
    Guardian(AccountId),
    Reputation(AccountId),
    WeightThreshold,
    Task(u64),
    Voted(u64, AccountId),
    TaskVoters(u64),
    Admin,
    DripsAddress,
    VaultAddress,
    RewardStream(u64),
    TokenAddress,
    LockThreshold,
    LockedBalance(AccountId),
    Lock,
    FailureCount,
    Paused,
    AllGuardians,
    AllTasks,
    AllVotes,
    AllRewardStreams,
    Snapshot(u64),
    AllSnapshots,
    ActiveTask(u64),
    ArchivedTask(u64),
    Initialized,
    WithdrawalTimelock(AccountId),
    WithdrawalCounter,
    WithdrawalRequest(u64),
}

} // verus!
