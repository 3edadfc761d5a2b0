//! Task storage: active and archived tasks and their voter lists.
use vstd::prelude::*;
use crate::types::{AccountId, ContractError, DataKey, Task, voter_lists};
use crate::contract::{VeroContract, ContractView, applies};

verus! {

broadcast use vstd::std_specs::hash::group_hash_axioms;

/// A resolved task may be archived once this many seconds have passed
/// since it resolved.
pub const ARCHIVE_AFTER_SECONDS: u64 = 2592000;

pub fn active_task_key(task_id: u64) -> (k: DataKey)
    ensures
        k == DataKey::Task(task_id),
{
    DataKey::Task(task_id)
}

pub fn archived_task_key(task_id: u64) -> (k: DataKey)
    ensures
        k == DataKey::ArchivedTask(task_id),
{
    DataKey::ArchivedTask(task_id)
}

pub fn task_voters_key(task_id: u64) -> (k: DataKey)
    ensures
        k == DataKey::TaskVoters(task_id),
{
    DataKey::TaskVoters(task_id)
}

pub fn has_active_task(state: &VeroContract, task_id: u64) -> (b: bool)
    ensures
        b == state@.tasks.contains_key(task_id),
{
    state.tasks.contains_key(&task_id)
}

pub fn get_active_task(state: &VeroContract, task_id: u64) -> (t: Option<Task>)
    ensures
        t == state@.active_task(task_id),
{
    match state.tasks.get(&task_id) {
        Some(t) => Some(*t),
        None => None,
    }
}

/// Stores `task` as the active task under its own id.
pub fn set_active_task(state: &mut VeroContract, task: &Task)
    ensures
        final(state)@ == (ContractView { tasks: old(state)@.tasks.insert(task.id, *task), ..old(state)@ }),
{
    state.tasks.insert(task.id, *task);
}

pub fn get_archived_task(state: &VeroContract, task_id: u64) -> (t: Option<Task>)
    ensures
        t == state@.archived_task(task_id),
{
    match state.archived.get(&task_id) {
        Some(t) => Some(*t),
        None => None,
    }
}

/// What archiving `task_id` at time `now` does: a resolved task that has
/// been resolved for longer than [`ARCHIVE_AFTER_SECONDS`] moves from the
/// active tasks to the archived ones.
pub open spec fn archive_outcome(v: ContractView, task_id: u64, now: u64) -> Result<(ContractView, ()), ContractError> {
    if v.archived.contains_key(task_id) {
        Err(ContractError::TaskAlreadyArchived)
    } else if !v.tasks.contains_key(task_id) {
        Err(ContractError::TaskNotFound)
    } else if !v.tasks[task_id].is_done || v.tasks[task_id].resolved_at == 0 {
        Err(ContractError::TaskNotVerified)
    } else if now <= v.tasks[task_id].resolved_at + ARCHIVE_AFTER_SECONDS {
        Err(ContractError::TaskNotStale)
    } else {
        Ok((ContractView {
            archived: v.archived.insert(task_id, v.tasks[task_id]),
            tasks: v.tasks.remove(task_id),
            ..v
        }, ()))
    }
}

pub fn archive_task(state: &mut VeroContract, task_id: u64, now: u64) -> (r: Result<(), ContractError>)
    ensures
        applies(old(state)@, final(state)@, r, archive_outcome(old(state)@, task_id, now)),
{
    if get_archived_task(state, task_id).is_some() {
        return Err(ContractError::TaskAlreadyArchived);
    }
    let task = match get_active_task(state, task_id) {
        Some(t) => t,
        None => {
            return Err(ContractError::TaskNotFound);
        },
    };
    if !task.is_done || task.resolved_at == 0 {
        return Err(ContractError::TaskNotVerified);
    }
    let age = now.saturating_sub(task.resolved_at);
    if age <= ARCHIVE_AFTER_SECONDS {
        return Err(ContractError::TaskNotStale);
    }
    state.archived.insert(task_id, task);
    state.tasks.remove(&task_id);
    Ok(())
}

/// The voter list of a task, in voting order.
pub fn get_task_voters(state: &VeroContract, task_id: u64) -> (v: Vec<AccountId>)
    ensures
        v@ == state@.task_voters(task_id),
{
    match state.voters.get(&task_id) {
        Some(list) => {
            let mut out: Vec<AccountId> = Vec::new();
            let n = list.len();
            for i in 0..n
                invariant
                    n == list@.len(),
                    out@ == list@.subrange(0, i as int),
            {
                out.push(list[i]);
                assert(out@ =~= list@.subrange(0, i + 1));
            }
            assert(out@ =~= list@);
            out
        },
        None => Vec::new(),
    }
}

/// Appends `voter` to the voter list of a task.
pub fn append_task_voter(state: &mut VeroContract, task_id: u64, voter: AccountId)
    ensures
        final(state)@ == (ContractView {
            voters: old(state)@.voters.insert(task_id, old(state)@.task_voters(task_id).push(voter)),
            ..old(state)@
        }),
{
    let ghost old_map = state.voters@;
    let mut list = match state.voters.remove(&task_id) {
        Some(l) => l,
        None => Vec::new(),
    };
    list.push(voter);
    state.voters.insert(task_id, list);
    assert(voter_lists(state.voters@) =~= voter_lists(old_map).insert(task_id, old(state)@.task_voters(task_id).push(voter)));
}

/// Whether `account` is in the voter list of a task.
pub fn has_voted(state: &VeroContract, task_id: u64, account: AccountId) -> (b: bool)
    ensures
        b == state@.has_voted(task_id, account),
{
    match state.voters.get(&task_id) {
        Some(list) => {
            assert(state@.task_voters(task_id) == list@);
            let n = list.len();
            for i in 0..n
                invariant
                    n == list@.len(),
                    state@.task_voters(task_id) == list@,
                    forall|j: int| 0 <= j < i ==> list@[j] != account,
            {
                if list[i] == account {
                    assert(list@[i as int] == account);
                    return true;
                }
            }
            false
        },
        None => false,
    }
}

} // verus!
