//! Registering, cancelling and purging tasks.
use vstd::prelude::*;
use crate::types::{AccountId, ContractError, Task, voter_lists};
use crate::validation::{valid_task_id, is_valid_task_id};
use crate::contract::{VeroContract, ContractView, applies, admin_check};

verus! {

broadcast use vstd::std_specs::hash::group_hash_axioms;

/// The most task ids one call may register.
pub const MAX_REGISTER_TASK_BATCH_SIZE: usize = 32;

/// `tasks` with a fresh task added for every id of `ids` that has none;
/// tasks already present are kept as they are.
pub open spec fn registered(tasks: Map<u64, Task>, ids: Seq<u64>) -> Map<u64, Task> {
    Map::new(
        |k: u64| tasks.contains_key(k) || ids.contains(k),
        |k: u64| if tasks.contains_key(k) { tasks[k] } else { Task::fresh(k) },
    )
}

pub open spec fn register_tasks_outcome(v: ContractView, admin: AccountId, ids: Seq<u64>) -> Result<(ContractView, ()), ContractError> {
    match admin_check(v, admin) {
        Err(e) => Err(e),
        Ok(_) => if ids.len() > MAX_REGISTER_TASK_BATCH_SIZE {
            Err(ContractError::BatchTooLarge)
        } else if exists|i: int| 0 <= i < ids.len() && !valid_task_id(#[trigger] ids[i]) {
            Err(ContractError::InvalidTaskId)
        } else {
            Ok((ContractView { tasks: registered(v.tasks, ids), ..v }, ()))
        },
    }
}

/// Registers a batch of at most [`MAX_REGISTER_TASK_BATCH_SIZE`] tasks, all
/// with ids in the accepted range; the caller must be the admin. An id that
/// already has an active task keeps it.
pub fn register_tasks(state: &mut VeroContract, admin: AccountId, task_ids: &Vec<u64>) -> (r: Result<(), ContractError>)
    ensures
        applies(old(state)@, final(state)@, r, register_tasks_outcome(old(state)@, admin, task_ids@)),
{
    let stored_admin = match state.admin {
        Some(a) => a,
        None => {
            return Err(ContractError::NotInitialized);
        },
    };
    if admin != stored_admin {
        return Err(ContractError::NotAuthorized);
    }
    if task_ids.len() > MAX_REGISTER_TASK_BATCH_SIZE {
        return Err(ContractError::BatchTooLarge);
    }
    let count = task_ids.len();
    for j in 0..count
        invariant
            count == task_ids@.len(),
            state@ == old(state)@,
            admin_check(old(state)@, admin) is Ok,
            count <= MAX_REGISTER_TASK_BATCH_SIZE,
            forall|i: int| 0 <= i < j ==> valid_task_id(#[trigger] task_ids@[i]),
    {
        if !is_valid_task_id(task_ids[j]) {
            assert(!valid_task_id(task_ids@[j as int]));
            return Err(ContractError::InvalidTaskId);
        }
    }
    let ghost start = state@;
    assert(registered(start.tasks, task_ids@.take(0)) =~= start.tasks);
    let n = task_ids.len();
    for i in 0..n
        invariant
            n == task_ids@.len(),
            state@ == (ContractView { tasks: registered(start.tasks, task_ids@.take(i as int)), ..start }),
    {
        let id = task_ids[i];
        let ghost before = state.tasks@;
        if !state.tasks.contains_key(&id) {
            state.tasks.insert(id, Task::new(id));
        }
        proof {
            let pre = task_ids@.take(i as int);
            let post = task_ids@.take(i + 1);
            assert(post =~= pre.push(id));
            assert forall|k: u64| #[trigger] post.contains(k) <==> (pre.contains(k) || k == id) by {
                if post.contains(k) {
                    let j = choose|j: int| 0 <= j < post.len() && #[trigger] post[j] == k;
                    if j < i {
                        assert(pre[j] == k);
                    }
                }
                if pre.contains(k) {
                    let j = choose|j: int| 0 <= j < pre.len() && #[trigger] pre[j] == k;
                    assert(post[j] == k);
                }
                if k == id {
                    assert(post[i as int] == k);
                }
            }
            assert(state.tasks@ =~= registered(start.tasks, post));
        }
    }
    assert(task_ids@.take(n as int) =~= task_ids@);
    Ok(())
}

pub open spec fn cancel_task_outcome(v: ContractView, admin: AccountId, task_id: u64) -> Result<(ContractView, ()), ContractError> {
    match admin_check(v, admin) {
        Err(e) => Err(e),
        Ok(_) => if !v.tasks.contains_key(task_id) {
            Err(ContractError::TaskNotFound)
        } else {
            Ok((ContractView { tasks: v.tasks.insert(task_id, Task { is_cancelled: true, ..v.tasks[task_id] }), ..v }, ()))
        },
    }
}

/// Marks an active task cancelled; the caller must be the admin.
pub fn cancel_task(state: &mut VeroContract, admin: AccountId, task_id: u64) -> (r: Result<(), ContractError>)
    ensures
        applies(old(state)@, final(state)@, r, cancel_task_outcome(old(state)@, admin, task_id)),
{
    let stored_admin = match state.admin {
        Some(a) => a,
        None => {
            return Err(ContractError::NotInitialized);
        },
    };
    if admin != stored_admin {
        return Err(ContractError::NotAuthorized);
    }
    let mut t = match state.tasks.get(&task_id) {
        Some(t) => *t,
        None => {
            return Err(ContractError::TaskNotFound);
        },
    };
    t.is_cancelled = true;
    state.tasks.insert(task_id, t);
    Ok(())
}

/// Purging removes a terminal task (resolved or cancelled, active or
/// archived) together with its voter records.
pub open spec fn purge_task_outcome(v: ContractView, admin: AccountId, task_id: u64) -> Result<(ContractView, ()), ContractError> {
    match admin_check(v, admin) {
        Err(e) => Err(e),
        Ok(_) => if !v.tasks.contains_key(task_id) && !v.archived.contains_key(task_id) {
            Err(ContractError::TaskNotFound)
        } else if v.tasks.contains_key(task_id) && !v.tasks[task_id].spec_is_terminal() {
            Err(ContractError::TaskNotTerminal)
        } else {
            Ok((
                ContractView {
                    tasks: v.tasks.remove(task_id),
                    archived: v.archived.remove(task_id),
                    voters: v.voters.remove(task_id),
                    ..v
                },
                (),
            ))
        },
    }
}

pub fn purge_task(state: &mut VeroContract, admin: AccountId, task_id: u64) -> (r: Result<(), ContractError>)
    ensures
        applies(old(state)@, final(state)@, r, purge_task_outcome(old(state)@, admin, task_id)),
{
    let stored_admin = match state.admin {
        Some(a) => a,
        None => {
            return Err(ContractError::NotInitialized);
        },
    };
    if admin != stored_admin {
        return Err(ContractError::NotAuthorized);
    }
    let active = match state.tasks.get(&task_id) {
        Some(t) => Some(*t),
        None => None,
    };
    let is_archived = state.archived.contains_key(&task_id);
    match active {
        None => {
            if !is_archived {
                return Err(ContractError::TaskNotFound);
            }
        },
        Some(t) => {
            if !t.is_done && !t.is_cancelled {
                return Err(ContractError::TaskNotTerminal);
            }
        },
    }
    let ghost before = state.voters@;
    state.tasks.remove(&task_id);
    state.archived.remove(&task_id);
    state.voters.remove(&task_id);
    assert(voter_lists(state.voters@) =~= voter_lists(before).remove(task_id));
    Ok(())
}

} // verus!
