//! Treasury withdrawals: the admin requests a payout, which can only be
//! executed once a time-lock of about 24 hours of ledgers has passed, and
//! which the admin can cancel until then.
use vstd::prelude::*;
use crate::types::{AccountId, ContractError, Effect, Event, WithdrawalRequest};
use crate::contract::{VeroContract, ContractView, applies, effects_view, admin_check};

verus! {

broadcast use vstd::std_specs::hash::group_hash_axioms;

/// About 24 hours at 5 seconds per ledger.
pub const TIME_LOCK_LEDGERS: u32 = 17_280;

/// The number and outside work of a request, as a sequence.
pub open spec fn request_view(r: Result<(u64, Vec<Effect>), ContractError>) -> Result<(u64, Seq<Effect>), ContractError> {
    match r {
        Ok((id, effects)) => Ok((id, effects@)),
        Err(e) => Err(e),
    }
}

/// A new request, numbered one past the last, paying `amount` to
/// `recipient`, timed from ledger `ledger_seq`.
pub open spec fn request_withdrawal_outcome(
    v: ContractView,
    admin: AccountId,
    recipient: AccountId,
    amount: i128,
    ledger_seq: u32,
) -> Result<(ContractView, (u64, Seq<Effect>)), ContractError> {
    match admin_check(v, admin) {
        Err(e) => Err(e),
        Ok(_) => {
            let id = (v.withdrawal_counter + 1) as u64;
            let request = WithdrawalRequest {
                id,
                recipient,
                amount,
                requested_at_ledger: ledger_seq,
                is_executed: false,
                is_cancelled: false,
            };
            Ok((
                ContractView {
                    withdrawal_counter: id,
                    withdrawals: v.withdrawals.insert(id, request),
                    ..v
                },
                (id, seq![Effect::Emit(Event::WithdrawalRequested { id, recipient, amount })]),
            ))
        },
    }
}

pub fn request_withdrawal(
    state: &mut VeroContract,
    admin: AccountId,
    recipient: AccountId,
    amount: i128,
    ledger_seq: u32,
) -> (r: Result<(u64, Vec<Effect>), ContractError>)
    requires
        admin_check(old(state)@, admin) is Ok ==> old(state)@.withdrawal_counter < u64::MAX,
    ensures
        applies(old(state)@, final(state)@, request_view(r), request_withdrawal_outcome(old(state)@, admin, recipient, amount, ledger_seq)),
{
    let stored_admin = match state.admin {
        Some(a) => a,
        None => {
            return Err(ContractError::NotInitialized);
        },
    };
    if admin != stored_admin {
        return Err(ContractError::NotAuthorized);
    }
    let id = state.withdrawal_counter + 1;
    state.withdrawal_counter = id;
    let request = WithdrawalRequest {
        id,
        recipient,
        amount,
        requested_at_ledger: ledger_seq,
        is_executed: false,
        is_cancelled: false,
    };
    state.withdrawals.insert(id, request);
    let mut effects: Vec<Effect> = Vec::new();
    effects.push(Effect::Emit(Event::WithdrawalRequested { id, recipient, amount }));
    Ok((id, effects))
}

/// The first ledger at which a request made at `requested_at` may be paid.
pub open spec fn unlock_ledger(requested_at: u32) -> int {
    if requested_at + TIME_LOCK_LEDGERS > u32::MAX {
        u32::MAX as int
    } else {
        requested_at + TIME_LOCK_LEDGERS
    }
}

/// Executing a pending request whose time-lock has passed pays its amount
/// out of the contract and marks it executed.
pub open spec fn execute_withdrawal_outcome(v: ContractView, request_id: u64, ledger_seq: u32) -> Result<(ContractView, Seq<Effect>), ContractError> {
    if !v.withdrawals.contains_key(request_id) {
        Err(ContractError::WithdrawalNotFound)
    } else {
        let request = v.withdrawals[request_id];
        if request.is_cancelled {
            Err(ContractError::WithdrawalCancelled)
        } else if request.is_executed {
            Err(ContractError::WithdrawalAlreadyExecuted)
        } else if ledger_seq < unlock_ledger(request.requested_at_ledger) {
            Err(ContractError::TimeLockActive)
        } else {
            match v.token {
                None => Err(ContractError::NotInitialized),
                Some(token) => Ok((
                    ContractView {
                        withdrawals: v.withdrawals.insert(request_id, WithdrawalRequest { is_executed: true, ..request }),
                        ..v
                    },
                    seq![
                        Effect::TransferOut { token, to: request.recipient, amount: request.amount },
                        Effect::Emit(Event::WithdrawalExecuted { id: request_id, recipient: request.recipient, amount: request.amount }),
                    ],
                )),
            }
        }
    }
}

pub fn execute_withdrawal(state: &mut VeroContract, request_id: u64, ledger_seq: u32) -> (r: Result<Vec<Effect>, ContractError>)
    ensures
        applies(old(state)@, final(state)@, effects_view(r), execute_withdrawal_outcome(old(state)@, request_id, ledger_seq)),
{
    let mut request = match state.withdrawals.get(&request_id) {
        Some(req) => *req,
        None => {
            return Err(ContractError::WithdrawalNotFound);
        },
    };
    if request.is_cancelled {
        return Err(ContractError::WithdrawalCancelled);
    }
    if request.is_executed {
        return Err(ContractError::WithdrawalAlreadyExecuted);
    }
    if ledger_seq < request.requested_at_ledger.saturating_add(TIME_LOCK_LEDGERS) {
        return Err(ContractError::TimeLockActive);
    }
    let token = match state.token {
        Some(t) => t,
        None => {
            return Err(ContractError::NotInitialized);
        },
    };
    let mut effects: Vec<Effect> = Vec::new();
    effects.push(Effect::TransferOut { token, to: request.recipient, amount: request.amount });
    effects.push(Effect::Emit(Event::WithdrawalExecuted { id: request_id, recipient: request.recipient, amount: request.amount }));
    assert(effects@ =~= execute_withdrawal_outcome(old(state)@, request_id, ledger_seq)->Ok_0.1);
    request.is_executed = true;
    state.withdrawals.insert(request_id, request);
    Ok(effects)
}

/// Cancelling a pending request marks it cancelled.
pub open spec fn cancel_withdrawal_outcome(v: ContractView, admin: AccountId, request_id: u64) -> Result<(ContractView, Seq<Effect>), ContractError> {
    match admin_check(v, admin) {
        Err(e) => Err(e),
        Ok(_) => if !v.withdrawals.contains_key(request_id) {
            Err(ContractError::WithdrawalNotFound)
        } else {
            let request = v.withdrawals[request_id];
            if request.is_executed {
                Err(ContractError::WithdrawalAlreadyExecuted)
            } else if request.is_cancelled {
                Err(ContractError::WithdrawalCancelled)
            } else {
                Ok((
                    ContractView {
                        withdrawals: v.withdrawals.insert(request_id, WithdrawalRequest { is_cancelled: true, ..request }),
                        ..v
                    },
                    seq![Effect::Emit(Event::WithdrawalCancelled { id: request_id })],
                ))
            }
        },
    }
}

pub fn cancel_withdrawal(state: &mut VeroContract, admin: AccountId, request_id: u64) -> (r: Result<Vec<Effect>, ContractError>)
    ensures
        applies(old(state)@, final(state)@, effects_view(r), cancel_withdrawal_outcome(old(state)@, admin, request_id)),
{
    let stored_admin = match state.admin {
        Some(a) => a,
        None => {
            return Err(ContractError::NotInitialized);
        },
    };
    if admin != stored_admin {
        return Err(ContractError::NotAuthorized);
    }
    let mut request = match state.withdrawals.get(&request_id) {
        Some(req) => *req,
        None => {
            return Err(ContractError::WithdrawalNotFound);
        },
    };
    if request.is_executed {
        return Err(ContractError::WithdrawalAlreadyExecuted);
    }
    if request.is_cancelled {
        return Err(ContractError::WithdrawalCancelled);
    }
    request.is_cancelled = true;
    state.withdrawals.insert(request_id, request);
    let mut effects: Vec<Effect> = Vec::new();
    effects.push(Effect::Emit(Event::WithdrawalCancelled { id: request_id }));
    Ok(effects)
}

pub fn get_withdrawal_request(state: &VeroContract, request_id: u64) -> (r: Option<WithdrawalRequest>)
    ensures
        r == (if state@.withdrawals.contains_key(request_id) {
            Some(state@.withdrawals[request_id])
        } else {
            None
        }),
{
    match state.withdrawals.get(&request_id) {
        Some(req) => Some(*req),
        None => None,
    }
}

/// A request is paid at most once: after an execution, executing it again
/// is refused and changes nothing.
pub proof fn lemma_withdrawal_paid_once(v: ContractView, request_id: u64, ledger_seq: u32, later_seq: u32)
    requires
        execute_withdrawal_outcome(v, request_id, ledger_seq) is Ok,
    ensures
        execute_withdrawal_outcome(
            execute_withdrawal_outcome(v, request_id, ledger_seq)->Ok_0.0,
            request_id,
            later_seq,
        ) == Err::<(ContractView, Seq<Effect>), ContractError>(ContractError::WithdrawalAlreadyExecuted),
{
}

/// A cancelled request can never be executed.
pub proof fn lemma_cancelled_withdrawal_never_paid(v: ContractView, admin: AccountId, request_id: u64, ledger_seq: u32)
    requires
        cancel_withdrawal_outcome(v, admin, request_id) is Ok,
    ensures
        execute_withdrawal_outcome(
            cancel_withdrawal_outcome(v, admin, request_id)->Ok_0.0,
            request_id,
            ledger_seq,
        ) == Err::<(ContractView, Seq<Effect>), ContractError>(ContractError::WithdrawalCancelled),
{
}

/// No request is paid before its time-lock has passed.
pub proof fn lemma_withdrawal_waits_for_timelock(v: ContractView, request_id: u64, ledger_seq: u32)
    requires
        execute_withdrawal_outcome(v, request_id, ledger_seq) is Ok,
    ensures
        ledger_seq >= unlock_ledger(v.withdrawals[request_id].requested_at_ledger),
        !v.withdrawals[request_id].is_executed,
        !v.withdrawals[request_id].is_cancelled,
{
}

} // verus!
