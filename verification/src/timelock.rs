//! The withdrawal time-lock: an account must wait 24 hours after asking to
//! withdraw its locked tokens.
use vstd::prelude::*;
use crate::types::{AccountId, ContractError};
use crate::contract::{VeroContract, ContractView};

verus! {

broadcast use vstd::std_specs::hash::group_hash_axioms;

/// 24 hours.
pub const WITHDRAWAL_DELAY_SECONDS: u64 = 86400;

/// Starts (or restarts) the time-lock of `guardian` at time `now`.
pub fn initiate_withdrawal(state: &mut VeroContract, guardian: AccountId, now: u64)
    ensures
        final(state)@ == (ContractView { timelocks: old(state)@.timelocks.insert(guardian, now), ..old(state)@ }),
{
    state.timelocks.insert(guardian, now);
}

/// Whether the time-lock of `guardian` has run out at time `now`: it must
/// have been started, and at least [`WITHDRAWAL_DELAY_SECONDS`] must have
/// passed since.
pub open spec fn timelock_outcome(v: ContractView, guardian: AccountId, now: u64) -> Result<(), ContractError> {
    match v.timelock(guardian) {
        Some(start) => if now < start + WITHDRAWAL_DELAY_SECONDS {
            Err(ContractError::WithdrawalTimelockActive)
        } else {
            Ok(())
        },
        None => Err(ContractError::WithdrawalTimelockActive),
    }
}

/// The end of the time-lock of `guardian` fits in a timestamp.
pub open spec fn timelock_end_fits(v: ContractView, guardian: AccountId) -> bool {
    v.timelock(guardian) matches Some(start) ==> start + WITHDRAWAL_DELAY_SECONDS <= u64::MAX
}

pub fn check_timelock_expired(state: &VeroContract, guardian: AccountId, now: u64) -> (r: Result<(), ContractError>)
    requires
        timelock_end_fits(state@, guardian),
    ensures
        r == timelock_outcome(state@, guardian, now),
{
    match state.timelocks.get(&guardian) {
        Some(start) => {
            if now < *start + WITHDRAWAL_DELAY_SECONDS {
                return Err(ContractError::WithdrawalTimelockActive);
            }
            Ok(())
        },
        None => Err(ContractError::WithdrawalTimelockActive),
    }
}

/// Removes the time-lock of `guardian`.
pub fn clear_timelock(state: &mut VeroContract, guardian: AccountId)
    ensures
        final(state)@ == (ContractView { timelocks: old(state)@.timelocks.remove(guardian), ..old(state)@ }),
{
    state.timelocks.remove(&guardian);
}

} // verus!
