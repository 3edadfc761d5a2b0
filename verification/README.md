# vero_core_contracts

Verified logic of the Vero core contract: weighted guardian consensus over
tasks, token locking with a 24-hour withdrawal time-lock, treasury payouts
behind a ledger time-lock, an emergency pause with a failure-count circuit
breaker, task archiving and purging, reward streams, state snapshots and
atomic batches of calls.

- `src/` is the library, verified with Verus. The contract state is the
  plain-value struct `contract::VeroContract`; every entry point is a method
  (or a function over it) whose contract is an exact transition function on
  the state's view (`ContractView`). Outside work that the host must do
  (token transfers, vault and streaming calls, code upgrades, events) is
  returned as `types::Effect` values. Input ranges live in `validation`. `consensus` holds the per-task voting state
  machine, and `guarantees` the properties that span several calls.
- `app/` is the Soroban contract around it: it loads the state from instance
  storage, maps host addresses to integer handles, calls the library, then
  performs the returned effects and stores the new state.
- `tests/` runs the library on concrete scenarios.
