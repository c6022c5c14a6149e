# account_state_info

Rent checks around the execution of a transaction, verified with Verus.

`new_pre_exec` records the state of every account that a message may write before the
transaction is executed, and `new_post_exec` does so afterwards. `verify_changes` refuses the
transaction with `InsufficientFundsForRent` if it leaves an account with lamports but fewer than
are required of it: the minimum balance for its size or, if the account held lamports before and
has not grown, the balance that it had. `get_uninitialized_accounts_size` adds up the sizes of the
accounts that were left without lamports.

- `src/transaction_account_state_info.rs`: the records and the check, on plain values
- `src/runtime.rs`: the same for a live `TransactionContext` and `SanitizedMessage`
- `src/rent.rs`, `src/rent_calculator.rs`: minimum balance and rent states
- `src/laws.rs`: what holds of every transaction
- `app/`: the same entry points for any message type, with the runtime's own error type
