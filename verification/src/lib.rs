//! Rent checks around the execution of a transaction.
//!
//! Before a transaction is executed the state of each account that it may write is recorded,
//! and again afterwards. The transaction is refused if it leaves an account with lamports but
//! fewer than are required of it.
//!
//! - [`transaction_account_state_info`] holds the records and the check on plain values.
//! - [`runtime`] makes the records of a live transaction context and message.
//! - [`rent`] and [`rent_calculator`] hold the minimum balance and the rent states.
//! - [`laws`] states what holds of every transaction, and [`rent_laws`], [`record_laws`] and
//!   [`change_laws`] tell in figures and by position what each step makes of its input.
pub mod change_laws;
pub mod laws;
pub mod record_laws;
pub mod rent;
pub mod rent_calculator;
pub mod rent_laws;
pub mod runtime;
pub mod transaction_account_state_info;
