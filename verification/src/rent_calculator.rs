//! Rent states of an account, and which changes of rent state a transaction may cause.
use vstd::prelude::*;

verus! {

/// Rent state of an account.
#[derive(Clone, Copy, Debug, PartialEq, Eq, Structural)]
pub enum RentState {
    /// The account holds no lamports.
    Uninitialized,
    /// The account holds lamports, but fewer than its minimum balance.
    RentPaying {
        /// Lamports that the account holds.
        lamports: u64,
        /// Length of the account's data.
        data_size: usize,
    },
    /// The account holds its minimum balance or more.
    RentExempt,
}

/// Why a transaction is refused.
#[derive(Clone, Copy, Debug, PartialEq, Eq, Structural)]
pub enum TransactionError {
    /// The transaction leaves an account with insufficient funds for rent.
    InsufficientFundsForRent {
        /// Index of the account in the transaction.
        account_index: u8,
    },
}

/// The rent state of an account with this balance, data length and minimum balance.
pub open spec fn account_rent_state(
    lamports: u64,
    data_size: usize,
    min_balance: int,
) -> RentState {
    if lamports == 0 {
        RentState::Uninitialized
    } else if lamports < min_balance {
        RentState::RentPaying { lamports, data_size }
    } else {
        RentState::RentExempt
    }
}

/// Determines the rent state of an account.
pub fn get_account_rent_state(lamports: u64, data_size: usize, min_balance: u64) -> (state:
    RentState)
    ensures
        state == account_rent_state(lamports, data_size, min_balance as int),
{
    if lamports == 0 {
        RentState::Uninitialized
    } else if lamports >= min_balance {
        RentState::RentExempt
    } else {
        RentState::RentPaying { lamports, data_size }
    }
}

/// Whether an account may go from rent state `pre` to rent state `post`.
///
/// An account may always become empty or exempt. It may end up below its minimum balance
/// only if it already was below it, has kept its size and was not credited.
pub open spec fn is_transition_allowed(pre: RentState, post: RentState) -> bool {
    match post {
        RentState::Uninitialized | RentState::RentExempt => true,
        RentState::RentPaying { lamports, data_size } => {
            &&& pre matches RentState::RentPaying {
                lamports: pre_lamports,
                data_size: pre_data_size,
            }
            &&& data_size == pre_data_size
            &&& lamports <= pre_lamports
        },
    }
}

/// Tells whether an account may go from one rent state to another.
pub fn transition_allowed(pre_rent_state: &RentState, post_rent_state: &RentState) -> (allowed:
    bool)
    ensures
        allowed == is_transition_allowed(*pre_rent_state, *post_rent_state),
{
    match *post_rent_state {
        RentState::Uninitialized | RentState::RentExempt => true,
        RentState::RentPaying { lamports: post_lamports, data_size: post_data_size } => {
            match *pre_rent_state {
                RentState::Uninitialized | RentState::RentExempt => false,
                RentState::RentPaying { lamports: pre_lamports, data_size: pre_data_size } => {
                    post_data_size == pre_data_size && post_lamports <= pre_lamports
                },
            }
        },
    }
}

/// The address `1nc1nerator11111111111111111111111111111111`, whose lamports are burned.
pub open spec fn incinerator_address() -> Seq<u8> {
    seq![
        0u8, 51u8, 144u8, 114u8, 141u8, 52u8, 17u8, 96u8, 121u8, 189u8, 201u8, 17u8, 191u8, 255u8,
        0u8, 219u8, 212u8, 77u8, 46u8, 205u8, 204u8, 247u8, 156u8, 166u8, 225u8, 0u8, 56u8, 225u8,
        0u8, 0u8, 0u8, 0u8,
    ]
}

/// Calls `solana_sdk_ids::incinerator::check_id` on the address with these bytes.
///
/// Trusted: the call returns `true` on the incinerator's address and `false` on any other.
#[verifier::external_body]
fn is_incinerator(address: &[u8; 32]) -> (found: bool)
    ensures
        found == (address@ == incinerator_address()),
{
    solana_sdk_ids::incinerator::check_id(&solana_pubkey::Pubkey::new_from_array(*address))
}

/// Whether the account at `address` may go from rent state `pre` to rent state `post`. The
/// incinerator is exempt from the rule.
pub open spec fn is_change_allowed(pre: RentState, post: RentState, address: Seq<u8>) -> bool {
    address == incinerator_address() || is_transition_allowed(pre, post)
}

/// The verdict on the change of rent state of one account. The error holds the low byte of
/// the account's index.
pub open spec fn rent_state_verdict(
    pre: RentState,
    post: RentState,
    address: Seq<u8>,
    account_index: int,
) -> Result<(), TransactionError> {
    if is_change_allowed(pre, post, address) {
        Ok(())
    } else {
        Err(
            TransactionError::InsufficientFundsForRent {
                account_index: (account_index % 256) as u8,
            },
        )
    }
}

/// Checks the change of rent state of one account of a transaction.
pub fn check_rent_state(
    pre_rent_state: &RentState,
    post_rent_state: &RentState,
    address: &[u8; 32],
    account_index: u16,
) -> (result: Result<(), TransactionError>)
    ensures
        result == rent_state_verdict(
            *pre_rent_state,
            *post_rent_state,
            address@,
            account_index as int,
        ),
{
    if !is_incinerator(address) && !transition_allowed(pre_rent_state, post_rent_state) {
        Err(
            TransactionError::InsufficientFundsForRent {
                account_index: (account_index % 256) as u8,
            },
        )
    } else {
        Ok(())
    }
}

} // verus!
