//! What holds of minimum balances, rent states and their changes, in figures.
use crate::rent::{
    scaled_minimum_balance, storage_charge, threshold_one, threshold_two, Rent,
};
use crate::rent_calculator::{
    account_rent_state, incinerator_address, is_change_allowed, is_transition_allowed,
    rent_state_verdict, RentState, TransactionError,
};
use vstd::prelude::*;

verus! {

/// The rate is charged for each byte of an account's data and for 128 bytes more.
pub proof fn law_charge_is_rate_times_stored_bytes(lamports_per_byte: u64, data_len: usize)
    ensures
        storage_charge(lamports_per_byte, data_len) == (128 + data_len) * lamports_per_byte,
{
}

/// The thresholds one and two are the numbers one and two as IEEE 754 doubles, lowest byte
/// first: they differ from each other in the two highest bytes, and all others are zero.
pub proof fn law_thresholds_are_doubles()
    ensures
        threshold_one() == seq![0u8, 0u8, 0u8, 0u8, 0u8, 0u8, 0xf0u8, 0x3fu8],
        threshold_two() == seq![0u8, 0u8, 0u8, 0u8, 0u8, 0u8, 0x00u8, 0x40u8],
        threshold_one() != threshold_two(),
{
    assert(threshold_one()[6] != threshold_two()[6]);
}

/// At threshold one an account has to hold the rate for each byte of its data and for 128
/// bytes more, and at threshold two twice that. At any other threshold the minimum balance is
/// what the scaling in floating point makes of it.
pub proof fn law_minimum_balance_in_figures(rent: Rent, data_len: usize)
    ensures
        rent.exemption_threshold@ == seq![0u8, 0u8, 0u8, 0u8, 0u8, 0u8, 0xf0u8, 0x3fu8]
            ==> rent.minimum_balance_spec(data_len) == (128 + data_len) * rent.lamports_per_byte,
        rent.exemption_threshold@ == seq![0u8, 0u8, 0u8, 0u8, 0u8, 0u8, 0x00u8, 0x40u8]
            ==> rent.minimum_balance_spec(data_len) == 2 * ((128 + data_len)
            * rent.lamports_per_byte),
        rent.exemption_threshold@ != seq![0u8, 0u8, 0u8, 0u8, 0u8, 0u8, 0xf0u8, 0x3fu8]
            && rent.exemption_threshold@ != seq![0u8, 0u8, 0u8, 0u8, 0u8, 0u8, 0x00u8, 0x40u8]
            ==> rent.minimum_balance_spec(data_len) == scaled_minimum_balance(
            rent.lamports_per_byte,
            rent.exemption_threshold@,
            data_len,
        ),
{
    law_thresholds_are_doubles();
}

/// A minimum balance is defined for data of at most 10 MiB, which are charged as 10485888
/// bytes. The rate is bounded by what keeps
/// the balance of an account of that size in 64 bits at thresholds one and two, and at any
/// other threshold the charge for the account itself has to fit.
pub proof fn law_coverage_in_figures(rent: Rent, data_len: usize)
    ensures
        rent.covers(data_len) <==> {
            &&& data_len <= 10_485_760
            &&& rent.exemption_threshold@ == seq![0u8, 0u8, 0u8, 0u8, 0u8, 0u8, 0xf0u8, 0x3fu8]
                ==> 10_485_888 * rent.lamports_per_byte <= 0xffff_ffff_ffff_ffff
            &&& rent.exemption_threshold@ == seq![0u8, 0u8, 0u8, 0u8, 0u8, 0u8, 0x00u8, 0x40u8]
                ==> 20_971_776 * rent.lamports_per_byte <= 0xffff_ffff_ffff_ffff
            &&& rent.exemption_threshold@ != seq![0u8, 0u8, 0u8, 0u8, 0u8, 0u8, 0xf0u8, 0x3fu8]
                && rent.exemption_threshold@ != seq![
                0u8,
                0u8,
                0u8,
                0u8,
                0u8,
                0u8,
                0x00u8,
                0x40u8,
            ] ==> (128 + data_len) * rent.lamports_per_byte <= 0xffff_ffff_ffff_ffff
        },
{
    law_thresholds_are_doubles();
}

/// Where a minimum balance is defined at threshold one or two, it fits in 64 bits.
pub proof fn law_covered_minimum_balance_fits(rent: Rent, data_len: usize)
    requires
        rent.covers(data_len),
    ensures
        0 <= rent.minimum_balance_spec(data_len) <= 0xffff_ffff_ffff_ffff,
{
    let rate = rent.lamports_per_byte as int;
    let bytes = 128 + data_len as int;
    assert(0 <= bytes * rate <= 10_485_888 * rate) by (nonlinear_arith)
        requires
            0 <= bytes <= 10_485_888,
            0 <= rate,
    ;
}

/// An account is uninitialized exactly if it holds no lamports, exempt exactly if it holds
/// lamports and no fewer than its minimum balance, and otherwise pays rent, which is recorded
/// with its lamports and its size. Its size has no other bearing.
pub proof fn law_rent_state_by_balance(lamports: u64, data_size: usize, min_balance: int)
    ensures
        account_rent_state(lamports, data_size, min_balance) is Uninitialized <==> lamports == 0,
        account_rent_state(lamports, data_size, min_balance) is RentExempt <==> lamports > 0
            && lamports >= min_balance,
        account_rent_state(lamports, data_size, min_balance) is RentPaying <==> 0 < lamports
            < min_balance,
        account_rent_state(lamports, data_size, min_balance) matches RentState::RentPaying {
            lamports: paying_lamports,
            data_size: paying_size,
        } ==> paying_lamports == lamports && paying_size == data_size,
{
}

/// An account may always become uninitialized or exempt, and never comes to pay rent from
/// being uninitialized or exempt.
pub proof fn law_nothing_but_paying_leads_to_paying(pre: RentState, post: RentState)
    ensures
        post is Uninitialized || post is RentExempt ==> is_transition_allowed(pre, post),
        post is RentPaying && (pre is Uninitialized || pre is RentExempt)
            ==> !is_transition_allowed(pre, post),
{
}

/// An account that pays rent may go on doing so exactly if it keeps its size and is not
/// credited.
pub proof fn law_paying_may_stay_if_neither_resized_nor_credited(
    pre_lamports: u64,
    pre_size: usize,
    post_lamports: u64,
    post_size: usize,
)
    ensures
        is_transition_allowed(
            RentState::RentPaying { lamports: pre_lamports, data_size: pre_size },
            RentState::RentPaying { lamports: post_lamports, data_size: post_size },
        ) <==> pre_size == post_size && post_lamports <= pre_lamports,
{
}

/// Only the account with the 32 bytes of the incinerator's address is exempt from the rule on
/// changes of rent state.
pub proof fn law_only_the_incinerator_is_exempt(pre: RentState, post: RentState, address: Seq<u8>)
    ensures
        incinerator_address() == seq![
            0u8, 51u8, 144u8, 114u8, 141u8, 52u8, 17u8, 96u8, 121u8, 189u8, 201u8, 17u8, 191u8,
            255u8, 0u8, 219u8, 212u8, 77u8, 46u8, 205u8, 204u8, 247u8, 156u8, 166u8, 225u8, 0u8,
            56u8, 225u8, 0u8, 0u8, 0u8, 0u8,
        ],
        is_change_allowed(pre, post, incinerator_address()),
        address != incinerator_address() ==> is_change_allowed(pre, post, address)
            == is_transition_allowed(pre, post),
{
}

/// A change of rent state is refused exactly if it is not allowed, and the error holds the
/// low byte of the account's index.
pub proof fn law_refusal_names_the_account(
    pre: RentState,
    post: RentState,
    address: Seq<u8>,
    account_index: u16,
)
    ensures
        match rent_state_verdict(pre, post, address, account_index as int) {
            Ok(_) => is_change_allowed(pre, post, address),
            Err(TransactionError::InsufficientFundsForRent { account_index: named }) => {
                &&& !is_change_allowed(pre, post, address)
                &&& named == account_index % 256
            },
        },
{
}

} // verus!
