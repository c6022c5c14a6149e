//! What holds of the records of a message's accounts, told by their positions and in figures.
use crate::rent::{scaled_minimum_balance, Rent};
use crate::rent_calculator::RentState;
use crate::runtime::{
    context_attempts, context_keys, is_snapshot, numbered_accounts,
};
use crate::transaction_account_state_info::{
    account_at, account_number, is_in_sync, is_ready_at, is_ready_for_post_exec, post_exec_info,
    post_exec_infos, pre_exec_info, pre_exec_infos, AccountState, TransactionAccountStateInfo,
    WritableTransactionAccountStateInfo,
};
use solana_transaction_context::transaction::TransactionContext;
use vstd::prelude::*;

verus! {

// Before execution

/// The record of an account before execution holds its lamports and its size, and tells only
/// whether it holds lamports at all.
pub proof fn law_record_before_execution(account: AccountState)
    ensures
        pre_exec_info(account).balance == account.lamports,
        pre_exec_info(account).data_size == account.data_size,
        pre_exec_info(account).rent_state is Uninitialized <==> account.lamports == 0,
        pre_exec_info(account).rent_state is RentExempt <==> account.lamports > 0,
{
}

/// There is one record before execution for each account of the message, and the record at
/// position `i` is that of the transaction's account `i`, if the message may write it. There
/// is no record of an account that is read-only or not at hand.
pub proof fn law_position_is_account_before_execution(
    accounts: Seq<Option<AccountState>>,
    writable: Seq<bool>,
    i: int,
)
    requires
        0 <= i < writable.len(),
        i < 0x1_0000,
    ensures
        pre_exec_infos(accounts, writable).len() == writable.len(),
        pre_exec_infos(accounts, writable)[i] is Some <==> writable[i] && i < accounts.len()
            && accounts[i] is Some,
        pre_exec_infos(accounts, writable)[i] matches Some(info) ==> {
            &&& info.balance == (accounts[i]->0).lamports
            &&& info.data_size == (accounts[i]->0).data_size
            &&& info.rent_state is Uninitialized <==> (accounts[i]->0).lamports == 0
            &&& info.rent_state is RentExempt <==> (accounts[i]->0).lamports > 0
        },
{
}

/// Accounts are numbered by 16 bits: the record at any position is that of the account whose
/// number is the remainder of the position by 65536.
pub proof fn law_positions_wrap_before_execution(
    accounts: Seq<Option<AccountState>>,
    writable: Seq<bool>,
    i: int,
)
    requires
        0 <= i < writable.len(),
    ensures
        pre_exec_infos(accounts, writable)[i] is Some <==> writable[i] && i % 0x1_0000
            < accounts.len() && accounts[i % 0x1_0000] is Some,
        pre_exec_infos(accounts, writable)[i] matches Some(info) ==> {
            &&& info.balance == (accounts[i % 0x1_0000]->0).lamports
            &&& info.data_size == (accounts[i % 0x1_0000]->0).data_size
            &&& info.rent_state is Uninitialized <==> (accounts[i % 0x1_0000]->0).lamports == 0
            &&& info.rent_state is RentExempt <==> (accounts[i % 0x1_0000]->0).lamports > 0
        },
{
}

/// A message is in sync with its transaction exactly if each account that it may write is
/// among the transaction's accounts, by its number, and at hand.
pub proof fn law_in_sync_iff_writable_accounts_at_hand(
    accounts: Seq<Option<AccountState>>,
    writable: Seq<bool>,
)
    ensures
        is_in_sync(accounts, writable) <==> forall|i: int|
            0 <= i < writable.len() && #[trigger] writable[i] ==> i % 0x1_0000 < accounts.len()
                && accounts[i % 0x1_0000] is Some,
{
    if is_in_sync(accounts, writable) {
        assert forall|i: int| 0 <= i < writable.len() && #[trigger] writable[i] implies i % 0x1_0000
            < accounts.len() && accounts[i % 0x1_0000] is Some by {
            assert(account_at(accounts, i) is Some);
        }
    }
}

/// A position stands for the account whose number is its remainder by 65536.
pub proof fn law_number_of_a_position(accounts: Seq<Option<AccountState>>, position: int)
    ensures
        account_number(position) == position % 0x1_0000,
        0 <= position < 0x1_0000 ==> account_number(position) == position,
        position % 0x1_0000 < accounts.len() ==> account_at(accounts, position)
            == accounts[position % 0x1_0000],
        position % 0x1_0000 >= accounts.len() ==> account_at(accounts, position) is None,
{
}

// After execution

/// The record of an account after execution holds its lamports and its size. The account is
/// uninitialized exactly if it holds no lamports, whatever its size, and if it pays rent the
/// record says so with the same lamports and size.
pub proof fn law_record_after_execution(
    pre: WritableTransactionAccountStateInfo,
    account: AccountState,
    rent: Rent,
)
    ensures
        post_exec_info(pre, account, rent).balance == account.lamports,
        post_exec_info(pre, account, rent).data_size == account.data_size,
        post_exec_info(pre, account, rent).rent_state is Uninitialized <==> account.lamports == 0,
        post_exec_info(pre, account, rent).rent_state matches RentState::RentPaying {
            lamports,
            data_size,
        } ==> lamports == account.lamports && data_size == account.data_size,
{
}

/// An account that was created or has grown is exempt exactly if it holds lamports, and no
/// fewer than the rate for each byte of its data and for 128 bytes more at threshold one, or
/// twice that at threshold two. Otherwise, if it holds lamports, it pays rent.
pub proof fn law_created_or_grown_needs_the_full_minimum(
    pre: WritableTransactionAccountStateInfo,
    account: AccountState,
    rent: Rent,
)
    requires
        pre.rent_state is Uninitialized || account.data_size > pre.data_size,
    ensures
        rent.exemption_threshold@ == seq![0u8, 0u8, 0u8, 0u8, 0u8, 0u8, 0xf0u8, 0x3fu8] ==> {
            &&& post_exec_info(pre, account, rent).rent_state is RentExempt <==> account.lamports
                > 0 && account.lamports >= (128 + account.data_size) * rent.lamports_per_byte
            &&& post_exec_info(pre, account, rent).rent_state is RentPaying <==> 0
                < account.lamports < (128 + account.data_size) * rent.lamports_per_byte
        },
        rent.exemption_threshold@ == seq![0u8, 0u8, 0u8, 0u8, 0u8, 0u8, 0x00u8, 0x40u8] ==> {
            &&& post_exec_info(pre, account, rent).rent_state is RentExempt <==> account.lamports
                > 0 && account.lamports >= 2 * ((128 + account.data_size) * rent.lamports_per_byte)
            &&& post_exec_info(pre, account, rent).rent_state is RentPaying <==> 0
                < account.lamports < 2 * ((128 + account.data_size) * rent.lamports_per_byte)
        },
        rent.exemption_threshold@ != seq![0u8, 0u8, 0u8, 0u8, 0u8, 0u8, 0xf0u8, 0x3fu8]
            && rent.exemption_threshold@ != seq![0u8, 0u8, 0u8, 0u8, 0u8, 0u8, 0x00u8, 0x40u8]
            ==> {
            &&& post_exec_info(pre, account, rent).rent_state is RentExempt <==> account.lamports
                > 0 && account.lamports >= scaled_minimum_balance(
                rent.lamports_per_byte,
                rent.exemption_threshold@,
                account.data_size,
            )
            &&& post_exec_info(pre, account, rent).rent_state is RentPaying <==> 0
                < account.lamports < scaled_minimum_balance(
                rent.lamports_per_byte,
                rent.exemption_threshold@,
                account.data_size,
            )
        },
{
    crate::rent_laws::law_minimum_balance_in_figures(rent, account.data_size);
}

/// An account that held lamports and has not grown is exempt exactly if it holds lamports, and
/// no fewer than it held before or no fewer than the minimum balance for its size. Otherwise,
/// if it holds lamports, it pays rent.
pub proof fn law_kept_account_may_rest_on_its_former_balance(
    pre: WritableTransactionAccountStateInfo,
    account: AccountState,
    rent: Rent,
)
    requires
        !(pre.rent_state is Uninitialized),
        account.data_size <= pre.data_size,
    ensures
        rent.exemption_threshold@ == seq![0u8, 0u8, 0u8, 0u8, 0u8, 0u8, 0xf0u8, 0x3fu8] ==> (
        post_exec_info(pre, account, rent).rent_state is RentExempt <==> account.lamports > 0 && (
        account.lamports >= pre.balance || account.lamports >= (128 + account.data_size)
            * rent.lamports_per_byte)),
        rent.exemption_threshold@ == seq![0u8, 0u8, 0u8, 0u8, 0u8, 0u8, 0x00u8, 0x40u8] ==> (
        post_exec_info(pre, account, rent).rent_state is RentExempt <==> account.lamports > 0 && (
        account.lamports >= pre.balance || account.lamports >= 2 * ((128 + account.data_size)
            * rent.lamports_per_byte))),
        rent.exemption_threshold@ != seq![0u8, 0u8, 0u8, 0u8, 0u8, 0u8, 0xf0u8, 0x3fu8]
            && rent.exemption_threshold@ != seq![0u8, 0u8, 0u8, 0u8, 0u8, 0u8, 0x00u8, 0x40u8] ==> (
        post_exec_info(pre, account, rent).rent_state is RentExempt <==> account.lamports > 0 && (
        account.lamports >= pre.balance || account.lamports >= scaled_minimum_balance(
            rent.lamports_per_byte,
            rent.exemption_threshold@,
            account.data_size,
        ))),
        post_exec_info(pre, account, rent).rent_state is RentPaying <==> account.lamports > 0 && !(
        post_exec_info(pre, account, rent).rent_state is RentExempt),
{
    crate::rent_laws::law_minimum_balance_in_figures(rent, account.data_size);
}

/// There is one record after execution for each position that has both an account of the
/// message and a place in the records before. The record at a position is that of the account
/// with the position's number, told against the record before at the same position. There is
/// no record of an account that is read-only or not at hand.
pub proof fn law_position_is_account_after_execution(
    accounts: Seq<Option<AccountState>>,
    pre: Seq<TransactionAccountStateInfo>,
    writable: Seq<bool>,
    rent: Rent,
    i: int,
)
    requires
        0 <= i < writable.len(),
        i < pre.len(),
    ensures
        post_exec_infos(accounts, pre, writable, rent).len() == if writable.len() <= pre.len() {
            writable.len()
        } else {
            pre.len()
        },
        post_exec_infos(accounts, pre, writable, rent)[i] is Some <==> writable[i] && i % 0x1_0000
            < accounts.len() && accounts[i % 0x1_0000] is Some,
        post_exec_infos(accounts, pre, writable, rent)[i] matches Some(info) ==> {
            &&& info.balance == (accounts[i % 0x1_0000]->0).lamports
            &&& info.data_size == (accounts[i % 0x1_0000]->0).data_size
            &&& info.rent_state == post_exec_info(
                pre[i]->0,
                accounts[i % 0x1_0000]->0,
                rent,
            ).rent_state
        },
        i < 0x1_0000 ==> i % 0x1_0000 == i,
{
}

/// The records after execution can be made exactly if each account that the message may write
/// and that is at hand has a record before execution, and a minimum balance is defined for its
/// size.
pub proof fn law_ready_iff_accounts_at_hand_are_known(
    accounts: Seq<Option<AccountState>>,
    pre: Seq<TransactionAccountStateInfo>,
    writable: Seq<bool>,
    rent: Rent,
)
    ensures
        is_ready_for_post_exec(accounts, pre, writable, rent) <==> forall|i: int|
            0 <= i < writable.len() && i < pre.len() && #[trigger] writable[i] && i % 0x1_0000
                < accounts.len() && accounts[i % 0x1_0000] is Some ==> pre[i] is Some
                && rent.covers((accounts[i % 0x1_0000]->0).data_size),
{
    if is_ready_for_post_exec(accounts, pre, writable, rent) {
        assert forall|i: int|
            0 <= i < writable.len() && i < pre.len() && #[trigger] writable[i] && i % 0x1_0000
                < accounts.len() && accounts[i % 0x1_0000] is Some implies pre[i] is Some
            && rent.covers((accounts[i % 0x1_0000]->0).data_size) by {
            assert(is_ready_at(accounts, pre, writable, rent, i));
        }
    }
}

// Live transactions

/// A snapshot of a context has one entry for each of its accounts that 16 bits can number, and
/// each entry came of an attempt to borrow the account with that number.
pub proof fn law_snapshot_covers_the_context(
    context: TransactionContext<'_>,
    accounts: Seq<Option<AccountState>>,
)
    ensures
        numbered_accounts(context) == if context_keys(context).len() <= 0x1_0000 {
            context_keys(context).len() as int
        } else {
            0x1_0000
        },
        is_snapshot(context, accounts) <==> {
            &&& accounts.len() <= 0x1_0000
            &&& accounts.len() <= context_keys(context).len()
            &&& accounts.len() == 0x1_0000 || accounts.len() == context_keys(context).len()
            &&& forall|n: int|
                0 <= n < accounts.len() ==> context_attempts(context).contains(
                    (n, #[trigger] accounts[n]),
                )
        },
{
}

} // verus!
