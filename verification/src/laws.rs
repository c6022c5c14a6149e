//! What holds of the account states of every transaction.
use crate::rent::Rent;
use crate::rent_calculator::{incinerator_address, RentState, TransactionError};
use crate::transaction_account_state_info::{
    account_at, account_number, is_decided, is_first_violation, is_in_sync, is_ready_at,
    is_ready_for_post_exec, is_verdict, is_violation, lemma_outcome_rests_on_positions, lesser,
    post_exec_infos, pre_exec_info, pre_exec_infos, required_balance,
    uninitialized_accounts_size, uninitialized_size, AccountState, TransactionAccountStateInfo,
};
use vstd::prelude::*;

verus! {

/// No account counts as paying rent before execution: an account without lamports is
/// uninitialized, and every other one counts as exempt.
pub proof fn law_no_rent_paying_before_execution(
    accounts: Seq<Option<AccountState>>,
    writable: Seq<bool>,
)
    ensures
        forall|i: int|
            0 <= i < writable.len() && (#[trigger] pre_exec_infos(accounts, writable)[i]) is Some
                ==> (pre_exec_infos(accounts, writable)[i]->0).rent_state == if (pre_exec_infos(
                accounts,
                writable,
            )[i]->0).balance == 0 {
                RentState::Uninitialized
            } else {
                RentState::RentExempt
            },
{
}

/// A message that is in sync with its transaction has a state recorded before execution for
/// exactly its writable accounts.
pub proof fn law_recorded_before_execution_iff_writable(
    accounts: Seq<Option<AccountState>>,
    writable: Seq<bool>,
)
    requires
        is_in_sync(accounts, writable),
    ensures
        pre_exec_infos(accounts, writable).len() == writable.len(),
        forall|i: int|
            0 <= i < writable.len() ==> ((#[trigger] pre_exec_infos(accounts, writable)[i]) is Some
                <==> writable[i]),
{
}

/// A message with a writable account that the transaction does not hold is out of sync.
pub proof fn law_missing_account_is_out_of_sync(
    accounts: Seq<Option<AccountState>>,
    writable: Seq<bool>,
    i: int,
)
    requires
        0 <= i < writable.len(),
        writable[i],
        account_number(i) >= accounts.len(),
    ensures
        !is_in_sync(accounts, writable),
{
}

/// After the states before execution were recorded, the states after execution of the same
/// message can be recorded, provided that `rent` defines the minimum balances. They line up
/// by position, and an account that was read-only before is not recorded after.
pub proof fn law_post_exec_follows_pre_exec(
    before: Seq<Option<AccountState>>,
    after: Seq<Option<AccountState>>,
    writable: Seq<bool>,
    rent: Rent,
)
    requires
        is_in_sync(before, writable),
        forall|i: int|
            0 <= i < writable.len() && writable[i] && (#[trigger] account_at(after, i)) is Some
                ==> rent.covers((account_at(after, i)->0).data_size),
    ensures
        is_ready_for_post_exec(after, pre_exec_infos(before, writable), writable, rent),
        post_exec_infos(after, pre_exec_infos(before, writable), writable, rent).len()
            == writable.len(),
        forall|i: int|
            0 <= i < writable.len() && (#[trigger] post_exec_infos(
                after,
                pre_exec_infos(before, writable),
                writable,
                rent,
            )[i]) is Some ==> pre_exec_infos(before, writable)[i] is Some,
{
    let pre = pre_exec_infos(before, writable);
    assert forall|i: int| 0 <= i < writable.len() && i < pre.len() implies #[trigger] is_ready_at(
        after,
        pre,
        writable,
        rent,
        i,
    ) by {
        assert(writable[i] ==> account_at(before, i) is Some);
    }
}

/// Whether the account at position `i` is at hand before and after execution and the message
/// may write it.
pub open spec fn is_tracked(
    before: Seq<Option<AccountState>>,
    after: Seq<Option<AccountState>>,
    writable: Seq<bool>,
    i: int,
) -> bool {
    0 <= i < writable.len() && writable[i] && account_at(before, i) is Some && account_at(
        after,
        i,
    ) is Some
}

/// Whether `account` holds lamports after execution, but fewer than are required of an account
/// that was `former` before.
pub open spec fn is_underfunded(former: AccountState, account: AccountState, rent: Rent) -> bool {
    0 < account.lamports < required_balance(pre_exec_info(former), account.data_size, rent)
}

/// An account is held against a transaction exactly if it is writable, is left with lamports
/// but fewer than are required of it, and is not the incinerator.
pub proof fn law_violation_iff_underfunded(
    before: Seq<Option<AccountState>>,
    after: Seq<Option<AccountState>>,
    writable: Seq<bool>,
    rent: Rent,
    keys: Seq<[u8; 32]>,
    i: int,
)
    ensures
        is_violation(
            pre_exec_infos(before, writable),
            post_exec_infos(after, pre_exec_infos(before, writable), writable, rent),
            keys,
            i,
        ) <==> is_tracked(before, after, writable, i) && account_number(i) < keys.len()
            && keys[account_number(i)]@ != incinerator_address() && is_underfunded(
            account_at(before, i)->0,
            account_at(after, i)->0,
            rent,
        ),
{
}

/// What is required of an account is never more than the minimum balance for its size. If the
/// account held lamports and has not grown, it is never more than it held before either. If it
/// held none or has grown, it is the full minimum balance.
pub proof fn law_required_balance(former: AccountState, data_size: usize, rent: Rent)
    ensures
        required_balance(pre_exec_info(former), data_size, rent) <= rent.minimum_balance_spec(
            data_size,
        ),
        former.lamports > 0 && data_size <= former.data_size ==> required_balance(
            pre_exec_info(former),
            data_size,
            rent,
        ) == lesser(former.lamports as int, rent.minimum_balance_spec(data_size)),
        former.lamports == 0 || data_size > former.data_size ==> required_balance(
            pre_exec_info(former),
            data_size,
            rent,
        ) == rent.minimum_balance_spec(data_size),
{
}

/// More lamports never turn an account that was accepted into one that is refused.
pub proof fn law_more_lamports_do_not_harm(
    former: AccountState,
    account: AccountState,
    richer: AccountState,
    rent: Rent,
)
    requires
        !is_underfunded(former, account, rent),
        0 < account.lamports <= richer.lamports,
        richer.data_size == account.data_size,
    ensures
        !is_underfunded(former, richer, rent),
{
}

/// An account passes if it was emptied, or if it held lamports before and has neither grown
/// nor lost lamports.
pub open spec fn is_preserved(former: AccountState, account: AccountState) -> bool {
    account.lamports == 0 || (former.lamports > 0 && account.lamports >= former.lamports
        && account.data_size <= former.data_size)
}

/// A transaction whose accounts are all either emptied or preserved is accepted, even where an
/// account is below its minimum balance.
pub proof fn law_preserved_accounts_are_accepted(
    before: Seq<Option<AccountState>>,
    after: Seq<Option<AccountState>>,
    writable: Seq<bool>,
    rent: Rent,
    keys: Seq<[u8; 32]>,
    result: Result<(), TransactionError>,
)
    requires
        forall|i: int| #[trigger]
            is_tracked(before, after, writable, i) ==> is_preserved(
                account_at(before, i)->0,
                account_at(after, i)->0,
            ),
        is_verdict(
            pre_exec_infos(before, writable),
            post_exec_infos(after, pre_exec_infos(before, writable), writable, rent),
            keys,
            result,
        ),
    ensures
        result is Ok,
{
    let pre = pre_exec_infos(before, writable);
    let post = post_exec_infos(after, pre, writable, rent);
    assert forall|i: int| !#[trigger] is_violation(pre, post, keys, i) by {
        law_violation_iff_underfunded(before, after, writable, rent, keys, i);
        if is_tracked(before, after, writable, i) {
            law_required_balance(
                account_at(before, i)->0,
                (account_at(after, i)->0).data_size,
                rent,
            );
        }
    }
}

/// A transaction that leaves all its accounts as they were is accepted.
pub proof fn law_untouched_accounts_are_accepted(
    accounts: Seq<Option<AccountState>>,
    writable: Seq<bool>,
    rent: Rent,
    keys: Seq<[u8; 32]>,
    result: Result<(), TransactionError>,
)
    requires
        is_verdict(
            pre_exec_infos(accounts, writable),
            post_exec_infos(accounts, pre_exec_infos(accounts, writable), writable, rent),
            keys,
            result,
        ),
    ensures
        result is Ok,
{
    law_preserved_accounts_are_accepted(accounts, accounts, writable, rent, keys, result);
}

/// A transaction that leaves a writable account, other than the incinerator, with lamports but
/// fewer than are required of it is refused for insufficient funds. The error names that
/// account, or one before it of which the same holds.
pub proof fn law_underfunded_account_is_refused(
    before: Seq<Option<AccountState>>,
    after: Seq<Option<AccountState>>,
    writable: Seq<bool>,
    rent: Rent,
    keys: Seq<[u8; 32]>,
    i: int,
    result: Result<(), TransactionError>,
)
    requires
        is_tracked(before, after, writable, i),
        account_number(i) < keys.len(),
        keys[account_number(i)]@ != incinerator_address(),
        is_underfunded(account_at(before, i)->0, account_at(after, i)->0, rent),
        is_verdict(
            pre_exec_infos(before, writable),
            post_exec_infos(after, pre_exec_infos(before, writable), writable, rent),
            keys,
            result,
        ),
    ensures
        result matches Err(TransactionError::InsufficientFundsForRent { account_index })
            && exists|j: int|
            0 <= j <= i && account_index == j % 256 && #[trigger] is_tracked(
                before,
                after,
                writable,
                j,
            ) && is_underfunded(account_at(before, j)->0, account_at(after, j)->0, rent),
{
    law_violation_iff_underfunded(before, after, writable, rent, keys, i);
    let pre = pre_exec_infos(before, writable);
    let post = post_exec_infos(after, pre, writable, rent);
    let account_index = (result->Err_0)->account_index;
    let j = choose|j: int| #[trigger]
        is_first_violation(pre, post, keys, j) && account_index == j % 256;
    law_violation_iff_underfunded(before, after, writable, rent, keys, j);
    assert(is_tracked(before, after, writable, j));
}

/// Two verdicts on the same changes are the same.
pub proof fn law_verdict_is_unique(
    pre: Seq<TransactionAccountStateInfo>,
    post: Seq<TransactionAccountStateInfo>,
    keys: Seq<[u8; 32]>,
    one: Result<(), TransactionError>,
    other: Result<(), TransactionError>,
)
    requires
        is_verdict(pre, post, keys, one),
        is_verdict(pre, post, keys, other),
    ensures
        one == other,
{
    match (one, other) {
        (
            Err(TransactionError::InsufficientFundsForRent { account_index: first }),
            Err(TransactionError::InsufficientFundsForRent { account_index: second }),
        ) => {
            let i = choose|i: int| #[trigger]
                is_first_violation(pre, post, keys, i) && first == i % 256;
            let j = choose|j: int| #[trigger]
                is_first_violation(pre, post, keys, j) && second == j % 256;
            assert(is_violation(pre, post, keys, i) && is_violation(pre, post, keys, j));
        },
        _ => {
            assert(one->Ok_0 == () && other->Ok_0 == ());
        },
    }
}

/// States that have no counterpart at the same position do not bear on the verdict, whether
/// they were recorded before execution or after it.
pub proof fn law_unmatched_accounts_are_ignored(
    pre: Seq<TransactionAccountStateInfo>,
    post: Seq<TransactionAccountStateInfo>,
    extra: Seq<TransactionAccountStateInfo>,
    keys: Seq<[u8; 32]>,
    result: Result<(), TransactionError>,
)
    ensures
        post.len() <= pre.len() ==> is_decided(pre + extra, post, keys) == is_decided(
            pre,
            post,
            keys,
        ) && is_verdict(pre + extra, post, keys, result) == is_verdict(pre, post, keys, result),
        pre.len() <= post.len() ==> is_decided(pre, post + extra, keys) == is_decided(
            pre,
            post,
            keys,
        ) && is_verdict(pre, post + extra, keys, result) == is_verdict(pre, post, keys, result),
{
    if post.len() <= pre.len() {
        lemma_outcome_rests_on_positions(pre + extra, post, keys, pre, post, keys, result);
    }
    if pre.len() <= post.len() {
        lemma_outcome_rests_on_positions(pre, post + extra, keys, pre, post, keys, result);
    }
}

/// The size of the uninitialized accounts of two lists together is the sum of their sizes.
pub proof fn law_uninitialized_size_is_additive(
    one: Seq<TransactionAccountStateInfo>,
    other: Seq<TransactionAccountStateInfo>,
)
    ensures
        uninitialized_accounts_size(one + other) == uninitialized_accounts_size(one)
            + uninitialized_accounts_size(other),
    decreases other.len(),
{
    if other.len() == 0 {
        assert(one + other =~= one);
    } else {
        assert((one + other).drop_last() =~= one + other.drop_last());
        law_uninitialized_size_is_additive(one, other.drop_last());
    }
}

/// Deleted accounts of one size add that size each.
pub proof fn law_deleted_accounts_add_their_size(
    post: Seq<TransactionAccountStateInfo>,
    data_size: usize,
)
    requires
        forall|i: int|
            0 <= i < post.len() ==> (#[trigger] post[i]) is Some && (post[i]->0).rent_state
                == RentState::Uninitialized && (post[i]->0).data_size == data_size,
    ensures
        uninitialized_accounts_size(post) == post.len() * data_size,
    decreases post.len(),
{
    if post.len() > 0 {
        law_deleted_accounts_add_their_size(post.drop_last(), data_size);
        assert(post.len() * data_size == (post.len() - 1) * data_size + data_size)
            by (nonlinear_arith);
    }
}

/// After execution an account adds to the size of the uninitialized accounts exactly if it is
/// writable, is at hand and holds no lamports.
pub proof fn law_uninitialized_iff_without_lamports(
    after: Seq<Option<AccountState>>,
    pre: Seq<TransactionAccountStateInfo>,
    writable: Seq<bool>,
    rent: Rent,
    i: int,
)
    requires
        0 <= i < writable.len(),
        i < pre.len(),
    ensures
        uninitialized_size(post_exec_infos(after, pre, writable, rent)[i]) == if writable[i]
            && account_at(after, i) is Some && (account_at(after, i)->0).lamports == 0 {
            (account_at(after, i)->0).data_size as nat
        } else {
            0
        },
{
}

} // verus!
