//! What holds of the check of a transaction's changes and of the size of its deleted accounts,
//! told by positions and in figures.
use crate::rent::Rent;
use crate::rent_calculator::{incinerator_address, RentState, TransactionError};
use crate::transaction_account_state_info::{
    is_checked, is_decided, is_first_violation, is_missing, is_verdict, is_violation,
    post_exec_infos, pre_exec_infos, uninitialized_accounts_size, uninitialized_size,
    AccountState, TransactionAccountStateInfo,
};
use vstd::prelude::*;

verus! {

/// The change of an account is refused exactly if the account is recorded before and after
/// execution, is held by the transaction, is not the incinerator, and pays rent afterwards
/// without having paid rent before at the same size and with as many lamports or more.
pub proof fn law_refused_change(
    pre: Seq<TransactionAccountStateInfo>,
    post: Seq<TransactionAccountStateInfo>,
    keys: Seq<[u8; 32]>,
    i: int,
)
    ensures
        is_violation(pre, post, keys, i) <==> {
            &&& 0 <= i < pre.len()
            &&& i < post.len()
            &&& pre[i] is Some
            &&& post[i] is Some
            &&& i % 0x1_0000 < keys.len()
            &&& keys[i % 0x1_0000]@ != incinerator_address()
            &&& (post[i]->0).rent_state matches RentState::RentPaying { lamports, data_size }
            &&& !((pre[i]->0).rent_state matches RentState::RentPaying {
                lamports: former_lamports,
                data_size: former_size,
            } && former_size == data_size && lamports <= former_lamports)
        },
{
}

/// The check comes to an account that the transaction does not hold exactly if the account is
/// recorded before and after execution and its number is not among the transaction's.
pub proof fn law_missing_account(
    pre: Seq<TransactionAccountStateInfo>,
    post: Seq<TransactionAccountStateInfo>,
    keys: Seq<[u8; 32]>,
    i: int,
)
    ensures
        is_checked(pre, post, i) <==> 0 <= i < pre.len() && i < post.len() && pre[i] is Some
            && post[i] is Some,
        is_missing(pre, post, keys, i) <==> 0 <= i < pre.len() && i < post.len() && pre[i] is Some
            && post[i] is Some && i % 0x1_0000 >= keys.len(),
{
}

/// If the transaction holds every account that is recorded before and after execution, the
/// check comes to a verdict.
pub proof fn law_decided_if_no_account_is_missing(
    pre: Seq<TransactionAccountStateInfo>,
    post: Seq<TransactionAccountStateInfo>,
    keys: Seq<[u8; 32]>,
)
    requires
        forall|i: int|
            #![trigger pre[i], post[i]]
            0 <= i < pre.len() && i < post.len() && pre[i] is Some && post[i] is Some ==> i
                % 0x1_0000 < keys.len(),
    ensures
        is_decided(pre, post, keys),
{
    assert forall|i: int| !#[trigger] is_missing(pre, post, keys, i) by {
        if is_missing(pre, post, keys, i) {
            assert(pre[i] is Some && post[i] is Some);
        }
    }
}

/// The check comes to no verdict only if some account that is recorded before and after
/// execution is not held by the transaction, and no change before it is refused.
pub proof fn law_undecided_only_by_a_missing_account(
    pre: Seq<TransactionAccountStateInfo>,
    post: Seq<TransactionAccountStateInfo>,
    keys: Seq<[u8; 32]>,
)
    requires
        !is_decided(pre, post, keys),
    ensures
        exists|i: int|
            #![trigger pre[i], post[i]]
            {
                &&& 0 <= i < pre.len()
                &&& i < post.len()
                &&& pre[i] is Some
                &&& post[i] is Some
                &&& i % 0x1_0000 >= keys.len()
                &&& forall|j: int| j < i ==> !#[trigger] is_violation(pre, post, keys, j)
            },
{
    let i = choose|i: int| #[trigger]
        is_missing(pre, post, keys, i) && forall|j: int|
            j < i ==> !#[trigger] is_violation(pre, post, keys, j);
    assert(pre[i] is Some && post[i] is Some);
}

/// The check comes to no verdict if it comes to an account that the transaction does not hold
/// before any change is refused.
pub proof fn law_undecided_by_a_missing_account(
    pre: Seq<TransactionAccountStateInfo>,
    post: Seq<TransactionAccountStateInfo>,
    keys: Seq<[u8; 32]>,
    i: int,
)
    requires
        0 <= i < pre.len(),
        i < post.len(),
        pre[i] is Some,
        post[i] is Some,
        i % 0x1_0000 >= keys.len(),
        forall|j: int| j < i ==> !#[trigger] is_violation(pre, post, keys, j),
    ensures
        !is_decided(pre, post, keys),
{
    assert(is_missing(pre, post, keys, i));
}

/// The verdict is success exactly if no change is refused.
pub proof fn law_accepted_iff_no_change_is_refused(
    pre: Seq<TransactionAccountStateInfo>,
    post: Seq<TransactionAccountStateInfo>,
    keys: Seq<[u8; 32]>,
)
    ensures
        is_verdict(pre, post, keys, Ok(())) <==> forall|i: int|
            !#[trigger] is_violation(pre, post, keys, i),
{
}

/// The verdict is an error exactly for the first change that is refused, and the error holds
/// the remainder of its position by 256.
pub proof fn law_refused_for_the_first_refused_change(
    pre: Seq<TransactionAccountStateInfo>,
    post: Seq<TransactionAccountStateInfo>,
    keys: Seq<[u8; 32]>,
    account_index: u8,
)
    ensures
        is_verdict(
            pre,
            post,
            keys,
            Err(TransactionError::InsufficientFundsForRent { account_index }),
        ) <==> exists|i: int|
            {
                &&& #[trigger] is_violation(pre, post, keys, i)
                &&& forall|j: int| j < i ==> !#[trigger] is_violation(pre, post, keys, j)
                &&& account_index == i % 256
            },
{
    if exists|i: int|
        {
            &&& #[trigger] is_violation(pre, post, keys, i)
            &&& forall|j: int| j < i ==> !#[trigger] is_violation(pre, post, keys, j)
            &&& account_index == i % 256
        } {
        let i = choose|i: int|
            {
                &&& #[trigger] is_violation(pre, post, keys, i)
                &&& forall|j: int| j < i ==> !#[trigger] is_violation(pre, post, keys, j)
                &&& account_index == i % 256
            };
        assert(is_first_violation(pre, post, keys, i));
    }
}

/// At threshold one (`factor` one) or two (`factor` two), a transaction passes exactly if each
/// account that the message may write, and that is at hand before and after execution, is the
/// incinerator, is left without lamports, holds the rate for each byte of its data and for 128
/// bytes more times the factor, or held lamports, has not grown and holds as many lamports as
/// before.
pub proof fn law_transaction_in_figures(
    before: Seq<Option<AccountState>>,
    after: Seq<Option<AccountState>>,
    writable: Seq<bool>,
    rent: Rent,
    factor: int,
    keys: Seq<[u8; 32]>,
    result: Result<(), TransactionError>,
)
    requires
        (rent.exemption_threshold@ == seq![0u8, 0u8, 0u8, 0u8, 0u8, 0u8, 0xf0u8, 0x3fu8] && factor
            == 1) || (rent.exemption_threshold@ == seq![
            0u8,
            0u8,
            0u8,
            0u8,
            0u8,
            0u8,
            0x00u8,
            0x40u8,
        ] && factor == 2),
        is_verdict(
            pre_exec_infos(before, writable),
            post_exec_infos(after, pre_exec_infos(before, writable), writable, rent),
            keys,
            result,
        ),
    ensures
        result is Ok <==> forall|i: int|
            0 <= i < writable.len() && #[trigger] writable[i] && i % 0x1_0000 < before.len() && i
                % 0x1_0000 < after.len() && i % 0x1_0000 < keys.len() && before[i
                % 0x1_0000] is Some && after[i % 0x1_0000] is Some ==> {
                ||| keys[i % 0x1_0000]@ == incinerator_address()
                ||| (after[i % 0x1_0000]->0).lamports == 0
                ||| (after[i % 0x1_0000]->0).lamports >= factor * ((128 + (after[i
                    % 0x1_0000]->0).data_size) * rent.lamports_per_byte)
                ||| (before[i % 0x1_0000]->0).lamports > 0 && (after[i % 0x1_0000]->0).data_size
                    <= (before[i % 0x1_0000]->0).data_size && (after[i % 0x1_0000]->0).lamports
                    >= (before[i % 0x1_0000]->0).lamports
            },
{
    let pre = pre_exec_infos(before, writable);
    let post = post_exec_infos(after, pre, writable, rent);
    assert forall|i: int| #[trigger]
        is_violation(pre, post, keys, i) <==> 0 <= i < writable.len() && writable[i] && i % 0x1_0000
            < before.len() && i % 0x1_0000 < after.len() && i % 0x1_0000 < keys.len() && before[i
            % 0x1_0000] is Some && after[i % 0x1_0000] is Some && !{
            ||| keys[i % 0x1_0000]@ == incinerator_address()
            ||| (after[i % 0x1_0000]->0).lamports == 0
            ||| (after[i % 0x1_0000]->0).lamports >= factor * ((128 + (after[i
                % 0x1_0000]->0).data_size) * rent.lamports_per_byte)
            ||| (before[i % 0x1_0000]->0).lamports > 0 && (after[i % 0x1_0000]->0).data_size
                <= (before[i % 0x1_0000]->0).data_size && (after[i % 0x1_0000]->0).lamports
                >= (before[i % 0x1_0000]->0).lamports
        } by {
        if 0 <= i < writable.len() && i % 0x1_0000 < after.len() {
            crate::rent_laws::law_minimum_balance_in_figures(
                rent,
                (after[i % 0x1_0000]->0).data_size,
            );
        }
    }
    match result {
        Ok(_) => {
            assert forall|i: int|
                0 <= i < writable.len() && #[trigger] writable[i] && i % 0x1_0000 < before.len()
                    && i % 0x1_0000 < after.len() && i % 0x1_0000 < keys.len() && before[i
                    % 0x1_0000] is Some && after[i % 0x1_0000] is Some implies {
                ||| keys[i % 0x1_0000]@ == incinerator_address()
                ||| (after[i % 0x1_0000]->0).lamports == 0
                ||| (after[i % 0x1_0000]->0).lamports >= factor * ((128 + (after[i
                    % 0x1_0000]->0).data_size) * rent.lamports_per_byte)
                ||| (before[i % 0x1_0000]->0).lamports > 0 && (after[i % 0x1_0000]->0).data_size
                    <= (before[i % 0x1_0000]->0).data_size && (after[i % 0x1_0000]->0).lamports
                    >= (before[i % 0x1_0000]->0).lamports
            } by {
                assert(!is_violation(pre, post, keys, i));
            }
        },
        Err(TransactionError::InsufficientFundsForRent { account_index }) => {
            let i = choose|i: int| #[trigger]
                is_first_violation(pre, post, keys, i) && account_index == i % 256;
            assert(is_violation(pre, post, keys, i));
            assert(writable[i]);
        },
    }
}

// Deleted accounts

/// One record adds the size of its account exactly if the account is uninitialized. A
/// read-only account and one that is exempt or pays rent add nothing.
pub proof fn law_one_record_adds_its_size_iff_uninitialized(info: TransactionAccountStateInfo)
    ensures
        uninitialized_accounts_size(seq![info]) == uninitialized_size(info),
        info is None ==> uninitialized_accounts_size(seq![info]) == 0,
        info is Some && (info->0).rent_state is Uninitialized ==> uninitialized_accounts_size(
            seq![info],
        ) == (info->0).data_size,
        info is Some && !((info->0).rent_state is Uninitialized) ==> uninitialized_accounts_size(
            seq![info],
        ) == 0,
{
    reveal_with_fuel(uninitialized_accounts_size, 2);
    assert(seq![info].drop_last() =~= Seq::<TransactionAccountStateInfo>::empty());
}

/// Records of which none is uninitialized add up to nothing, whatever the sizes of their
/// accounts.
pub proof fn law_live_accounts_add_nothing(post: Seq<TransactionAccountStateInfo>)
    requires
        forall|i: int|
            0 <= i < post.len() && (#[trigger] post[i]) is Some ==> !(
            (post[i]->0).rent_state is Uninitialized),
    ensures
        uninitialized_accounts_size(post) == 0,
    decreases post.len(),
{
    if post.len() > 0 {
        law_live_accounts_add_nothing(post.drop_last());
        assert(post.last() == post[post.len() - 1]);
    }
}

/// One more record adds the size of its account if the account is uninitialized, and nothing
/// otherwise, wherever in the list it stands.
pub proof fn law_inserted_record_adds_its_size(
    front: Seq<TransactionAccountStateInfo>,
    info: TransactionAccountStateInfo,
    back: Seq<TransactionAccountStateInfo>,
)
    ensures
        uninitialized_accounts_size(front + seq![info] + back) == uninitialized_accounts_size(
            front + back,
        ) + if info is Some && (info->0).rent_state is Uninitialized {
            (info->0).data_size as int
        } else {
            0
        },
{
    crate::laws::law_uninitialized_size_is_additive(front + seq![info], back);
    crate::laws::law_uninitialized_size_is_additive(front, seq![info]);
    crate::laws::law_uninitialized_size_is_additive(front, back);
    law_one_record_adds_its_size_iff_uninitialized(info);
}

} // verus!
