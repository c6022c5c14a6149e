//! What a transaction's accounts look like before and after it is executed, and whether the
//! difference between the two is acceptable.
//!
//! An account of a message is named by its position among the message's account keys. The
//! accounts of a transaction are numbered by 16 bits, so position `i` stands for the account
//! with the number `i` modulo 65536.
use crate::rent::Rent;
use crate::rent_calculator::{
    account_rent_state, check_rent_state, get_account_rent_state, is_change_allowed, RentState,
    TransactionError,
};
use vstd::prelude::*;

verus! {

/// What can be read of an account while it is borrowed.
#[derive(Clone, Copy, Debug, PartialEq, Eq, Structural)]
pub struct AccountState {
    /// Lamports that the account holds.
    pub lamports: u64,
    /// Length of the account's data.
    pub data_size: usize,
}

/// State of an account that the transaction may write.
#[derive(Clone, Copy, Debug, PartialEq, Eq, Structural)]
pub struct WritableTransactionAccountStateInfo {
    /// Rent state of the account.
    pub rent_state: RentState,
    /// Lamports that the account holds.
    pub balance: u64,
    /// Length of the account's data.
    pub data_size: usize,
}

/// State of an account of a message, or `None` if the account is read-only.
pub type TransactionAccountStateInfo = Option<WritableTransactionAccountStateInfo>;

/// The number of the account that stands at `position` in a message.
pub open spec fn account_number(position: int) -> int {
    position % 0x1_0000
}

/// The account that stands at `position` in a message, or `None` if the transaction has no
/// such account or it could not be borrowed.
pub open spec fn account_at(
    accounts: Seq<Option<AccountState>>,
    position: int,
) -> Option<AccountState> {
    if account_number(position) < accounts.len() {
        accounts[account_number(position)]
    } else {
        None
    }
}

/// The number of the account that stands at `position` in a message.
fn number_of(position: usize) -> (number: u16)
    ensures
        number == account_number(position as int),
{
    (position % 0x1_0000) as u16
}

/// Looks up the account that stands at `position` in a message.
fn borrow_at(accounts: &[Option<AccountState>], position: usize) -> (account: Option<
    AccountState,
>)
    ensures
        account == account_at(accounts@, position as int),
{
    let number = number_of(position) as usize;
    if number < accounts.len() {
        accounts[number]
    } else {
        None
    }
}

// Before execution

/// Whether every writable account of a message is at hand.
pub open spec fn is_in_sync(accounts: Seq<Option<AccountState>>, writable: Seq<bool>) -> bool {
    forall|i: int|
        0 <= i < writable.len() && #[trigger] writable[i] ==> account_at(accounts, i) is Some
}

/// The state of a writable account before execution. An account that holds lamports counts as
/// exempt from rent, whatever its balance.
pub open spec fn pre_exec_info(account: AccountState) -> WritableTransactionAccountStateInfo {
    WritableTransactionAccountStateInfo {
        rent_state: if account.lamports == 0 {
            RentState::Uninitialized
        } else {
            RentState::RentExempt
        },
        balance: account.lamports,
        data_size: account.data_size,
    }
}

/// The states of a message's accounts before execution.
pub open spec fn pre_exec_infos(
    accounts: Seq<Option<AccountState>>,
    writable: Seq<bool>,
) -> Seq<TransactionAccountStateInfo> {
    Seq::new(
        writable.len(),
        |i: int|
            if writable[i] && account_at(accounts, i) is Some {
                Some(pre_exec_info(account_at(accounts, i)->0))
            } else {
                None
            },
    )
}

/// Tells whether every writable account of a message is at hand.
pub fn in_sync(accounts: &[Option<AccountState>], writable: &[bool]) -> (all: bool)
    ensures
        all == is_in_sync(accounts@, writable@),
{
    for i in 0..writable.len()
        invariant
            forall|j: int|
                0 <= j < i && #[trigger] writable@[j] ==> account_at(accounts@, j) is Some,
    {
        if writable[i] && borrow_at(accounts, i).is_none() {
            return false;
        }
    }
    true
}

/// Records the states of a message's accounts before execution. `accounts` holds the
/// transaction's accounts by number, and `writable` tells of each account of the message
/// whether it may be written.
pub fn pre_exec_state_infos(accounts: &[Option<AccountState>], writable: &[bool]) -> (infos: Vec<
    TransactionAccountStateInfo,
>)
    requires
        is_in_sync(accounts@, writable@),
    ensures
        infos@ == pre_exec_infos(accounts@, writable@),
{
    let mut infos: Vec<TransactionAccountStateInfo> = Vec::new();
    for i in 0..writable.len()
        invariant
            is_in_sync(accounts@, writable@),
            infos@ == pre_exec_infos(accounts@, writable@).take(i as int),
    {
        let info: TransactionAccountStateInfo = if writable[i] {
            match borrow_at(accounts, i) {
                Some(account) => {
                    let rent_state = if account.lamports == 0 {
                        RentState::Uninitialized
                    } else {
                        RentState::RentExempt
                    };
                    Some(
                        WritableTransactionAccountStateInfo {
                            rent_state,
                            balance: account.lamports,
                            data_size: account.data_size,
                        },
                    )
                },
                None => None,
            }
        } else {
            None
        };
        infos.push(info);
        assert(infos@ =~= pre_exec_infos(accounts@, writable@).take(i + 1));
    }
    assert(pre_exec_infos(accounts@, writable@).take(writable@.len() as int)
        =~= pre_exec_infos(accounts@, writable@));
    infos
}

// After execution

/// The lesser of two numbers.
pub open spec fn lesser(a: int, b: int) -> int {
    if a <= b {
        a
    } else {
        b
    }
}

/// The balance from which a writable account counts as exempt from rent after execution. It
/// is the minimum balance for the account's size. If the account held lamports before and
/// has not grown, its former balance is enough too.
pub open spec fn required_balance(
    pre: WritableTransactionAccountStateInfo,
    data_size: usize,
    rent: Rent,
) -> int {
    let minimum = rent.minimum_balance_spec(data_size);
    if pre.rent_state != RentState::Uninitialized && data_size <= pre.data_size {
        lesser(pre.balance as int, minimum)
    } else {
        minimum
    }
}

/// The state of a writable account after execution.
pub open spec fn post_exec_info(
    pre: WritableTransactionAccountStateInfo,
    account: AccountState,
    rent: Rent,
) -> WritableTransactionAccountStateInfo {
    WritableTransactionAccountStateInfo {
        rent_state: account_rent_state(
            account.lamports,
            account.data_size,
            required_balance(pre, account.data_size, rent),
        ),
        balance: account.lamports,
        data_size: account.data_size,
    }
}

/// Whether the state after execution can be told of the account at position `i`: if the
/// account is writable and at hand, its state before execution is known and its minimum
/// balance is defined.
pub open spec fn is_ready_at(
    accounts: Seq<Option<AccountState>>,
    pre: Seq<TransactionAccountStateInfo>,
    writable: Seq<bool>,
    rent: Rent,
    i: int,
) -> bool {
    writable[i] && account_at(accounts, i) is Some ==> pre[i] is Some && rent.covers(
        (account_at(accounts, i)->0).data_size,
    )
}

/// Whether the states after execution can be told of all accounts.
pub open spec fn is_ready_for_post_exec(
    accounts: Seq<Option<AccountState>>,
    pre: Seq<TransactionAccountStateInfo>,
    writable: Seq<bool>,
    rent: Rent,
) -> bool {
    forall|i: int|
        0 <= i < writable.len() && i < pre.len() ==> #[trigger] is_ready_at(
            accounts,
            pre,
            writable,
            rent,
            i,
        )
}

/// The states of a message's accounts after execution, as far as `pre` reaches.
pub open spec fn post_exec_infos(
    accounts: Seq<Option<AccountState>>,
    pre: Seq<TransactionAccountStateInfo>,
    writable: Seq<bool>,
    rent: Rent,
) -> Seq<TransactionAccountStateInfo> {
    Seq::new(
        lesser(writable.len() as int, pre.len() as int) as nat,
        |i: int|
            if writable[i] && account_at(accounts, i) is Some {
                Some(post_exec_info(pre[i]->0, account_at(accounts, i)->0, rent))
            } else {
                None
            },
    )
}

/// Tells whether the states after execution can be told of all accounts.
pub fn ready_for_post_exec(
    accounts: &[Option<AccountState>],
    pre_exec_state_infos: &[TransactionAccountStateInfo],
    writable: &[bool],
    rent: &Rent,
) -> (ready: bool)
    ensures
        ready == is_ready_for_post_exec(accounts@, pre_exec_state_infos@, writable@, *rent),
{
    let count = if writable.len() <= pre_exec_state_infos.len() {
        writable.len()
    } else {
        pre_exec_state_infos.len()
    };
    for i in 0..count
        invariant
            count == lesser(writable@.len() as int, pre_exec_state_infos@.len() as int),
            forall|j: int|
                0 <= j < i ==> #[trigger] is_ready_at(
                    accounts@,
                    pre_exec_state_infos@,
                    writable@,
                    *rent,
                    j,
                ),
    {
        let ready = if writable[i] {
            match borrow_at(accounts, i) {
                Some(account) => pre_exec_state_infos[i].is_some() && rent.is_defined_for(
                    account.data_size,
                ),
                None => true,
            }
        } else {
            true
        };
        assert(ready == is_ready_at(
            accounts@,
            pre_exec_state_infos@,
            writable@,
            *rent,
            i as int,
        ));
        if !ready {
            return false;
        }
    }
    true
}

/// Determines the state of a writable account after execution.
pub fn post_exec_state_info(
    pre_exec_state_info: &WritableTransactionAccountStateInfo,
    account: &AccountState,
    rent: &Rent,
) -> (info: WritableTransactionAccountStateInfo)
    requires
        rent.covers(account.data_size),
    ensures
        info == post_exec_info(*pre_exec_state_info, *account, *rent),
{
    // An account that has grown or was created has to hold the full minimum balance. For any
    // other account the balance before execution can also be used as the minimum.
    let mut min_balance = rent.minimum_balance(account.data_size);
    if pre_exec_state_info.rent_state != RentState::Uninitialized && account.data_size
        <= pre_exec_state_info.data_size {
        if pre_exec_state_info.balance < min_balance {
            min_balance = pre_exec_state_info.balance;
        }
    }
    WritableTransactionAccountStateInfo {
        rent_state: get_account_rent_state(account.lamports, account.data_size, min_balance),
        balance: account.lamports,
        data_size: account.data_size,
    }
}

/// Records the states of a message's accounts after execution, as far as
/// `pre_exec_state_infos` reaches. `accounts` holds the transaction's accounts by number, and
/// `writable` tells of each account of the message whether it may be written.
pub fn post_exec_state_infos(
    accounts: &[Option<AccountState>],
    pre_exec_state_infos: &[TransactionAccountStateInfo],
    writable: &[bool],
    rent: &Rent,
) -> (infos: Vec<TransactionAccountStateInfo>)
    requires
        is_ready_for_post_exec(accounts@, pre_exec_state_infos@, writable@, *rent),
    ensures
        infos@ == post_exec_infos(accounts@, pre_exec_state_infos@, writable@, *rent),
{
    let ghost all = post_exec_infos(accounts@, pre_exec_state_infos@, writable@, *rent);
    let count = if writable.len() <= pre_exec_state_infos.len() {
        writable.len()
    } else {
        pre_exec_state_infos.len()
    };
    let mut infos: Vec<TransactionAccountStateInfo> = Vec::new();
    for i in 0..count
        invariant
            count == lesser(writable@.len() as int, pre_exec_state_infos@.len() as int),
            is_ready_for_post_exec(accounts@, pre_exec_state_infos@, writable@, *rent),
            all == post_exec_infos(accounts@, pre_exec_state_infos@, writable@, *rent),
            infos@ == all.take(i as int),
    {
        assert(is_ready_at(accounts@, pre_exec_state_infos@, writable@, *rent, i as int));
        let info: TransactionAccountStateInfo = if writable[i] {
            match (borrow_at(accounts, i), pre_exec_state_infos[i]) {
                (Some(account), Some(pre)) => Some(post_exec_state_info(&pre, &account, rent)),
                _ => None,
            }
        } else {
            None
        };
        infos.push(info);
        assert(infos@ =~= all.take(i + 1));
    }
    assert(all.take(count as int) =~= all);
    infos
}

// Changes between the two

/// Whether the account at position `i` is recorded as writable both before and after
/// execution, and so its change of rent state is to be checked.
pub open spec fn is_checked(
    pre: Seq<TransactionAccountStateInfo>,
    post: Seq<TransactionAccountStateInfo>,
    i: int,
) -> bool {
    0 <= i < pre.len() && i < post.len() && pre[i] is Some && post[i] is Some
}

/// Whether the account at position `i` is to be checked, but the transaction has no such
/// account.
pub open spec fn is_missing(
    pre: Seq<TransactionAccountStateInfo>,
    post: Seq<TransactionAccountStateInfo>,
    keys: Seq<[u8; 32]>,
    i: int,
) -> bool {
    is_checked(pre, post, i) && account_number(i) >= keys.len()
}

/// Whether the account at position `i` has changed its rent state in a way that is not
/// allowed.
pub open spec fn is_violation(
    pre: Seq<TransactionAccountStateInfo>,
    post: Seq<TransactionAccountStateInfo>,
    keys: Seq<[u8; 32]>,
    i: int,
) -> bool {
    is_checked(pre, post, i) && account_number(i) < keys.len() && !is_change_allowed(
        (pre[i]->0).rent_state,
        (post[i]->0).rent_state,
        keys[account_number(i)]@,
    )
}

/// Whether the check of the changes, going through the accounts in order, ends before it
/// comes to a missing account.
pub open spec fn is_decided(
    pre: Seq<TransactionAccountStateInfo>,
    post: Seq<TransactionAccountStateInfo>,
    keys: Seq<[u8; 32]>,
) -> bool {
    forall|i: int| #[trigger]
        is_missing(pre, post, keys, i) ==> exists|j: int|
            j < i && #[trigger] is_violation(pre, post, keys, j)
}

/// Whether position `i` holds the first account that has changed its rent state in a way that
/// is not allowed.
pub open spec fn is_first_violation(
    pre: Seq<TransactionAccountStateInfo>,
    post: Seq<TransactionAccountStateInfo>,
    keys: Seq<[u8; 32]>,
    i: int,
) -> bool {
    is_violation(pre, post, keys, i) && forall|j: int|
        j < i ==> !#[trigger] is_violation(pre, post, keys, j)
}

/// Whether `result` is the verdict on the changes: an error for the first account that has
/// changed its rent state in a way that is not allowed, which names the low byte of its
/// position, and success if there is none.
pub open spec fn is_verdict(
    pre: Seq<TransactionAccountStateInfo>,
    post: Seq<TransactionAccountStateInfo>,
    keys: Seq<[u8; 32]>,
    result: Result<(), TransactionError>,
) -> bool {
    match result {
        Ok(()) => forall|i: int| !#[trigger] is_violation(pre, post, keys, i),
        Err(TransactionError::InsufficientFundsForRent { account_index }) => exists|i: int|
            #[trigger] is_first_violation(pre, post, keys, i) && account_index == i % 256,
    }
}

/// The outcome of the check rests on which positions are missing and which are violations
/// alone.
pub(crate) proof fn lemma_outcome_rests_on_positions(
    pre: Seq<TransactionAccountStateInfo>,
    post: Seq<TransactionAccountStateInfo>,
    keys: Seq<[u8; 32]>,
    other_pre: Seq<TransactionAccountStateInfo>,
    other_post: Seq<TransactionAccountStateInfo>,
    other_keys: Seq<[u8; 32]>,
    result: Result<(), TransactionError>,
)
    requires
        forall|i: int|
            #![trigger is_missing(pre, post, keys, i)]
            #![trigger is_missing(other_pre, other_post, other_keys, i)]
            is_missing(pre, post, keys, i) == is_missing(other_pre, other_post, other_keys, i),
        forall|i: int|
            #![trigger is_violation(pre, post, keys, i)]
            #![trigger is_violation(other_pre, other_post, other_keys, i)]
            is_violation(pre, post, keys, i) == is_violation(
                other_pre,
                other_post,
                other_keys,
                i,
            ),
    ensures
        is_decided(pre, post, keys) == is_decided(other_pre, other_post, other_keys),
        is_verdict(pre, post, keys, result) == is_verdict(
            other_pre,
            other_post,
            other_keys,
            result,
        ),
{
    assert forall|i: int|
        #![trigger is_first_violation(pre, post, keys, i)]
        #![trigger is_first_violation(other_pre, other_post, other_keys, i)]
        is_first_violation(pre, post, keys, i) == is_first_violation(
            other_pre,
            other_post,
            other_keys,
            i,
        ) by {}
}

/// Finds the first position at which the check of the changes comes to an end: either the
/// account is missing, or its change of rent state is not allowed.
fn first_stop(
    pre_state_infos: &[TransactionAccountStateInfo],
    post_state_infos: &[TransactionAccountStateInfo],
    keys: &[[u8; 32]],
) -> (stop: Option<(usize, Option<TransactionError>)>)
    ensures
        match stop {
            Some((i, error)) => {
                &&& match error {
                    Some(TransactionError::InsufficientFundsForRent { account_index }) => {
                        &&& is_violation(pre_state_infos@, post_state_infos@, keys@, i as int)
                        &&& account_index == i % 256
                    },
                    None => is_missing(pre_state_infos@, post_state_infos@, keys@, i as int),
                }
                &&& forall|j: int|
                    j < i ==> !#[trigger] is_missing(
                        pre_state_infos@,
                        post_state_infos@,
                        keys@,
                        j,
                    )
                &&& forall|j: int|
                    j < i ==> !#[trigger] is_violation(
                        pre_state_infos@,
                        post_state_infos@,
                        keys@,
                        j,
                    )
            },
            None => {
                &&& forall|j: int|
                    !#[trigger] is_missing(pre_state_infos@, post_state_infos@, keys@, j)
                &&& forall|j: int|
                    !#[trigger] is_violation(pre_state_infos@, post_state_infos@, keys@, j)
            },
        },
{
    let count = if pre_state_infos.len() <= post_state_infos.len() {
        pre_state_infos.len()
    } else {
        post_state_infos.len()
    };
    for i in 0..count
        invariant
            count == lesser(pre_state_infos@.len() as int, post_state_infos@.len() as int),
            forall|j: int|
                j < i ==> !#[trigger] is_missing(pre_state_infos@, post_state_infos@, keys@, j),
            forall|j: int|
                j < i ==> !#[trigger] is_violation(pre_state_infos@, post_state_infos@, keys@, j),
    {
        if let (Some(pre), Some(post)) = (pre_state_infos[i], post_state_infos[i]) {
            let number = number_of(i);
            if number as usize >= keys.len() {
                return Some((i, None));
            }
            if let Err(error) = check_rent_state(
                &pre.rent_state,
                &post.rent_state,
                &keys[number as usize],
                number,
            ) {
                return Some((i, Some(error)));
            }
        }
    }
    None
}

/// Tells whether the check of the changes ends before it comes to a missing account.
pub fn changes_decided(
    pre_state_infos: &[TransactionAccountStateInfo],
    post_state_infos: &[TransactionAccountStateInfo],
    keys: &[[u8; 32]],
) -> (decided: bool)
    ensures
        decided == is_decided(pre_state_infos@, post_state_infos@, keys@),
{
    let stop = first_stop(pre_state_infos, post_state_infos, keys);
    match stop {
        Some((_, None)) => false,
        _ => true,
    }
}

/// Checks the changes of rent state between `pre_state_infos` and `post_state_infos`, which
/// are matched by position as far as both reach. `keys` holds the addresses of the
/// transaction's accounts by number.
pub fn check_changes(
    pre_state_infos: &[TransactionAccountStateInfo],
    post_state_infos: &[TransactionAccountStateInfo],
    keys: &[[u8; 32]],
) -> (result: Result<(), TransactionError>)
    requires
        is_decided(pre_state_infos@, post_state_infos@, keys@),
    ensures
        is_verdict(pre_state_infos@, post_state_infos@, keys@, result),
{
    let stop = first_stop(pre_state_infos, post_state_infos, keys);
    match stop {
        Some((i, Some(error))) => {
            assert(is_first_violation(
                pre_state_infos@,
                post_state_infos@,
                keys@,
                i as int,
            ));
            Err(error)
        },
        _ => Ok(()),
    }
}

// Deleted accounts

/// What one account adds to the size of the uninitialized accounts.
pub open spec fn uninitialized_size(info: TransactionAccountStateInfo) -> nat {
    match info {
        Some(writable) if writable.rent_state == RentState::Uninitialized => {
            writable.data_size as nat
        },
        _ => 0,
    }
}

/// The cumulative size of all accounts that are uninitialized.
pub open spec fn uninitialized_accounts_size(post: Seq<TransactionAccountStateInfo>) -> nat
    decreases post.len(),
{
    if post.len() == 0 {
        0
    } else {
        uninitialized_accounts_size(post.drop_last()) + uninitialized_size(post.last())
    }
}

/// A longer list of accounts has no smaller size.
proof fn lemma_uninitialized_accounts_size_grows(post: Seq<TransactionAccountStateInfo>, n: int)
    requires
        0 <= n <= post.len(),
    ensures
        uninitialized_accounts_size(post.take(n)) <= uninitialized_accounts_size(post),
    decreases post.len() - n,
{
    if n < post.len() {
        lemma_uninitialized_accounts_size_grows(post, n + 1);
        assert(post.take(n + 1).drop_last() =~= post.take(n));
    } else {
        assert(post.take(n) =~= post);
    }
}

/// Returns the cumulative size of all accounts that are uninitialized after execution.
pub fn get_uninitialized_accounts_size(post: &[TransactionAccountStateInfo]) -> (size: u64)
    requires
        uninitialized_accounts_size(post@) <= u64::MAX,
    ensures
        size == uninitialized_accounts_size(post@),
{
    let mut size: u64 = 0;
    for i in 0..post.len()
        invariant
            uninitialized_accounts_size(post@) <= u64::MAX,
            size == uninitialized_accounts_size(post@.take(i as int)),
    {
        proof {
            lemma_uninitialized_accounts_size_grows(post@, i + 1);
            assert(post@.take(i + 1).drop_last() =~= post@.take(i as int));
        }
        if let Some(info) = post[i] {
            if info.rent_state == RentState::Uninitialized {
                size = size + info.data_size as u64;
            }
        }
    }
    assert(post@.take(post@.len() as int) =~= post@);
    size
}

} // verus!
