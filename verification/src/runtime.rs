//! The account states of a live transaction: what is recorded of it before and after
//! execution, read from its transaction context and its message.
use crate::rent::Rent;
use crate::rent_calculator::TransactionError;
use crate::transaction_account_state_info::{
    changes_decided, check_changes, in_sync, is_decided, is_in_sync,
    is_ready_for_post_exec, is_verdict, lemma_outcome_rests_on_positions, lesser,
    post_exec_infos, post_exec_state_infos, pre_exec_infos, pre_exec_state_infos,
    ready_for_post_exec, AccountState, TransactionAccountStateInfo,
};
use solana_account::ReadableAccount;
use solana_message::SanitizedMessage;
use solana_svm_transaction::svm_message::SVMMessage;
use solana_transaction_context::transaction::TransactionContext;
use vstd::prelude::*;

verus! {

/// The accounts of a transaction while it is processed.
#[verifier::external_type_specification]
#[verifier::external_body]
pub struct ExTransactionContext<'ix_data>(TransactionContext<'ix_data>);

/// The message of a transaction.
#[verifier::external_type_specification]
#[verifier::external_body]
pub struct ExSanitizedMessage(SanitizedMessage);

/// The addresses of the accounts that a context holds, by number. They are set when the
/// context is made and stay as they are.
pub uninterp spec fn context_keys(context: TransactionContext<'_>) -> Seq<[u8; 32]>;

/// The attempts to borrow an account of a context, each as a pair of the account's number and
/// what comes of the attempt at some time: the state that the account is in, or `None` if the
/// attempt fails. Accounts change and are held by others while the transaction is executed, so
/// that one number may come with several outcomes.
pub uninterp spec fn context_attempts(context: TransactionContext<'_>) -> Set<
    (int, Option<AccountState>),
>;

/// Of each account of a message, whether the message may write it.
pub uninterp spec fn message_writable(message: SanitizedMessage) -> Seq<bool>;

/// Calls `TransactionContext::get_key_of_account_at_index`.
///
/// Trusted: the call returns the address of the account with this number, and an error if
/// and only if the context holds no such account.
#[verifier::external_body]
fn context_key(context: &TransactionContext<'_>, number: u16) -> (key: Option<[u8; 32]>)
    ensures
        key == if number < context_keys(*context).len() {
            Some(context_keys(*context)[number as int])
        } else {
            None
        },
{
    context.get_key_of_account_at_index(number).ok().map(|key| key.to_bytes())
}

/// Calls `TransactionAccounts::try_borrow` on a context's accounts, and reads the lamports and
/// the length of the data of the account that was borrowed.
///
/// Trusted: what is returned came of an attempt to borrow the account with this number. It is
/// the state that the account is in, or `None` if the attempt failed, and it always fails if
/// the context holds no such account. The attempt also fails while the account is borrowed for
/// writing or borrowed too often, which rests on who else holds the account at the time: the
/// contract does not say when the attempt succeeds, nor which of its states the account is in.
#[verifier::external_body]
fn context_account(context: &TransactionContext<'_>, number: u16) -> (account: Option<
    AccountState,
>)
    ensures
        account is Some ==> number < context_keys(*context).len(),
        context_attempts(*context).contains((number as int, account)),
{
    match context.accounts().try_borrow(number) {
        Ok(account) => Some(
            AccountState { lamports: account.lamports(), data_size: account.data().len() },
        ),
        Err(_) => None,
    }
}

/// Calls `SVMMessage::account_keys` and takes the number of keys.
///
/// Trusted: the number of a message's accounts is the call's result.
#[verifier::external_body]
fn message_account_count(message: &SanitizedMessage) -> (count: usize)
    ensures
        count == message_writable(*message).len(),
{
    SVMMessage::account_keys(message).len()
}

/// Calls `SVMMessage::is_writable`.
///
/// Trusted: the call tells of the account at this position whether the message may write it.
#[verifier::external_body]
fn message_is_writable(message: &SanitizedMessage, position: usize) -> (writable: bool)
    requires
        position < message_writable(*message).len(),
    ensures
        writable == message_writable(*message)[position as int],
{
    SVMMessage::is_writable(message, position)
}

/// How many of the accounts that a context holds can be told apart by number.
pub open spec fn numbered_accounts(context: TransactionContext<'_>) -> int {
    lesser(context_keys(context).len() as int, 0x1_0000)
}

/// Whether `accounts` holds what came of an attempt to borrow each account of a context.
pub open spec fn is_snapshot(
    context: TransactionContext<'_>,
    accounts: Seq<Option<AccountState>>,
) -> bool {
    &&& accounts.len() == numbered_accounts(context)
    &&& forall|n: int|
        0 <= n < accounts.len() ==> context_attempts(context).contains((n, #[trigger] accounts[n]))
}

/// Attempts to borrow each account of a context, and takes down its state.
pub fn snapshot(context: &TransactionContext<'_>) -> (accounts: Vec<Option<AccountState>>)
    ensures
        is_snapshot(*context, accounts@),
{
    let mut accounts: Vec<Option<AccountState>> = Vec::new();
    for number in 0..0x1_0000usize
        invariant_except_break
            accounts@.len() == number,
        invariant
            number <= 0x1_0000,
            accounts@.len() <= context_keys(*context).len(),
            forall|n: int|
                0 <= n < accounts@.len() ==> context_attempts(*context).contains(
                    (n, #[trigger] accounts@[n]),
                ),
        ensures
            accounts@.len() == numbered_accounts(*context),
    {
        if context_key(context, number as u16).is_none() {
            break;
        }
        accounts.push(context_account(context, number as u16));
    }
    accounts
}

/// Takes down the addresses of the accounts of a context.
pub fn account_keys(context: &TransactionContext<'_>) -> (keys: Vec<[u8; 32]>)
    ensures
        keys@ == context_keys(*context).take(numbered_accounts(*context)),
{
    let mut keys: Vec<[u8; 32]> = Vec::new();
    for number in 0..0x1_0000usize
        invariant_except_break
            keys@.len() == number,
        invariant
            number <= 0x1_0000,
            keys@.len() <= context_keys(*context).len(),
            keys@ == context_keys(*context).take(keys@.len() as int),
        ensures
            keys@.len() == numbered_accounts(*context),
    {
        match context_key(context, number as u16) {
            Some(key) => {
                keys.push(key);
                assert(keys@ =~= context_keys(*context).take(keys@.len() as int));
            },
            None => break,
        }
    }
    keys
}

/// Takes down of each account of a message whether the message may write it.
pub fn writable_accounts(message: &SanitizedMessage) -> (writable: Vec<bool>)
    ensures
        writable@ == message_writable(*message),
{
    let count = message_account_count(message);
    let mut writable: Vec<bool> = Vec::new();
    for position in 0..count
        invariant
            count == message_writable(*message).len(),
            writable@ == message_writable(*message).take(position as int),
    {
        writable.push(message_is_writable(message, position));
        assert(writable@ =~= message_writable(*message).take(position + 1));
    }
    assert(message_writable(*message).take(count as int) =~= message_writable(*message));
    writable
}

/// Records the states of the accounts of `message` before execution. Returns `None` if a
/// writable account is not at hand: message and transaction context are out of sync, which is
/// fatal to the transaction's processing.
pub fn new_pre_exec(transaction_context: &TransactionContext<'_>, message: &SanitizedMessage) -> (
infos: Option<Vec<TransactionAccountStateInfo>>)
    ensures
        exists|accounts: Seq<Option<AccountState>>| #[trigger]
            is_snapshot(*transaction_context, accounts) && match infos {
                Some(infos) => is_in_sync(accounts, message_writable(*message)) && infos@
                    == pre_exec_infos(accounts, message_writable(*message)),
                None => !is_in_sync(accounts, message_writable(*message)),
            },
        (forall|i: int|
            0 <= i < message_writable(*message).len() ==> !#[trigger] message_writable(*message)[i])
            ==> infos is Some,
        forall|i: int|
            0 <= i < message_writable(*message).len() && #[trigger] message_writable(*message)[i]
                && i % 0x1_0000 >= context_keys(*transaction_context).len()
                ==> infos is None,
{
    let accounts = snapshot(transaction_context);
    let writable = writable_accounts(message);
    if in_sync(&accounts, &writable) {
        Some(pre_exec_state_infos(&accounts, &writable))
    } else {
        None
    }
}

/// Records the states of the accounts of `message` after execution, as far as
/// `pre_exec_state_infos` reaches. Returns `None` if the state before execution is not known
/// of a writable account that is at hand, or `rent` defines no minimum balance for its size.
pub fn new_post_exec(
    transaction_context: &TransactionContext<'_>,
    pre_exec_state_infos: &[TransactionAccountStateInfo],
    message: &SanitizedMessage,
    rent: &Rent,
) -> (infos: Option<Vec<TransactionAccountStateInfo>>)
    ensures
        exists|accounts: Seq<Option<AccountState>>| #[trigger]
            is_snapshot(*transaction_context, accounts) && match infos {
                Some(infos) => is_ready_for_post_exec(
                    accounts,
                    pre_exec_state_infos@,
                    message_writable(*message),
                    *rent,
                ) && infos@ == post_exec_infos(
                    accounts,
                    pre_exec_state_infos@,
                    message_writable(*message),
                    *rent,
                ),
                None => !is_ready_for_post_exec(
                    accounts,
                    pre_exec_state_infos@,
                    message_writable(*message),
                    *rent,
                ),
            },
        (forall|i: int|
            0 <= i < message_writable(*message).len() ==> !#[trigger] message_writable(*message)[i])
            ==> infos is Some,
{
    let accounts = snapshot(transaction_context);
    let writable = writable_accounts(message);
    if ready_for_post_exec(&accounts, pre_exec_state_infos, &writable, rent) {
        Some(post_exec_state_infos(&accounts, pre_exec_state_infos, &writable, rent))
    } else {
        None
    }
}

/// Checks the changes of rent state between `pre_state_infos` and `post_state_infos`. Returns
/// `None` if the check comes to an account that the context does not hold.
pub fn verify_changes(
    pre_state_infos: &[TransactionAccountStateInfo],
    post_state_infos: &[TransactionAccountStateInfo],
    transaction_context: &TransactionContext<'_>,
) -> (verdict: Option<Result<(), TransactionError>>)
    ensures
        match verdict {
            Some(result) => is_decided(
                pre_state_infos@,
                post_state_infos@,
                context_keys(*transaction_context),
            ) && is_verdict(
                pre_state_infos@,
                post_state_infos@,
                context_keys(*transaction_context),
                result,
            ),
            None => !is_decided(
                pre_state_infos@,
                post_state_infos@,
                context_keys(*transaction_context),
            ),
        },
{
    let keys = account_keys(transaction_context);
    let ghost all_keys = context_keys(*transaction_context);
    proof {
        lemma_outcome_rests_on_positions(
            pre_state_infos@,
            post_state_infos@,
            keys@,
            pre_state_infos@,
            post_state_infos@,
            all_keys,
            Ok(()),
        );
    }
    if changes_decided(pre_state_infos, post_state_infos, &keys) {
        let result = check_changes(pre_state_infos, post_state_infos, &keys);
        proof {
            lemma_outcome_rests_on_positions(
                pre_state_infos@,
                post_state_infos@,
                keys@,
                pre_state_infos@,
                post_state_infos@,
                all_keys,
                result,
            );
        }
        Some(result)
    } else {
        None
    }
}

} // verus!
