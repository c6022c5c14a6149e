//! Account states recorded from live transaction contexts and messages.
use account_state_info::rent::Rent as LibraryRent;
use account_state_info::rent_calculator::{RentState, TransactionError};
use account_state_info::runtime::{
    account_keys, new_post_exec, new_pre_exec, snapshot, verify_changes, writable_accounts,
};
use account_state_info::transaction_account_state_info::{
    get_uninitialized_accounts_size, AccountState, TransactionAccountStateInfo,
    WritableTransactionAccountStateInfo,
};
use solana_account::{AccountSharedData, WritableAccount};
use solana_keypair::Keypair;
use solana_message::compiled_instruction::CompiledInstruction;
use solana_message::{LegacyMessage, Message, MessageHeader, SanitizedMessage};
use solana_pubkey::Pubkey;
use solana_rent::Rent;
use solana_signer::Signer;
use solana_transaction_context::transaction::TransactionContext;
use std::collections::HashSet;

fn sanitized_msg_for(key1: Pubkey, key2: Pubkey, key4: Pubkey) -> SanitizedMessage {
    sanitized_msg_of(vec![key2, key1, key4])
}

fn sanitized_msg_of(account_keys: Vec<Pubkey>) -> SanitizedMessage {
    let message = Message {
        account_keys,
        header: MessageHeader::default(),
        instructions: vec![
            CompiledInstruction {
                program_id_index: 1,
                accounts: vec![0],
                data: vec![],
            },
            CompiledInstruction {
                program_id_index: 1,
                accounts: vec![2],
                data: vec![],
            },
        ],
        recent_blockhash: solana_hash::Hash::default(),
    };
    SanitizedMessage::Legacy(LegacyMessage::new(message, &HashSet::new()))
}

fn accounts_key2_first(
    key1: Pubkey,
    key2: Pubkey,
    key3: Pubkey,
    acc2: AccountSharedData,
) -> Vec<(Pubkey, AccountSharedData)> {
    vec![
        (key2, acc2),
        (key1, AccountSharedData::default()),
        (key3, AccountSharedData::default()),
    ]
}

fn ctx_from(accounts: Vec<(Pubkey, AccountSharedData)>, rent: &Rent) -> TransactionContext<'_> {
    TransactionContext::new(accounts, rent.clone(), 20, 20, 1)
}

#[allow(deprecated)]
fn library_rent(rent: &Rent) -> LibraryRent {
    LibraryRent {
        lamports_per_byte: rent.lamports_per_byte,
        exemption_threshold: rent.exemption_threshold,
    }
}

fn is_rent_exempt(v: &TransactionAccountStateInfo) -> bool {
    matches!(
        v,
        Some(WritableTransactionAccountStateInfo {
            rent_state: RentState::RentExempt,
            ..
        })
    )
}

fn is_rent_paying(v: &TransactionAccountStateInfo) -> bool {
    matches!(
        v,
        Some(WritableTransactionAccountStateInfo {
            rent_state: RentState::RentPaying { .. },
            ..
        })
    )
}

#[test]
fn test_pre_exec_basics() {
    let rent = Rent::default();
    let key1 = Keypair::new();
    let key2 = Keypair::new();
    let key3 = Keypair::new();
    let key4 = Keypair::new();

    let sanitized_message = sanitized_msg_for(key1.pubkey(), key2.pubkey(), key4.pubkey());

    let transaction_accounts = vec![
        (key1.pubkey(), AccountSharedData::default()),
        (key2.pubkey(), AccountSharedData::default()),
        (key3.pubkey(), AccountSharedData::default()),
    ];

    let context = TransactionContext::new(transaction_accounts, rent.clone(), 20, 20, 1);
    let result = new_pre_exec(&context, &sanitized_message).unwrap();
    assert_eq!(
        result,
        vec![
            Some(WritableTransactionAccountStateInfo {
                rent_state: RentState::Uninitialized,
                balance: 0,
                data_size: 0,
            }),
            None,
            Some(WritableTransactionAccountStateInfo {
                rent_state: RentState::Uninitialized,
                balance: 0,
                data_size: 0,
            }),
        ]
    );

    // no post-exec in this test
}

#[test]
#[should_panic(expected = "message and transaction context out of sync, fatal")]
fn test_new_panic() {
    let rent = Rent::default();
    let key1 = Keypair::new();
    let key2 = Keypair::new();
    let key3 = Keypair::new();
    let key4 = Keypair::new();

    let sanitized_message = sanitized_msg_of(vec![
        key2.pubkey(),
        key1.pubkey(),
        key4.pubkey(),
        key3.pubkey(),
    ]);

    let transaction_accounts = vec![
        (key1.pubkey(), AccountSharedData::default()),
        (key2.pubkey(), AccountSharedData::default()),
        (key3.pubkey(), AccountSharedData::default()),
    ];

    let context = TransactionContext::new(transaction_accounts, rent.clone(), 20, 20, 1);
    let _result = new_pre_exec(&context, &sanitized_message)
        .expect("message and transaction context out of sync, fatal");
}

#[test]
fn missing_writable_account_is_out_of_sync() {
    let rent = Rent::default();
    let keys: Vec<Pubkey> = (0..4).map(|_| Keypair::new().pubkey()).collect();
    let message = sanitized_msg_of(keys.clone());
    let accounts = vec![
        (keys[0], AccountSharedData::default()),
        (keys[1], AccountSharedData::default()),
        (keys[2], AccountSharedData::default()),
    ];
    let context = ctx_from(accounts, &rent);
    assert_eq!(new_pre_exec(&context, &message), None);
    // After execution an account that cannot be borrowed is passed over.
    let infos = vec![None, None, None, None];
    assert_eq!(
        new_post_exec(&context, &infos[3..], &message, &library_rent(&rent)),
        None
    );
    let known = Some(WritableTransactionAccountStateInfo {
        rent_state: RentState::RentExempt,
        balance: 1,
        data_size: 0,
    });
    let post = new_post_exec(
        &context,
        &[known, known, known, known],
        &message,
        &library_rent(&rent),
    )
    .unwrap();
    assert_eq!(post.len(), 4);
    assert!(post[0].is_some());
    assert!(post[1].is_none());
    assert!(post[2].is_some());
    assert!(post[3].is_none());
}

#[test]
fn test_post_exec_unchanged_size_allows_pre_balance() {
    let rent = Rent::default();
    let key1 = Keypair::new();
    let key2 = Keypair::new();
    let key3 = Keypair::new();
    let key4 = Keypair::new();

    let data_len: usize = 64;
    let min_full = rent.minimum_balance(data_len);
    let pre_balance = min_full.saturating_sub(5); // less than full rent-exempt, but > 0

    let sanitized_message = sanitized_msg_for(key1.pubkey(), key2.pubkey(), key4.pubkey());
    let tx_accounts = accounts_key2_first(
        key1.pubkey(),
        key2.pubkey(),
        key3.pubkey(),
        AccountSharedData::new(pre_balance, data_len, &Pubkey::default()),
    );
    let context = ctx_from(tx_accounts, &rent);
    let pre = new_pre_exec(&context, &sanitized_message).unwrap();
    let post = new_post_exec(&context, &pre, &sanitized_message, &library_rent(&rent)).unwrap();

    // account index 0 in message is key2; expect RentExempt due to grace
    assert!(is_rent_exempt(&post[0]));
    assert!(post[1].is_none());
    assert_eq!(verify_changes(&pre, &post, &context), Some(Ok(())));
}

#[test]
fn test_post_exec_unchanged_size_violation() {
    let rent = Rent::default();
    let key1 = Keypair::new();
    let key2 = Keypair::new();
    let key3 = Keypair::new();
    let key4 = Keypair::new();

    let data_len: usize = 64;
    let min_full = rent.minimum_balance(data_len);
    let pre_balance = min_full.saturating_sub(5);

    let sanitized_message = sanitized_msg_for(key1.pubkey(), key2.pubkey(), key4.pubkey());
    let mut tx_accounts = accounts_key2_first(
        key1.pubkey(),
        key2.pubkey(),
        key3.pubkey(),
        AccountSharedData::new(pre_balance, data_len, &Pubkey::default()),
    );
    let context_pre = TransactionContext::new(tx_accounts.clone(), rent.clone(), 20, 20, 1);
    let pre = new_pre_exec(&context_pre, &sanitized_message).unwrap();

    // post: drop balance by 1 (below minimum balance)
    let post_balance = pre_balance.saturating_sub(1);
    tx_accounts[0].1.set_lamports(post_balance);

    let context_post = TransactionContext::new(tx_accounts, rent.clone(), 20, 20, 1);
    let post = new_post_exec(&context_post, &pre, &sanitized_message, &library_rent(&rent)).unwrap();

    assert!(is_rent_paying(&post[0]));

    // verify_changes should flag InsufficientFundsForRent
    let res = verify_changes(&pre, &post, &context_post).unwrap();
    assert_eq!(
        res.err(),
        Some(TransactionError::InsufficientFundsForRent { account_index: 0 })
    );
}

#[test]
fn test_post_exec_size_changed_requires_full_min() {
    let rent = Rent::default();
    let key1 = Keypair::new();
    let key2 = Keypair::new();
    let key3 = Keypair::new();
    let key4 = Keypair::new();

    let pre_len: usize = 32;
    let post_len: usize = 256; // larger size => larger full min
    let pre_min = rent.minimum_balance(pre_len);
    let pre_balance = pre_min.saturating_sub(1);

    let sanitized_message = sanitized_msg_for(key1.pubkey(), key2.pubkey(), key4.pubkey());

    let tx_accounts_pre = accounts_key2_first(
        key1.pubkey(),
        key2.pubkey(),
        key3.pubkey(),
        AccountSharedData::new(pre_balance, pre_len, &Pubkey::default()),
    );
    let context_pre = TransactionContext::new(tx_accounts_pre, rent.clone(), 20, 20, 1);
    let pre = new_pre_exec(&context_pre, &sanitized_message).unwrap();

    // post: size increased; balance unchanged => should require full min for new size
    let tx_accounts_post = accounts_key2_first(
        key1.pubkey(),
        key2.pubkey(),
        key3.pubkey(),
        AccountSharedData::new(pre_balance, post_len, &Pubkey::default()),
    );
    let context_post = TransactionContext::new(tx_accounts_post, rent.clone(), 20, 20, 1);
    let post = new_post_exec(&context_post, &pre, &sanitized_message, &library_rent(&rent)).unwrap();

    assert!(is_rent_paying(&post[0]));
    let res = verify_changes(&pre, &post, &context_post).unwrap();
    assert_eq!(
        res.err(),
        Some(TransactionError::InsufficientFundsForRent { account_index: 0 })
    );
}

#[test]
fn test_verify_changes() {
    let key1 = Keypair::new();
    let key2 = Keypair::new();
    let pre_rent_state = vec![
        Some(WritableTransactionAccountStateInfo {
            rent_state: RentState::Uninitialized,
            balance: 0,
            data_size: 0,
        }),
        Some(WritableTransactionAccountStateInfo {
            rent_state: RentState::Uninitialized,
            balance: 0,
            data_size: 0,
        }),
    ];
    let post_rent_state = vec![Some(WritableTransactionAccountStateInfo {
        rent_state: RentState::Uninitialized,
        balance: 0,
        data_size: 0,
    })];

    let transaction_accounts = vec![
        (key1.pubkey(), AccountSharedData::default()),
        (key2.pubkey(), AccountSharedData::default()),
    ];

    let context = TransactionContext::new(transaction_accounts, Rent::default(), 20, 20, 1);

    let result = verify_changes(&pre_rent_state, &post_rent_state, &context).unwrap();
    assert!(result.is_ok());

    let pre_rent_state = vec![Some(WritableTransactionAccountStateInfo {
        rent_state: RentState::Uninitialized,
        balance: 0,
        data_size: 0,
    })];
    let post_rent_state = vec![Some(WritableTransactionAccountStateInfo {
        rent_state: RentState::RentPaying {
            data_size: 2,
            lamports: 5,
        },
        balance: 0,
        data_size: 0,
    })];

    let transaction_accounts = vec![
        (key1.pubkey(), AccountSharedData::default()),
        (key2.pubkey(), AccountSharedData::default()),
    ];

    let context = TransactionContext::new(transaction_accounts, Rent::default(), 20, 20, 1);
    let result = verify_changes(&pre_rent_state, &post_rent_state, &context).unwrap();
    assert_eq!(
        result.err(),
        Some(TransactionError::InsufficientFundsForRent { account_index: 0 })
    );
}

#[test]
fn test_get_uninitialized_accounts_size_with_deleted_accounts() {
    let post_state_infos = vec![
        Some(WritableTransactionAccountStateInfo {
            rent_state: RentState::Uninitialized,
            data_size: 50,
            balance: 0,
        }),
        Some(WritableTransactionAccountStateInfo {
            rent_state: RentState::Uninitialized,
            data_size: 50,
            balance: 0,
        }),
        Some(WritableTransactionAccountStateInfo {
            rent_state: RentState::Uninitialized,
            data_size: 50,
            balance: 0,
        }),
    ];

    // 3 deleted accounts should contribute 3 * (50) = 150 to the count
    assert_eq!(get_uninitialized_accounts_size(&post_state_infos), 150);
}

#[test]
fn context_is_read_account_by_account() {
    let rent = Rent::default();
    let key1 = Keypair::new().pubkey();
    let key2 = Keypair::new().pubkey();
    let context = ctx_from(
        vec![
            (key1, AccountSharedData::new(7, 3, &Pubkey::default())),
            (key2, AccountSharedData::new(11, 5, &Pubkey::default())),
        ],
        &rent,
    );
    assert_eq!(account_keys(&context), vec![key1.to_bytes(), key2.to_bytes()]);
    assert_eq!(
        snapshot(&context),
        vec![
            Some(AccountState { lamports: 7, data_size: 3 }),
            Some(AccountState { lamports: 11, data_size: 5 }),
        ]
    );
}

#[test]
fn account_that_cannot_be_borrowed_is_not_at_hand() {
    let rent = Rent::default();
    let keys: Vec<Pubkey> = (0..3).map(|_| Keypair::new().pubkey()).collect();
    let message = sanitized_msg_of(keys.clone());
    let context = ctx_from(
        keys.iter()
            .map(|key| (*key, AccountSharedData::new(9, 1, &Pubkey::default())))
            .collect(),
        &rent,
    );
    let pre = new_pre_exec(&context, &message).unwrap();
    // An account can be borrowed for reading only so often at a time.
    let mut held = Vec::new();
    while let Ok(account) = context.accounts().try_borrow(0) {
        held.push(account);
    }
    let nine = Some(AccountState { lamports: 9, data_size: 1 });
    assert_eq!(snapshot(&context), vec![None, nine, nine]);
    assert_eq!(new_pre_exec(&context, &message), None);
    let post = new_post_exec(&context, &pre, &message, &library_rent(&rent)).unwrap();
    assert!(post[0].is_none());
    assert!(is_rent_exempt(&post[2]));
    drop(held);
    assert_eq!(snapshot(&context), vec![nine, nine, nine]);
    assert_eq!(new_pre_exec(&context, &message), Some(pre.clone()));
    let post = new_post_exec(&context, &pre, &message, &library_rent(&rent)).unwrap();
    assert!(is_rent_exempt(&post[0]));
}

#[test]
fn message_tells_which_accounts_it_may_write() {
    let keys: Vec<Pubkey> = (0..5).map(|_| Keypair::new().pubkey()).collect();
    let mut message = Message {
        account_keys: keys,
        header: MessageHeader::default(),
        instructions: vec![],
        recent_blockhash: solana_hash::Hash::default(),
    };
    message.header.num_required_signatures = 2;
    message.header.num_readonly_signed_accounts = 1;
    message.header.num_readonly_unsigned_accounts = 2;
    let message = SanitizedMessage::Legacy(LegacyMessage::new(message, &HashSet::new()));
    assert_eq!(
        writable_accounts(&message),
        vec![true, false, true, false, false]
    );
}

#[test]
fn incinerator_may_be_left_underfunded() {
    let rent = Rent::default();
    let empty = Some(WritableTransactionAccountStateInfo {
        rent_state: RentState::Uninitialized,
        balance: 0,
        data_size: 0,
    });
    let paying = Some(WritableTransactionAccountStateInfo {
        rent_state: RentState::RentPaying { lamports: 5, data_size: 2 },
        balance: 5,
        data_size: 2,
    });
    let key = Keypair::new().pubkey();
    let context = ctx_from(
        vec![
            (solana_sdk_ids::incinerator::id(), AccountSharedData::default()),
            (key, AccountSharedData::default()),
        ],
        &rent,
    );
    assert_eq!(
        verify_changes(&[empty], &[paying], &context),
        Some(Ok(()))
    );
    assert_eq!(
        verify_changes(&[empty, empty], &[paying, paying], &context),
        Some(Err(TransactionError::InsufficientFundsForRent { account_index: 1 }))
    );
}

#[test]
fn check_that_comes_to_a_missing_account_is_not_decided() {
    let rent = Rent::default();
    let empty = Some(WritableTransactionAccountStateInfo {
        rent_state: RentState::Uninitialized,
        balance: 0,
        data_size: 0,
    });
    let paying = Some(WritableTransactionAccountStateInfo {
        rent_state: RentState::RentPaying { lamports: 5, data_size: 2 },
        balance: 5,
        data_size: 2,
    });
    let context = ctx_from(
        vec![(Keypair::new().pubkey(), AccountSharedData::default())],
        &rent,
    );
    assert_eq!(
        verify_changes(&[empty, empty], &[empty, empty], &context),
        None
    );
    // An account that is read-only on either side is not looked up.
    assert_eq!(
        verify_changes(&[empty, None], &[empty, empty], &context),
        Some(Ok(()))
    );
    // The check ends at the first account that is refused.
    assert_eq!(
        verify_changes(&[empty, empty], &[paying, empty], &context),
        Some(Err(TransactionError::InsufficientFundsForRent { account_index: 0 }))
    );
}
