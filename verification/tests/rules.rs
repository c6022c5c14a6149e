//! The rules on plain values.
use account_state_info::rent::Rent;
use account_state_info::rent_calculator::{
    check_rent_state, get_account_rent_state, transition_allowed, RentState, TransactionError,
};
use account_state_info::transaction_account_state_info::{
    changes_decided, check_changes, get_uninitialized_accounts_size, in_sync,
    post_exec_state_info, post_exec_state_infos, pre_exec_state_infos, ready_for_post_exec,
    AccountState, TransactionAccountStateInfo, WritableTransactionAccountStateInfo,
};

const ONE: [u8; 8] = [0, 0, 0, 0, 0, 0, 240, 63];
const TWO: [u8; 8] = [0, 0, 0, 0, 0, 0, 0, 64];

fn rent(lamports_per_byte: u64, exemption_threshold: [u8; 8]) -> Rent {
    Rent { lamports_per_byte, exemption_threshold }
}

fn account(lamports: u64, data_size: usize) -> AccountState {
    AccountState { lamports, data_size }
}

fn info(rent_state: RentState, balance: u64, data_size: usize) -> WritableTransactionAccountStateInfo {
    WritableTransactionAccountStateInfo { rent_state, balance, data_size }
}

/// The least balance with which a new account of this size is exempt.
fn least_exempt_balance(rent: &Rent, data_size: usize, at: u64) -> bool {
    let created = info(RentState::Uninitialized, 0, 0);
    let below = post_exec_state_info(&created, &account(at - 1, data_size), rent);
    let exact = post_exec_state_info(&created, &account(at, data_size), rent);
    below.rent_state == RentState::RentPaying { lamports: at - 1, data_size }
        && exact.rent_state == RentState::RentExempt
}

#[test]
fn incinerator_address_has_these_bytes() {
    assert_eq!(
        solana_sdk_ids::incinerator::id().to_bytes(),
        [
            0, 51, 144, 114, 141, 52, 17, 96, 121, 189, 201, 17, 191, 255, 0, 219, 212, 77, 46,
            205, 204, 247, 156, 166, 225, 0, 56, 225, 0, 0, 0, 0
        ]
    );
}

#[test]
fn minimum_balance_follows_rate_threshold_and_size() {
    // (128 + 64) * 6960
    assert!(least_exempt_balance(&rent(6_960, ONE), 64, 1_336_320));
    // 2 * (128 + 64) * 3480
    assert!(least_exempt_balance(&rent(3_480, TWO), 64, 1_336_320));
    // (128 + 72) * 100 * 2.5
    assert!(least_exempt_balance(&rent(100, 2.5f64.to_le_bytes()), 72, 50_000));
    // (128 + 10 MiB) * 1759197129867
    assert!(least_exempt_balance(
        &rent(1_759_197_129_867, ONE),
        10_485_760,
        10_485_888 * 1_759_197_129_867
    ));
}

#[test]
fn minimum_balance_is_not_defined_everywhere() {
    assert!(rent(6_960, ONE).is_defined_for(10_485_760));
    assert!(!rent(6_960, ONE).is_defined_for(10_485_761));
    assert!(rent(1_759_197_129_867, ONE).is_defined_for(0));
    assert!(!rent(1_759_197_129_868, ONE).is_defined_for(0));
    assert!(rent(879_598_564_933, TWO).is_defined_for(0));
    assert!(!rent(879_598_564_934, TWO).is_defined_for(0));
    let other = 2.5f64.to_le_bytes();
    assert!(rent(u64::MAX / 128, other).is_defined_for(0));
    assert!(!rent(u64::MAX / 128 + 1, other).is_defined_for(0));
}

#[test]
fn rent_state_follows_balance() {
    assert_eq!(get_account_rent_state(0, 9, 0), RentState::Uninitialized);
    assert_eq!(get_account_rent_state(0, 9, 5), RentState::Uninitialized);
    assert_eq!(
        get_account_rent_state(4, 9, 5),
        RentState::RentPaying { lamports: 4, data_size: 9 }
    );
    assert_eq!(get_account_rent_state(5, 9, 5), RentState::RentExempt);
    assert_eq!(get_account_rent_state(1, 9, 0), RentState::RentExempt);
}

#[test]
fn transitions() {
    let empty = RentState::Uninitialized;
    let exempt = RentState::RentExempt;
    let paying = RentState::RentPaying { lamports: 5, data_size: 2 };
    for pre in [empty, exempt, paying] {
        assert!(transition_allowed(&pre, &empty));
        assert!(transition_allowed(&pre, &exempt));
    }
    assert!(!transition_allowed(&empty, &paying));
    assert!(!transition_allowed(&exempt, &paying));
    assert!(transition_allowed(&paying, &paying));
    assert!(transition_allowed(&paying, &RentState::RentPaying { lamports: 4, data_size: 2 }));
    assert!(!transition_allowed(&paying, &RentState::RentPaying { lamports: 6, data_size: 2 }));
    assert!(!transition_allowed(&paying, &RentState::RentPaying { lamports: 5, data_size: 1 }));
}

#[test]
fn refused_change_names_the_low_byte_of_the_index() {
    let paying = RentState::RentPaying { lamports: 5, data_size: 2 };
    assert_eq!(
        check_rent_state(&RentState::RentExempt, &paying, &[7; 32], 258),
        Err(TransactionError::InsufficientFundsForRent { account_index: 2 })
    );
    assert_eq!(
        check_rent_state(
            &RentState::RentExempt,
            &paying,
            &solana_sdk_ids::incinerator::id().to_bytes(),
            258
        ),
        Ok(())
    );
    assert_eq!(check_rent_state(&paying, &RentState::RentExempt, &[7; 32], 0), Ok(()));
}

#[test]
fn states_before_execution() {
    let accounts = [Some(account(0, 4)), Some(account(1, 5)), None];
    assert!(in_sync(&accounts, &[true, true, false]));
    assert_eq!(
        pre_exec_state_infos(&accounts, &[true, true, false]),
        vec![
            Some(info(RentState::Uninitialized, 0, 4)),
            Some(info(RentState::RentExempt, 1, 5)),
            None
        ]
    );
    assert_eq!(
        pre_exec_state_infos(&accounts, &[false, true]),
        vec![None, Some(info(RentState::RentExempt, 1, 5))]
    );
    assert!(!in_sync(&accounts, &[false, false, true]));
    assert!(!in_sync(&accounts, &[false, false, false, true]));
    assert!(in_sync(&[], &[]));
    assert!(pre_exec_state_infos(&[], &[]).is_empty());
}

#[test]
fn position_is_taken_modulo_the_number_of_account_numbers() {
    let accounts = [Some(account(3, 4))];
    let mut writable = vec![false; 65_537];
    writable[65_536] = true;
    assert!(in_sync(&accounts, &writable));
    let pre = pre_exec_state_infos(&accounts, &writable);
    assert_eq!(pre[65_536], Some(info(RentState::RentExempt, 3, 4)));
    writable[65_535] = true;
    assert!(!in_sync(&accounts, &writable));
}

#[test]
fn states_after_execution() {
    let rent = rent(10, ONE); // 1290 lamports for one byte, 1300 for two
    let held = info(RentState::RentExempt, 100, 1);
    // Not grown: the former balance is enough.
    assert_eq!(
        post_exec_state_info(&held, &account(100, 1), &rent),
        info(RentState::RentExempt, 100, 1)
    );
    assert_eq!(
        post_exec_state_info(&held, &account(99, 0), &rent),
        info(RentState::RentPaying { lamports: 99, data_size: 0 }, 99, 0)
    );
    // A former balance above the minimum does not raise what is required.
    let rich = info(RentState::RentExempt, 5_000, 1);
    assert_eq!(
        post_exec_state_info(&rich, &account(1_290, 1), &rent),
        info(RentState::RentExempt, 1_290, 1)
    );
    assert_eq!(
        post_exec_state_info(&rich, &account(1_289, 1), &rent),
        info(RentState::RentPaying { lamports: 1_289, data_size: 1 }, 1_289, 1)
    );
    // Grown: the full minimum balance is required.
    assert_eq!(
        post_exec_state_info(&held, &account(1_299, 2), &rent),
        info(RentState::RentPaying { lamports: 1_299, data_size: 2 }, 1_299, 2)
    );
    assert_eq!(
        post_exec_state_info(&held, &account(1_300, 2), &rent),
        info(RentState::RentExempt, 1_300, 2)
    );
    // Created.
    let created = info(RentState::Uninitialized, 0, 1);
    assert_eq!(
        post_exec_state_info(&created, &account(1_289, 1), &rent),
        info(RentState::RentPaying { lamports: 1_289, data_size: 1 }, 1_289, 1)
    );
    // Emptied.
    assert_eq!(
        post_exec_state_info(&held, &account(0, 1), &rent),
        info(RentState::Uninitialized, 0, 1)
    );
}

#[test]
fn states_after_execution_reach_as_far_as_those_before() {
    let rent = rent(10, ONE);
    let accounts = [Some(account(100, 1)), None, Some(account(0, 8))];
    let writable = [true, true, true];
    let held = Some(info(RentState::RentExempt, 100, 1));
    assert!(ready_for_post_exec(&accounts, &[held, None], &writable, &rent));
    assert_eq!(
        post_exec_state_infos(&accounts, &[held, None], &writable, &rent),
        vec![held, None]
    );
    assert_eq!(
        post_exec_state_infos(&accounts, &[held, held, held, held], &writable, &rent),
        vec![held, None, Some(info(RentState::Uninitialized, 0, 8))]
    );
    assert_eq!(
        post_exec_state_infos(&accounts, &[None, None, held], &[false, true, true], &rent),
        vec![None, None, Some(info(RentState::Uninitialized, 0, 8))]
    );
    // The state before execution is not known.
    assert!(!ready_for_post_exec(&accounts, &[held, None, None], &writable, &rent));
    // No minimum balance is defined for the size.
    assert!(!ready_for_post_exec(&[Some(account(1, 10_485_761))], &[held], &[true], &rent));
    assert!(ready_for_post_exec(&[Some(account(1, 10_485_761))], &[held], &[false], &rent));
}

#[test]
fn first_refused_account_decides() {
    let keys = [[1; 32], [2; 32], [3; 32]];
    let exempt = Some(info(RentState::RentExempt, 9, 1));
    let paying = Some(info(RentState::RentPaying { lamports: 4, data_size: 1 }, 4, 1));
    let pre: [TransactionAccountStateInfo; 3] = [exempt, exempt, exempt];
    assert!(changes_decided(&pre, &[exempt, paying, paying], &keys));
    assert_eq!(
        check_changes(&pre, &[exempt, paying, paying], &keys),
        Err(TransactionError::InsufficientFundsForRent { account_index: 1 })
    );
    assert_eq!(check_changes(&pre, &[exempt, exempt, exempt], &keys), Ok(()));
    assert_eq!(check_changes(&pre, &[exempt, None], &keys), Ok(()));
    assert_eq!(check_changes(&[None, exempt], &[paying], &keys), Ok(()));
    assert_eq!(check_changes(&[exempt], &[exempt, paying, paying], &keys), Ok(()));
    assert!(!changes_decided(&pre, &[exempt, exempt, exempt], &keys[..2]));
    assert!(changes_decided(&pre, &[exempt, paying, exempt], &keys[..2]));
    assert_eq!(
        check_changes(&pre, &[exempt, paying, exempt], &keys[..2]),
        Err(TransactionError::InsufficientFundsForRent { account_index: 1 })
    );
}

#[test]
fn untouched_and_emptied_accounts_are_accepted() {
    let rent = rent(10, ONE);
    let keys = [[1; 32], [2; 32]];
    let before = [Some(account(100, 1)), Some(account(0, 7))];
    let pre = pre_exec_state_infos(&before, &[true, true]);
    let post = post_exec_state_infos(&before, &pre, &[true, true], &rent);
    assert_eq!(check_changes(&pre, &post, &keys), Ok(()));
    let after = [Some(account(0, 9)), Some(account(0, 7))];
    let post = post_exec_state_infos(&after, &pre, &[true, true], &rent);
    assert_eq!(check_changes(&pre, &post, &keys), Ok(()));
    assert_eq!(get_uninitialized_accounts_size(&post), 16);
}

#[test]
fn only_uninitialized_accounts_count() {
    let infos = [
        Some(info(RentState::Uninitialized, 0, 3)),
        None,
        Some(info(RentState::RentExempt, 9, 100)),
        Some(info(RentState::RentPaying { lamports: 1, data_size: 50 }, 1, 50)),
        Some(info(RentState::Uninitialized, 0, 4)),
    ];
    assert_eq!(get_uninitialized_accounts_size(&infos), 7);
    assert_eq!(get_uninitialized_accounts_size(&infos[..2]), 3);
    assert_eq!(get_uninitialized_accounts_size(&infos[2..]), 4);
    assert_eq!(get_uninitialized_accounts_size(&[]), 0);
}
