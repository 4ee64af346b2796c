use governance_migrations::account::{
    account_eq, default_account, is_valid_public_key, recover_account, AccountId, Recovery,
};
use governance_migrations::ledger::{Ledger, TransferError};
use governance_migrations::migrations::{
    get_old_treasury_address, new_treasury_public_key, old_treasury_public_key,
};

fn acc(tag: u8) -> AccountId {
    let mut bytes = [0u8; 32];
    bytes[0] = tag;
    bytes[1] = 7;
    AccountId { bytes }
}

#[test]
fn valid_key_accepts_the_compiled_in_key() {
    assert!(is_valid_public_key(&new_treasury_public_key()));
}

#[test]
fn valid_key_rejects_all_zero() {
    assert!(!is_valid_public_key(&[0u8; 36]));
}

#[test]
fn valid_key_rejects_all_one() {
    assert!(!is_valid_public_key(&[0xffu8; 36]));
}

#[test]
fn recover_falls_back_on_all_zero_blob() {
    match recover_account(&[0u8; 36]) {
        Recovery::FellBackToDefault(a) => assert_eq!(a.bytes, default_account().bytes),
        Recovery::Recovered(_) => panic!("all-zero blob must not recover"),
    }
}

#[test]
fn recover_falls_back_on_all_one_blob() {
    match recover_account(&[0xffu8; 36]) {
        Recovery::FellBackToDefault(a) => assert_eq!(a.bytes, default_account().bytes),
        Recovery::Recovered(_) => panic!("all-one blob must not recover"),
    }
}

#[test]
fn recover_falls_back_on_truncated_blob() {
    let full = new_treasury_public_key();
    match recover_account(&full[..20]) {
        Recovery::FellBackToDefault(a) => assert_eq!(a.bytes, default_account().bytes),
        Recovery::Recovered(_) => panic!("a 20-byte blob must not recover"),
    }
}

#[test]
fn recover_ignores_trailing_padding() {
    let key = new_treasury_public_key();
    let mut padded = [0u8; 40];
    padded[..36].copy_from_slice(&key);
    match recover_account(&padded) {
        Recovery::Recovered(a) => assert_eq!(&a.bytes[..], &key[..32]),
        Recovery::FellBackToDefault(_) => panic!("the codec reads the first 32 bytes only"),
    }
}

#[test]
fn recover_takes_the_first_32_bytes() {
    let key = new_treasury_public_key();
    match recover_account(&key) {
        Recovery::Recovered(a) => {
            assert_eq!(&a.bytes[..], &key[..32]);
        },
        Recovery::FellBackToDefault(_) => panic!("the compiled-in key must recover"),
    }
}

#[test]
fn default_account_is_the_padded_module_tag() {
    let mut expected = [0u8; 32];
    expected[..4].copy_from_slice(b"modl");
    expected[4..12].copy_from_slice(b"py/subsp");
    assert_eq!(default_account().bytes, expected);
}

#[test]
fn old_treasury_address_matches_its_key() {
    assert_eq!(get_old_treasury_address().bytes, old_treasury_public_key());
}

#[test]
fn account_eq_compares_bytes() {
    assert!(account_eq(&acc(1), &acc(1)));
    assert!(!account_eq(&acc(1), &acc(2)));
}

#[test]
fn free_balance_of_unknown_account_is_zero() {
    let ledger = Ledger::new(1);
    assert_eq!(ledger.free_balance(&acc(1)), 0);
}

#[test]
fn set_balance_is_read_back() {
    let mut ledger = Ledger::new(1);
    ledger.set_balance(&acc(1), 42);
    ledger.set_balance(&acc(2), 9);
    ledger.set_balance(&acc(1), 40);
    assert_eq!(ledger.free_balance(&acc(1)), 40);
    assert_eq!(ledger.free_balance(&acc(2)), 9);
}

#[test]
fn transfer_moves_the_amount() {
    let mut ledger = Ledger::new(1);
    ledger.set_balance(&acc(1), 100);
    ledger.set_balance(&acc(2), 5);
    assert_eq!(ledger.transfer(&acc(1), &acc(2), 100, true), Ok(()));
    assert_eq!(ledger.free_balance(&acc(1)), 0);
    assert_eq!(ledger.free_balance(&acc(2)), 105);
}

#[test]
fn transfer_refuses_more_than_the_balance() {
    let mut ledger = Ledger::new(1);
    ledger.set_balance(&acc(1), 10);
    assert_eq!(
        ledger.transfer(&acc(1), &acc(2), 11, true),
        Err(TransferError::InsufficientBalance)
    );
    assert_eq!(ledger.free_balance(&acc(1)), 10);
    assert_eq!(ledger.free_balance(&acc(2)), 0);
}

#[test]
fn transfer_refuses_a_receiver_below_the_existential_deposit() {
    let mut ledger = Ledger::new(1000);
    ledger.set_balance(&acc(1), 100);
    assert_eq!(
        ledger.transfer(&acc(1), &acc(2), 100, true),
        Err(TransferError::BelowMinimum)
    );
    assert_eq!(ledger.free_balance(&acc(1)), 100);
}

#[test]
fn transfer_refuses_an_overflowing_receiver() {
    let mut ledger = Ledger::new(1);
    ledger.set_balance(&acc(1), 5);
    ledger.set_balance(&acc(2), u64::MAX - 1);
    assert_eq!(ledger.transfer(&acc(1), &acc(2), 5, true), Err(TransferError::Overflow));
    assert_eq!(ledger.free_balance(&acc(2)), u64::MAX - 1);
}

#[test]
fn transfer_refuses_to_kill_the_source_without_permission() {
    let mut ledger = Ledger::new(5);
    ledger.set_balance(&acc(1), 10);
    ledger.set_balance(&acc(2), 10);
    assert_eq!(
        ledger.transfer(&acc(1), &acc(2), 8, false),
        Err(TransferError::WouldKillSource)
    );
    assert_eq!(ledger.transfer(&acc(1), &acc(2), 4, false), Ok(()));
    assert_eq!(ledger.free_balance(&acc(1)), 6);
    assert_eq!(ledger.free_balance(&acc(2)), 14);
}
