use governance_migrations::account::{account_eq, AccountId};
use governance_migrations::ledger::Ledger;
use governance_migrations::migrations::{
    get_old_treasury_address, new_treasury_public_key, MigrateToV2, MigrateToV3, MigrateToV4,
};
use governance_migrations::records::{ApplicationStatus, OldCuratorApplication};
use governance_migrations::store::{
    ApplicationTable, AuditEvent, Store, Track, Weight, WhitelistTable,
};

fn acc(tag: u8) -> AccountId {
    let mut bytes = [0u8; 32];
    bytes[0] = tag;
    bytes[1] = 7;
    AccountId { bytes }
}

fn new_treasury_account() -> AccountId {
    let key = new_treasury_public_key();
    let mut bytes = [0u8; 32];
    bytes.copy_from_slice(&key[..32]);
    AccountId { bytes }
}

fn legacy_record(id: u64, cost: u64) -> OldCuratorApplication {
    OldCuratorApplication {
        id,
        user_id: acc(10),
        paying_for: acc(11),
        data: vec![1, 2, 3, id as u8],
        status: ApplicationStatus::Pending,
        application_cost: cost,
    }
}

fn legacy_store(records: Vec<(u64, OldCuratorApplication)>, whitelist: Vec<(AccountId, u8)>) -> Store {
    Store {
        version: 1,
        treasury_address: acc(1),
        applications: ApplicationTable::Legacy(records),
        whitelist: WhitelistTable::ByteValued(whitelist),
        ledger: Ledger::new(1),
        events: Vec::new(),
    }
}

fn migrated_store(version: u64, treasury: AccountId, ledger: Ledger) -> Store {
    Store {
        version,
        treasury_address: treasury,
        applications: ApplicationTable::Current(Vec::new()),
        whitelist: WhitelistTable::Marker(Vec::new()),
        ledger,
        events: Vec::new(),
    }
}

#[test]
fn record_translation_skips_on_a_wrong_version() {
    let mut store = legacy_store(vec![(4, legacy_record(4, 9))], Vec::new());
    store.version = 0;
    let (after, weight) = MigrateToV2::on_runtime_upgrade(store);
    assert_eq!(weight, Weight { reads: 0, writes: 0 });
    assert_eq!(after.version, 0);
    match &after.applications {
        ApplicationTable::Legacy(rows) => assert_eq!(rows.len(), 1),
        ApplicationTable::Current(_) => panic!("a skipped migration must not translate"),
    }
}

#[test]
fn record_translation_keeps_every_field_and_defaults_the_new_one() {
    let store = legacy_store(
        vec![(4, legacy_record(4, 900)), (9, legacy_record(9, 901))],
        Vec::new(),
    );
    let (after, weight) = MigrateToV2::on_runtime_upgrade(store);
    assert_eq!(weight, Weight { reads: 2, writes: 2 });
    assert_eq!(after.version, 2);
    match &after.applications {
        ApplicationTable::Current(rows) => {
            assert_eq!(rows.len(), 2);
            assert_eq!(rows[0].0, 4);
            assert_eq!(rows[0].1.id, 4);
            assert_eq!(rows[0].1.application_cost, 900);
            assert_eq!(rows[0].1.data, vec![1, 2, 3, 4]);
            assert_eq!(rows[0].1.status, ApplicationStatus::Pending);
            assert!(account_eq(&rows[0].1.user_id, &acc(10)));
            assert!(account_eq(&rows[0].1.paying_for, &acc(11)));
            assert_eq!(rows[0].1.block_number, 0);
            assert_eq!(rows[1].0, 9);
            assert_eq!(rows[1].1.application_cost, 901);
            assert_eq!(rows[1].1.block_number, 0);
        },
        ApplicationTable::Legacy(_) => panic!("the records must be translated"),
    }
}

#[test]
fn running_the_translation_twice_is_running_it_once() {
    let store = legacy_store(
        vec![(1, legacy_record(1, 7))],
        vec![(acc(3), 9)],
    );
    let (after_once, _) = MigrateToV2::on_runtime_upgrade(store);
    let first_len = match &after_once.applications {
        ApplicationTable::Current(rows) => rows.len(),
        ApplicationTable::Legacy(_) => panic!("the records must be translated"),
    };
    let (after_twice, weight) = MigrateToV2::on_runtime_upgrade(after_once);
    assert_eq!(weight, Weight { reads: 0, writes: 0 });
    assert_eq!(after_twice.version, 2);
    match &after_twice.applications {
        ApplicationTable::Current(rows) => assert_eq!(rows.len(), first_len),
        ApplicationTable::Legacy(_) => panic!("the second run must not reshape"),
    }
}

#[test]
fn whitelist_reencoding_keeps_the_keys() {
    let store = legacy_store(
        Vec::new(),
        vec![(acc(3), 9), (acc(4), 9), (acc(5), 1)],
    );
    let (after, _) = MigrateToV2::on_runtime_upgrade(store);
    match &after.whitelist {
        WhitelistTable::Marker(keys) => {
            assert_eq!(keys.len(), 3);
            assert!(account_eq(&keys[0], &acc(3)));
            assert!(account_eq(&keys[1], &acc(4)));
            assert!(account_eq(&keys[2], &acc(5)));
        },
        WhitelistTable::ByteValued(_) => panic!("the whitelist must be re-encoded"),
    }
}

#[test]
fn an_empty_whitelist_stays_empty() {
    let store = legacy_store(Vec::new(), Vec::new());
    let (after, _) = MigrateToV2::on_runtime_upgrade(store);
    match &after.whitelist {
        WhitelistTable::Marker(keys) => assert_eq!(keys.len(), 0),
        WhitelistTable::ByteValued(_) => panic!("the whitelist must be re-encoded"),
    }
}

#[test]
fn rotation_replaces_the_treasury_address() {
    let store = migrated_store(2, acc(1), Ledger::new(1));
    let (after, weight) = MigrateToV3::on_runtime_upgrade(store, Track::Production);
    assert_eq!(weight, Weight { reads: 1, writes: 2 });
    assert_eq!(after.version, 3);
    assert!(account_eq(&after.treasury_address, &new_treasury_account()));
    assert_eq!(after.events.len(), 1);
    match &after.events[0] {
        AuditEvent::TreasuryAddressUpdated { old_address, new_address } => {
            assert!(account_eq(old_address, &acc(1)));
            assert!(account_eq(new_address, &new_treasury_account()));
        },
        AuditEvent::TreasuryBalanceTransferred { .. } => panic!("wrong event"),
    }
}

#[test]
fn rotation_skips_on_a_wrong_version() {
    let store = migrated_store(3, acc(1), Ledger::new(1));
    let (after, weight) = MigrateToV3::on_runtime_upgrade(store, Track::Production);
    assert_eq!(weight, Weight { reads: 0, writes: 0 });
    assert_eq!(after.version, 3);
    assert!(account_eq(&after.treasury_address, &acc(1)));
}

#[test]
fn rotation_aborts_when_the_address_is_already_current() {
    let store = migrated_store(2, new_treasury_account(), Ledger::new(1));
    let (after, weight) = MigrateToV3::on_runtime_upgrade(store, Track::Production);
    assert_eq!(weight, Weight { reads: 1, writes: 0 });
    assert_eq!(after.version, 2);
    assert_eq!(after.events.len(), 0);
}

#[test]
fn rotation_uses_the_test_track_versions() {
    let store = migrated_store(4, acc(1), Ledger::new(1));
    let (after, _) = MigrateToV3::on_runtime_upgrade(store, Track::Testnet);
    assert_eq!(after.version, 5);
    let skipped = migrated_store(2, acc(1), Ledger::new(1));
    let (after_skip, weight) = MigrateToV3::on_runtime_upgrade(skipped, Track::Testnet);
    assert_eq!(weight, Weight { reads: 0, writes: 0 });
    assert_eq!(after_skip.version, 2);
}

#[test]
fn relocation_moves_the_whole_balance() {
    let old_treasury = get_old_treasury_address();
    let mut ledger = Ledger::new(1);
    ledger.set_balance(&old_treasury, 100);
    ledger.set_balance(&acc(2), 5);
    let store = migrated_store(3, acc(2), ledger);
    let (after, weight) = MigrateToV4::on_runtime_upgrade(store, Track::Production);
    assert_eq!(weight, Weight { reads: 2, writes: 3 });
    assert_eq!(after.version, 4);
    assert_eq!(after.ledger.free_balance(&old_treasury), 0);
    assert_eq!(after.ledger.free_balance(&acc(2)), 105);
    assert_eq!(after.events.len(), 1);
    match &after.events[0] {
        AuditEvent::TreasuryBalanceTransferred { old_address, new_address, amount } => {
            assert!(account_eq(old_address, &old_treasury));
            assert!(account_eq(new_address, &acc(2)));
            assert_eq!(*amount, 100);
        },
        AuditEvent::TreasuryAddressUpdated { .. } => panic!("wrong event"),
    }
}

#[test]
fn relocation_skips_the_transfer_on_a_zero_balance() {
    let old_treasury = get_old_treasury_address();
    let mut ledger = Ledger::new(1);
    ledger.set_balance(&acc(2), 5);
    let store = migrated_store(3, acc(2), ledger);
    let (after, weight) = MigrateToV4::on_runtime_upgrade(store, Track::Production);
    assert_eq!(weight, Weight { reads: 2, writes: 3 });
    assert_eq!(after.version, 4);
    assert_eq!(after.ledger.free_balance(&old_treasury), 0);
    assert_eq!(after.ledger.free_balance(&acc(2)), 5);
    assert_eq!(after.events.len(), 0);
}

#[test]
fn relocation_still_advances_the_version_on_a_refused_transfer() {
    let old_treasury = get_old_treasury_address();
    let mut ledger = Ledger::new(10_000);
    ledger.set_balance(&old_treasury, 100);
    ledger.set_balance(&acc(2), 5);
    let store = migrated_store(3, acc(2), ledger);
    let (after, weight) = MigrateToV4::on_runtime_upgrade(store, Track::Production);
    assert_eq!(weight, Weight { reads: 2, writes: 3 });
    assert_eq!(after.version, 4);
    assert_eq!(after.ledger.free_balance(&old_treasury), 100);
    assert_eq!(after.ledger.free_balance(&acc(2)), 5);
    assert_eq!(after.events.len(), 0);
}

#[test]
fn relocation_aborts_when_old_and_new_addresses_agree() {
    let old_treasury = get_old_treasury_address();
    let mut ledger = Ledger::new(1);
    ledger.set_balance(&old_treasury, 100);
    let store = migrated_store(3, old_treasury, ledger);
    let (after, weight) = MigrateToV4::on_runtime_upgrade(store, Track::Production);
    assert_eq!(weight, Weight { reads: 2, writes: 0 });
    assert_eq!(after.version, 3);
    assert_eq!(after.ledger.free_balance(&old_treasury), 100);
}

#[test]
fn ten_legacy_records_survive_the_whole_pipeline() {
    let mut records = Vec::new();
    for id in 0..10u64 {
        records.push((id, legacy_record(id, 100 + id)));
    }
    let whitelist = vec![(acc(3), 0), (acc(4), 1)];
    let store = legacy_store(records, whitelist);
    let (after, _) = MigrateToV2::on_runtime_upgrade(store);
    assert_eq!(after.version, 2);
    match &after.applications {
        ApplicationTable::Current(rows) => {
            assert_eq!(rows.len(), 10);
            for (i, row) in rows.iter().enumerate() {
                assert_eq!(row.0, i as u64);
                assert_eq!(row.1.block_number, 0);
                assert_eq!(row.1.application_cost, 100 + i as u64);
            }
        },
        ApplicationTable::Legacy(_) => panic!("the records must be translated"),
    }
    match &after.whitelist {
        WhitelistTable::Marker(keys) => {
            assert_eq!(keys.len(), 2);
            assert!(account_eq(&keys[0], &acc(3)));
            assert!(account_eq(&keys[1], &acc(4)));
        },
        WhitelistTable::ByteValued(_) => panic!("the whitelist must be re-encoded"),
    }
    let (after, _) = MigrateToV3::on_runtime_upgrade(after, Track::Production);
    assert_eq!(after.version, 3);
    let (after, _) = MigrateToV4::on_runtime_upgrade(after, Track::Production);
    assert_eq!(after.version, 4);
}
