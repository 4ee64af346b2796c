//! The migration steps, in strict version order.
//!
//! Each step gates on the store's schema version: it no-ops at zero cost
//! when the live version is not the step's declared predecessor, and
//! otherwise transforms the store and writes the target version. The
//! production track and the test track advance through different version
//! numbers for the same logical transitions.

use vstd::prelude::*;
use vstd::pervasive::unreached;

use crate::account::{
    account_eq, default_account, default_account_seq, recover_account, recover_model, AccountId,
};
use crate::ledger::{balance_in, transfer_check, transfer_model};
use crate::records::{translate_model, translate_application, OldApplicationModel, ApplicationModel, CuratorApplication};
use crate::store::{
    legacy_rows_model, current_rows_model, whitelist_pairs_model, whitelist_marker_model,
    events_model, ApplicationTable, ApplicationTableModel, AuditEvent, AuditEventModel, Store,
    StoreModel, Track, Weight, WhitelistTable, WhitelistTableModel,
};

verus! {

/// The keyed records after translation: every key kept, every record
/// translated to the current shape.
pub open spec fn translate_table(s: Seq<(u64, OldApplicationModel)>) -> Seq<
    (u64, ApplicationModel),
> {
    s.map_values(|p: (u64, OldApplicationModel)| (p.0, translate_model(p.1)))
}

/// The account identifiers of the whitelist pairs, in order.
pub open spec fn whitelist_keys(s: Seq<(Seq<u8>, u8)>) -> Seq<Seq<u8>> {
    s.map_values(|p: (Seq<u8>, u8)| p.0)
}

/// What the first migration step does to the store: nothing unless the
/// live version is exactly 1; otherwise every record is translated to the
/// current shape, the whitelist is re-encoded to pure existence semantics,
/// and the version becomes 2.
pub open spec fn migrate_v2_model(s: StoreModel) -> StoreModel {
    if s.version != 1 {
        s
    } else {
        StoreModel {
            version: 2,
            applications: ApplicationTableModel::Current(
                translate_table(s.applications->Legacy_0),
            ),
            whitelist: WhitelistTableModel::Marker(whitelist_keys(s.whitelist->ByteValued_0)),
            ..s
        }
    }
}

/// The cost the first migration step reports.
pub open spec fn migrate_v2_weight(s: StoreModel) -> Weight {
    if s.version != 1 {
        Weight { reads: 0, writes: 0 }
    } else {
        Weight { reads: 2, writes: 2 }
    }
}

/// The migration from schema version 1 to 2: record translation and
/// whitelist re-encoding.
pub struct MigrateToV2;

impl MigrateToV2 {
    /// Runs the step against the given store and reports its cost.
    pub fn on_runtime_upgrade(store: Store) -> (r: (Store, Weight))
        requires
            store@.wf(),
        ensures
            r.0@ == migrate_v2_model(store@),
            r.1 == migrate_v2_weight(store@),
            r.0@.wf(),
    {
        if store.version != 1 {
            return (store, Weight::zero());
        }
        let Store { version: _, treasury_address, applications, whitelist, ledger, events } =
            store;
        let mut legacy = match applications {
            ApplicationTable::Legacy(v) => v,
            ApplicationTable::Current(_) => unreached(),
        };
        let ghost orig = legacy_rows_model(legacy@);
        let mut translated: Vec<(u64, CuratorApplication)> = Vec::new();
        while legacy.len() > 0
            invariant
                translated@.len() + legacy@.len() == orig.len(),
                forall|j: int|
                    0 <= j < legacy@.len() ==> (#[trigger] legacy@[j].0, legacy@[j].1@) == orig[
                        translated@.len() + j
                    ],
                forall|j: int|
                    0 <= j < translated@.len() ==> (#[trigger] translated@[j].0, translated@[j].1@)
                        == (orig[j].0, translate_model(orig[j].1)),
            decreases legacy@.len(),
        {
            let ghost before = legacy@;
            let (key, old_record) = legacy.remove(0);
            proof {
                before.remove_ensures(0);
                assert((key, old_record@) == orig[translated@.len() as int]);
            }
            let new_record = translate_application(old_record);
            translated.push((key, new_record));
        }
        proof {
            assert(current_rows_model(translated@) =~= translate_table(orig));
        }
        let pairs = match whitelist {
            WhitelistTable::ByteValued(v) => v,
            WhitelistTable::Marker(_) => unreached(),
        };
        let mut keys: Vec<crate::account::AccountId> = Vec::new();
        let n = pairs.len();
        let mut i: usize = 0;
        while i < n
            invariant
                i <= n,
                n == pairs@.len(),
                keys@.len() == i,
                forall|j: int| 0 <= j < i ==> (#[trigger] keys@[j])@ == pairs@[j].0@,
            decreases n - i,
        {
            keys.push(pairs[i].0);
            i += 1;
        }
        proof {
            assert(whitelist_marker_model(keys@) =~= whitelist_keys(whitelist_pairs_model(pairs@)));
        }
        let new_store = Store {
            version: 2,
            treasury_address,
            applications: ApplicationTable::Current(translated),
            whitelist: WhitelistTable::Marker(keys),
            ledger,
            events,
        };
        (new_store, Weight::reads_writes(2, 2))
    }
}

/// The raw 36-byte public key compiled in for the new treasury address.
pub open spec fn new_treasury_key_seq() -> Seq<u8> {
    seq![
        0xc7u8, 0x07, 0xf8, 0x3d, 0x75, 0xa6, 0x44, 0x6e, 0x0d, 0xdd, 0x7c, 0x62, 0x99, 0x7e,
        0x69, 0x97, 0x46, 0x24, 0x46, 0x4d, 0x82, 0x44, 0xc3, 0x87, 0x3f, 0xdf, 0x64, 0xf5, 0xc2,
        0xa3, 0x70, 0xea, 0xc2, 0xa3, 0x70, 0xea,
    ]
}

/// The compiled-in public key of the new treasury address.
pub fn new_treasury_public_key() -> (r: [u8; 36])
    ensures
        r@ == new_treasury_key_seq(),
{
    let key: [u8; 36] = [
        0xc7, 0x07, 0xf8, 0x3d, 0x75, 0xa6, 0x44, 0x6e, 0x0d, 0xdd, 0x7c, 0x62, 0x99, 0x7e, 0x69,
        0x97, 0x46, 0x24, 0x46, 0x4d, 0x82, 0x44, 0xc3, 0x87, 0x3f, 0xdf, 0x64, 0xf5, 0xc2, 0xa3,
        0x70, 0xea, 0xc2, 0xa3, 0x70, 0xea,
    ];
    proof {
        assert(key@ =~= new_treasury_key_seq());
    }
    key
}

/// The raw 32-byte public key of the old treasury address, compiled in
/// because the singleton no longer holds it once the rotation has run.
pub open spec fn old_treasury_key_seq() -> Seq<u8> {
    seq![
        0x6du8, 0x6f, 0x64, 0x6c, 0x70, 0x79, 0x2f, 0x73, 0x75, 0x62, 0x73, 0x70, 0, 0, 0, 0, 0,
        0, 0, 0, 0, 0, 0, 0, 0, 0, 0, 0, 0, 0, 0, 0,
    ]
}

/// The compiled-in public key of the old treasury address.
pub fn old_treasury_public_key() -> (r: [u8; 32])
    ensures
        r@ == old_treasury_key_seq(),
{
    let key: [u8; 32] = [
        0x6d, 0x6f, 0x64, 0x6c, 0x70, 0x79, 0x2f, 0x73, 0x75, 0x62, 0x73, 0x70, 0, 0, 0, 0, 0, 0,
        0, 0, 0, 0, 0, 0, 0, 0, 0, 0, 0, 0, 0, 0,
    ];
    proof {
        assert(key@ =~= old_treasury_key_seq());
    }
    key
}

/// The schema version the treasury rotation expects to find.
pub open spec fn v3_predecessor(track: Track) -> u64 {
    match track {
        Track::Production => 2,
        Track::Testnet => 4,
    }
}

/// The schema version the treasury rotation writes on success.
pub open spec fn v3_target(track: Track) -> u64 {
    match track {
        Track::Production => 3,
        Track::Testnet => 5,
    }
}

/// What treasury rotation does to the store, for any key blob: nothing
/// unless the live version is the expected predecessor; nothing but a read
/// when the recovered identifier equals the stored one or the structural
/// default (recovery fell back, so the step aborts rather than corrupt the
/// singleton, and the version deliberately stays put so the step retries);
/// otherwise the singleton is rotated, an audit event is appended, and the
/// version advances.
pub open spec fn rotate_treasury_model(s: StoreModel, blob: Seq<u8>, track: Track) -> StoreModel {
    if s.version != v3_predecessor(track) {
        s
    } else {
        let new = recover_model(blob).id();
        if new == s.treasury_address || new == default_account_seq() {
            s
        } else {
            StoreModel {
                version: v3_target(track),
                treasury_address: new,
                events: s.events.push(
                    AuditEventModel::TreasuryAddressUpdated {
                        old_address: s.treasury_address,
                        new_address: new,
                    },
                ),
                ..s
            }
        }
    }
}

/// The cost treasury rotation reports.
pub open spec fn rotate_treasury_weight(s: StoreModel, blob: Seq<u8>, track: Track) -> Weight {
    if s.version != v3_predecessor(track) {
        Weight { reads: 0, writes: 0 }
    } else {
        let new = recover_model(blob).id();
        if new == s.treasury_address || new == default_account_seq() {
            Weight { reads: 1, writes: 0 }
        } else {
            Weight { reads: 1, writes: 2 }
        }
    }
}

/// Rotates the treasury singleton to the identifier recovered from `blob`,
/// with the safety checks of the rotation step.
pub fn rotate_treasury(store: Store, blob: &[u8], track: Track) -> (r: (Store, Weight))
    requires
        store@.wf(),
    ensures
        r.0@ == rotate_treasury_model(store@, blob@, track),
        r.1 == rotate_treasury_weight(store@, blob@, track),
        r.0@.wf(),
{
    let pred: u64 = match track {
        Track::Production => 2,
        Track::Testnet => 4,
    };
    if store.version != pred {
        return (store, Weight::zero());
    }
    let old_treasury = store.treasury_address;
    let recovery = recover_account(blob);
    let new_treasury = recovery.id();
    let fallback = default_account();
    if account_eq(&new_treasury, &old_treasury) || account_eq(&new_treasury, &fallback) {
        return (store, Weight::reads_writes(1, 0));
    }
    let mut store = store;
    store.treasury_address = new_treasury;
    store.version = match track {
        Track::Production => 3,
        Track::Testnet => 5,
    };
    let ghost events_before = events_model(store.events@);
    store.events.push(
        AuditEvent::TreasuryAddressUpdated {
            old_address: old_treasury,
            new_address: new_treasury,
        },
    );
    proof {
        assert(events_model(store.events@) =~= events_before.push(
            AuditEventModel::TreasuryAddressUpdated {
                old_address: old_treasury@,
                new_address: new_treasury@,
            },
        ));
    }
    (store, Weight::reads_writes(1, 2))
}

/// What the second migration step does to the store.
pub open spec fn migrate_v3_model(s: StoreModel, track: Track) -> StoreModel {
    rotate_treasury_model(s, new_treasury_key_seq(), track)
}

/// The cost the second migration step reports.
pub open spec fn migrate_v3_weight(s: StoreModel, track: Track) -> Weight {
    rotate_treasury_weight(s, new_treasury_key_seq(), track)
}

/// The migration that rotates the treasury address to a new key, needed
/// because the holders of the original key forked the network.
pub struct MigrateToV3;

impl MigrateToV3 {
    /// Runs the step against the given store and reports its cost.
    pub fn on_runtime_upgrade(store: Store, track: Track) -> (r: (Store, Weight))
        requires
            store@.wf(),
        ensures
            r.0@ == migrate_v3_model(store@, track),
            r.1 == migrate_v3_weight(store@, track),
            r.0@.wf(),
    {
        let key = new_treasury_public_key();
        rotate_treasury(store, key.as_slice(), track)
    }
}

/// The schema version the balance relocation expects to find.
pub open spec fn v4_predecessor(track: Track) -> u64 {
    match track {
        Track::Production => 3,
        Track::Testnet => 5,
    }
}

/// The schema version the balance relocation writes.
pub open spec fn v4_target(track: Track) -> u64 {
    match track {
        Track::Production => 4,
        Track::Testnet => 6,
    }
}

/// What the third migration step does to the store: nothing unless the
/// live version is the expected predecessor; nothing but reads when the
/// recovered old identifier equals the stored new one; otherwise the whole
/// old-treasury balance moves to the new address when there is one and the
/// ledger accepts the transfer, an audit event is appended exactly on a
/// successful transfer, and the version advances even when the transfer
/// was refused — a migrated schema with unmigrated funds is accepted as a
/// follow-up concern.
pub open spec fn migrate_v4_model(s: StoreModel, track: Track) -> StoreModel {
    if s.version != v4_predecessor(track) {
        s
    } else {
        let old = recover_model(old_treasury_key_seq()).id();
        let new = s.treasury_address;
        if old == new {
            s
        } else {
            let bal = balance_in(s.ledger.accounts, old);
            let moved = bal != 0 && transfer_check(s.ledger, old, new, bal, true) is Ok;
            StoreModel {
                version: v4_target(track),
                ledger: transfer_model(s.ledger, old, new, bal, true),
                events: if moved {
                    s.events.push(
                        AuditEventModel::TreasuryBalanceTransferred {
                            old_address: old,
                            new_address: new,
                            amount: bal,
                        },
                    )
                } else {
                    s.events
                },
                ..s
            }
        }
    }
}

/// The cost the third migration step reports.
pub open spec fn migrate_v4_weight(s: StoreModel, track: Track) -> Weight {
    if s.version != v4_predecessor(track) {
        Weight { reads: 0, writes: 0 }
    } else if recover_model(old_treasury_key_seq()).id() == s.treasury_address {
        Weight { reads: 2, writes: 0 }
    } else {
        Weight { reads: 2, writes: 3 }
    }
}

/// Recovers the old treasury identifier from its compiled-in public key.
/// It cannot be read from live state: the rotation step already
/// overwrote the singleton.
pub fn get_old_treasury_address() -> (r: AccountId)
    ensures
        r@ == recover_model(old_treasury_key_seq()).id(),
{
    let key = old_treasury_public_key();
    recover_account(key.as_slice()).id()
}

/// The migration that moves the old treasury's balance to the rotated
/// address.
pub struct MigrateToV4;

impl MigrateToV4 {
    /// Runs the step against the given store and reports its cost.
    pub fn on_runtime_upgrade(store: Store, track: Track) -> (r: (Store, Weight))
        requires
            store@.wf(),
        ensures
            r.0@ == migrate_v4_model(store@, track),
            r.1 == migrate_v4_weight(store@, track),
            r.0@.wf(),
    {
        let pred: u64 = match track {
            Track::Production => 3,
            Track::Testnet => 5,
        };
        if store.version != pred {
            return (store, Weight::zero());
        }
        let old_treasury = get_old_treasury_address();
        let new_treasury = store.treasury_address;
        if account_eq(&old_treasury, &new_treasury) {
            return (store, Weight::reads_writes(2, 0));
        }
        let mut store = store;
        let old_balance = store.ledger.free_balance(&old_treasury);
        if old_balance != 0 {
            let outcome = store.ledger.transfer(&old_treasury, &new_treasury, old_balance, true);
            match outcome {
                Ok(_) => {
                    let ghost events_before = events_model(store.events@);
                    store.events.push(
                        AuditEvent::TreasuryBalanceTransferred {
                            old_address: old_treasury,
                            new_address: new_treasury,
                            amount: old_balance,
                        },
                    );
                    proof {
                        assert(events_model(store.events@) =~= events_before.push(
                            AuditEventModel::TreasuryBalanceTransferred {
                                old_address: old_treasury@,
                                new_address: new_treasury@,
                                amount: old_balance,
                            },
                        ));
                    }
                },
                Err(_) => {},
            }
        }
        store.version = match track {
            Track::Production => 4,
            Track::Testnet => 6,
        };
        (store, Weight::reads_writes(2, 3))
    }
}

} // verus!
