//! The state-store handle a migration step works on.
//!
//! The store gathers the schema version, the treasury-address singleton,
//! the keyed application records, the whitelist, the ledger, and the
//! append-only audit events. Each migration step takes the whole store,
//! reads and writes its named slots, and hands it back.

use vstd::prelude::*;

use crate::account::AccountId;
use crate::ledger::{Ledger, LedgerModel};
use crate::records::{
    ApplicationModel, CuratorApplication, OldApplicationModel, OldCuratorApplication,
    MAX_APPLICATION_DATA_LEN,
};

verus! {

/// The deployment track the node runs on. The production track and the
/// test track advance through disjoint version numbers for the same
/// logical transitions.
#[derive(Clone, Copy, PartialEq, Eq, Structural, Debug)]
pub enum Track {
    Production,
    Testnet,
}

/// The cost a migration step reports to the external fee accountant: the
/// number of store reads and writes it performed.
#[derive(Clone, Copy, PartialEq, Eq, Structural, Debug)]
pub struct Weight {
    pub reads: u64,
    pub writes: u64,
}

impl Weight {
    /// The cost of a step that touched nothing.
    pub fn zero() -> (r: Weight)
        ensures
            r == (Weight { reads: 0, writes: 0 }),
    {
        Weight { reads: 0, writes: 0 }
    }

    /// The cost of the given numbers of reads and writes.
    pub fn reads_writes(reads: u64, writes: u64) -> (r: Weight)
        ensures
            r == (Weight { reads, writes }),
    {
        Weight { reads, writes }
    }
}

/// An emitted audit record, consumed by the event sink.
pub enum AuditEvent {
    /// The treasury singleton was rotated from one address to another.
    TreasuryAddressUpdated { old_address: AccountId, new_address: AccountId },
    /// The full old-treasury balance was moved to the new address.
    TreasuryBalanceTransferred { old_address: AccountId, new_address: AccountId, amount: u64 },
}

/// Mathematical model of an audit record.
pub ghost enum AuditEventModel {
    TreasuryAddressUpdated { old_address: Seq<u8>, new_address: Seq<u8> },
    TreasuryBalanceTransferred { old_address: Seq<u8>, new_address: Seq<u8>, amount: u64 },
}

impl View for AuditEvent {
    type V = AuditEventModel;

    open spec fn view(&self) -> AuditEventModel {
        match self {
            AuditEvent::TreasuryAddressUpdated { old_address, new_address } => {
                AuditEventModel::TreasuryAddressUpdated {
                    old_address: old_address@,
                    new_address: new_address@,
                }
            },
            AuditEvent::TreasuryBalanceTransferred { old_address, new_address, amount } => {
                AuditEventModel::TreasuryBalanceTransferred {
                    old_address: old_address@,
                    new_address: new_address@,
                    amount: *amount,
                }
            },
        }
    }
}

/// The keyed application records, under whichever record shape the store's
/// schema version prescribes.
pub enum ApplicationTable {
    /// The shape before the migration to version 2.
    Legacy(Vec<(u64, OldCuratorApplication)>),
    /// The shape from version 2 on.
    Current(Vec<(u64, CuratorApplication)>),
}

/// Mathematical model of the application records.
pub ghost enum ApplicationTableModel {
    Legacy(Seq<(u64, OldApplicationModel)>),
    Current(Seq<(u64, ApplicationModel)>),
}

/// The model of a vector of keyed legacy records.
pub open spec fn legacy_rows_model(v: Seq<(u64, OldCuratorApplication)>) -> Seq<
    (u64, OldApplicationModel),
> {
    Seq::new(v.len(), |i: int| (v[i].0, v[i].1@))
}

/// The model of a vector of keyed current records.
pub open spec fn current_rows_model(v: Seq<(u64, CuratorApplication)>) -> Seq<
    (u64, ApplicationModel),
> {
    Seq::new(v.len(), |i: int| (v[i].0, v[i].1@))
}

impl View for ApplicationTable {
    type V = ApplicationTableModel;

    open spec fn view(&self) -> ApplicationTableModel {
        match self {
            ApplicationTable::Legacy(v) => ApplicationTableModel::Legacy(legacy_rows_model(v@)),
            ApplicationTable::Current(v) => ApplicationTableModel::Current(current_rows_model(v@)),
        }
    }
}

/// The whitelist, under whichever encoding the store's schema version
/// prescribes.
pub enum WhitelistTable {
    /// The old encoding: a mapping from account identifier to a sentinel
    /// byte whose value carries no meaning.
    ByteValued(Vec<(AccountId, u8)>),
    /// The new encoding: the keys alone, pure existence semantics.
    Marker(Vec<AccountId>),
}

/// Mathematical model of the whitelist.
pub ghost enum WhitelistTableModel {
    ByteValued(Seq<(Seq<u8>, u8)>),
    Marker(Seq<Seq<u8>>),
}

/// The model of a vector of whitelist pairs under the old encoding.
pub open spec fn whitelist_pairs_model(v: Seq<(AccountId, u8)>) -> Seq<(Seq<u8>, u8)> {
    Seq::new(v.len(), |i: int| (v[i].0@, v[i].1))
}

/// The model of a vector of whitelist keys under the new encoding.
pub open spec fn whitelist_marker_model(v: Seq<AccountId>) -> Seq<Seq<u8>> {
    Seq::new(v.len(), |i: int| v[i]@)
}

impl View for WhitelistTable {
    type V = WhitelistTableModel;

    open spec fn view(&self) -> WhitelistTableModel {
        match self {
            WhitelistTable::ByteValued(v) => WhitelistTableModel::ByteValued(
                whitelist_pairs_model(v@),
            ),
            WhitelistTable::Marker(v) => WhitelistTableModel::Marker(whitelist_marker_model(v@)),
        }
    }
}

/// The state-store handle: every named slot a migration step reads or
/// writes.
pub struct Store {
    /// The schema version of the module's storage.
    pub version: u64,
    /// The treasury-address singleton.
    pub treasury_address: AccountId,
    /// The keyed application records.
    pub applications: ApplicationTable,
    /// The whitelist.
    pub whitelist: WhitelistTable,
    /// The account ledger.
    pub ledger: Ledger,
    /// The append-only audit events emitted so far.
    pub events: Vec<AuditEvent>,
}

/// Mathematical model of the store.
pub ghost struct StoreModel {
    pub version: u64,
    pub treasury_address: Seq<u8>,
    pub applications: ApplicationTableModel,
    pub whitelist: WhitelistTableModel,
    pub ledger: LedgerModel,
    pub events: Seq<AuditEventModel>,
}

/// The model of a vector of audit events.
pub open spec fn events_model(v: Seq<AuditEvent>) -> Seq<AuditEventModel> {
    Seq::new(v.len(), |i: int| v[i]@)
}

impl View for Store {
    type V = StoreModel;

    open spec fn view(&self) -> StoreModel {
        StoreModel {
            version: self.version,
            treasury_address: self.treasury_address@,
            applications: self.applications@,
            whitelist: self.whitelist@,
            ledger: self.ledger@,
            events: events_model(self.events@),
        }
    }
}

impl StoreModel {
    /// The store's shape agrees with its schema version: up to version 1
    /// the records and the whitelist carry the old layout, from version 2
    /// on the new one; and every record respects its data bound.
    pub open spec fn wf(self) -> bool {
        &&& (self.version <= 1 ==> self.applications is Legacy && self.whitelist is ByteValued)
        &&& (self.version >= 2 ==> self.applications is Current && self.whitelist is Marker)
        &&& (match self.applications {
            ApplicationTableModel::Legacy(s) => forall|i: int|
                0 <= i < s.len() ==> (#[trigger] s[i]).1.wf(),
            ApplicationTableModel::Current(s) => forall|i: int|
                0 <= i < s.len() ==> (#[trigger] s[i]).1.wf(),
        })
    }
}

impl Store {
    /// Whether the store is well formed: its shape agrees with its schema
    /// version and every record respects its data bound.
    pub fn check_well_formed(&self) -> (r: bool)
        ensures
            r == self@.wf(),
    {
        match &self.applications {
            ApplicationTable::Legacy(rows) => {
                if self.version >= 2 {
                    return false;
                }
                if !(matches!(&self.whitelist, WhitelistTable::ByteValued(_))) {
                    return false;
                }
                let n = rows.len();
                let mut i: usize = 0;
                while i < n
                    invariant
                        i <= n,
                        n == rows@.len(),
                        self@.applications == ApplicationTableModel::Legacy(
                            legacy_rows_model(rows@),
                        ),
                        forall|j: int|
                            0 <= j < i ==> (#[trigger] legacy_rows_model(rows@)[j]).1.wf(),
                    decreases n - i,
                {
                    if rows[i].1.data.len() > MAX_APPLICATION_DATA_LEN {
                        proof {
                            let s = self@.applications->Legacy_0;
                            assert(s == legacy_rows_model(rows@));
                            assert(s[i as int].1 == rows@[i as int].1@);
                            assert(!s[i as int].1.wf());
                            assert(!self@.wf());
                        }
                        return false;
                    }
                    i += 1;
                }
            },
            ApplicationTable::Current(rows) => {
                if self.version <= 1 {
                    return false;
                }
                if !(matches!(&self.whitelist, WhitelistTable::Marker(_))) {
                    return false;
                }
                let n = rows.len();
                let mut i: usize = 0;
                while i < n
                    invariant
                        i <= n,
                        n == rows@.len(),
                        self@.applications == ApplicationTableModel::Current(
                            current_rows_model(rows@),
                        ),
                        forall|j: int|
                            0 <= j < i ==> (#[trigger] current_rows_model(rows@)[j]).1.wf(),
                    decreases n - i,
                {
                    if rows[i].1.data.len() > MAX_APPLICATION_DATA_LEN {
                        proof {
                            let s = self@.applications->Current_0;
                            assert(s == current_rows_model(rows@));
                            assert(s[i as int].1 == rows@[i as int].1@);
                            assert(!s[i as int].1.wf());
                            assert(!self@.wf());
                        }
                        return false;
                    }
                    i += 1;
                }
            },
        }
        true
    }
}

} // verus!
