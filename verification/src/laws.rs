//! Proved laws of the migration pipeline.
//!
//! Each proof function here states a property that relates several
//! operations of the library, over the mathematical models the operations'
//! own contracts use.

use vstd::prelude::*;

use crate::account::default_account_seq;
use crate::ledger::{balance_in, lemma_transfer_balances, transfer_check};
use crate::migrations::{
    migrate_v2_model, migrate_v3_model, migrate_v4_model, rotate_treasury_model, translate_table,
    v4_predecessor, v4_target, old_treasury_key_seq, whitelist_keys,
};
use crate::account::recover_model;
use crate::store::{StoreModel, Track};

verus! {

/// After translation the store holds exactly as many records as before,
/// under the same keys in the same order, every record's id, user, payer,
/// data, status and cost unchanged, and the new field equal to 0.
pub proof fn lemma_translation_preserves_records(s: StoreModel)
    requires
        s.wf(),
        s.version == 1,
    ensures
        migrate_v2_model(s).applications is Current,
        migrate_v2_model(s).applications->Current_0.len() == s.applications->Legacy_0.len(),
        forall|i: int|
            0 <= i < s.applications->Legacy_0.len() ==> {
                let old = s.applications->Legacy_0[i];
                let new = #[trigger] migrate_v2_model(s).applications->Current_0[i];
                &&& new.0 == old.0
                &&& new.1.id == old.1.id
                &&& new.1.user_id == old.1.user_id
                &&& new.1.paying_for == old.1.paying_for
                &&& new.1.data == old.1.data
                &&& new.1.status == old.1.status
                &&& new.1.application_cost == old.1.application_cost
                &&& new.1.block_number == 0
            },
{
    assert forall|i: int| 0 <= i < s.applications->Legacy_0.len() implies {
        let old = s.applications->Legacy_0[i];
        let new = #[trigger] migrate_v2_model(s).applications->Current_0[i];
        &&& new.0 == old.0
        &&& new.1.id == old.1.id
        &&& new.1.user_id == old.1.user_id
        &&& new.1.paying_for == old.1.paying_for
        &&& new.1.data == old.1.data
        &&& new.1.status == old.1.status
        &&& new.1.application_cost == old.1.application_cost
        &&& new.1.block_number == 0
    } by {
        assert(translate_table(s.applications->Legacy_0)[i] == (
            s.applications->Legacy_0[i].0,
            crate::records::translate_model(s.applications->Legacy_0[i].1),
        ));
    }
}

/// Running the record-translation step twice is the same as running it
/// once: a second run finds the version advanced past the predecessor and
/// changes nothing.
pub proof fn lemma_migrate_v2_idempotent(s: StoreModel)
    ensures
        migrate_v2_model(migrate_v2_model(s)) == migrate_v2_model(s),
{
}

/// Running the treasury rotation twice is the same as running it once,
/// for any key blob: a successful run advances the version past the
/// predecessor, and an aborted or skipped run changes nothing.
pub proof fn lemma_rotate_treasury_idempotent(s: StoreModel, blob: Seq<u8>, track: Track)
    ensures
        rotate_treasury_model(rotate_treasury_model(s, blob, track), blob, track)
            == rotate_treasury_model(s, blob, track),
{
}

/// Running the treasury rotation step twice is the same as running it
/// once.
pub proof fn lemma_migrate_v3_idempotent(s: StoreModel, track: Track)
    ensures
        migrate_v3_model(migrate_v3_model(s, track), track) == migrate_v3_model(s, track),
{
}

/// Running the balance-relocation step twice is the same as running it
/// once.
pub proof fn lemma_migrate_v4_idempotent(s: StoreModel, track: Track)
    ensures
        migrate_v4_model(migrate_v4_model(s, track), track) == migrate_v4_model(s, track),
{
}

/// Whitelist re-encoding keeps exactly the keys: the set of account
/// identifiers present before the migration equals the set present after,
/// for any whitelist, the empty one included; in fact even the order of
/// the keys is preserved.
pub proof fn lemma_whitelist_keys_preserved(s: StoreModel)
    requires
        s.wf(),
        s.version == 1,
    ensures
        migrate_v2_model(s).whitelist is Marker,
        migrate_v2_model(s).whitelist->Marker_0 == whitelist_keys(s.whitelist->ByteValued_0),
        migrate_v2_model(s).whitelist->Marker_0.to_set() == whitelist_keys(
            s.whitelist->ByteValued_0,
        ).to_set(),
{
}

/// The rotation's safety check: whenever the recovered identifier equals
/// the structural default — recovery fell back, so the derivation failed —
/// the stored treasury address is unchanged and the version counter is not
/// advanced.
pub proof fn lemma_rotation_aborts_on_default(s: StoreModel, blob: Seq<u8>, track: Track)
    requires
        recover_model(blob).id() == default_account_seq(),
    ensures
        rotate_treasury_model(s, blob, track) == s,
{
}

/// Balance relocation, with `old` the recovered old treasury identifier,
/// `a` its balance and `b` the stored address's balance: on an accepted
/// transfer the old identifier ends at 0 and the new one at `a + b`; with
/// nothing to move the ledger is untouched; and on a refused transfer the
/// ledger is untouched but the version still advances.
pub proof fn lemma_balance_relocation(s: StoreModel, track: Track)
    requires
        s.wf(),
        s.version == v4_predecessor(track),
        recover_model(old_treasury_key_seq()).id() != s.treasury_address,
    ensures
        ({
            let old = recover_model(old_treasury_key_seq()).id();
            let new = s.treasury_address;
            let a = balance_in(s.ledger.accounts, old);
            let b = balance_in(s.ledger.accounts, new);
            let after = migrate_v4_model(s, track);
            &&& after.version == v4_target(track)
            &&& (a > 0 && transfer_check(s.ledger, old, new, a, true) is Ok ==> {
                &&& balance_in(after.ledger.accounts, old) == 0
                &&& balance_in(after.ledger.accounts, new) == a + b
            })
            &&& (a == 0 ==> after.ledger == s.ledger)
            &&& (a > 0 && transfer_check(s.ledger, old, new, a, true) is Err ==> after.ledger
                == s.ledger)
        }),
{
    let old = recover_model(old_treasury_key_seq()).id();
    let new = s.treasury_address;
    let a = balance_in(s.ledger.accounts, old);
    if a > 0 && transfer_check(s.ledger, old, new, a, true) is Ok {
        lemma_transfer_balances(s.ledger, old, new, a, true);
    }
}

} // verus!
