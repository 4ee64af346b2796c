//! The currency model: account balances, balance queries, and transfers.
//!
//! The ledger records each account's free balance. A transfer may drain its
//! source completely when the caller allows it, must leave the receiving
//! account at or above the existential deposit, and fails without mutating
//! anything otherwise. The first entry for a key is authoritative; the
//! operations never create a second entry for the same key.

use vstd::prelude::*;

use crate::account::{account_eq, AccountId};

verus! {

/// Why a transfer was refused. The ledger never mutates on a refusal.
#[derive(Clone, Copy, PartialEq, Eq, Structural, Debug)]
pub enum TransferError {
    /// The source holds less than the requested amount.
    InsufficientBalance,
    /// The receiving account's balance would exceed the largest
    /// representable amount.
    Overflow,
    /// The receiving account would end below the existential deposit.
    BelowMinimum,
    /// The source would end below the existential deposit and the caller
    /// did not allow draining it out of existence.
    WouldKillSource,
}

/// Mathematical model of the ledger: the existential deposit and the
/// account entries, each a key with its balance.
pub ghost struct LedgerModel {
    pub existential_deposit: u64,
    pub accounts: Seq<(Seq<u8>, u64)>,
}

/// The balance recorded for `who`: the first entry with that key, or 0 when
/// there is none.
pub open spec fn balance_in(accounts: Seq<(Seq<u8>, u64)>, who: Seq<u8>) -> u64
    decreases accounts.len(),
{
    if accounts.len() == 0 {
        0
    } else if accounts[0].0 == who {
        accounts[0].1
    } else {
        balance_in(accounts.skip(1), who)
    }
}

/// The entries after setting `who`'s balance to `v`: the first entry with
/// that key is replaced, or a new entry is appended when there is none.
pub open spec fn with_balance(accounts: Seq<(Seq<u8>, u64)>, who: Seq<u8>, v: u64) -> Seq<
    (Seq<u8>, u64),
>
    decreases accounts.len(),
{
    if accounts.len() == 0 {
        seq![(who, v)]
    } else if accounts[0].0 == who {
        accounts.update(0, (who, v))
    } else {
        seq![accounts[0]] + with_balance(accounts.skip(1), who, v)
    }
}

/// Setting a balance changes exactly that key: `who` then holds `v` and
/// every other key's balance is untouched.
pub proof fn lemma_balance_after_set(accounts: Seq<(Seq<u8>, u64)>, who: Seq<u8>, v: u64)
    ensures
        balance_in(with_balance(accounts, who, v), who) == v,
        forall|k: Seq<u8>|
            k != who ==> balance_in(with_balance(accounts, who, v), k) == balance_in(accounts, k),
    decreases accounts.len(),
{
    let r = with_balance(accounts, who, v);
    if accounts.len() == 0 {
        assert(r == seq![(who, v)]);
        assert(r.skip(1) =~= Seq::<(Seq<u8>, u64)>::empty());
        assert(balance_in(r, who) == v);
        assert forall|k: Seq<u8>| k != who implies balance_in(r, k) == balance_in(accounts, k) by {
            assert(balance_in(r, k) == balance_in(r.skip(1), k));
            assert(balance_in(r.skip(1), k) == 0);
        }
    } else if accounts[0].0 == who {
        assert(r == accounts.update(0, (who, v)));
        assert(r.skip(1) =~= accounts.skip(1));
        assert(balance_in(r, who) == v);
        assert forall|k: Seq<u8>| k != who implies balance_in(r, k) == balance_in(accounts, k) by {
            assert(balance_in(r, k) == balance_in(r.skip(1), k));
            assert(balance_in(accounts, k) == balance_in(accounts.skip(1), k));
        }
    } else {
        lemma_balance_after_set(accounts.skip(1), who, v);
        let rr = with_balance(accounts.skip(1), who, v);
        assert(r == seq![accounts[0]] + rr);
        assert(r[0] == accounts[0]);
        assert(r.skip(1) =~= rr);
        assert(balance_in(r, who) == balance_in(rr, who));
        assert forall|k: Seq<u8>| k != who implies balance_in(r, k) == balance_in(accounts, k) by {
            if k == accounts[0].0 {
                assert(balance_in(r, k) == r[0].1);
                assert(balance_in(accounts, k) == accounts[0].1);
            } else {
                assert(balance_in(r, k) == balance_in(rr, k));
                assert(balance_in(accounts, k) == balance_in(accounts.skip(1), k));
            }
        }
    }
}

/// Whether a transfer of `amount` from `from` to `to` is accepted, and the
/// reason when it is not. A transfer to oneself, or of nothing, only checks
/// that the source holds the amount.
pub open spec fn transfer_check(
    l: LedgerModel,
    from: Seq<u8>,
    to: Seq<u8>,
    amount: u64,
    allow_death: bool,
) -> Result<(), TransferError> {
    let bal_from = balance_in(l.accounts, from);
    let bal_to = balance_in(l.accounts, to);
    if bal_from < amount {
        Err(TransferError::InsufficientBalance)
    } else if from == to || amount == 0 {
        Ok(())
    } else if bal_to + amount > u64::MAX {
        Err(TransferError::Overflow)
    } else if bal_to + amount < l.existential_deposit {
        Err(TransferError::BelowMinimum)
    } else if !allow_death && bal_from - amount < l.existential_deposit {
        Err(TransferError::WouldKillSource)
    } else {
        Ok(())
    }
}

/// The ledger after the transfer: on an accepted transfer that actually
/// moves something, the amount leaves `from` and reaches `to`; in every
/// other case the ledger is unchanged.
pub open spec fn transfer_model(
    l: LedgerModel,
    from: Seq<u8>,
    to: Seq<u8>,
    amount: u64,
    allow_death: bool,
) -> LedgerModel {
    let bal_from = balance_in(l.accounts, from);
    let bal_to = balance_in(l.accounts, to);
    if transfer_check(l, from, to, amount, allow_death) is Ok && from != to && amount > 0 {
        LedgerModel {
            existential_deposit: l.existential_deposit,
            accounts: with_balance(
                with_balance(l.accounts, to, (bal_to + amount) as u64),
                from,
                (bal_from - amount) as u64,
            ),
        }
    } else {
        l
    }
}

/// An accepted transfer that moves something leaves the source drained by
/// the amount, the destination raised by it, and every other balance
/// untouched.
pub proof fn lemma_transfer_balances(
    l: LedgerModel,
    from: Seq<u8>,
    to: Seq<u8>,
    amount: u64,
    allow_death: bool,
)
    requires
        transfer_check(l, from, to, amount, allow_death) is Ok,
        from != to,
        amount > 0,
    ensures
        balance_in(transfer_model(l, from, to, amount, allow_death).accounts, from) == balance_in(
            l.accounts,
            from,
        ) - amount,
        balance_in(transfer_model(l, from, to, amount, allow_death).accounts, to) == balance_in(
            l.accounts,
            to,
        ) + amount,
        forall|k: Seq<u8>|
            k != from && k != to ==> balance_in(
                transfer_model(l, from, to, amount, allow_death).accounts,
                k,
            ) == balance_in(l.accounts, k),
{
    let bal_from = balance_in(l.accounts, from);
    let bal_to = balance_in(l.accounts, to);
    let credited = with_balance(l.accounts, to, (bal_to + amount) as u64);
    lemma_balance_after_set(l.accounts, to, (bal_to + amount) as u64);
    lemma_balance_after_set(credited, from, (bal_from - amount) as u64);
}

/// The account ledger: the existential deposit every account must keep to
/// exist, and each account's entry.
pub struct Ledger {
    pub existential_deposit: u64,
    pub accounts: Vec<(AccountId, u64)>,
}

impl View for Ledger {
    type V = LedgerModel;

    open spec fn view(&self) -> LedgerModel {
        LedgerModel {
            existential_deposit: self.existential_deposit,
            accounts: Seq::new(
                self.accounts@.len(),
                |i: int| (self.accounts@[i].0@, self.accounts@[i].1),
            ),
        }
    }
}

/// The first-match balance of a prefix is the balance of the whole
/// sequence, as long as the prefix holds no entry for the key.
proof fn lemma_balance_past_prefix(accounts: Seq<(Seq<u8>, u64)>, who: Seq<u8>, i: int)
    requires
        0 <= i <= accounts.len(),
        forall|j: int| 0 <= j < i ==> accounts[j].0 != who,
    ensures
        balance_in(accounts, who) == balance_in(accounts.skip(i), who),
    decreases i,
{
    if i == 0 {
        assert(accounts.skip(0) =~= accounts);
    } else {
        lemma_balance_past_prefix(accounts.skip(1), who, i - 1);
        assert(accounts.skip(1).skip(i - 1) =~= accounts.skip(i));
        assert(balance_in(accounts, who) == balance_in(accounts.skip(1), who));
    }
}

/// When the first entry for the key stands at `i`, setting the balance
/// replaces exactly that entry.
proof fn lemma_set_at_first_match(accounts: Seq<(Seq<u8>, u64)>, who: Seq<u8>, v: u64, i: int)
    requires
        0 <= i < accounts.len(),
        accounts[i].0 == who,
        forall|j: int| 0 <= j < i ==> accounts[j].0 != who,
    ensures
        with_balance(accounts, who, v) =~= accounts.update(i, (who, v)),
    decreases i,
{
    if i == 0 {
    } else {
        lemma_set_at_first_match(accounts.skip(1), who, v, i - 1);
        assert(seq![accounts[0]] + accounts.skip(1).update(i - 1, (who, v)) =~= accounts.update(
            i,
            (who, v),
        ));
    }
}

/// When no entry holds the key, setting the balance appends a new entry.
proof fn lemma_set_when_absent(accounts: Seq<(Seq<u8>, u64)>, who: Seq<u8>, v: u64)
    requires
        forall|j: int| 0 <= j < accounts.len() ==> accounts[j].0 != who,
    ensures
        with_balance(accounts, who, v) =~= accounts.push((who, v)),
    decreases accounts.len(),
{
    if accounts.len() > 0 {
        lemma_set_when_absent(accounts.skip(1), who, v);
        assert(seq![accounts[0]] + accounts.skip(1).push((who, v)) =~= accounts.push((who, v)));
    }
}

impl Ledger {
    /// A ledger with the given existential deposit and no accounts.
    pub fn new(existential_deposit: u64) -> (r: Ledger)
        ensures
            r@.existential_deposit == existential_deposit,
            r@.accounts =~= Seq::<(Seq<u8>, u64)>::empty(),
    {
        Ledger { existential_deposit, accounts: Vec::new() }
    }

    /// The free balance of `who`: 0 for an account with no entry.
    pub fn free_balance(&self, who: &AccountId) -> (r: u64)
        ensures
            r == balance_in(self@.accounts, who@),
    {
        let ghost model = self@.accounts;
        let n = self.accounts.len();
        let mut i: usize = 0;
        while i < n
            invariant
                i <= n,
                n == self.accounts@.len(),
                model == self@.accounts,
                n == model.len(),
                forall|j: int| 0 <= j < i ==> model[j].0 != who@,
            decreases n - i,
        {
            if account_eq(&self.accounts[i].0, who) {
                proof {
                    lemma_balance_past_prefix(model, who@, i as int);
                    assert(model.skip(i as int)[0] == model[i as int]);
                }
                return self.accounts[i].1;
            }
            i += 1;
        }
        proof {
            lemma_balance_past_prefix(model, who@, n as int);
        }
        0
    }

    /// Sets `who`'s recorded balance to `v`, appending an entry when none
    /// exists.
    pub fn set_balance(&mut self, who: &AccountId, v: u64)
        ensures
            final(self)@.existential_deposit == old(self)@.existential_deposit,
            final(self)@.accounts == with_balance(old(self)@.accounts, who@, v),
    {
        let ghost model = self@.accounts;
        let n = self.accounts.len();
        let mut i: usize = 0;
        while i < n
            invariant
                i <= n,
                *self == *old(self),
                n == self.accounts@.len(),
                model == self@.accounts,
                n == model.len(),
                forall|j: int| 0 <= j < i ==> model[j].0 != who@,
            decreases n - i,
        {
            if account_eq(&self.accounts[i].0, who) {
                self.accounts[i] = (*who, v);
                proof {
                    lemma_set_at_first_match(model, who@, v, i as int);
                    assert(self@.accounts =~= model.update(i as int, (who@, v)));
                }
                return ;
            }
            i += 1;
        }
        self.accounts.push((*who, v));
        proof {
            lemma_set_when_absent(model, who@, v);
            assert(self@.accounts =~= model.push((who@, v)));
        }
    }

    /// Moves `amount` from `from` to `to`. `allow_death` permits the source
    /// to be fully drained. Exactly the refusals of `transfer_check` come
    /// back as errors, and the ledger is mutated only on success.
    pub fn transfer(
        &mut self,
        from: &AccountId,
        to: &AccountId,
        amount: u64,
        allow_death: bool,
    ) -> (r: Result<(), TransferError>)
        ensures
            r == transfer_check(old(self)@, from@, to@, amount, allow_death),
            final(self)@ == transfer_model(old(self)@, from@, to@, amount, allow_death),
    {
        let bal_from = self.free_balance(from);
        if bal_from < amount {
            return Err(TransferError::InsufficientBalance);
        }
        if account_eq(from, to) || amount == 0 {
            return Ok(());
        }
        let bal_to = self.free_balance(to);
        if u64::MAX - amount < bal_to {
            return Err(TransferError::Overflow);
        }
        let new_to = bal_to + amount;
        if new_to < self.existential_deposit {
            return Err(TransferError::BelowMinimum);
        }
        if !allow_death && bal_from - amount < self.existential_deposit {
            return Err(TransferError::WouldKillSource);
        }
        self.set_balance(to, new_to);
        self.set_balance(from, bal_from - amount);
        proof {
            lemma_balance_after_set(old(self)@.accounts, to@, new_to);
        }
        Ok(())
    }
}

} // verus!
