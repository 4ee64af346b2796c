//! Account identifiers and identity recovery.
//!
//! An identifier is 32 raw bytes. Identity recovery derives an identifier
//! from a raw public-key blob: a degenerate blob (all zeros or all ones)
//! or one too short to decode falls back to the structurally-derived
//! default identifier for the module.

use vstd::prelude::*;
use vstd::slice::slice_index_get;

verus! {

/// The store's native type for naming an account: 32 raw bytes.
#[derive(Clone, Copy)]
pub struct AccountId {
    pub bytes: [u8; 32],
}

impl View for AccountId {
    type V = Seq<u8>;

    open spec fn view(&self) -> Seq<u8> {
        self.bytes@
    }
}

/// Byte-wise equality of two identifiers.
pub fn account_eq(a: &AccountId, b: &AccountId) -> (r: bool)
    ensures
        r == (a@ == b@),
{
    let mut i: usize = 0;
    while i < 32
        invariant
            i <= 32,
            forall|j: int| 0 <= j < i ==> a@[j] == b@[j],
        decreases 32 - i,
    {
        if a.bytes[i] != b.bytes[i] {
            proof {
                assert(a@[i as int] != b@[i as int]);
            }
            return false;
        }
        i += 1;
    }
    proof {
        assert(a@ =~= b@);
    }
    true
}

/// Every byte of the sequence equals `b`.
pub open spec fn all_bytes_are(s: Seq<u8>, b: u8) -> bool {
    forall|i: int| 0 <= i < s.len() ==> s[i] == b
}

/// A blob is degenerate when it is all zeros or all ones: such sentinel
/// patterns are never real key material.
pub open spec fn degenerate_blob(s: Seq<u8>) -> bool {
    all_bytes_are(s, 0) || all_bytes_are(s, 0xff)
}

fn is_degenerate(blob: &[u8]) -> (r: bool)
    ensures
        r == degenerate_blob(blob@),
{
    let n = blob.len();
    let mut all_zeros = true;
    let mut all_ones = true;
    let mut i: usize = 0;
    while i < n
        invariant
            i <= n,
            n == blob@.len(),
            all_zeros == forall|j: int| 0 <= j < i ==> blob@[j] == 0,
            all_ones == forall|j: int| 0 <= j < i ==> blob@[j] == 0xff,
        decreases n - i,
    {
        if *slice_index_get(blob, i) != 0 {
            all_zeros = false;
        }
        if *slice_index_get(blob, i) != 0xff {
            all_ones = false;
        }
        i += 1;
    }
    all_zeros || all_ones
}

/// Validates that a raw public key has an acceptable shape: a key that is
/// all zeros or all ones is a degenerate sentinel pattern, not real key
/// material.
pub fn is_valid_public_key(public_key: &[u8; 36]) -> (r: bool)
    ensures
        r == !degenerate_blob(public_key@),
{
    !is_degenerate(public_key.as_slice())
}

/// The identifier derived structurally from the module tag alone, with no
/// storage access: the tag "modl" ++ "py/subsp", zero-padded to 32 bytes.
pub open spec fn default_account_seq() -> Seq<u8> {
    seq![
        0x6du8, 0x6f, 0x64, 0x6c, 0x70, 0x79, 0x2f, 0x73, 0x75, 0x62, 0x73, 0x70, 0, 0, 0, 0,
        0, 0, 0, 0, 0, 0, 0, 0, 0, 0, 0, 0, 0, 0, 0, 0,
    ]
}

/// Builds the structurally-derived default identifier for the module.
pub fn default_account() -> (r: AccountId)
    ensures
        r@ == default_account_seq(),
{
    let bytes: [u8; 32] = [
        0x6d, 0x6f, 0x64, 0x6c, 0x70, 0x79, 0x2f, 0x73, 0x75, 0x62, 0x73, 0x70, 0, 0, 0, 0, 0,
        0, 0, 0, 0, 0, 0, 0, 0, 0, 0, 0, 0, 0, 0, 0,
    ];
    proof {
        assert(bytes@ =~= default_account_seq());
    }
    AccountId { bytes }
}

/// Relies on parity_scale_codec's `Decode` for `[u8; 32]`: decoding reads
/// exactly 32 raw bytes from the front of the input and fails exactly when
/// fewer than 32 bytes remain.
#[verifier::external_body]
fn decode_account_bytes(blob: &[u8]) -> (r: Option<AccountId>)
    ensures
        r is Some <==> blob@.len() >= 32,
        r is Some ==> r->Some_0@ == blob@.subrange(0, 32),
{
    match <[u8; 32] as parity_scale_codec::Decode>::decode(&mut &blob[..]) {
        Ok(bytes) => Some(AccountId { bytes }),
        Err(_) => None,
    }
}

/// The outcome of identity recovery: either an identifier decoded from the
/// blob, or the default identifier after validation or decoding failed.
pub enum Recovery {
    Recovered(AccountId),
    FellBackToDefault(AccountId),
}

/// Mathematical model of a recovery outcome, over plain byte sequences.
pub ghost enum RecoveryModel {
    Recovered(Seq<u8>),
    FellBackToDefault(Seq<u8>),
}

impl View for Recovery {
    type V = RecoveryModel;

    open spec fn view(&self) -> RecoveryModel {
        match self {
            Recovery::Recovered(a) => RecoveryModel::Recovered(a@),
            Recovery::FellBackToDefault(a) => RecoveryModel::FellBackToDefault(a@),
        }
    }
}

impl RecoveryModel {
    /// The identifier carried by the outcome, whichever way it was reached.
    pub open spec fn id(self) -> Seq<u8> {
        match self {
            RecoveryModel::Recovered(s) => s,
            RecoveryModel::FellBackToDefault(s) => s,
        }
    }
}

impl Recovery {
    /// The identifier carried by the outcome, whichever way it was reached.
    pub fn id(&self) -> (r: AccountId)
        ensures
            r@ == self@.id(),
    {
        match self {
            Recovery::Recovered(a) => *a,
            Recovery::FellBackToDefault(a) => *a,
        }
    }
}

/// What identity recovery returns for a given blob: a degenerate blob and
/// one too short to decode fall back to the default identifier; any other
/// blob yields its first 32 bytes.
pub open spec fn recover_model(blob: Seq<u8>) -> RecoveryModel {
    if degenerate_blob(blob) || blob.len() < 32 {
        RecoveryModel::FellBackToDefault(default_account_seq())
    } else {
        RecoveryModel::Recovered(blob.subrange(0, 32))
    }
}

/// Derives an account identifier from a raw public-key blob. A blob that is
/// all zeros or all ones is rejected as degenerate, and a blob the codec
/// cannot decode is rejected too; both fall back to the default identifier.
pub fn recover_account(blob: &[u8]) -> (r: Recovery)
    ensures
        r@ == recover_model(blob@),
{
    if is_degenerate(blob) {
        return Recovery::FellBackToDefault(default_account());
    }
    match decode_account_bytes(blob) {
        Some(account) => Recovery::Recovered(account),
        None => Recovery::FellBackToDefault(default_account()),
    }
}

/// Identity recovery never raises and returns the default identifier for
/// every all-zero blob, every all-one blob, and every blob too short to
/// decode, whatever its length.
pub proof fn lemma_recovery_falls_back_on_bad_blobs(blob: Seq<u8>)
    requires
        all_bytes_are(blob, 0) || all_bytes_are(blob, 0xff) || blob.len() < 32,
    ensures
        recover_model(blob) == RecoveryModel::FellBackToDefault(default_account_seq()),
        recover_model(blob).id() == default_account_seq(),
{
}

} // verus!
