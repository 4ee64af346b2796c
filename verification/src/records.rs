//! The two shapes of a stored curator-application record.
//!
//! The legacy shape predates the `block_number` field; translation to the
//! current shape keeps every other field unchanged and defaults the new
//! field to 0, so no record can be dropped or left unmigrated.

use vstd::prelude::*;

use crate::account::AccountId;

verus! {

/// The status tag of an application record.
#[derive(Clone, Copy, PartialEq, Eq, Structural, Debug)]
pub enum ApplicationStatus {
    Pending,
    Accepted,
    Refused,
}

/// The bound on the byte blob a record may carry.
pub const MAX_APPLICATION_DATA_LEN: usize = 256;

/// A record under the legacy shape, before `block_number` existed.
pub struct OldCuratorApplication {
    pub id: u64,
    pub user_id: AccountId,
    pub paying_for: AccountId,
    pub data: Vec<u8>,
    pub status: ApplicationStatus,
    pub application_cost: u64,
}

/// A record under the current shape.
pub struct CuratorApplication {
    pub id: u64,
    pub user_id: AccountId,
    pub paying_for: AccountId,
    pub data: Vec<u8>,
    pub status: ApplicationStatus,
    pub application_cost: u64,
    pub block_number: u64,
}

/// Mathematical model of a legacy record.
pub ghost struct OldApplicationModel {
    pub id: u64,
    pub user_id: Seq<u8>,
    pub paying_for: Seq<u8>,
    pub data: Seq<u8>,
    pub status: ApplicationStatus,
    pub application_cost: u64,
}

/// Mathematical model of a current record.
pub ghost struct ApplicationModel {
    pub id: u64,
    pub user_id: Seq<u8>,
    pub paying_for: Seq<u8>,
    pub data: Seq<u8>,
    pub status: ApplicationStatus,
    pub application_cost: u64,
    pub block_number: u64,
}

impl View for OldCuratorApplication {
    type V = OldApplicationModel;

    open spec fn view(&self) -> OldApplicationModel {
        OldApplicationModel {
            id: self.id,
            user_id: self.user_id@,
            paying_for: self.paying_for@,
            data: self.data@,
            status: self.status,
            application_cost: self.application_cost,
        }
    }
}

impl View for CuratorApplication {
    type V = ApplicationModel;

    open spec fn view(&self) -> ApplicationModel {
        ApplicationModel {
            id: self.id,
            user_id: self.user_id@,
            paying_for: self.paying_for@,
            data: self.data@,
            status: self.status,
            application_cost: self.application_cost,
            block_number: self.block_number,
        }
    }
}

impl OldApplicationModel {
    /// A record never carries more data bytes than the bound allows.
    pub open spec fn wf(self) -> bool {
        self.data.len() <= MAX_APPLICATION_DATA_LEN
    }
}

impl ApplicationModel {
    /// A record never carries more data bytes than the bound allows.
    pub open spec fn wf(self) -> bool {
        self.data.len() <= MAX_APPLICATION_DATA_LEN
    }
}

/// The pure, total reshaping of a legacy record into a current one: every
/// legacy field is kept as it is and the new field defaults to 0.
pub open spec fn translate_model(old: OldApplicationModel) -> ApplicationModel {
    ApplicationModel {
        id: old.id,
        user_id: old.user_id,
        paying_for: old.paying_for,
        data: old.data,
        status: old.status,
        application_cost: old.application_cost,
        block_number: 0,
    }
}

/// Translates one legacy record to the current shape.
pub fn translate_application(old: OldCuratorApplication) -> (r: CuratorApplication)
    ensures
        r@ == translate_model(old@),
{
    CuratorApplication {
        id: old.id,
        user_id: old.user_id,
        paying_for: old.paying_for,
        data: old.data,
        status: old.status,
        application_cost: old.application_cost,
        block_number: 0,
    }
}

} // verus!
