use vstd::prelude::*;

use crate::account_info::empty_info;
use crate::account_info::AccountInfo;
use crate::account_info::AccountInfoSnap;
use crate::account_info::U256;
use crate::account_status::AccountStatus;
use crate::storage::Storage;
use crate::storage::StorageSlot;

verus! {

/// Input to a fold: the post-image of one execution step for one account,
/// together with the lifecycle tag it intends to produce.
///
/// The `previous_*` fields are informational only; the fold is driven entirely
/// by the bundle's current status and this record's `status`.
#[derive(Debug)]
pub struct TransitionAccount {
    pub info: Option<AccountInfo>,
    pub status: AccountStatus,
    pub previous_info: Option<AccountInfo>,
    pub previous_status: AccountStatus,
    pub storage: Storage,
}

/// Mathematical image of a [`TransitionAccount`].
#[verifier::ext_equal]
pub ghost struct TransitionSnap {
    pub info: Option<AccountInfoSnap>,
    pub status: AccountStatus,
    pub previous_info: Option<AccountInfoSnap>,
    pub previous_status: AccountStatus,
    pub storage: Map<U256, StorageSlot>,
}

impl View for TransitionAccount {
    type V = TransitionSnap;

    open spec fn view(&self) -> TransitionSnap {
        TransitionSnap {
            info: match self.info {
                Option::Some(i) => Option::Some(i@),
                Option::None => Option::None,
            },
            status: self.status,
            previous_info: match self.previous_info {
                Option::Some(i) => Option::Some(i@),
                Option::None => Option::None,
            },
            previous_status: self.previous_status,
            storage: self.storage@,
        }
    }
}

impl TransitionSnap {
    /// The info the fold installs: a missing info defaults to the empty
    /// account.
    pub open spec fn target_info(self) -> AccountInfoSnap {
        match self.info {
            Option::Some(i) => i,
            Option::None => empty_info(),
        }
    }
}

impl TransitionAccount {
    pub open spec fn wf(&self) -> bool {
        self.storage.wf()
    }
}

impl Clone for TransitionAccount {
    fn clone(&self) -> (r: Self)
        ensures
            r@ == self@,
            r.wf() == self.wf(),
    {
        TransitionAccount {
            info: match &self.info {
                Option::Some(i) => Option::Some(i.clone()),
                Option::None => Option::None,
            },
            status: self.status,
            previous_info: match &self.previous_info {
                Option::Some(i) => Option::Some(i.clone()),
                Option::None => Option::None,
            },
            previous_status: self.previous_status,
            storage: self.storage.clone(),
        }
    }
}

} // verus!
