use vstd::prelude::*;

use crate::account_info::AccountInfo;
use crate::account_info::AccountInfoSnap;
use crate::account_info::U256;
use crate::storage::PlainStorage;
use crate::storage::SlotMap;

verus! {

/// In-memory mirror of one account held by the bundle: its info and the
/// present value of every storage slot observed so far.
#[derive(Debug)]
pub struct PlainAccount {
    pub info: AccountInfo,
    pub storage: PlainStorage,
}

/// Mathematical image of a [`PlainAccount`].
#[verifier::ext_equal]
pub ghost struct PlainAccountSnap {
    pub info: AccountInfoSnap,
    pub storage: Map<U256, U256>,
}

impl View for PlainAccount {
    type V = PlainAccountSnap;

    open spec fn view(&self) -> PlainAccountSnap {
        PlainAccountSnap { info: self.info@, storage: self.storage@ }
    }
}

impl PlainAccount {
    pub open spec fn wf(&self) -> bool {
        self.storage.wf()
    }

    pub fn new(info: AccountInfo, storage: PlainStorage) -> (r: PlainAccount)
        ensures
            r@ == (PlainAccountSnap { info: info@, storage: storage@ }),
            storage.wf() ==> r.wf(),
    {
        PlainAccount { info, storage }
    }

    /// An account record with empty info and no storage.
    pub fn new_empty() -> (r: PlainAccount)
        ensures
            r@ == (PlainAccountSnap {
                info: crate::account_info::empty_info(),
                storage: Map::<U256, U256>::empty(),
            }),
            r.wf(),
    {
        PlainAccount { info: AccountInfo::empty(), storage: SlotMap::new() }
    }
}

impl Clone for PlainAccount {
    fn clone(&self) -> (r: Self)
        ensures
            r@ == self@,
            r.wf() == self.wf(),
    {
        PlainAccount { info: self.info.clone(), storage: self.storage.clone() }
    }
}

} // verus!
