use vstd::prelude::*;

use crate::account_info::empty_info;
use crate::account_info::info_eq;
use crate::account_info::AccountInfo;
use crate::account_info::AccountInfoSnap;
use crate::account_info::U256;
use crate::account_status::AccountStatus;
use crate::fold::fold_changed_spec;
use crate::fold::fold_destroyed_again_spec;
use crate::fold::fold_destroyed_new_changed_spec;
use crate::fold::fold_destroyed_new_spec;
use crate::fold::fold_destroyed_spec;
use crate::fold::fold_new_changed_spec;
use crate::fold::fold_new_spec;
use crate::fold::fold_spec;
use crate::fold::legal_transition;
use crate::fold::status_pre_destroy;
use crate::plain_account::PlainAccount;
use crate::plain_account::PlainAccountSnap;
use crate::reverts::apply_revert_spec;
use crate::reverts::exploded_slots;
use crate::reverts::restore_all_slots;
use crate::reverts::restored_slots_of;
use crate::reverts::revert_slots_from_update;
use crate::reverts::revert_view;
use crate::reverts::surviving_slots_of;
use crate::reverts::AccountInfoRevert;
use crate::reverts::AccountRevert;
use crate::reverts::RevertToSlot;
use crate::storage::entries_to_map;
use crate::storage::lemma_entries_to_map_push;
use crate::storage::lemma_take_key_fresh;
use crate::storage::present_part;
use crate::storage::PlainStorage;
use crate::storage::SlotMap;
use crate::transition_account::TransitionAccount;

verus! {

/// One account as the bundle holds it: the account data (absent when the
/// account does not currently exist) and its lifecycle status.
#[derive(Debug)]
pub struct BundleAccount {
    pub account: Option<PlainAccount>,
    pub status: AccountStatus,
}

/// Mathematical image of a [`BundleAccount`].
#[verifier::ext_equal]
pub ghost struct BundleAccountSnap {
    pub account: Option<PlainAccountSnap>,
    pub status: AccountStatus,
}

impl View for BundleAccount {
    type V = BundleAccountSnap;

    open spec fn view(&self) -> BundleAccountSnap {
        BundleAccountSnap {
            account: match self.account {
                Option::Some(a) => Option::Some(a@),
                Option::None => Option::None,
            },
            status: self.status,
        }
    }
}

impl BundleAccountSnap {
    /// The account's info, or the empty account where no data is held.
    pub open spec fn pre_info(self) -> AccountInfoSnap {
        match self.account {
            Option::Some(a) => a.info,
            Option::None => empty_info(),
        }
    }

    /// The account's storage, or the empty map where no data is held.
    pub open spec fn pre_storage(self) -> Map<U256, U256> {
        match self.account {
            Option::Some(a) => a.storage,
            Option::None => Map::empty(),
        }
    }

    /// The bundle entry's own invariant: data is absent exactly under the
    /// three data-less statuses, and an account loaded as empty carries the
    /// empty info.
    pub open spec fn valid(self) -> bool {
        &&& self.account is None <==> self.status.spec_is_absent()
        &&& self.status is LoadedEmptyEIP161 ==> info_eq(self.account->0.info, empty_info())
    }
}

impl Clone for BundleAccount {
    fn clone(&self) -> (r: Self)
        ensures
            r@ == self@,
            r.wf() == self.wf(),
    {
        BundleAccount {
            account: match &self.account {
                Option::Some(a) => Option::Some(a.clone()),
                Option::None => Option::None,
            },
            status: self.status,
        }
    }
}

impl BundleAccount {
    /// Distinct storage keys.
    pub open spec fn storage_wf(&self) -> bool {
        match self.account {
            Option::Some(a) => a.wf(),
            Option::None => true,
        }
    }

    /// Distinct storage keys, and the entry's own invariant.
    pub open spec fn wf(&self) -> bool {
        &&& self.storage_wf()
        &&& self@.valid()
    }

    pub fn new(account: Option<PlainAccount>, status: AccountStatus) -> (r: BundleAccount)
        ensures
            r@ == (BundleAccountSnap {
                account: match account {
                    Option::Some(a) => Option::Some(a@),
                    Option::None => Option::None,
                },
                status,
            }),
    {
        BundleAccount { account, status }
    }

    /// Present value of the given storage slot, where the account exists and
    /// has the slot.
    pub fn storage_slot(&self, slot: U256) -> (r: Option<U256>)
        requires
            self.wf(),
        ensures
            r == (match self@.account {
                Option::Some(a) => if a.storage.contains_key(slot) {
                    Option::Some(a.storage[slot])
                } else {
                    Option::<U256>::None
                },
                Option::None => Option::<U256>::None,
            }),
    {
        match &self.account {
            Option::Some(a) => a.storage.get(slot),
            Option::None => Option::None,
        }
    }

    /// The account's info, where it exists.
    pub fn account_info(&self) -> (r: Option<AccountInfo>)
        ensures
            r is Some <==> self@.account is Some,
            r is Some ==> r->0@ == self@.account->0.info,
    {
        match &self.account {
            Option::Some(a) => Option::Some(a.info.clone()),
            Option::None => Option::None,
        }
    }

    /// Whether the bundle holds live account data created or changed within
    /// the bundle itself.
    pub fn is_some(&self) -> (r: bool)
        ensures
            r == self.status.spec_is_live(),
    {
        match self.status {
            AccountStatus::Changed => true,
            AccountStatus::New => true,
            AccountStatus::NewChanged => true,
            AccountStatus::DestroyedNew => true,
            AccountStatus::DestroyedNewChanged => true,
            _ => false,
        }
    }

    /// Touch an empty account under the state-clear rule: a touched empty
    /// account is removed. Valid only on `DestroyedNew`, `New` and
    /// `LoadedEmptyEIP161`.
    pub fn touch_empty(&mut self)
        requires
            old(self).wf(),
            old(self).status is DestroyedNew || old(self).status is New || old(self).status
                is LoadedEmptyEIP161,
        ensures
            final(self).wf(),
            final(self)@.account is None,
            final(self)@.status == (if old(self).status is DestroyedNew {
                AccountStatus::DestroyedAgain
            } else {
                AccountStatus::Destroyed
            }),
    {
        self.status = match self.status {
            AccountStatus::DestroyedNew => AccountStatus::DestroyedAgain,
            _ => AccountStatus::Destroyed,
        };
        self.account = Option::None;
    }

    /// Self-destruct this account: drop its data and emit the transition
    /// record of the destruction, with empty storage and no info, so that
    /// downstream fold machinery sees it.
    pub fn selfdestruct(&mut self) -> (t: TransitionAccount)
        requires
            old(self).wf(),
        ensures
            final(self).wf(),
            final(self)@.account is None,
            final(self)@.status == (if old(self).status is DestroyedNew || old(self).status
                is DestroyedNewChanged || old(self).status is Destroyed {
                AccountStatus::DestroyedAgain
            } else {
                AccountStatus::Destroyed
            }),
            t.wf(),
            t@.info is None,
            t@.status == final(self)@.status,
            t@.previous_status == old(self).status,
            t@.previous_info is Some <==> old(self)@.account is Some,
            t@.previous_info is Some ==> t@.previous_info->0 == old(self)@.account->0.info,
            t@.storage == Map::<U256, crate::storage::StorageSlot>::empty(),
    {
        let new_status = match self.status {
            AccountStatus::DestroyedNew => AccountStatus::DestroyedAgain,
            AccountStatus::DestroyedNewChanged => AccountStatus::DestroyedAgain,
            AccountStatus::Destroyed => AccountStatus::DestroyedAgain,
            _ => AccountStatus::Destroyed,
        };
        let previous_status = self.status;
        let previous_info = match self.account.take() {
            Option::Some(a) => Option::Some(a.info),
            Option::None => Option::None,
        };
        self.status = new_status;
        TransitionAccount {
            info: Option::None,
            status: new_status,
            previous_info,
            previous_status,
            storage: SlotMap::new(),
        }
    }

    /// Fold one transition into this bundle entry and return the revert that
    /// undoes the fold, or nothing where the fold is a no-op.
    ///
    /// Which transition tags are legal on which current status is exactly
    /// [`legal_transition`]; any other pairing is a caller error and is ruled
    /// out here rather than absorbed. Both the new state and the revert are
    /// pinned by [`fold_spec`], the fold table written as a specification.
    pub fn update_and_create_revert(&mut self, transition: TransitionAccount) -> (r: Option<
        AccountRevert,
    >)
        requires
            old(self).wf(),
            transition.wf(),
            legal_transition(old(self).status, transition.status),
        ensures
            final(self).wf(),
            final(self)@ == fold_spec(old(self)@, transition@).0,
            revert_view(r) == fold_spec(old(self)@, transition@).1,
            r matches Option::Some(rev) ==> rev.wf(),
    {
        match transition.status {
            AccountStatus::Loaded => Option::None,
            AccountStatus::LoadedNotExisting => Option::None,
            AccountStatus::LoadedEmptyEIP161 => Option::None,
            AccountStatus::Changed => Option::Some(self.apply_changed(transition)),
            AccountStatus::New => Option::Some(self.apply_new(transition)),
            AccountStatus::NewChanged => Option::Some(self.apply_new_changed(transition)),
            AccountStatus::Destroyed => self.apply_destroyed(transition),
            AccountStatus::DestroyedNew => self.apply_destroyed_new(transition),
            AccountStatus::DestroyedNewChanged => self.apply_destroyed_new_changed(transition),
            AccountStatus::DestroyedAgain => self.apply_destroyed_again(transition),
        }
    }

    /// Undo one fold: restore the info by its tag, each storage slot by its
    /// undo entry, and the recorded original status.
    ///
    /// For a revert that [`Self::update_and_create_revert`] emitted, the
    /// round-trip law in the laws module says what this restores: the
    /// pre-fold state, up to the transition's freshly observed keys.
    pub fn apply_revert(&mut self, revert: &AccountRevert)
        requires
            old(self).storage_wf(),
            revert.wf(),
        ensures
            final(self).storage_wf(),
            final(self)@ == apply_revert_spec(old(self)@, revert@),
    {
        let (info_opt, base): (Option<AccountInfo>, PlainStorage) = match self.account.take() {
            Option::Some(a) => (Option::Some(a.info), a.storage),
            Option::None => (Option::None, SlotMap::new()),
        };
        proof {
            assert(base@ =~= old(self)@.pre_storage());
        }
        let ghost rs = revert.storage@;
        let mut storage = PlainStorage::new();
        let n = base.entries.len();
        let mut i: usize = 0;
        while i < n
            invariant
                n == base.entries@.len(),
                i <= n,
                base.wf(),
                storage.wf(),
                revert.wf(),
                rs == revert.storage@,
                storage@ == surviving_slots_of(entries_to_map(base.entries@.take(i as int)), rs),
            decreases n - i,
        {
            let p = base.entries[i];
            let wiped = match revert.storage.get(p.0) {
                Option::Some(RevertToSlot::Destroyed) => true,
                _ => false,
            };
            if !wiped {
                storage.insert(p.0, p.1);
            }
            proof {
                let pre = base.entries@.take(i as int);
                assert(base.entries@.take(i + 1) =~= pre.push(base.entries@[i as int]));
                lemma_entries_to_map_push(pre, base.entries@[i as int]);
                lemma_take_key_fresh(base.entries@, i as int);
                if wiped {
                    assert(surviving_slots_of(entries_to_map(pre), rs) =~= surviving_slots_of(
                        entries_to_map(base.entries@.take(i + 1)),
                        rs,
                    ));
                } else {
                    assert(surviving_slots_of(entries_to_map(pre), rs).insert(p.0, p.1)
                        =~= surviving_slots_of(entries_to_map(base.entries@.take(i + 1)), rs));
                }
            }
            i = i + 1;
        }
        proof {
            assert(base.entries@.take(n as int) =~= base.entries@);
        }
        let m = revert.storage.entries.len();
        let mut j: usize = 0;
        while j < m
            invariant
                m == revert.storage.entries@.len(),
                j <= m,
                storage.wf(),
                revert.wf(),
                rs == revert.storage@,
                storage@ == surviving_slots_of(base@, rs).union_prefer_right(
                    restored_slots_of(entries_to_map(revert.storage.entries@.take(j as int))),
                ),
            decreases m - j,
        {
            let p = revert.storage.entries[j];
            match p.1 {
                RevertToSlot::Restore(v) => {
                    storage.insert(p.0, v);
                },
                RevertToSlot::Destroyed => {},
            }
            proof {
                let pre = revert.storage.entries@.take(j as int);
                assert(revert.storage.entries@.take(j + 1) =~= pre.push(
                    revert.storage.entries@[j as int],
                ));
                lemma_entries_to_map_push(pre, revert.storage.entries@[j as int]);
                lemma_take_key_fresh(revert.storage.entries@, j as int);
                let grown = restored_slots_of(
                    entries_to_map(revert.storage.entries@.take(j + 1)),
                );
                match p.1 {
                    RevertToSlot::Restore(v) => {
                        assert(surviving_slots_of(base@, rs).union_prefer_right(
                            restored_slots_of(entries_to_map(pre)),
                        ).insert(p.0, v) =~= surviving_slots_of(base@, rs).union_prefer_right(
                            grown,
                        ));
                    },
                    RevertToSlot::Destroyed => {
                        assert(surviving_slots_of(base@, rs).union_prefer_right(
                            restored_slots_of(entries_to_map(pre)),
                        ) =~= surviving_slots_of(base@, rs).union_prefer_right(grown));
                    },
                }
            }
            j = j + 1;
        }
        proof {
            assert(revert.storage.entries@.take(m as int) =~= revert.storage.entries@);
            assert(storage@ =~= crate::reverts::apply_slots(old(self)@.pre_storage(), rs));
        }
        let account = match &revert.account {
            AccountInfoRevert::DoNothing => match info_opt {
                Option::Some(inf) => Option::Some(PlainAccount { info: inf, storage }),
                Option::None => Option::None,
            },
            AccountInfoRevert::DeleteIt => Option::None,
            AccountInfoRevert::RevertTo(i) => Option::Some(
                PlainAccount { info: i.clone(), storage },
            ),
        };
        self.account = account;
        self.status = revert.original_status;
    }

    /// `Changed` row of the fold table.
    fn apply_changed(&mut self, transition: TransitionAccount) -> (r: AccountRevert)
        requires
            old(self).wf(),
            transition.wf(),
            transition.status is Changed,
            legal_transition(old(self).status, transition.status),
        ensures
            final(self).wf(),
            final(self)@ == fold_changed_spec(old(self)@, transition@).0,
            r.wf(),
            Option::Some(r@) == fold_changed_spec(old(self)@, transition@).1,
    {
        let original_status = self.status;
        let updated_info = match transition.info {
            Option::Some(i) => i,
            Option::None => AccountInfo::empty(),
        };
        let revert_storage = revert_slots_from_update(&transition.storage);
        let nps = present_part(&transition.storage);
        let acct = self.account.take().unwrap();
        let revert_account = if !acct.info.same_info(&updated_info) {
            AccountInfoRevert::RevertTo(acct.info)
        } else {
            AccountInfoRevert::DoNothing
        };
        let mut storage = acct.storage;
        storage.extend(nps);
        self.account = Option::Some(PlainAccount { info: updated_info, storage });
        self.status = AccountStatus::Changed;
        AccountRevert { account: revert_account, storage: revert_storage, original_status }
    }

    /// `New` row of the fold table.
    fn apply_new(&mut self, transition: TransitionAccount) -> (r: AccountRevert)
        requires
            old(self).wf(),
            transition.wf(),
            transition.status is New,
            legal_transition(old(self).status, transition.status),
        ensures
            final(self).wf(),
            final(self)@ == fold_new_spec(old(self)@, transition@).0,
            r.wf(),
            Option::Some(r@) == fold_new_spec(old(self)@, transition@).1,
    {
        let original_status = self.status;
        let updated_info = match transition.info {
            Option::Some(i) => i,
            Option::None => AccountInfo::empty(),
        };
        let revert_storage = revert_slots_from_update(&transition.storage);
        let nps = present_part(&transition.storage);
        let storage = match self.account.take() {
            Option::Some(acct) => {
                let mut s = acct.storage;
                s.extend(nps);
                s
            },
            Option::None => {
                proof {
                    assert(old(self)@.pre_storage().union_prefer_right(nps@) =~= nps@);
                }
                nps
            },
        };
        let revert_account = match original_status {
            AccountStatus::LoadedEmptyEIP161 => AccountInfoRevert::RevertTo(AccountInfo::empty()),
            _ => AccountInfoRevert::DeleteIt,
        };
        self.account = Option::Some(PlainAccount { info: updated_info, storage });
        self.status = AccountStatus::New;
        AccountRevert { account: revert_account, storage: revert_storage, original_status }
    }

    /// `NewChanged` row of the fold table.
    fn apply_new_changed(&mut self, transition: TransitionAccount) -> (r: AccountRevert)
        requires
            old(self).wf(),
            transition.wf(),
            transition.status is NewChanged,
            legal_transition(old(self).status, transition.status),
        ensures
            final(self).wf(),
            final(self)@ == fold_new_changed_spec(old(self)@, transition@).0,
            r.wf(),
            Option::Some(r@) == fold_new_changed_spec(old(self)@, transition@).1,
    {
        let original_status = self.status;
        let updated_info = match transition.info {
            Option::Some(i) => i,
            Option::None => AccountInfo::empty(),
        };
        let revert_storage = revert_slots_from_update(&transition.storage);
        let nps = present_part(&transition.storage);
        let (revert_account, storage) = match self.account.take() {
            Option::Some(acct) => {
                let ra = if !acct.info.same_info(&updated_info) {
                    AccountInfoRevert::RevertTo(AccountInfo::empty())
                } else {
                    AccountInfoRevert::DoNothing
                };
                let mut s = acct.storage;
                s.extend(nps);
                (ra, s)
            },
            Option::None => {
                proof {
                    assert(old(self)@.pre_storage().union_prefer_right(nps@) =~= nps@);
                }
                (AccountInfoRevert::DeleteIt, nps)
            },
        };
        let next_status = match original_status {
            AccountStatus::New => AccountStatus::NewChanged,
            AccountStatus::NewChanged => AccountStatus::NewChanged,
            _ => AccountStatus::New,
        };
        self.account = Option::Some(PlainAccount { info: updated_info, storage });
        self.status = next_status;
        AccountRevert { account: revert_account, storage: revert_storage, original_status }
    }

    /// `Destroyed` row of the fold table.
    fn apply_destroyed(&mut self, transition: TransitionAccount) -> (r: Option<AccountRevert>)
        requires
            old(self).wf(),
            transition.wf(),
            transition.status is Destroyed,
            legal_transition(old(self).status, transition.status),
        ensures
            final(self).wf(),
            final(self)@ == fold_destroyed_spec(old(self)@, transition@).0,
            revert_view(r) == fold_destroyed_spec(old(self)@, transition@).1,
            r matches Option::Some(rev) ==> rev.wf(),
    {
        match self.status {
            AccountStatus::LoadedNotExisting => {
                return Option::None;
            },
            _ => {},
        }
        let original_status = match self.status {
            AccountStatus::Loaded => AccountStatus::LoadedEmptyEIP161,
            _ => self.status,
        };
        let acct = self.account.take().unwrap();
        let revert = AccountRevert {
            account: AccountInfoRevert::RevertTo(acct.info),
            storage: restore_all_slots(acct.storage),
            original_status,
        };
        self.status = AccountStatus::Destroyed;
        Option::Some(revert)
    }

    /// `DestroyedNew` row of the fold table.
    fn apply_destroyed_new(&mut self, transition: TransitionAccount) -> (r: Option<AccountRevert>)
        requires
            old(self).wf(),
            transition.wf(),
            transition.status is DestroyedNew,
            legal_transition(old(self).status, transition.status),
        ensures
            final(self).wf(),
            final(self)@ == fold_destroyed_new_spec(old(self)@, transition@).0,
            revert_view(r) == fold_destroyed_new_spec(old(self)@, transition@).1,
            r matches Option::Some(rev) ==> rev.wf(),
    {
        let original_status = self.status;
        match original_status {
            AccountStatus::DestroyedNew => {
                return Option::None;
            },
            _ => {},
        }
        let updated_info = match transition.info {
            Option::Some(i) => i,
            Option::None => AccountInfo::empty(),
        };
        let revert = if status_pre_destroy(original_status) {
            let acct = self.account.take().unwrap();
            AccountRevert {
                account: AccountInfoRevert::RevertTo(acct.info),
                storage: exploded_slots(acct.storage, &transition.storage),
                original_status,
            }
        } else {
            let revert_account = match original_status {
                AccountStatus::DestroyedAgain => AccountInfoRevert::RevertTo(AccountInfo::empty()),
                _ => AccountInfoRevert::DeleteIt,
            };
            let revert_storage = match original_status {
                AccountStatus::DestroyedAgain => exploded_slots(SlotMap::new(), &transition.storage),
                _ => revert_slots_from_update(&transition.storage),
            };
            AccountRevert { account: revert_account, storage: revert_storage, original_status }
        };
        let nps = present_part(&transition.storage);
        self.account = Option::Some(PlainAccount { info: updated_info, storage: nps });
        self.status = match original_status {
            AccountStatus::LoadedNotExisting => AccountStatus::New,
            _ => AccountStatus::DestroyedNew,
        };
        Option::Some(revert)
    }

    /// `DestroyedNewChanged` row of the fold table.
    fn apply_destroyed_new_changed(&mut self, transition: TransitionAccount) -> (r: Option<
        AccountRevert,
    >)
        requires
            old(self).wf(),
            transition.wf(),
            transition.status is DestroyedNewChanged,
            legal_transition(old(self).status, transition.status),
        ensures
            final(self).wf(),
            final(self)@ == fold_destroyed_new_changed_spec(old(self)@, transition@).0,
            revert_view(r) == fold_destroyed_new_changed_spec(old(self)@, transition@).1,
            r matches Option::Some(rev) ==> rev.wf(),
    {
        let original_status = self.status;
        let updated_info = match transition.info {
            Option::Some(i) => i,
            Option::None => AccountInfo::empty(),
        };
        let revert = if status_pre_destroy(original_status) {
            let acct = self.account.take().unwrap();
            AccountRevert {
                account: AccountInfoRevert::RevertTo(acct.info),
                storage: exploded_slots(acct.storage, &transition.storage),
                original_status,
            }
        } else {
            let revert_storage = revert_slots_from_update(&transition.storage);
            let revert_account = match self.account.take() {
                Option::Some(acct) => {
                    match original_status {
                        AccountStatus::DestroyedNew => AccountInfoRevert::RevertTo(acct.info),
                        _ => {
                            // DestroyedNewChanged
                            if !acct.info.same_info(&updated_info) {
                                AccountInfoRevert::RevertTo(AccountInfo::empty())
                            } else {
                                AccountInfoRevert::DoNothing
                            }
                        },
                    }
                },
                Option::None => AccountInfoRevert::DeleteIt,
            };
            AccountRevert {
                account: revert_account,
                storage: revert_storage,
                original_status: AccountStatus::DestroyedNewChanged,
            }
        };
        let nps = present_part(&transition.storage);
        self.account = Option::Some(PlainAccount { info: updated_info, storage: nps });
        self.status = if status_pre_destroy(original_status) {
            AccountStatus::DestroyedNewChanged
        } else {
            match original_status {
                AccountStatus::LoadedNotExisting => AccountStatus::New,
                _ => AccountStatus::DestroyedNew,
            }
        };
        Option::Some(revert)
    }

    /// `DestroyedAgain` row of the fold table.
    fn apply_destroyed_again(&mut self, transition: TransitionAccount) -> (r: Option<
        AccountRevert,
    >)
        requires
            old(self).wf(),
            transition.wf(),
            transition.status is DestroyedAgain,
            legal_transition(old(self).status, transition.status),
        ensures
            final(self).wf(),
            final(self)@ == fold_destroyed_again_spec(old(self)@, transition@).0,
            revert_view(r) == fold_destroyed_again_spec(old(self)@, transition@).1,
            r matches Option::Some(rev) ==> rev.wf(),
    {
        let original_status = self.status;
        if status_pre_destroy(original_status) {
            let acct = self.account.take().unwrap();
            let revert = AccountRevert {
                account: AccountInfoRevert::RevertTo(acct.info),
                storage: restore_all_slots(acct.storage),
                original_status,
            };
            self.status = AccountStatus::DestroyedAgain;
            return Option::Some(revert);
        }
        match original_status {
            AccountStatus::DestroyedNew | AccountStatus::DestroyedNewChanged => {
                let acct = self.account.take().unwrap();
                let revert = AccountRevert {
                    account: AccountInfoRevert::RevertTo(acct.info),
                    storage: revert_slots_from_update(&transition.storage),
                    original_status,
                };
                self.status = AccountStatus::DestroyedAgain;
                Option::Some(revert)
            },
            _ => Option::None,
        }
    }
}

} // verus!
