use vstd::prelude::*;

use crate::account_info::AccountInfo;
use crate::account_info::AccountInfoSnap;
use crate::account_info::U256;
use crate::account_status::AccountStatus;
use crate::storage::entries_to_map;
use crate::storage::lemma_entries_to_map_push;
use crate::storage::lemma_take_key_fresh;
use crate::storage::PlainStorage;
use crate::storage::SlotMap;
use crate::storage::Storage;
use crate::storage::StorageSlot;

verus! {

/// How a revert restores the account info.
#[derive(Debug)]
pub enum AccountInfoRevert {
    /// The fold did not change the info; leave it as it stands.
    DoNothing,
    /// The account did not exist before the fold; remove it.
    DeleteIt,
    /// Put back this info.
    RevertTo(AccountInfo),
}

/// Mathematical image of an [`AccountInfoRevert`].
#[verifier::ext_equal]
pub ghost enum AccountInfoRevertSnap {
    DoNothing,
    DeleteIt,
    RevertTo(AccountInfoSnap),
}

impl View for AccountInfoRevert {
    type V = AccountInfoRevertSnap;

    open spec fn view(&self) -> AccountInfoRevertSnap {
        match self {
            AccountInfoRevert::DoNothing => AccountInfoRevertSnap::DoNothing,
            AccountInfoRevert::DeleteIt => AccountInfoRevertSnap::DeleteIt,
            AccountInfoRevert::RevertTo(i) => AccountInfoRevertSnap::RevertTo(i@),
        }
    }
}

impl Clone for AccountInfoRevert {
    fn clone(&self) -> (r: Self)
        ensures
            r@ == self@,
    {
        match self {
            AccountInfoRevert::DoNothing => AccountInfoRevert::DoNothing,
            AccountInfoRevert::DeleteIt => AccountInfoRevert::DeleteIt,
            AccountInfoRevert::RevertTo(i) => AccountInfoRevert::RevertTo(i.clone()),
        }
    }
}

/// How a revert restores one storage slot.
#[derive(Clone, Copy, PartialEq, Eq, Structural, Debug)]
pub enum RevertToSlot {
    /// Put back this value.
    Restore(U256),
    /// The slot must be wiped: the account was re-created after a
    /// self-destruct and the slot belongs to the re-creation only.
    Destroyed,
}

/// Per-slot undo entries of a revert, keyed by slot.
pub type RevertStorage = SlotMap<RevertToSlot>;

/// How to undo one fold: how to restore the info, how to restore each touched
/// slot, and the status the account carried before the fold.
#[derive(Debug)]
pub struct AccountRevert {
    pub account: AccountInfoRevert,
    pub storage: RevertStorage,
    pub original_status: AccountStatus,
}

/// Mathematical image of an [`AccountRevert`].
#[verifier::ext_equal]
pub ghost struct AccountRevertSnap {
    pub account: AccountInfoRevertSnap,
    pub storage: Map<U256, RevertToSlot>,
    pub original_status: AccountStatus,
}

impl View for AccountRevert {
    type V = AccountRevertSnap;

    open spec fn view(&self) -> AccountRevertSnap {
        AccountRevertSnap {
            account: self.account@,
            storage: self.storage@,
            original_status: self.original_status,
        }
    }
}

impl AccountRevert {
    pub open spec fn wf(&self) -> bool {
        self.storage.wf()
    }
}

impl Clone for AccountRevert {
    fn clone(&self) -> (r: Self)
        ensures
            r@ == self@,
            r.wf() == self.wf(),
    {
        AccountRevert {
            account: self.account.clone(),
            storage: self.storage.clone(),
            original_status: self.original_status,
        }
    }
}

/// Image of an optional revert.
pub open spec fn revert_view(r: Option<AccountRevert>) -> Option<AccountRevertSnap> {
    match r {
        Option::Some(rev) => Option::Some(rev@),
        Option::None => Option::None,
    }
}

/// Apply per-slot undo entries to a storage map: `Restore(v)` puts `v` back,
/// `Destroyed` wipes the slot, untouched slots keep their value.
pub open spec fn apply_slots(s: Map<U256, U256>, rs: Map<U256, RevertToSlot>) -> Map<U256, U256> {
    Map::new(
        |k: U256|
            if rs.dom().contains(k) {
                rs[k] is Restore
            } else {
                s.dom().contains(k)
            },
        |k: U256|
            if rs.dom().contains(k) {
                match rs[k] {
                    RevertToSlot::Restore(v) => v,
                    RevertToSlot::Destroyed => s[k],
                }
            } else {
                s[k]
            },
    )
}

/// Apply a revert to a post-fold bundle entry: restore the info by tag,
/// restore each slot by its undo entry, and put back the recorded original
/// status.
pub open spec fn apply_revert_spec(
    post: crate::bundle_account::BundleAccountSnap,
    r: AccountRevertSnap,
) -> crate::bundle_account::BundleAccountSnap {
    let restored = apply_slots(post.pre_storage(), r.storage);
    let account = match r.account {
        AccountInfoRevertSnap::DoNothing => match post.account {
            Option::Some(a) => Option::Some(
                crate::plain_account::PlainAccountSnap { info: a.info, storage: restored },
            ),
            Option::None => Option::None,
        },
        AccountInfoRevertSnap::DeleteIt => Option::None,
        AccountInfoRevertSnap::RevertTo(i) => Option::Some(
            crate::plain_account::PlainAccountSnap { info: i, storage: restored },
        ),
    };
    crate::bundle_account::BundleAccountSnap { account, status: r.original_status }
}

/// The slots that survive a revert's undo entries: every present slot not
/// marked `Destroyed`.
pub open spec fn surviving_slots_of(s: Map<U256, U256>, rs: Map<U256, RevertToSlot>) -> Map<
    U256,
    U256,
> {
    Map::new(
        |k: U256| s.dom().contains(k) && !(rs.dom().contains(k) && rs[k] is Destroyed),
        |k: U256| s[k],
    )
}

/// The values a revert's undo entries put back.
pub open spec fn restored_slots_of(rs: Map<U256, RevertToSlot>) -> Map<U256, U256> {
    Map::new(
        |k: U256| rs.dom().contains(k) && rs[k] is Restore,
        |k: U256|
            match rs[k] {
                RevertToSlot::Restore(v) => v,
                RevertToSlot::Destroyed => U256::spec_zero(),
            },
    )
}

/// Per-slot undo entries of a transition's own mutations: each slot whose
/// value changed reverts to the value seen at the start of the transition.
pub open spec fn revert_slots_of(u: Map<U256, StorageSlot>) -> Map<U256, RevertToSlot> {
    Map::new(
        |k: U256| u.dom().contains(k) && u[k].original_value != u[k].present_value,
        |k: U256| RevertToSlot::Restore(u[k].original_value),
    )
}

/// Undo entries restoring every present slot of an account that a
/// self-destruct wiped.
pub open spec fn restore_slots_of(ps: Map<U256, U256>) -> Map<U256, RevertToSlot> {
    Map::new(|k: U256| ps.dom().contains(k), |k: U256| RevertToSlot::Restore(ps[k]))
}

/// Undo entries for a destroy-then-recreate: every slot the old account held
/// reverts to its value, and every slot the recreation writes beyond those
/// must be wiped.
pub open spec fn exploded_slots_of(ps: Map<U256, U256>, u: Map<U256, StorageSlot>) -> Map<
    U256,
    RevertToSlot,
> {
    Map::new(
        |k: U256| ps.dom().contains(k) || u.dom().contains(k),
        |k: U256|
            if ps.dom().contains(k) {
                RevertToSlot::Restore(ps[k])
            } else {
                RevertToSlot::Destroyed
            },
    )
}

/// Build the per-slot undo entries of a transition's own mutations.
pub fn revert_slots_from_update(u: &Storage) -> (r: RevertStorage)
    requires
        u.wf(),
    ensures
        r.wf(),
        r@ == revert_slots_of(u@),
{
    let mut r = SlotMap::<RevertToSlot>::new();
    let n = u.entries.len();
    let mut i: usize = 0;
    while i < n
        invariant
            n == u.entries@.len(),
            i <= n,
            u.wf(),
            r.wf(),
            r@ == revert_slots_of(entries_to_map(u.entries@.take(i as int))),
        decreases n - i,
    {
        let p = u.entries[i];
        if p.1.original_value != p.1.present_value {
            r.insert(p.0, RevertToSlot::Restore(p.1.original_value));
        }
        proof {
            let pre = u.entries@.take(i as int);
            assert(u.entries@.take(i + 1) =~= pre.push(u.entries@[i as int]));
            lemma_entries_to_map_push(pre, u.entries@[i as int]);
            lemma_take_key_fresh(u.entries@, i as int);
            if p.1.original_value != p.1.present_value {
                assert(revert_slots_of(entries_to_map(pre)).insert(
                    p.0,
                    RevertToSlot::Restore(p.1.original_value),
                ) =~= revert_slots_of(entries_to_map(u.entries@.take(i + 1))));
            } else {
                assert(revert_slots_of(entries_to_map(pre)) =~= revert_slots_of(
                    entries_to_map(u.entries@.take(i + 1)),
                ));
            }
        }
        i = i + 1;
    }
    proof {
        assert(u.entries@.take(n as int) =~= u.entries@);
    }
    r
}

/// Drain a wiped account's storage into undo entries that put every slot
/// back.
pub fn restore_all_slots(ps: PlainStorage) -> (r: RevertStorage)
    requires
        ps.wf(),
    ensures
        r.wf(),
        r@ == restore_slots_of(ps@),
{
    let mut r = SlotMap::<RevertToSlot>::new();
    let n = ps.entries.len();
    let mut i: usize = 0;
    while i < n
        invariant
            n == ps.entries@.len(),
            i <= n,
            ps.wf(),
            r.wf(),
            r@ == restore_slots_of(entries_to_map(ps.entries@.take(i as int))),
        decreases n - i,
    {
        let p = ps.entries[i];
        r.insert(p.0, RevertToSlot::Restore(p.1));
        proof {
            let pre = ps.entries@.take(i as int);
            assert(ps.entries@.take(i + 1) =~= pre.push(ps.entries@[i as int]));
            lemma_entries_to_map_push(pre, ps.entries@[i as int]);
            lemma_take_key_fresh(ps.entries@, i as int);
            assert(restore_slots_of(entries_to_map(pre)).insert(
                p.0,
                RevertToSlot::Restore(p.1),
            ) =~= restore_slots_of(entries_to_map(ps.entries@.take(i + 1))));
        }
        i = i + 1;
    }
    proof {
        assert(ps.entries@.take(n as int) =~= ps.entries@);
    }
    r
}

/// Drain a wiped account's storage into undo entries, and wipe on revert
/// every further slot the recreation writes.
pub fn exploded_slots(ps: PlainStorage, u: &Storage) -> (r: RevertStorage)
    requires
        ps.wf(),
        u.wf(),
    ensures
        r.wf(),
        r@ == exploded_slots_of(ps@, u@),
{
    let ghost ps_snap = ps@;
    let mut r = restore_all_slots(ps);
    proof {
        assert(r@ =~= exploded_slots_of(ps_snap, entries_to_map(u.entries@.take(0))));
    }
    let n = u.entries.len();
    let mut i: usize = 0;
    while i < n
        invariant
            n == u.entries@.len(),
            i <= n,
            u.wf(),
            r.wf(),
            r@ == exploded_slots_of(ps_snap, entries_to_map(u.entries@.take(i as int))),
        decreases n - i,
    {
        let p = u.entries[i];
        let absent = r.get(p.0).is_none();
        if absent {
            r.insert(p.0, RevertToSlot::Destroyed);
        }
        proof {
            let pre = u.entries@.take(i as int);
            assert(u.entries@.take(i + 1) =~= pre.push(u.entries@[i as int]));
            lemma_entries_to_map_push(pre, u.entries@[i as int]);
            lemma_take_key_fresh(u.entries@, i as int);
            if absent {
                assert(exploded_slots_of(ps_snap, entries_to_map(pre)).insert(
                    p.0,
                    RevertToSlot::Destroyed,
                ) =~= exploded_slots_of(ps_snap, entries_to_map(u.entries@.take(i + 1))));
            } else {
                assert(exploded_slots_of(ps_snap, entries_to_map(pre)) =~= exploded_slots_of(
                    ps_snap,
                    entries_to_map(u.entries@.take(i + 1)),
                ));
            }
        }
        i = i + 1;
    }
    proof {
        assert(u.entries@.take(n as int) =~= u.entries@);
    }
    r
}

} // verus!
