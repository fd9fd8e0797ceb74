use vstd::prelude::*;

use crate::account_info::empty_info;
use crate::account_info::info_eq;
use crate::account_info::AccountInfoSnap;
use crate::account_info::U256;
use crate::account_status::AccountStatus;
use crate::bundle_account::BundleAccountSnap;
use crate::plain_account::PlainAccountSnap;
use crate::reverts::exploded_slots_of;
use crate::reverts::restore_slots_of;
use crate::reverts::revert_slots_of;
use crate::reverts::AccountInfoRevertSnap;
use crate::reverts::AccountRevertSnap;
use crate::storage::present_of;
use crate::transition_account::TransitionSnap;

verus! {

/// The transition tags that are legal on each current status: exactly the
/// cells of the fold table that are not fatal caller errors.
pub open spec fn legal_transition(current: AccountStatus, incoming: AccountStatus) -> bool {
    match incoming {
        AccountStatus::Loaded => true,
        AccountStatus::LoadedNotExisting => true,
        AccountStatus::LoadedEmptyEIP161 => true,
        AccountStatus::Changed => current is Loaded || current is Changed,
        AccountStatus::New => current is LoadedEmptyEIP161 || current is LoadedNotExisting,
        AccountStatus::NewChanged => current is LoadedEmptyEIP161 || current
            is LoadedNotExisting || current is New || current is NewChanged,
        AccountStatus::Destroyed => pre_destroy(current) || current is Loaded || current
            is LoadedNotExisting,
        AccountStatus::DestroyedNew => pre_destroy(current) || current is Destroyed || current
            is LoadedNotExisting || current is DestroyedAgain || current is DestroyedNew,
        AccountStatus::DestroyedNewChanged => pre_destroy(current) || current is Destroyed
            || current is DestroyedNew || current is DestroyedNewChanged || current
            is LoadedNotExisting,
        AccountStatus::DestroyedAgain => pre_destroy(current) || current is Destroyed || current
            is DestroyedNew || current is DestroyedNewChanged || current is DestroyedAgain
            || current is LoadedNotExisting,
    }
}

/// The statuses under which a self-destruct still finds live data from before
/// the destroy: the common "pre-destroy path" of the destroy-family rows.
pub open spec fn pre_destroy(current: AccountStatus) -> bool {
    current is NewChanged || current is New || current is Changed || current
        is LoadedEmptyEIP161
}

/// Runtime test matching [`legal_transition`], for callers that must guard a
/// fold whose inputs are not known to be legal.
pub fn is_legal_transition(current: AccountStatus, incoming: AccountStatus) -> (r: bool)
    ensures
        r == legal_transition(current, incoming),
{
    match incoming {
        AccountStatus::Loaded => true,
        AccountStatus::LoadedNotExisting => true,
        AccountStatus::LoadedEmptyEIP161 => true,
        AccountStatus::Changed => matches!(current, AccountStatus::Loaded | AccountStatus::Changed),
        AccountStatus::New => matches!(
            current,
            AccountStatus::LoadedEmptyEIP161 | AccountStatus::LoadedNotExisting,
        ),
        AccountStatus::NewChanged => matches!(
            current,
            AccountStatus::LoadedEmptyEIP161 | AccountStatus::LoadedNotExisting
                | AccountStatus::New | AccountStatus::NewChanged,
        ),
        AccountStatus::Destroyed => status_pre_destroy(current) || matches!(
            current,
            AccountStatus::Loaded | AccountStatus::LoadedNotExisting,
        ),
        AccountStatus::DestroyedNew => status_pre_destroy(current) || matches!(
            current,
            AccountStatus::Destroyed | AccountStatus::LoadedNotExisting
                | AccountStatus::DestroyedAgain | AccountStatus::DestroyedNew,
        ),
        AccountStatus::DestroyedNewChanged => status_pre_destroy(current) || matches!(
            current,
            AccountStatus::Destroyed | AccountStatus::DestroyedNew
                | AccountStatus::DestroyedNewChanged | AccountStatus::LoadedNotExisting,
        ),
        AccountStatus::DestroyedAgain => status_pre_destroy(current) || matches!(
            current,
            AccountStatus::Destroyed | AccountStatus::DestroyedNew
                | AccountStatus::DestroyedNewChanged | AccountStatus::DestroyedAgain
                | AccountStatus::LoadedNotExisting,
        ),
    }
}

/// Runtime test matching [`pre_destroy`].
pub fn status_pre_destroy(current: AccountStatus) -> (r: bool)
    ensures
        r == pre_destroy(current),
{
    match current {
        AccountStatus::NewChanged => true,
        AccountStatus::New => true,
        AccountStatus::Changed => true,
        AccountStatus::LoadedEmptyEIP161 => true,
        _ => false,
    }
}

/// `RevertTo(to)` where the fold changes the info, `DoNothing` where it
/// leaves the info as it stands.
pub open spec fn info_revert_if_changed(
    from: AccountInfoSnap,
    updated: AccountInfoSnap,
    to: AccountInfoSnap,
) -> AccountInfoRevertSnap {
    if !info_eq(from, updated) {
        AccountInfoRevertSnap::RevertTo(to)
    } else {
        AccountInfoRevertSnap::DoNothing
    }
}

/// Fold of a `Changed` transition: legal from `Loaded` or `Changed`. The
/// bundle keeps the union of its storage and the incoming present values; the
/// revert restores the prior info where it changed and each mutated slot's
/// original value.
pub open spec fn fold_changed_spec(b: BundleAccountSnap, t: TransitionSnap) -> (
    BundleAccountSnap,
    Option<AccountRevertSnap>,
) {
    let next = BundleAccountSnap {
        account: Option::Some(
            PlainAccountSnap {
                info: t.target_info(),
                storage: b.pre_storage().union_prefer_right(present_of(t.storage)),
            },
        ),
        status: AccountStatus::Changed,
    };
    let revert = AccountRevertSnap {
        account: info_revert_if_changed(b.pre_info(), t.target_info(), b.pre_info()),
        storage: revert_slots_of(t.storage),
        original_status: b.status,
    };
    (next, Option::Some(revert))
}

/// Fold of a `New` transition: legal from `LoadedEmptyEIP161` or
/// `LoadedNotExisting`. The revert restores the empty account in the first
/// case and deletes the account in the second.
pub open spec fn fold_new_spec(b: BundleAccountSnap, t: TransitionSnap) -> (
    BundleAccountSnap,
    Option<AccountRevertSnap>,
) {
    let next = BundleAccountSnap {
        account: Option::Some(
            PlainAccountSnap {
                info: t.target_info(),
                storage: b.pre_storage().union_prefer_right(present_of(t.storage)),
            },
        ),
        status: AccountStatus::New,
    };
    let revert_account = if b.status is LoadedEmptyEIP161 {
        AccountInfoRevertSnap::RevertTo(empty_info())
    } else {
        AccountInfoRevertSnap::DeleteIt
    };
    let revert = AccountRevertSnap {
        account: revert_account,
        storage: revert_slots_of(t.storage),
        original_status: b.status,
    };
    (next, Option::Some(revert))
}

/// Fold of a `NewChanged` transition: legal from `LoadedEmptyEIP161`,
/// `LoadedNotExisting`, `New` or `NewChanged`. From the two loaded statuses
/// the result collapses to `New` (that transition was never observed).
pub open spec fn fold_new_changed_spec(b: BundleAccountSnap, t: TransitionSnap) -> (
    BundleAccountSnap,
    Option<AccountRevertSnap>,
) {
    let status = if b.status is New || b.status is NewChanged {
        AccountStatus::NewChanged
    } else {
        AccountStatus::New
    };
    let next = BundleAccountSnap {
        account: Option::Some(
            PlainAccountSnap {
                info: t.target_info(),
                storage: b.pre_storage().union_prefer_right(present_of(t.storage)),
            },
        ),
        status,
    };
    let revert_account = if b.status is LoadedNotExisting {
        AccountInfoRevertSnap::DeleteIt
    } else {
        info_revert_if_changed(b.pre_info(), t.target_info(), empty_info())
    };
    let revert = AccountRevertSnap {
        account: revert_account,
        storage: revert_slots_of(t.storage),
        original_status: b.status,
    };
    (next, Option::Some(revert))
}

/// Fold of a `Destroyed` transition. Destroying a non-existent account is a
/// no-op; otherwise the data is dropped and the revert restores the prior
/// info and every present slot. Note the quirk of the `Loaded` row: the
/// revert records `LoadedEmptyEIP161` as the original status, not `Loaded`.
pub open spec fn fold_destroyed_spec(b: BundleAccountSnap, t: TransitionSnap) -> (
    BundleAccountSnap,
    Option<AccountRevertSnap>,
) {
    if b.status is LoadedNotExisting {
        (b, Option::None)
    } else {
        let original_status = if b.status is Loaded {
            AccountStatus::LoadedEmptyEIP161
        } else {
            b.status
        };
        let next = BundleAccountSnap { account: Option::None, status: AccountStatus::Destroyed };
        let revert = AccountRevertSnap {
            account: AccountInfoRevertSnap::RevertTo(b.pre_info()),
            storage: restore_slots_of(b.pre_storage()),
            original_status,
        };
        (next, Option::Some(revert))
    }
}

/// Fold of a `DestroyedNew` transition: the account was destroyed and then
/// recreated. On the pre-destroy path the revert restores the old data and
/// wipes every slot the recreation writes beyond it. From
/// `LoadedNotExisting` the result collapses to `New`; re-creating an already
/// re-created account is a no-op.
pub open spec fn fold_destroyed_new_spec(b: BundleAccountSnap, t: TransitionSnap) -> (
    BundleAccountSnap,
    Option<AccountRevertSnap>,
) {
    let created_account = Option::Some(
        PlainAccountSnap { info: t.target_info(), storage: present_of(t.storage) },
    );
    if pre_destroy(b.status) {
        let revert = AccountRevertSnap {
            account: AccountInfoRevertSnap::RevertTo(b.pre_info()),
            storage: exploded_slots_of(b.pre_storage(), t.storage),
            original_status: b.status,
        };
        (
            BundleAccountSnap { account: created_account, status: AccountStatus::DestroyedNew },
            Option::Some(revert),
        )
    } else if b.status is Destroyed {
        let revert = AccountRevertSnap {
            account: AccountInfoRevertSnap::DeleteIt,
            storage: revert_slots_of(t.storage),
            original_status: AccountStatus::Destroyed,
        };
        (
            BundleAccountSnap { account: created_account, status: AccountStatus::DestroyedNew },
            Option::Some(revert),
        )
    } else if b.status is LoadedNotExisting {
        let revert = AccountRevertSnap {
            account: AccountInfoRevertSnap::DeleteIt,
            storage: revert_slots_of(t.storage),
            original_status: AccountStatus::LoadedNotExisting,
        };
        (
            BundleAccountSnap { account: created_account, status: AccountStatus::New },
            Option::Some(revert),
        )
    } else if b.status is DestroyedAgain {
        let revert = AccountRevertSnap {
            account: AccountInfoRevertSnap::RevertTo(empty_info()),
            storage: exploded_slots_of(Map::empty(), t.storage),
            original_status: AccountStatus::DestroyedAgain,
        };
        (
            BundleAccountSnap { account: created_account, status: AccountStatus::DestroyedNew },
            Option::Some(revert),
        )
    } else {
        (b, Option::None)
    }
}

/// Fold of a `DestroyedNewChanged` transition. The pre-destroy path is as
/// for `DestroyedNew` except that the new status is `DestroyedNewChanged`.
/// Note the asymmetry of the remaining rows: the new status is
/// `DestroyedNew`, not `DestroyedNewChanged` (`LoadedNotExisting` collapses
/// to `New`), and the recorded original status is always
/// `DestroyedNewChanged`, whatever the current status was.
pub open spec fn fold_destroyed_new_changed_spec(b: BundleAccountSnap, t: TransitionSnap) -> (
    BundleAccountSnap,
    Option<AccountRevertSnap>,
) {
    let created_account = Option::Some(
        PlainAccountSnap { info: t.target_info(), storage: present_of(t.storage) },
    );
    if pre_destroy(b.status) {
        let revert = AccountRevertSnap {
            account: AccountInfoRevertSnap::RevertTo(b.pre_info()),
            storage: exploded_slots_of(b.pre_storage(), t.storage),
            original_status: b.status,
        };
        (
            BundleAccountSnap {
                account: created_account,
                status: AccountStatus::DestroyedNewChanged,
            },
            Option::Some(revert),
        )
    } else if b.status is LoadedNotExisting {
        let revert = AccountRevertSnap {
            account: AccountInfoRevertSnap::DeleteIt,
            storage: revert_slots_of(t.storage),
            original_status: AccountStatus::DestroyedNewChanged,
        };
        (
            BundleAccountSnap { account: created_account, status: AccountStatus::New },
            Option::Some(revert),
        )
    } else {
        let revert_account = if b.status is Destroyed {
            AccountInfoRevertSnap::DeleteIt
        } else if b.status is DestroyedNew {
            AccountInfoRevertSnap::RevertTo(b.pre_info())
        } else {
            info_revert_if_changed(b.pre_info(), t.target_info(), empty_info())
        };
        let revert = AccountRevertSnap {
            account: revert_account,
            storage: revert_slots_of(t.storage),
            original_status: AccountStatus::DestroyedNewChanged,
        };
        (
            BundleAccountSnap { account: created_account, status: AccountStatus::DestroyedNew },
            Option::Some(revert),
        )
    }
}

/// Fold of a `DestroyedAgain` transition. On the pre-destroy path the revert
/// restores the old data (no wipe overlay: the account ends destroyed, so no
/// recreated slots survive). Onto `Destroyed`, `DestroyedAgain` or
/// `LoadedNotExisting` it is a no-op.
pub open spec fn fold_destroyed_again_spec(b: BundleAccountSnap, t: TransitionSnap) -> (
    BundleAccountSnap,
    Option<AccountRevertSnap>,
) {
    if pre_destroy(b.status) {
        let revert = AccountRevertSnap {
            account: AccountInfoRevertSnap::RevertTo(b.pre_info()),
            storage: restore_slots_of(b.pre_storage()),
            original_status: b.status,
        };
        (
            BundleAccountSnap { account: Option::None, status: AccountStatus::DestroyedAgain },
            Option::Some(revert),
        )
    } else if b.status is DestroyedNew || b.status is DestroyedNewChanged {
        let revert = AccountRevertSnap {
            account: AccountInfoRevertSnap::RevertTo(b.pre_info()),
            storage: revert_slots_of(t.storage),
            original_status: b.status,
        };
        (
            BundleAccountSnap { account: Option::None, status: AccountStatus::DestroyedAgain },
            Option::Some(revert),
        )
    } else {
        (b, Option::None)
    }
}

/// The whole fold table: next bundle state and revert, by the transition's
/// tag and then the bundle's. Reload transitions are idempotent
/// re-observations and never mutate.
pub open spec fn fold_spec(b: BundleAccountSnap, t: TransitionSnap) -> (
    BundleAccountSnap,
    Option<AccountRevertSnap>,
) {
    match t.status {
        AccountStatus::Loaded => (b, Option::None),
        AccountStatus::LoadedNotExisting => (b, Option::None),
        AccountStatus::LoadedEmptyEIP161 => (b, Option::None),
        AccountStatus::Changed => fold_changed_spec(b, t),
        AccountStatus::New => fold_new_spec(b, t),
        AccountStatus::NewChanged => fold_new_changed_spec(b, t),
        AccountStatus::Destroyed => fold_destroyed_spec(b, t),
        AccountStatus::DestroyedNew => fold_destroyed_new_spec(b, t),
        AccountStatus::DestroyedNewChanged => fold_destroyed_new_changed_spec(b, t),
        AccountStatus::DestroyedAgain => fold_destroyed_again_spec(b, t),
    }
}

} // verus!
