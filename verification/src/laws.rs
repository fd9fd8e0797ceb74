use vstd::prelude::*;

use crate::account_info::info_eq;
use crate::account_info::U256;
use crate::account_status::AccountStatus;
use crate::bundle_account::BundleAccountSnap;
use crate::fold::fold_spec;
use crate::fold::legal_transition;
use crate::fold::pre_destroy;
use crate::reverts::apply_revert_spec;
use crate::reverts::AccountRevertSnap;
use crate::transition_account::TransitionSnap;

verus! {

/// The transition's original slot values agree with the bundle's present
/// values on shared keys. In a correctly driven bundle the value a transition
/// saw at its start is the value the bundle holds.
pub open spec fn storage_coherent(b: BundleAccountSnap, t: TransitionSnap) -> bool {
    forall|k: U256|
        b.pre_storage().dom().contains(k) && #[trigger] t.storage.dom().contains(k)
            ==> t.storage[k].original_value == b.pre_storage()[k]
}

/// `b1` restores `b0` up to freshly observed storage keys: same status, same
/// account presence, same info (the code blob is compared by its hash), every
/// slot of `b0` restored exactly, and no slot beyond `b0`'s except keys the
/// transition itself introduced.
pub open spec fn restores_modulo_fresh(
    b1: BundleAccountSnap,
    b0: BundleAccountSnap,
    fresh: Set<U256>,
) -> bool {
    &&& b1.status == b0.status
    &&& (b1.account is Some <==> b0.account is Some)
    &&& (b1.account matches Option::Some(a1) ==> {
        let a0 = b0.account->0;
        &&& info_eq(a1.info, a0.info)
        &&& forall|k: U256|
            #[trigger] a0.storage.dom().contains(k) ==> a1.storage.dom().contains(k)
                && a1.storage[k] == a0.storage[k]
        &&& forall|k: U256|
            #[trigger] a1.storage.dom().contains(k) ==> a0.storage.dom().contains(k)
                || fresh.contains(k)
    })
}

/// The fold rows whose revert restores the pre-fold state exactly. The rows
/// left out fall short in one of four ways: they record a wrong original
/// status (`Destroyed` onto `Loaded` records `LoadedEmptyEIP161`; every
/// non-pre-destroy `DestroyedNewChanged` row records `DestroyedNewChanged`);
/// they revert the info to the default rather than the prior value
/// (`NewChanged` onto `New` or `NewChanged` with a changed info, and likewise
/// `DestroyedNewChanged` onto itself); they restore an empty account in place
/// of an absent one (`DestroyedNew` onto `DestroyedAgain`); or their undo
/// entries cover only the transition's own slots and lose the rest of the
/// destroyed storage (`DestroyedAgain` onto
/// `DestroyedNew`/`DestroyedNewChanged`).
pub open spec fn revert_is_exact(b: BundleAccountSnap, t: TransitionSnap) -> bool {
    match t.status {
        AccountStatus::Changed => true,
        AccountStatus::New => true,
        AccountStatus::NewChanged => b.status is LoadedEmptyEIP161 || b.status
            is LoadedNotExisting || ((b.status is New || b.status is NewChanged) && info_eq(
            b.pre_info(),
            t.target_info(),
        )),
        AccountStatus::Destroyed => pre_destroy(b.status),
        AccountStatus::DestroyedNew => pre_destroy(b.status) || b.status is Destroyed || b.status
            is LoadedNotExisting,
        AccountStatus::DestroyedNewChanged => pre_destroy(b.status),
        AccountStatus::DestroyedAgain => pre_destroy(b.status),
        _ => false,
    }
}

/// Idempotence of reloads: folding a transition tagged `Loaded`,
/// `LoadedNotExisting` or `LoadedEmptyEIP161` yields no revert and leaves the
/// bundle entry untouched.
pub proof fn lemma_reload_noop(b: BundleAccountSnap, t: TransitionSnap)
    requires
        t.status is Loaded || t.status is LoadedNotExisting || t.status is LoadedEmptyEIP161,
    ensures
        fold_spec(b, t) == (b, Option::<AccountRevertSnap>::None),
{
}

/// Destroying a non-existent account is a no-op.
pub proof fn lemma_destroy_not_existing_noop(b: BundleAccountSnap, t: TransitionSnap)
    requires
        t.status is Destroyed,
        b.status is LoadedNotExisting,
    ensures
        fold_spec(b, t) == (b, Option::<AccountRevertSnap>::None),
{
}

/// A repeated destruction folded onto `Destroyed`, `DestroyedAgain` or
/// `LoadedNotExisting` is a no-op.
pub proof fn lemma_destroyed_again_noop(b: BundleAccountSnap, t: TransitionSnap)
    requires
        t.status is DestroyedAgain,
        b.status is Destroyed || b.status is DestroyedAgain || b.status is LoadedNotExisting,
    ensures
        fold_spec(b, t) == (b, Option::<AccountRevertSnap>::None),
{
}

/// Invariant preservation: after any legal fold the bundle entry's own
/// invariant still holds — account data is absent exactly under
/// `LoadedNotExisting`, `Destroyed` and `DestroyedAgain`.
pub proof fn lemma_fold_preserves_validity(b: BundleAccountSnap, t: TransitionSnap)
    requires
        b.valid(),
        legal_transition(b.status, t.status),
    ensures
        fold_spec(b, t).0.valid(),
{
}

/// Round-trip law: on every fold row in [`revert_is_exact`], applying the
/// emitted revert to the post-fold state restores the pre-fold state — the
/// same status, the same account info, and every prior slot value — with at
/// most the transition's own freshly observed keys left over, and those are
/// erased wherever the revert marks them `Destroyed`.
pub proof fn lemma_fold_round_trip(b: BundleAccountSnap, t: TransitionSnap)
    requires
        b.valid(),
        legal_transition(b.status, t.status),
        storage_coherent(b, t),
        revert_is_exact(b, t),
    ensures
        fold_spec(b, t).1 is Some,
        restores_modulo_fresh(
            apply_revert_spec(fold_spec(b, t).0, fold_spec(b, t).1->0),
            b,
            t.storage.dom(),
        ),
{
    let (post, rev_opt) = fold_spec(b, t);
    let b1 = apply_revert_spec(post, rev_opt->0);
    match t.status {
        AccountStatus::Changed | AccountStatus::New | AccountStatus::NewChanged => {
            if b.status is LoadedNotExisting {
                // The revert deletes the account; the entry held none before.
                assert(b1.account is None && b.account is None);
            } else {
                lemma_extend_row_restores(b, t);
            }
        },
        AccountStatus::Destroyed | AccountStatus::DestroyedAgain => {
            lemma_wipe_row_restores(b, t);
        },
        AccountStatus::DestroyedNew | AccountStatus::DestroyedNewChanged => {
            if pre_destroy(b.status) {
                lemma_recreate_row_restores(b, t);
            } else {
                // Destroyed or LoadedNotExisting: the revert deletes the
                // account; the entry held none before.
                assert(b1.account is None && b.account is None);
            }
        },
        _ => {},
    }
}

/// Rows that keep the old storage and extend it with the incoming present
/// values (`Changed`, `New`, `NewChanged` onto a data-holding status):
/// applying the per-mutation undo entries restores every prior slot.
proof fn lemma_extend_row_restores(b: BundleAccountSnap, t: TransitionSnap)
    requires
        b.valid(),
        legal_transition(b.status, t.status),
        storage_coherent(b, t),
        revert_is_exact(b, t),
        t.status is Changed || t.status is New || t.status is NewChanged,
        !(b.status is LoadedNotExisting),
    ensures
        fold_spec(b, t).1 is Some,
        restores_modulo_fresh(
            apply_revert_spec(fold_spec(b, t).0, fold_spec(b, t).1->0),
            b,
            t.storage.dom(),
        ),
{
    let (post, rev_opt) = fold_spec(b, t);
    let b1 = apply_revert_spec(post, rev_opt->0);
    let ps = b.pre_storage();
    let u = t.storage;
    let a1 = b1.account->0;
    let a0 = b.account->0;
    assert(b.account is Some);
    assert(a0.storage == ps);
    assert forall|k: U256| #[trigger] a0.storage.dom().contains(k) implies a1.storage.dom().contains(
        k,
    ) && a1.storage[k] == a0.storage[k] by {
        if u.dom().contains(k) {
            assert(t.storage[k].original_value == ps[k]);
        }
    }
    assert forall|k: U256| #[trigger] a1.storage.dom().contains(k) implies a0.storage.dom().contains(
        k,
    ) || t.storage.dom().contains(k) by {}
}

/// Rows that wipe the account and record every present slot for restoration
/// (`Destroyed` and `DestroyedAgain` onto a data-holding status): applying
/// the revert rebuilds the wiped storage exactly.
proof fn lemma_wipe_row_restores(b: BundleAccountSnap, t: TransitionSnap)
    requires
        b.valid(),
        legal_transition(b.status, t.status),
        pre_destroy(b.status),
        t.status is Destroyed || t.status is DestroyedAgain,
    ensures
        fold_spec(b, t).1 is Some,
        restores_modulo_fresh(
            apply_revert_spec(fold_spec(b, t).0, fold_spec(b, t).1->0),
            b,
            t.storage.dom(),
        ),
{
    let (post, rev_opt) = fold_spec(b, t);
    let b1 = apply_revert_spec(post, rev_opt->0);
    let a1 = b1.account->0;
    let a0 = b.account->0;
    assert(b.account is Some);
    assert(post.pre_storage() == Map::<U256, U256>::empty());
    assert forall|k: U256| #[trigger] a0.storage.dom().contains(k) implies a1.storage.dom().contains(
        k,
    ) && a1.storage[k] == a0.storage[k] by {}
    assert forall|k: U256| #[trigger] a1.storage.dom().contains(k) implies a0.storage.dom().contains(
        k,
    ) || t.storage.dom().contains(k) by {}
}

/// The pre-destroy path of the recreate rows (`DestroyedNew`,
/// `DestroyedNewChanged` onto a data-holding status): the revert restores
/// every old slot and wipes every slot the recreation introduced beyond them.
proof fn lemma_recreate_row_restores(b: BundleAccountSnap, t: TransitionSnap)
    requires
        b.valid(),
        legal_transition(b.status, t.status),
        pre_destroy(b.status),
        t.status is DestroyedNew || t.status is DestroyedNewChanged,
    ensures
        fold_spec(b, t).1 is Some,
        restores_modulo_fresh(
            apply_revert_spec(fold_spec(b, t).0, fold_spec(b, t).1->0),
            b,
            t.storage.dom(),
        ),
{
    let (post, rev_opt) = fold_spec(b, t);
    let b1 = apply_revert_spec(post, rev_opt->0);
    let a1 = b1.account->0;
    let a0 = b.account->0;
    assert(b.account is Some);
    assert forall|k: U256| #[trigger] a0.storage.dom().contains(k) implies a1.storage.dom().contains(
        k,
    ) && a1.storage[k] == a0.storage[k] by {}
    assert forall|k: U256| #[trigger] a1.storage.dom().contains(k) implies a0.storage.dom().contains(
        k,
    ) || t.storage.dom().contains(k) by {}
}

} // verus!
