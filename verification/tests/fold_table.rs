use bundle_state::AccountInfo;
use bundle_state::AccountInfoRevert;
use bundle_state::AccountStatus;
use bundle_state::BundleAccount;
use bundle_state::PlainAccount;
use bundle_state::PlainStorage;
use bundle_state::RevertToSlot;
use bundle_state::Storage;
use bundle_state::StorageSlot;
use bundle_state::TransitionAccount;
use bundle_state::U256;

fn u(x: u64) -> U256 {
    U256::from_u64(x)
}

fn info(balance: u64, nonce: u64) -> AccountInfo {
    AccountInfo::new(u(balance), nonce, u(0), None)
}

fn slot(orig: u64, pres: u64) -> StorageSlot {
    StorageSlot {
        original_value: u(orig),
        present_value: u(pres),
    }
}

fn transition(status: AccountStatus, info: Option<AccountInfo>, storage: Storage) -> TransitionAccount {
    TransitionAccount {
        info,
        status,
        previous_info: None,
        previous_status: AccountStatus::LoadedNotExisting,
        storage,
    }
}

fn account_with_slot(balance: u64, k: u64, v: u64) -> PlainAccount {
    let mut ps = PlainStorage::new();
    ps.insert(u(k), u(v));
    PlainAccount::new(info(balance, 1), ps)
}

#[test]
fn changed_from_loaded_restores_prior_info() {
    let mut b = BundleAccount::new(
        Some(account_with_slot(100, 5, 9)),
        AccountStatus::Loaded,
    );
    let mut st = Storage::new();
    st.insert(u(1), slot(0, 42));
    let r = b
        .update_and_create_revert(transition(AccountStatus::Changed, Some(info(200, 2)), st))
        .unwrap();
    assert_eq!(b.status, AccountStatus::Changed);
    // prior storage kept, new slot added
    assert_eq!(b.storage_slot(u(5)), Some(u(9)));
    assert_eq!(b.storage_slot(u(1)), Some(u(42)));
    assert!(matches!(&r.account, AccountInfoRevert::RevertTo(i) if i.same_info(&info(100, 1))));
    assert_eq!(r.storage.get(u(1)), Some(RevertToSlot::Restore(u(0))));
    assert_eq!(r.storage.get(u(5)), None);
    assert_eq!(r.original_status, AccountStatus::Loaded);
}

#[test]
fn changed_with_same_info_does_nothing_to_info() {
    let mut b = BundleAccount::new(
        Some(account_with_slot(100, 1, 7)),
        AccountStatus::Changed,
    );
    // the slot keeps its value: no revert entry for it
    let mut st = Storage::new();
    st.insert(u(1), slot(7, 7));
    let r = b
        .update_and_create_revert(transition(AccountStatus::Changed, Some(info(100, 1)), st))
        .unwrap();
    assert_eq!(b.status, AccountStatus::Changed);
    assert!(matches!(r.account, AccountInfoRevert::DoNothing));
    assert_eq!(r.storage.len(), 0);
    assert_eq!(r.original_status, AccountStatus::Changed);
}

#[test]
fn new_from_loaded_empty_restores_empty() {
    let mut b = BundleAccount::new(
        Some(PlainAccount::new(AccountInfo::empty(), PlainStorage::new())),
        AccountStatus::LoadedEmptyEIP161,
    );
    let mut st = Storage::new();
    st.insert(u(1), slot(0, 42));
    let r = b
        .update_and_create_revert(transition(AccountStatus::New, Some(info(100, 1)), st))
        .unwrap();
    assert_eq!(b.status, AccountStatus::New);
    assert!(
        matches!(&r.account, AccountInfoRevert::RevertTo(i) if i.same_info(&AccountInfo::empty()))
    );
    assert_eq!(r.storage.get(u(1)), Some(RevertToSlot::Restore(u(0))));
    assert_eq!(r.original_status, AccountStatus::LoadedEmptyEIP161);
}

#[test]
fn new_changed_from_new_with_same_info_does_nothing() {
    let mut b = BundleAccount::new(
        Some(PlainAccount::new(info(100, 1), PlainStorage::new())),
        AccountStatus::New,
    );
    let r = b
        .update_and_create_revert(transition(
            AccountStatus::NewChanged,
            Some(info(100, 1)),
            Storage::new(),
        ))
        .unwrap();
    assert_eq!(b.status, AccountStatus::NewChanged);
    assert!(matches!(r.account, AccountInfoRevert::DoNothing));
    assert_eq!(r.original_status, AccountStatus::New);
}

#[test]
fn new_changed_from_loaded_empty_collapses_to_new() {
    let mut b = BundleAccount::new(
        Some(PlainAccount::new(AccountInfo::empty(), PlainStorage::new())),
        AccountStatus::LoadedEmptyEIP161,
    );
    let r = b
        .update_and_create_revert(transition(
            AccountStatus::NewChanged,
            Some(info(100, 1)),
            Storage::new(),
        ))
        .unwrap();
    assert_eq!(b.status, AccountStatus::New);
    assert!(
        matches!(&r.account, AccountInfoRevert::RevertTo(i) if i.same_info(&AccountInfo::empty()))
    );
    assert_eq!(r.original_status, AccountStatus::LoadedEmptyEIP161);
}

#[test]
fn destroyed_from_changed_records_every_slot() {
    let mut ps = PlainStorage::new();
    ps.insert(u(1), u(7));
    ps.insert(u(2), u(9));
    let mut b = BundleAccount::new(
        Some(PlainAccount::new(info(100, 1), ps)),
        AccountStatus::Changed,
    );
    let r = b
        .update_and_create_revert(transition(AccountStatus::Destroyed, None, Storage::new()))
        .unwrap();
    assert_eq!(b.status, AccountStatus::Destroyed);
    assert!(b.account_info().is_none());
    assert_eq!(r.storage.get(u(1)), Some(RevertToSlot::Restore(u(7))));
    assert_eq!(r.storage.get(u(2)), Some(RevertToSlot::Restore(u(9))));
    assert_eq!(r.storage.len(), 2);
    assert_eq!(r.original_status, AccountStatus::Changed);
}

#[test]
fn recreate_wipes_old_slots_and_marks_new_ones() {
    let mut b = BundleAccount::new(
        Some(account_with_slot(100, 1, 7)),
        AccountStatus::NewChanged,
    );
    let mut st = Storage::new();
    st.insert(u(2), slot(0, 42));
    let r = b
        .update_and_create_revert(transition(
            AccountStatus::DestroyedNew,
            Some(info(200, 2)),
            st,
        ))
        .unwrap();
    assert_eq!(b.status, AccountStatus::DestroyedNew);
    // the destroy wiped the old slot; only the recreated one remains
    assert_eq!(b.storage_slot(u(1)), None);
    assert_eq!(b.storage_slot(u(2)), Some(u(42)));
    assert!(matches!(&r.account, AccountInfoRevert::RevertTo(i) if i.same_info(&info(100, 1))));
    assert_eq!(r.storage.get(u(1)), Some(RevertToSlot::Restore(u(7))));
    assert_eq!(r.storage.get(u(2)), Some(RevertToSlot::Destroyed));
    assert_eq!(r.original_status, AccountStatus::NewChanged);
}

#[test]
fn recreate_after_destroyed_again_restores_empty_account() {
    let mut b = BundleAccount::new(None, AccountStatus::DestroyedAgain);
    let mut st = Storage::new();
    st.insert(u(1), slot(0, 42));
    let r = b
        .update_and_create_revert(transition(
            AccountStatus::DestroyedNew,
            Some(info(100, 1)),
            st,
        ))
        .unwrap();
    assert_eq!(b.status, AccountStatus::DestroyedNew);
    assert!(
        matches!(&r.account, AccountInfoRevert::RevertTo(i) if i.same_info(&AccountInfo::empty()))
    );
    assert_eq!(r.storage.get(u(1)), Some(RevertToSlot::Destroyed));
    assert_eq!(r.original_status, AccountStatus::DestroyedAgain);
}

#[test]
fn recreate_onto_recreated_is_noop() {
    let mut b = BundleAccount::new(
        Some(account_with_slot(100, 1, 7)),
        AccountStatus::DestroyedNew,
    );
    let r = b.update_and_create_revert(transition(
        AccountStatus::DestroyedNew,
        Some(info(200, 2)),
        Storage::new(),
    ));
    assert!(r.is_none());
    assert_eq!(b.status, AccountStatus::DestroyedNew);
    assert_eq!(b.storage_slot(u(1)), Some(u(7)));
    assert!(matches!(b.account_info(), Some(i) if i.same_info(&info(100, 1))));
}

#[test]
fn recreated_change_from_destroyed_becomes_destroyed_new() {
    let mut b = BundleAccount::new(None, AccountStatus::Destroyed);
    let r = b
        .update_and_create_revert(transition(
            AccountStatus::DestroyedNewChanged,
            Some(info(100, 1)),
            Storage::new(),
        ))
        .unwrap();
    // the fold table sets DestroyedNew here, not DestroyedNewChanged
    assert_eq!(b.status, AccountStatus::DestroyedNew);
    assert!(matches!(r.account, AccountInfoRevert::DeleteIt));
    assert_eq!(r.original_status, AccountStatus::DestroyedNewChanged);
}

#[test]
fn recreated_change_from_recreated_restores_prior_info() {
    let mut b = BundleAccount::new(
        Some(PlainAccount::new(info(100, 1), PlainStorage::new())),
        AccountStatus::DestroyedNew,
    );
    let mut st = Storage::new();
    st.insert(u(1), slot(0, 42));
    let r = b
        .update_and_create_revert(transition(
            AccountStatus::DestroyedNewChanged,
            Some(info(200, 2)),
            st,
        ))
        .unwrap();
    assert_eq!(b.status, AccountStatus::DestroyedNew);
    assert!(matches!(&r.account, AccountInfoRevert::RevertTo(i) if i.same_info(&info(100, 1))));
    assert_eq!(r.storage.get(u(1)), Some(RevertToSlot::Restore(u(0))));
    assert_eq!(r.original_status, AccountStatus::DestroyedNewChanged);
}

#[test]
fn recreated_change_on_pre_destroy_path_keeps_changed_status() {
    let mut b = BundleAccount::new(
        Some(account_with_slot(100, 1, 7)),
        AccountStatus::Changed,
    );
    let r = b
        .update_and_create_revert(transition(
            AccountStatus::DestroyedNewChanged,
            Some(info(200, 2)),
            Storage::new(),
        ))
        .unwrap();
    assert_eq!(b.status, AccountStatus::DestroyedNewChanged);
    assert_eq!(b.storage_slot(u(1)), None);
    assert!(matches!(&r.account, AccountInfoRevert::RevertTo(i) if i.same_info(&info(100, 1))));
    assert_eq!(r.storage.get(u(1)), Some(RevertToSlot::Restore(u(7))));
    assert_eq!(r.original_status, AccountStatus::Changed);
}

#[test]
fn destroy_again_from_new_changed_restores_all() {
    let mut b = BundleAccount::new(
        Some(account_with_slot(100, 1, 7)),
        AccountStatus::NewChanged,
    );
    let r = b
        .update_and_create_revert(transition(AccountStatus::DestroyedAgain, None, Storage::new()))
        .unwrap();
    assert_eq!(b.status, AccountStatus::DestroyedAgain);
    assert!(b.account_info().is_none());
    assert!(matches!(&r.account, AccountInfoRevert::RevertTo(i) if i.same_info(&info(100, 1))));
    assert_eq!(r.storage.get(u(1)), Some(RevertToSlot::Restore(u(7))));
    assert_eq!(r.original_status, AccountStatus::NewChanged);
}

#[test]
fn destroy_again_from_recreated_account() {
    let mut b = BundleAccount::new(
        Some(account_with_slot(100, 1, 7)),
        AccountStatus::DestroyedNew,
    );
    let r = b
        .update_and_create_revert(transition(AccountStatus::DestroyedAgain, None, Storage::new()))
        .unwrap();
    assert_eq!(b.status, AccountStatus::DestroyedAgain);
    assert!(b.account_info().is_none());
    assert!(matches!(&r.account, AccountInfoRevert::RevertTo(i) if i.same_info(&info(100, 1))));
    assert_eq!(r.storage.len(), 0);
    assert_eq!(r.original_status, AccountStatus::DestroyedNew);
}

#[test]
fn is_some_reflects_live_statuses() {
    let live = [
        AccountStatus::Changed,
        AccountStatus::New,
        AccountStatus::NewChanged,
        AccountStatus::DestroyedNew,
        AccountStatus::DestroyedNewChanged,
    ];
    for status in live {
        let b = BundleAccount::new(
            Some(PlainAccount::new(info(1, 1), PlainStorage::new())),
            status,
        );
        assert!(b.is_some());
    }
    let dead = [
        AccountStatus::Loaded,
        AccountStatus::LoadedEmptyEIP161,
        AccountStatus::LoadedNotExisting,
        AccountStatus::Destroyed,
        AccountStatus::DestroyedAgain,
    ];
    for status in dead {
        let b = BundleAccount::new(None, status);
        assert!(!b.is_some());
    }
}

#[test]
fn legal_transitions_match_the_table() {
    let all = [
        AccountStatus::LoadedNotExisting,
        AccountStatus::Loaded,
        AccountStatus::LoadedEmptyEIP161,
        AccountStatus::New,
        AccountStatus::Changed,
        AccountStatus::NewChanged,
        AccountStatus::Destroyed,
        AccountStatus::DestroyedNew,
        AccountStatus::DestroyedNewChanged,
        AccountStatus::DestroyedAgain,
    ];
    // reloads are legal from anywhere
    for s in all {
        assert!(bundle_state::fold::is_legal_transition(s, AccountStatus::Loaded));
        assert!(bundle_state::fold::is_legal_transition(s, AccountStatus::LoadedNotExisting));
        assert!(bundle_state::fold::is_legal_transition(s, AccountStatus::LoadedEmptyEIP161));
    }
    assert!(bundle_state::fold::is_legal_transition(AccountStatus::Loaded, AccountStatus::Changed));
    assert!(bundle_state::fold::is_legal_transition(AccountStatus::Changed, AccountStatus::Changed));
    assert!(!bundle_state::fold::is_legal_transition(AccountStatus::New, AccountStatus::Changed));
    assert!(bundle_state::fold::is_legal_transition(AccountStatus::LoadedNotExisting, AccountStatus::New));
    assert!(!bundle_state::fold::is_legal_transition(AccountStatus::Loaded, AccountStatus::New));
    assert!(bundle_state::fold::is_legal_transition(AccountStatus::NewChanged, AccountStatus::NewChanged));
    assert!(!bundle_state::fold::is_legal_transition(AccountStatus::Changed, AccountStatus::NewChanged));
    assert!(bundle_state::fold::is_legal_transition(AccountStatus::Loaded, AccountStatus::Destroyed));
    assert!(!bundle_state::fold::is_legal_transition(AccountStatus::Destroyed, AccountStatus::Destroyed));
    assert!(bundle_state::fold::is_legal_transition(AccountStatus::DestroyedAgain, AccountStatus::DestroyedNew));
    assert!(!bundle_state::fold::is_legal_transition(AccountStatus::Loaded, AccountStatus::DestroyedNew));
    assert!(!bundle_state::fold::is_legal_transition(AccountStatus::DestroyedNewChanged, AccountStatus::DestroyedNew));
    assert!(bundle_state::fold::is_legal_transition(AccountStatus::DestroyedNewChanged, AccountStatus::DestroyedNewChanged));
    assert!(!bundle_state::fold::is_legal_transition(AccountStatus::DestroyedAgain, AccountStatus::DestroyedNewChanged));
    assert!(bundle_state::fold::is_legal_transition(AccountStatus::DestroyedAgain, AccountStatus::DestroyedAgain));
    assert!(!bundle_state::fold::is_legal_transition(AccountStatus::Loaded, AccountStatus::DestroyedAgain));
}
