use bundle_state::AccountInfo;
use bundle_state::AccountStatus;
use bundle_state::BundleAccount;
use bundle_state::PlainAccount;
use bundle_state::PlainStorage;
use bundle_state::Storage;
use bundle_state::StorageSlot;
use bundle_state::TransitionAccount;
use bundle_state::U256;

fn u(x: u64) -> U256 {
    U256::from_u64(x)
}

fn info(balance: u64, nonce: u64) -> AccountInfo {
    AccountInfo::new(u(balance), nonce, u(0), None)
}

fn transition(status: AccountStatus, info: Option<AccountInfo>, storage: Storage) -> TransitionAccount {
    TransitionAccount {
        info,
        status,
        previous_info: None,
        previous_status: AccountStatus::LoadedNotExisting,
        storage,
    }
}

#[test]
fn round_trip_of_a_change() {
    let mut ps = PlainStorage::new();
    ps.insert(u(1), u(7));
    let mut b = BundleAccount::new(
        Some(PlainAccount::new(info(100, 1), ps)),
        AccountStatus::Changed,
    );
    let before = b.clone();

    let mut st = Storage::new();
    st.insert(
        u(1),
        StorageSlot {
            original_value: u(7),
            present_value: u(8),
        },
    );
    st.insert(
        u(2),
        StorageSlot {
            original_value: u(0),
            present_value: u(42),
        },
    );
    let r = b
        .update_and_create_revert(transition(AccountStatus::Changed, Some(info(200, 2)), st))
        .unwrap();
    assert_eq!(b.storage_slot(u(1)), Some(u(8)));
    assert_eq!(b.storage_slot(u(2)), Some(u(42)));

    b.apply_revert(&r);
    assert_eq!(b.status, before.status);
    assert!(matches!(b.account_info(), Some(i) if i.same_info(&info(100, 1))));
    assert_eq!(b.storage_slot(u(1)), Some(u(7)));
    // The freshly observed slot reverts to the value the transition saw.
    assert_eq!(b.storage_slot(u(2)), Some(u(0)));
}

#[test]
fn round_trip_of_a_recreation() {
    let mut ps = PlainStorage::new();
    ps.insert(u(1), u(7));
    let mut b = BundleAccount::new(
        Some(PlainAccount::new(info(100, 1), ps)),
        AccountStatus::NewChanged,
    );
    let before = b.clone();

    let mut st = Storage::new();
    st.insert(
        u(2),
        StorageSlot {
            original_value: u(0),
            present_value: u(42),
        },
    );
    let r = b
        .update_and_create_revert(transition(
            AccountStatus::DestroyedNew,
            Some(info(200, 2)),
            st,
        ))
        .unwrap();
    assert_eq!(b.status, AccountStatus::DestroyedNew);
    assert_eq!(b.storage_slot(u(1)), None);
    assert_eq!(b.storage_slot(u(2)), Some(u(42)));

    b.apply_revert(&r);
    assert_eq!(b.status, before.status);
    assert!(matches!(b.account_info(), Some(i) if i.same_info(&info(100, 1))));
    assert_eq!(b.storage_slot(u(1)), Some(u(7)));
    // The recreated slot is wiped on revert: it did not exist before.
    assert_eq!(b.storage_slot(u(2)), None);
}

#[test]
fn round_trip_of_a_destruction() {
    let mut ps = PlainStorage::new();
    ps.insert(u(1), u(7));
    ps.insert(u(2), u(9));
    let mut b = BundleAccount::new(
        Some(PlainAccount::new(info(100, 1), ps)),
        AccountStatus::Changed,
    );
    let before = b.clone();

    let r = b
        .update_and_create_revert(transition(AccountStatus::Destroyed, None, Storage::new()))
        .unwrap();
    assert_eq!(b.status, AccountStatus::Destroyed);
    assert!(b.account_info().is_none());

    b.apply_revert(&r);
    assert_eq!(b.status, before.status);
    assert!(matches!(b.account_info(), Some(i) if i.same_info(&info(100, 1))));
    assert_eq!(b.storage_slot(u(1)), Some(u(7)));
    assert_eq!(b.storage_slot(u(2)), Some(u(9)));
}
