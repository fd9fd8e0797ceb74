use bundle_state::AccountInfo;
use bundle_state::AccountStatus;
use bundle_state::BundleAccount;
use bundle_state::PlainAccount;
use bundle_state::PlainStorage;
use bundle_state::U256;

fn u(x: u64) -> U256 {
    U256::from_u64(x)
}

#[test]
fn words_compare_by_all_limbs() {
    assert_eq!(U256::from_u64(42), u(42));
    assert_ne!(u(42), u(43));
    assert_ne!(U256::from_limbs(1, 0, 0, 0), U256::from_limbs(1, 0, 0, 1));
    assert_eq!(U256::zero(), u(0));
}

#[test]
fn same_info_ignores_the_code_blob() {
    let bare = AccountInfo::new(u(100), 1, u(77), None);
    let coded = AccountInfo::new(u(100), 1, u(77), Some(vec![1, 2, 3]));
    assert!(bare.same_info(&coded));
    let other_hash = AccountInfo::new(u(100), 1, u(78), None);
    assert!(!bare.same_info(&other_hash));
    let other_balance = AccountInfo::new(u(101), 1, u(77), None);
    assert!(!bare.same_info(&other_balance));
    let other_nonce = AccountInfo::new(u(100), 2, u(77), None);
    assert!(!bare.same_info(&other_nonce));
}

#[test]
fn empty_info_is_empty() {
    let e = AccountInfo::empty();
    assert!(e.is_empty_info());
    assert!(!AccountInfo::new(u(1), 0, u(0), None).is_empty_info());
    assert!(!AccountInfo::new(u(0), 1, u(0), None).is_empty_info());
}

#[test]
fn cloned_info_keeps_every_field() {
    let a = AccountInfo::new(u(100), 1, u(77), Some(vec![9, 9]));
    let c = a.clone();
    assert!(a.same_info(&c));
    assert_eq!(c.code, Some(vec![9, 9]));
}

#[test]
fn storage_slot_reads_the_present_value() {
    let mut ps = PlainStorage::new();
    ps.insert(u(1), u(7));
    let b = BundleAccount::new(
        Some(PlainAccount::new(AccountInfo::new(u(100), 1, u(0), None), ps)),
        AccountStatus::Loaded,
    );
    assert_eq!(b.storage_slot(u(1)), Some(u(7)));
    assert_eq!(b.storage_slot(u(2)), None);
    let absent = BundleAccount::new(None, AccountStatus::LoadedNotExisting);
    assert_eq!(absent.storage_slot(u(1)), None);
}

#[test]
fn account_info_returns_a_copy() {
    let b = BundleAccount::new(
        Some(PlainAccount::new(
            AccountInfo::new(u(100), 1, u(0), None),
            PlainStorage::new(),
        )),
        AccountStatus::Loaded,
    );
    let got = b.account_info().expect("account data present");
    assert!(got.same_info(&AccountInfo::new(u(100), 1, u(0), None)));
    assert!(BundleAccount::new(None, AccountStatus::Destroyed)
        .account_info()
        .is_none());
}
