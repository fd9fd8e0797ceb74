//! Per-account state machine of an execution-state bundle.
//!
//! A bundle aggregates the net effect of many account transitions. Each
//! account carries a lifecycle [`AccountStatus`]; folding a
//! [`TransitionAccount`] into a [`BundleAccount`] updates that status and the
//! account data, and emits an [`AccountRevert`] that can undo the fold.
//!
//! The fold table itself is written once as a specification
//! ([`fold::fold_spec`]) and once as executable code
//! ([`BundleAccount::update_and_create_revert`]), with the latter proved
//! against the former. The laws module proves the round-trip property: applying
//! the emitted revert to the post-fold state restores the pre-fold state.

pub mod account_info;
pub mod account_status;
pub mod bundle_account;
pub mod fold;
pub mod laws;
pub mod plain_account;
pub mod reverts;
pub mod storage;
pub mod transition_account;

pub use account_info::AccountInfo;
pub use account_info::U256;
pub use account_status::AccountStatus;
pub use bundle_account::BundleAccount;
pub use plain_account::PlainAccount;
pub use reverts::AccountInfoRevert;
pub use reverts::AccountRevert;
pub use reverts::RevertToSlot;
pub use reverts::RevertStorage;
pub use storage::PlainStorage;
pub use storage::Storage;
pub use storage::StorageSlot;
pub use transition_account::TransitionAccount;
