use vstd::prelude::*;

verus! {

/// Lifecycle tag of an account within a bundle.
///
/// The nine tags are mutually exclusive and describe the history of the
/// account since it was first observed by the bundle.
#[derive(Clone, Copy, PartialEq, Eq, Structural, Debug)]
pub enum AccountStatus {
    /// The address was probed and the backing store had no account.
    LoadedNotExisting,
    /// Fetched from the backing store; present and non-empty.
    Loaded,
    /// Fetched from the backing store; present but empty in the state-clear
    /// sense: zero balance, zero nonce, no code.
    LoadedEmptyEIP161,
    /// Created within this bundle.
    New,
    /// Previously loaded, subsequently mutated.
    Changed,
    /// Created within this bundle and then further mutated.
    NewChanged,
    /// Self-destructed within the bundle.
    Destroyed,
    /// Destroyed, then recreated at the same address.
    DestroyedNew,
    /// Destroyed, recreated, then further mutated.
    DestroyedNewChanged,
    /// Destroyed, recreated (possibly changed), then destroyed again.
    DestroyedAgain,
}

impl AccountStatus {
    /// Statuses whose bundle entry holds no account data.
    pub open spec fn spec_is_absent(self) -> bool {
        self is LoadedNotExisting || self is Destroyed || self is DestroyedAgain
    }

    /// Statuses under which the bundle holds live account data created or
    /// changed within the bundle itself.
    pub open spec fn spec_is_live(self) -> bool {
        self is Changed || self is New || self is NewChanged || self is DestroyedNew
            || self is DestroyedNewChanged
    }
}

} // verus!
