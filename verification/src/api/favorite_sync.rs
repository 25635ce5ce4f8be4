//! Requests that drive favorite synchronization.
use crate::application::favorite_sync::FavoriteSyncResolution;
use vstd::prelude::*;

verus! {

/// Turns synchronization on or off.
pub struct FavoriteSyncToggle {
    pub enabled: bool,
}

/// Settles the differences found, one way or the other.
pub struct FavoriteSyncResolve {
    pub strategy: FavoriteSyncResolution,
}

} // verus!
