//! Asset loading states.

use vstd::prelude::*;

verus! {

/// The steps of asset loading, a sub-state of `GameState::LoadingAssets`.
#[derive(Debug, Clone, Copy, PartialEq, Eq, Structural, Hash)]
pub enum AssetLoadingState {
    /// Prepare Assets
    PrepareAssets,
    /// Loading Environment Maps
    LoadingEnvironmentMaps,
    /// Loading Player Assets
    LoadingPlayerAssets,
    /// All Assets Loaded
    AllAssetsLoaded,
}

impl Default for AssetLoadingState {
    fn default() -> (state: Self)
        ensures
            state == AssetLoadingState::PrepareAssets,
    {
        AssetLoadingState::PrepareAssets
    }
}

} // verus!
