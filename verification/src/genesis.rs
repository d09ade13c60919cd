//! The adapter's state at genesis.

use vstd::prelude::*;
use crate::pallet::Pallet;
use crate::types::{AssetId, ResourceId};

verus! {

/// Builds the adapter as it stands at genesis.
#[derive(Clone, Copy, Debug)]
pub struct ExtBuilder;

impl Default for ExtBuilder {
    fn default() -> (r: Self)
        ensures
            r == ExtBuilder,
    {
        ExtBuilder
    }
}

impl ExtBuilder {
    /// The adapter at genesis: well formed, with no pair registered.
    pub fn build(self) -> (r: Pallet)
        ensures
            r.wf(),
            r.registry().forward() == Map::<AssetId, ResourceId>::empty(),
            r.registry().reverse() == Map::<ResourceId, AssetId>::empty(),
    {
        Pallet::new()
    }
}

} // verus!
