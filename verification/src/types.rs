//! Identifier types shared by the registry and the transfer handlers.

use vstd::prelude::*;

verus! {

/// Chain-local identifier of a fungible asset.
pub type AssetId = u32;

/// Bridge-wide identifier of an asset, as the cross-chain relay knows it.
pub type ResourceId = [u8; 32];

/// Identifier of a chain that the relay can transfer to.
pub type ChainId = u8;

/// A quantity of an asset, in the asset's base units.
pub type Balance = u128;

/// Byte-wise comparison of two resource identifiers.
pub fn same_resource(a: &ResourceId, b: &ResourceId) -> (r: bool)
    ensures
        r == (*a == *b),
{
    let mut i: usize = 0;
    while i < 32
        invariant
            i <= 32,
            forall|k: int| 0 <= k < i ==> a[k] == b[k],
        decreases 32 - i,
    {
        if a[i] != b[i] {
            return false;
        }
        i += 1;
    }
    assert(*a =~= *b);
    true
}

} // verus!
