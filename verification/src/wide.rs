//! The bridge's canonical amount: an unsigned integer of 256 bits.

use vstd::prelude::*;
use crate::types::Balance;

verus! {

/// An unsigned integer of 256 bits, as four limbs of 64 bits, least
/// significant first.
#[derive(Clone, Copy, Debug, PartialEq, Eq)]
pub struct U256(pub [u64; 4]);

/// Two to the power of 64: the weight of one limb.
pub open spec fn limb_base() -> int {
    0x1_0000_0000_0000_0000
}

impl U256 {
    /// The number that the four limbs stand for.
    pub open spec fn value(self) -> int {
        self.0[0] + self.0[1] * limb_base() + self.0[2] * limb_base() * limb_base() + self.0[3]
            * limb_base() * limb_base() * limb_base()
    }

    /// The wide form of a balance. Every balance fits, so nothing is lost.
    pub fn from_u128(amount: Balance) -> (r: U256)
        ensures
            r.value() == amount,
            r.0[2] == 0,
            r.0[3] == 0,
    {
        let low: u64 = (amount & 0xFFFF_FFFF_FFFF_FFFF) as u64;
        let high: u64 = (amount >> 64) as u64;
        assert(amount == ((amount & 0xFFFF_FFFF_FFFF_FFFF) as u64) as u128 + ((amount >> 64) as u64) as u128 * 0x1_0000_0000_0000_0000) by (bit_vector);
        U256([low, high, 0, 0])
    }
}

} // verus!
