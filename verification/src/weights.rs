//! The weights that the adapter's four operations are charged.

use vstd::prelude::*;

verus! {

/// The cost of an operation, in the host's units.
pub type Weight = u64;

/// The weight of each operation of the adapter.
pub trait WeightInfo {
    fn register_resource_id() -> Weight;

    fn remove_resource_id() -> Weight;

    fn redeem() -> Weight;

    fn deposit() -> Weight;
}

/// The default weights: every operation is free of charge.
#[derive(Clone, Copy, Debug)]
pub struct SubstrateWeight;

impl WeightInfo for SubstrateWeight {
    fn register_resource_id() -> (r: Weight)
        ensures
            r == 0,
    {
        0
    }

    fn remove_resource_id() -> (r: Weight)
        ensures
            r == 0,
    {
        0
    }

    fn redeem() -> (r: Weight)
        ensures
            r == 0,
    {
        0
    }

    fn deposit() -> (r: Weight)
        ensures
            r == 0,
    {
        0
    }
}

impl WeightInfo for () {
    fn register_resource_id() -> (r: Weight)
        ensures
            r == 0,
    {
        0
    }

    fn remove_resource_id() -> (r: Weight)
        ensures
            r == 0,
    {
        0
    }

    fn redeem() -> (r: Weight)
        ensures
            r == 0,
    {
        0
    }

    fn deposit() -> (r: Weight)
        ensures
            r == 0,
    {
        0
    }
}

} // verus!
