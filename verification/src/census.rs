//! The census input: what the chain says about an epoch.
//!
//! This crate does not read the chain. A caller applies the qualifying rules and hands the three
//! resulting integers down here.
use vstd::prelude::*;

verus! {

/// The three chain-derived quantities the controller consumes for one epoch.
///
/// Every field counts only *qualifying* units: an under-collateralised coin contributes to none
/// of them, so it can never be read as evidence that the network cannot afford the requirement.
#[derive(Debug, Clone, Copy, PartialEq, Eq, Structural)]
pub struct EpochCensus {
    /// The epoch this census describes, one-based.
    pub epoch: u64,
    /// The count of distinct qualifying `(owner, store, root)` triples (an advertisement count).
    pub stores: u64,
    /// The count of distinct owner puzzle hashes across those triples ("collateralised owners").
    pub owners: u64,
    /// The sum, in DIG base units, of the amounts of the coins selected per triple.
    pub locked: u64,
}

impl EpochCensus {
    /// The census of epoch 1 as a value: epoch 1, and nothing counted.
    pub open spec fn bootstrap_spec() -> EpochCensus {
        EpochCensus { epoch: 1, stores: 0, owners: 0, locked: 0 }
    }

    /// The census of epoch 1, which is empty by definition: no epoch precedes it, so no coin can
    /// yet declare it.
    pub fn bootstrap() -> (census: Self)
        ensures
            census == Self::bootstrap_spec(),
    {
        EpochCensus { epoch: 1, stores: 0, owners: 0, locked: 0 }
    }
}

} // verus!
