//! The ways this crate can refuse to compute.
use vstd::prelude::*;

verus! {

/// A refusal to derive an epoch record or to select a ruleset.
///
/// Deliberately narrow: every arithmetic path saturates or is proved in range, and an empty
/// network is neutral rather than erroneous.
#[derive(Debug, Clone, Copy, PartialEq, Eq, Structural)]
pub enum CollateralError {
    /// A census was applied to a record it does not immediately follow.
    NonSequentialEpoch {
        /// The epoch that must be derived next.
        expected: u64,
        /// The epoch the supplied census actually describes.
        found: u64,
    },
    /// The governing ruleset, or the ruleset that computed a record, is not implemented here.
    UnknownProtocolVersion {
        /// The version this build does not implement.
        version: u16,
    },
    /// No row of the activation schedule covers the epoch.
    EpochNotGoverned {
        /// The epoch no ruleset governs.
        epoch: u64,
    },
}

} // verus!
