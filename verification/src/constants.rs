//! The complete constant set of the collateral rules.
//!
//! Every value here is part of the consensus contract. Two categories exist:
//!
//! - **Load-bearing**: a different value changes the economics of the network.
//! - **Arbitrary but fixed**: any value would have worked, but every node must agree on the one
//!   that was picked.
//!
//! All amounts are in DIG base units (`1 DIG == 1_000` base units); a base unit is never a mojo.
use vstd::prelude::*;

verus! {

// ---------------------------------------------------------------------------
// Units and price level
// ---------------------------------------------------------------------------
/// DIG base units per DIG: DIG is a CAT with three decimals.
///
/// ARBITRARY BUT FIXED (the CAT denomination).
pub const DIG_BASE_UNITS_PER_DIG: u64 = 1_000;

/// Per-store collateral at a multiplier of exactly 1.0x (5.000 DIG).
///
/// LOAD-BEARING: this sets the entire price level of the network.
pub const EQUILIBRIUM_PER_STORE_DIG_BASE_UNITS: u64 = 5_000;

/// The absolute lower bound on a per-store requirement: one base unit (0.001 DIG).
///
/// LOAD-BEARING, and deliberately not a price floor: it only forbids a requirement of zero. The
/// price a contracting network falls to is decided by [`MULT_FLOOR_MICROS`].
pub const MIN_REQUIRED_PER_STORE_DIG_BASE_UNITS: u64 = 1;

// ---------------------------------------------------------------------------
// Multiplier fixed-point
// ---------------------------------------------------------------------------
/// Fixed-point scale of the multiplier and of every saturation signal: `1_000_000 == 1.0`.
///
/// ARBITRARY BUT FIXED.
pub const MULT_SCALE: u64 = 1_000_000;

/// The epoch-1 multiplier anchor, from which the whole recurrence unrolls.
///
/// ARBITRARY BUT FIXED.
pub const MULT_BOOTSTRAP_MICROS: u64 = 1_000_000;

/// Absolute multiplier floor (0.020x), clamped *after* the step is applied.
///
/// LOAD-BEARING: in a mature network it alone sets the floor-state price (0.100 DIG per store).
pub const MULT_FLOOR_MICROS: u64 = 20_000;

/// Multiplier saturation bound (1e6x): a representational bound, not an economic ceiling.
///
/// ARBITRARY BUT FIXED.
pub const MULT_CEILING_MICROS: u64 = 1_000_000_000_000;

// ---------------------------------------------------------------------------
// Controller
// ---------------------------------------------------------------------------
/// Saturation strictly below this value steps the multiplier down; the edge itself holds.
///
/// LOAD-BEARING.
pub const DEADBAND_LOW_MICROS: u64 = 950_000;

/// Saturation strictly above this value steps the multiplier up; the edge itself holds.
///
/// LOAD-BEARING: it must stay strictly above the saturation a universally-adopted safety margin
/// can produce, with headroom.
pub const DEADBAND_HIGH_MICROS: u64 = 1_100_000;

/// Denominator of the per-epoch up-step: the multiplier rises by at most `prev / 8` (+12.5%).
///
/// LOAD-BEARING.
pub const UP_STEP_DENOM: u64 = 8;

/// Denominator of the per-epoch down-step: the multiplier falls by at most `prev / 16` (-6.25%).
///
/// LOAD-BEARING, and so is the asymmetry against [`UP_STEP_DENOM`].
pub const DOWN_STEP_DENOM: u64 = 16;

/// Weight of the participation signal when combining signals into saturation.
///
/// LOAD-BEARING: the 3:1 ratio against [`VOLUME_WEIGHT`] keeps a client-side safety margin from
/// moving the controller on its own.
pub const PARTICIPATION_WEIGHT: u64 = 3;

/// Weight of the volume signal when combining signals into saturation.
///
/// LOAD-BEARING.
pub const VOLUME_WEIGHT: u64 = 1;

/// Sum of the signal weights. The weighted signal sum is floor-divided by this.
pub const SIGNAL_WEIGHT_TOTAL: u64 = PARTICIPATION_WEIGHT + VOLUME_WEIGHT;

/// Per-signal clamp (100x) applied before signals are combined, and to their combination.
///
/// ARBITRARY BUT FIXED.
pub const SIGNAL_CAP_MICROS: u64 = 100_000_000;

// ---------------------------------------------------------------------------
// Bootstrap handicap
// ---------------------------------------------------------------------------
/// The bootstrap subsidy at zero verified owners (4.000 DIG).
///
/// LOAD-BEARING: strictly below the equilibrium price, so the bootstrap price of 1.000 DIG is
/// produced by the subsidy curve rather than by the clamp.
pub const HANDICAP_MAX_DIG_BASE_UNITS: u64 = 4_000;

/// The verified-owner count at which the subsidy reaches zero.
///
/// LOAD-BEARING.
pub const HANDICAP_ZERO_AT_OWNERS: u64 = 1_000;

// ---------------------------------------------------------------------------
// Census finality
// ---------------------------------------------------------------------------
/// Blocks of confirmation depth before an epoch census is final.
///
/// ARBITRARY BUT FIXED.
pub const CENSUS_FINALITY_DEPTH_BLOCKS: u64 = 32;

// ---------------------------------------------------------------------------
// Sync sampling (not consensus)
// ---------------------------------------------------------------------------
/// The sample size the plan plateaus at.
///
/// ARBITRARY BUT FIXED, and not consensus.
pub const SYNC_MAX_SAMPLE: u64 = 9;

/// Below this population the confidence assumption fails, so the sample is advisory only.
///
/// ARBITRARY BUT FIXED, and not consensus.
pub const SYNC_MIN_POPULATION: u64 = 20;

/// At most `N / 5` of the population is assumed dishonest.
///
/// LOAD-BEARING for the confidence claim, though not for consensus.
pub const SYNC_ASSUMED_DISHONEST_DENOM: u64 = 5;

// ---------------------------------------------------------------------------
// Client-side safety margin (not consensus)
// ---------------------------------------------------------------------------
/// Basis-point denominator: `10_000 bp == 100%`.
pub const BASIS_POINTS_SCALE: u64 = 10_000;

/// Tightest safety-margin preset: 1 bp (0.01%).
pub const SAFETY_MARGIN_BP_TIGHT: u64 = 1;

/// Default safety-margin preset: 100 bp (1%).
pub const SAFETY_MARGIN_BP_DEFAULT: u64 = 100;

/// Most generous safety-margin preset: 500 bp (5%).
pub const SAFETY_MARGIN_BP_GENEROUS: u64 = 500;

/// The three presets a client surfaces, tightest first.
pub const SAFETY_MARGIN_PRESETS_BP: [u64; 3] = [
    SAFETY_MARGIN_BP_TIGHT,
    SAFETY_MARGIN_BP_DEFAULT,
    SAFETY_MARGIN_BP_GENEROUS,
];

} // verus!
