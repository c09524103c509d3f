//! Deterministic per-epoch collateral requirement for DIG mirror coins.
//!
//! ```text
//! required(n) = max( floor, floor(equilibrium * multiplier(n) / scale) - handicap(n) )
//! ```
//!
//! where `multiplier(n)` comes from a bang-bang controller reading the previous epoch's chain
//! census, and `handicap(n)` is a bootstrap subsidy that shrinks linearly to zero as the network
//! gains verified owners. Every division is floor division on non-negative integers (the one
//! exception is the client-side safety margin, which rounds up), every wide intermediate is
//! computed in 128 bits and narrowed by saturation, and there is no panicking path.
pub mod census;
pub mod constants;
pub mod controller;
pub mod error;
pub mod handicap;
pub mod margin;
pub mod record;
pub mod requirement;
pub mod sync;
pub mod version;

pub use constants::{
    DIG_BASE_UNITS_PER_DIG,
    EQUILIBRIUM_PER_STORE_DIG_BASE_UNITS,
    MIN_REQUIRED_PER_STORE_DIG_BASE_UNITS,
    MULT_SCALE,
    MULT_BOOTSTRAP_MICROS,
    MULT_FLOOR_MICROS,
    MULT_CEILING_MICROS,
    DEADBAND_LOW_MICROS,
    DEADBAND_HIGH_MICROS,
    UP_STEP_DENOM,
    DOWN_STEP_DENOM,
    PARTICIPATION_WEIGHT,
    VOLUME_WEIGHT,
    SIGNAL_WEIGHT_TOTAL,
    SIGNAL_CAP_MICROS,
    HANDICAP_MAX_DIG_BASE_UNITS,
    HANDICAP_ZERO_AT_OWNERS,
    CENSUS_FINALITY_DEPTH_BLOCKS,
    SYNC_MAX_SAMPLE,
    SYNC_MIN_POPULATION,
    SYNC_ASSUMED_DISHONEST_DENOM,
    BASIS_POINTS_SCALE,
    SAFETY_MARGIN_BP_TIGHT,
    SAFETY_MARGIN_BP_DEFAULT,
    SAFETY_MARGIN_BP_GENEROUS,
    SAFETY_MARGIN_PRESETS_BP,
};
pub use census::EpochCensus;
pub use controller::{
    participation_micros, saturation_micros, signals_for, step_multiplier, volume_micros, Band,
    Signals,
};
pub use error::CollateralError;
pub use handicap::handicap_for_owners;
pub use margin::apply_safety_margin;
pub use record::EpochRecord;
pub use requirement::{base_per_store, required_per_store};
pub use sync::{sync_sample_plan, SyncSamplePlan};
pub use version::{
    activation_schedule, schedule_is_strictly_ascending, version_for_epoch, version_for_epoch_in,
    Activation, ProtocolVersion,
};
