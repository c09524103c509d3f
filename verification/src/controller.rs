//! The bang-bang multiplier controller and the two signals that drive it.
//!
//! Exactly three outcomes are possible per epoch: step up, hold, step down.
use vstd::prelude::*;

use crate::census::EpochCensus;
use crate::constants::{
    DEADBAND_HIGH_MICROS, DEADBAND_LOW_MICROS, DOWN_STEP_DENOM, MULT_CEILING_MICROS,
    MULT_FLOOR_MICROS, MULT_SCALE, PARTICIPATION_WEIGHT, SIGNAL_CAP_MICROS, SIGNAL_WEIGHT_TOTAL,
    UP_STEP_DENOM, VOLUME_WEIGHT,
};

verus! {

/// The three signal values derived from one census, in multiplier micros.
///
/// They are kept on the epoch record so that divergence between two implementations is
/// auditable, not merely detectable.
#[derive(Debug, Clone, Copy, PartialEq, Eq, Structural)]
pub struct Signals {
    /// Growth ratio of counted advertisements against the previous epoch.
    pub participation_micros: u64,
    /// Collateral actually locked, against what those same advertisements were required to post.
    pub volume_micros: u64,
    /// The weighted combination the controller reads.
    pub saturation_micros: u64,
}

/// Where a saturation reading sits relative to the dead band.
#[derive(Debug, Clone, Copy, PartialEq, Eq, Structural)]
pub enum Band {
    /// Strictly below [`DEADBAND_LOW_MICROS`]: the multiplier steps down.
    Low,
    /// Inside the dead band, inclusive of both edges: the multiplier holds.
    Inside,
    /// Strictly above [`DEADBAND_HIGH_MICROS`]: the multiplier steps up.
    High,
}

/// `x` clamped to [`SIGNAL_CAP_MICROS`].
pub open spec fn cap_spec(x: int) -> int {
    if x < SIGNAL_CAP_MICROS {
        x
    } else {
        SIGNAL_CAP_MICROS as int
    }
}

/// The band of a saturation reading; both edges of the dead band are inclusive.
pub open spec fn band_spec(saturation_micros: u64) -> Band {
    if saturation_micros > DEADBAND_HIGH_MICROS {
        Band::High
    } else if saturation_micros < DEADBAND_LOW_MICROS {
        Band::Low
    } else {
        Band::Inside
    }
}

/// Participation: the growth ratio of counted advertisements, neutral over an empty predecessor.
pub open spec fn participation_spec(stores_now: u64, stores_prev: u64) -> int {
    if stores_prev == 0 {
        MULT_SCALE as int
    } else {
        cap_spec(stores_now * MULT_SCALE / (stores_prev as int))
    }
}

/// Volume: collateral locked against what the counted advertisements owed, neutral when they
/// owed nothing.
pub open spec fn volume_spec(locked_now: u64, stores_now: u64, required_per_store_prev: u64) -> int {
    let required_total_prev = stores_now * required_per_store_prev;
    if required_total_prev == 0 {
        MULT_SCALE as int
    } else {
        cap_spec(locked_now * MULT_SCALE / required_total_prev)
    }
}

/// Saturation: the 3:1 weighted mean of the two signals, floored and clamped to the signal cap.
pub open spec fn saturation_spec(participation_micros: u64, volume_micros: u64) -> int {
    cap_spec(
        (PARTICIPATION_WEIGHT * participation_micros + VOLUME_WEIGHT * volume_micros) / (
        SIGNAL_WEIGHT_TOTAL as int),
    )
}

/// One controller step: a fixed fraction of the previous multiplier in the banded direction
/// (the rise capped at [`MULT_CEILING_MICROS`], the fall stopping at zero), then the floor.
pub open spec fn step_spec(prev_multiplier_micros: u64, saturation_micros: u64) -> int {
    let prev = prev_multiplier_micros as int;
    let stepped: int = match band_spec(saturation_micros) {
        Band::High => if prev + prev / (UP_STEP_DENOM as int) < MULT_CEILING_MICROS {
            prev + prev / (UP_STEP_DENOM as int)
        } else {
            MULT_CEILING_MICROS as int
        },
        Band::Low => prev - prev / (DOWN_STEP_DENOM as int),
        Band::Inside => prev,
    };
    if stepped > MULT_FLOOR_MICROS {
        stepped
    } else {
        MULT_FLOOR_MICROS as int
    }
}

/// With participation exactly neutral, the reading stays inside the dead band precisely when
/// volume lies between 0.80x and 1.400003x: a volume signal alone has to reach 1.40x to move
/// the multiplier, which no supported safety-margin preset can produce.
pub proof fn lemma_neutral_participation_band(volume_micros: u64)
    ensures
        band_spec(saturation_spec(MULT_SCALE, volume_micros) as u64) == Band::Inside <==> (
        800_000 <= volume_micros <= 1_400_003),
{
}

/// An empty network is not a signal: when both denominators are degenerate, both signals read
/// exactly 1.0x, the reading sits inside the dead band, and the multiplier holds (lifted to the
/// floor if it ever arrived below it).
pub proof fn lemma_empty_network_holds_the_price(
    stores_now: u64,
    locked_now: u64,
    required_per_store_prev: u64,
    prev_multiplier_micros: u64,
)
    requires
        stores_now * required_per_store_prev == 0,
    ensures
        participation_spec(stores_now, 0) == MULT_SCALE,
        volume_spec(locked_now, stores_now, required_per_store_prev) == MULT_SCALE,
        saturation_spec(MULT_SCALE, MULT_SCALE) == MULT_SCALE,
        band_spec(MULT_SCALE) == Band::Inside,
        step_spec(prev_multiplier_micros, MULT_SCALE) == if prev_multiplier_micros
            >= MULT_FLOOR_MICROS {
            prev_multiplier_micros as int
        } else {
            MULT_FLOOR_MICROS as int
        },
{
}

/// A reading below the dead band, however far below, moves the multiplier by exactly one
/// down-step; a reading above it by exactly one up-step (capped); a reading inside it not at all.
/// Whatever the reading, the multiplier stays within `[MULT_FLOOR_MICROS, MULT_CEILING_MICROS]`
/// once it is there.
pub proof fn lemma_one_step_per_epoch(prev_multiplier_micros: u64, saturation_micros: u64)
    requires
        MULT_FLOOR_MICROS <= prev_multiplier_micros <= MULT_CEILING_MICROS,
    ensures
        MULT_FLOOR_MICROS <= step_spec(prev_multiplier_micros, saturation_micros)
            <= MULT_CEILING_MICROS,
        band_spec(saturation_micros) == Band::Low ==> step_spec(
            prev_multiplier_micros,
            saturation_micros,
        ) == if prev_multiplier_micros - prev_multiplier_micros / 16 >= MULT_FLOOR_MICROS {
            prev_multiplier_micros - prev_multiplier_micros / 16
        } else {
            MULT_FLOOR_MICROS as int
        },
        band_spec(saturation_micros) == Band::High ==> step_spec(
            prev_multiplier_micros,
            saturation_micros,
        ) == if prev_multiplier_micros + prev_multiplier_micros / 8 <= MULT_CEILING_MICROS {
            prev_multiplier_micros + prev_multiplier_micros / 8
        } else {
            MULT_CEILING_MICROS as int
        },
        band_spec(saturation_micros) == Band::Inside ==> step_spec(
            prev_multiplier_micros,
            saturation_micros,
        ) == prev_multiplier_micros,
        band_spec(saturation_micros) == Band::Low ==> step_spec(
            prev_multiplier_micros,
            saturation_micros,
        ) <= prev_multiplier_micros,
        band_spec(saturation_micros) == Band::High ==> step_spec(
            prev_multiplier_micros,
            saturation_micros,
        ) >= prev_multiplier_micros,
{
}

/// Every reading is classified by the dead band alone: strictly below its lower edge is `Low`,
/// strictly above its upper edge is `High`, and anything from one edge to the other, both
/// included, is `Inside`.
pub proof fn lemma_band_is_decided_by_the_dead_band(saturation_micros: u64)
    ensures
        saturation_micros < DEADBAND_LOW_MICROS ==> band_spec(saturation_micros) == Band::Low,
        saturation_micros > DEADBAND_HIGH_MICROS ==> band_spec(saturation_micros) == Band::High,
        DEADBAND_LOW_MICROS <= saturation_micros <= DEADBAND_HIGH_MICROS ==> band_spec(
            saturation_micros,
        ) == Band::Inside,
{
}

/// The controller step read directly off the saturation: below the dead band the multiplier
/// falls by `prev / 16`, above it rises by `prev / 8` (capped at the ceiling), inside it holds,
/// and the result is then lifted to the floor. This holds for every `u64` reading, not only
/// those reachable from a census.
pub proof fn lemma_step_follows_the_reading(prev_multiplier_micros: u64, saturation_micros: u64)
    ensures
        saturation_micros < DEADBAND_LOW_MICROS ==> step_spec(
            prev_multiplier_micros,
            saturation_micros,
        ) == if prev_multiplier_micros - prev_multiplier_micros / 16 > MULT_FLOOR_MICROS {
            prev_multiplier_micros - prev_multiplier_micros / 16
        } else {
            MULT_FLOOR_MICROS as int
        },
        saturation_micros > DEADBAND_HIGH_MICROS ==> step_spec(
            prev_multiplier_micros,
            saturation_micros,
        ) == if prev_multiplier_micros + prev_multiplier_micros / 8 >= MULT_CEILING_MICROS {
            MULT_CEILING_MICROS as int
        } else if prev_multiplier_micros + prev_multiplier_micros / 8 > MULT_FLOOR_MICROS {
            prev_multiplier_micros + prev_multiplier_micros / 8
        } else {
            MULT_FLOOR_MICROS as int
        },
        DEADBAND_LOW_MICROS <= saturation_micros <= DEADBAND_HIGH_MICROS ==> step_spec(
            prev_multiplier_micros,
            saturation_micros,
        ) == if prev_multiplier_micros > MULT_FLOOR_MICROS {
            prev_multiplier_micros as int
        } else {
            MULT_FLOOR_MICROS as int
        },
{
    lemma_band_is_decided_by_the_dead_band(saturation_micros);
}

/// Participation is the growth ratio of counted advertisements: `floor(now * 1e6 / prev)`,
/// clamped to the signal cap, and exactly 1.0x over an empty predecessor. A fall in the count
/// reads strictly below 1.0x, a rise or a hold at or above it, and the signal never decreases as
/// the current count grows.
pub proof fn lemma_participation_is_the_growth_ratio(stores_now: u64, stores_prev: u64)
    ensures
        stores_prev == 0 ==> participation_spec(stores_now, stores_prev) == 1_000_000,
        stores_prev > 0 ==> participation_spec(stores_now, stores_prev) == if stores_now
            * 1_000_000 / (stores_prev as int) < SIGNAL_CAP_MICROS {
            stores_now * 1_000_000 / (stores_prev as int)
        } else {
            SIGNAL_CAP_MICROS as int
        },
        stores_now < stores_prev ==> participation_spec(stores_now, stores_prev) < 1_000_000,
        0 < stores_prev <= stores_now ==> participation_spec(stores_now, stores_prev)
            >= 1_000_000,
{
    if stores_prev > 0 {
        let now = stores_now as int;
        let prev = stores_prev as int;
        if now < prev {
            assert(now * 1_000_000 / prev < 1_000_000) by (nonlinear_arith)
                requires
                    0 <= now < prev,
            ;
        } else {
            assert(now * 1_000_000 / prev >= 1_000_000) by (nonlinear_arith)
                requires
                    0 < prev <= now,
            ;
        }
    }
}

/// Participation never decreases as the current advertisement count grows.
pub proof fn lemma_participation_grows_with_the_count(fewer: u64, more: u64, stores_prev: u64)
    requires
        fewer <= more,
    ensures
        participation_spec(fewer, stores_prev) <= participation_spec(more, stores_prev),
{
    if stores_prev > 0 {
        assert(fewer * 1_000_000 <= more * 1_000_000) by (nonlinear_arith)
            requires
                fewer <= more,
        ;
        vstd::arithmetic::div_mod::lemma_div_is_ordered(
            fewer * 1_000_000,
            more * 1_000_000,
            stores_prev as int,
        );
    }
}

/// Volume is collateral locked against what the counted advertisements owed at the previous
/// requirement: `floor(locked * 1e6 / (stores * required_prev))`, clamped only at the signal
/// cap, and exactly 1.0x when nothing was owed.
pub proof fn lemma_volume_is_locked_over_owed(
    locked_now: u64,
    stores_now: u64,
    required_per_store_prev: u64,
)
    ensures
        stores_now * required_per_store_prev == 0 ==> volume_spec(
            locked_now,
            stores_now,
            required_per_store_prev,
        ) == 1_000_000,
        stores_now * required_per_store_prev > 0 ==> volume_spec(
            locked_now,
            stores_now,
            required_per_store_prev,
        ) == if locked_now * 1_000_000 / (stores_now * required_per_store_prev)
            < SIGNAL_CAP_MICROS {
            locked_now * 1_000_000 / (stores_now * required_per_store_prev)
        } else {
            SIGNAL_CAP_MICROS as int
        },
{
}

/// More collateral locked against the same obligation never reads as a weaker volume signal.
pub proof fn lemma_volume_grows_with_locked(
    less: u64,
    more: u64,
    stores_now: u64,
    required_per_store_prev: u64,
)
    requires
        less <= more,
    ensures
        volume_spec(less, stores_now, required_per_store_prev) <= volume_spec(
            more,
            stores_now,
            required_per_store_prev,
        ),
{
    let owed = stores_now * required_per_store_prev;
    if owed > 0 {
        assert(less * 1_000_000 <= more * 1_000_000) by (nonlinear_arith)
            requires
                less <= more,
        ;
        vstd::arithmetic::div_mod::lemma_div_is_ordered(
            less * 1_000_000,
            more * 1_000_000,
            owed,
        );
    }
}

/// Saturation is the 3:1 weighted mean of participation and volume, floored, and clamped to the
/// signal cap.
pub proof fn lemma_saturation_is_the_weighted_mean(participation_micros: u64, volume_micros: u64)
    ensures
        saturation_spec(participation_micros, volume_micros) == if (3 * participation_micros
            + volume_micros) / 4 < SIGNAL_CAP_MICROS {
            (3 * participation_micros + volume_micros) / 4
        } else {
            SIGNAL_CAP_MICROS as int
        },
{
}

impl Band {
    /// Classify a saturation reading. Both edges of the dead band are inclusive.
    pub fn of_saturation(saturation_micros: u64) -> (band: Self)
        ensures
            band == band_spec(saturation_micros),
            saturation_micros < DEADBAND_LOW_MICROS ==> band == Band::Low,
            saturation_micros > DEADBAND_HIGH_MICROS ==> band == Band::High,
            DEADBAND_LOW_MICROS <= saturation_micros <= DEADBAND_HIGH_MICROS ==> band
                == Band::Inside,
    {
        if saturation_micros > DEADBAND_HIGH_MICROS {
            Band::High
        } else if saturation_micros < DEADBAND_LOW_MICROS {
            Band::Low
        } else {
            Band::Inside
        }
    }
}

/// The product of two 64-bit values always fits in 128 bits.
proof fn lemma_product_fits_u128(a: u64, b: u64)
    ensures
        0 <= (a as int) * (b as int) <= u128::MAX,
{
    assert(0 <= (a as int) * (b as int) <= (u64::MAX as int) * (u64::MAX as int))
        by (nonlinear_arith)
        requires
            0 <= a <= u64::MAX,
            0 <= b <= u64::MAX,
    ;
}

/// Clamp a `u128` ratio to [`SIGNAL_CAP_MICROS`] and narrow it. The clamp happens before the
/// narrowing, so the narrowing is proved rather than assumed.
fn clamp_signal(ratio_micros: u128) -> (signal: u64)
    ensures
        signal == cap_spec(ratio_micros as int),
{
    if ratio_micros < SIGNAL_CAP_MICROS as u128 {
        ratio_micros as u64
    } else {
        SIGNAL_CAP_MICROS
    }
}

/// The primary signal: how the count of counted advertisements grew against the previous epoch.
///
/// A growth ratio rather than a retention ratio, so it can signal in both directions. An empty
/// previous epoch reads as exactly neutral rather than as an error.
pub fn participation_micros(stores_now: u64, stores_prev: u64) -> (signal: u64)
    ensures
        signal == participation_spec(stores_now, stores_prev),
        stores_prev == 0 ==> signal == MULT_SCALE,
        stores_prev > 0 ==> signal == if stores_now * 1_000_000 / (stores_prev as int)
            < SIGNAL_CAP_MICROS {
            stores_now * 1_000_000 / (stores_prev as int)
        } else {
            SIGNAL_CAP_MICROS as int
        },
        signal <= SIGNAL_CAP_MICROS,
{
    if stores_prev == 0 {
        return MULT_SCALE;
    }
    proof {
        lemma_product_fits_u128(stores_now, MULT_SCALE);
    }
    let ratio: u128 = (stores_now as u128) * (MULT_SCALE as u128) / (stores_prev as u128);
    clamp_signal(ratio)
}

/// The secondary signal: collateral locked against what the *counted* advertisements owed at the
/// previous epoch's requirement. Neutral when that amount is zero.
pub fn volume_micros(locked_now: u64, stores_now: u64, required_per_store_prev: u64) -> (signal:
    u64)
    ensures
        signal == volume_spec(locked_now, stores_now, required_per_store_prev),
        stores_now * required_per_store_prev == 0 ==> signal == MULT_SCALE,
        stores_now * required_per_store_prev > 0 ==> signal == if locked_now * 1_000_000 / (
        stores_now * required_per_store_prev) < SIGNAL_CAP_MICROS {
            locked_now * 1_000_000 / (stores_now * required_per_store_prev)
        } else {
            SIGNAL_CAP_MICROS as int
        },
        signal <= SIGNAL_CAP_MICROS,
{
    proof {
        lemma_product_fits_u128(stores_now, required_per_store_prev);
        lemma_product_fits_u128(locked_now, MULT_SCALE);
    }
    let required_total_prev: u128 = (stores_now as u128) * (required_per_store_prev as u128);
    if required_total_prev == 0 {
        return MULT_SCALE;
    }
    let ratio: u128 = (locked_now as u128) * (MULT_SCALE as u128) / required_total_prev;
    clamp_signal(ratio)
}

/// Combine the two signals into the single reading the controller bands.
///
/// Widened to 128 bits and clamped to [`SIGNAL_CAP_MICROS`], so any pair of `u64` arguments gives
/// the same answer under every build profile; inside the reachable domain (both signals already
/// clamped) the clamp never binds and the plain weighted mean stands.
pub fn saturation_micros(participation_micros: u64, volume_micros: u64) -> (saturation: u64)
    ensures
        saturation == saturation_spec(participation_micros, volume_micros),
        saturation <= SIGNAL_CAP_MICROS,
        saturation == if (3 * participation_micros + volume_micros) / 4 < SIGNAL_CAP_MICROS {
            (3 * participation_micros + volume_micros) / 4
        } else {
            SIGNAL_CAP_MICROS as int
        },
        participation_micros <= SIGNAL_CAP_MICROS && volume_micros <= SIGNAL_CAP_MICROS
            ==> saturation == (3 * participation_micros + volume_micros) / 4,
{
    let pw: u128 = PARTICIPATION_WEIGHT as u128;
    let vw: u128 = VOLUME_WEIGHT as u128;
    let p: u128 = participation_micros as u128;
    let v: u128 = volume_micros as u128;
    assert(pw * p + vw * v <= 4 * (u64::MAX as int)) by (nonlinear_arith)
        requires
            pw == 3,
            vw == 1,
            p <= u64::MAX,
            v <= u64::MAX,
    ;
    let weighted: u128 = pw * p + vw * v;
    clamp_signal(weighted / (SIGNAL_WEIGHT_TOTAL as u128))
}

/// Derive all three signals for an epoch from its census and the previous epoch's state.
pub fn signals_for(census: &EpochCensus, stores_prev: u64, required_per_store_prev: u64) -> (signals:
    Signals)
    ensures
        signals.participation_micros == participation_spec(census.stores, stores_prev),
        signals.volume_micros == volume_spec(
            census.locked,
            census.stores,
            required_per_store_prev,
        ),
        signals.saturation_micros == saturation_spec(
            signals.participation_micros,
            signals.volume_micros,
        ),
{
    let participation = participation_micros(census.stores, stores_prev);
    let volume = volume_micros(census.locked, census.stores, required_per_store_prev);
    Signals {
        participation_micros: participation,
        volume_micros: volume,
        saturation_micros: saturation_micros(participation, volume),
    }
}

/// Apply one controller step to the previous multiplier.
///
/// Both steps are a fixed fraction of the *previous multiplier*, never proportional to the
/// deviation. The floor is applied *after* the step.
pub fn step_multiplier(prev_multiplier_micros: u64, saturation_micros: u64) -> (next: u64)
    ensures
        next == step_spec(prev_multiplier_micros, saturation_micros),
        next >= MULT_FLOOR_MICROS,
        prev_multiplier_micros <= MULT_CEILING_MICROS ==> next <= MULT_CEILING_MICROS,
{
    let stepped: u64 = match Band::of_saturation(saturation_micros) {
        Band::High => {
            let step: u64 = prev_multiplier_micros / UP_STEP_DENOM;
            let raised: u64 = prev_multiplier_micros.saturating_add(step);
            if raised < MULT_CEILING_MICROS {
                raised
            } else {
                MULT_CEILING_MICROS
            }
        },
        Band::Low => {
            let step: u64 = prev_multiplier_micros / DOWN_STEP_DENOM;
            prev_multiplier_micros.saturating_sub(step)
        },
        Band::Inside => prev_multiplier_micros,
    };
    if stepped > MULT_FLOOR_MICROS {
        stepped
    } else {
        MULT_FLOOR_MICROS
    }
}

} // verus!
