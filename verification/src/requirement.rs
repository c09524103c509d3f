//! Composing a multiplier and an owner count into the per-store collateral requirement.
use vstd::prelude::*;

use crate::constants::{
    EQUILIBRIUM_PER_STORE_DIG_BASE_UNITS, MIN_REQUIRED_PER_STORE_DIG_BASE_UNITS, MULT_SCALE,
};
use crate::handicap::{
    handicap_for_owners, handicap_spec, lemma_handicap_is_linear, lemma_handicap_never_grows,
};

verus! {

/// The equilibrium price scaled by the multiplier, floored: `floor(5_000 * m / 1_000_000)`.
pub open spec fn base_spec(multiplier_micros: u64) -> int {
    EQUILIBRIUM_PER_STORE_DIG_BASE_UNITS * multiplier_micros / (MULT_SCALE as int)
}

/// `a - b`, stopping at zero.
pub open spec fn saturating_sub_spec(a: int, b: int) -> int {
    if a > b {
        a - b
    } else {
        0
    }
}

/// The requirement: the subsidised base price, lifted to at least one base unit.
pub open spec fn required_spec(multiplier_micros: u64, owners: u64) -> int {
    let subsidised = saturating_sub_spec(base_spec(multiplier_micros), handicap_spec(owners));
    if subsidised > MIN_REQUIRED_PER_STORE_DIG_BASE_UNITS {
        subsidised
    } else {
        MIN_REQUIRED_PER_STORE_DIG_BASE_UNITS as int
    }
}

/// The scaled price never exceeds `m / 200`, so it always fits in 64 bits.
pub(crate) proof fn lemma_base_fits(multiplier_micros: u64)
    ensures
        0 <= base_spec(multiplier_micros) <= multiplier_micros,
{
    let m = multiplier_micros as int;
    assert(0 <= 5_000 * m / 1_000_000 <= m) by (nonlinear_arith)
        requires
            0 <= m,
    ;
}

/// The requirement at every multiplier and owner count: the equilibrium price scaled by the
/// multiplier and floored, less the full linear subsidy `4_000 * (1_000 - min(owners, 1_000)) /
/// 1_000` (stopping at zero), lifted to one base unit. The subsidy is taken in full at every
/// multiplier, above par as well as below it.
pub proof fn lemma_requirement_is_subsidised_price(multiplier_micros: u64, owners: u64)
    ensures
        ({
            let base = 5_000 * multiplier_micros / 1_000_000;
            let counted: int = if owners < 1_000 {
                owners as int
            } else {
                1_000
            };
            let subsidy = 4_000 * (1_000 - counted) / 1_000;
            let cut = if base > subsidy {
                base - subsidy
            } else {
                0
            };
            required_spec(multiplier_micros, owners) == if cut > 1 {
                cut
            } else {
                1
            }
        }),
        base_spec(multiplier_micros) == 5_000 * multiplier_micros / 1_000_000,
{
}

/// A larger multiplier never yields a smaller scaled price.
pub proof fn lemma_base_is_monotone(lower: u64, higher: u64)
    requires
        lower <= higher,
    ensures
        base_spec(lower) <= base_spec(higher),
{
    assert(5_000 * lower <= 5_000 * higher) by (nonlinear_arith)
        requires
            lower <= higher,
    ;
    vstd::arithmetic::div_mod::lemma_div_is_ordered(
        5_000 * lower,
        5_000 * higher,
        1_000_000,
    );
}

/// Gaining verified owners never lowers the requirement, at any multiplier: a non-monotone curve
/// would let an operator make the network cheaper by joining it.
pub proof fn lemma_requirement_never_falls_as_owners_are_gained(
    multiplier_micros: u64,
    fewer: u64,
    more: u64,
)
    requires
        fewer <= more,
    ensures
        required_spec(multiplier_micros, fewer) <= required_spec(multiplier_micros, more),
{
    lemma_handicap_never_grows(fewer, more);
}

/// A higher multiplier never yields a lower requirement, at any owner count.
pub proof fn lemma_requirement_follows_the_multiplier(lower: u64, higher: u64, owners: u64)
    requires
        lower <= higher,
    ensures
        required_spec(lower, owners) <= required_spec(higher, owners),
{
    lemma_base_is_monotone(lower, higher);
}

/// At a multiplier of 1.0x the whole schedule is the line `1_000 + 4 * owners` below
/// [`crate::constants::HANDICAP_ZERO_AT_OWNERS`] owners and the equilibrium price from there on,
/// so the requirement never exceeds the equilibrium price, and the bootstrap price of 1.000 DIG
/// comes from the subsidy curve rather than from the clamp.
pub proof fn lemma_schedule_at_par(owners: u64)
    ensures
        owners < 1_000 ==> required_spec(MULT_SCALE, owners) == 1_000 + 4 * owners,
        owners >= 1_000 ==> required_spec(MULT_SCALE, owners)
            == EQUILIBRIUM_PER_STORE_DIG_BASE_UNITS,
        required_spec(MULT_SCALE, owners) <= EQUILIBRIUM_PER_STORE_DIG_BASE_UNITS,
        base_spec(MULT_SCALE) - handicap_spec(owners) == required_spec(MULT_SCALE, owners),
{
    lemma_handicap_is_linear(owners);
    assert(base_spec(MULT_SCALE) == 5_000);
}

/// The equilibrium price scaled by the multiplier, in DIG base units, before subsidy or clamp.
///
/// Computed in `u128` and narrowed by saturation; the saturation can never bind, because the
/// scaled price is at most `multiplier / 200`.
pub fn base_per_store(multiplier_micros: u64) -> (base: u64)
    ensures
        base == base_spec(multiplier_micros),
        base == 5_000 * multiplier_micros / 1_000_000,
        base <= multiplier_micros,
{
    proof {
        lemma_base_fits(multiplier_micros);
    }
    let product: u128 = (EQUILIBRIUM_PER_STORE_DIG_BASE_UNITS as u128) * (multiplier_micros as u128);
    let scaled: u128 = product / (MULT_SCALE as u128);
    if scaled > (u64::MAX as u128) {
        u64::MAX
    } else {
        scaled as u64
    }
}

/// The per-store collateral an advertisement must post to qualify for an epoch.
///
/// Equilibrium times multiplier, less the bootstrap subsidy, lifted to
/// [`MIN_REQUIRED_PER_STORE_DIG_BASE_UNITS`]. The subtraction saturates, so an oversized subsidy
/// yields zero (then lifted by the clamp) and never wraps into an enormous requirement.
pub fn required_per_store(multiplier_micros: u64, owners: u64) -> (required: u64)
    ensures
        required == required_spec(multiplier_micros, owners),
        required == if base_spec(multiplier_micros) - handicap_spec(owners) > 1 {
            base_spec(multiplier_micros) - handicap_spec(owners)
        } else {
            1
        },
        required >= MIN_REQUIRED_PER_STORE_DIG_BASE_UNITS,
        required <= base_spec(multiplier_micros) || required
            == MIN_REQUIRED_PER_STORE_DIG_BASE_UNITS,
{
    let base = base_per_store(multiplier_micros);
    let handicap = handicap_for_owners(owners);
    let subsidised: u64 = if base > handicap {
        base - handicap
    } else {
        0
    };
    if subsidised > MIN_REQUIRED_PER_STORE_DIG_BASE_UNITS {
        subsidised
    } else {
        MIN_REQUIRED_PER_STORE_DIG_BASE_UNITS
    }
}

} // verus!
