//! The client-side safety margin. Never consensus, never an input to any census or signal.
use vstd::prelude::*;

use crate::constants::BASIS_POINTS_SCALE;

verus! {

/// `ceil(required * (10_000 + margin_bp) / 10_000)`, saturated at `u64::MAX`.
pub open spec fn margin_spec(required_per_store_dig_base_units: u64, margin_bp: u64) -> int {
    let scale = BASIS_POINTS_SCALE as int;
    let rounded = (required_per_store_dig_base_units * (scale + margin_bp) + scale - 1) / scale;
    if rounded > u64::MAX {
        u64::MAX as int
    } else {
        rounded
    }
}

/// Once the exact amount reaches `u128::MAX - 9_998`, its ceiling share is far beyond `u64::MAX`.
proof fn lemma_huge_rounds_past_u64(x: int)
    requires
        x >= u128::MAX - 9_998,
    ensures
        (x + 9_999) / 10_000 > u64::MAX,
        (u128::MAX as int) / 10_000 > u64::MAX,
{
    assert((x + 9_999) / 10_000 > u64::MAX) by (nonlinear_arith)
        requires
            x >= u128::MAX - 9_998,
    ;
}

/// The margin rounds up, and by no more than it must: the posted amount is the least whole
/// number of base units covering the exact margined amount `required * (10_000 + bp) / 10_000`,
/// or `u64::MAX` when that least amount does not fit (never anything smaller).
pub proof fn lemma_margin_rounds_up(required_per_store_dig_base_units: u64, margin_bp: u64)
    ensures
        margin_spec(required_per_store_dig_base_units, margin_bp) >= required_per_store_dig_base_units,
        margin_spec(required_per_store_dig_base_units, margin_bp) == u64::MAX || margin_spec(
            required_per_store_dig_base_units,
            margin_bp,
        ) * 10_000 >= required_per_store_dig_base_units * (10_000 + margin_bp),
        (margin_spec(required_per_store_dig_base_units, margin_bp) - 1) * 10_000
            < required_per_store_dig_base_units * (10_000 + margin_bp),
        0 <= margin_spec(required_per_store_dig_base_units, margin_bp) <= u64::MAX,
{
    let r = required_per_store_dig_base_units as int;
    let exact = r * (10_000 + margin_bp);
    assert(exact >= r * 10_000) by (nonlinear_arith)
        requires
            exact == r * (10_000 + margin_bp),
            margin_bp >= 0,
            r >= 0,
    ;
    let rounded = (exact + 9_999) / 10_000;
    assert(rounded * 10_000 <= exact + 9_999 < rounded * 10_000 + 10_000);
}

/// Bounds of the ceiling share used by the margin: `r <= ceil <= r * 1.05 + 1` at most 500 bp.
proof fn lemma_posted_bounds(required: u64, margin_bp: u64)
    requires
        margin_bp <= 500,
    ensures
        required <= margin_spec(required, margin_bp),
        margin_spec(required, margin_bp) * 10_000 <= required * (10_000 + margin_bp) + 9_999,
{
    lemma_margin_rounds_up(required, margin_bp);
    let exact = required * (10_000 + margin_bp);
    let rounded = (exact + 9_999) / 10_000;
    assert(rounded * 10_000 <= exact + 9_999);
}

/// A network in which every operator posts the requirement under a safety margin of at most the
/// most generous preset reads a volume signal between 1.0x and 1.400003x: the margin shows up in
/// the signal, but never enough to leave the dead band while participation is neutral.
///
/// The bound needs a previous requirement of at least three base units whenever the margin is
/// non-zero: at one or two base units the round-up alone is a third or more of the requirement.
pub proof fn lemma_margined_volume_stays_in_band(required_prev: u64, margin_bp: u64)
    requires
        margin_bp <= 500,
        required_prev > 0,
        margin_bp == 0 || required_prev >= 3,
    ensures
        1_000_000 <= margin_spec(required_prev, margin_bp) * 1_000_000 / (required_prev as int)
            <= 1_400_003,
{
    lemma_posted_bounds(required_prev, margin_bp);
    let r = required_prev as int;
    let posted = margin_spec(required_prev, margin_bp);
    assert(posted * 1_000_000 >= r * 1_000_000) by (nonlinear_arith)
        requires
            posted >= r,
            r > 0,
    ;
    vstd::arithmetic::div_mod::lemma_div_is_ordered(r * 1_000_000, posted * 1_000_000, r);
    assert((r * 1_000_000) / r == 1_000_000) by (nonlinear_arith)
        requires
            r > 0,
    ;
    if margin_bp == 0 {
        assert(posted * 10_000 <= r * 10_000 + 9_999);
        assert(posted <= r) by (nonlinear_arith)
            requires
                posted * 10_000 <= r * 10_000 + 9_999,
        ;
        assert(posted == r);
    } else {
        assert(posted * 1_000_000 < 1_400_004 * r) by (nonlinear_arith)
            requires
                posted * 10_000 <= r * (10_000 + margin_bp) + 9_999,
                margin_bp <= 500,
                r >= 3,
        ;
        assert(posted * 1_000_000 / r < 1_400_004) by (nonlinear_arith)
            requires
                posted * 1_000_000 < 1_400_004 * r,
                r > 0,
                posted >= 0,
        ;
    }
}

/// How much collateral to actually post for a requirement, given a margin in basis points.
///
/// Rounds **up**, the only place in this crate that does: a margin that rounds down can leave a
/// node one base unit short of the requirement. Both the product and the round-up addend
/// saturate, so the largest margin can never wrap into a smaller posted amount.
pub fn apply_safety_margin(required_per_store_dig_base_units: u64, margin_bp: u64) -> (posted: u64)
    ensures
        posted == margin_spec(required_per_store_dig_base_units, margin_bp),
        posted >= required_per_store_dig_base_units,
        margin_bp == 0 ==> posted == required_per_store_dig_base_units,
{
    let required = required_per_store_dig_base_units;
    let scale: u128 = BASIS_POINTS_SCALE as u128;
    let factor: u128 = scale + margin_bp as u128;
    let ghost exact: int = required * (10_000 + margin_bp);
    let product: u128 = match (required as u128).checked_mul(factor) {
        Some(p) => p,
        None => u128::MAX,
    };
    let numerator: u128 = product.saturating_add(scale - 1);
    let rounded: u128 = numerator / scale;
    proof {
        assert(exact >= required * 10_000) by (nonlinear_arith)
            requires
                exact == required * (10_000 + margin_bp),
                margin_bp >= 0,
                required >= 0,
        ;
        if exact + 9_999 > u128::MAX {
            lemma_huge_rounds_past_u64(exact);
            assert(numerator == u128::MAX);
        } else {
            assert(numerator == exact + 9_999);
        }
        if margin_bp == 0 {
            assert(exact == required * 10_000);
        }
    }
    if rounded > (u64::MAX as u128) {
        u64::MAX
    } else {
        rounded as u64
    }
}

} // verus!
