//! Degenerate and extreme inputs: the places where "neutral" and "saturating" are the contract.

use dig_mirror_collateral::{
    apply_safety_margin, base_per_store, participation_micros, required_per_store,
    step_multiplier, sync_sample_plan, volume_micros, Band, EpochCensus, EpochRecord,
    MULT_CEILING_MICROS, MULT_FLOOR_MICROS, MULT_SCALE, SIGNAL_CAP_MICROS, SYNC_MAX_SAMPLE,
    SYNC_MIN_POPULATION,
};

/// An empty network is not a signal: both degenerate denominators read as exactly neutral.
#[test]
fn empty_denominators_read_as_neutral() {
    assert_eq!(participation_micros(0, 0), MULT_SCALE);
    assert_eq!(participation_micros(500, 0), MULT_SCALE);

    assert_eq!(volume_micros(0, 0, 5_000), MULT_SCALE);
    assert_eq!(volume_micros(10_000, 500, 0), MULT_SCALE);

    let epoch2 = EpochRecord::bootstrap()
        .advance(EpochCensus {
            epoch: 2,
            stores: 0,
            owners: 0,
            locked: 0,
        })
        .expect("consecutive");
    assert_eq!(epoch2.band, Some(Band::Inside));
    assert_eq!(epoch2.multiplier_micros, MULT_SCALE);
}

/// Both signals clamp before they are narrowed.
#[test]
fn signals_clamp_rather_than_overflow() {
    assert_eq!(participation_micros(u64::MAX, 1), SIGNAL_CAP_MICROS);
    assert_eq!(volume_micros(u64::MAX, 1, 1), SIGNAL_CAP_MICROS);

    assert!(participation_micros(1_500, 1_000) < SIGNAL_CAP_MICROS);
}

/// The multiplier saturates at both ends without panicking and without wrapping.
#[test]
fn the_multiplier_saturates_at_both_ends() {
    let mut multiplier = MULT_SCALE;
    for _ in 0..1_000 {
        multiplier = step_multiplier(multiplier, SIGNAL_CAP_MICROS);
    }
    assert_eq!(multiplier, MULT_CEILING_MICROS);

    for _ in 0..100_000 {
        multiplier = step_multiplier(multiplier, 0);
    }
    assert_eq!(multiplier, MULT_FLOOR_MICROS);
    assert_eq!(step_multiplier(MULT_FLOOR_MICROS, 0), MULT_FLOOR_MICROS);
}

/// Even at the representational ceiling the composed requirement stays a real number.
#[test]
fn the_requirement_is_finite_at_the_ceiling() {
    assert_eq!(base_per_store(MULT_CEILING_MICROS), 5_000_000_000);
    assert_eq!(
        required_per_store(MULT_CEILING_MICROS, 0),
        5_000_000_000 - 4_000
    );
    assert_eq!(base_per_store(u64::MAX), 92_233_720_368_547_758);
}

/// The margin rounds up, which is the whole reason it exists.
#[test]
fn the_margin_rounds_up_and_never_short() {
    for required in [1u64, 999, 1_000, 1_036, 3_351, 5_000] {
        for bp in [0u64, 1, 100, 500] {
            let posted = apply_safety_margin(required, bp);
            assert!(
                posted >= required,
                "margin {bp} bp left {required} short at {posted}"
            );
            let floored = u128::from(required) * (10_000 + u128::from(bp)) / 10_000;
            assert!(u128::from(posted) >= floored);
        }
    }

    assert_eq!(apply_safety_margin(1_000, 1), 1_001);
    assert_eq!(apply_safety_margin(u64::MAX, 500), u64::MAX);
}

/// The sampling plan plateaus, and says so honestly below the population its assumption needs.
///
/// At the plateau the strict two-thirds threshold is `floor(2 * 9 / 3) + 1 == 7`.
#[test]
fn the_sample_plan_plateaus_and_flags_its_own_assumption() {
    let tiny = sync_sample_plan(3);
    assert_eq!(
        tiny.sample_size, 3,
        "query the whole population when it is tiny"
    );
    assert!(tiny.advisory_only);

    let boundary = sync_sample_plan(SYNC_MIN_POPULATION);
    assert!(
        !boundary.advisory_only,
        "the boundary is inclusive-from-below"
    );
    assert_eq!(boundary.sample_size, SYNC_MAX_SAMPLE);
    assert_eq!(boundary.agreement_threshold, 7);
    assert_eq!(boundary.max_assumed_dishonest, 4);
    assert!(
        boundary.agreement_threshold > boundary.max_assumed_dishonest,
        "at the smallest non-advisory population the assumed dishonest set cannot reach the \
         threshold at all"
    );

    assert!(sync_sample_plan(SYNC_MIN_POPULATION - 1).advisory_only);

    for population in [21u64, 27, 1_000, u64::MAX] {
        let plan = sync_sample_plan(population);
        assert_eq!(plan.sample_size, SYNC_MAX_SAMPLE);
        assert_eq!(plan.agreement_threshold, 7);
        assert!(!plan.advisory_only);
    }

    let empty = sync_sample_plan(0);
    assert_eq!(empty.sample_size, 0);
    assert!(empty.advisory_only);
    assert_eq!(
        empty.agreement_threshold, 1,
        "an empty population must never yield a threshold of zero"
    );
}
