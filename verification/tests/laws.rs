//! Concrete instances of the properties the library proves, and the edges of each formula.

use dig_mirror_collateral::{
    activation_schedule, apply_safety_margin, base_per_store, handicap_for_owners,
    participation_micros, required_per_store, saturation_micros, schedule_is_strictly_ascending,
    signals_for, step_multiplier, sync_sample_plan, version_for_epoch, version_for_epoch_in,
    volume_micros, Activation, Band, CollateralError, EpochCensus, EpochRecord, ProtocolVersion,
    MULT_CEILING_MICROS, MULT_FLOOR_MICROS, MULT_SCALE, SIGNAL_CAP_MICROS,
};

#[test]
fn bootstrap_record_is_the_anchor() {
    let epoch1 = EpochRecord::bootstrap();
    assert_eq!(epoch1.epoch, 1);
    assert_eq!(epoch1.protocol_version, ProtocolVersion::v1());
    assert_eq!(epoch1.census, EpochCensus::bootstrap());
    assert_eq!(epoch1.signals, None);
    assert_eq!(epoch1.band, None);
    assert_eq!(epoch1.multiplier_micros, MULT_SCALE);
    assert_eq!(epoch1.handicap_dig_base_units, 4_000);
    assert_eq!(epoch1.base_price_dig_base_units, 5_000);
    assert_eq!(epoch1.required_per_store_dig_base_units, 1_000);
}

#[test]
fn epoch_two_carries_every_intermediate() {
    let epoch2 = EpochRecord::bootstrap()
        .advance(EpochCensus { epoch: 2, stores: 12, owners: 9, locked: 12_120 })
        .expect("consecutive");
    let signals = epoch2.signals.expect("derived");
    assert_eq!(signals.participation_micros, 1_000_000);
    assert_eq!(signals.volume_micros, 1_010_000);
    assert_eq!(signals.saturation_micros, 1_002_500);
    assert_eq!(epoch2.band, Some(Band::Inside));
    assert_eq!(epoch2.multiplier_micros, 1_000_000);
    assert_eq!(epoch2.handicap_dig_base_units, 3_964);
    assert_eq!(epoch2.base_price_dig_base_units, 5_000);
    assert_eq!(epoch2.required_per_store_dig_base_units, 1_036);
}

#[test]
fn a_growth_epoch_steps_up_by_one_eighth() {
    let epoch2 = EpochRecord::bootstrap()
        .advance(EpochCensus { epoch: 2, stores: 100, owners: 50, locked: 100_000 })
        .expect("consecutive");
    let epoch3 = epoch2
        .advance(EpochCensus { epoch: 3, stores: 200, owners: 80, locked: 200 * 1_000 })
        .expect("consecutive");
    // participation 2.0x, volume well below par: saturation (6e6 + v) / 4 > 1.1e6.
    assert_eq!(epoch3.band, Some(Band::High));
    assert_eq!(epoch3.multiplier_micros, 1_125_000);
    assert_eq!(epoch3.base_price_dig_base_units, 5_625);
}

#[test]
fn each_error_variant_has_an_input_that_gives_it() {
    let epoch1 = EpochRecord::bootstrap();
    assert_eq!(
        epoch1.advance(EpochCensus { epoch: 5, stores: 0, owners: 0, locked: 0 }),
        Err(CollateralError::NonSequentialEpoch { expected: 2, found: 5 })
    );
    let mut foreign = EpochRecord::bootstrap();
    foreign.protocol_version = ProtocolVersion(7);
    assert_eq!(
        foreign.advance(EpochCensus { epoch: 5, stores: 0, owners: 0, locked: 0 }),
        Err(CollateralError::UnknownProtocolVersion { version: 7 }),
        "an unknown seed is refused before the sequence is even looked at"
    );
    assert_eq!(
        version_for_epoch(0),
        Err(CollateralError::EpochNotGoverned { epoch: 0 })
    );
    let mut terminal = EpochRecord::bootstrap();
    terminal.epoch = u64::MAX;
    assert_eq!(
        terminal.advance(EpochCensus { epoch: u64::MAX, stores: 0, owners: 0, locked: 0 }),
        Err(CollateralError::NonSequentialEpoch { expected: u64::MAX, found: u64::MAX })
    );
}

#[test]
fn every_real_epoch_is_governed_by_v1() {
    for epoch in [1u64, 2, 1_000, u64::MAX] {
        assert_eq!(version_for_epoch(epoch), Ok(ProtocolVersion::v1()));
    }
    assert!(ProtocolVersion::v1().is_implemented());
    assert_eq!(ProtocolVersion::v1().implemented(), Ok(ProtocolVersion(1)));
    assert_eq!(
        ProtocolVersion(0).implemented(),
        Err(CollateralError::UnknownProtocolVersion { version: 0 })
    );
}

#[test]
fn schedule_ordering_is_checked_strictly() {
    assert!(schedule_is_strictly_ascending(&activation_schedule()));
    assert!(schedule_is_strictly_ascending(&[]));
    let v1 = ProtocolVersion::v1();
    let v2 = ProtocolVersion(2);
    let unordered = [
        Activation { version: v1, first_epoch: 1 },
        Activation { version: v2, first_epoch: 500 },
        Activation { version: ProtocolVersion(3), first_epoch: 400 },
    ];
    assert!(!schedule_is_strictly_ascending(&unordered));
    let equal_epochs = [
        Activation { version: v1, first_epoch: 1 },
        Activation { version: v2, first_epoch: 1 },
    ];
    assert!(!schedule_is_strictly_ascending(&equal_epochs));
    let version_falls = [
        Activation { version: v2, first_epoch: 1 },
        Activation { version: v1, first_epoch: 9 },
    ];
    assert!(!schedule_is_strictly_ascending(&version_falls));
    // The selection reads the last activated row, which is why the order matters.
    assert_eq!(version_for_epoch_in(&unordered, 450), Ok(ProtocolVersion(3)));
    assert_eq!(version_for_epoch_in(&unordered, 0), Err(CollateralError::EpochNotGoverned { epoch: 0 }));
}

#[test]
fn the_handicap_is_linear_at_four_base_units_per_owner() {
    assert_eq!(handicap_for_owners(0), 4_000);
    assert_eq!(handicap_for_owners(1), 3_996);
    assert_eq!(handicap_for_owners(500), 2_000);
    assert_eq!(handicap_for_owners(999), 4);
    assert_eq!(handicap_for_owners(1_000), 0);
    for owners in [0u64, 1, 9, 250, 999] {
        assert_eq!(required_per_store(MULT_SCALE, owners), 1_000 + 4 * owners);
    }
}

#[test]
fn the_requirement_follows_the_multiplier() {
    let mut previous = 0;
    for multiplier in [0u64, 1, 199, 200, 20_000, 800_000, 1_000_000, 2_000_000, MULT_CEILING_MICROS] {
        let current = required_per_store(multiplier, 10);
        assert!(current >= previous);
        assert!(current >= 1);
        previous = current;
    }
    assert_eq!(base_per_store(199), 0);
    assert_eq!(base_per_store(200), 1);
    assert_eq!(required_per_store(0, u64::MAX), 1);
}

#[test]
fn the_signals_have_exact_values() {
    assert_eq!(participation_micros(3, 2), 1_500_000);
    assert_eq!(participation_micros(1, 3), 333_333);
    assert_eq!(participation_micros(0, 7), 0);
    assert_eq!(participation_micros(101, 1), 100_000_000);
    assert_eq!(participation_micros(99, 1), 99_000_000);
    assert_eq!(volume_micros(31_410, 30, 1_036), 1_010_617);
    assert_eq!(volume_micros(0, 30, 1_036), 0);
    assert_eq!(saturation_micros(1_000_000, 1_400_003), 1_100_000);
    assert_eq!(saturation_micros(1_000_000, 1_400_004), 1_100_001);
    let census = EpochCensus { epoch: 3, stores: 30, owners: 22, locked: 31_410 };
    let signals = signals_for(&census, 12, 1_036);
    assert_eq!(signals.participation_micros, 2_500_000);
    assert_eq!(signals.volume_micros, 1_010_617);
    assert_eq!(signals.saturation_micros, (3 * 2_500_000 + 1_010_617) / 4);
    assert_eq!(Band::of_saturation(signals.saturation_micros), Band::High);
    assert_eq!(Band::of_saturation(949_999), Band::Low);
    assert_eq!(Band::of_saturation(950_000), Band::Inside);
    assert_eq!(Band::of_saturation(1_100_000), Band::Inside);
    assert_eq!(Band::of_saturation(1_100_001), Band::High);
}

#[test]
fn neutral_participation_holds_until_volume_reaches_one_point_four() {
    for volume in [800_000u64, 1_000_000, 1_050_000, 1_400_003] {
        let saturation = saturation_micros(MULT_SCALE, volume);
        assert_eq!(Band::of_saturation(saturation), Band::Inside, "volume {volume}");
    }
    assert_eq!(Band::of_saturation(saturation_micros(MULT_SCALE, 799_999)), Band::Low);
    assert_eq!(Band::of_saturation(saturation_micros(MULT_SCALE, 1_400_004)), Band::High);
}

#[test]
fn a_tiny_requirement_is_where_a_margin_can_move_the_price() {
    // At a previous requirement of one base unit, any non-zero margin posts two: volume 2.0x.
    assert_eq!(apply_safety_margin(1, 1), 2);
    assert_eq!(volume_micros(10 * 2, 10, 1), 2_000_000);
    assert_eq!(Band::of_saturation(saturation_micros(MULT_SCALE, 2_000_000)), Band::High);
    // From three base units on, the most generous preset stays inside the band.
    assert_eq!(apply_safety_margin(3, 500), 4);
    assert_eq!(volume_micros(4, 1, 3), 1_333_333);
    assert_eq!(Band::of_saturation(saturation_micros(MULT_SCALE, 1_333_333)), Band::Inside);
}

#[test]
fn the_margin_is_the_least_covering_amount() {
    assert_eq!(apply_safety_margin(10_000, 1), 10_001);
    assert_eq!(apply_safety_margin(9_999, 1), 10_000);
    assert_eq!(apply_safety_margin(20_000, 500), 21_000);
    assert_eq!(apply_safety_margin(0, 500), 0);
    assert_eq!(apply_safety_margin(5_000, 100), 5_050);
}

#[test]
fn the_step_stays_within_its_bounds() {
    assert_eq!(step_multiplier(0, MULT_SCALE), MULT_FLOOR_MICROS);
    assert_eq!(step_multiplier(u64::MAX, SIGNAL_CAP_MICROS), MULT_CEILING_MICROS);
    assert_eq!(step_multiplier(u64::MAX, 0), u64::MAX - u64::MAX / 16);
    assert_eq!(step_multiplier(21_000, 0), 20_000);
    assert_eq!(step_multiplier(960_000_000_000, SIGNAL_CAP_MICROS), MULT_CEILING_MICROS);
}

#[test]
fn the_threshold_is_a_strict_supermajority() {
    for population in 0u64..=40 {
        let plan = sync_sample_plan(population);
        let k = plan.sample_size;
        let t = plan.agreement_threshold;
        assert!(t >= 1);
        assert!(3 * t > 2 * k, "threshold {t} of {k} is not more than two thirds");
        assert!(3 * (t - 1) <= 2 * k, "threshold {t} of {k} is not the least such");
        assert_eq!(plan.max_assumed_dishonest, population / 5);
    }
    assert_eq!(sync_sample_plan(3).agreement_threshold, 3);
    assert_eq!(sync_sample_plan(u64::MAX).max_assumed_dishonest, u64::MAX / 5);
}
