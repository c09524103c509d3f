//! The consecutive-epoch rule of the recurrence.

use dig_mirror_collateral::{CollateralError, EpochCensus, EpochRecord};

/// Only the epoch immediately after a record is accepted in one step.
#[test]
fn advance_refuses_a_non_consecutive_census() {
    let epoch1 = EpochRecord::bootstrap();

    let skipped = EpochCensus {
        epoch: 3,
        stores: 12,
        owners: 9,
        locked: 12_120,
    };
    let err = epoch1
        .advance(skipped)
        .expect_err("epoch 3 does not follow 1");
    assert_eq!(
        err,
        CollateralError::NonSequentialEpoch {
            expected: 2,
            found: 3
        }
    );

    let repeated = EpochCensus {
        epoch: 1,
        ..skipped
    };
    assert!(epoch1.advance(repeated).is_err(), "an epoch cannot repeat");
}
