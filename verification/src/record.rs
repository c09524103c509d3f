//! The per-epoch record: the whole derivation for one epoch, inputs included.
use vstd::prelude::*;

use crate::census::EpochCensus;
use crate::constants::{
    DEADBAND_HIGH_MICROS, DEADBAND_LOW_MICROS, HANDICAP_MAX_DIG_BASE_UNITS,
    MIN_REQUIRED_PER_STORE_DIG_BASE_UNITS, MULT_BOOTSTRAP_MICROS,
    MULT_CEILING_MICROS, MULT_FLOOR_MICROS, MULT_SCALE, SAFETY_MARGIN_BP_GENEROUS,
    SIGNAL_CAP_MICROS,
};
use crate::controller::{
    band_spec, lemma_band_is_decided_by_the_dead_band, lemma_neutral_participation_band,
    lemma_participation_is_the_growth_ratio, lemma_saturation_is_the_weighted_mean,
    lemma_step_follows_the_reading, lemma_volume_is_locked_over_owed, participation_spec,
    saturation_spec, signals_for, step_multiplier, step_spec, volume_spec, Band, Signals,
};
use crate::margin::{lemma_margined_volume_stays_in_band, margin_spec};
use crate::error::CollateralError;
use crate::handicap::{handicap_for_owners, handicap_spec};
use crate::requirement::{base_per_store, base_spec, required_per_store, required_spec};
use crate::version::{implemented_versions_spec, version_for_epoch, ProtocolVersion};

verus! {

/// One epoch of the collateral recurrence, fully derived.
///
/// The record carries its own inputs and intermediates, not just its output, so that two
/// implementations that disagree can say *where* they disagree.
#[derive(Debug, Clone, Copy, PartialEq, Eq, Structural)]
pub struct EpochRecord {
    /// The epoch this record describes, one-based.
    pub epoch: u64,
    /// The ruleset that computed this record; it travels with the record.
    pub protocol_version: ProtocolVersion,
    /// The census that produced it. Empty at epoch 1, where no epoch precedes.
    pub census: EpochCensus,
    /// The three derived signals, absent at epoch 1 where there is nothing to compare against.
    pub signals: Option<Signals>,
    /// Where the saturation reading sat, absent at epoch 1 for the same reason.
    pub band: Option<Band>,
    /// The multiplier in force for this epoch.
    pub multiplier_micros: u64,
    /// The bootstrap subsidy in force for this epoch.
    pub handicap_dig_base_units: u64,
    /// Equilibrium times multiplier, before the subsidy and the clamp.
    pub base_price_dig_base_units: u64,
    /// What an advertisement must post to qualify for this epoch.
    pub required_per_store_dig_base_units: u64,
}

/// The price fields of a record agree with its multiplier and its census owner count.
pub open spec fn prices_consistent(record: EpochRecord) -> bool {
    &&& record.handicap_dig_base_units == handicap_spec(record.census.owners)
    &&& record.base_price_dig_base_units == base_spec(record.multiplier_micros)
    &&& record.required_per_store_dig_base_units == required_spec(
        record.multiplier_micros,
        record.census.owners,
    )
}

/// The record derived from `prev` and the census of the epoch after it, under `version`.
pub open spec fn successor_spec(
    prev: EpochRecord,
    census: EpochCensus,
    version: ProtocolVersion,
) -> EpochRecord {
    let participation = participation_spec(census.stores, prev.census.stores);
    let volume = volume_spec(census.locked, census.stores, prev.required_per_store_dig_base_units);
    let saturation = saturation_spec(participation as u64, volume as u64);
    let multiplier = step_spec(prev.multiplier_micros, saturation as u64);
    EpochRecord {
        epoch: census.epoch,
        protocol_version: version,
        census,
        signals: Some(
            Signals {
                participation_micros: participation as u64,
                volume_micros: volume as u64,
                saturation_micros: saturation as u64,
            },
        ),
        band: Some(band_spec(saturation as u64)),
        multiplier_micros: multiplier as u64,
        handicap_dig_base_units: handicap_spec(census.owners) as u64,
        base_price_dig_base_units: base_spec(multiplier as u64) as u64,
        required_per_store_dig_base_units: required_spec(multiplier as u64, census.owners) as u64,
    }
}

/// Whether `census` describes exactly the epoch after `prev` (the terminal epoch has none).
pub open spec fn follows(prev: EpochRecord, census: EpochCensus) -> bool {
    prev.epoch < u64::MAX && census.epoch == prev.epoch + 1
}

/// Every derived record is internally consistent: its subsidy, base price and requirement are
/// those of its own multiplier and owner count, the requirement is never below one base unit,
/// every signal is within the cap, and the multiplier never leaves
/// `[MULT_FLOOR_MICROS, MULT_CEILING_MICROS]` once it is there.
pub proof fn lemma_successor_is_consistent(
    prev: EpochRecord,
    census: EpochCensus,
    version: ProtocolVersion,
)
    ensures
        prices_consistent(successor_spec(prev, census, version)),
        successor_spec(prev, census, version).required_per_store_dig_base_units
            >= MIN_REQUIRED_PER_STORE_DIG_BASE_UNITS,
        successor_spec(prev, census, version).multiplier_micros >= MULT_FLOOR_MICROS,
        prev.multiplier_micros <= MULT_CEILING_MICROS ==> successor_spec(
            prev,
            census,
            version,
        ).multiplier_micros <= MULT_CEILING_MICROS,
        successor_spec(prev, census, version).signals.unwrap().participation_micros
            <= SIGNAL_CAP_MICROS,
        successor_spec(prev, census, version).signals.unwrap().volume_micros <= SIGNAL_CAP_MICROS,
        successor_spec(prev, census, version).signals.unwrap().saturation_micros
            <= SIGNAL_CAP_MICROS,
{
    let participation = participation_spec(census.stores, prev.census.stores);
    let volume = volume_spec(census.locked, census.stores, prev.required_per_store_dig_base_units);
    let saturation = saturation_spec(participation as u64, volume as u64);
    let multiplier = step_spec(prev.multiplier_micros, saturation as u64);
    assert(0 <= participation <= SIGNAL_CAP_MICROS);
    assert(0 <= volume <= SIGNAL_CAP_MICROS);
    assert(0 <= saturation <= SIGNAL_CAP_MICROS);
    assert(MULT_FLOOR_MICROS <= multiplier <= u64::MAX);
    crate::requirement::lemma_base_fits(multiplier as u64);
    crate::handicap::lemma_handicap_is_linear(census.owners);
}

/// No safety-margin preset can move the multiplier of a stable network.
///
/// Hold the advertisement count exactly constant and let every advertisement post the previous
/// requirement under a margin of at most the most generous preset: participation reads exactly
/// 1.0x, volume carries the margin, and the reading still sits inside the dead band, so the
/// multiplier holds (lifted to the floor if it ever arrived below it) epoch after epoch.
///
/// For a non-zero margin the previous requirement must be zero or at least three base units: at
/// one or two base units the round-up alone pushes volume to 1.5x or more.
pub proof fn lemma_no_margin_preset_moves_the_multiplier(
    prev: EpochRecord,
    census: EpochCensus,
    version: ProtocolVersion,
    margin_bp: u64,
)
    requires
        census.stores == prev.census.stores,
        census.locked == census.stores * margin_spec(
            prev.required_per_store_dig_base_units,
            margin_bp,
        ),
        margin_bp <= SAFETY_MARGIN_BP_GENEROUS,
        margin_bp == 0 || prev.required_per_store_dig_base_units == 0
            || prev.required_per_store_dig_base_units >= 3,
    ensures
        successor_spec(prev, census, version).signals.unwrap().participation_micros == MULT_SCALE,
        successor_spec(prev, census, version).band == Some(Band::Inside),
        successor_spec(prev, census, version).multiplier_micros == if prev.multiplier_micros
            >= MULT_FLOOR_MICROS {
            prev.multiplier_micros
        } else {
            MULT_FLOOR_MICROS
        },
{
    let s = census.stores as int;
    let r = prev.required_per_store_dig_base_units as int;
    let posted = margin_spec(prev.required_per_store_dig_base_units, margin_bp);
    if s > 0 {
        assert((s * 1_000_000) / s == 1_000_000) by (nonlinear_arith)
            requires
                s > 0,
        ;
    }
    let volume = volume_spec(census.locked, census.stores, prev.required_per_store_dig_base_units);
    if s * r != 0 {
        assert(s > 0 && r > 0) by (nonlinear_arith)
            requires
                s * r != 0,
                s >= 0,
                r >= 0,
        ;
        lemma_margined_volume_stays_in_band(prev.required_per_store_dig_base_units, margin_bp);
        let q = (posted * 1_000_000) / r;
        let rem = (posted * 1_000_000) % r;
        vstd::arithmetic::div_mod::lemma_fundamental_div_mod(posted * 1_000_000, r);
        assert(census.locked * 1_000_000 == q * (s * r) + s * rem && 0 <= s * rem < s * r)
            by (nonlinear_arith)
            requires
                census.locked == s * posted,
                posted * 1_000_000 == r * q + rem,
                0 <= rem < r,
                s > 0,
        ;
        vstd::arithmetic::div_mod::lemma_fundamental_div_mod_converse(
            census.locked * 1_000_000,
            s * r,
            q,
            s * rem,
        );
        assert(800_000 <= volume <= 1_400_003);
    } else {
        assert(volume == MULT_SCALE);
    }
    lemma_neutral_participation_band(volume as u64);
}

/// What the next record reads from its census and its predecessor, field by field, in plain
/// arithmetic:
///
/// - participation is the growth ratio `floor(stores * 1e6 / stores_prev)` (capped), exactly 1.0x
///   over an empty predecessor, and strictly below 1.0x whenever the advertisement count fell;
/// - volume is `floor(locked * 1e6 / (stores * required_prev))` (capped), 1.0x when nothing was
///   owed;
/// - saturation is the floored 3:1 weighted mean (capped), banded by the dead band alone;
/// - the multiplier falls by `prev / 16` below the band, rises by `prev / 8` above it (capped),
///   holds inside it, and is lifted to the floor;
/// - the subsidy is `4_000 * (1_000 - min(owners, 1_000)) / 1_000`, the base price
///   `floor(5_000 * multiplier / 1e6)`, and the requirement the base less the subsidy (stopping
///   at zero) lifted to one base unit.
pub proof fn lemma_advance_reads_the_census(
    prev: EpochRecord,
    census: EpochCensus,
    version: ProtocolVersion,
)
    ensures
        ({
            let next = successor_spec(prev, census, version);
            let signals = next.signals.unwrap();
            let p = signals.participation_micros;
            let v = signals.volume_micros;
            let s = signals.saturation_micros;
            let m = prev.multiplier_micros;
            let owed = census.stores * prev.required_per_store_dig_base_units;
            let counted: int = if census.owners < 1_000 {
                census.owners as int
            } else {
                1_000
            };
            let subsidy = 4_000 * (1_000 - counted) / 1_000;
            let base = 5_000 * next.multiplier_micros / 1_000_000;
            &&& next.epoch == census.epoch
            &&& next.census == census
            &&& next.protocol_version == version
            &&& next.signals is Some
            &&& (prev.census.stores == 0 ==> p == 1_000_000)
            &&& (prev.census.stores > 0 ==> p == if census.stores * 1_000_000 / (
            prev.census.stores as int) < SIGNAL_CAP_MICROS {
                census.stores * 1_000_000 / (prev.census.stores as int)
            } else {
                SIGNAL_CAP_MICROS as int
            })
            &&& (census.stores < prev.census.stores ==> p < 1_000_000)
            &&& (owed == 0 ==> v == 1_000_000)
            &&& (owed > 0 ==> v == if census.locked * 1_000_000 / owed < SIGNAL_CAP_MICROS {
                census.locked * 1_000_000 / owed
            } else {
                SIGNAL_CAP_MICROS as int
            })
            &&& s == if (3 * p + v) / 4 < SIGNAL_CAP_MICROS {
                (3 * p + v) / 4
            } else {
                SIGNAL_CAP_MICROS as int
            }
            &&& (s < DEADBAND_LOW_MICROS ==> next.band == Some(Band::Low))
            &&& (s > DEADBAND_HIGH_MICROS ==> next.band == Some(Band::High))
            &&& (DEADBAND_LOW_MICROS <= s <= DEADBAND_HIGH_MICROS ==> next.band == Some(
                Band::Inside,
            ))
            &&& (s < DEADBAND_LOW_MICROS ==> next.multiplier_micros == if m - m / 16
                > MULT_FLOOR_MICROS {
                m - m / 16
            } else {
                MULT_FLOOR_MICROS as int
            })
            &&& (s > DEADBAND_HIGH_MICROS ==> next.multiplier_micros == if m + m / 8
                >= MULT_CEILING_MICROS {
                MULT_CEILING_MICROS as int
            } else if m + m / 8 > MULT_FLOOR_MICROS {
                m + m / 8
            } else {
                MULT_FLOOR_MICROS as int
            })
            &&& (DEADBAND_LOW_MICROS <= s <= DEADBAND_HIGH_MICROS ==> next.multiplier_micros
                == if m > MULT_FLOOR_MICROS {
                m as int
            } else {
                MULT_FLOOR_MICROS as int
            })
            &&& next.handicap_dig_base_units == subsidy
            &&& next.base_price_dig_base_units == base
            &&& next.required_per_store_dig_base_units == if base - subsidy > 1 {
                base - subsidy
            } else {
                1
            }
        }),
{
    let participation = participation_spec(census.stores, prev.census.stores);
    let volume = volume_spec(census.locked, census.stores, prev.required_per_store_dig_base_units);
    lemma_participation_is_the_growth_ratio(census.stores, prev.census.stores);
    lemma_volume_is_locked_over_owed(
        census.locked,
        census.stores,
        prev.required_per_store_dig_base_units,
    );
    assert(0 <= participation <= SIGNAL_CAP_MICROS);
    assert(0 <= volume <= SIGNAL_CAP_MICROS);
    lemma_saturation_is_the_weighted_mean(participation as u64, volume as u64);
    let saturation = saturation_spec(participation as u64, volume as u64);
    lemma_band_is_decided_by_the_dead_band(saturation as u64);
    lemma_step_follows_the_reading(prev.multiplier_micros, saturation as u64);
    lemma_successor_is_consistent(prev, census, version);
    crate::handicap::lemma_handicap_is_linear(census.owners);
    let next = successor_spec(prev, census, version);
    crate::requirement::lemma_requirement_is_subsidised_price(
        next.multiplier_micros,
        census.owners,
    );
}

impl EpochRecord {
    /// The epoch-1 record, which depends on nothing: the anchor the whole recurrence unrolls
    /// from, which is what makes it well-founded by induction on the epoch number.
    pub fn bootstrap() -> (record: Self)
        ensures
            record.epoch == 1,
            record.protocol_version == ProtocolVersion(1),
            record.census == EpochCensus::bootstrap_spec(),
            record.signals.is_none(),
            record.band.is_none(),
            record.multiplier_micros == MULT_BOOTSTRAP_MICROS,
            prices_consistent(record),
            record.handicap_dig_base_units == HANDICAP_MAX_DIG_BASE_UNITS,
            record.base_price_dig_base_units == 5_000,
            record.required_per_store_dig_base_units == 1_000,
    {
        let census = EpochCensus::bootstrap();
        let multiplier_micros = MULT_BOOTSTRAP_MICROS;
        EpochRecord {
            epoch: census.epoch,
            protocol_version: ProtocolVersion::v1(),
            census,
            signals: None,
            band: None,
            multiplier_micros,
            handicap_dig_base_units: handicap_for_owners(census.owners),
            base_price_dig_base_units: base_per_store(multiplier_micros),
            required_per_store_dig_base_units: required_per_store(multiplier_micros, census.owners),
        }
    }

    /// Derive the next epoch from this one and its census.
    ///
    /// Refuses, in this order: a record computed under a ruleset this build does not implement
    /// (extending it would substitute this build's arithmetic for a seed it cannot reproduce),
    /// and a census that does not describe exactly the next epoch. The terminal epoch
    /// `u64::MAX` has no successor and so never advances.
    pub fn advance(&self, census: EpochCensus) -> (result: Result<Self, CollateralError>)
        ensures
            !implemented_versions_spec().contains(self.protocol_version) ==> result == Err::<
                EpochRecord,
                CollateralError,
            >(CollateralError::UnknownProtocolVersion { version: self.protocol_version.0 }),
            implemented_versions_spec().contains(self.protocol_version) && !follows(*self, census)
                ==> result == Err::<EpochRecord, CollateralError>(
                CollateralError::NonSequentialEpoch {
                    expected: if self.epoch < u64::MAX {
                        (self.epoch + 1) as u64
                    } else {
                        u64::MAX
                    },
                    found: census.epoch,
                },
            ),
            implemented_versions_spec().contains(self.protocol_version) && follows(*self, census)
                ==> result == Ok::<EpochRecord, CollateralError>(
                successor_spec(*self, census, ProtocolVersion(1)),
            ),
            result matches Ok(next) ==> next.epoch == self.epoch + 1 && next.census == census
                && census.epoch == self.epoch + 1 && self.protocol_version == ProtocolVersion(1)
                && next.protocol_version == ProtocolVersion(1),
            self.protocol_version == ProtocolVersion(1) && self.epoch < u64::MAX && census.epoch
                == self.epoch + 1 ==> result is Ok,
            self.protocol_version != ProtocolVersion(1) ==> result == Err::<
                EpochRecord,
                CollateralError,
            >(CollateralError::UnknownProtocolVersion { version: self.protocol_version.0 }),
            self.census.stores > 0 ==> (result matches Ok(next) ==> next.signals.unwrap().participation_micros
                == if census.stores * 1_000_000 / (self.census.stores as int)
                < SIGNAL_CAP_MICROS {
                census.stores * 1_000_000 / (self.census.stores as int)
            } else {
                SIGNAL_CAP_MICROS as int
            }),
            census.stores < self.census.stores ==> (result matches Ok(next)
                ==> next.signals.unwrap().participation_micros < 1_000_000),
    {
        proof {
            lemma_advance_reads_the_census(*self, census, ProtocolVersion(1));
            crate::version::lemma_implemented_is_v1(self.protocol_version);
        }
        match self.protocol_version.implemented() {
            Ok(_) => {},
            Err(refusal) => {
                return Err(refusal);
            },
        }
        let expected = self.epoch.saturating_add(1);
        if census.epoch != expected || expected == self.epoch {
            return Err(CollateralError::NonSequentialEpoch { expected, found: census.epoch });
        }
        let governing = match version_for_epoch(census.epoch) {
            Ok(version) => version,
            Err(refusal) => {
                return Err(refusal);
            },
        };
        let version = match governing.implemented() {
            Ok(version) => version,
            Err(refusal) => {
                return Err(refusal);
            },
        };
        let signals = signals_for(
            &census,
            self.census.stores,
            self.required_per_store_dig_base_units,
        );
        let multiplier_micros = step_multiplier(self.multiplier_micros, signals.saturation_micros);
        Ok(
            EpochRecord {
                epoch: census.epoch,
                protocol_version: version,
                census,
                signals: Some(signals),
                band: Some(Band::of_saturation(signals.saturation_micros)),
                multiplier_micros,
                handicap_dig_base_units: handicap_for_owners(census.owners),
                base_price_dig_base_units: base_per_store(multiplier_micros),
                required_per_store_dig_base_units: required_per_store(
                    multiplier_micros,
                    census.owners,
                ),
            },
        )
    }
}

} // verus!
