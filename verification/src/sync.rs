//! How many peers to sample when adopting an epoch history, and when not to trust the answer.
//!
//! None of this is consensus: the sampled value is recomputable from the chain, and a node that
//! disagrees with its sample must prefer its own computation.
use vstd::prelude::*;

use crate::constants::{SYNC_ASSUMED_DISHONEST_DENOM, SYNC_MAX_SAMPLE, SYNC_MIN_POPULATION};

verus! {

/// A sampling plan for one epoch, against a chain-derived population.
#[derive(Debug, Clone, Copy, PartialEq, Eq, Structural)]
pub struct SyncSamplePlan {
    /// The population the sample is drawn from: the count of distinct collateralised owner
    /// hashes at the census height.
    pub population: u64,
    /// How many distinct owners to sample.
    pub sample_size: u64,
    /// How many must agree before the sampled history may be adopted.
    pub agreement_threshold: u64,
    /// The most dishonest owners the confidence claim assumes the population can contain.
    pub max_assumed_dishonest: u64,
    /// When true the sample informs but never decides: the node derives from chain regardless.
    pub advisory_only: bool,
}

/// The sample size: the whole population below [`SYNC_MIN_POPULATION`], else at most
/// [`SYNC_MAX_SAMPLE`].
pub open spec fn sample_size_spec(population: u64) -> int {
    if population < SYNC_MIN_POPULATION {
        population as int
    } else if population < SYNC_MAX_SAMPLE {
        population as int
    } else {
        SYNC_MAX_SAMPLE as int
    }
}

/// The strict two-thirds supermajority of `k`: `floor(2k / 3) + 1`.
pub open spec fn threshold_spec(sample_size: int) -> int {
    (2 * sample_size) / 3 + 1
}

/// Below [`SYNC_MIN_POPULATION`] the whole population is sampled; from there on the sample is
/// exactly [`SYNC_MAX_SAMPLE`] however large the population grows; and the threshold is always
/// the least count strictly above two thirds of the sample.
pub proof fn lemma_sample_covers_small_populations(population: u64)
    ensures
        population < 20 ==> sample_size_spec(population) == population,
        population >= 20 ==> sample_size_spec(population) == 9,
        3 * threshold_spec(sample_size_spec(population)) > 2 * sample_size_spec(population),
        3 * (threshold_spec(sample_size_spec(population)) - 1) <= 2 * sample_size_spec(
            population,
        ),
{
}

/// How many of a `sample_size` sample must agree: `floor(2k / 3) + 1`, which is strictly more
/// than two thirds and never zero. Only ever called with a plan's sample size, which is at most
/// [`SYNC_MIN_POPULATION`].
fn agreement_threshold(sample_size: u64) -> (threshold: u64)
    requires
        sample_size <= SYNC_MIN_POPULATION,
    ensures
        threshold == threshold_spec(sample_size as int),
{
    (2 * sample_size) / 3 + 1
}

/// The sampling plan for a chain-derived population of `population` collateralised owners.
///
/// The sample size plateaus at [`SYNC_MAX_SAMPLE`]. Below [`SYNC_MIN_POPULATION`] the whole
/// population is sampled and the plan is advisory only, because there it is the honesty
/// assumption (at most a fifth dishonest) that fails rather than the statistics.
pub fn sync_sample_plan(population: u64) -> (plan: SyncSamplePlan)
    ensures
        plan.population == population,
        plan.advisory_only == (population < SYNC_MIN_POPULATION),
        plan.sample_size == sample_size_spec(population),
        plan.agreement_threshold == threshold_spec(plan.sample_size as int),
        plan.max_assumed_dishonest == population / SYNC_ASSUMED_DISHONEST_DENOM,
        !plan.advisory_only ==> plan.sample_size == SYNC_MAX_SAMPLE,
        population < SYNC_MIN_POPULATION ==> plan.sample_size == population,
        population < SYNC_MIN_POPULATION ==> plan.agreement_threshold == 2 * population / 3 + 1,
        plan.agreement_threshold >= 1,
        3 * plan.agreement_threshold > 2 * plan.sample_size,
        3 * (plan.agreement_threshold - 1) <= 2 * plan.sample_size,
{
    let advisory_only = population < SYNC_MIN_POPULATION;
    let sample_size: u64 = if advisory_only {
        population
    } else if population < SYNC_MAX_SAMPLE {
        population
    } else {
        SYNC_MAX_SAMPLE
    };
    SyncSamplePlan {
        population,
        sample_size,
        agreement_threshold: agreement_threshold(sample_size),
        max_assumed_dishonest: population / SYNC_ASSUMED_DISHONEST_DENOM,
        advisory_only,
    }
}

} // verus!
