//! The bootstrap handicap: a subsidy that shrinks as the network gains verified owners.
use vstd::prelude::*;

use crate::constants::{HANDICAP_MAX_DIG_BASE_UNITS, HANDICAP_ZERO_AT_OWNERS};

verus! {

/// The subsidy at `owners` verified owners: linear from [`HANDICAP_MAX_DIG_BASE_UNITS`] at zero
/// owners down to zero at [`HANDICAP_ZERO_AT_OWNERS`], flat at zero beyond.
pub open spec fn handicap_spec(owners: u64) -> int {
    let counted: int = if owners < HANDICAP_ZERO_AT_OWNERS {
        owners as int
    } else {
        HANDICAP_ZERO_AT_OWNERS as int
    };
    HANDICAP_MAX_DIG_BASE_UNITS * (HANDICAP_ZERO_AT_OWNERS - counted) / (
    HANDICAP_ZERO_AT_OWNERS as int)
}

/// The subsidy falls by exactly four base units per verified owner until it is gone:
/// `handicap(o) == 4 * (1_000 - min(o, 1_000))`.
pub proof fn lemma_handicap_is_linear(owners: u64)
    ensures
        owners < HANDICAP_ZERO_AT_OWNERS ==> handicap_spec(owners) == 4 * (1_000 - owners),
        owners >= HANDICAP_ZERO_AT_OWNERS ==> handicap_spec(owners) == 0,
        0 <= handicap_spec(owners) <= HANDICAP_MAX_DIG_BASE_UNITS,
{
    let counted: int = if owners < 1_000 {
        owners as int
    } else {
        1_000
    };
    assert(4_000 * (1_000 - counted) / 1_000 == 4 * (1_000 - counted)) by (nonlinear_arith);
}

/// The subsidy never grows as owners are gained, so gaining an owner never makes the network
/// cheaper to join.
pub proof fn lemma_handicap_never_grows(fewer: u64, more: u64)
    requires
        fewer <= more,
    ensures
        handicap_spec(more) <= handicap_spec(fewer),
{
    lemma_handicap_is_linear(fewer);
    lemma_handicap_is_linear(more);
}

/// The per-store subsidy, in DIG base units, at a given count of verified owners.
///
/// The saturation above [`HANDICAP_ZERO_AT_OWNERS`] is a `min` on the owner count rather than a
/// subtraction corrected afterwards, so no arrangement of inputs turns the subsidy into a
/// surcharge.
pub fn handicap_for_owners(owners: u64) -> (handicap: u64)
    ensures
        handicap == handicap_spec(owners),
        owners < HANDICAP_ZERO_AT_OWNERS ==> handicap == 4 * (1_000 - owners),
        handicap <= HANDICAP_MAX_DIG_BASE_UNITS,
        owners >= HANDICAP_ZERO_AT_OWNERS ==> handicap == 0,
{
    proof {
        lemma_handicap_is_linear(owners);
    }
    let counted: u64 = if owners < HANDICAP_ZERO_AT_OWNERS {
        owners
    } else {
        HANDICAP_ZERO_AT_OWNERS
    };
    let remaining: u64 = HANDICAP_ZERO_AT_OWNERS - counted;
    assert(HANDICAP_MAX_DIG_BASE_UNITS * remaining <= 4_000_000) by (nonlinear_arith)
        requires
            remaining <= 1_000,
    ;
    HANDICAP_MAX_DIG_BASE_UNITS * remaining / HANDICAP_ZERO_AT_OWNERS
}

} // verus!
