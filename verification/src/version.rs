//! Protocol versioning: which ruleset governs which epoch, and what to do about one that is not
//! implemented here.
//!
//! Activation is by the epoch being computed and by nothing else; every historical ruleset stays
//! implemented forever; and an unknown version fails closed rather than falling back.
use vstd::prelude::*;

use crate::error::CollateralError;

verus! {

/// The identifier of a collateral ruleset: a transparent newtype over `u16`, so that an unknown
/// version is representable and can be named in a refusal.
#[derive(Debug, Clone, Copy, PartialEq, Eq, PartialOrd, Ord, Hash, Structural)]
pub struct ProtocolVersion(pub u16);

/// One row of the activation schedule: a ruleset, and the first epoch it governs.
#[derive(Debug, Clone, Copy, PartialEq, Eq, Structural)]
pub struct Activation {
    /// The ruleset that takes effect.
    pub version: ProtocolVersion,
    /// The **first epoch computed under** `version`: the new rules apply *at* this epoch, not from
    /// the epoch after it.
    pub first_epoch: u64,
}

/// Every ruleset this build implements, ascending. This list only ever grows.
pub open spec fn implemented_versions_spec() -> Seq<ProtocolVersion> {
    seq![ProtocolVersion(1)]
}

/// The activation schedule this build carries: version 1 from epoch 1.
pub open spec fn activation_schedule_spec() -> Seq<Activation> {
    seq![Activation { version: ProtocolVersion(1), first_epoch: 1 }]
}

/// Row `i` of `schedule` ascends strictly over row `i - 1`, in both activation epoch and version.
pub open spec fn ascends_at(schedule: Seq<Activation>, i: int) -> bool {
    &&& schedule[i - 1].first_epoch < schedule[i].first_epoch
    &&& schedule[i - 1].version.0 < schedule[i].version.0
}

/// Every row ascends strictly over the row before it.
pub open spec fn strictly_ascending(schedule: Seq<Activation>) -> bool {
    forall|i: int| 0 < i < schedule.len() ==> #[trigger] ascends_at(schedule, i)
}

/// The version of the last row of `schedule` whose activation epoch is at most `epoch`.
pub open spec fn governing_spec(schedule: Seq<Activation>, epoch: u64) -> Option<ProtocolVersion>
    decreases schedule.len(),
{
    if schedule.len() == 0 {
        None
    } else if schedule.last().first_epoch <= epoch {
        Some(schedule.last().version)
    } else {
        governing_spec(schedule.drop_last(), epoch)
    }
}

/// The result of selecting the ruleset for `epoch` from `schedule`.
pub open spec fn version_for_epoch_spec(schedule: Seq<Activation>, epoch: u64) -> Result<
    ProtocolVersion,
    CollateralError,
> {
    match governing_spec(schedule, epoch) {
        Some(version) => Ok(version),
        None => Err(CollateralError::EpochNotGoverned { epoch }),
    }
}

/// The selection reads the last activated row of any schedule, ordered or not: if row `i` has
/// activated by `epoch` and no later row has, row `i`'s version governs; and if no row has
/// activated, nothing governs.
pub proof fn lemma_last_activated_row_governs(schedule: Seq<Activation>, i: int, epoch: u64)
    requires
        0 <= i < schedule.len(),
        schedule[i].first_epoch <= epoch,
        forall|j: int| i < j < schedule.len() ==> #[trigger] schedule[j].first_epoch > epoch,
    ensures
        governing_spec(schedule, epoch) == Some(schedule[i].version),
    decreases schedule.len(),
{
    if i < schedule.len() - 1 {
        let shorter = schedule.drop_last();
        assert(schedule[schedule.len() - 1].first_epoch > epoch);
        assert forall|j: int| i < j < shorter.len() implies #[trigger] shorter[j].first_epoch
            > epoch by {
            assert(schedule[j].first_epoch > epoch);
        }
        lemma_last_activated_row_governs(shorter, i, epoch);
    }
}

/// When no row of a schedule has activated by `epoch`, no ruleset governs it.
pub proof fn lemma_no_activated_row_governs_nothing(schedule: Seq<Activation>, epoch: u64)
    requires
        forall|j: int| 0 <= j < schedule.len() ==> #[trigger] schedule[j].first_epoch > epoch,
    ensures
        governing_spec(schedule, epoch) == None::<ProtocolVersion>,
    decreases schedule.len(),
{
    if schedule.len() > 0 {
        let shorter = schedule.drop_last();
        assert(schedule[schedule.len() - 1].first_epoch > epoch);
        assert forall|j: int| 0 <= j < shorter.len() implies #[trigger] shorter[j].first_epoch
            > epoch by {
            assert(schedule[j].first_epoch > epoch);
        }
        lemma_no_activated_row_governs_nothing(shorter, epoch);
    }
}

/// A schedule whose every earlier row is strictly below every later one, in both activation
/// epoch and version, is strictly ascending (the converse is
/// [`lemma_ascending_rows_are_ordered`]).
pub proof fn lemma_ordered_rows_ascend(schedule: Seq<Activation>)
    requires
        forall|i: int, j: int|
            0 <= i < j < schedule.len() ==> #[trigger] schedule[i].first_epoch
                < #[trigger] schedule[j].first_epoch && schedule[i].version.0
                < schedule[j].version.0,
    ensures
        strictly_ascending(schedule),
{
    assert forall|k: int| 0 < k < schedule.len() implies #[trigger] ascends_at(schedule, k) by {
        assert(schedule[k - 1].first_epoch < schedule[k].first_epoch);
    }
}

/// In a strictly ascending schedule every earlier row is strictly below every later one, in both
/// activation epoch and version.
pub proof fn lemma_ascending_rows_are_ordered(schedule: Seq<Activation>, i: int, j: int)
    requires
        strictly_ascending(schedule),
        0 <= i < j < schedule.len(),
    ensures
        schedule[i].first_epoch < schedule[j].first_epoch,
        schedule[i].version.0 < schedule[j].version.0,
    decreases j - i,
{
    assert(ascends_at(schedule, j));
    if i < j - 1 {
        lemma_ascending_rows_are_ordered(schedule, i, j - 1);
    }
}

/// A row governs its own activation epoch and every epoch up to, but not including, the next
/// row's activation: the new rules apply *at* the activation epoch, never from the epoch after.
pub proof fn lemma_row_governs_from_its_activation(schedule: Seq<Activation>, i: int, epoch: u64)
    requires
        strictly_ascending(schedule),
        0 <= i < schedule.len(),
        schedule[i].first_epoch <= epoch,
        i + 1 < schedule.len() ==> epoch < schedule[i + 1].first_epoch,
    ensures
        governing_spec(schedule, epoch) == Some(schedule[i].version),
    decreases schedule.len(),
{
    if i + 1 < schedule.len() {
        if i + 1 < schedule.len() - 1 {
            lemma_ascending_rows_are_ordered(schedule, i + 1, schedule.len() - 1);
        }
        assert(schedule.last().first_epoch > epoch);
        let shorter = schedule.drop_last();
        assert forall|k: int| 0 < k < shorter.len() implies #[trigger] ascends_at(shorter, k) by {
            assert(ascends_at(schedule, k));
        }
        lemma_row_governs_from_its_activation(shorter, i, epoch);
    }
}

/// An epoch before the first activation is governed by nothing, and neither is any epoch of an
/// empty schedule: the selection never picks a default.
pub proof fn lemma_nothing_governs_before_the_first_row(schedule: Seq<Activation>, epoch: u64)
    requires
        strictly_ascending(schedule),
        schedule.len() == 0 || epoch < schedule[0].first_epoch,
    ensures
        governing_spec(schedule, epoch) == None::<ProtocolVersion>,
    decreases schedule.len(),
{
    if schedule.len() > 0 {
        if schedule.len() > 1 {
            lemma_ascending_rows_are_ordered(schedule, 0, schedule.len() - 1);
        }
        let shorter = schedule.drop_last();
        assert forall|k: int| 0 < k < shorter.len() implies #[trigger] ascends_at(shorter, k) by {
            assert(ascends_at(schedule, k));
        }
        lemma_nothing_governs_before_the_first_row(shorter, epoch);
    }
}

/// Appending a later activation never changes the ruleset of an epoch before it: historical
/// epochs keep their own rules forever, however many rulesets follow.
pub proof fn lemma_later_activation_keeps_history(
    schedule: Seq<Activation>,
    row: Activation,
    epoch: u64,
)
    requires
        epoch < row.first_epoch,
    ensures
        governing_spec(schedule.push(row), epoch) == governing_spec(schedule, epoch),
{
    assert(schedule.push(row).drop_last() =~= schedule);
}

/// The schedule this build ships is well formed: it ascends strictly, its first row governs
/// epoch 1, and it names only versions this build implements.
pub proof fn lemma_shipped_schedule_is_well_formed()
    ensures
        strictly_ascending(activation_schedule_spec()),
        activation_schedule_spec().len() > 0,
        activation_schedule_spec()[0].first_epoch == 1,
        forall|i: int|
            0 <= i < activation_schedule_spec().len() ==> implemented_versions_spec().contains(
                #[trigger] activation_schedule_spec()[i].version,
            ),
{
    assert(implemented_versions_spec()[0] == ProtocolVersion(1));
}

/// This build implements version 1 and nothing else.
pub proof fn lemma_implemented_is_v1(version: ProtocolVersion)
    ensures
        implemented_versions_spec().contains(version) <==> version == ProtocolVersion(1),
{
    if version == ProtocolVersion(1) {
        assert(implemented_versions_spec()[0] == version);
    }
}

impl ProtocolVersion {
    /// Version 1: the ruleset of this crate, governing epoch 1 onward.
    pub fn v1() -> (version: Self)
        ensures
            version == ProtocolVersion(1),
    {
        ProtocolVersion(1)
    }

    /// Every ruleset this build implements, ascending.
    pub fn implemented_versions() -> (versions: Vec<ProtocolVersion>)
        ensures
            versions@ == implemented_versions_spec(),
    {
        let mut versions: Vec<ProtocolVersion> = Vec::new();
        versions.push(ProtocolVersion(1));
        versions
    }

    /// Whether this build carries the rules for this version.
    pub fn is_implemented(self) -> (implemented: bool)
        ensures
            implemented == implemented_versions_spec().contains(self),
            implemented == (self.0 == 1),
    {
        proof {
            lemma_implemented_is_v1(self);
        }
        let versions = Self::implemented_versions();
        let mut i: usize = 0;
        while i < versions.len()
            invariant
                versions@ == implemented_versions_spec(),
                0 <= i <= versions.len(),
                forall|j: int| 0 <= j < i ==> versions@[j] != self,
            decreases versions.len() - i,
        {
            if versions[i].0 == self.0 {
                return true;
            }
            i = i + 1;
        }
        false
    }

    /// This version, if this build implements it; otherwise the fail-closed refusal naming it.
    pub fn implemented(self) -> (result: Result<Self, CollateralError>)
        ensures
            implemented_versions_spec().contains(self) ==> result == Ok::<
                ProtocolVersion,
                CollateralError,
            >(self),
            !implemented_versions_spec().contains(self) ==> result == Err::<
                ProtocolVersion,
                CollateralError,
            >(CollateralError::UnknownProtocolVersion { version: self.0 }),
            self.0 == 1 ==> result == Ok::<ProtocolVersion, CollateralError>(self),
            self.0 != 1 ==> result == Err::<ProtocolVersion, CollateralError>(
                CollateralError::UnknownProtocolVersion { version: self.0 },
            ),
    {
        if self.is_implemented() {
            Ok(self)
        } else {
            Err(CollateralError::UnknownProtocolVersion { version: self.0 })
        }
    }
}

/// The activation schedule this build carries, ordered by activation epoch.
pub fn activation_schedule() -> (schedule: Vec<Activation>)
    ensures
        schedule@ == activation_schedule_spec(),
{
    let mut schedule: Vec<Activation> = Vec::new();
    schedule.push(Activation { version: ProtocolVersion(1), first_epoch: 1 });
    schedule
}

/// Whether `schedule` ascends strictly in both activation epoch and version, which is the
/// precondition the reverse scan of [`version_for_epoch_in`] relies on to be meaningful.
pub fn schedule_is_strictly_ascending(schedule: &[Activation]) -> (ascending: bool)
    ensures
        ascending == strictly_ascending(schedule@),
{
    let mut i: usize = 1;
    while i < schedule.len()
        invariant
            1 <= i,
            i <= schedule.len() || schedule.len() == 0,
            forall|j: int| 0 < j < i && j < schedule.len() ==> #[trigger] ascends_at(schedule@, j),
        decreases schedule.len() - i,
    {
        let previous = schedule[i - 1];
        let current = schedule[i];
        if previous.first_epoch >= current.first_epoch || previous.version.0 >= current.version.0 {
            assert(!ascends_at(schedule@, i as int));
            return false;
        }
        assert(ascends_at(schedule@, i as int));
        i = i + 1;
    }
    true
}

/// The ruleset that governs `epoch` under an explicit schedule: the version of the last row
/// that has already activated (`first_epoch <= epoch`), or a refusal when no row has.
pub fn version_for_epoch_in(schedule: &[Activation], epoch: u64) -> (result: Result<
    ProtocolVersion,
    CollateralError,
>)
    ensures
        result == version_for_epoch_spec(schedule@, epoch),
{
    let mut i: usize = schedule.len();
    assert(schedule@.subrange(0, i as int) =~= schedule@);
    while i > 0
        invariant
            i <= schedule.len(),
            governing_spec(schedule@, epoch) == governing_spec(
                schedule@.subrange(0, i as int),
                epoch,
            ),
        decreases i,
    {
        let row = schedule[i - 1];
        if row.first_epoch <= epoch {
            return Ok(row.version);
        }
        assert(schedule@.subrange(0, i as int).drop_last() =~= schedule@.subrange(
            0,
            i - 1,
        ));
        i = i - 1;
    }
    Err(CollateralError::EpochNotGoverned { epoch })
}

/// The ruleset that governs `epoch`, under the schedule this build carries: version 1 for every
/// real (one-based) epoch, and a refusal for epoch 0.
pub fn version_for_epoch(epoch: u64) -> (result: Result<ProtocolVersion, CollateralError>)
    ensures
        result == version_for_epoch_spec(activation_schedule_spec(), epoch),
        epoch >= 1 ==> result == Ok::<ProtocolVersion, CollateralError>(ProtocolVersion(1)),
        epoch == 0 ==> result == Err::<ProtocolVersion, CollateralError>(
            CollateralError::EpochNotGoverned { epoch: 0 },
        ),
{
    let schedule = activation_schedule();
    proof {
        reveal_with_fuel(governing_spec, 2);
    }
    version_for_epoch_in(schedule.as_slice(), epoch)
}

} // verus!
