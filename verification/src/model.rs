//! The mathematical model of the registry: a sequence of unit records, the
//! predicates that make such a sequence valid, and for each operation the
//! inputs it refuses and what it does to the sequence.

use vstd::prelude::*;

use crate::error::CoordError;
use crate::unit::ProcessingUnit;

verus! {

/// Unit `i` carries id `i`.
pub open spec fn ids_dense(units: Seq<ProcessingUnit>) -> bool {
    forall|i: int| 0 <= i < units.len() ==> (#[trigger] units[i]).id == i
}

/// Unit `b` exists and is the only one with the bootstrap flag set.
pub open spec fn sole_bootstrap(units: Seq<ProcessingUnit>, b: int) -> bool {
    &&& 0 <= b < units.len()
    &&& units[b].is_bootstrap
    &&& forall|j: int| 0 <= j < units.len() && (#[trigger] units[j]).is_bootstrap ==> j == b
}

/// What holds of the units of every registry: ids count up from zero,
/// exactly one unit holds the bootstrap role, and that unit is enabled.
pub open spec fn well_formed(units: Seq<ProcessingUnit>) -> bool {
    &&& ids_dense(units)
    &&& exists|b: int| sole_bootstrap(units, b) && units[b].is_enabled
}

/// The id of the unit that holds the bootstrap role.
pub open spec fn bootstrap_of(units: Seq<ProcessingUnit>) -> int {
    choose|b: int| sole_bootstrap(units, b)
}

/// The units of a fresh registry: all enabled and healthy, the first one
/// holding the bootstrap role.
pub open spec fn initial_units(total: nat) -> Seq<ProcessingUnit> {
    Seq::new(total, |i: int| ProcessingUnit::fresh(i as usize))
}

/// How many units are enabled.
pub open spec fn enabled_count(units: Seq<ProcessingUnit>) -> nat {
    units.filter(|u: ProcessingUnit| u.is_enabled).len()
}

/// The result of an operation that returns nothing: the refusal, if there
/// is one.
pub open spec fn verdict(refusal: Option<CoordError>) -> Result<(), CoordError> {
    match refusal {
        Some(error) => Err(error),
        None => Ok(()),
    }
}

/// Why unit `id` cannot be given the enabled flag `enabled`, if it cannot:
/// there is no such unit, or it holds the bootstrap role and would be
/// disabled. The id is looked at first.
pub open spec fn set_enabled_refusal(units: Seq<ProcessingUnit>, id: int, enabled: bool) -> Option<
    CoordError,
> {
    if !(0 <= id < units.len()) {
        Some(CoordError::InvalidId)
    } else if units[id].is_bootstrap && !enabled {
        Some(CoordError::IllegalBootstrapDisable)
    } else {
        None
    }
}

/// The units after unit `id` got a new enabled flag and, where one is
/// given, a new health flag.
pub open spec fn with_enabled(
    units: Seq<ProcessingUnit>,
    id: int,
    enabled: bool,
    health: Option<bool>,
) -> Seq<ProcessingUnit>
    recommends
        0 <= id < units.len(),
{
    units.update(
        id,
        ProcessingUnit {
            is_enabled: enabled,
            is_healthy: match health {
                Some(h) => h,
                None => units[id].is_healthy,
            },
            ..units[id]
        },
    )
}

/// The units after a request to enable or disable unit `id`: changed as
/// [`with_enabled`] says, or as they were where the request is refused.
pub open spec fn after_set_enabled(
    units: Seq<ProcessingUnit>,
    id: int,
    enabled: bool,
    health: Option<bool>,
) -> Seq<ProcessingUnit> {
    if set_enabled_refusal(units, id, enabled) is None {
        with_enabled(units, id, enabled, health)
    } else {
        units
    }
}

/// Why the bootstrap role cannot go to unit `target`, if it cannot: there
/// is no such unit or it is disabled, or it holds the role already.
pub open spec fn switch_refusal(units: Seq<ProcessingUnit>, target: int) -> Option<CoordError> {
    if !(0 <= target < units.len()) || !units[target].is_enabled {
        Some(CoordError::InvalidId)
    } else if units[target].is_bootstrap {
        Some(CoordError::AlreadyBootstrap)
    } else {
        None
    }
}

/// The units after the bootstrap role went from unit `from` to unit `to`.
pub open spec fn with_bootstrap_moved(units: Seq<ProcessingUnit>, from: int, to: int) -> Seq<
    ProcessingUnit,
>
    recommends
        0 <= from < units.len(),
        0 <= to < units.len(),
{
    units.update(from, ProcessingUnit { is_bootstrap: false, ..units[from] }).update(
        to,
        ProcessingUnit { is_bootstrap: true, ..units[to] },
    )
}

/// The units after a request to make `target` the bootstrap unit: the role
/// moved from its holder to `target`, or everything as it was where the
/// request is refused.
pub open spec fn after_switch(units: Seq<ProcessingUnit>, target: int) -> Seq<ProcessingUnit> {
    if switch_refusal(units, target) is None {
        with_bootstrap_moved(units, bootstrap_of(units), target)
    } else {
        units
    }
}

/// Why nothing can be dispatched to unit `id`, if nothing can: there is no
/// such unit, or it is disabled or holds the bootstrap role. The id is
/// looked at first.
pub open spec fn dispatch_refusal(units: Seq<ProcessingUnit>, id: int) -> Option<CoordError> {
    if !(0 <= id < units.len()) {
        Some(CoordError::InvalidId)
    } else if !units[id].can_take_work() {
        Some(CoordError::UnitNotEligible)
    } else {
        None
    }
}

/// Work may be dispatched to unit `id`: it exists, is enabled and does not
/// hold the bootstrap role.
pub open spec fn is_dispatch_target(units: Seq<ProcessingUnit>, id: int) -> bool {
    dispatch_refusal(units, id) is None
}

/// The ids of the units that work may be dispatched to.
pub open spec fn dispatch_targets(units: Seq<ProcessingUnit>) -> Set<usize> {
    Set::new(|id: usize| is_dispatch_target(units, id as int))
}

/// A filter that every element passes keeps the sequence.
proof fn lemma_all_pass_filter<A>(s: Seq<A>, p: spec_fn(A) -> bool)
    requires
        forall|i: int| 0 <= i < s.len() ==> p(#[trigger] s[i]),
    ensures
        s.filter(p) == s,
    decreases s.len(),
{
    reveal(Seq::filter);
    if s.len() > 0 {
        lemma_all_pass_filter(s.drop_last(), p);
    }
}

/// Replacing one record changes the count of enabled units by what that
/// record's enabled flag changes.
pub proof fn lemma_enabled_count_update(units: Seq<ProcessingUnit>, id: int, record: ProcessingUnit)
    requires
        0 <= id < units.len(),
    ensures
        enabled_count(units.update(id, record)) + (if units[id].is_enabled {
            1int
        } else {
            0int
        }) == enabled_count(units) + (if record.is_enabled {
            1int
        } else {
            0int
        }),
    decreases units.len(),
{
    let p = |u: ProcessingUnit| u.is_enabled;
    let after = units.update(id, record);
    reveal(Seq::filter);
    if id == units.len() - 1 {
        assert(after.drop_last() =~= units.drop_last());
    } else {
        assert(after.drop_last() =~= units.drop_last().update(id, record));
        lemma_enabled_count_update(units.drop_last(), id, record);
    }
}

/// The ids of the enabled units among the first `n`.
spec fn enabled_ids(units: Seq<ProcessingUnit>, n: int) -> Set<usize> {
    Set::new(|id: usize| id < n && id < units.len() && units[id as int].is_enabled)
}

/// There are as many enabled ids as the count of enabled units says.
proof fn lemma_enabled_ids(units: Seq<ProcessingUnit>)
    requires
        units.len() <= usize::MAX,
    ensures
        enabled_ids(units, units.len() as int).finite(),
        enabled_ids(units, units.len() as int).len() == enabled_count(units),
    decreases units.len(),
{
    reveal(Seq::filter);
    let n = units.len() as int;
    if n == 0 {
        assert(enabled_ids(units, n) =~= Set::empty());
    } else {
        let rest = units.drop_last();
        lemma_enabled_ids(rest);
        let last = (n - 1) as usize;
        if units.last().is_enabled {
            assert(enabled_ids(units, n) =~= enabled_ids(rest, n - 1).insert(last));
        } else {
            assert(enabled_ids(units, n) =~= enabled_ids(rest, n - 1));
        }
    }
}

/// Work can be dispatched to every enabled unit but one, the bootstrap
/// unit.
pub proof fn lemma_dispatch_targets(units: Seq<ProcessingUnit>)
    requires
        well_formed(units),
        units.len() <= usize::MAX,
    ensures
        dispatch_targets(units).finite(),
        dispatch_targets(units).len() + 1 == enabled_count(units),
{
    lemma_enabled_ids(units);
    let all = enabled_ids(units, units.len() as int);
    let holder = bootstrap_of(units) as usize;
    assert(dispatch_targets(units) =~= all.remove(holder));
}

/// A fresh set of at least one unit is valid, with unit 0 as bootstrap and
/// every unit enabled.
pub proof fn lemma_initial_units(total: nat)
    requires
        0 < total <= usize::MAX,
    ensures
        well_formed(initial_units(total)),
        bootstrap_of(initial_units(total)) == 0,
        enabled_count(initial_units(total)) == total,
{
    let units = initial_units(total);
    assert(sole_bootstrap(units, 0));
    lemma_all_pass_filter(units, |u: ProcessingUnit| u.is_enabled);
}

/// A request to enable or disable a unit leaves the sequence valid and the
/// bootstrap role where it was, whether it is granted or refused.
pub proof fn lemma_after_set_enabled(
    units: Seq<ProcessingUnit>,
    id: int,
    enabled: bool,
    health: Option<bool>,
)
    requires
        well_formed(units),
    ensures
        well_formed(after_set_enabled(units, id, enabled, health)),
        bootstrap_of(after_set_enabled(units, id, enabled, health)) == bootstrap_of(units),
{
    let b = bootstrap_of(units);
    let after = after_set_enabled(units, id, enabled, health);
    assert(sole_bootstrap(after, b));
}

/// A request to move the bootstrap role leaves the sequence valid. Where
/// it is granted, the target holds the role afterwards.
pub proof fn lemma_after_switch(units: Seq<ProcessingUnit>, target: int)
    requires
        well_formed(units),
    ensures
        well_formed(after_switch(units, target)),
        switch_refusal(units, target) is None ==> bootstrap_of(after_switch(units, target))
            == target,
{
    if switch_refusal(units, target) is None {
        let after = after_switch(units, target);
        assert(sole_bootstrap(after, target));
    }
}

} // verus!
