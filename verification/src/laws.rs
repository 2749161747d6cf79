//! What holds of the registry however it is used, stated over the model
//! and proved.

use vstd::prelude::*;

use crate::error::CoordError;
use crate::model::{
    after_set_enabled, after_switch, bootstrap_of, dispatch_refusal, dispatch_targets,
    enabled_count, initial_units, is_dispatch_target, lemma_after_set_enabled, lemma_after_switch,
    lemma_dispatch_targets, lemma_enabled_count_update, lemma_initial_units,
    set_enabled_refusal, sole_bootstrap, switch_refusal, well_formed, with_enabled,
};
use crate::unit::ProcessingUnit;

verus! {

/// A call that can change the registry, with its arguments.
pub enum Operation {
    /// A request to enable or disable a unit, with or without a health
    /// flag.
    SetEnabled { id: usize, enabled: bool, health: Option<bool> },
    /// A request to move the bootstrap role.
    SwitchBootstrap { target: usize, enable_old_as_ap: bool },
}

/// The units after one operation, granted or refused.
pub open spec fn apply(units: Seq<ProcessingUnit>, operation: Operation) -> Seq<ProcessingUnit> {
    match operation {
        Operation::SetEnabled { id, enabled, health } => after_set_enabled(
            units,
            id as int,
            enabled,
            health,
        ),
        Operation::SwitchBootstrap { target, enable_old_as_ap } => after_switch(units, target as int),
    }
}

/// The units after a history of operations, the first of them applied
/// first.
pub open spec fn replay(units: Seq<ProcessingUnit>, history: Seq<Operation>) -> Seq<ProcessingUnit>
    decreases history.len(),
{
    if history.len() == 0 {
        units
    } else {
        apply(replay(units, history.drop_last()), history.last())
    }
}

/// Every state a registry can reach is valid. A registry starts valid,
/// fresh or as discovery found it; after any history of operations the
/// ids still count up from zero, one unit holds the bootstrap role, and
/// that unit is enabled. The number of units never changes.
pub proof fn law_reachable_states_are_valid(start: Seq<ProcessingUnit>, history: Seq<Operation>)
    requires
        well_formed(start),
    ensures
        well_formed(replay(start, history)),
        replay(start, history).len() == start.len(),
    decreases history.len(),
{
    if history.len() > 0 {
        law_reachable_states_are_valid(start, history.drop_last());
        let before = replay(start, history.drop_last());
        match history.last() {
            Operation::SetEnabled { id, enabled, health } => {
                lemma_after_set_enabled(before, id as int, enabled, health);
            },
            Operation::SwitchBootstrap { target, enable_old_as_ap } => {
                lemma_after_switch(before, target as int);
            },
        }
    }
}

/// A fresh registry of at least one unit is valid, so that everything it
/// can reach is valid too.
pub proof fn law_fresh_registry_stays_valid(total: nat, history: Seq<Operation>)
    requires
        0 < total <= usize::MAX,
    ensures
        well_formed(initial_units(total)),
        well_formed(replay(initial_units(total), history)),
{
    lemma_initial_units(total);
    law_reachable_states_are_valid(initial_units(total), history);
}

/// In every reachable state exactly one unit has the bootstrap flag set:
/// there is such a unit, and any unit with the flag is that unit.
pub proof fn law_exactly_one_bootstrap(start: Seq<ProcessingUnit>, history: Seq<Operation>)
    requires
        well_formed(start),
    ensures
        exists|b: int| #[trigger] sole_bootstrap(replay(start, history), b),
        sole_bootstrap(replay(start, history), bootstrap_of(replay(start, history))),
{
    law_reachable_states_are_valid(start, history);
}

/// In every reachable state the unit that holds the bootstrap role is
/// enabled.
pub proof fn law_bootstrap_is_enabled(start: Seq<ProcessingUnit>, history: Seq<Operation>)
    requires
        well_formed(start),
    ensures
        forall|i: int|
            0 <= i < start.len() && (#[trigger] replay(start, history)[i]).is_bootstrap ==> replay(
                start,
                history,
            )[i].is_enabled,
{
    law_reachable_states_are_valid(start, history);
}

/// In a valid state `bootstrap_of` names the unit that holds the bootstrap
/// role: it has the flag, no other unit has, and it is enabled.
pub proof fn law_bootstrap_of_names_the_holder(units: Seq<ProcessingUnit>)
    requires
        well_formed(units),
    ensures
        sole_bootstrap(units, bootstrap_of(units)),
        units[bootstrap_of(units)].is_enabled,
{
}

/// Disabling the unit that holds the bootstrap role is refused with
/// `IllegalBootstrapDisable`, whatever health flag comes with the request,
/// and changes nothing.
pub proof fn law_bootstrap_disable_is_refused(units: Seq<ProcessingUnit>, health: Option<bool>)
    requires
        well_formed(units),
    ensures
        set_enabled_refusal(units, bootstrap_of(units), false) == Some(
            CoordError::IllegalBootstrapDisable,
        ),
        after_set_enabled(units, bootstrap_of(units), false, health) == units,
{
}

/// After the bootstrap role was moved to `target`, `target` is the
/// bootstrap unit and the unit that held the role before no longer has the
/// flag.
pub proof fn law_switch_moves_the_role(units: Seq<ProcessingUnit>, target: int)
    requires
        well_formed(units),
        switch_refusal(units, target) is None,
    ensures
        bootstrap_of(after_switch(units, target)) == target,
        sole_bootstrap(after_switch(units, target), target),
        !after_switch(units, target)[bootstrap_of(units)].is_bootstrap,
{
    lemma_after_switch(units, target);
}

/// Moving the bootstrap role changes that flag and nothing else: every
/// unit keeps its id, stays enabled or disabled as it was, and keeps its
/// health flag.
pub proof fn law_switch_changes_only_the_role(units: Seq<ProcessingUnit>, target: int)
    requires
        well_formed(units),
    ensures
        after_switch(units, target).len() == units.len(),
        enabled_count(after_switch(units, target)) == enabled_count(units),
        forall|i: int|
            0 <= i < units.len() ==> {
                &&& (#[trigger] after_switch(units, target)[i]).id == units[i].id
                &&& after_switch(units, target)[i].is_enabled == units[i].is_enabled
                &&& after_switch(units, target)[i].is_healthy == units[i].is_healthy
            },
{
    if switch_refusal(units, target) is None {
        let from = bootstrap_of(units);
        let cleared = units.update(from, ProcessingUnit { is_bootstrap: false, ..units[from] });
        lemma_enabled_count_update(units, from, cleared[from]);
        lemma_enabled_count_update(
            cleared,
            target,
            ProcessingUnit { is_bootstrap: true, ..cleared[target] },
        );
    }
}

/// A request to enable or disable unit `id` changes at most that unit,
/// and of that unit at most the enabled flag and the health flag. Without
/// a health flag in the request the health flag stays, also on a unit that
/// is being disabled.
pub proof fn law_set_enabled_touches_one_unit(
    units: Seq<ProcessingUnit>,
    id: int,
    enabled: bool,
    health: Option<bool>,
)
    ensures
        after_set_enabled(units, id, enabled, health).len() == units.len(),
        forall|i: int|
            0 <= i < units.len() && i != id ==> #[trigger] after_set_enabled(
                units,
                id,
                enabled,
                health,
            )[i] == units[i],
        0 <= id < units.len() ==> {
            &&& after_set_enabled(units, id, enabled, health)[id].id == units[id].id
            &&& after_set_enabled(units, id, enabled, health)[id].is_bootstrap
                == units[id].is_bootstrap
            &&& health is None ==> after_set_enabled(units, id, enabled, health)[id].is_healthy
                == units[id].is_healthy
        },
{
}

/// A granted request to enable or disable a unit changes the number of
/// enabled units by one where the unit's enabled flag changes, and not at
/// all where it stays.
pub proof fn law_enabled_count_follows_the_flag(
    units: Seq<ProcessingUnit>,
    id: int,
    enabled: bool,
    health: Option<bool>,
)
    requires
        set_enabled_refusal(units, id, enabled) is None,
    ensures
        units[id].is_enabled == enabled ==> enabled_count(
            after_set_enabled(units, id, enabled, health),
        ) == enabled_count(units),
        units[id].is_enabled && !enabled ==> enabled_count(
            after_set_enabled(units, id, enabled, health),
        ) == enabled_count(units) - 1,
        !units[id].is_enabled && enabled ==> enabled_count(
            after_set_enabled(units, id, enabled, health),
        ) == enabled_count(units) + 1,
{
    lemma_enabled_count_update(units, id, with_enabled(units, id, enabled, health)[id]);
}

/// Nothing is dispatched to a disabled unit: the request is refused with
/// `UnitNotEligible`, and the unit is not among those a broadcast runs on.
pub proof fn law_disabled_unit_is_not_eligible(units: Seq<ProcessingUnit>, id: int)
    requires
        0 <= id < units.len(),
        !units[id].is_enabled,
    ensures
        dispatch_refusal(units, id) == Some(CoordError::UnitNotEligible),
        !is_dispatch_target(units, id),
{
}

/// A broadcast runs on every enabled unit but the bootstrap unit, which
/// is one unit fewer than are enabled; disabled units and the bootstrap
/// unit are not among them.
pub proof fn law_broadcast_reaches_all_enabled_units_but_one(units: Seq<ProcessingUnit>)
    requires
        well_formed(units),
        units.len() <= usize::MAX,
    ensures
        dispatch_targets(units).finite(),
        dispatch_targets(units).len() == enabled_count(units) - 1,
        !dispatch_targets(units).contains(bootstrap_of(units) as usize),
        forall|id: usize|
            id < units.len() && !units[id as int].is_enabled ==> !(#[trigger] dispatch_targets(
                units,
            ).contains(id)),
{
    lemma_dispatch_targets(units);
}

/// Enabling a unit that is enabled already, without a health flag, is
/// granted and changes nothing.
pub proof fn law_enabling_an_enabled_unit_changes_nothing(units: Seq<ProcessingUnit>, id: int)
    requires
        0 <= id < units.len(),
        units[id].is_enabled,
    ensures
        set_enabled_refusal(units, id, true) is None,
        after_set_enabled(units, id, true, None) == units,
{
}

} // verus!
