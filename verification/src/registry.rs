//! The registry: the one place where the state of the units is kept.

use vstd::prelude::*;

use crate::error::CoordError;
use crate::model::{
    after_set_enabled, after_switch, bootstrap_of, enabled_count, ids_dense, initial_units,
    lemma_after_set_enabled, lemma_after_switch, lemma_initial_units,
    set_enabled_refusal, sole_bootstrap, switch_refusal, verdict, well_formed,
};
use crate::unit::{ExecutionContext, ProcessingUnit};

verus! {

/// The units of one session and their state.
///
/// The number of units is fixed when the registry is made. Its view is the
/// sequence of unit records in id order; that sequence is valid in the
/// sense of [`well_formed`] for every registry there is.
///
/// Every change needs the registry exclusively (`&mut self`) and is
/// complete when the call returns, so that whoever reads the registry sees
/// it before a change or after it, never in between.
pub struct ProcessorRegistry {
    units: Vec<ProcessingUnit>,
}

impl View for ProcessorRegistry {
    type V = Seq<ProcessingUnit>;

    closed spec fn view(&self) -> Seq<ProcessingUnit> {
        self.units@
    }
}

/// Writes new flags into one record.
fn store_flags(units: &mut Vec<ProcessingUnit>, id: usize, enabled: bool, health: Option<bool>)
    requires
        well_formed(old(units)@),
        set_enabled_refusal(old(units)@, id as int, enabled) is None,
    ensures
        final(units)@ == after_set_enabled(old(units)@, id as int, enabled, health),
        well_formed(final(units)@),
    no_unwind
{
    let before = units[id];
    let healthy = match health {
        Some(h) => h,
        None => before.is_healthy,
    };
    units[id] = ProcessingUnit { is_enabled: enabled, is_healthy: healthy, ..before };
    proof {
        lemma_after_set_enabled(old(units)@, id as int, enabled, health);
    }
}

/// Clears the bootstrap flag of `from` and sets that of `to`.
fn move_flag(units: &mut Vec<ProcessingUnit>, from: usize, to: usize)
    requires
        well_formed(old(units)@),
        from == bootstrap_of(old(units)@),
        switch_refusal(old(units)@, to as int) is None,
    ensures
        final(units)@ == after_switch(old(units)@, to as int),
        well_formed(final(units)@),
    no_unwind
{
    let old_holder = units[from];
    units[from] = ProcessingUnit { is_bootstrap: false, ..old_holder };
    let new_holder = units[to];
    units[to] = ProcessingUnit { is_bootstrap: true, ..new_holder };
    proof {
        lemma_after_switch(old(units)@, to as int);
    }
}

impl ProcessorRegistry {
    #[verifier::type_invariant]
    spec fn valid(self) -> bool {
        well_formed(self.units@)
    }

    /// A registry of `total` units in their initial state: all enabled and
    /// healthy, unit 0 holding the bootstrap role. There is no registry
    /// without units.
    pub fn new(total: usize) -> (made: Option<ProcessorRegistry>)
        ensures
            made is Some <==> total > 0,
            made is Some ==> made->0@ == initial_units(total as nat),
            made is Some ==> well_formed(made->0@),
    {
        if total == 0 {
            return None;
        }
        let mut units: Vec<ProcessingUnit> = Vec::new();
        let mut i: usize = 0;
        while i < total
            invariant
                i <= total,
                units@ == initial_units(i as nat),
            decreases total - i,
        {
            units.push(ProcessingUnit::initial(i));
            i += 1;
        }
        proof {
            lemma_initial_units(total as nat);
        }
        Some(ProcessorRegistry { units })
    }

    /// A registry over the units that discovery found, in the state it
    /// found them in.
    ///
    /// The records have to be valid together, else there is no registry:
    /// record `i` carries id `i`, exactly one record has the bootstrap flag
    /// set, and that record is enabled.
    pub fn from_discovery(found: Vec<ProcessingUnit>) -> (made: Option<ProcessorRegistry>)
        ensures
            made is Some <==> well_formed(found@),
            made is Some ==> made->0@ == found@,
    {
        let mut holder: Option<usize> = None;
        let mut i: usize = 0;
        while i < found.len()
            invariant
                i <= found.len(),
                forall|j: int| 0 <= j < i ==> (#[trigger] found@[j]).id == j,
                holder is None ==> forall|j: int| 0 <= j < i ==> !(#[trigger] found@[j]).is_bootstrap,
                holder is Some ==> {
                    &&& holder->0 < i
                    &&& found@[holder->0 as int].is_bootstrap
                    &&& forall|j: int|
                        0 <= j < i && (#[trigger] found@[j]).is_bootstrap ==> j == holder->0
                },
            decreases found.len() - i,
        {
            let unit = found[i];
            if unit.id != i {
                return None;
            }
            if unit.is_bootstrap {
                if holder.is_some() {
                    return None;
                }
                holder = Some(i);
            }
            i += 1;
        }
        match holder {
            Some(b) if found[b].is_enabled => {
                assert(sole_bootstrap(found@, b as int));
                Some(ProcessorRegistry { units: found })
            },
            _ => None,
        }
    }

    /// The number of units, and how many of them are enabled.
    pub fn total_count(&self) -> (counts: (usize, usize))
        ensures
            well_formed(self@),
            counts.0 == self@.len(),
            counts.1 == enabled_count(self@),
    {
        proof {
            use_type_invariant(&*self);
        }
        let ghost p = |u: ProcessingUnit| u.is_enabled;
        let mut enabled: usize = 0;
        let mut i: usize = 0;
        while i < self.units.len()
            invariant
                i <= self.units.len(),
                enabled <= i,
                enabled == self.units@.take(i as int).filter(p).len(),
                p == |u: ProcessingUnit| u.is_enabled,
            decreases self.units.len() - i,
        {
            proof {
                let sofar = self.units@.take(i as int);
                assert(self.units@.take(i + 1) =~= sofar.push(self.units@[i as int]));
                sofar.lemma_filter_push(self.units@[i as int], p);
            }
            if self.units[i].is_enabled {
                enabled += 1;
            }
            i += 1;
        }
        assert(self.units@.take(i as int) =~= self.units@);
        (self.units.len(), enabled)
    }

    /// The record of unit `id`, or `InvalidId` where there is no such unit.
    pub fn unit_info(&self, id: usize) -> (info: Result<ProcessingUnit, CoordError>)
        ensures
            well_formed(self@),
            id < self@.len() ==> info == Ok::<ProcessingUnit, CoordError>(self@[id as int]),
            id >= self@.len() ==> info == Err::<ProcessingUnit, CoordError>(CoordError::InvalidId),
    {
        proof {
            use_type_invariant(&*self);
        }
        if id < self.units.len() {
            Ok(self.units[id])
        } else {
            Err(CoordError::InvalidId)
        }
    }

    /// Gives unit `id` a new enabled flag and, where `health` is given, a
    /// new health flag.
    ///
    /// Refused with `InvalidId` where there is no such unit, and with
    /// `IllegalBootstrapDisable` where the unit holds the bootstrap role
    /// and `enabled` is false. A refusal changes nothing.
    pub fn set_enabled(&mut self, id: usize, enabled: bool, health: Option<bool>) -> (done: Result<
        (),
        CoordError,
    >)
        ensures
            well_formed(old(self)@),
            well_formed(final(self)@),
            done == verdict(set_enabled_refusal(old(self)@, id as int, enabled)),
            final(self)@ == after_set_enabled(old(self)@, id as int, enabled, health),
    {
        proof {
            use_type_invariant(&*self);
        }
        if id >= self.units.len() {
            return Err(CoordError::InvalidId);
        }
        if self.units[id].is_bootstrap && !enabled {
            return Err(CoordError::IllegalBootstrapDisable);
        }
        store_flags(&mut self.units, id, enabled, health);
        Ok(())
    }

    /// The id of the unit that holds the bootstrap role. There always is
    /// exactly one, and it is enabled.
    pub fn current_bootstrap_id(&self) -> (id: usize)
        ensures
            well_formed(self@),
            id == bootstrap_of(self@),
            sole_bootstrap(self@, id as int),
            self@[id as int].is_enabled,
    {
        proof {
            use_type_invariant(&*self);
        }
        let mut i: usize = 0;
        while !self.units[i].is_bootstrap
            invariant
                well_formed(self.units@),
                sole_bootstrap(self.units@, bootstrap_of(self.units@)),
                i <= bootstrap_of(self.units@),
            decreases bootstrap_of(self.units@) - i,
        {
            i += 1;
        }
        i
    }

    /// The id of the unit on which the caller runs. The answer depends on
    /// the caller's context alone, not on the state of the registry.
    pub fn who_am_i(&self, caller: &ExecutionContext) -> (id: usize)
        ensures
            id == caller.unit,
    {
        caller.unit
    }

    /// Moves the bootstrap role to `target`, a unit that can take it.
    pub(crate) fn hand_over_bootstrap(&mut self, target: usize)
        requires
            switch_refusal(old(self)@, target as int) is None,
        ensures
            well_formed(final(self)@),
            final(self)@ == after_switch(old(self)@, target as int),
    {
        let from = self.current_bootstrap_id();
        move_flag(&mut self.units, from, target);
    }
}

} // verus!
