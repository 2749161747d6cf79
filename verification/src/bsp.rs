//! Handing the bootstrap role from one unit to another.

use vstd::prelude::*;

use crate::error::CoordError;
use crate::model::{after_switch, switch_refusal, verdict, well_formed};
use crate::registry::ProcessorRegistry;

verus! {

/// Moves the bootstrap role between the units of a registry.
pub struct BspController;

impl BspController {
    /// Makes `target_id` the bootstrap unit.
    ///
    /// The target has to exist and be enabled, else the call is refused
    /// with `InvalidId`; and it must not hold the role already, else the
    /// call is refused with `AlreadyBootstrap`. A refusal changes nothing.
    ///
    /// Otherwise the flag is cleared on the unit that held the role and set
    /// on the target, and nothing else changes. In particular the unit that
    /// gave up the role stays enabled whatever `enable_old_as_ap` says:
    /// that argument tells the environment whether the old unit is to take
    /// dispatched work again, and the registry has nothing to record for
    /// it.
    pub fn switch_bootstrap(
        registry: &mut ProcessorRegistry,
        target_id: usize,
        enable_old_as_ap: bool,
    ) -> (done: Result<(), CoordError>)
        ensures
            well_formed(old(registry)@),
            well_formed(final(registry)@),
            done == verdict(switch_refusal(old(registry)@, target_id as int)),
            final(registry)@ == after_switch(old(registry)@, target_id as int),
    {
        let target = match registry.unit_info(target_id) {
            Err(refusal) => {
                return Err(refusal);
            },
            Ok(unit) => unit,
        };
        if !target.is_enabled {
            return Err(CoordError::InvalidId);
        }
        if target.is_bootstrap {
            return Err(CoordError::AlreadyBootstrap);
        }
        registry.hand_over_bootstrap(target_id);
        Ok(())
    }
}

} // verus!
