//! The per-unit record and the handle that stands for a unit's execution
//! context.

use vstd::prelude::*;

verus! {

/// One logical processor, as the registry reports it.
///
/// A value of this type is a snapshot: changing it changes nothing in the
/// registry it was read from.
#[derive(Clone, Copy, Debug, PartialEq, Eq, Structural)]
pub struct ProcessingUnit {
    /// Position of the unit in discovery order, counted from zero.
    pub id: usize,
    /// Whether the unit holds the bootstrap role.
    pub is_bootstrap: bool,
    /// Whether work may be dispatched to the unit.
    pub is_enabled: bool,
    /// Advisory health status; dispatch does not look at it.
    pub is_healthy: bool,
}

/// The record under the name of the component that keeps it.
pub type ProcessorState = ProcessingUnit;

impl ProcessingUnit {
    /// The record of unit `id` at the start of a session: enabled and
    /// healthy, and holding the bootstrap role if it was found first.
    pub open spec fn fresh(id: usize) -> ProcessingUnit {
        ProcessingUnit { id, is_bootstrap: id == 0, is_enabled: true, is_healthy: true }
    }

    /// Whether work may be dispatched to the unit: it is enabled and does
    /// not hold the bootstrap role. Health is not asked for.
    pub open spec fn can_take_work(self) -> bool {
        self.is_enabled && !self.is_bootstrap
    }

    /// The record of unit `id` at the start of a session.
    pub fn initial(id: usize) -> (unit: ProcessingUnit)
        ensures
            unit == ProcessingUnit::fresh(id),
    {
        ProcessingUnit { id, is_bootstrap: id == 0, is_enabled: true, is_healthy: true }
    }

    /// Whether work may be dispatched to the unit.
    pub fn takes_work(&self) -> (yes: bool)
        ensures
            yes == self.can_take_work(),
    {
        self.is_enabled && !self.is_bootstrap
    }
}

/// The execution context of one unit: the place a call is issued from, or
/// the place a dispatched procedure runs in.
///
/// A context belongs to its unit for the whole session. Moving the
/// bootstrap role does not change it.
#[derive(Clone, Copy, Debug, PartialEq, Eq, Structural)]
pub struct ExecutionContext {
    /// Id of the unit this context runs on.
    pub unit: usize,
}

} // verus!
