//! Why an operation was refused.

use vstd::prelude::*;

verus! {

/// A refusal. Every refusal is decided before anything is changed or
/// started, so the registry is as it was when one is returned.
#[derive(Clone, Copy, Debug, PartialEq, Eq, Structural)]
pub enum CoordError {
    /// The id names no unit that can be used for the operation.
    InvalidId,
    /// The unit is disabled or holds the bootstrap role, so nothing can be
    /// dispatched to it.
    UnitNotEligible,
    /// The request would disable the unit that holds the bootstrap role.
    IllegalBootstrapDisable,
    /// The bootstrap role was to be moved to the unit that already holds it.
    AlreadyBootstrap,
}

} // verus!
