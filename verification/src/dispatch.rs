//! Dispatch: running a procedure on one unit, or on every unit that can
//! take work, and reporting how each run ended.
//!
//! The units are driven cooperatively on a virtual clock. A procedure is
//! called once for each unit it is dispatched to, with that unit's
//! execution context, and answers with a [`Completion`]: the moment, counted
//! from the start of the dispatch, at which the unit signalled that it was
//! done, and the fault it reported, if any. The caller's wait is bounded by
//! the timeout; what happened after the wait was over is not reported.

use std::collections::BTreeMap;
use vstd::prelude::*;

use crate::error::CoordError;
use crate::model::{
    dispatch_refusal, dispatch_targets, enabled_count, is_dispatch_target, lemma_dispatch_targets,
    verdict,
};
use crate::registry::ProcessorRegistry;
use crate::unit::{ExecutionContext, ProcessingUnit};

verus! {

/// A span of time in microseconds.
pub type Micros = u64;

/// Why a procedure ended abnormally, as its execution context reported it.
#[derive(Clone, Copy, Debug, PartialEq, Eq, Structural)]
pub struct FailureReason {
    /// The code the execution context gave.
    pub code: usize,
}

/// How the run of a procedure on one unit ended.
#[derive(Clone, Copy, Debug, PartialEq, Eq, Structural)]
pub struct Completion {
    /// Time from the start of the dispatch to the unit's completion signal.
    pub after: Micros,
    /// The abnormal termination that the signal reported, if any.
    pub fault: Option<FailureReason>,
}

/// What the caller of a dispatch learns about one unit.
#[derive(Clone, Copy, Debug, PartialEq, Eq, Structural)]
pub enum DispatchOutcome {
    /// The unit signalled completion while the caller was waiting.
    Completed,
    /// The timeout passed first. The procedure may still be running; only
    /// the waiting has ended.
    TimedOut,
    /// The unit reported abnormal termination while the caller was waiting.
    Failed(FailureReason),
}

/// The units a dispatch is meant for.
#[derive(Clone, Copy, Debug, PartialEq, Eq, Structural)]
pub enum Selection {
    /// The unit with this id.
    Single(usize),
    /// Every enabled unit that does not hold the bootstrap role.
    AllNonBootstrap,
}

/// One coordination call: where to run, what to run, and how long to wait.
pub struct DispatchRequest<P, A> {
    /// The units to run on.
    pub selection: Selection,
    /// The procedure to run.
    pub procedure: P,
    /// The argument handed to every run of the procedure. The request owns
    /// it until every targeted unit has an outcome.
    pub arg: A,
    /// The longest time to wait for each unit; `None` waits without bound.
    pub timeout: Option<Micros>,
}

/// Whether a selection covers unit `id`.
pub open spec fn selects(selection: Selection, id: usize) -> bool {
    match selection {
        Selection::Single(chosen) => chosen == id,
        Selection::AllNonBootstrap => true,
    }
}

/// Why a request with this selection is refused, if it is. Only a request
/// for a single unit can be: that unit has to be able to take work.
pub open spec fn request_refusal(units: Seq<ProcessingUnit>, selection: Selection) -> Option<
    CoordError,
> {
    match selection {
        Selection::Single(chosen) => dispatch_refusal(units, chosen as int),
        Selection::AllNonBootstrap => None,
    }
}

/// The ids of the units a request runs on: those it selects, as far as
/// work can be dispatched to them.
pub open spec fn request_targets(units: Seq<ProcessingUnit>, selection: Selection) -> Set<usize> {
    Set::new(|id: usize| selects(selection, id) && is_dispatch_target(units, id as int))
}

/// The outcome the caller sees for a run that ended as `completion` says,
/// when it waited at most `timeout`.
///
/// A signal that came after the timeout is never seen: the outcome is
/// `TimedOut` whatever the signal reported. A signal at the very moment the
/// timeout ends is still seen.
pub open spec fn outcome_of(completion: Completion, timeout: Option<Micros>) -> DispatchOutcome {
    if timeout is Some && completion.after > timeout->0 {
        DispatchOutcome::TimedOut
    } else {
        match completion.fault {
            Some(reason) => DispatchOutcome::Failed(reason),
            None => DispatchOutcome::Completed,
        }
    }
}

/// `outcome` is an outcome that dispatching `procedure` to `unit` can have:
/// the procedure, called with that unit's context and `arg`, can answer
/// with a completion that the caller sees as `outcome`.
pub open spec fn may_yield<A, P: Fn(ExecutionContext, &A) -> Completion>(
    procedure: P,
    unit: usize,
    arg: A,
    timeout: Option<Micros>,
    outcome: DispatchOutcome,
) -> bool {
    exists|completion: Completion|
        call_ensures(procedure, (ExecutionContext { unit }, &arg), completion)
            && outcome == outcome_of(completion, timeout)
}

/// The outcome for one unit, from how its run ended and how long the
/// caller waited.
pub fn outcome_for(completion: Completion, timeout: Option<Micros>) -> (outcome: DispatchOutcome)
    ensures
        outcome == outcome_of(completion, timeout),
{
    let expired = match timeout {
        Some(limit) => completion.after > limit,
        None => false,
    };
    if expired {
        DispatchOutcome::TimedOut
    } else {
        match completion.fault {
            Some(reason) => DispatchOutcome::Failed(reason),
            None => DispatchOutcome::Completed,
        }
    }
}

/// Runs procedures on the units of a registry.
pub struct Dispatcher;

impl Dispatcher {
    /// Decides whether work may be dispatched to unit `id`.
    ///
    /// The id is looked at first: `InvalidId` where there is no such unit.
    /// Then the unit: `UnitNotEligible` where it is disabled or holds the
    /// bootstrap role.
    pub fn check_target(registry: &ProcessorRegistry, id: usize) -> (allowed: Result<
        (),
        CoordError,
    >)
        ensures
            allowed == verdict(dispatch_refusal(registry@, id as int)),
    {
        match registry.unit_info(id) {
            Err(refusal) => Err(refusal),
            Ok(unit) => {
                if unit.takes_work() {
                    Ok(())
                } else {
                    Err(CoordError::UnitNotEligible)
                }
            },
        }
    }

    /// Runs `procedure` on unit `id` and waits for it, at most `timeout`.
    ///
    /// The call is refused unless the unit exists, is enabled and does not
    /// hold the bootstrap role. Otherwise the procedure is called once,
    /// with the unit's context and `arg`, and the outcome is what
    /// [`outcome_of`] makes of its answer. The registry is only read.
    ///
    /// Nothing is asked of the procedure for a unit that cannot take work.
    /// A refused call therefore has no leave to call it, and starts
    /// nothing.
    pub fn run_on<A, P: Fn(ExecutionContext, &A) -> Completion>(
        registry: &ProcessorRegistry,
        id: usize,
        procedure: P,
        arg: A,
        timeout: Option<Micros>,
    ) -> (outcome: Result<DispatchOutcome, CoordError>)
        requires
            is_dispatch_target(registry@, id as int) ==> call_requires(
                procedure,
                (ExecutionContext { unit: id }, &arg),
            ),
        ensures
            match dispatch_refusal(registry@, id as int) {
                Some(refusal) => outcome == Err::<DispatchOutcome, CoordError>(refusal),
                None => outcome is Ok && may_yield(procedure, id, arg, timeout, outcome->Ok_0),
            },
    {
        match Self::check_target(registry, id) {
            Err(refusal) => Err(refusal),
            Ok(()) => {
                let completion = procedure(ExecutionContext { unit: id }, &arg);
                Ok(outcome_for(completion, timeout))
            },
        }
    }

    /// Runs `procedure` on every enabled unit that does not hold the
    /// bootstrap role, and waits for each of them, at most `timeout`.
    ///
    /// Every such unit gets exactly one outcome, and no other unit gets
    /// one; that is one outcome fewer than there are enabled units. All
    /// units start together, at time zero of the dispatch, and
    /// the timeout bounds the wait for each unit by itself: what one unit
    /// does has no bearing on the outcome of another.
    pub fn run_on_all<A, P: Fn(ExecutionContext, &A) -> Completion>(
        registry: &ProcessorRegistry,
        procedure: P,
        arg: A,
        timeout: Option<Micros>,
    ) -> (outcomes: BTreeMap<usize, DispatchOutcome>)
        requires
            forall|id: usize|
                is_dispatch_target(registry@, id as int) ==> call_requires(
                    procedure,
                    (ExecutionContext { unit: id }, &arg),
                ),
        ensures
            outcomes@.dom() == dispatch_targets(registry@),
            outcomes@.len() + 1 == enabled_count(registry@),
            forall|id: usize|
                #![trigger outcomes@.contains_key(id)]
                outcomes@.contains_key(id) ==> may_yield(procedure, id, arg, timeout, outcomes@[id]),
    {
        let total = registry.total_count().0;
        let mut outcomes: BTreeMap<usize, DispatchOutcome> = BTreeMap::new();
        let mut id: usize = 0;
        while id < total
            invariant
                id <= total,
                total == registry@.len(),
                forall|t: usize|
                    is_dispatch_target(registry@, t as int) ==> call_requires(
                        procedure,
                        (ExecutionContext { unit: t }, &arg),
                    ),
                forall|t: usize|
                    #![trigger outcomes@.contains_key(t)]
                    outcomes@.contains_key(t) <==> t < id && is_dispatch_target(
                        registry@,
                        t as int,
                    ),
                forall|t: usize|
                    #![trigger outcomes@.contains_key(t)]
                    outcomes@.contains_key(t) ==> may_yield(
                        procedure,
                        t,
                        arg,
                        timeout,
                        outcomes@[t],
                    ),
            decreases total - id,
        {
            if Self::check_target(registry, id).is_ok() {
                assert(is_dispatch_target(registry@, id as int));
                let completion = procedure(ExecutionContext { unit: id }, &arg);
                let outcome = outcome_for(completion, timeout);
                outcomes.insert(id, outcome);
            }
            id += 1;
        }
        proof {
            lemma_dispatch_targets(registry@);
        }
        outcomes
    }

    /// Carries out a request: on the single unit it selects, or on all
    /// units that can take work.
    ///
    /// A request for a single unit is refused as [`Dispatcher::run_on`]
    /// refuses it. A request for all units is never refused; it may find no
    /// unit to run on. The outcomes are keyed by unit id: one for every
    /// selected unit that can take work, and no other.
    pub fn dispatch<A, P: Fn(ExecutionContext, &A) -> Completion>(
        registry: &ProcessorRegistry,
        request: DispatchRequest<P, A>,
    ) -> (outcomes: Result<BTreeMap<usize, DispatchOutcome>, CoordError>)
        requires
            forall|id: usize|
                selects(request.selection, id) && is_dispatch_target(registry@, id as int)
                    ==> call_requires(
                    request.procedure,
                    (ExecutionContext { unit: id }, &request.arg),
                ),
        ensures
            match request_refusal(registry@, request.selection) {
                Some(refusal) => outcomes == Err::<BTreeMap<usize, DispatchOutcome>, CoordError>(
                    refusal,
                ),
                None => {
                    &&& outcomes is Ok
                    &&& outcomes->Ok_0@.dom() == request_targets(registry@, request.selection)
                    &&& forall|id: usize|
                        #![trigger outcomes->Ok_0@.contains_key(id)]
                        outcomes->Ok_0@.contains_key(id) ==> may_yield(
                            request.procedure,
                            id,
                            request.arg,
                            request.timeout,
                            outcomes->Ok_0@[id],
                        )
                },
            },
    {
        match request.selection {
            Selection::Single(id) => {
                match Self::run_on(registry, id, request.procedure, request.arg, request.timeout) {
                    Err(refusal) => Err(refusal),
                    Ok(outcome) => {
                        let mut outcomes: BTreeMap<usize, DispatchOutcome> = BTreeMap::new();
                        outcomes.insert(id, outcome);
                        Ok(outcomes)
                    },
                }
            },
            Selection::AllNonBootstrap => {
                assert(dispatch_targets(registry@) =~= request_targets(
                    registry@,
                    request.selection,
                ));
                Ok(Self::run_on_all(registry, request.procedure, request.arg, request.timeout))
            },
        }
    }
}

} // verus!
