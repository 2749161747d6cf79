//! The service callers use: one registry, and every operation on it behind
//! one type.

use std::collections::BTreeMap;
use vstd::prelude::*;

use crate::bsp::BspController;
use crate::dispatch::{
    may_yield, request_refusal, request_targets, selects, Completion, DispatchOutcome,
    DispatchRequest, Dispatcher, Micros,
};
use crate::error::CoordError;
use crate::model::{
    after_set_enabled, after_switch, bootstrap_of, dispatch_refusal, dispatch_targets,
    enabled_count, initial_units, is_dispatch_target, set_enabled_refusal, sole_bootstrap,
    switch_refusal, verdict, well_formed,
};
use crate::registry::ProcessorRegistry;
use crate::unit::{ExecutionContext, ProcessingUnit};

verus! {

/// A coordination session over a fixed set of units.
///
/// The service owns the registry and hands every call on to the component
/// that does the work. Its view is the registry's: the unit records in id
/// order.
pub struct CoordinationService {
    registry: ProcessorRegistry,
}

impl View for CoordinationService {
    type V = Seq<ProcessingUnit>;

    closed spec fn view(&self) -> Seq<ProcessingUnit> {
        self.registry@
    }
}

impl CoordinationService {
    /// A session over `total` units in their initial state: all enabled
    /// and healthy, unit 0 holding the bootstrap role. There is no session
    /// without units.
    pub fn new(total: usize) -> (made: Option<CoordinationService>)
        ensures
            made is Some <==> total > 0,
            made is Some ==> made->0@ == initial_units(total as nat),
            made is Some ==> well_formed(made->0@),
    {
        match ProcessorRegistry::new(total) {
            Some(registry) => Some(CoordinationService { registry }),
            None => None,
        }
    }

    /// A session over a registry that was made elsewhere.
    pub fn from_registry(registry: ProcessorRegistry) -> (made: CoordinationService)
        ensures
            made@ == registry@,
    {
        CoordinationService { registry }
    }

    /// The registry of this session, to read.
    pub fn registry(&self) -> (registry: &ProcessorRegistry)
        ensures
            registry@ == self@,
    {
        &self.registry
    }

    /// The number of units, and how many of them are enabled.
    pub fn total_count(&self) -> (counts: (usize, usize))
        ensures
            well_formed(self@),
            counts.0 == self@.len(),
            counts.1 == enabled_count(self@),
    {
        self.registry.total_count()
    }

    /// The record of unit `id`, or `InvalidId` where there is no such unit.
    pub fn unit_info(&self, id: usize) -> (info: Result<ProcessingUnit, CoordError>)
        ensures
            well_formed(self@),
            id < self@.len() ==> info == Ok::<ProcessingUnit, CoordError>(self@[id as int]),
            id >= self@.len() ==> info == Err::<ProcessingUnit, CoordError>(CoordError::InvalidId),
    {
        self.registry.unit_info(id)
    }

    /// Enables or disables unit `id` and, where `health` is given, sets its
    /// health flag.
    ///
    /// Refused with `InvalidId` where there is no such unit, and with
    /// `IllegalBootstrapDisable` where the unit holds the bootstrap role
    /// and `enable` is false. A refusal changes nothing.
    pub fn enable_disable_ap(&mut self, id: usize, enable: bool, health: Option<bool>) -> (done:
        Result<(), CoordError>)
        ensures
            well_formed(old(self)@),
            well_formed(final(self)@),
            done == verdict(set_enabled_refusal(old(self)@, id as int, enable)),
            final(self)@ == after_set_enabled(old(self)@, id as int, enable, health),
    {
        self.registry.set_enabled(id, enable, health)
    }

    /// The id of the unit that holds the bootstrap role.
    pub fn current_bootstrap_id(&self) -> (id: usize)
        ensures
            well_formed(self@),
            id == bootstrap_of(self@),
            sole_bootstrap(self@, id as int),
            self@[id as int].is_enabled,
    {
        self.registry.current_bootstrap_id()
    }

    /// The id of the unit on which the caller runs.
    pub fn who_am_i(&self, caller: &ExecutionContext) -> (id: usize)
        ensures
            id == caller.unit,
    {
        self.registry.who_am_i(caller)
    }

    /// Runs `procedure` on unit `id` and waits for it, at most `timeout`.
    /// See [`Dispatcher::run_on`].
    pub fn run_on<A, P: Fn(ExecutionContext, &A) -> Completion>(
        &self,
        id: usize,
        procedure: P,
        arg: A,
        timeout: Option<Micros>,
    ) -> (outcome: Result<DispatchOutcome, CoordError>)
        requires
            is_dispatch_target(self@, id as int) ==> call_requires(
                procedure,
                (ExecutionContext { unit: id }, &arg),
            ),
        ensures
            match dispatch_refusal(self@, id as int) {
                Some(refusal) => outcome == Err::<DispatchOutcome, CoordError>(refusal),
                None => outcome is Ok && may_yield(procedure, id, arg, timeout, outcome->Ok_0),
            },
    {
        Dispatcher::run_on(&self.registry, id, procedure, arg, timeout)
    }

    /// Runs `procedure` on every enabled unit that does not hold the
    /// bootstrap role. See [`Dispatcher::run_on_all`].
    pub fn run_on_all<A, P: Fn(ExecutionContext, &A) -> Completion>(
        &self,
        procedure: P,
        arg: A,
        timeout: Option<Micros>,
    ) -> (outcomes: BTreeMap<usize, DispatchOutcome>)
        requires
            forall|id: usize|
                is_dispatch_target(self@, id as int) ==> call_requires(
                    procedure,
                    (ExecutionContext { unit: id }, &arg),
                ),
        ensures
            outcomes@.dom() == dispatch_targets(self@),
            outcomes@.len() + 1 == enabled_count(self@),
            forall|id: usize|
                #![trigger outcomes@.contains_key(id)]
                outcomes@.contains_key(id) ==> may_yield(procedure, id, arg, timeout, outcomes@[id]),
    {
        assert(self@ == self.registry@);
        Dispatcher::run_on_all(&self.registry, procedure, arg, timeout)
    }

    /// Carries out a request. See [`Dispatcher::dispatch`].
    pub fn dispatch<A, P: Fn(ExecutionContext, &A) -> Completion>(
        &self,
        request: DispatchRequest<P, A>,
    ) -> (outcomes: Result<BTreeMap<usize, DispatchOutcome>, CoordError>)
        requires
            forall|id: usize|
                selects(request.selection, id) && is_dispatch_target(self@, id as int)
                    ==> call_requires(
                    request.procedure,
                    (ExecutionContext { unit: id }, &request.arg),
                ),
        ensures
            match request_refusal(self@, request.selection) {
                Some(refusal) => outcomes == Err::<BTreeMap<usize, DispatchOutcome>, CoordError>(
                    refusal,
                ),
                None => {
                    &&& outcomes is Ok
                    &&& outcomes->Ok_0@.dom() == request_targets(self@, request.selection)
                    &&& forall|id: usize|
                        #![trigger outcomes->Ok_0@.contains_key(id)]
                        outcomes->Ok_0@.contains_key(id) ==> may_yield(
                            request.procedure,
                            id,
                            request.arg,
                            request.timeout,
                            outcomes->Ok_0@[id],
                        )
                },
            },
    {
        Dispatcher::dispatch(&self.registry, request)
    }

    /// Makes `target_id` the bootstrap unit. See
    /// [`BspController::switch_bootstrap`].
    pub fn switch_bootstrap(&mut self, target_id: usize, enable_old_as_ap: bool) -> (done: Result<
        (),
        CoordError,
    >)
        ensures
            well_formed(old(self)@),
            well_formed(final(self)@),
            done == verdict(switch_refusal(old(self)@, target_id as int)),
            final(self)@ == after_switch(old(self)@, target_id as int),
    {
        BspController::switch_bootstrap(&mut self.registry, target_id, enable_old_as_ap)
    }
}

} // verus!
