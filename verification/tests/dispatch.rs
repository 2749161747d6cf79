use std::collections::BTreeMap;
use std::sync::atomic::{AtomicUsize, Ordering};

use mp_coordination::dispatch::{
    outcome_for, Completion, DispatchOutcome, DispatchRequest, Dispatcher, FailureReason, Selection,
};
use mp_coordination::error::CoordError;
use mp_coordination::registry::ProcessorRegistry;
use mp_coordination::unit::ExecutionContext;

fn done_at(after: u64) -> Completion {
    Completion { after, fault: None }
}

fn proc_increment_atomic(_unit: ExecutionContext, counter: &&AtomicUsize) -> Completion {
    counter.fetch_add(1, Ordering::Relaxed);
    done_at(0)
}

fn proc_wait_100ms(_unit: ExecutionContext, _arg: &()) -> Completion {
    done_at(100_000)
}

#[test]
fn outcome_without_timeout_is_what_the_signal_reported() {
    assert_eq!(outcome_for(done_at(0), None), DispatchOutcome::Completed);
    assert_eq!(outcome_for(done_at(u64::MAX), None), DispatchOutcome::Completed);
    let fault = FailureReason { code: 21 };
    assert_eq!(
        outcome_for(Completion { after: 5, fault: Some(fault) }, None),
        DispatchOutcome::Failed(fault)
    );
}

#[test]
fn outcome_with_timeout_depends_on_which_came_first() {
    assert_eq!(outcome_for(done_at(49_999), Some(50_000)), DispatchOutcome::Completed);
    assert_eq!(outcome_for(done_at(50_000), Some(50_000)), DispatchOutcome::Completed);
    assert_eq!(outcome_for(done_at(50_001), Some(50_000)), DispatchOutcome::TimedOut);
    assert_eq!(outcome_for(done_at(0), Some(0)), DispatchOutcome::Completed);
    assert_eq!(outcome_for(done_at(1), Some(0)), DispatchOutcome::TimedOut);
}

#[test]
fn a_fault_after_the_timeout_is_not_seen() {
    let fault = FailureReason { code: 7 };
    assert_eq!(
        outcome_for(Completion { after: 10, fault: Some(fault) }, Some(10)),
        DispatchOutcome::Failed(fault)
    );
    assert_eq!(
        outcome_for(Completion { after: 11, fault: Some(fault) }, Some(10)),
        DispatchOutcome::TimedOut
    );
}

#[test]
fn check_target_looks_at_the_id_before_the_unit() {
    let mut registry = ProcessorRegistry::new(4).unwrap();
    registry.set_enabled(1, false, None).unwrap();
    assert_eq!(Dispatcher::check_target(&registry, 0), Err(CoordError::UnitNotEligible));
    assert_eq!(Dispatcher::check_target(&registry, 1), Err(CoordError::UnitNotEligible));
    assert_eq!(Dispatcher::check_target(&registry, 2), Ok(()));
    assert_eq!(Dispatcher::check_target(&registry, 3), Ok(()));
    assert_eq!(Dispatcher::check_target(&registry, 4), Err(CoordError::InvalidId));
}

#[test]
fn run_on_calls_the_procedure_once_with_the_units_context() {
    let registry = ProcessorRegistry::new(4).unwrap();
    let seen = AtomicUsize::new(0);
    let calls = AtomicUsize::new(0);
    let outcome = Dispatcher::run_on(
        &registry,
        3,
        |unit: ExecutionContext, arg: &(&AtomicUsize, &AtomicUsize)| {
            arg.0.store(unit.unit, Ordering::Relaxed);
            arg.1.fetch_add(1, Ordering::Relaxed);
            done_at(12)
        },
        (&seen, &calls),
        None,
    );
    assert_eq!(outcome, Ok(DispatchOutcome::Completed));
    assert_eq!(seen.load(Ordering::Relaxed), 3);
    assert_eq!(calls.load(Ordering::Relaxed), 1);
}

#[test]
fn run_on_a_disabled_unit_is_refused_and_starts_nothing() {
    let mut registry = ProcessorRegistry::new(4).unwrap();
    registry.set_enabled(2, false, None).unwrap();
    let counter = AtomicUsize::new(0);
    assert_eq!(
        Dispatcher::run_on(&registry, 2, proc_increment_atomic, &counter, None),
        Err(CoordError::UnitNotEligible)
    );
    assert_eq!(counter.load(Ordering::Relaxed), 0);
}

#[test]
fn run_on_the_bootstrap_unit_is_refused_and_starts_nothing() {
    let registry = ProcessorRegistry::new(4).unwrap();
    let counter = AtomicUsize::new(0);
    assert_eq!(
        Dispatcher::run_on(&registry, 0, proc_increment_atomic, &counter, Some(1)),
        Err(CoordError::UnitNotEligible)
    );
    assert_eq!(counter.load(Ordering::Relaxed), 0);
}

#[test]
fn run_on_an_unknown_unit_is_refused_and_starts_nothing() {
    let registry = ProcessorRegistry::new(4).unwrap();
    let counter = AtomicUsize::new(0);
    assert_eq!(
        Dispatcher::run_on(&registry, 4, proc_increment_atomic, &counter, None),
        Err(CoordError::InvalidId)
    );
    assert_eq!(counter.load(Ordering::Relaxed), 0);
}

#[test]
fn run_on_reports_a_fault_as_an_outcome() {
    let registry = ProcessorRegistry::new(2).unwrap();
    let fault = FailureReason { code: 0x8000_0007 };
    let outcome = Dispatcher::run_on(
        &registry,
        1,
        |_unit: ExecutionContext, reason: &FailureReason| Completion {
            after: 3,
            fault: Some(*reason),
        },
        fault,
        Some(1_000),
    );
    assert_eq!(outcome, Ok(DispatchOutcome::Failed(fault)));
}

#[test]
fn run_on_times_out_and_leaves_the_unit_as_it_was() {
    let registry = ProcessorRegistry::new(4).unwrap();
    let before = registry.unit_info(2);
    assert_eq!(
        Dispatcher::run_on(&registry, 2, proc_wait_100ms, (), Some(50_000)),
        Ok(DispatchOutcome::TimedOut)
    );
    assert_eq!(registry.unit_info(2), before);
    assert_eq!(registry.total_count(), (4, 4));
}

#[test]
fn run_on_all_skips_the_bootstrap_unit_and_disabled_units() {
    let mut registry = ProcessorRegistry::new(4).unwrap();
    registry.set_enabled(1, false, None).unwrap();
    let counter = AtomicUsize::new(0);
    let outcomes = Dispatcher::run_on_all(&registry, proc_increment_atomic, &counter, None);
    assert_eq!(counter.load(Ordering::Relaxed), 2);
    let expected: BTreeMap<usize, DispatchOutcome> =
        [(2, DispatchOutcome::Completed), (3, DispatchOutcome::Completed)].into_iter().collect();
    assert_eq!(outcomes, expected);
}

#[test]
fn run_on_all_gives_each_unit_its_own_outcome() {
    let registry = ProcessorRegistry::new(5).unwrap();
    let fault = FailureReason { code: 9 };
    let outcomes = Dispatcher::run_on_all(
        &registry,
        |unit: ExecutionContext, reason: &FailureReason| match unit.unit {
            1 => done_at(10),
            2 => done_at(60_000),
            3 => Completion { after: 20, fault: Some(*reason) },
            _ => Completion { after: 70_000, fault: Some(*reason) },
        },
        fault,
        Some(50_000),
    );
    let expected: BTreeMap<usize, DispatchOutcome> = [
        (1, DispatchOutcome::Completed),
        (2, DispatchOutcome::TimedOut),
        (3, DispatchOutcome::Failed(fault)),
        (4, DispatchOutcome::TimedOut),
    ]
    .into_iter()
    .collect();
    assert_eq!(outcomes, expected);
}

#[test]
fn run_on_all_with_nothing_to_run_on_gives_no_outcome() {
    let registry = ProcessorRegistry::new(1).unwrap();
    let counter = AtomicUsize::new(0);
    let outcomes = Dispatcher::run_on_all(&registry, proc_increment_atomic, &counter, None);
    assert!(outcomes.is_empty());
    assert_eq!(counter.load(Ordering::Relaxed), 0);
}

#[test]
fn a_request_for_one_unit_gives_one_outcome() {
    let registry = ProcessorRegistry::new(4).unwrap();
    let request = DispatchRequest {
        selection: Selection::Single(2),
        procedure: proc_wait_100ms,
        arg: (),
        timeout: Some(100_000),
    };
    let outcomes = Dispatcher::dispatch(&registry, request).unwrap();
    let expected: BTreeMap<usize, DispatchOutcome> =
        [(2, DispatchOutcome::Completed)].into_iter().collect();
    assert_eq!(outcomes, expected);
}

#[test]
fn a_request_for_one_unit_is_refused_like_run_on() {
    let mut registry = ProcessorRegistry::new(4).unwrap();
    registry.set_enabled(3, false, None).unwrap();
    for (id, refusal) in [
        (0, CoordError::UnitNotEligible),
        (3, CoordError::UnitNotEligible),
        (4, CoordError::InvalidId),
    ] {
        let request = DispatchRequest {
            selection: Selection::Single(id),
            procedure: proc_wait_100ms,
            arg: (),
            timeout: None,
        };
        assert_eq!(Dispatcher::dispatch(&registry, request), Err(refusal));
    }
}

#[test]
fn a_request_for_all_units_is_never_refused() {
    let mut registry = ProcessorRegistry::new(3).unwrap();
    registry.set_enabled(1, false, None).unwrap();
    registry.set_enabled(2, false, None).unwrap();
    let request = DispatchRequest {
        selection: Selection::AllNonBootstrap,
        procedure: proc_wait_100ms,
        arg: (),
        timeout: Some(50_000),
    };
    assert_eq!(Dispatcher::dispatch(&registry, request), Ok(BTreeMap::new()));
    registry.set_enabled(2, true, None).unwrap();
    let request = DispatchRequest {
        selection: Selection::AllNonBootstrap,
        procedure: proc_wait_100ms,
        arg: (),
        timeout: Some(50_000),
    };
    let expected: BTreeMap<usize, DispatchOutcome> =
        [(2, DispatchOutcome::TimedOut)].into_iter().collect();
    assert_eq!(Dispatcher::dispatch(&registry, request), Ok(expected));
}
