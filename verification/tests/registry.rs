use mp_coordination::error::CoordError;
use mp_coordination::registry::ProcessorRegistry;
use mp_coordination::unit::{ExecutionContext, ProcessingUnit};

fn unit(id: usize, is_bootstrap: bool, is_enabled: bool, is_healthy: bool) -> ProcessingUnit {
    ProcessingUnit { id, is_bootstrap, is_enabled, is_healthy }
}

#[test]
fn fresh_registry_has_every_unit_enabled_and_healthy() {
    let registry = ProcessorRegistry::new(4).unwrap();
    assert_eq!(registry.total_count(), (4, 4));
    assert_eq!(registry.current_bootstrap_id(), 0);
    assert_eq!(registry.unit_info(0), Ok(unit(0, true, true, true)));
    assert_eq!(registry.unit_info(1), Ok(unit(1, false, true, true)));
    assert_eq!(registry.unit_info(2), Ok(unit(2, false, true, true)));
    assert_eq!(registry.unit_info(3), Ok(unit(3, false, true, true)));
}

#[test]
fn there_is_no_registry_without_units() {
    assert!(ProcessorRegistry::new(0).is_none());
}

#[test]
fn a_registry_of_one_unit_has_only_the_bootstrap_unit() {
    let registry = ProcessorRegistry::new(1).unwrap();
    assert_eq!(registry.total_count(), (1, 1));
    assert_eq!(registry.current_bootstrap_id(), 0);
    assert_eq!(registry.unit_info(0), Ok(unit(0, true, true, true)));
    assert_eq!(registry.unit_info(1), Err(CoordError::InvalidId));
}

#[test]
fn unit_info_refuses_an_id_at_or_past_the_total() {
    let registry = ProcessorRegistry::new(4).unwrap();
    assert_eq!(registry.unit_info(4), Err(CoordError::InvalidId));
    assert_eq!(registry.unit_info(usize::MAX), Err(CoordError::InvalidId));
}

#[test]
fn disabling_a_unit_lowers_the_enabled_count() {
    let mut registry = ProcessorRegistry::new(4).unwrap();
    assert_eq!(registry.set_enabled(1, false, None), Ok(()));
    assert_eq!(registry.total_count(), (4, 3));
    assert_eq!(registry.unit_info(1), Ok(unit(1, false, false, true)));
    assert_eq!(registry.set_enabled(3, false, None), Ok(()));
    assert_eq!(registry.total_count(), (4, 2));
    assert_eq!(registry.set_enabled(1, true, None), Ok(()));
    assert_eq!(registry.total_count(), (4, 3));
}

#[test]
fn a_disabled_unit_stays_queryable_and_keeps_its_health() {
    let mut registry = ProcessorRegistry::new(3).unwrap();
    assert_eq!(registry.set_enabled(2, true, Some(false)), Ok(()));
    assert_eq!(registry.set_enabled(2, false, None), Ok(()));
    assert_eq!(registry.unit_info(2), Ok(unit(2, false, false, false)));
    assert_eq!(registry.set_enabled(2, true, None), Ok(()));
    assert_eq!(registry.unit_info(2), Ok(unit(2, false, true, false)));
}

#[test]
fn set_enabled_refuses_an_unknown_id_and_changes_nothing() {
    let mut registry = ProcessorRegistry::new(4).unwrap();
    assert_eq!(registry.set_enabled(4, false, Some(false)), Err(CoordError::InvalidId));
    assert_eq!(registry.total_count(), (4, 4));
    for id in 0..4 {
        assert_eq!(registry.unit_info(id), Ok(unit(id, id == 0, true, true)));
    }
}

#[test]
fn disabling_the_bootstrap_unit_is_refused_and_changes_nothing() {
    let mut registry = ProcessorRegistry::new(4).unwrap();
    assert_eq!(registry.set_enabled(0, false, None), Err(CoordError::IllegalBootstrapDisable));
    assert_eq!(registry.set_enabled(0, false, Some(false)), Err(CoordError::IllegalBootstrapDisable));
    assert_eq!(registry.set_enabled(0, false, Some(true)), Err(CoordError::IllegalBootstrapDisable));
    assert_eq!(registry.unit_info(0), Ok(unit(0, true, true, true)));
    assert_eq!(registry.total_count(), (4, 4));
}

#[test]
fn the_bootstrap_unit_may_be_marked_unhealthy_while_enabled() {
    let mut registry = ProcessorRegistry::new(2).unwrap();
    assert_eq!(registry.set_enabled(0, true, Some(false)), Ok(()));
    assert_eq!(registry.unit_info(0), Ok(unit(0, true, true, false)));
    assert_eq!(registry.current_bootstrap_id(), 0);
}

#[test]
fn enabling_an_enabled_healthy_unit_changes_nothing() {
    let mut registry = ProcessorRegistry::new(4).unwrap();
    assert_eq!(registry.set_enabled(2, true, None), Ok(()));
    assert_eq!(registry.total_count(), (4, 4));
    for id in 0..4 {
        assert_eq!(registry.unit_info(id), Ok(unit(id, id == 0, true, true)));
    }
    assert_eq!(registry.set_enabled(0, true, None), Ok(()));
    assert_eq!(registry.unit_info(0), Ok(unit(0, true, true, true)));
}

#[test]
fn who_am_i_answers_with_the_callers_unit() {
    let registry = ProcessorRegistry::new(4).unwrap();
    assert_eq!(registry.who_am_i(&ExecutionContext { unit: 0 }), 0);
    assert_eq!(registry.who_am_i(&ExecutionContext { unit: 3 }), 3);
}

#[test]
fn discovery_keeps_the_state_it_found() {
    let found = vec![
        unit(0, false, true, true),
        unit(1, false, false, true),
        unit(2, true, true, false),
    ];
    let registry = ProcessorRegistry::from_discovery(found.clone()).unwrap();
    assert_eq!(registry.total_count(), (3, 2));
    assert_eq!(registry.current_bootstrap_id(), 2);
    for id in 0..3 {
        assert_eq!(registry.unit_info(id), Ok(found[id]));
    }
}

#[test]
fn discovery_refuses_records_that_are_not_valid_together() {
    // No unit at all, and no bootstrap unit.
    assert!(ProcessorRegistry::from_discovery(vec![]).is_none());
    assert!(ProcessorRegistry::from_discovery(vec![unit(0, false, true, true)]).is_none());
    // Two bootstrap units.
    assert!(ProcessorRegistry::from_discovery(vec![
        unit(0, true, true, true),
        unit(1, true, true, true),
    ])
    .is_none());
    // A disabled bootstrap unit.
    assert!(ProcessorRegistry::from_discovery(vec![
        unit(0, true, false, true),
        unit(1, false, true, true),
    ])
    .is_none());
    // Ids that do not count up from zero.
    assert!(ProcessorRegistry::from_discovery(vec![
        unit(1, true, true, true),
        unit(0, false, true, true),
    ])
    .is_none());
    assert!(ProcessorRegistry::from_discovery(vec![
        unit(0, true, true, true),
        unit(2, false, true, true),
    ])
    .is_none());
}
