use iidm::handlers::{register_component, update_component, update_iidm};
use iidm::plugins::{apply_register, apply_update, register, update};
use iidm::{
    handle_register_events, handle_update_events, Components, DispatchError, ErrorType, Line, LineUpdater,
    PhysicalAssetRegistry, Real, RegisterEvent, RegisterRequest, TemporaryLimit, UpdateError,
    UpdateEvent, World,
};

const LINE: &str = r#"{"id": "line1", "r": 1.0, "x": 2.0, "g1": 3.0, "b1": 4.0, "g2": 5.0,
    "b2": 6.0, "voltageLevelId1": "vl1", "bus1": "bus1", "connectableBus1": "bus1",
    "voltageLevelId2": "vl2", "bus2": "bus2", "connectableBus2": "bus2"}"#;

fn value(number: Real) -> f64 {
    f64::from_bits(number.bits)
}

fn request(id: &str, component: &str) -> RegisterRequest {
    RegisterRequest { id: id.to_string(), component: serde_json::from_str(component).unwrap() }
}

fn world_with_line() -> World {
    let mut world = World::new();
    register_component(&mut world.registry, &mut world.lines, &request("line1", LINE)).unwrap();
    world
}

#[test]
fn a_registered_record_is_found_and_equals_its_payload() {
    let world = world_with_line();
    let handle = world.registry.find("line1").unwrap();
    let line = world.lines.get(handle).unwrap();
    assert_eq!(value(line.r), 1.0);
    assert_eq!(value(line.x), 2.0);
    assert_eq!(value(line.g1), 3.0);
    assert_eq!(value(line.b1), 4.0);
    assert_eq!(line.voltage_level_id2, "vl2");
}

#[test]
fn an_update_replaces_the_fields_that_it_carries_and_keeps_the_rest() {
    let mut world = world_with_line();
    let handle = world.registry.find("line1").unwrap();
    update_component(
        "line",
        &world.registry,
        &mut world.lines,
        &request("line1", r#"{"r": 10.0, "x": 20.0}"#),
    )
    .unwrap();
    let line = world.lines.get(handle).unwrap();
    assert_eq!(value(line.r), 10.0);
    assert_eq!(value(line.x), 20.0);
    assert_eq!(value(line.g1), 3.0);
    assert_eq!(world.registry.find("line1"), Some(handle));
}

#[test]
fn of_three_updates_in_turn_the_last_one_holds() {
    let mut world = world_with_line();
    let handle = world.registry.find("line1").unwrap();
    update_component("line", &world.registry, &mut world.lines, &request("line1", r#"{"r": 10}"#))
        .unwrap();
    update_component("line", &world.registry, &mut world.lines, &request("line1", r#"{"r": 11}"#))
        .unwrap();
    assert_eq!(value(world.lines.get(handle).unwrap().r), 11.0);
    update_component("line", &world.registry, &mut world.lines, &request("line1", r#"{"r": 12}"#))
        .unwrap();
    assert_eq!(value(world.lines.get(handle).unwrap().r), 12.0);
}

#[test]
fn a_later_update_keeps_what_only_the_earlier_one_carried() {
    let mut world = world_with_line();
    let handle = world.registry.find("line1").unwrap();
    update_component(
        "line",
        &world.registry,
        &mut world.lines,
        &request("line1", r#"{"r": 10, "bus1": "first"}"#),
    )
    .unwrap();
    update_component("line", &world.registry, &mut world.lines, &request("line1", r#"{"r": 11}"#))
        .unwrap();
    let line = world.lines.get(handle).unwrap();
    assert_eq!(value(line.r), 11.0);
    assert_eq!(line.bus1, "first");
}

#[test]
fn an_empty_update_changes_nothing() {
    let mut world = world_with_line();
    let handle = world.registry.find("line1").unwrap();
    update_component("line", &world.registry, &mut world.lines, &request("line1", "{}")).unwrap();
    let line = world.lines.get(handle).unwrap();
    let initial = Line::from_json_str(LINE).unwrap();
    assert_eq!(line.id, initial.id);
    assert_eq!(line.r, initial.r);
    assert_eq!(line.x, initial.x);
    assert_eq!(line.g1, initial.g1);
    assert_eq!(line.b1, initial.b1);
    assert_eq!(line.g2, initial.g2);
    assert_eq!(line.b2, initial.b2);
    assert_eq!(line.voltage_level_id1, initial.voltage_level_id1);
    assert_eq!(line.bus1, initial.bus1);
    assert_eq!(line.connectable_bus1, initial.connectable_bus1);
    assert_eq!(line.voltage_level_id2, initial.voltage_level_id2);
    assert_eq!(line.bus2, initial.bus2);
    assert_eq!(line.connectable_bus2, initial.connectable_bus2);
    assert!(line.current_limits1.is_none() && line.current_limits2.is_none());
}

#[test]
fn an_unexpected_field_is_refused_and_nothing_is_created_or_changed() {
    let mut world = World::new();
    let refused = register_component(
        &mut world.registry,
        &mut world.lines,
        &request("line1", &LINE.replace("\"bus1\":", "\"buss1\":")),
    );
    match refused {
        Err(UpdateError::ValidationError(detail)) => {
            assert!(detail.contains("Unexpected field: buss1"), "{}", detail)
        }
        other => panic!("unexpected outcome: {:?}", other),
    }
    assert!(world.registry.is_empty());
    assert!(world.lines.is_empty());

    let mut world = world_with_line();
    let refused = update_component(
        "line",
        &world.registry,
        &mut world.lines,
        &request("line1", r#"{"r": 10.0, "rr": 1.0}"#),
    );
    assert!(matches!(refused, Err(UpdateError::ValidationError(_))));
    let line = world.lines.get(world.registry.find("line1").unwrap()).unwrap();
    assert_eq!(value(line.r), 1.0);
}

#[test]
fn an_update_with_a_value_of_the_wrong_type_is_refused() {
    let mut world = world_with_line();
    let refused = update_component(
        "line",
        &world.registry,
        &mut world.lines,
        &request("line1", r#"{"r": "ten"}"#),
    );
    match refused {
        Err(UpdateError::ValidationError(detail)) => {
            assert!(detail.contains("Schema validation failed"), "{}", detail)
        }
        other => panic!("unexpected outcome: {:?}", other),
    }
}

#[test]
fn an_update_of_an_unknown_identity_is_reported_and_mints_nothing() {
    let mut world = world_with_line();
    let refused = update_component(
        "line",
        &world.registry,
        &mut world.lines,
        &request("ghost", r#"{"r": 10.0}"#),
    );
    match refused {
        Err(error @ UpdateError::NotFoundError(_)) => {
            assert_eq!(error.to_string(), "Component not found: Entity with ID 'ghost' not found");
            assert_eq!(error.status_code(), 404);
        }
        other => panic!("unexpected outcome: {:?}", other),
    }
    assert_eq!(world.registry.find("ghost"), None);
    assert_eq!(world.registry.len(), 1);

    let mut failures = Vec::new();
    handle_update_events(
        vec![UpdateEvent::<Line> { id: "ghost".to_string(), update: LineUpdater::default() }],
        "line",
        &world.registry,
        &mut world.lines,
        &mut failures,
    );
    assert_eq!(failures.len(), 1);
    assert_eq!(failures[0].id, "ghost");
    assert_eq!(failures[0].component_type, "line");
    assert_eq!(failures[0].error_type, ErrorType::EntityNotFound);
    assert_eq!(world.registry.find("ghost"), None);
}

#[test]
fn an_update_of_a_record_without_the_component_is_reported() {
    let mut world = world_with_line();
    let refused = update_component(
        "temporary_limit",
        &world.registry,
        &mut world.temporary_limits,
        &request("line1", r#"{"value": 1.0}"#),
    );
    match refused {
        Err(UpdateError::NotFoundError(detail)) => assert_eq!(
            detail,
            "Component of type 'temporary_limit' not found on entity with ID 'line1'"
        ),
        other => panic!("unexpected outcome: {:?}", other),
    }
    let mut failures = Vec::new();
    apply_update(
        UpdateEvent::<TemporaryLimit> { id: "line1".to_string(), update: Default::default() },
        "temporary_limit",
        &world.registry,
        &mut world.temporary_limits,
        &mut failures,
    );
    assert_eq!(failures.len(), 1);
    assert_eq!(failures[0].error_type, ErrorType::ComponentNotFound);
}

#[test]
fn a_handle_may_hold_records_of_several_types() {
    let mut world = world_with_line();
    let handle = world.registry.find("line1").unwrap();
    register_component(
        &mut world.registry,
        &mut world.temporary_limits,
        &request("line1", r#"{"name": "n", "acceptableDuration": 60, "value": 2.5}"#),
    )
    .unwrap();
    assert_eq!(world.registry.find("line1"), Some(handle));
    assert_eq!(world.registry.len(), 1);
    assert!(world.lines.contains(handle));
    assert_eq!(world.temporary_limits.get(handle).unwrap().acceptable_duration, 60);
}

#[test]
fn registering_again_replaces_the_record_and_keeps_the_handle() {
    let mut world = world_with_line();
    let handle = world.registry.find("line1").unwrap();
    update_component("line", &world.registry, &mut world.lines, &request("line1", r#"{"bus1": "b"}"#))
        .unwrap();
    register_component(
        &mut world.registry,
        &mut world.lines,
        &request("line1", &LINE.replace("\"r\": 1.0", "\"r\": 9.0")),
    )
    .unwrap();
    assert_eq!(world.registry.find("line1"), Some(handle));
    assert_eq!(world.lines.len(), 1);
    let line = world.lines.get(handle).unwrap();
    assert_eq!(value(line.r), 9.0);
    assert_eq!(line.bus1, "bus1");
}

#[test]
fn one_register_instruction_is_applied_at_once() {
    let mut registry = PhysicalAssetRegistry::new();
    let mut lines: Components<Line> = Components::new();
    apply_register(
        RegisterEvent { id: "other".to_string(), component: Line::from_json_str(LINE).unwrap() },
        &mut registry,
        &mut lines,
    );
    let handle = registry.find("other").unwrap();
    assert_eq!(lines.get(handle).unwrap().id, "line1");
    assert_eq!(registry.find("line1"), None);
}

#[test]
fn the_world_routes_an_update_by_its_tag() {
    let mut world = world_with_line();
    let answer = world.update("line", &request("line1", r#"{"r": 10.0}"#)).unwrap();
    assert_eq!(answer.0, 200);
    assert_eq!(answer.1.status, "Component updated successfully");
    assert_eq!(value(world.lines.get(world.registry.find("line1").unwrap()).unwrap().r), 10.0);

    match world.update("generator", &request("line1", r#"{"r": 11.0}"#)) {
        Err(DispatchError::UnknownType(tag)) => assert_eq!(tag, "generator"),
        other => panic!("unexpected answer: {:?}", other),
    }
    match world.update("substation", &request("line1", r#"{"tso": "RTE"}"#)) {
        Err(DispatchError::Handler(UpdateError::NotFoundError(detail))) => assert_eq!(
            detail,
            "Component of type 'substation' not found on entity with ID 'line1'"
        ),
        other => panic!("unexpected answer: {:?}", other),
    }
    assert_eq!(value(world.lines.get(world.registry.find("line1").unwrap()).unwrap().r), 10.0);
}

#[test]
fn an_update_is_answered_with_a_confirmation() {
    let mut world = world_with_line();
    let (status, body) = update_iidm(
        "line",
        &world.registry,
        &mut world.lines,
        &request("line1", r#"{"x": 7.5}"#),
    )
    .unwrap();
    assert_eq!(status, 200);
    assert_eq!(body.status, "Component updated successfully");
}

#[test]
fn queued_instructions_take_effect_at_the_flush_and_in_order() {
    let mut registry = PhysicalAssetRegistry::new();
    let mut lines: Components<Line> = Components::new();
    let mut registers: Vec<RegisterEvent<Line>> = Vec::new();
    let mut updates: Vec<UpdateEvent<Line>> = Vec::new();

    let payload = |text: &str| -> serde_json::Value { serde_json::from_str(text).unwrap() };
    register(&mut registers, "line1", &payload(LINE)).unwrap();
    assert!(register(&mut registers, "line2", &payload(r#"{"id": "line2"}"#)).is_err());
    assert!(register(&mut registers, "line3", &payload(r#"{"idd": "line3"}"#)).is_err());
    assert_eq!(registers.len(), 1);
    update(&mut updates, "line1", &payload(r#"{"r": 10, "x": 20}"#)).unwrap();
    update(&mut updates, "ghost", &payload(r#"{"r": 1}"#)).unwrap();
    update(&mut updates, "line1", &payload(r#"{"r": 11}"#)).unwrap();
    assert!(update(&mut updates, "line1", &payload(r#"{"rr": 12}"#)).is_err());
    assert!(update(&mut updates, "line1", &payload(r#"[]"#)).is_err());
    assert_eq!(updates.len(), 3);

    assert!(registry.is_empty());
    handle_register_events(registers, &mut registry, &mut lines);
    let handle = registry.find("line1").unwrap();
    assert_eq!(value(lines.get(handle).unwrap().r), 1.0);

    let mut failures = Vec::new();
    handle_update_events(updates, "line", &registry, &mut lines, &mut failures);
    let line = lines.get(handle).unwrap();
    assert_eq!(value(line.r), 11.0);
    assert_eq!(value(line.x), 20.0);
    assert_eq!(failures.len(), 1);
    assert_eq!(failures[0].id, "ghost");
    assert_eq!(registry.len(), 1);
}
