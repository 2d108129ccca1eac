use iidm::{
    handle_register_events, handle_update_events, AssetRegistry, Components, Line, LineError,
    LineUpdater, PhysicalAssetRegistry, Real, RegisterEvent, UpdateEvent, ValidationError,
};

const LINE_STR: &str = r#"{
        "id" : "NHV1_NHV2_1",
        "r" : 3.0,
        "x" : 33.0,
        "g1" : 0.0,
        "b1" : 1.93E-4,
        "g2" : 0.0,
        "b2" : 1.93E-4,
        "voltageLevelId1" : "VLHV1",
        "bus1" : "NHV1",
        "connectableBus1" : "NHV1",
        "voltageLevelId2" : "VLHV2",
        "bus2" : "NHV2",
        "connectableBus2" : "NHV2"   
    }"#;

fn number(value: f64) -> Real {
    Real { bits: value.to_bits() }
}

fn value(number: Real) -> f64 {
    f64::from_bits(number.bits)
}

fn create_default_line() -> Line {
    Line {
        id: "line1".to_string(),
        r: number(1.0),
        x: number(2.0),
        g1: number(3.0),
        b1: number(4.0),
        g2: number(5.0),
        b2: number(6.0),
        voltage_level_id1: "vl1".to_string(),
        bus1: "bus1".to_string(),
        connectable_bus1: "cbus1".to_string(),
        voltage_level_id2: "vl2".to_string(),
        bus2: "bus2".to_string(),
        connectable_bus2: "cbus2".to_string(),
        current_limits1: None,
        current_limits2: None,
    }
}

fn create_event_line() -> Line {
    Line {
        connectable_bus1: "bus1".to_string(),
        connectable_bus2: "bus2".to_string(),
        ..create_default_line()
    }
}

fn assert_loaded_values(line: &Line) {
    assert_eq!(value(line.r), 3.0);
    assert_eq!(value(line.x), 33.0);
    assert_eq!(value(line.g1), 0.0);
    assert_eq!(value(line.b1), 1.93E-4);
    assert_eq!(value(line.g2), 0.0);
    assert_eq!(value(line.b2), 1.93E-4);

    assert_eq!(line.voltage_level_id1, "VLHV1");
    assert_eq!(line.bus1, "NHV1");
    assert_eq!(line.connectable_bus1, "NHV1");
    assert_eq!(line.voltage_level_id2, "VLHV2");
    assert_eq!(line.bus2, "NHV2");
    assert_eq!(line.connectable_bus2, "NHV2");
}

#[test]
fn line_test_line_load_from_str() {
    let line = Line::from_json_str(LINE_STR).unwrap();

    assert_eq!(line.id, "NHV1_NHV2_1");
    assert_loaded_values(&line);
}

#[test]
fn test_spawn_component() {
    let mut lines: Components<Line> = Components::new();
    let mut registry = PhysicalAssetRegistry::default();
    let line = Line::from_json_str(LINE_STR).unwrap();

    let test_id = line.id.clone();
    let entity = registry.spawn_identifiable(&mut lines, line);

    let identifiable = lines.get(entity);
    assert!(identifiable.is_some());
    assert_eq!(identifiable.unwrap().id, test_id);

    assert!(registry.contains_key(&test_id));
    assert_eq!(registry.find(&test_id), Some(entity));

    assert_eq!(lines.len(), 1);
    assert_loaded_values(lines.get(entity).unwrap());
}

#[test]
fn line_test() {
    let mut lines: Components<Line> = Components::new();
    let mut registry = PhysicalAssetRegistry::default();
    let line = Line::from_json_str(LINE_STR).unwrap();

    let test_id = line.id.clone();
    let entity = line.load_in_registery(&mut registry);
    registry.insert_component(&mut lines, &test_id, line);

    assert!(registry.contains_key(&test_id));
    assert_eq!(registry.find_physical_asset_by_id(&test_id), Some(entity));
    assert_eq!(lines.get(entity).unwrap().id, test_id);
    assert_loaded_values(lines.get(entity).unwrap());
}

#[test]
fn line_test_mutable_line() {
    let mut lines: Components<Line> = Components::new();
    let mut registry = PhysicalAssetRegistry::default();
    let line = Line::from_json_str(LINE_STR).unwrap();

    let entity = registry.spawn_identifiable(&mut lines, line);

    let changed = lines.update(
        entity,
        LineUpdater {
            r: Some(number(4.0)),
            x: Some(number(44.0)),
            g1: Some(number(0.1)),
            b1: Some(number(2.93E-4)),
            g2: Some(number(0.1)),
            b2: Some(number(2.93E-4)),
            bus1: Some("NHV1_NEW".to_string()),
            bus2: Some("NHV2_NEW".to_string()),
            ..Default::default()
        },
    );
    assert!(changed);

    let line_component = lines.get(entity).unwrap();
    assert_eq!(value(line_component.r), 4.0);
    assert_eq!(value(line_component.x), 44.0);
    assert_eq!(value(line_component.g1), 0.1);
    assert_eq!(value(line_component.b1), 2.93E-4);
    assert_eq!(value(line_component.g2), 0.1);
    assert_eq!(value(line_component.b2), 2.93E-4);

    assert_eq!(line_component.bus1, "NHV1_NEW");
    assert_eq!(line_component.bus2, "NHV2_NEW");

    assert_eq!(line_component.voltage_level_id1, "VLHV1");
    assert_eq!(line_component.connectable_bus1, "NHV1");
    assert_eq!(line_component.voltage_level_id2, "VLHV2");
    assert_eq!(line_component.connectable_bus2, "NHV2");
}

#[test]
fn test_update_single_field() {
    let mut line = create_default_line();
    let update = r#"{"r": 10.0}"#;

    line.update(update).unwrap();
    assert_eq!(value(line.r), 10.0);
    assert_eq!(value(line.x), 2.0);
    assert_eq!(line.id, "line1");
}

#[test]
fn test_update_multiple_fields() {
    let mut line = create_default_line();
    let update = r#"{"r": 10.0, "x": 20.0, "id": "newline"}"#;

    let refused = line.update(update);
    assert!(matches!(
        refused,
        Err(LineError::Deserialization(ValidationError::UnexpectedField(ref name))) if name == "id"
    ));
    assert_eq!(value(line.r), 1.0);
    assert_eq!(value(line.x), 2.0);
    assert_eq!(line.id, "line1");

    line.update(r#"{"r": 10.0, "x": 20.0}"#).unwrap();
    assert_eq!(value(line.r), 10.0);
    assert_eq!(value(line.x), 20.0);
    assert_eq!(line.id, "line1");
}

#[test]
fn test_update_with_renamed_fields() {
    let mut line = create_default_line();
    let update = r#"{"voltageLevelId1": "newvl1", "connectableBus1": "newcbus1"}"#;

    line.update(update).unwrap();
    assert_eq!(line.voltage_level_id1, "newvl1");
    assert_eq!(line.connectable_bus1, "newcbus1");
}

#[test]
fn test_update_optional_fields() {
    let mut line = create_default_line();
    let update = r#"{
        "currentLimits1": {"permanentLimit": 100.0, "temporaryLimits": []},
        "currentLimits2": null
    }"#;

    line.update(update).unwrap();
    assert!(line.current_limits1.is_some());
    assert!(line.current_limits2.is_none());
    assert_eq!(value(line.current_limits1.unwrap().permanent_limit), 100.0);
}

#[test]
fn test_update_with_invalid_json() {
    let mut line = create_default_line();
    let result = line.update("invalid json");
    assert!(result.is_err());
}

#[test]
fn update_with_json_that_is_no_object_is_malformed_and_changes_nothing() {
    for text in ["[1, 2]", "5", "null", "\"r\""] {
        let mut line = create_default_line();
        let refused = line.update(text);
        match refused {
            Err(LineError::Deserialization(ValidationError::MalformedInput(detail))) => {
                assert_eq!(detail, "JSON input must be an object")
            }
            other => panic!("unexpected outcome: {:?}", other),
        }
        assert_eq!(value(line.r), 1.0);
        assert_eq!(line.id, "line1");
    }
}

#[test]
fn update_with_a_key_that_a_line_does_not_have_is_refused() {
    let mut line = create_default_line();
    let refused = line.update(r#"{"r": 10.0, "rr": 11.0, "zz": 1}"#);
    assert!(matches!(
        refused,
        Err(LineError::Deserialization(ValidationError::UnexpectedField(ref name))) if name == "rr"
    ));
    assert_eq!(value(line.r), 1.0);
}

#[test]
fn update_that_leaves_no_line_is_refused_and_changes_nothing() {
    let mut line = create_default_line();
    let result = line.update(r#"{"x": 7.0, "r": "ten"}"#);
    assert!(matches!(result, Err(LineError::R(_))));
    assert_eq!(value(line.r), 1.0);
    assert_eq!(value(line.x), 2.0);
}

#[test]
fn test_handle_line_update() {
    let mut registry = AssetRegistry::default();
    let mut lines: Components<Line> = Components::new();

    let line = create_event_line();

    handle_register_events(
        vec![RegisterEvent { id: "line1".to_string(), component: line }],
        &mut registry,
        &mut lines,
    );

    let entity = registry.find("line1").unwrap();
    let line = lines.get(entity).unwrap();
    assert_eq!(value(line.r), 1.0);
    assert_eq!(value(line.x), 2.0);
    assert_eq!(value(line.g1), 3.0);
    assert_eq!(value(line.b1), 4.0);

    let line_update = LineUpdater {
        r: Some(number(10.0)),
        x: Some(number(20.0)),
        g1: Some(number(30.0)),
        b1: Some(number(40.0)),
        ..Default::default()
    };

    let mut failures = Vec::new();
    handle_update_events(
        vec![UpdateEvent::<Line> { id: "line1".to_string(), update: line_update }],
        "line",
        &registry,
        &mut lines,
        &mut failures,
    );
    assert!(failures.is_empty());

    let entity = registry.find("line1").unwrap();
    let line = lines.get(entity).unwrap();
    assert_eq!(value(line.r), 10.0);
    assert_eq!(value(line.x), 20.0);
    assert_eq!(value(line.g1), 30.0);
    assert_eq!(value(line.b1), 40.0);
    assert_eq!(value(line.g2), 5.0);
}

#[test]
fn test_multiple_line_updates() {
    let mut registry = AssetRegistry::default();
    let mut lines: Components<Line> = Components::new();

    let component = create_event_line();

    handle_register_events(
        vec![RegisterEvent { id: "line1".to_string(), component }],
        &mut registry,
        &mut lines,
    );

    let updates = vec![
        LineUpdater {
            r: Some(number(10.0)),
            x: Some(number(20.0)),
            g1: Some(number(30.0)),
            b1: Some(number(40.0)),
            ..Default::default()
        },
        LineUpdater {
            r: Some(number(11.0)),
            x: Some(number(21.0)),
            g1: Some(number(31.0)),
            b1: Some(number(41.0)),
            ..Default::default()
        },
        LineUpdater {
            r: Some(number(12.0)),
            x: Some(number(22.0)),
            g1: Some(number(32.0)),
            b1: Some(number(42.0)),
            ..Default::default()
        },
    ];

    for update in updates {
        let expected = update.clone();

        let mut failures = Vec::new();
        handle_update_events(
            vec![UpdateEvent::<Line> { id: "line1".to_string(), update }],
            "line",
            &registry,
            &mut lines,
            &mut failures,
        );
        assert!(failures.is_empty());

        let entity = registry.find("line1").unwrap();
        let line = lines.get(entity).unwrap();
        assert_eq!(line.r, expected.r.unwrap());
        assert_eq!(line.x, expected.x.unwrap());
        assert_eq!(line.g1, expected.g1.unwrap());
        assert_eq!(line.b1, expected.b1.unwrap());
    }
}

#[test]
fn updates_in_one_flush_apply_in_the_order_of_the_queue() {
    let mut registry = AssetRegistry::default();
    let mut lines: Components<Line> = Components::new();
    handle_register_events(
        vec![RegisterEvent { id: "line1".to_string(), component: create_event_line() }],
        &mut registry,
        &mut lines,
    );
    let mut failures = Vec::new();
    handle_update_events(
        vec![
            UpdateEvent::<Line> {
                id: "line1".to_string(),
                update: LineUpdater {
                    r: Some(number(10.0)),
                    x: Some(number(20.0)),
                    ..Default::default()
                },
            },
            UpdateEvent::<Line> {
                id: "line1".to_string(),
                update: LineUpdater { r: Some(number(11.0)), ..Default::default() },
            },
        ],
        "line",
        &registry,
        &mut lines,
        &mut failures,
    );
    let line = lines.get(registry.find("line1").unwrap()).unwrap();
    assert_eq!(value(line.r), 11.0);
    assert_eq!(value(line.x), 20.0);
    assert_eq!(value(line.g1), 3.0);
}
