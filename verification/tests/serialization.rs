use iidm::{JsonSchema, Line, Real, Updatable};

const VALID_LINE_JSON: &str = r#"{
            "id": "NHV1_NHV2_1",
            "r": 3.0,
            "x": 33.0,
            "g1": 0.0,
            "b1": 1.93E-4,
            "g2": 0.0,
            "b2": 1.93E-4,
            "voltageLevelId1": "VLHV1",
            "bus1": "NHV1",
            "connectableBus1": "NHV1",
            "voltageLevelId2": "VLHV2",
            "bus2": "NHV2",
            "connectableBus2": "NHV2"   
        }"#;

fn value(number: Real) -> f64 {
    f64::from_bits(number.bits)
}

fn create_default_line() -> Line {
    Line::from_json_str(VALID_LINE_JSON).unwrap()
}

fn assert_default_values(line: &Line) {
    assert_eq!(line.id, "NHV1_NHV2_1");
    assert_eq!(value(line.r), 3.0);
    assert_eq!(value(line.x), 33.0);
    assert_eq!(value(line.g1), 0.0);
    assert_eq!(value(line.b1), 1.93E-4);
    assert_eq!(value(line.g2), 0.0);
    assert_eq!(value(line.b2), 1.93E-4);
    assert_eq!(line.voltage_level_id1, "VLHV1");
    assert_eq!(line.bus1, "NHV1");
    assert_eq!(line.connectable_bus1, "NHV1");
    assert_eq!(line.voltage_level_id2, "VLHV2");
    assert_eq!(line.bus2, "NHV2");
    assert_eq!(line.connectable_bus2, "NHV2");
    assert!(line.current_limits1.is_none());
    assert!(line.current_limits2.is_none());
}

#[test]
fn serialization_test_deserialize_from_json() {
    let line = Line::from_json_str(VALID_LINE_JSON).unwrap();
    assert_default_values(&line);
}

#[test]
fn serialization_test_serialize_to_json() {
    let line = create_default_line();
    let json = line.to_json();
    let deserialized = Line::from_json(&json).unwrap();
    assert_default_values(&deserialized);
}

#[test]
fn serialization_test_json_update_with_invalid_json() {
    let mut line = create_default_line();
    assert!(line.update_from_json("invalid json").is_err());
}

#[test]
fn serialization_test_json_update_with_empty_json() {
    let mut line = create_default_line();
    line.update_from_json("{}").unwrap();
    assert_default_values(&line);
}

#[test]
fn test_json_update_renamed_fields() {
    let mut line = create_default_line();
    line.update_from_json(r#"{"voltageLevelId1": "newvl1"}"#)
        .unwrap();
    assert_eq!(line.voltage_level_id1, "newvl1");
}

#[test]
fn json_update_clears_limits_on_null_and_keeps_them_when_absent() {
    let mut line = create_default_line();
    line.update_from_json(r#"{"currentLimits1": {"permanentLimit": 5.0}}"#).unwrap();
    assert!(line.current_limits1.is_some());
    line.update_from_json(r#"{"r": 4.0}"#).unwrap();
    assert!(line.current_limits1.is_some());
    assert_eq!(value(line.r), 4.0);
    line.update_from_json(r#"{"currentLimits1": null}"#).unwrap();
    assert!(line.current_limits1.is_none());
}

#[test]
fn a_missing_field_is_reported_by_its_wire_name() {
    let error = Line::from_json_str(r#"{"id": "l", "r": 1.0}"#).unwrap_err();
    assert!(matches!(error, iidm::LineError::X(_)));
    assert_eq!(error.to_string(), "x error: missing or invalid value");
}

#[test]
fn json_update_with_an_unknown_key_or_no_object_is_refused() {
    let mut line = create_default_line();
    let refused = line.update_from_json(r#"{"r": 9.0, "id": "other"}"#);
    assert!(matches!(
        refused,
        Err(iidm::LineError::Deserialization(iidm::ValidationError::UnexpectedField(ref name)))
            if name == "id"
    ));
    let refused = line.update_from_json("[]");
    assert!(matches!(
        refused,
        Err(iidm::LineError::Deserialization(iidm::ValidationError::MalformedInput(_)))
    ));
    assert_default_values(&line);
}
