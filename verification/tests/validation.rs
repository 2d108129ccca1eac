use iidm::validation::{
    check_shape, contains_name, validate_json, validate_payload, validate_value, validate_value_as,
};
use iidm::{CurrentLimitsUpdater, Json, Line, ValidationError};

fn names(list: &[&str]) -> Vec<String> {
    list.iter().map(|name| name.to_string()).collect()
}

const ANY: &str = "{}";

#[test]
fn rejects_text_that_is_no_json() {
    let result = validate_payload("invalid json", &names(&["r"]), ANY);
    assert!(matches!(result, Err(ValidationError::MalformedInput(_))));
}

#[test]
fn rejects_a_payload_that_is_no_object() {
    for text in ["[1, 2]", "1", "\"r\"", "null", "true"] {
        let result = validate_payload(text, &names(&["r"]), ANY);
        match result {
            Err(ValidationError::MalformedInput(message)) => {
                assert_eq!(message, "JSON input must be an object")
            }
            other => panic!("unexpected outcome: {:?}", other),
        }
    }
}

#[test]
fn rejects_an_unexpected_field() {
    let result = validate_payload("{\"permanentLimits\": 1.0}", &names(&["permanentLimit"]), ANY);
    match result {
        Err(ValidationError::UnexpectedField(name)) => assert_eq!(name, "permanentLimits"),
        other => panic!("unexpected outcome: {:?}", other),
    }
}

#[test]
fn reports_the_first_unexpected_field_before_any_schema_violation() {
    let schema = r#"{"properties": {"a": {"type": "string"}}}"#;
    let result = validate_payload(r#"{"a": 1, "zz": 2, "b": 3}"#, &names(&["a"]), schema);
    match result {
        Err(ValidationError::UnexpectedField(name)) => assert_eq!(name, "b"),
        other => panic!("unexpected outcome: {:?}", other),
    }
}

#[test]
fn rejects_a_payload_that_violates_the_schema() {
    let schema = r#"{"properties": {"a": {"type": "number", "minimum": 0}}}"#;
    for text in [r#"{"a": "x"}"#, r#"{"a": -1}"#] {
        let result = validate_payload(text, &names(&["a"]), schema);
        match result {
            Err(error @ ValidationError::SchemaViolation(_)) => {
                assert!(error.to_string().starts_with("Schema validation failed: "))
            }
            other => panic!("unexpected outcome: {:?}", other),
        }
    }
}

#[test]
fn a_schema_that_is_none_is_satisfied_by_nothing() {
    for schema in ["not json", r#"{"type": 5}"#] {
        let result = validate_payload("{}", &names(&[]), schema);
        assert!(matches!(result, Err(ValidationError::SchemaViolation(_))));
    }
}

#[test]
fn accepts_a_payload_that_passes_and_hands_it_back() {
    let schema = r#"{"properties": {"a": {"type": "number", "minimum": 0}}}"#;
    let payload = validate_payload(r#"{"a": 2}"#, &names(&["a", "b"]), schema).unwrap();
    assert!(matches!(payload.get("a"), Some(Json::Number(_))));
    assert!(validate_payload("{}", &names(&[]), ANY).is_ok());
}

#[test]
fn validates_a_parsed_value_like_its_text() {
    let value: serde_json::Value = serde_json::from_str(r#"{"a": 2, "c": 1}"#).unwrap();
    let result = validate_value(&value, &names(&["a"]), ANY);
    assert!(matches!(result, Err(ValidationError::UnexpectedField(name)) if name == "c"));
    let result = validate_value(&value, &names(&["a", "c"]), r#"{"required": ["d"]}"#);
    assert!(matches!(result, Err(ValidationError::SchemaViolation(_))));
    assert!(validate_value(&value, &names(&["c", "a"]), ANY).is_ok());
}

#[test]
fn the_shape_of_a_payload_is_checked_on_plain_data() {
    let payload = Json::Object(vec![
        ("a".to_string(), Json::Null),
        ("b".to_string(), Json::Bool(true)),
    ]);
    assert!(check_shape(&payload, &names(&["a", "b"])).is_ok());
    assert!(matches!(
        check_shape(&payload, &names(&["b"])),
        Err(ValidationError::UnexpectedField(name)) if name == "a"
    ));
    assert!(matches!(
        check_shape(&Json::Array(vec![]), &names(&["a"])),
        Err(ValidationError::MalformedInput(_))
    ));
    assert!(contains_name(&names(&["a", "b"]), &"b".to_string()));
    assert!(!contains_name(&names(&["a", "b"]), &"B".to_string()));
}

#[test]
fn validates_against_the_wire_format_of_a_type() {
    let updates = validate_json::<CurrentLimitsUpdater>(r#"{"permanentLimit": 3}"#).unwrap();
    assert_eq!(f64::from_bits(updates.permanent_limit.unwrap().bits), 3.0);
    let value: serde_json::Value = serde_json::from_str(r#"{"id": "l"}"#).unwrap();
    assert!(validate_value_as::<Line>(&value).is_err());
}

#[test]
fn errors_are_worded() {
    assert_eq!(
        ValidationError::UnexpectedField("x".to_string()).to_string(),
        "Unexpected field: x"
    );
    assert_eq!(
        ValidationError::SchemaViolation("why".to_string()).to_string(),
        "Schema validation failed: why"
    );
    assert_eq!(ValidationError::MalformedInput("how".to_string()).to_string(), "how");
}
