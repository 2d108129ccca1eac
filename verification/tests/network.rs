use chrono::{DateTime, FixedOffset, TimeZone};
use iidm::{
    Identifiable, Network, NetworkError, NetworkUpdater, Substation, Timestamp, Updatable, World,
};
use std::str::FromStr;

const DATETIME_FORMAT: &str = "%Y-%m-%dT%H:%M:%S%.3f%:z";

const VALID_NETWORK_JSON: &str = r#"{
        "version": "1.12",
        "id": "sim1",
        "caseDate": "2013-01-15T18:45:00.000+01:00",
        "forecastDistance": 0,
        "sourceFormat": "test",
        "minimumValidationLevel": "STEADY_STATE_HYPOTHESIS",
        "substations": [],
        "lines": []
    }"#;

fn instant(text: &str) -> Timestamp {
    let date = DateTime::<FixedOffset>::from_str(text).unwrap();
    Timestamp {
        seconds: date.timestamp(),
        nanos: date.timestamp_subsec_nanos(),
        offset: date.offset().local_minus_utc(),
    }
}

fn formatted(instant: Timestamp) -> String {
    FixedOffset::east_opt(instant.offset)
        .unwrap()
        .timestamp_opt(instant.seconds, instant.nanos)
        .unwrap()
        .format(DATETIME_FORMAT)
        .to_string()
}

fn create_test_network() -> Network {
    Network {
        version: "1.0".to_string(),
        id: "test_network".to_string(),
        case_date: instant("2024-02-23T10:00:00.000+01:00"),
        forecast_distance: 0,
        source_format: "test".to_string(),
        minimum_validation_level: "STEADY_STATE_HYPOTHESIS".to_string(),
        substations: vec![
            Substation {
                id: "sub1".to_string(),
                country: "FR".to_string(),
                tso: "RTE".to_string(),
                geographical_tags: vec!["region1".to_string()],
            },
            Substation {
                id: "sub2".to_string(),
                country: "FR".to_string(),
                tso: "RTE".to_string(),
                geographical_tags: vec!["region2".to_string()],
            },
        ],
        lines: vec![],
    }
}

fn create_default_network() -> Network {
    Network::from_json_str(VALID_NETWORK_JSON).unwrap()
}

fn assert_default_values(network: &Network) {
    assert_eq!(network.version, "1.12");
    assert_eq!(network.id, "sim1");
    assert_eq!(formatted(network.case_date), "2013-01-15T18:45:00.000+01:00");
    assert_eq!(network.forecast_distance, 0);
    assert_eq!(network.source_format, "test");
    assert_eq!(network.minimum_validation_level, "STEADY_STATE_HYPOTHESIS");
    assert!(network.substations.is_empty());
    assert!(network.lines.is_empty());
}

#[test]
fn network_test_deserialize_from_json() {
    let network = Network::from_json_str(VALID_NETWORK_JSON).unwrap();
    assert_default_values(&network);
}

#[test]
fn test_update_basic_fields() {
    let mut network = create_default_network();
    network.update(NetworkUpdater {
        case_date: Some(instant("2024-02-21T10:00:00.000+01:00")),
        forecast_distance: Some(1),
        source_format: Some("updated".to_string()),
        minimum_validation_level: Some("EQUIPMENT".to_string()),
        ..Default::default()
    });

    assert_eq!(formatted(network.case_date), "2024-02-21T10:00:00.000+01:00");
    assert_eq!(network.forecast_distance, 1);
    assert_eq!(network.source_format, "updated");
    assert_eq!(network.minimum_validation_level, "EQUIPMENT");
    assert_eq!(network.version, "1.12");
}

#[test]
fn test_update_with_empty_update() {
    let mut network = create_default_network();

    network.update(NetworkUpdater::default());

    assert_default_values(&network);
}

#[test]
fn network_test_json_update_with_invalid_json() {
    let mut network = create_default_network();
    assert!(network.update_from_json("invalid json").is_err());
}

#[test]
fn network_test_json_update_with_empty_json() {
    let mut network = create_default_network();
    network.update_from_json("{}").unwrap();
    assert_default_values(&network);
}

#[test]
fn test_json_update_with_valid_fields() {
    let mut network = create_default_network();
    network
        .update_from_json(
            r#"{
                "caseDate": "2024-02-21T10:00:00.000+01:00",
                "forecastDistance": 2
            }"#,
        )
        .unwrap();

    assert_eq!(formatted(network.case_date), "2024-02-21T10:00:00.000+01:00");
    assert_eq!(network.forecast_distance, 2);
}

#[test]
fn test_network_register() {
    let mut world = World::new();

    let network = create_test_network();
    network.register(&mut world);

    assert!(world.registry.find("test_network").is_some());
    assert!(world.registry.find("sub1").is_some());
    assert!(world.registry.find("sub2").is_some());

    assert_eq!(world.substations.len(), 2);
    let sub1 = world.substations.get(world.registry.find("sub1").unwrap()).unwrap();
    assert_eq!(sub1.id, "sub1");
    let sub2 = world.substations.get(world.registry.find("sub2").unwrap()).unwrap();
    assert_eq!(sub2.id, "sub2");
    assert_eq!(world.networks.len(), 1);
    let stored = world.networks.get(world.registry.find("test_network").unwrap()).unwrap();
    assert_eq!(stored.substations.len(), 2);
}

#[test]
fn test_network_register_empty() {
    let mut world = World::new();

    let mut network = create_test_network();
    network.substations.clear();

    network.register(&mut world);

    assert_eq!(world.substations.len(), 0);
}

#[test]
fn test_network_register_idempotency() {
    let mut world = World::new();

    let network = create_test_network();

    network.register(&mut world);
    network.register(&mut world);

    assert_eq!(world.substations.len(), 2);
    assert!(world.substations.get(world.registry.find("sub1").unwrap()).is_some());
    assert!(world.substations.get(world.registry.find("sub2").unwrap()).is_some());
    assert_eq!(world.registry.len(), 3);
}

#[test]
fn a_date_that_is_no_date_is_a_date_error() {
    let error = Network::from_json_str(
        r#"{"version": "1", "id": "n", "caseDate": "yesterday", "forecastDistance": 0,
            "sourceFormat": "t", "minimumValidationLevel": "E"}"#,
    )
    .unwrap_err();
    assert!(matches!(error, NetworkError::DateParse(_)));
    assert!(error.to_string().starts_with("Date parsing error: "));
    assert!(error.to_string().len() > "Date parsing error: ".len());
}

#[test]
fn a_date_that_is_no_string_is_a_field_error() {
    let error = Network::from_json_str(
        r#"{"version": "1", "id": "n", "caseDate": 5, "forecastDistance": 0,
            "sourceFormat": "t", "minimumValidationLevel": "E"}"#,
    )
    .unwrap_err();
    assert!(matches!(error, NetworkError::CaseDate(_)));
}

#[test]
fn a_date_is_read_by_its_instant_and_offset() {
    let network = create_default_network();
    assert_eq!(network.case_date.offset, 3600);
    assert_eq!(network.case_date.nanos, 0);
    assert_eq!(network.case_date.seconds, 1358271900);
}

#[test]
fn a_network_holds_the_substations_and_lines_of_its_payload() {
    let network = Network::from_json_str(
        r#"{"version": "1", "id": "n", "caseDate": "2013-01-15T18:45:00Z", "forecastDistance": 3,
            "sourceFormat": "t", "minimumValidationLevel": "E",
            "substations": [{"id": "s", "country": "FR", "tso": "RTE", "geographicalTags": ["a", "b"]}],
            "lines": [{"id": "l", "r": 1, "x": 2, "g1": 3, "b1": 4, "g2": 5, "b2": 6,
                       "voltageLevelId1": "v1", "bus1": "b1", "connectableBus1": "c1",
                       "voltageLevelId2": "v2", "bus2": "b2", "connectableBus2": "c2"}]}"#,
    )
    .unwrap();
    assert_eq!(network.forecast_distance, 3);
    assert_eq!(network.substations.len(), 1);
    assert_eq!(network.substations[0].geographical_tags, vec!["a".to_string(), "b".to_string()]);
    assert_eq!(network.lines.len(), 1);
    assert_eq!(f64::from_bits(network.lines[0].b2.bits), 6.0);

    let mut world = World::new();
    network.register(&mut world);
    assert_eq!(world.lines.len(), 1);
    assert_eq!(world.lines.get(world.registry.find("l").unwrap()).unwrap().bus2, "b2");
    assert_eq!(network.id(), "n");
}

#[test]
fn a_json_update_cannot_name_the_identity_or_an_unknown_key() {
    let mut network = create_default_network();
    let refused = network.update_from_json(r#"{"forecastDistance": 5, "id": "other"}"#);
    assert!(matches!(
        refused,
        Err(NetworkError::Deserialization(iidm::ValidationError::UnexpectedField(ref name)))
            if name == "id"
    ));
    let refused = network.update_from_json(r#"{"forecastDistances": 5}"#);
    assert!(matches!(
        refused,
        Err(NetworkError::Deserialization(iidm::ValidationError::UnexpectedField(_)))
    ));
    assert!(matches!(
        network.update_from_json("7"),
        Err(NetworkError::Deserialization(iidm::ValidationError::MalformedInput(_)))
    ));
    assert_default_values(&network);
}
