use iidm::json::parse_json;
use iidm::{
    CurrentLimits, CurrentLimitsUpdater, JsonSchema, Line, LineUpdater, Network, NetworkUpdater,
    Substation, SubstationUpdater, TemporaryLimit, TemporaryLimitUpdater,
};

const LINE: &str = r#"{"id": "l", "r": 1, "x": 2, "g1": 3, "b1": 4, "g2": 5, "b2": 6,
    "voltageLevelId1": "v1", "bus1": "b1", "connectableBus1": "c1",
    "voltageLevelId2": "v2", "bus2": "b2", "connectableBus2": "c2",
    "currentLimits1": {"permanentLimit": 1}, "currentLimits2": {"permanentLimit": 2}}"#;

const NETWORK: &str = r#"{"version": "1", "id": "n", "caseDate": "2013-01-15T18:45:00Z",
    "forecastDistance": 0, "sourceFormat": "t", "minimumValidationLevel": "E",
    "substations": [], "lines": []}"#;

const SUBSTATION: &str = r#"{"id": "s", "country": "FR", "tso": "RTE", "geographicalTags": []}"#;

const LIMITS: &str = r#"{"permanentLimit": 1, "temporaryLimits": []}"#;

const LIMIT: &str = r#"{"name": "n", "acceptableDuration": 1, "value": 2}"#;

/// The payload with `true` under `key`: a value that no field takes.
fn spoiled(payload: &str, key: &str) -> iidm::Json {
    match parse_json(payload).unwrap() {
        iidm::Json::Object(mut members) => {
            iidm::json::put_member(&mut members, key.to_string(), iidm::Json::Bool(true));
            iidm::Json::Object(members)
        }
        other => other,
    }
}

fn keys(payload: &str) -> Vec<String> {
    match parse_json(payload).unwrap() {
        iidm::Json::Object(members) => members.into_iter().map(|member| member.0).collect(),
        _ => Vec::new(),
    }
}

#[test]
fn each_field_of_a_line_has_its_error() {
    assert_eq!(keys(LINE).len(), 15);
    for key in keys(LINE) {
        let error = Line::from_json(&spoiled(LINE, &key)).unwrap_err();
        assert_eq!(error.to_string(), format!("{} error: missing or invalid value", key));
        if key != "id" {
            let error = LineUpdater::from_json(&spoiled(LINE, &key)).unwrap_err();
            assert_eq!(error.to_string(), format!("{} error: missing or invalid value", key));
        }
    }
    assert!(Line::from_json(&parse_json(LINE).unwrap()).is_ok());
    assert!(LineUpdater::from_json(&spoiled(LINE, "id")).is_ok());
}

#[test]
fn each_field_of_a_network_has_its_error() {
    assert_eq!(keys(NETWORK).len(), 8);
    for key in keys(NETWORK) {
        let error = Network::from_json(&spoiled(NETWORK, &key)).unwrap_err();
        assert_eq!(error.to_string(), format!("{} error: missing or invalid value", key));
        if key != "id" {
            let error = NetworkUpdater::from_json(&spoiled(NETWORK, &key)).unwrap_err();
            assert_eq!(error.to_string(), format!("{} error: missing or invalid value", key));
        }
    }
}

#[test]
fn each_field_of_a_substation_has_its_error() {
    assert_eq!(keys(SUBSTATION).len(), 4);
    for key in keys(SUBSTATION) {
        let error = Substation::from_json(&spoiled(SUBSTATION, &key)).unwrap_err();
        assert_eq!(error.to_string(), format!("{} error: missing or invalid value", key));
        if key != "id" {
            let error = SubstationUpdater::from_json(&spoiled(SUBSTATION, &key)).unwrap_err();
            assert_eq!(error.to_string(), format!("{} error: missing or invalid value", key));
        }
    }
}

#[test]
fn each_field_of_the_limits_has_its_error() {
    for key in keys(LIMITS) {
        let error = CurrentLimits::from_json(&spoiled(LIMITS, &key)).unwrap_err();
        assert_eq!(error.to_string(), format!("{} error: missing or invalid value", key));
        let error = CurrentLimitsUpdater::from_json(&spoiled(LIMITS, &key)).unwrap_err();
        assert_eq!(error.to_string(), format!("{} error: missing or invalid value", key));
    }
    for key in keys(LIMIT) {
        let error = TemporaryLimit::from_json(&spoiled(LIMIT, &key)).unwrap_err();
        assert_eq!(error.to_string(), format!("{} error: missing or invalid value", key));
        let error = TemporaryLimitUpdater::from_json(&spoiled(LIMIT, &key)).unwrap_err();
        assert_eq!(error.to_string(), format!("{} error: missing or invalid value", key));
    }
}

#[test]
fn the_first_field_at_fault_is_the_one_reported() {
    let both = match spoiled(LINE, "x") {
        iidm::Json::Object(mut members) => {
            iidm::json::put_member(&mut members, "r".to_string(), iidm::Json::Null);
            iidm::Json::Object(members)
        }
        other => other,
    };
    let error = Line::from_json(&both).unwrap_err();
    assert!(matches!(error, iidm::LineError::R(_)));
}
