use iidm::handlers::{failure_for, lines_section_handler, process_upload, upload_iidm};
use iidm::iidm_ecs::{add_switch_component, change_switch, load_switchs, Switch};
use iidm::{
    Components, EntityNotFoundEvent, ErrorType, IIdmTableTemplate, PhysicalAssetRegistry,
    UpdateError, UploadError, UploadField, World,
};

const NETWORK: &str = r#"{"version": "1.12", "id": "sim1",
    "caseDate": "2013-01-15T18:45:00.000+01:00", "forecastDistance": 0, "sourceFormat": "test",
    "minimumValidationLevel": "STEADY_STATE_HYPOTHESIS",
    "substations": [{"id": "s1", "country": "FR", "tso": "RTE"}], "lines": []}"#;

fn field(name: Option<&str>, content: &str) -> UploadField {
    UploadField { name: name.map(|name| name.to_string()), content: content.to_string() }
}

#[test]
fn each_error_has_its_status_and_its_words() {
    let cases = [
        (UpdateError::SerializationError("a".to_string()), 400, "Failed to parse JSON: a"),
        (UpdateError::ValidationError("b".to_string()), 400, "Invalid network data: b"),
        (UpdateError::NotFoundError("c".to_string()), 404, "Component not found: c"),
        (UpdateError::InternalError("d".to_string()), 500, "Internal server error: d"),
    ];
    for (error, status, words) in cases {
        assert_eq!(error.status_code(), status);
        assert_eq!(error.to_string(), words);
        let (sent, body) = error.into_response();
        assert_eq!(sent, status);
        assert_eq!(body.status, words);
    }
}

#[test]
fn an_upload_error_is_a_bad_request() {
    let (status, words) = UploadError::NoFile.into_response();
    assert_eq!(status, 400);
    assert_eq!(words, "No IIDM file provided");
    assert_eq!(
        UploadError::MultipartError("cut".to_string()).to_string(),
        "Multipart field error: cut"
    );
    assert_eq!(
        UploadError::TemplateError("gone".to_string()).to_string(),
        "Template rendering error: gone"
    );
}

#[test]
fn the_network_is_read_out_of_the_first_part_named_iidm_file() {
    let fields = vec![
        field(None, "noise"),
        field(Some("other"), NETWORK),
        field(Some("iidm_file"), NETWORK),
        field(Some("iidm_file"), "not json"),
    ];
    let network = process_upload(&fields).unwrap();
    assert_eq!(network.id, "sim1");
    assert_eq!(network.substations.len(), 1);
}

#[test]
fn a_form_without_the_file_holds_no_file() {
    let fields = vec![field(None, NETWORK), field(Some("IIDM_FILE"), NETWORK)];
    assert!(matches!(process_upload(&fields), Err(UploadError::NoFile)));
    assert!(matches!(process_upload(&vec![]), Err(UploadError::NoFile)));
}

#[test]
fn a_file_that_is_no_network_is_a_json_error() {
    let fields = vec![field(Some("iidm_file"), "not json"), field(Some("iidm_file"), NETWORK)];
    let error = process_upload(&fields).unwrap_err();
    assert!(matches!(error, UploadError::JsonError(_)));
    assert!(error.to_string().starts_with("JSON parsing error: Deserialization error: "));
}

#[test]
fn an_upload_registers_the_network() {
    let mut world = World::new();
    let network = upload_iidm(&mut world, &vec![field(Some("iidm_file"), NETWORK)]).unwrap();
    assert!(world.registry.find("sim1").is_some());
    assert!(world.registry.find("s1").is_some());
    assert_eq!(world.substations.len(), 1);
    let page = IIdmTableTemplate::new("shown".to_string(), Some(network));
    assert_eq!(page.message, "shown");
    assert_eq!(page.network.unwrap().id, "sim1");

    let mut world = World::new();
    assert!(upload_iidm(&mut world, &vec![field(Some("file"), NETWORK)]).is_err());
    assert!(world.registry.is_empty());
    assert!(lines_section_handler().lines.is_empty());
}

#[test]
fn the_first_failure_of_a_request_is_found_by_its_identity() {
    let failures = vec![
        EntityNotFoundEvent {
            id: "a".to_string(),
            component_type: "line".to_string(),
            error_type: ErrorType::ComponentNotFound,
        },
        EntityNotFoundEvent {
            id: "b".to_string(),
            component_type: "line".to_string(),
            error_type: ErrorType::EntityNotFound,
        },
    ];
    match failure_for(&failures, "b") {
        Some(UpdateError::NotFoundError(detail)) => {
            assert_eq!(detail, "Entity with ID 'b' not found")
        }
        other => panic!("unexpected outcome: {:?}", other),
    }
    match failure_for(&failures, "a") {
        Some(UpdateError::NotFoundError(detail)) => {
            assert_eq!(detail, "Component of type 'line' not found on entity with ID 'a'")
        }
        other => panic!("unexpected outcome: {:?}", other),
    }
    assert!(failure_for(&failures, "c").is_none());
}

#[test]
fn switches_go_to_the_assets_of_their_identity() {
    let mut registry = PhysicalAssetRegistry::new();
    let known = registry.upsert("sw1");
    let mut switches: Components<Switch> = Components::new();
    load_switchs(
        &mut switches,
        &registry,
        vec![
            Switch { id: "sw1".to_string(), open: false },
            Switch { id: "sw2".to_string(), open: true },
        ],
    );
    assert_eq!(switches.len(), 1);
    assert!(!switches.get(known).unwrap().open);

    change_switch(&mut switches, true, known);
    assert!(switches.get(known).unwrap().open);
    assert_eq!(switches.get(known).unwrap().id, "sw1");

    let other = registry.upsert("sw2");
    change_switch(&mut switches, true, other);
    assert!(!switches.contains(other));
    add_switch_component(&mut switches, other, Switch { id: "sw2".to_string(), open: false });
    assert!(!switches.get(other).unwrap().open);
}
