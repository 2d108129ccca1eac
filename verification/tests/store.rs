use iidm::{
    Components, DispatchError, JsonSchema, PhysicalAssetRegistry, RegisterRequest, Substation,
    SubstationError, SubstationUpdater, TemporaryLimit, TemporaryLimitUpdater, Updatable,
    UpdateError, World,
};

fn limit(name: &str, duration: i32) -> TemporaryLimit {
    TemporaryLimit {
        name: name.to_string(),
        acceptable_duration: duration,
        value: iidm::Real { bits: 2.5f64.to_bits() },
    }
}

fn request(id: &str, component: &str) -> RegisterRequest {
    RegisterRequest { id: id.to_string(), component: serde_json::from_str(component).unwrap() }
}

#[test]
fn a_handle_holds_at_most_one_record_of_a_type() {
    let mut registry = PhysicalAssetRegistry::new();
    let a = registry.upsert("a");
    let b = registry.upsert("b");
    let mut limits: Components<TemporaryLimit> = Components::new();
    assert!(limits.is_empty());
    assert!(limits.get(a).is_none());

    limits.insert(a, limit("first", 1));
    limits.insert(b, limit("other", 2));
    limits.insert(a, limit("second", 3));
    assert_eq!(limits.len(), 2);
    assert!(limits.contains(a) && limits.contains(b));
    assert_eq!(limits.get(a).unwrap().name, "second");
    assert_eq!(limits.get(b).unwrap().name, "other");
}

#[test]
fn an_update_of_a_handle_without_a_record_changes_nothing() {
    let mut registry = PhysicalAssetRegistry::new();
    let a = registry.upsert("a");
    let b = registry.upsert("b");
    let mut limits: Components<TemporaryLimit> = Components::new();
    limits.insert(a, limit("first", 1));
    let applied = limits.update(
        b,
        TemporaryLimitUpdater { acceptable_duration: Some(9), ..Default::default() },
    );
    assert!(!applied);
    assert_eq!(limits.len(), 1);
    assert_eq!(limits.get(a).unwrap().acceptable_duration, 1);
    assert!(limits.update(
        a,
        TemporaryLimitUpdater { acceptable_duration: Some(9), ..Default::default() }
    ));
    assert_eq!(limits.get(a).unwrap().acceptable_duration, 9);
    assert_eq!(limits.get(a).unwrap().name, "first");
}

#[test]
fn a_substation_is_read_validated_and_updated() {
    let text = r#"{"id": "s1", "country": "FR", "tso": "RTE", "geographicalTags": ["north"]}"#;
    let mut substation = Substation::validate_json(text).unwrap();
    assert_eq!(substation.id, "s1");
    assert_eq!(substation.geographical_tags, vec!["north".to_string()]);

    let bare = Substation::from_json_str(r#"{"id": "s2", "country": "BE", "tso": "Elia"}"#).unwrap();
    assert!(bare.geographical_tags.is_empty());

    assert!(matches!(
        Substation::from_json_str(r#"{"id": "s3", "tso": "Elia"}"#),
        Err(SubstationError::Country(_))
    ));
    assert!(matches!(
        Substation::from_json_str(r#"{"id": "s3", "country": "BE", "tso": "E", "geographicalTags": [1]}"#),
        Err(SubstationError::GeographicalTags(_))
    ));
    assert!(matches!(
        Substation::validate_json(r#"{"id": "s3", "country": "BE", "tso": "E", "voltageLevels": []}"#),
        Err(SubstationError::Deserialization(_))
    ));

    substation.update(SubstationUpdater {
        tso: Some("Amprion".to_string()),
        ..Default::default()
    });
    assert_eq!(substation.tso, "Amprion");
    assert_eq!(substation.country, "FR");
    substation.update_from_json(r#"{"geographicalTags": []}"#).unwrap();
    assert!(substation.geographical_tags.is_empty());
    assert_eq!(
        SubstationUpdater::fields_json(),
        vec!["country".to_string(), "tso".to_string(), "geographicalTags".to_string()]
    );
    let copy = substation.clone();
    assert_eq!(copy.id, substation.id);
    assert_eq!(copy.tso, substation.tso);
}

#[test]
fn the_world_serves_each_of_its_types_under_its_tag() {
    let mut world = World::new();
    let handle = world.registry.upsert("x");
    world.substations.insert(
        handle,
        Substation::from_json_str(r#"{"id": "x", "country": "FR", "tso": "RTE"}"#).unwrap(),
    );
    world.temporary_limits.insert(handle, limit("l", 60));

    world.update("substation", &request("x", r#"{"country": "BE"}"#)).unwrap();
    assert_eq!(world.substations.get(handle).unwrap().country, "BE");
    world.update("temporary_limit", &request("x", r#"{"acceptableDuration": 5}"#)).unwrap();
    assert_eq!(world.temporary_limits.get(handle).unwrap().acceptable_duration, 5);

    for tag in ["network", "line", "current_limits"] {
        match world.update(tag, &request("x", "{}")) {
            Err(DispatchError::Handler(UpdateError::NotFoundError(detail))) => assert_eq!(
                detail,
                format!("Component of type '{}' not found on entity with ID 'x'", tag)
            ),
            other => panic!("unexpected answer: {:?}", other),
        }
    }
    assert!(matches!(
        world.update("Substation", &request("x", "{}")),
        Err(DispatchError::UnknownType(_))
    ));
}

#[test]
fn the_world_registers_each_of_its_types_under_its_tag() {
    let mut world = World::new();
    world
        .register("substation", &request("x", r#"{"id": "x", "country": "FR", "tso": "RTE"}"#))
        .unwrap();
    world
        .register(
            "temporary_limit",
            &request("x", r#"{"name": "n", "acceptableDuration": 60, "value": 1.5}"#),
        )
        .unwrap();
    let handle = world.registry.find("x").unwrap();
    assert_eq!(world.registry.len(), 1);
    assert_eq!(world.substations.get(handle).unwrap().tso, "RTE");
    assert_eq!(world.temporary_limits.get(handle).unwrap().name, "n");

    match world.register("substation", &request("y", r#"{"id": "y", "country": "FR"}"#)) {
        Err(DispatchError::Handler(UpdateError::ValidationError(detail))) => {
            assert!(detail.contains("Schema validation failed"), "{}", detail)
        }
        other => panic!("unexpected answer: {:?}", other),
    }
    assert_eq!(world.registry.find("y"), None);
    assert!(matches!(
        world.register("generator", &request("z", "{}")),
        Err(DispatchError::UnknownType(tag)) if tag == "generator"
    ));
    assert_eq!(world.registry.len(), 1);
}
