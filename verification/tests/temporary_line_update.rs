use iidm::{JsonSchema, TemporaryLimit, TemporaryLimitError, TemporaryLimitUpdater, Updatable};

#[test]
fn test_update_from_bad_json_updater() {
    let json = r#"{"nam": "coucou"}"#; // Incorrecte key
    let validation = TemporaryLimitUpdater::validate_json(json);
    assert!(
        validation.is_err(),
        "La validation devrait échouer avec une clé incorrecte"
    );
}

#[test]
fn test_update_from_good_json_updater() {
    let json = r#"{"name": "coucou"}"#;
    let validation = TemporaryLimitUpdater::validate_json(json);

    assert!(
        validation.is_ok(),
        "La validation devrait réussir avec un JSON valide"
    );

    if let Ok(validated) = validation {
        assert_eq!(validated.name.unwrap(), "coucou");
    }
}

#[test]
fn test_update_from_missing_json_updater() {
    let json = r#"{"name": "coucou"}"#;
    let validation = TemporaryLimitUpdater::validate_json(json);
    assert!(validation.is_ok());
    if let Ok(validated) = validation {
        assert!(validated.value.is_none(), "La valeur devrait être None");
    }
}

#[test]
fn test_update_from_null_json_updater() {
    let json = r#"{"name": "coucou", "value": null}"#;
    let validation = TemporaryLimitUpdater::validate_json(json);
    assert!(validation.is_ok());
    if let Ok(validated) = validation {
        assert!(validated.value.is_none(), "La valeur devrait être None");
    }
}

#[test]
fn temporary_line_test() {
    let json = r#"{"nam": "coucou"}"#;
    let validation = TemporaryLimitUpdater::validate_json(json);
    assert!(
        validation.is_err(),
        "La validation devrait échouer avec une clé incorrecte"
    );

    let json = r#"{"name": "coucou"}"#;
    let validation = TemporaryLimitUpdater::validate_json(json);
    assert!(
        validation.is_ok(),
        "La validation devrait réussir avec un JSON valide"
    );

    if let Ok(validated) = validation {
        assert_eq!(validated.name.unwrap(), "coucou");
    }

    let json = r#"{"name": "coucou", "value": null}"#;
    let validation = TemporaryLimitUpdater::validate_json(json);
    assert!(validation.is_ok());
    if let Ok(validated) = validation {
        assert!(validated.value.is_none(), "La valeur devrait être None");
    }
}

fn limit() -> TemporaryLimit {
    TemporaryLimit::from_json(&iidm::json::parse_json(
        r#"{"name": "ten minutes", "acceptableDuration": 600, "value": 1.5}"#,
    ).unwrap())
    .unwrap()
}

#[test]
fn an_empty_update_of_a_limit_changes_nothing() {
    let mut updated = limit();
    updated.update(TemporaryLimitUpdater::default());
    let initial = limit();
    assert_eq!(updated.name, initial.name);
    assert_eq!(updated.acceptable_duration, initial.acceptable_duration);
    assert_eq!(updated.value, initial.value);
}

#[test]
fn an_update_of_a_limit_replaces_what_it_carries() {
    let mut updated = limit();
    updated.update(TemporaryLimitUpdater {
        acceptable_duration: Some(60),
        ..Default::default()
    });
    assert_eq!(updated.name, "ten minutes");
    assert_eq!(updated.acceptable_duration, 60);
    assert_eq!(f64::from_bits(updated.value.bits), 1.5);
}

#[test]
fn a_duration_must_be_a_whole_number_within_range() {
    let parse = |text: &str| TemporaryLimit::from_json(&iidm::json::parse_json(text).unwrap());
    assert!(matches!(
        parse(r#"{"name": "n", "acceptableDuration": 60.5, "value": 1.0}"#),
        Err(TemporaryLimitError::AcceptableDuration(_))
    ));
    assert!(matches!(
        parse(r#"{"name": "n", "acceptableDuration": 2147483648, "value": 1.0}"#),
        Err(TemporaryLimitError::AcceptableDuration(_))
    ));
    assert_eq!(
        parse(r#"{"name": "n", "acceptableDuration": -2147483648, "value": 1}"#)
            .unwrap()
            .acceptable_duration,
        i32::MIN
    );
    assert!(matches!(
        parse(r#"["n", 60, 1.0]"#),
        Err(TemporaryLimitError::Deserialization(_))
    ));
}

#[test]
fn a_limit_written_as_json_reads_back() {
    let initial = limit();
    let copy = TemporaryLimit::from_json(&initial.to_json()).unwrap();
    assert_eq!(copy.name, initial.name);
    assert_eq!(copy.acceptable_duration, initial.acceptable_duration);
    assert_eq!(copy.value, initial.value);
}
