use iidm::ecs::{init_updatable_components, is_identifiable_type};
use iidm::update_registry::component_name;
use iidm::{
    DispatchError, EcsState, RegisterRequest, RegisterResponse, UpdateError, UpdateRegistry,
};

type Handler = fn(&u32, &RegisterRequest) -> Result<RegisterResponse, UpdateError>;

fn request(id: &str, component: &str) -> RegisterRequest {
    RegisterRequest { id: id.to_string(), component: serde_json::from_str(component).unwrap() }
}

fn echo(state: &u32, request: &RegisterRequest) -> Result<RegisterResponse, UpdateError> {
    Ok(RegisterResponse { status: format!("{}:{}", state, request.id) })
}

fn refuse(_state: &u32, request: &RegisterRequest) -> Result<RegisterResponse, UpdateError> {
    Err(UpdateError::NotFoundError(request.id.clone()))
}

#[test]
fn a_tag_is_the_name_of_the_type_in_snake_case() {
    assert_eq!(component_name("Line"), "line");
    assert_eq!(component_name("TemporaryLimit"), "temporary_limit");
    assert_eq!(component_name("TwoWindingsTransformer"), "two_windings_transformer");
    assert_eq!(component_name("HvdcLine"), "hvdc_line");
    assert_eq!(component_name(""), "");
    assert_eq!(component_name("ÉcoleX"), "école_x");
}

#[test]
fn dispatch_routes_by_tag() {
    let mut table: UpdateRegistry<Handler> = UpdateRegistry::new();
    table.register("line", echo);
    table.register("load", refuse);
    assert!(table.contains("line"));
    assert!(!table.contains("Line"));
    assert!(table.get_handler("load").is_some());
    assert!(table.get_handler("generator").is_none());

    let answer = table.dispatch("line", &7, &request("X", "{}")).unwrap();
    assert_eq!(answer.status, "7:X");
    match table.dispatch("load", &7, &request("X", "{}")) {
        Err(DispatchError::Handler(UpdateError::NotFoundError(id))) => assert_eq!(id, "X"),
        other => panic!("unexpected answer: {:?}", other),
    }
}

#[test]
fn dispatch_of_an_unknown_tag_is_an_error() {
    let mut table: UpdateRegistry<Handler> = UpdateRegistry::new();
    table.register("line", echo);
    match table.dispatch("generator", &7, &request("X", "{}")) {
        Err(error @ DispatchError::UnknownType(_)) => {
            assert_eq!(error.to_string(), "Unknown component type: generator");
            assert_eq!(error.status_code(), 500);
        }
        other => panic!("unexpected answer: {:?}", other),
    }
    let refused = DispatchError::Handler(UpdateError::ValidationError("v".to_string()));
    assert_eq!(refused.status_code(), 400);
    assert_eq!(refused.to_string(), "Invalid network data: v");
}

#[test]
fn the_table_is_filled_from_the_names_of_the_types() {
    let state: EcsState<Handler> = EcsState::new(vec![
        ("Line".to_string(), echo as Handler),
        ("TemporaryLimit".to_string(), refuse as Handler),
    ])
    .unwrap();
    assert!(state.update_registry.contains("line"));
    assert!(state.update_registry.contains("temporary_limit"));
    assert!(state.world.registry.is_empty());
    assert!(state.update_registry.dispatch("temporary_limit", &1, &request("a", "{}")).is_err());
}

#[test]
fn a_tag_that_comes_twice_stops_the_set_up() {
    let result: Result<EcsState<Handler>, String> = EcsState::new(vec![
        ("Line".to_string(), echo as Handler),
        ("Load".to_string(), echo as Handler),
        ("Line".to_string(), refuse as Handler),
    ]);
    assert_eq!(result.err(), Some("line".to_string()));

    let mut table: UpdateRegistry<Handler> = UpdateRegistry::new();
    table.register("load", echo);
    let filled = init_updatable_components(
        &mut table,
        vec![("Line".to_string(), echo as Handler), ("Load".to_string(), refuse as Handler)],
    );
    assert_eq!(filled, Err("load".to_string()));
    assert!(table.contains("line"));
}

#[test]
fn the_types_with_an_identity_are_known_by_name() {
    for name in [
        "Substation",
        "VoltageLevel",
        "Generator",
        "Load",
        "Line",
        "Switch",
        "ShuntCompensator",
        "StaticVarCompensator",
        "DanglingLine",
        "TieLine",
        "HvdcLine",
        "HvdcConverterStation",
    ] {
        assert!(is_identifiable_type(name), "{}", name);
    }
    for name in ["Network", "line", "CurrentLimits", ""] {
        assert!(!is_identifiable_type(name), "{}", name);
    }
}
