use iidm::{
    find_bus_node_by_equipment_id, load_bus_nodes_from_metadata, spawn_bus_node, BusNode, MetadataGrid,
    BusNodeRegistry,
};

fn check_node_creation(bus_node_registry: &BusNodeRegistry, equipment_id: &str, expected_exists: bool) {
    let entity = find_bus_node_by_equipment_id(bus_node_registry, equipment_id);
    assert_eq!(
        entity.is_some(),
        expected_exists,
        "Node existence check failed for {}",
        equipment_id
    );
}

#[test]
fn test_spawn_single_bus_node() {
    let mut bus_node_registry = BusNodeRegistry::default();

    let equipment_id = "test_bus_node_1".to_string();
    let entity = spawn_bus_node(&mut bus_node_registry, equipment_id.clone());

    check_node_creation(&bus_node_registry, &equipment_id, true);
    assert_eq!(find_bus_node_by_equipment_id(&bus_node_registry, &equipment_id), Some(entity));
}

#[test]
fn test_find_nonexistent_bus_node() {
    let bus_node_registry = BusNodeRegistry::default();
    let result = find_bus_node_by_equipment_id(&bus_node_registry, "nonexistent");
    assert!(result.is_none(), "Should return None for nonexistent node");
}

#[test]
fn test_load_multiple_bus_nodes() {
    let mut bus_node_registry = BusNodeRegistry::default();

    let grid = MetadataGrid {
        bus_nodes: vec![
            BusNode {
                equipment_id: "node1".to_string(),
                ..Default::default()
            },
            BusNode {
                equipment_id: "node2".to_string(),
                ..Default::default()
            },
            BusNode {
                equipment_id: "node3".to_string(),
                ..Default::default()
            },
        ],
        ..Default::default()
    };

    load_bus_nodes_from_metadata(&mut bus_node_registry, &grid);

    for node in &grid.bus_nodes {
        check_node_creation(&bus_node_registry, &node.equipment_id, true);
    }
    assert_eq!(bus_node_registry.0.len(), 3);
}

#[test]
fn test_bus_node_uniqueness() {
    let mut bus_node_registry = BusNodeRegistry::default();

    let equipment_id = "duplicate_node".to_string();

    let entity1 = spawn_bus_node(&mut bus_node_registry, equipment_id.clone());
    let entity2 = spawn_bus_node(&mut bus_node_registry, equipment_id.clone());

    let registered_entity = find_bus_node_by_equipment_id(&bus_node_registry, &equipment_id)
        .expect("Node should exist in registry");
    assert_eq!(
        registered_entity, entity2,
        "Registry should contain the most recently spawned entity"
    );
    assert_ne!(
        registered_entity, entity1,
        "Registry should not contain the first spawned entity"
    );
    assert_eq!(bus_node_registry.0.len(), 1);
    assert!(find_bus_node_by_equipment_id(&bus_node_registry, "nonexistent").is_none());
}

#[test]
fn ecs_bus_nodes_test_load_empty_grid() {
    let mut bus_node_registry = BusNodeRegistry::default();
    let grid = MetadataGrid::default();

    load_bus_nodes_from_metadata(&mut bus_node_registry, &grid);

    assert!(
        bus_node_registry.0.is_empty(),
        "Node registry should be empty for empty grid"
    );
}

#[test]
fn ecs_bus_nodes_test_empty_metadata_grid() {
    let _empty_grid = MetadataGrid::default();
    let node_registry = BusNodeRegistry::default();

    assert!(
        node_registry.0.is_empty(),
        "Registry should be empty for empty grid"
    );
}

#[test]
fn ecs_bus_nodes_test_duplicate_nodes() {
    let mut node_registry = BusNodeRegistry::default();

    let duplicate_id = "DUPLICATE_NODE".to_string();

    let entity1 = spawn_bus_node(&mut node_registry, duplicate_id.clone());
    let entity2 = spawn_bus_node(&mut node_registry, duplicate_id.clone());

    let registered_entity = find_bus_node_by_equipment_id(&node_registry, &duplicate_id)
        .expect("Node should exist in registry");
    assert_eq!(
        registered_entity, entity2,
        "Registry should contain the most recently spawned entity"
    );
    assert_ne!(
        registered_entity, entity1,
        "Registry should not contain the first spawned entity"
    );
}

#[test]
fn the_registry_of_edges_is_loaded_with_the_buses() {
    let mut edge_registry = iidm::EdgeRegistry::default();
    let grid = MetadataGrid {
        bus_nodes: vec![BusNode { equipment_id: "bus".to_string(), ..Default::default() }],
        edges: vec![iidm::Edge { equipment_id: "edge".to_string(), ..Default::default() }],
        ..Default::default()
    };
    iidm::load_edges_from_metadata(&mut edge_registry, &grid);
    assert!(iidm::find_edge_by_equipment_id(&edge_registry, "bus").is_some());
    assert!(iidm::find_edge_by_equipment_id(&edge_registry, "edge").is_none());
    let minted = iidm::spawn_edge(&mut edge_registry, "edge".to_string());
    assert_eq!(iidm::find_edge_by_equipment_id(&edge_registry, "edge"), Some(minted));
}
